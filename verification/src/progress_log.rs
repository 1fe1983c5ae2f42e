//! The progress coordinator: an explicitly owned object that tracks at most
//! one progress session at a time.
//!
//! The coordinator only records what the session shows (length, position,
//! status text); a host reads it and draws.

use vstd::prelude::*;

verus! {

/// What one progress session shows.
pub struct SessionView {
    pub length: u64,
    pub position: u64,
    pub message: Seq<char>,
}

/// One bounded progress session.
#[derive(Debug)]
pub struct ProgressSession {
    length: u64,
    position: u64,
    message: String,
}

impl View for ProgressSession {
    type V = SessionView;

    closed spec fn view(&self) -> SessionView {
        SessionView { length: self.length, position: self.position, message: self.message@ }
    }
}

impl ProgressSession {
    /// The number of units the session was begun with.
    pub fn length(&self) -> (length: u64)
        ensures
            length == self@.length,
    {
        self.length
    }

    /// The number of units done so far.
    pub fn position(&self) -> (position: u64)
        ensures
            position == self@.position,
    {
        self.position
    }

    /// The current status text.
    pub fn message(&self) -> (message: &str)
        ensures
            message@ == self@.message,
    {
        self.message.as_str()
    }
}

/// The coordinator: no session, or the one active session.
#[derive(Debug)]
pub struct ProgressState {
    current: Option<ProgressSession>,
}

impl View for ProgressState {
    type V = Option<SessionView>;

    closed spec fn view(&self) -> Option<SessionView> {
        match self.current {
            Some(session) => Some(session@),
            None => None,
        }
    }
}

/// Returned where a session is asked for while another one is active.
#[derive(Debug, Clone, Copy, PartialEq, Eq)]
pub struct SessionActive;

/// The position `amount` units after `position`. It wraps around at the top
/// of `u64` instead of failing.
pub open spec fn advanced(position: u64, amount: u64) -> u64 {
    if position + amount <= u64::MAX {
        (position + amount) as u64
    } else {
        (position + amount - u64::MAX - 1) as u64
    }
}

/// `state` after `amount` more units are done: an active session moves on, and
/// nothing changes where none is active.
pub open spec fn after_increment(state: Option<SessionView>, amount: u64) -> Option<SessionView> {
    match state {
        Some(session) => Some(
            SessionView { position: advanced(session.position, amount), ..session },
        ),
        None => None,
    }
}

/// `state` after the status text is set to `message`: an active session shows
/// it, and nothing changes where none is active.
pub open spec fn after_message(state: Option<SessionView>, message: Seq<char>) -> Option<
    SessionView,
> {
    match state {
        Some(session) => Some(SessionView { message, ..session }),
        None => None,
    }
}

/// A session of `length` units as it begins: at position 0, with no status text.
pub open spec fn fresh_session(length: u64) -> SessionView {
    SessionView { length, position: 0, message: Seq::empty() }
}

impl ProgressState {
    /// A coordinator with no active session.
    pub fn new() -> (state: ProgressState)
        ensures
            state@ is None,
    {
        ProgressState { current: None }
    }

    /// Whether a session is active.
    pub fn is_active(&self) -> (active: bool)
        ensures
            active == (self@ is Some),
    {
        self.current.is_some()
    }

    /// The active session, if there is one.
    pub fn current(&self) -> (session: Option<&ProgressSession>)
        ensures
            match session {
                Some(s) => self@ == Some(s@),
                None => self@ is None,
            },
    {
        self.current.as_ref()
    }

    /// Begins a session of `length` units. Starting a second session while
    /// one is active is a fault of the caller, so the contract forbids it.
    pub fn begin(&mut self, length: u64)
        requires
            old(self)@ is None,
        ensures
            final(self)@ == Some(fresh_session(length)),
    {
        self.current = Some(ProgressSession { length, position: 0, message: String::new() });
    }

    /// Begins a session of `length` units unless one is active. An active
    /// session is never replaced: the call then fails and changes nothing.
    pub fn try_begin(&mut self, length: u64) -> (res: Result<(), SessionActive>)
        ensures
            match res {
                Ok(_) => old(self)@ is None && final(self)@ == Some(fresh_session(length)),
                Err(_) => old(self)@ is Some && final(self)@ == old(self)@,
            },
    {
        if self.current.is_some() {
            Err(SessionActive)
        } else {
            self.begin(length);
            Ok(())
        }
    }

    /// Ends the active session, if any, and hands it back for a last drawing.
    pub fn finish(&mut self) -> (ended: Option<ProgressSession>)
        ensures
            final(self)@ is None,
            match ended {
                Some(s) => old(self)@ == Some(s@),
                None => old(self)@ is None,
            },
    {
        self.current.take()
    }
}

/// Advances the active session by `amount` units; does nothing where no
/// session is active.
pub fn increment_progress(progress: &mut ProgressState, amount: u64)
    ensures
        final(progress)@ == after_increment(old(progress)@, amount),
{
    match progress.current.take() {
        Some(session) => {
            let position = if amount <= u64::MAX - session.position {
                session.position + amount
            } else {
                amount - (u64::MAX - session.position) - 1
            };
            progress.current = Some(
                ProgressSession { length: session.length, position, message: session.message },
            );
        },
        None => {},
    }
}

/// Sets the status text of the active session; does nothing where no session
/// is active.
pub fn set_progress_message(progress: &mut ProgressState, message: String)
    ensures
        final(progress)@ == after_message(old(progress)@, message@),
{
    match progress.current.take() {
        Some(session) => {
            progress.current = Some(
                ProgressSession { length: session.length, position: session.position, message },
            );
        },
        None => {},
    }
}

} // verus!
