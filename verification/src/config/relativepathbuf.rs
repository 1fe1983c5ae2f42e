//! Paths that a configuration may name: relative ones only.

use vstd::prelude::*;
use vstd::string::*;

verus! {

/// Whether `path` is relative: it does not start at the root `/`.
pub open spec fn is_relative(path: Seq<char>) -> bool {
    path.len() == 0 || path[0] != '/'
}

/// The one reason a path is refused: it is absolute.
#[derive(Debug, Clone, Copy, PartialEq, Eq)]
pub struct NotRelative;

impl NotRelative {
    /// Says why the path was refused.
    pub fn message(&self) -> (text: String)
        ensures
            text@ == "cannot create RelativePathBuf: Path is not relative"@,
    {
        String::from_str("cannot create RelativePathBuf: Path is not relative")
    }
}

/// A path that is known to be relative.
#[derive(Debug)]
pub struct RelativePathBuf(String);

impl View for RelativePathBuf {
    type V = Seq<char>;

    closed spec fn view(&self) -> Seq<char> {
        self.0@
    }
}

impl Clone for RelativePathBuf {
    fn clone(&self) -> (copy: Self)
        ensures
            copy@ == self@,
    {
        proof {
            use_type_invariant(self);
        }
        RelativePathBuf(self.0.clone())
    }
}

impl RelativePathBuf {
    #[verifier::type_invariant]
    spec fn well_formed(self) -> bool {
        is_relative(self.0@)
    }

    /// Accepts `value` if and only if it is relative.
    pub fn try_from(value: &str) -> (res: Result<RelativePathBuf, NotRelative>)
        ensures
            match res {
                Ok(path) => is_relative(value@) && path@ == value@,
                Err(_) => !is_relative(value@),
            },
    {
        if value.unicode_len() > 0 && value.get_char(0) == '/' {
            Err(NotRelative)
        } else {
            Ok(RelativePathBuf(String::from_str(value)))
        }
    }

    /// The path's text.
    pub fn as_path(&self) -> (path: &str)
        ensures
            path@ == self@,
            is_relative(path@),
    {
        proof {
            use_type_invariant(self);
        }
        self.0.as_str()
    }

    /// Gives up the wrapper for the path's text.
    pub fn into_pathbuf(self) -> (path: String)
        ensures
            path@ == self@,
            is_relative(path@),
    {
        proof {
            use_type_invariant(&self);
        }
        self.0
    }
}

} // verus!
