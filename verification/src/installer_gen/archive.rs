//! The archive assembler: which file enters the archive next, what is shown
//! while it does, and when the archive is complete.
//!
//! Appending a file to the container and finishing the container are the
//! host's work. The writer names each job in turn and takes back whether
//! it succeeded.

use crate::installer_gen::included_files::IncludedFiles;
use crate::installer_gen::{files_or_none, FilesView, RumkinstFiles, SourceGroup};
use crate::progress_log::{
    after_increment, after_message, increment_progress, set_progress_message, ProgressState,
    SessionView,
};
use crate::text::{debug_text, quoted_between, texts};
use vstd::prelude::*;
use vstd::string::*;

verus! {

/// What the host is asked to do for the archive.
#[derive(Debug, PartialEq, Eq)]
pub enum ArchiveJob<'a> {
    /// Append the file at this path, content and metadata, as the next entry.
    Append(&'a str),
    /// Finish the container: every entry has been appended.
    Finish,
}

/// The mathematical value of an [`ArchiveJob`].
pub enum JobView {
    Append(Seq<char>),
    Finish,
}

impl<'a> View for ArchiveJob<'a> {
    type V = JobView;

    open spec fn view(&self) -> JobView {
        match *self {
            ArchiveJob::Append(path) => JobView::Append(path@),
            ArchiveJob::Finish => JobView::Finish,
        }
    }
}

/// Why writing the archive failed.
#[derive(Debug, PartialEq, Eq)]
pub enum ArchiveError {
    /// The file at this path could not be appended.
    Append(String),
    /// The container could not be finished.
    Finish,
}

/// The mathematical value of an [`ArchiveError`].
pub enum ArchiveFailure {
    Append(Seq<char>),
    Finish,
}

impl View for ArchiveError {
    type V = ArchiveFailure;

    open spec fn view(&self) -> ArchiveFailure {
        match *self {
            ArchiveError::Append(path) => ArchiveFailure::Append(path@),
            ArchiveError::Finish => ArchiveFailure::Finish,
        }
    }
}

/// The text that says how writing the archive failed.
pub open spec fn archive_failure_text(failure: ArchiveFailure) -> Seq<char> {
    match failure {
        ArchiveFailure::Append(path) => "failed to append "@ + debug_text(path) + " to archive"@,
        ArchiveFailure::Finish => "failed to finish archive"@,
    }
}

impl ArchiveError {
    /// Says how writing the archive failed.
    pub fn message(&self) -> (text: String)
        ensures
            text@ == archive_failure_text(self@),
    {
        match self {
            ArchiveError::Append(path) => quoted_between(
                "failed to append ",
                path.as_str(),
                " to archive",
            ),
            ArchiveError::Finish => String::from_str("failed to finish archive"),
        }
    }
}

/// The writer as a mathematical value: all entries in archive order, and
/// how many of them have been appended.
pub struct WriterView {
    pub order: Seq<Seq<char>>,
    pub position: nat,
}

/// An archive being written, waiting for the host to do one job.
pub struct ArchiveWriter {
    order: Vec<String>,
    position: usize,
}

impl View for ArchiveWriter {
    type V = WriterView;

    closed spec fn view(&self) -> WriterView {
        WriterView { order: texts(self.order@), position: self.position as nat }
    }
}

/// Where the writing stands after a step.
pub enum Archiving {
    /// The host is to do the writer's job and call [`ArchiveWriter::resume`]
    /// with its outcome.
    Pending(ArchiveWriter),
    /// The writing is over.
    Done(Result<(), ArchiveError>),
}

/// The mathematical value of an [`Archiving`].
pub enum ArchivingView {
    Pending(WriterView),
    Done(Result<(), ArchiveFailure>),
}

impl View for Archiving {
    type V = ArchivingView;

    open spec fn view(&self) -> ArchivingView {
        match *self {
            Archiving::Pending(writer) => ArchivingView::Pending(writer@),
            Archiving::Done(Ok(_)) => ArchivingView::Done(Ok(())),
            Archiving::Done(Err(error)) => ArchivingView::Done(Err(error@)),
        }
    }
}

/// The job that a writer waits for: the next entry in archive order, or
/// finishing where every entry has been appended.
pub open spec fn job_of(writer: WriterView) -> JobView {
    if writer.position < writer.order.len() {
        JobView::Append(writer.order[writer.position as int])
    } else {
        JobView::Finish
    }
}

/// One step of the writing, once the host reports whether the job succeeded.
///
/// A failed job ends the writing with an error that names what failed; no
/// later entry is tried. After an entry is appended the writer moves on by
/// one; after the container is finished the writing is done.
pub open spec fn written(writer: WriterView, succeeded: bool) -> ArchivingView {
    match job_of(writer) {
        JobView::Append(path) => if succeeded {
            ArchivingView::Pending(WriterView { position: writer.position + 1, ..writer })
        } else {
            ArchivingView::Done(Err(ArchiveFailure::Append(path)))
        },
        JobView::Finish => if succeeded {
            ArchivingView::Done(Ok(()))
        } else {
            ArchivingView::Done(Err(ArchiveFailure::Finish))
        },
    }
}

/// The status text shown while the file at `path` is appended.
pub open spec fn writing_message(path: Seq<char>) -> Seq<char> {
    "Writing "@ + debug_text(path) + " to archive"@
}

/// What the progress session shows once a writer waits for its job: an
/// entry that is about to be appended is named in the status text.
pub open spec fn announced(writer: WriterView, progress: Option<SessionView>) -> Option<
    SessionView,
> {
    match job_of(writer) {
        JobView::Append(path) => after_message(progress, writing_message(path)),
        JobView::Finish => progress,
    }
}

/// What the progress session shows after a step: each appended entry counts
/// one unit, and the entry that is next is named.
pub open spec fn progress_written(
    writer: WriterView,
    succeeded: bool,
    progress: Option<SessionView>,
) -> Option<SessionView> {
    match written(writer, succeeded) {
        ArchivingView::Pending(next) => announced(next, after_increment(progress, 1)),
        ArchivingView::Done(_) => progress,
    }
}

fn announce(writer: &ArchiveWriter, progress: &mut ProgressState)
    ensures
        final(progress)@ == announced(writer@, old(progress)@),
{
    proof {
        use_type_invariant(writer);
    }
    if writer.position < writer.order.len() {
        let message = quoted_between(
            "Writing ",
            writer.order[writer.position].as_str(),
            " to archive",
        );
        set_progress_message(progress, message);
    }
}

fn push_group(order: &mut Vec<String>, files: Option<&IncludedFiles>)
    ensures
        texts(final(order)@) == texts(old(order)@) + files_or_none(
            match files {
                Some(files) => Some(files@),
                None => None,
            },
        ),
{
    let ghost start = texts(order@);
    match files {
        Some(files) => {
            let mut i: usize = 0;
            proof {
                assert(start + files@.take(0) =~= start);
            }
            while i < files.len()
                invariant
                    i <= files@.len(),
                    texts(order@) == start + files@.take(i as int),
                decreases files@.len() - i,
            {
                let ghost before = order@;
                order.push(String::from_str(files.get(i)));
                proof {
                    assert(texts(order@) =~= texts(before).push(files@[i as int]));
                    assert(start + files@.take(i + 1) =~= (start + files@.take(i as int)).push(
                        files@[i as int],
                    ));
                }
                i += 1;
            }
            proof {
                assert(files@.take(i as int) =~= files@);
            }
        },
        None => {
            proof {
                assert(start + Seq::<Seq<char>>::empty() =~= start);
            }
        },
    }
}

impl RumkinstFiles {
    /// All files in archive order: the root group's, then the env group's,
    /// then the script group's, each in its stored order.
    pub fn entry_order(&self) -> (order: Vec<String>)
        ensures
            texts(order@) == self@.entry_order(),
    {
        let mut order: Vec<String> = Vec::new();
        push_group(&mut order, self.group(SourceGroup::Root));
        push_group(&mut order, self.group(SourceGroup::Env));
        push_group(&mut order, self.group(SourceGroup::Scripts));
        proof {
            assert(Seq::<Seq<char>>::empty() + files_or_none(self@.root_files) =~= files_or_none(
                self@.root_files,
            ));
        }
        order
    }

    /// Starts writing the archive. The writer first waits for the first
    /// entry to be appended, or for the container to be finished where
    /// there is no entry at all.
    pub fn write_archive(&self, progress: &mut ProgressState) -> (writer: ArchiveWriter)
        ensures
            writer@ == (WriterView { order: self@.entry_order(), position: 0 }),
            final(progress)@ == announced(writer@, old(progress)@),
    {
        ArchiveWriter::start(self.entry_order(), progress)
    }
}

/// The archive holds as many entries as the three groups have files.
pub proof fn lemma_entry_order_len(files: FilesView)
    ensures
        files.entry_order().len() == files.total(),
{
}

/// Where the writing of the entries `order` stands once the host has done
/// the first `done` jobs, each with success.
pub open spec fn after_successes(order: Seq<Seq<char>>, done: nat) -> ArchivingView
    decreases done,
{
    if done == 0 {
        ArchivingView::Pending(WriterView { order, position: 0 })
    } else {
        match after_successes(order, (done - 1) as nat) {
            ArchivingView::Pending(writer) => written(writer, true),
            ArchivingView::Done(result) => ArchivingView::Done(result),
        }
    }
}

/// The entries enter the archive in archive order, each one once: job
/// number `done` appends entry number `done`; after the last entry the
/// container is finished, and then the writing is done.
pub proof fn lemma_entries_are_appended_in_order(order: Seq<Seq<char>>, done: nat)
    ensures
        done <= order.len() ==> after_successes(order, done) == ArchivingView::Pending(
            WriterView { order, position: done },
        ),
        done < order.len() ==> job_of(WriterView { order, position: done }) == JobView::Append(
            order[done as int],
        ),
        done == order.len() ==> job_of(WriterView { order, position: done }) == JobView::Finish,
        done == order.len() + 1 ==> after_successes(order, done) == ArchivingView::Done(Ok(())),
    decreases done,
{
    if done > 0 {
        lemma_entries_are_appended_in_order(order, (done - 1) as nat);
    }
}

impl ArchiveWriter {
    #[verifier::type_invariant]
    spec fn well_formed(self) -> bool {
        self.position <= self.order@.len()
    }

    /// A writer for the entries `order`, none of them appended yet.
    pub fn start(order: Vec<String>, progress: &mut ProgressState) -> (writer: ArchiveWriter)
        ensures
            writer@ == (WriterView { order: texts(order@), position: 0 }),
            final(progress)@ == announced(writer@, old(progress)@),
    {
        let writer = ArchiveWriter { order, position: 0 };
        announce(&writer, progress);
        writer
    }

    /// The job that the host is to do next.
    pub fn job(&self) -> (job: ArchiveJob<'_>)
        ensures
            job@ == job_of(self@),
    {
        if self.position < self.order.len() {
            ArchiveJob::Append(self.order[self.position].as_str())
        } else {
            ArchiveJob::Finish
        }
    }

    /// The number of entries appended so far.
    pub fn position(&self) -> (position: usize)
        ensures
            position == self@.position,
            position <= self@.order.len(),
    {
        proof {
            use_type_invariant(self);
        }
        self.position
    }

    /// Takes the outcome of the job and carries the writing on.
    pub fn resume(self, succeeded: bool, progress: &mut ProgressState) -> (next: Archiving)
        ensures
            next@ == written(self@, succeeded),
            final(progress)@ == progress_written(self@, succeeded, old(progress)@),
    {
        proof {
            use_type_invariant(&self);
        }
        let ArchiveWriter { order, position } = self;
        if position < order.len() {
            if succeeded {
                increment_progress(progress, 1);
                let writer = ArchiveWriter { order, position: position + 1 };
                announce(&writer, progress);
                Archiving::Pending(writer)
            } else {
                Archiving::Done(Err(ArchiveError::Append(order[position].clone())))
            }
        } else if succeeded {
            Archiving::Done(Ok(()))
        } else {
            Archiving::Done(Err(ArchiveError::Finish))
        }
    }
}

} // verus!
