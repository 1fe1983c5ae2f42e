//! One packaging run from start to end: output directory, discovery,
//! archive, checksum.
//!
//! The run is a state machine. It names one task at a time for the host:
//! create a directory or a file, inspect a path, append a file, hand back
//! the archive's bytes. The host does the task and reports the outcome; the
//! run decides what comes next. The first failure ends the run; nothing is
//! retried and nothing is cleaned up.

use crate::installer_gen::archive::{
    announced, archive_failure_text, job_of, progress_written, written, ArchiveError,
    ArchiveFailure, ArchiveJob, ArchiveWriter, Archiving, ArchivingView, JobView, WriterView,
};
use crate::checksum::{
    archive_checksum, archive_name, archive_name_of, checksum_name, checksum_name_of,
    checksum_text, sha256_digest,
};
use crate::config::{Config, ConfigView};
use crate::installer_gen::included_files::{
    search_failure_text, Inspection, InspectionView, SearchError, SearchFailure,
};
use crate::installer_gen::{
    begun, find_all_files, no_files, resumed, Discovery, DiscoveryView, FileSearch,
    FileSearchView, Outcome, SourceGroup,
};
use crate::config::identifier::{is_identifier, is_identifier_char};
use crate::progress_log::{fresh_session, ProgressState, SessionView};
use crate::text::{
    append_str, debug_text, join_path, joined, quoted_after, quoted_between, texts,
};
use vstd::string::*;
use vstd::prelude::*;

verus! {

/// What the host is asked to do next.
#[derive(Debug, PartialEq, Eq)]
pub enum Task<'a> {
    /// Create the output directory at this path, with its parents.
    CreateOutputDir(&'a str),
    /// Inspect this path and report what lies there.
    Inspect(&'a str),
    /// Create the archive file at `path`, which must not exist yet, and
    /// open on it a gzip stream at the highest compression level whose
    /// header names `file_name`, and in that a tar container.
    CreateArchive { path: &'a str, file_name: &'a str },
    /// Create the checksum file at this path, which must not exist yet.
    CreateChecksum(&'a str),
    /// Append the file at this path to the container.
    Append(&'a str),
    /// Finish the container.
    FinishContainer,
    /// Finish the gzip stream.
    FinishCompression,
    /// Seek the archive file back to its start.
    Rewind,
    /// Read the archive file to its end and report its content.
    ReadArchive,
    /// Write `line` to the checksum file at `path`.
    WriteChecksum { path: &'a str, line: &'a str },
}

/// The mathematical value of a [`Task`].
pub enum TaskView {
    CreateOutputDir(Seq<char>),
    Inspect(Seq<char>),
    CreateArchive { path: Seq<char>, file_name: Seq<char> },
    CreateChecksum(Seq<char>),
    Append(Seq<char>),
    FinishContainer,
    FinishCompression,
    Rewind,
    ReadArchive,
    WriteChecksum { path: Seq<char>, line: Seq<char> },
}

impl<'a> View for Task<'a> {
    type V = TaskView;

    open spec fn view(&self) -> TaskView {
        match *self {
            Task::CreateOutputDir(path) => TaskView::CreateOutputDir(path@),
            Task::Inspect(path) => TaskView::Inspect(path@),
            Task::CreateArchive { path, file_name } => TaskView::CreateArchive {
                path: path@,
                file_name: file_name@,
            },
            Task::CreateChecksum(path) => TaskView::CreateChecksum(path@),
            Task::Append(path) => TaskView::Append(path@),
            Task::FinishContainer => TaskView::FinishContainer,
            Task::FinishCompression => TaskView::FinishCompression,
            Task::Rewind => TaskView::Rewind,
            Task::ReadArchive => TaskView::ReadArchive,
            Task::WriteChecksum { path, line } => TaskView::WriteChecksum {
                path: path@,
                line: line@,
            },
        }
    }
}

/// What the host reports of a task.
#[derive(Debug, PartialEq, Eq)]
pub enum Reply {
    /// The task was done.
    Succeeded,
    /// The task failed.
    Failed,
    /// What an inspected path holds.
    Found(Inspection),
    /// The whole content of the archive file.
    Contents(Vec<u8>),
}

/// The mathematical value of a [`Reply`].
pub enum ReplyView {
    Succeeded,
    Failed,
    Found(InspectionView),
    Contents(Seq<u8>),
}

impl View for Reply {
    type V = ReplyView;

    open spec fn view(&self) -> ReplyView {
        match *self {
            Reply::Succeeded => ReplyView::Succeeded,
            Reply::Failed => ReplyView::Failed,
            Reply::Found(found) => ReplyView::Found(found@),
            Reply::Contents(bytes) => ReplyView::Contents(bytes@),
        }
    }
}

/// Why a run failed.
#[derive(Debug, PartialEq, Eq)]
pub enum MakeError {
    /// The output directory at this path could not be created.
    OutputDir(String),
    /// Discovery failed.
    Search(SearchError),
    /// The archive file at this path could not be created.
    CreateArchive(String),
    /// The checksum file at this path could not be created.
    CreateChecksum(String),
    /// Writing the container into the archive file at this path failed.
    Write(String, ArchiveError),
    /// The gzip stream could not be finished.
    FinishCompression,
    /// The archive file could not be sought back to its start.
    Rewind,
    /// The archive file could not be read back.
    Read,
    /// The checksum file at this path could not be written.
    WriteChecksum(String),
    /// The host's report does not answer the task it was given.
    UnexpectedReply,
}

/// The mathematical value of a [`MakeError`].
pub enum MakeFailure {
    OutputDir(Seq<char>),
    Search(SearchFailure),
    CreateArchive(Seq<char>),
    CreateChecksum(Seq<char>),
    Write(Seq<char>, ArchiveFailure),
    FinishCompression,
    Rewind,
    Read,
    WriteChecksum(Seq<char>),
    UnexpectedReply,
}

impl View for MakeError {
    type V = MakeFailure;

    open spec fn view(&self) -> MakeFailure {
        match *self {
            MakeError::OutputDir(path) => MakeFailure::OutputDir(path@),
            MakeError::Search(error) => MakeFailure::Search(error@),
            MakeError::CreateArchive(path) => MakeFailure::CreateArchive(path@),
            MakeError::CreateChecksum(path) => MakeFailure::CreateChecksum(path@),
            MakeError::Write(path, error) => MakeFailure::Write(path@, error@),
            MakeError::FinishCompression => MakeFailure::FinishCompression,
            MakeError::Rewind => MakeFailure::Rewind,
            MakeError::Read => MakeFailure::Read,
            MakeError::WriteChecksum(path) => MakeFailure::WriteChecksum(path@),
            MakeError::UnexpectedReply => MakeFailure::UnexpectedReply,
        }
    }
}

/// The text that says how a run failed: the step that failed, then the cause.
pub open spec fn make_failure_text(failure: MakeFailure) -> Seq<char> {
    match failure {
        MakeFailure::OutputDir(path) => "failed to create output directory "@ + debug_text(path),
        MakeFailure::Search(cause) => "could not find all files for packaging: "@
            + search_failure_text(cause),
        MakeFailure::CreateArchive(path) =>
            "failed to make archive file: failed to create new archive file at "@ + debug_text(
                path,
            ),
        MakeFailure::CreateChecksum(path) =>
            "failed to make archive file: failed to create new checksum file at "@ + debug_text(
                path,
            ),
        MakeFailure::Write(path, cause) =>
            "failed to make archive file: failed to write archive to "@ + debug_text(path) + ": "@
                + archive_failure_text(cause),
        MakeFailure::FinishCompression =>
            "failed to make archive file: failed to finish gzip encoding of archive"@,
        MakeFailure::Rewind =>
            "failed to make archive file: failed to seek archive to start for checksum generation"@,
        MakeFailure::Read =>
            "failed to make archive file: failed to copy archive file into hasher"@,
        MakeFailure::WriteChecksum(path) =>
            "failed to make archive file: failed to write checksum to "@ + debug_text(path),
        MakeFailure::UnexpectedReply => "the report does not answer the task that was given"@,
    }
}

impl MakeError {
    /// Says how the run failed.
    pub fn message(&self) -> (text: String)
        ensures
            text@ == make_failure_text(self@),
    {
        match self {
            MakeError::OutputDir(path) => quoted_after(
                "failed to create output directory ",
                path.as_str(),
            ),
            MakeError::Search(cause) => append_str(
                "could not find all files for packaging: ",
                cause.message().as_str(),
            ),
            MakeError::CreateArchive(path) => quoted_after(
                "failed to make archive file: failed to create new archive file at ",
                path.as_str(),
            ),
            MakeError::CreateChecksum(path) => quoted_after(
                "failed to make archive file: failed to create new checksum file at ",
                path.as_str(),
            ),
            MakeError::Write(path, cause) => {
                let mut text = quoted_between(
                    "failed to make archive file: failed to write archive to ",
                    path.as_str(),
                    ": ",
                );
                text.append(cause.message().as_str());
                text
            },
            MakeError::FinishCompression => String::from_str(
                "failed to make archive file: failed to finish gzip encoding of archive",
            ),
            MakeError::Rewind => String::from_str(
                "failed to make archive file: failed to seek archive to start for checksum generation",
            ),
            MakeError::Read => String::from_str(
                "failed to make archive file: failed to copy archive file into hasher",
            ),
            MakeError::WriteChecksum(path) => quoted_after(
                "failed to make archive file: failed to write checksum to ",
                path.as_str(),
            ),
            MakeError::UnexpectedReply => String::from_str(
                "the report does not answer the task that was given",
            ),
        }
    }
}

/// What a run that ended well has made.
#[derive(Debug, PartialEq, Eq)]
pub struct MakeReport {
    /// The run's identifier, which names its output directory.
    pub run_id: String,
    /// The archive's file name, or nothing where no file was found and no
    /// archive was made.
    pub archive: Option<String>,
}

/// The mathematical value of a [`MakeReport`].
pub struct ReportView {
    pub run_id: Seq<char>,
    pub archive: Option<Seq<char>>,
}

impl View for MakeReport {
    type V = ReportView;

    open spec fn view(&self) -> ReportView {
        ReportView {
            run_id: self.run_id@,
            archive: match self.archive {
                Some(name) => Some(name@),
                None => None,
            },
        }
    }
}

/// Where a run stands.
pub enum StageView {
    /// The output directory is to be created.
    CreatingOutputDir,
    /// The source groups are being searched.
    Discovering(FileSearchView),
    /// The archive file is to be created for these entries.
    CreatingArchive(Seq<Seq<char>>),
    /// The checksum file is to be created.
    CreatingChecksum(Seq<Seq<char>>),
    /// The container is being written.
    Archiving(WriterView),
    /// The gzip stream is to be finished.
    FinishingCompression,
    /// The archive file is to be sought back to its start.
    Rewinding,
    /// The archive file is to be read back.
    Reading,
    /// This line is to be written to the checksum file.
    WritingChecksum(Seq<char>),
}

enum Stage<'a> {
    CreatingOutputDir,
    Discovering(FileSearch<'a>),
    CreatingArchive(Vec<String>),
    CreatingChecksum(Vec<String>),
    Archiving(ArchiveWriter),
    FinishingCompression,
    Rewinding,
    Reading,
    WritingChecksum(String),
}

impl<'a> View for Stage<'a> {
    type V = StageView;

    closed spec fn view(&self) -> StageView {
        match *self {
            Stage::CreatingOutputDir => StageView::CreatingOutputDir,
            Stage::Discovering(search) => StageView::Discovering(search@),
            Stage::CreatingArchive(order) => StageView::CreatingArchive(texts(order@)),
            Stage::CreatingChecksum(order) => StageView::CreatingChecksum(texts(order@)),
            Stage::Archiving(writer) => StageView::Archiving(writer@),
            Stage::FinishingCompression => StageView::FinishingCompression,
            Stage::Rewinding => StageView::Rewinding,
            Stage::Reading => StageView::Reading,
            Stage::WritingChecksum(line) => StageView::WritingChecksum(line@),
        }
    }
}

/// A run as a mathematical value.
pub struct RunView {
    pub config: ConfigView,
    pub run_id: Seq<char>,
    /// What the progress session shows; nothing before discovery begins.
    pub progress: Option<SessionView>,
    pub stage: StageView,
}

/// The output directory of the run `run_id`.
pub open spec fn out_dir_of(run_id: Seq<char>) -> Seq<char> {
    "./out/"@ + run_id
}

impl RunView {
    /// The archive's file name: the package name followed by `.tar.gz`.
    pub open spec fn archive_name(self) -> Seq<char> {
        archive_name_of(self.config.package.name@)
    }

    /// Where the archive file goes: into the run's output directory.
    pub open spec fn archive_path(self) -> Seq<char> {
        joined(out_dir_of(self.run_id), self.archive_name())
    }

    /// Where the checksum file goes: beside the archive.
    pub open spec fn checksum_path(self) -> Seq<char> {
        joined(out_dir_of(self.run_id), checksum_name_of(self.archive_name()))
    }

    /// The task that the run waits for.
    pub open spec fn task(self) -> TaskView {
        match self.stage {
            StageView::CreatingOutputDir => TaskView::CreateOutputDir(out_dir_of(self.run_id)),
            StageView::Discovering(search) => TaskView::Inspect(search.explorer.wanted),
            StageView::CreatingArchive(_) => TaskView::CreateArchive {
                path: self.archive_path(),
                file_name: self.archive_name(),
            },
            StageView::CreatingChecksum(_) => TaskView::CreateChecksum(self.checksum_path()),
            StageView::Archiving(writer) => match job_of(writer) {
                JobView::Append(path) => TaskView::Append(path),
                JobView::Finish => TaskView::FinishContainer,
            },
            StageView::FinishingCompression => TaskView::FinishCompression,
            StageView::Rewinding => TaskView::Rewind,
            StageView::Reading => TaskView::ReadArchive,
            StageView::WritingChecksum(line) => TaskView::WriteChecksum {
                path: self.checksum_path(),
                line,
            },
        }
    }
}

/// Where a run stands after a step.
pub enum Make<'a> {
    /// The host is to do the run's task and call [`MakeRun::resume`] with
    /// its report.
    Pending(MakeRun<'a>),
    /// The run is over.
    Done(Result<MakeReport, MakeError>),
}

/// The mathematical value of a [`Make`].
pub enum MakeView {
    Pending(RunView),
    Done(Result<ReportView, MakeFailure>),
}

impl<'a> View for Make<'a> {
    type V = MakeView;

    open spec fn view(&self) -> MakeView {
        match *self {
            Make::Pending(run) => MakeView::Pending(run@),
            Make::Done(Ok(report)) => MakeView::Done(Ok(report@)),
            Make::Done(Err(error)) => MakeView::Done(Err(error@)),
        }
    }
}

/// A run as it starts: the output directory is to be created, and no
/// progress session is active.
pub open spec fn initial_run(config: ConfigView, run_id: Seq<char>) -> RunView {
    RunView { config, run_id, progress: None, stage: StageView::CreatingOutputDir }
}

/// What follows a step of discovery.
///
/// While discovery waits for the host, the run waits with it. A failed
/// discovery fails the run. Where discovery ends without a single file, the
/// run ends well and makes no archive. Otherwise a progress session begins
/// with one unit for each file, and the archive file is to be created.
pub open spec fn after_discovery(run: RunView, outcome: Outcome) -> MakeView {
    match outcome.discovery {
        DiscoveryView::Pending(search) => MakeView::Pending(
            RunView { progress: outcome.progress, stage: StageView::Discovering(search), ..run },
        ),
        DiscoveryView::Done(Err(failure)) => MakeView::Done(Err(MakeFailure::Search(failure))),
        DiscoveryView::Done(Ok(files)) => {
            let order = files.entry_order();
            if order.len() == 0 {
                MakeView::Done(Ok(ReportView { run_id: run.run_id, archive: None }))
            } else {
                MakeView::Pending(
                    RunView {
                        progress: Some(fresh_session(order.len() as u64)),
                        stage: StageView::CreatingArchive(order),
                        ..run
                    },
                )
            }
        },
    }
}

/// What follows a task that either succeeds or fails.
pub open spec fn after_task(reply: ReplyView, next: MakeView, failure: MakeFailure) -> MakeView {
    match reply {
        ReplyView::Succeeded => next,
        ReplyView::Failed => MakeView::Done(Err(failure)),
        _ => MakeView::Done(Err(MakeFailure::UnexpectedReply)),
    }
}

/// One step of a run, once the host reports `reply` for the run's task.
///
/// The steps in order: the output directory is created; the three groups
/// are searched within a progress session of three units; the archive file
/// and then the checksum file are created; each file is appended in archive
/// order and the container finished; the gzip stream is finished; the
/// archive file is sought back and read; the line with its digest is
/// written to the checksum file.
pub open spec fn made(run: RunView, reply: ReplyView) -> MakeView {
    match run.stage {
        StageView::CreatingOutputDir => after_task(
            reply,
            after_discovery(
                run,
                begun(run.config, Some(SourceGroup::Root), no_files(), Some(fresh_session(3))),
            ),
            MakeFailure::OutputDir(out_dir_of(run.run_id)),
        ),
        StageView::Discovering(search) => match reply {
            ReplyView::Found(found) => after_discovery(run, resumed(search, found, run.progress)),
            _ => MakeView::Done(Err(MakeFailure::UnexpectedReply)),
        },
        StageView::CreatingArchive(order) => after_task(
            reply,
            MakeView::Pending(RunView { stage: StageView::CreatingChecksum(order), ..run }),
            MakeFailure::CreateArchive(run.archive_path()),
        ),
        StageView::CreatingChecksum(order) => {
            let writer = WriterView { order, position: 0 };
            after_task(
                reply,
                MakeView::Pending(
                    RunView {
                        progress: announced(writer, run.progress),
                        stage: StageView::Archiving(writer),
                        ..run
                    },
                ),
                MakeFailure::CreateChecksum(run.checksum_path()),
            )
        },
        StageView::Archiving(writer) => match reply {
            ReplyView::Succeeded => after_writing(run, writer, true),
            ReplyView::Failed => after_writing(run, writer, false),
            _ => MakeView::Done(Err(MakeFailure::UnexpectedReply)),
        },
        StageView::FinishingCompression => after_task(
            reply,
            MakeView::Pending(RunView { stage: StageView::Rewinding, ..run }),
            MakeFailure::FinishCompression,
        ),
        StageView::Rewinding => after_task(
            reply,
            MakeView::Pending(RunView { stage: StageView::Reading, ..run }),
            MakeFailure::Rewind,
        ),
        StageView::Reading => match reply {
            ReplyView::Contents(bytes) => MakeView::Pending(
                RunView {
                    stage: StageView::WritingChecksum(
                        checksum_text(sha256_digest(bytes), run.archive_name()),
                    ),
                    ..run
                },
            ),
            ReplyView::Failed => MakeView::Done(Err(MakeFailure::Read)),
            _ => MakeView::Done(Err(MakeFailure::UnexpectedReply)),
        },
        StageView::WritingChecksum(_) => after_task(
            reply,
            MakeView::Done(
                Ok(ReportView { run_id: run.run_id, archive: Some(run.archive_name()) }),
            ),
            MakeFailure::WriteChecksum(run.checksum_path()),
        ),
    }
}

/// What follows a job of the archive writer.
pub open spec fn after_writing(run: RunView, writer: WriterView, succeeded: bool) -> MakeView {
    match written(writer, succeeded) {
        ArchivingView::Pending(next) => MakeView::Pending(
            RunView {
                progress: progress_written(writer, succeeded, run.progress),
                stage: StageView::Archiving(next),
                ..run
            },
        ),
        ArchivingView::Done(Ok(_)) => MakeView::Pending(
            RunView { stage: StageView::FinishingCompression, ..run },
        ),
        ArchivingView::Done(Err(failure)) => MakeView::Done(
            Err(MakeFailure::Write(run.archive_path(), failure)),
        ),
    }
}

/// Draws a run identifier with `nanoid::format`, from the crate's default
/// random source and its URL-safe alphabet. Trusted: the identifier has 21
/// characters, each a letter, a digit, `-` or `_` of ASCII.
#[verifier::external_body]
fn fresh_run_id() -> (id: String)
    ensures
        id@.len() == 21,
        forall|i: int| 0 <= i < 21 ==> is_identifier_char(#[trigger] id@[i]),
{
    nanoid::format(nanoid::rngs::default, &nanoid::alphabet::SAFE, 21)
}

/// The file names and paths of a run.
struct Names {
    run_id: String,
    out_dir: String,
    archive_name: String,
    archive_path: String,
    checksum_path: String,
}

/// One packaging run, waiting for the host to do one task.
pub struct MakeRun<'a> {
    config: &'a Config,
    names: Names,
    progress: ProgressState,
    stage: Stage<'a>,
}

impl<'a> View for MakeRun<'a> {
    type V = RunView;

    closed spec fn view(&self) -> RunView {
        RunView {
            config: self.config@,
            run_id: self.names.run_id@,
            progress: self.progress@,
            stage: self.stage@,
        }
    }
}

impl<'a> MakeRun<'a> {
    #[verifier::type_invariant]
    spec fn well_formed(self) -> bool {
        &&& self.names.out_dir@ == out_dir_of(self.names.run_id@)
        &&& self.names.archive_name@ == self@.archive_name()
        &&& self.names.archive_path@ == self@.archive_path()
        &&& self.names.checksum_path@ == self@.checksum_path()
        &&& self.stage is CreatingOutputDir ==> self.progress@ is None
    }

    /// Starts a run under a freshly drawn identifier.
    pub fn start(config: &'a Config) -> (run: MakeRun<'a>)
        ensures
            run@ == initial_run(config@, run@.run_id),
            is_identifier(run@.run_id),
            run@.run_id.len() == 21,
    {
        MakeRun::start_with(config, fresh_run_id())
    }

    /// Starts a run under the identifier `run_id`.
    pub fn start_with(config: &'a Config, run_id: String) -> (run: MakeRun<'a>)
        ensures
            run@ == initial_run(config@, run_id@),
    {
        let out_dir = append_str("./out/", run_id.as_str());
        let archive_name = archive_name(config.get_name());
        let checksum_name = checksum_name(archive_name.as_str());
        let archive_path = join_path(out_dir.as_str(), archive_name.as_str());
        let checksum_path = join_path(out_dir.as_str(), checksum_name.as_str());
        MakeRun {
            config,
            names: Names { run_id, out_dir, archive_name, archive_path, checksum_path },
            progress: ProgressState::new(),
            stage: Stage::CreatingOutputDir,
        }
    }

    /// The run's identifier.
    pub fn run_id(&self) -> (id: &str)
        ensures
            id@ == self@.run_id,
    {
        self.names.run_id.as_str()
    }

    /// What the progress session shows, for the host to draw.
    pub fn progress(&self) -> (progress: &ProgressState)
        ensures
            progress@ == self@.progress,
    {
        &self.progress
    }

    /// The task that the host is to do next.
    pub fn task(&self) -> (task: Task<'_>)
        ensures
            task@ == self@.task(),
    {
        proof {
            use_type_invariant(self);
        }
        match &self.stage {
            Stage::CreatingOutputDir => Task::CreateOutputDir(self.names.out_dir.as_str()),
            Stage::Discovering(search) => Task::Inspect(search.wanted()),
            Stage::CreatingArchive(_) => Task::CreateArchive {
                path: self.names.archive_path.as_str(),
                file_name: self.names.archive_name.as_str(),
            },
            Stage::CreatingChecksum(_) => Task::CreateChecksum(self.names.checksum_path.as_str()),
            Stage::Archiving(writer) => match writer.job() {
                ArchiveJob::Append(path) => Task::Append(path),
                ArchiveJob::Finish => Task::FinishContainer,
            },
            Stage::FinishingCompression => Task::FinishCompression,
            Stage::Rewinding => Task::Rewind,
            Stage::Reading => Task::ReadArchive,
            Stage::WritingChecksum(line) => Task::WriteChecksum {
                path: self.names.checksum_path.as_str(),
                line: line.as_str(),
            },
        }
    }

    /// Takes the host's report of the task and carries the run on.
    pub fn resume(self, reply: Reply) -> (next: Make<'a>)
        ensures
            next@ == made(self@, reply@),
    {
        proof {
            use_type_invariant(&self);
        }
        let ghost before = self@;
        let MakeRun { config, names, mut progress, stage } = self;
        match stage {
            Stage::CreatingOutputDir => match reply {
                Reply::Succeeded => {
                    progress.begin(3);
                    let discovery = find_all_files(config, &mut progress);
                    after_search(config, names, progress, discovery, Ghost(before))
                },
                Reply::Failed => Make::Done(Err(MakeError::OutputDir(names.out_dir))),
                _ => Make::Done(Err(MakeError::UnexpectedReply)),
            },
            Stage::Discovering(search) => match reply {
                Reply::Found(found) => {
                    let discovery = search.resume(found, &mut progress);
                    after_search(config, names, progress, discovery, Ghost(before))
                },
                _ => Make::Done(Err(MakeError::UnexpectedReply)),
            },
            Stage::CreatingArchive(order) => match reply {
                Reply::Succeeded => Make::Pending(
                    MakeRun { config, names, progress, stage: Stage::CreatingChecksum(order) },
                ),
                Reply::Failed => Make::Done(Err(MakeError::CreateArchive(names.archive_path))),
                _ => Make::Done(Err(MakeError::UnexpectedReply)),
            },
            Stage::CreatingChecksum(order) => match reply {
                Reply::Succeeded => {
                    let writer = ArchiveWriter::start(order, &mut progress);
                    Make::Pending(
                        MakeRun { config, names, progress, stage: Stage::Archiving(writer) },
                    )
                },
                Reply::Failed => Make::Done(Err(MakeError::CreateChecksum(names.checksum_path))),
                _ => Make::Done(Err(MakeError::UnexpectedReply)),
            },
            Stage::Archiving(writer) => {
                let succeeded = match reply {
                    Reply::Succeeded => true,
                    Reply::Failed => false,
                    _ => {
                        return Make::Done(Err(MakeError::UnexpectedReply));
                    },
                };
                match writer.resume(succeeded, &mut progress) {
                    Archiving::Pending(writer) => Make::Pending(
                        MakeRun { config, names, progress, stage: Stage::Archiving(writer) },
                    ),
                    Archiving::Done(Ok(_)) => Make::Pending(
                        MakeRun { config, names, progress, stage: Stage::FinishingCompression },
                    ),
                    Archiving::Done(Err(error)) => Make::Done(
                        Err(MakeError::Write(names.archive_path, error)),
                    ),
                }
            },
            Stage::FinishingCompression => match reply {
                Reply::Succeeded => Make::Pending(
                    MakeRun { config, names, progress, stage: Stage::Rewinding },
                ),
                Reply::Failed => Make::Done(Err(MakeError::FinishCompression)),
                _ => Make::Done(Err(MakeError::UnexpectedReply)),
            },
            Stage::Rewinding => match reply {
                Reply::Succeeded => Make::Pending(
                    MakeRun { config, names, progress, stage: Stage::Reading },
                ),
                Reply::Failed => Make::Done(Err(MakeError::Rewind)),
                _ => Make::Done(Err(MakeError::UnexpectedReply)),
            },
            Stage::Reading => match reply {
                Reply::Contents(bytes) => {
                    let line = archive_checksum(bytes.as_slice(), names.archive_name.as_str());
                    Make::Pending(
                        MakeRun { config, names, progress, stage: Stage::WritingChecksum(line) },
                    )
                },
                Reply::Failed => Make::Done(Err(MakeError::Read)),
                _ => Make::Done(Err(MakeError::UnexpectedReply)),
            },
            Stage::WritingChecksum(_) => match reply {
                Reply::Succeeded => Make::Done(
                    Ok(MakeReport { run_id: names.run_id, archive: Some(names.archive_name) }),
                ),
                Reply::Failed => Make::Done(Err(MakeError::WriteChecksum(names.checksum_path))),
                _ => Make::Done(Err(MakeError::UnexpectedReply)),
            },
        }
    }
}

fn after_search<'a>(
    config: &'a Config,
    names: Names,
    progress: ProgressState,
    discovery: Discovery<'a>,
    Ghost(before): Ghost<RunView>,
) -> (next: Make<'a>)
    requires
        before.config == config@,
        before.run_id == names.run_id@,
        names.out_dir@ == out_dir_of(names.run_id@),
        names.archive_name@ == before.archive_name(),
        names.archive_path@ == before.archive_path(),
        names.checksum_path@ == before.checksum_path(),
    ensures
        next@ == after_discovery(
            before,
            Outcome { discovery: discovery@, progress: progress@ },
        ),
{
    let mut progress = progress;
    match discovery {
        Discovery::Pending(search) => Make::Pending(
            MakeRun { config, names, progress, stage: Stage::Discovering(search) },
        ),
        Discovery::Done(Err(error)) => Make::Done(Err(MakeError::Search(error))),
        Discovery::Done(Ok(files)) => {
            let order = files.entry_order();
            if order.len() == 0 {
                Make::Done(Ok(MakeReport { run_id: names.run_id, archive: None }))
            } else {
                // Discovery's session ends here; the archive's begins.
                let _ = progress.finish();
                progress.begin(order.len() as u64);
                Make::Pending(
                    MakeRun { config, names, progress, stage: Stage::CreatingArchive(order) },
                )
            }
        },
    }
}

/// Without a single file, no archive and no checksum file is made: the run
/// ends well as soon as discovery has ended.
pub proof fn lemma_no_files_no_archive(run: RunView, outcome: Outcome)
    requires
        outcome.discovery matches DiscoveryView::Done(Ok(files)) && files.total() == 0,
    ensures
        after_discovery(run, outcome) == MakeView::Done(
            Ok(ReportView { run_id: run.run_id, archive: None }),
        ),
{
}

/// A run asks for the archive file only where there is a file to put in it.
pub proof fn lemma_archive_needs_files(run: RunView, reply: ReplyView)
    ensures
        match made(run, reply) {
            MakeView::Pending(next) => match next.stage {
                StageView::CreatingArchive(order) => order.len() > 0,
                _ => true,
            },
            MakeView::Done(_) => true,
        },
{
}

} // verus!
