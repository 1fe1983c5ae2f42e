//! The artifact set: the files discovered for the three source groups, and
//! the search that fills it group by group.

pub mod archive;
pub mod disk;
pub mod included_files;
pub mod tree;

use crate::config::{Config, ConfigView, SourceConfig};
use crate::installer_gen::included_files::{
    agenda_after, initial_explorer, last_visited, progress_after_visit, search_step,
    ExclusionFilter, ExplorerView, IncludedFiles, Inspection, InspectionView, PathExplorer, Search,
    SearchError, SearchFailure, SearchView,
};
use crate::progress_log::{after_increment, increment_progress, ProgressState, SessionView};
use crate::text::texts;
use crate::installer_gen::tree::{discover, found_view, replay_from_base, seen_at, Node};
use vstd::prelude::*;

verus! {

/// One of the three source groups, in the order in which they are searched
/// and archived.
#[derive(Debug, Clone, Copy, PartialEq, Eq)]
pub enum SourceGroup {
    Root,
    Env,
    Scripts,
}

/// The group after `group`, if there is one.
pub open spec fn following(group: SourceGroup) -> Option<SourceGroup> {
    match group {
        SourceGroup::Root => Some(SourceGroup::Env),
        SourceGroup::Env => Some(SourceGroup::Scripts),
        SourceGroup::Scripts => None,
    }
}

/// How many groups come before `group`; 3 where no group is left.
pub open spec fn rank(group: Option<SourceGroup>) -> nat {
    match group {
        Some(SourceGroup::Root) => 0,
        Some(SourceGroup::Env) => 1,
        Some(SourceGroup::Scripts) => 2,
        None => 3,
    }
}

/// The configuration of `group`.
pub open spec fn source_of(config: ConfigView, group: SourceGroup) -> SourceConfig {
    match group {
        SourceGroup::Root => config.root,
        SourceGroup::Env => config.env,
        SourceGroup::Scripts => config.scripts,
    }
}

/// The files of the three groups: for each group its files in traversal
/// order, or nothing where the group was left out.
pub struct FilesView {
    pub root_files: Option<Seq<Seq<char>>>,
    pub env_files: Option<Seq<Seq<char>>>,
    pub script_files: Option<Seq<Seq<char>>>,
}

/// The files discovered for packaging, group by group.
#[derive(Debug)]
pub struct RumkinstFiles {
    root_files: Option<IncludedFiles>,
    env_files: Option<IncludedFiles>,
    script_files: Option<IncludedFiles>,
}

/// The files of one group as a plain value.
pub open spec fn files_text(files: Option<IncludedFiles>) -> Option<Seq<Seq<char>>> {
    match files {
        Some(files) => Some(files@),
        None => None,
    }
}

impl View for RumkinstFiles {
    type V = FilesView;

    closed spec fn view(&self) -> FilesView {
        FilesView {
            root_files: files_text(self.root_files),
            env_files: files_text(self.env_files),
            script_files: files_text(self.script_files),
        }
    }
}

/// The number of files of one group: none where the group was left out.
pub open spec fn files_len(files: Option<Seq<Seq<char>>>) -> nat {
    match files {
        Some(files) => files.len(),
        None => 0,
    }
}

/// The files of one group, or no files where the group was left out.
pub open spec fn files_or_none(files: Option<Seq<Seq<char>>>) -> Seq<Seq<char>> {
    match files {
        Some(files) => files,
        None => Seq::empty(),
    }
}

impl FilesView {
    /// The files of `group`.
    pub open spec fn slot(self, group: SourceGroup) -> Option<Seq<Seq<char>>> {
        match group {
            SourceGroup::Root => self.root_files,
            SourceGroup::Env => self.env_files,
            SourceGroup::Scripts => self.script_files,
        }
    }

    /// These files with those of `group` replaced.
    pub open spec fn with_slot(
        self,
        group: SourceGroup,
        files: Option<Seq<Seq<char>>>,
    ) -> FilesView {
        match group {
            SourceGroup::Root => FilesView { root_files: files, ..self },
            SourceGroup::Env => FilesView { env_files: files, ..self },
            SourceGroup::Scripts => FilesView { script_files: files, ..self },
        }
    }

    /// The number of files over all groups.
    pub open spec fn total(self) -> nat {
        files_len(self.root_files) + files_len(self.env_files) + files_len(self.script_files)
    }

    /// All files in the order in which they enter the archive: the root
    /// group's files in traversal order, then the env group's, then the
    /// script group's. A path that occurs in two groups occurs twice.
    pub open spec fn entry_order(self) -> Seq<Seq<char>> {
        files_or_none(self.root_files) + files_or_none(self.env_files) + files_or_none(
            self.script_files,
        )
    }
}

/// No files for any group.
pub open spec fn no_files() -> FilesView {
    FilesView { root_files: None, env_files: None, script_files: None }
}

/// The number of files of one group.
pub fn get_files_len(files: &Option<IncludedFiles>) -> (len: usize)
    ensures
        len == files_len(files_text(*files)),
{
    match files {
        Some(files) => files.len(),
        None => 0,
    }
}

impl RumkinstFiles {
    /// The artifact set made of the three groups' files.
    pub fn new(
        root_files: Option<IncludedFiles>,
        env_files: Option<IncludedFiles>,
        script_files: Option<IncludedFiles>,
    ) -> (files: RumkinstFiles)
        ensures
            files@ == (FilesView {
                root_files: files_text(root_files),
                env_files: files_text(env_files),
                script_files: files_text(script_files),
            }),
    {
        RumkinstFiles { root_files, env_files, script_files }
    }

    /// The files of `group`, if the group was searched.
    pub fn group(&self, group: SourceGroup) -> (files: Option<&IncludedFiles>)
        ensures
            match files {
                Some(files) => self@.slot(group) == Some(files@),
                None => self@.slot(group) is None,
            },
    {
        match group {
            SourceGroup::Root => self.root_files.as_ref(),
            SourceGroup::Env => self.env_files.as_ref(),
            SourceGroup::Scripts => self.script_files.as_ref(),
        }
    }

    /// The number of files over all groups, where it fits the machine's word.
    pub fn checked_total_files(&self) -> (total: Option<usize>)
        ensures
            match total {
                Some(total) => total == self@.total(),
                None => self@.total() > usize::MAX,
            },
    {
        let root = get_files_len(&self.root_files);
        let env = get_files_len(&self.env_files);
        let scripts = get_files_len(&self.script_files);
        match root.checked_add(env) {
            Some(sum) => sum.checked_add(scripts),
            None => None,
        }
    }

    /// The number of files over all groups.
    pub fn total_files(&self) -> (total: usize)
        requires
            self@.total() <= usize::MAX,
        ensures
            total == self@.total(),
    {
        get_files_len(&self.root_files) + get_files_len(&self.env_files) + get_files_len(
            &self.script_files,
        )
    }

    /// Whether no group has any file.
    pub fn is_empty(&self) -> (empty: bool)
        ensures
            empty == (self@.total() == 0),
    {
        get_files_len(&self.root_files) == 0 && get_files_len(&self.env_files) == 0
            && get_files_len(&self.script_files) == 0
    }

    fn place(self, group: SourceGroup, files: IncludedFiles) -> (placed: RumkinstFiles)
        ensures
            placed@ == self@.with_slot(group, Some(files@)),
    {
        let RumkinstFiles { root_files, env_files, script_files } = self;
        match group {
            SourceGroup::Root => RumkinstFiles { root_files: Some(files), env_files, script_files },
            SourceGroup::Env => RumkinstFiles { root_files, env_files: Some(files), script_files },
            SourceGroup::Scripts => RumkinstFiles {
                root_files,
                env_files,
                script_files: Some(files),
            },
        }
    }
}

/// The search for all files as a mathematical value: the group being
/// searched, where its explorer stands, and the files of the groups before it.
pub struct FileSearchView {
    pub config: ConfigView,
    pub group: SourceGroup,
    pub explorer: ExplorerView,
    pub found: FilesView,
}

/// The search for all files, waiting for the host to inspect one path.
pub struct FileSearch<'a> {
    config: &'a Config,
    group: SourceGroup,
    explorer: PathExplorer,
    found: RumkinstFiles,
}

impl<'a> View for FileSearch<'a> {
    type V = FileSearchView;

    closed spec fn view(&self) -> FileSearchView {
        FileSearchView {
            config: self.config@,
            group: self.group,
            explorer: self.explorer@,
            found: self.found@,
        }
    }
}

/// Where the search for all files stands after a step.
pub enum Discovery<'a> {
    /// The host is to inspect the wanted path and call [`FileSearch::resume`]
    /// with what it found.
    Pending(FileSearch<'a>),
    /// The search is over.
    Done(Result<RumkinstFiles, SearchError>),
}

/// The mathematical value of a [`Discovery`].
pub enum DiscoveryView {
    Pending(FileSearchView),
    Done(Result<FilesView, SearchFailure>),
}

impl<'a> View for Discovery<'a> {
    type V = DiscoveryView;

    open spec fn view(&self) -> DiscoveryView {
        match *self {
            Discovery::Pending(search) => DiscoveryView::Pending(search@),
            Discovery::Done(Ok(files)) => DiscoveryView::Done(Ok(files@)),
            Discovery::Done(Err(error)) => DiscoveryView::Done(Err(error@)),
        }
    }
}

/// A step's outcome: where the search stands, and what the progress session shows.
pub struct Outcome {
    pub discovery: DiscoveryView,
    pub progress: Option<SessionView>,
}

/// The explorer that searches one group: from the group's base path, with
/// the group's excluded paths as its filter.
pub open spec fn explorer_for(source: SourceConfig) -> ExplorerView {
    initial_explorer(source.path@, texts(source.exclude@).to_set())
}

/// Takes up the search with `group`, the groups before it being done.
///
/// A disabled group is skipped entirely: nothing is asked of the host for
/// it, and it gets no collection. Each group that is skipped counts one unit
/// of progress. The search waits at the first enabled group, for the host to
/// inspect that group's base path; where no group is left it ends with the
/// files found.
pub open spec fn begun(
    config: ConfigView,
    group: Option<SourceGroup>,
    found: FilesView,
    progress: Option<SessionView>,
) -> Outcome
    decreases 3 - rank(group),
{
    match group {
        None => Outcome { discovery: DiscoveryView::Done(Ok(found)), progress },
        Some(group) => {
            let source = source_of(config, group);
            if source.disable {
                begun(config, following(group), found, after_increment(progress, 1))
            } else {
                Outcome {
                    discovery: DiscoveryView::Pending(
                        FileSearchView { config, group, explorer: explorer_for(source), found },
                    ),
                    progress,
                }
            }
        },
    }
}

/// What follows once the explorer of the group being searched has ended
/// with `result`.
///
/// A failure fails the whole search. Files become the group's collection,
/// one unit of progress is counted, and the search goes on with the next group.
pub open spec fn group_ended(
    config: ConfigView,
    group: SourceGroup,
    found: FilesView,
    result: Result<Seq<Seq<char>>, SearchFailure>,
    progress: Option<SessionView>,
) -> Outcome {
    match result {
        Err(failure) => Outcome { discovery: DiscoveryView::Done(Err(failure)), progress },
        Ok(files) => begun(
            config,
            following(group),
            found.with_slot(group, Some(files)),
            after_increment(progress, 1),
        ),
    }
}

/// One step of the search for all files, once the host has found `found` at
/// the wanted path: the group's explorer takes the step, and where it ends,
/// the group ends with its result.
pub open spec fn resumed(
    search: FileSearchView,
    found: InspectionView,
    progress: Option<SessionView>,
) -> Outcome {
    let shown = progress_after_visit(
        progress,
        last_visited(agenda_after(search.explorer, found), search.explorer.excluded),
    );
    match search_step(search.explorer, found) {
        SearchView::Pending(explorer) => Outcome {
            discovery: DiscoveryView::Pending(FileSearchView { explorer, ..search }),
            progress: shown,
        },
        SearchView::Done(result) => group_ended(
            search.config,
            search.group,
            search.found,
            result,
            shown,
        ),
    }
}

/// What follows where the group being searched is searched to its end in
/// `tree`, which lies at the group's base path: the group ends with what
/// the search finds in the tree, and the status text names the entry
/// visited last.
pub open spec fn group_searched(
    search: FileSearchView,
    tree: Node,
    progress: Option<SessionView>,
) -> Outcome {
    let source = source_of(search.config, search.group);
    let excluded = texts(source.exclude@).to_set();
    group_ended(
        search.config,
        search.group,
        search.found,
        discover(source.path@, tree, excluded),
        progress_after_visit(progress, seen_at(tree, excluded)),
    )
}

/// Whether `files` holds a collection for exactly the enabled groups.
pub open spec fn matches_groups(config: ConfigView, files: FilesView) -> bool {
    forall|group: SourceGroup| #[trigger]
        files.slot(group) is None <==> source_of(config, group).disable
}

/// Whether `found` holds a collection for exactly the enabled groups before
/// `next`, and none from there on.
pub open spec fn matches_groups_before(
    config: ConfigView,
    found: FilesView,
    next: Option<SourceGroup>,
) -> bool {
    forall|group: SourceGroup| #[trigger]
        found.slot(group) is None <==> source_of(config, group).disable || rank(Some(group))
            >= rank(next)
}

/// A disabled group has no collection, adds no file to the total, and adds
/// no entry to the archive: the archive's entries are those of the other
/// groups alone.
pub proof fn lemma_disabled_group_adds_nothing(
    config: ConfigView,
    files: FilesView,
    group: SourceGroup,
)
    requires
        matches_groups(config, files),
        source_of(config, group).disable,
    ensures
        files.slot(group) is None,
        files_len(files.slot(group)) == 0,
        files.total() == files.with_slot(group, Some(Seq::empty())).total(),
        files.entry_order() == files.with_slot(group, Some(Seq::empty())).entry_order(),
{
    assert(files.slot(group) is None);
    let emptied = files.with_slot(group, Some(Seq::empty()));
    assert(files.entry_order() =~= emptied.entry_order());
}

/// The explorer for one source group, or nothing where the group is disabled.
pub fn search_source(source: &SourceConfig) -> (explorer: Option<PathExplorer>)
    ensures
        match explorer {
            Some(explorer) => !source.disable && explorer@ == explorer_for(*source),
            None => source.disable,
        },
{
    if source.disable {
        return None;
    }
    let filter = ExclusionFilter::from(&source.exclude);
    Some(PathExplorer::new(source.path.clone(), filter))
}

fn source_in<'a>(config: &'a Config, group: SourceGroup) -> (source: &'a SourceConfig)
    ensures
        *source == source_of(config@, group),
{
    match group {
        SourceGroup::Root => config.root(),
        SourceGroup::Env => config.env(),
        SourceGroup::Scripts => config.scripts(),
    }
}

fn next_group(group: SourceGroup) -> (next: Option<SourceGroup>)
    ensures
        next == following(group),
{
    match group {
        SourceGroup::Root => Some(SourceGroup::Env),
        SourceGroup::Env => Some(SourceGroup::Scripts),
        SourceGroup::Scripts => None,
    }
}

fn begin_from<'a>(
    config: &'a Config,
    first: Option<SourceGroup>,
    found: RumkinstFiles,
    progress: &mut ProgressState,
) -> (next: Discovery<'a>)
    requires
        matches_groups_before(config@, found@, first),
    ensures
        next@ == begun(config@, first, found@, old(progress)@).discovery,
        final(progress)@ == begun(config@, first, found@, old(progress)@).progress,
        next matches Discovery::Done(Ok(files)) ==> matches_groups(config@, files@),
{
    let mut group = first;
    loop
        invariant
            matches_groups_before(config@, found@, group),
            begun(config@, group, found@, progress@) == begun(
                config@,
                first,
                found@,
                old(progress)@,
            ),
        decreases 3 - rank(group),
    {
        match group {
            None => {
                proof {
                    assert forall|g: SourceGroup| #[trigger]
                        found@.slot(g) is None <==> source_of(config@, g).disable by {
                        assert(rank(Some(g)) < 3);
                    }
                }
                return Discovery::Done(Ok(found));
            },
            Some(current) => {
                match search_source(source_in(config, current)) {
                    None => {
                        increment_progress(progress, 1);
                        group = next_group(current);
                    },
                    Some(explorer) => {
                        return Discovery::Pending(
                            FileSearch { config, group: current, explorer, found },
                        );
                    },
                }
            },
        }
    }
}

/// Starts the search for all files: the three groups in order.
///
/// Nothing is read here. The search returns at once where every group is
/// disabled; otherwise it waits for the host to inspect the base path of the
/// first enabled group.
pub fn find_all_files<'a>(config: &'a Config, progress: &mut ProgressState) -> (next: Discovery<
    'a,
>)
    ensures
        next@ == begun(config@, Some(SourceGroup::Root), no_files(), old(progress)@).discovery,
        final(progress)@ == begun(
            config@,
            Some(SourceGroup::Root),
            no_files(),
            old(progress)@,
        ).progress,
        next matches Discovery::Done(Ok(files)) ==> matches_groups(config@, files@),
{
    let found = RumkinstFiles::new(None, None, None);
    begin_from(config, Some(SourceGroup::Root), found, progress)
}

impl<'a> FileSearch<'a> {
    #[verifier::type_invariant]
    spec fn well_formed(self) -> bool {
        &&& !source_of(self.config@, self.group).disable
        &&& matches_groups_before(self.config@, self.found@, Some(self.group))
    }

    /// The path that the host is to inspect next.
    pub fn wanted(&self) -> (path: &str)
        ensures
            path@ == self@.explorer.wanted,
    {
        self.explorer.wanted()
    }

    /// The group that is being searched.
    pub fn group(&self) -> (group: SourceGroup)
        ensures
            group == self@.group,
    {
        self.group
    }

    /// Takes what the host found at the wanted path and carries the search
    /// on to the next path that needs inspecting, or to its end.
    ///
    /// A search that ends well holds a collection for exactly the enabled
    /// groups: a disabled group never contributes one.
    pub fn resume(self, found: Inspection, progress: &mut ProgressState) -> (next: Discovery<'a>)
        ensures
            next@ == resumed(self@, found@, old(progress)@).discovery,
            final(progress)@ == resumed(self@, found@, old(progress)@).progress,
            next matches Discovery::Done(Ok(files)) ==> matches_groups(self@.config, files@),
    {
        proof {
            use_type_invariant(&self);
        }
        let FileSearch { config, group, explorer, found: so_far } = self;
        match explorer.search(found, progress) {
            Search::Pending(explorer) => Discovery::Pending(
                FileSearch { config, group, explorer, found: so_far },
            ),
            Search::Done(result) => end_group(config, group, so_far, result, progress),
        }
    }

    /// Searches the group with the answers of `tree`, which lies at the
    /// group's base path, and carries the search on to the next group.
    pub(crate) fn replay(self, tree: &Node, progress: &mut ProgressState) -> (next: Discovery<'a>)
        requires
            self@.explorer == explorer_for(source_of(self@.config, self@.group)),
        ensures
            next@ == group_searched(self@, *tree, old(progress)@).discovery,
            final(progress)@ == group_searched(self@, *tree, old(progress)@).progress,
            next matches Discovery::Done(Ok(files)) ==> matches_groups(self@.config, files@),
    {
        proof {
            use_type_invariant(&self);
        }
        let FileSearch { config, group, explorer, found: so_far } = self;
        let result = replay_from_base(explorer, tree, progress);
        end_group(config, group, so_far, result, progress)
    }
}

fn end_group<'a>(
    config: &'a Config,
    group: SourceGroup,
    found: RumkinstFiles,
    result: Result<IncludedFiles, SearchError>,
    progress: &mut ProgressState,
) -> (next: Discovery<'a>)
    requires
        !source_of(config@, group).disable,
        matches_groups_before(config@, found@, Some(group)),
    ensures
        next@ == group_ended(config@, group, found@, found_view(result), old(progress)@).discovery,
        final(progress)@ == group_ended(
            config@,
            group,
            found@,
            found_view(result),
            old(progress)@,
        ).progress,
        next matches Discovery::Done(Ok(files)) ==> matches_groups(config@, files@),
{
    match result {
        Err(error) => Discovery::Done(Err(error)),
        Ok(files) => {
            let placed = found.place(group, files);
            increment_progress(progress, 1);
            proof {
                assert forall|g: SourceGroup| #[trigger]
                    placed@.slot(g) is None <==> source_of(config@, g).disable || rank(Some(g))
                        >= rank(following(group)) by {
                    assert(found@.slot(g) is None <==> source_of(config@, g).disable || rank(
                        Some(g),
                    ) >= rank(Some(group)));
                }
            }
            begin_from(config, next_group(group), placed, progress)
        },
    }
}

} // verus!
