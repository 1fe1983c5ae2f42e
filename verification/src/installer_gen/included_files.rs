//! The exclusion filter and the path explorer: exclusion-aware, recursive
//! file discovery below one base path, as a state machine.
//!
//! The filter is an exact-match membership test over excluded paths.
//!
//! The explorer never reads a directory itself. It names the path it wants
//! inspected next; the host inspects that path and hands back what it found;
//! the explorer then decides what follows. Files are collected in traversal
//! order: each directory's entries in the order the host listed them, and a
//! subdirectory's files at the place of the subdirectory.

use crate::progress_log::{after_message, set_progress_message, ProgressState, SessionView};
use crate::text::{debug_text, quoted_after, quoted_between, texts};
use vstd::prelude::*;

verus! {

/// A hash set of paths, kept in `hashbrown::HashSet<String>`. Verus does not
/// look inside: what the set holds is named by [`path_set_members`].
#[verifier::external_body]
pub struct PathSet {
    inner: hashbrown::HashSet<String>,
}

/// The paths that a [`PathSet`] holds.
pub uninterp spec fn path_set_members(set: PathSet) -> Set<Seq<char>>;

/// Collects `paths` with `hashbrown::HashSet::from_iter`. Trusted: the set
/// holds a path exactly if it is the text of one of `paths`.
#[verifier::external_body]
fn path_set_from(paths: &Vec<String>) -> (set: PathSet)
    ensures
        path_set_members(set) == texts(paths@).to_set(),
{
    PathSet { inner: hashbrown::HashSet::from_iter(paths.iter().cloned()) }
}

/// Looks `path` up with `hashbrown::HashSet::contains`. Trusted: the answer
/// is whether the set holds exactly this text.
#[verifier::external_body]
fn path_set_contains(set: &PathSet, path: &str) -> (found: bool)
    ensures
        found == path_set_members(*set).contains(path@),
{
    set.inner.contains(path)
}

/// An immutable set of excluded paths. A path is excluded only if it equals
/// a stored path exactly: there is no prefix or pattern matching.
pub struct ExclusionFilter {
    filter: PathSet,
}

impl View for ExclusionFilter {
    type V = Set<Seq<char>>;

    closed spec fn view(&self) -> Set<Seq<char>> {
        path_set_members(self.filter)
    }
}

impl ExclusionFilter {
    /// The filter that excludes exactly the given paths.
    pub fn from(paths: &Vec<String>) -> (filter: ExclusionFilter)
        ensures
            filter@ == texts(paths@).to_set(),
    {
        ExclusionFilter { filter: path_set_from(paths) }
    }

    /// Whether `path` is one of the excluded paths.
    pub fn is_excluded(&self, path: &str) -> (excluded: bool)
        ensures
            excluded == self@.contains(path@),
    {
        path_set_contains(&self.filter, path)
    }
}

/// What the host found at a path.
#[derive(Debug, PartialEq, Eq)]
pub enum Inspection {
    /// A regular file.
    File,
    /// A directory, with the paths of its entries in the order they were
    /// read. `complete` is false where reading an entry failed: `entries`
    /// then holds the entries read before the failure.
    Directory { entries: Vec<String>, complete: bool },
    /// A directory whose entries cannot be listed at all.
    Unreadable,
    /// Nothing exists at the path.
    Missing,
    /// Something that is neither a file nor a directory.
    Other,
}

/// The mathematical value of an [`Inspection`].
pub enum InspectionView {
    File,
    Directory { entries: Seq<Seq<char>>, complete: bool },
    Unreadable,
    Missing,
    Other,
}

impl View for Inspection {
    type V = InspectionView;

    open spec fn view(&self) -> InspectionView {
        match *self {
            Inspection::File => InspectionView::File,
            Inspection::Directory { entries, complete } => InspectionView::Directory {
                entries: texts(entries@),
                complete,
            },
            Inspection::Unreadable => InspectionView::Unreadable,
            Inspection::Missing => InspectionView::Missing,
            Inspection::Other => InspectionView::Other,
        }
    }
}

/// Why a search failed. Each variant names the path that failed.
#[derive(Debug, PartialEq, Eq)]
pub enum SearchError {
    /// The base path does not exist.
    Missing(String),
    /// The base path exists but is neither a file nor a directory.
    Unexpected(String),
    /// The directory could not be listed.
    ReadDirectory(String),
    /// An entry of the directory could not be read.
    ReadEntry(String),
    /// The entry is neither a file nor a directory.
    NotFileOrDirectory(String),
}

/// The mathematical value of a [`SearchError`].
pub enum SearchFailure {
    Missing(Seq<char>),
    Unexpected(Seq<char>),
    ReadDirectory(Seq<char>),
    ReadEntry(Seq<char>),
    NotFileOrDirectory(Seq<char>),
}

impl View for SearchError {
    type V = SearchFailure;

    open spec fn view(&self) -> SearchFailure {
        match *self {
            SearchError::Missing(path) => SearchFailure::Missing(path@),
            SearchError::Unexpected(path) => SearchFailure::Unexpected(path@),
            SearchError::ReadDirectory(path) => SearchFailure::ReadDirectory(path@),
            SearchError::ReadEntry(path) => SearchFailure::ReadEntry(path@),
            SearchError::NotFileOrDirectory(path) => SearchFailure::NotFileOrDirectory(path@),
        }
    }
}

/// The text that says how a search failed. A failure met while a directory
/// is walked says so first.
pub open spec fn search_failure_text(failure: SearchFailure) -> Seq<char> {
    match failure {
        SearchFailure::Missing(path) => "failed to search "@ + debug_text(path)
            + ", file path does not exist"@,
        SearchFailure::Unexpected(path) => "failed to search "@ + debug_text(path)
            + ", encountered an unexpected error"@,
        SearchFailure::ReadDirectory(path) =>
            "error while visiting dir: failed to read directory "@ + debug_text(path),
        SearchFailure::ReadEntry(path) =>
            "error while visiting dir: failed to read entry inside of directory "@ + debug_text(
                path,
            ),
        SearchFailure::NotFileOrDirectory(path) =>
            "error while visiting dir: failed to find file or directory to read at "@
                + debug_text(path),
    }
}

impl SearchError {
    /// The path that failed.
    pub fn path(&self) -> (path: &str)
        ensures
            path@ == match self@ {
                SearchFailure::Missing(path) => path,
                SearchFailure::Unexpected(path) => path,
                SearchFailure::ReadDirectory(path) => path,
                SearchFailure::ReadEntry(path) => path,
                SearchFailure::NotFileOrDirectory(path) => path,
            },
    {
        match self {
            SearchError::Missing(path) => path.as_str(),
            SearchError::Unexpected(path) => path.as_str(),
            SearchError::ReadDirectory(path) => path.as_str(),
            SearchError::ReadEntry(path) => path.as_str(),
            SearchError::NotFileOrDirectory(path) => path.as_str(),
        }
    }

    /// Says how the search failed, and at which path.
    pub fn message(&self) -> (text: String)
        ensures
            text@ == search_failure_text(self@),
    {
        match self {
            SearchError::Missing(path) => quoted_between(
                "failed to search ",
                path.as_str(),
                ", file path does not exist",
            ),
            SearchError::Unexpected(path) => quoted_between(
                "failed to search ",
                path.as_str(),
                ", encountered an unexpected error",
            ),
            SearchError::ReadDirectory(path) => quoted_after(
                "error while visiting dir: failed to read directory ",
                path.as_str(),
            ),
            SearchError::ReadEntry(path) => quoted_after(
                "error while visiting dir: failed to read entry inside of directory ",
                path.as_str(),
            ),
            SearchError::NotFileOrDirectory(path) => quoted_after(
                "error while visiting dir: failed to find file or directory to read at ",
                path.as_str(),
            ),
        }
    }
}

/// The files discovered for one source group, in traversal order.
#[derive(Debug, PartialEq, Eq)]
pub struct IncludedFiles {
    files: Vec<String>,
}

impl View for IncludedFiles {
    type V = Seq<Seq<char>>;

    closed spec fn view(&self) -> Seq<Seq<char>> {
        texts(self.files@)
    }
}

impl IncludedFiles {
    /// A collection that holds `files` in the given order.
    pub fn new(files: Vec<String>) -> (included: IncludedFiles)
        ensures
            included@ == texts(files@),
    {
        IncludedFiles { files }
    }

    /// The number of files.
    pub fn len(&self) -> (len: usize)
        ensures
            len == self@.len(),
    {
        self.files.len()
    }

    /// The file at position `index`.
    pub fn get(&self, index: usize) -> (path: &str)
        requires
            index < self@.len(),
        ensures
            path@ == self@[index as int],
    {
        self.files[index].as_str()
    }

    /// The files, in traversal order.
    pub fn files(&self) -> (files: &Vec<String>)
        ensures
            texts(files@) == self@,
    {
        &self.files
    }
}

/// One thing the explorer has still to deal with.
pub(crate) enum Item {
    /// An entry of a directory that was listed.
    Entry(String),
    /// The mark that a directory's listing broke off after its last entry.
    Truncated(String),
}

/// The mathematical value of an agenda item.
pub enum AgendaItem {
    Entry(Seq<char>),
    Truncated(Seq<char>),
}

impl View for Item {
    type V = AgendaItem;

    closed spec fn view(&self) -> AgendaItem {
        match *self {
            Item::Entry(path) => AgendaItem::Entry(path@),
            Item::Truncated(dir) => AgendaItem::Truncated(dir@),
        }
    }
}

/// The explorer's state as a mathematical value.
pub struct ExplorerView {
    /// The excluded paths.
    pub excluded: Set<Seq<char>>,
    /// What is left to deal with after `wanted`, first things first.
    pub agenda: Seq<AgendaItem>,
    /// The files found so far.
    pub files: Seq<Seq<char>>,
    /// The path the host is asked to inspect.
    pub wanted: Seq<char>,
    /// Whether `wanted` is the base path of the search.
    pub at_root: bool,
}

/// A search in progress, waiting for the host to inspect one path.
pub struct PathExplorer {
    filter: ExclusionFilter,
    /// The agenda as a stack: the next item is the last element.
    agenda: Vec<Item>,
    files: Vec<String>,
    wanted: String,
    at_root: bool,
}

/// The agenda that a stack of items stands for: the stack read from its top.
pub(crate) closed spec fn agenda_of(stack: Seq<Item>) -> Seq<AgendaItem> {
    Seq::new(stack.len(), |i: int| stack[stack.len() - 1 - i]@)
}

impl View for PathExplorer {
    type V = ExplorerView;

    closed spec fn view(&self) -> ExplorerView {
        ExplorerView {
            excluded: self.filter@,
            agenda: agenda_of(self.agenda@),
            files: texts(self.files@),
            wanted: self.wanted@,
            at_root: self.at_root,
        }
    }
}

/// Where a search stands after a step.
pub enum Search {
    /// The host is to inspect the explorer's wanted path and call
    /// [`PathExplorer::search`] with what it found.
    Pending(PathExplorer),
    /// The search is over.
    Done(Result<IncludedFiles, SearchError>),
}

/// The mathematical value of a [`Search`].
pub enum SearchView {
    Pending(ExplorerView),
    Done(Result<Seq<Seq<char>>, SearchFailure>),
}

impl View for Search {
    type V = SearchView;

    open spec fn view(&self) -> SearchView {
        match *self {
            Search::Pending(explorer) => SearchView::Pending(explorer@),
            Search::Done(Ok(files)) => SearchView::Done(Ok(files@)),
            Search::Done(Err(error)) => SearchView::Done(Err(error@)),
        }
    }
}

/// The explorer as it starts: it wants the base path inspected.
pub open spec fn initial_explorer(root: Seq<char>, excluded: Set<Seq<char>>) -> ExplorerView {
    ExplorerView {
        excluded,
        agenda: Seq::empty(),
        files: Seq::empty(),
        wanted: root,
        at_root: true,
    }
}

/// The agenda items that a directory's listing gives: one per entry, in
/// order, and a closing mark where the listing broke off.
pub open spec fn listed(entries: Seq<Seq<char>>, complete: bool, dir: Seq<char>) -> Seq<
    AgendaItem,
> {
    let items = entries.map_values(|path: Seq<char>| AgendaItem::Entry(path));
    if complete {
        items
    } else {
        items.push(AgendaItem::Truncated(dir))
    }
}

/// Works through `agenda` up to the first entry that needs the host: an
/// excluded entry is skipped; any other entry is to be inspected; a listing
/// that broke off fails the search; an empty agenda ends it with `files`.
pub open spec fn resume(
    agenda: Seq<AgendaItem>,
    files: Seq<Seq<char>>,
    excluded: Set<Seq<char>>,
) -> SearchView
    decreases agenda.len(),
{
    if agenda.len() == 0 {
        SearchView::Done(Ok(files))
    } else {
        match agenda[0] {
            AgendaItem::Truncated(dir) => SearchView::Done(Err(SearchFailure::ReadEntry(dir))),
            AgendaItem::Entry(path) => if excluded.contains(path) {
                resume(agenda.drop_first(), files, excluded)
            } else {
                SearchView::Pending(
                    ExplorerView {
                        excluded,
                        agenda: agenda.drop_first(),
                        files,
                        wanted: path,
                        at_root: false,
                    },
                )
            },
        }
    }
}

/// The agenda that a step works through once `found` is known for the wanted
/// path. It is empty where `found` fails the search.
pub open spec fn agenda_after(explorer: ExplorerView, found: InspectionView) -> Seq<AgendaItem> {
    match found {
        InspectionView::File => explorer.agenda,
        InspectionView::Directory { entries, complete } => listed(
            entries,
            complete,
            explorer.wanted,
        ) + explorer.agenda,
        _ => Seq::empty(),
    }
}

/// One step of the search: what follows once the host has found `found` at
/// the wanted path.
///
/// A file is collected; a directory's entries go to the front of the agenda;
/// anything else fails the search with the wanted path. The base path is
/// never held against the exclusion filter.
pub open spec fn search_step(explorer: ExplorerView, found: InspectionView) -> SearchView {
    match found {
        InspectionView::File => resume(
            explorer.agenda,
            explorer.files.push(explorer.wanted),
            explorer.excluded,
        ),
        InspectionView::Directory { .. } => resume(
            agenda_after(explorer, found),
            explorer.files,
            explorer.excluded,
        ),
        InspectionView::Unreadable => SearchView::Done(
            Err(SearchFailure::ReadDirectory(explorer.wanted)),
        ),
        InspectionView::Missing => SearchView::Done(
            Err(
                if explorer.at_root {
                    SearchFailure::Missing(explorer.wanted)
                } else {
                    SearchFailure::NotFileOrDirectory(explorer.wanted)
                },
            ),
        ),
        InspectionView::Other => SearchView::Done(
            Err(
                if explorer.at_root {
                    SearchFailure::Unexpected(explorer.wanted)
                } else {
                    SearchFailure::NotFileOrDirectory(explorer.wanted)
                },
            ),
        ),
    }
}

/// Of two entries that may have been visited, the one visited last:
/// `later` where there is one, else `earlier`.
pub open spec fn later_or(later: Option<Seq<char>>, earlier: Option<Seq<char>>) -> Option<
    Seq<char>,
> {
    match later {
        Some(_) => later,
        None => earlier,
    }
}

/// The last entry that working through `agenda` visits, if it visits any.
/// Every entry up to and including the first one that is not excluded is
/// visited.
pub open spec fn last_visited(agenda: Seq<AgendaItem>, excluded: Set<Seq<char>>) -> Option<
    Seq<char>,
>
    decreases agenda.len(),
{
    if agenda.len() == 0 {
        None
    } else {
        match agenda[0] {
            AgendaItem::Truncated(_) => None,
            AgendaItem::Entry(path) => if excluded.contains(path) {
                later_or(last_visited(agenda.drop_first(), excluded), Some(path))
            } else {
                Some(path)
            },
        }
    }
}

/// The status text shown while `path` is visited.
pub open spec fn reading_message(path: Seq<char>) -> Seq<char> {
    "Reading "@ + debug_text(path)
}

/// The progress state after a step that visited `visited` last: the status
/// text names that entry. A step that visited nothing leaves it as it was.
pub open spec fn progress_after_visit(
    before: Option<SessionView>,
    visited: Option<Seq<char>>,
) -> Option<SessionView> {
    match visited {
        Some(path) => after_message(before, reading_message(path)),
        None => before,
    }
}

proof fn lemma_agenda_push(stack: Seq<Item>, item: Item)
    ensures
        agenda_of(stack.push(item)) == seq![item@] + agenda_of(stack),
{
    assert(agenda_of(stack.push(item)) =~= seq![item@] + agenda_of(stack));
}

proof fn lemma_agenda_pop(stack: Seq<Item>)
    requires
        stack.len() > 0,
    ensures
        agenda_of(stack).len() == stack.len(),
        agenda_of(stack)[0] == stack.last()@,
        agenda_of(stack.drop_last()) == agenda_of(stack).drop_first(),
{
    assert(agenda_of(stack.drop_last()) =~= agenda_of(stack).drop_first());
}

impl PathExplorer {
    /// An explorer for the tree below `root` that passes over what `filter` excludes.
    pub fn new(root: String, filter: ExclusionFilter) -> (explorer: PathExplorer)
        ensures
            explorer@ == initial_explorer(root@, filter@),
    {
        let explorer = PathExplorer {
            filter,
            agenda: Vec::new(),
            files: Vec::new(),
            wanted: root,
            at_root: true,
        };
        assert(agenda_of(explorer.agenda@) =~= Seq::empty());
        assert(texts(explorer.files@) =~= Seq::empty());
        explorer
    }

    /// The path that the host is to inspect next.
    pub fn wanted(&self) -> (path: &str)
        ensures
            path@ == self@.wanted,
    {
        self.wanted.as_str()
    }

    /// Whether the explorer's filter excludes `path`.
    pub fn is_excluded(&self, path: &str) -> (excluded: bool)
        ensures
            excluded == self@.excluded.contains(path@),
    {
        self.filter.is_excluded(path)
    }

    /// Takes what the host found at the wanted path and carries the search on
    /// to the next path that needs inspecting, or to its end.
    ///
    /// Each agenda entry that is visited on the way is shown as the status text.
    pub fn search(self, found: Inspection, progress: &mut ProgressState) -> (next: Search)
        ensures
            next@ == search_step(self@, found@),
            final(progress)@ == progress_after_visit(
                old(progress)@,
                last_visited(agenda_after(self@, found@), self@.excluded),
            ),
    {
        let ghost start = self@;
        let ghost shown = old(progress)@;
        let PathExplorer { filter, mut agenda, mut files, wanted, at_root } = self;
        match found {
            Inspection::File => {
                proof {
                    assert(texts(files@.push(wanted)) =~= texts(files@).push(wanted@));
                }
                files.push(wanted);
            },
            Inspection::Directory { entries, complete } => {
                let ghost listing = texts(entries@);
                let ghost below = agenda_of(agenda@);
                let mut entries = entries;
                if !complete {
                    proof {
                        lemma_agenda_push(agenda@, Item::Truncated(wanted));
                    }
                    agenda.push(Item::Truncated(wanted));
                }
                while entries.len() > 0
                    invariant
                        entries@.len() <= listing.len(),
                        texts(entries@) == listing.take(entries@.len() as int),
                        listed(listing, complete, start.wanted) + below == listed(
                            texts(entries@),
                            true,
                            start.wanted,
                        ) + agenda_of(agenda@),
                    decreases entries.len(),
                {
                    let ghost before = entries@;
                    let ghost stack = agenda@;
                    let entry = entries.pop().unwrap();
                    proof {
                        lemma_agenda_push(stack, Item::Entry(entry));
                        assert(texts(entries@) =~= listing.take(entries@.len() as int));
                        assert(listed(texts(before), true, start.wanted) =~= listed(
                            texts(entries@),
                            true,
                            start.wanted,
                        ) + seq![AgendaItem::Entry(entry@)]);
                        assert(listed(texts(before), true, start.wanted) + agenda_of(stack)
                            =~= listed(texts(entries@), true, start.wanted) + (seq![
                            AgendaItem::Entry(entry@),
                        ] + agenda_of(stack)));
                    }
                    agenda.push(Item::Entry(entry));
                }
                proof {
                    assert(listed(texts(entries@), true, start.wanted) + agenda_of(agenda@)
                        =~= agenda_of(agenda@));
                }
            },
            Inspection::Unreadable => {
                return Search::Done(Err(SearchError::ReadDirectory(wanted)));
            },
            Inspection::Missing => {
                if at_root {
                    return Search::Done(Err(SearchError::Missing(wanted)));
                } else {
                    return Search::Done(Err(SearchError::NotFileOrDirectory(wanted)));
                }
            },
            Inspection::Other => {
                if at_root {
                    return Search::Done(Err(SearchError::Unexpected(wanted)));
                } else {
                    return Search::Done(Err(SearchError::NotFileOrDirectory(wanted)));
                }
            },
        }
        proof {
            assert(agenda_of(agenda@) == agenda_after(start, found@));
        }
        loop
            invariant
                start == self@,
                shown == old(progress)@,
                resume(agenda_of(agenda@), texts(files@), filter@) == search_step(start, found@),
                filter@ == start.excluded,
                progress_after_visit(progress@, last_visited(agenda_of(agenda@), filter@))
                    == progress_after_visit(
                    shown,
                    last_visited(agenda_after(start, found@), start.excluded),
                ),
            decreases agenda.len(),
        {
            let ghost stack = agenda@;
            match agenda.pop() {
                None => {
                    assert(agenda_of(stack).len() == 0);
                    return Search::Done(Ok(IncludedFiles { files }));
                },
                Some(Item::Truncated(dir)) => {
                    proof {
                        lemma_agenda_pop(stack);
                    }
                    return Search::Done(Err(SearchError::ReadEntry(dir)));
                },
                Some(Item::Entry(path)) => {
                    proof {
                        lemma_agenda_pop(stack);
                    }
                    let message = quoted_after("Reading ", path.as_str());
                    set_progress_message(progress, message);
                    if !filter.is_excluded(path.as_str()) {
                        return Search::Pending(
                            PathExplorer { filter, agenda, files, wanted: path, at_root: false },
                        );
                    }
                },
            }
        }
    }
}

} // verus!
