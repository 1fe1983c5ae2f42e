//! A directory tree held in memory, what discovery finds in it, and a search
//! that runs an explorer against it.
//!
//! The tree is the model against which discovery is stated: [`discover`] says,
//! by recursion over the tree, which files a search collects and in what
//! order, or with which error it fails. [`search_tree`] feeds an explorer the
//! tree's answers and is proved to return exactly that.

use crate::installer_gen::included_files::{
    initial_explorer, last_visited, later_or, listed, progress_after_visit, resume, AgendaItem,
    ExclusionFilter, ExplorerView, IncludedFiles, Inspection, InspectionView, PathExplorer, Search,
    SearchError, SearchFailure, SearchView,
};
use crate::progress_log::{ProgressState, SessionView};
use crate::text::texts;
use vstd::prelude::*;

verus! {

/// What lies at a path, with everything below it.
#[derive(Debug)]
pub enum Node {
    /// A regular file.
    File,
    /// A directory and its entries in listing order. `complete` is false
    /// where reading the directory breaks off after the entries given.
    Directory { entries: Vec<Child>, complete: bool },
    /// A directory that cannot be listed.
    Unreadable,
    /// Nothing.
    Missing,
    /// Something that is neither a file nor a directory.
    Other,
}

/// An entry of a directory: its full path and what lies there.
#[derive(Debug)]
pub struct Child {
    pub path: String,
    pub node: Node,
}

/// The paths of a directory's entries, in listing order.
pub open spec fn child_paths(entries: Seq<Child>) -> Seq<Seq<char>> {
    entries.map_values(|child: Child| child.path@)
}

/// What a search result is made of: the files found, or the failure.
pub type Found = Result<Seq<Seq<char>>, SearchFailure>;

/// `first`, then `rest`: the first failure, or all files in order.
pub open spec fn then_found(first: Found, rest: Found) -> Found {
    match first {
        Err(failure) => Err(failure),
        Ok(files) => match rest {
            Err(failure) => Err(failure),
            Ok(more) => Ok(files + more),
        },
    }
}

/// What the search collects at an entry `path` that is not excluded: the
/// file itself, or what it collects in the directory; anything else fails.
pub open spec fn found_at(path: Seq<char>, node: Node, excluded: Set<Seq<char>>) -> Found
    decreases node, 0int,
{
    match node {
        Node::File => Ok(seq![path]),
        Node::Directory { entries, complete } => found_under(
            entries@,
            0,
            complete,
            path,
            excluded,
        ),
        Node::Unreadable => Err(SearchFailure::ReadDirectory(path)),
        Node::Missing => Err(SearchFailure::NotFileOrDirectory(path)),
        Node::Other => Err(SearchFailure::NotFileOrDirectory(path)),
    }
}

/// What the search collects from the entries of the directory `dir`,
/// starting with entry number `from`. An excluded entry is passed over with
/// all that lies below it. A listing that is not complete fails after its
/// last entry.
pub open spec fn found_under(
    entries: Seq<Child>,
    from: int,
    complete: bool,
    dir: Seq<char>,
    excluded: Set<Seq<char>>,
) -> Found
    decreases entries, entries.len() - from,
{
    if 0 <= from < entries.len() {
        let child = entries[from];
        let rest = found_under(entries, from + 1, complete, dir, excluded);
        if excluded.contains(child.path@) {
            rest
        } else {
            then_found(found_at(child.path@, child.node, excluded), rest)
        }
    } else if complete {
        Ok(Seq::empty())
    } else {
        Err(SearchFailure::ReadEntry(dir))
    }
}

/// What a search from the base path `root` returns, where `tree` lies at
/// `root`. A base that is a single file is returned as it is, whatever the
/// filter holds.
pub open spec fn discover(root: Seq<char>, tree: Node, excluded: Set<Seq<char>>) -> Found {
    match tree {
        Node::Missing => Err(SearchFailure::Missing(root)),
        Node::Other => Err(SearchFailure::Unexpected(root)),
        _ => found_at(root, tree, excluded),
    }
}

/// The last entry that the search visits below the entry at `node`, if it
/// visits any. Only a directory has entries below it.
pub open spec fn seen_at(node: Node, excluded: Set<Seq<char>>) -> Option<Seq<char>>
    decreases node, 0int,
{
    match node {
        Node::Directory { entries, .. } => seen_under(entries@, 0, excluded),
        _ => None,
    }
}

/// The last entry that the search visits among a directory's entries from
/// number `from` on, and below them. Every entry is visited, excluded or
/// not, until the search fails: nothing is visited after the failure.
pub open spec fn seen_under(entries: Seq<Child>, from: int, excluded: Set<Seq<char>>) -> Option<
    Seq<char>,
>
    decreases entries, entries.len() - from,
{
    if 0 <= from < entries.len() {
        let child = entries[from];
        let here = Some(child.path@);
        if excluded.contains(child.path@) {
            later_or(seen_under(entries, from + 1, excluded), here)
        } else {
            let below = later_or(seen_at(child.node, excluded), here);
            if found_at(child.path@, child.node, excluded) is Ok {
                later_or(seen_under(entries, from + 1, excluded), below)
            } else {
                below
            }
        }
    } else {
        None
    }
}

impl Node {
    /// What a host that inspects this node reports.
    pub open spec fn inspection(&self) -> InspectionView {
        match *self {
            Node::File => InspectionView::File,
            Node::Directory { entries, complete } => InspectionView::Directory {
                entries: child_paths(entries@),
                complete,
            },
            Node::Unreadable => InspectionView::Unreadable,
            Node::Missing => InspectionView::Missing,
            Node::Other => InspectionView::Other,
        }
    }

    /// Inspects the node as a host would inspect a path.
    pub fn inspect(&self) -> (found: Inspection)
        ensures
            found@ == self.inspection(),
    {
        match self {
            Node::File => Inspection::File,
            Node::Directory { entries, complete } => {
                let mut paths: Vec<String> = Vec::new();
                let mut i: usize = 0;
                while i < entries.len()
                    invariant
                        i <= entries.len(),
                        paths@.len() == i,
                        texts(paths@) == child_paths(entries@).take(i as int),
                    decreases entries.len() - i,
                {
                    let ghost before = paths@;
                    paths.push(entries[i].path.clone());
                    proof {
                        let all = child_paths(entries@);
                        assert(texts(before) == all.take(i as int));
                        assert(texts(paths@).len() == all.take(i + 1).len());
                        assert forall|k: int| 0 <= k < i + 1 implies texts(paths@)[k] == all.take(
                            i + 1,
                        )[k] by {
                            if k < i {
                                assert(texts(before)[k] == all.take(i as int)[k]);
                            }
                        }
                        assert(texts(paths@) =~= all.take(i + 1));
                    }
                    i += 1;
                }
                proof {
                    assert(child_paths(entries@).take(i as int) =~= child_paths(entries@));
                }
                Inspection::Directory { entries: paths, complete: *complete }
            },
            Node::Unreadable => Inspection::Unreadable,
            Node::Missing => Inspection::Missing,
            Node::Other => Inspection::Other,
        }
    }
}

/// Where the search stands once the subtree at the wanted path has been
/// dealt with: failed as the subtree's search fails, or carried on with the
/// rest of the agenda and the subtree's files collected.
spec fn carried_on(explorer: ExplorerView, found: Found) -> SearchView {
    match found {
        Err(failure) => SearchView::Done(Err(failure)),
        Ok(files) => resume(explorer.agenda, explorer.files + files, explorer.excluded),
    }
}

/// What the search collects at the explorer's wanted path where `node` lies there.
spec fn expected_at(explorer: ExplorerView, node: Node) -> Found {
    if explorer.at_root {
        discover(explorer.wanted, node, explorer.excluded)
    } else {
        found_at(explorer.wanted, node, explorer.excluded)
    }
}

/// The last entry visited once the subtree at the wanted path has been
/// dealt with: an entry of the subtree where the search failed in it, else
/// the last entry visited while the search carried on, if there is one.
spec fn visited_on(explorer: ExplorerView, node: Node) -> Option<Seq<char>> {
    let below = seen_at(node, explorer.excluded);
    if expected_at(explorer, node) is Ok {
        later_or(last_visited(explorer.agenda, explorer.excluded), below)
    } else {
        below
    }
}

/// The agenda while entry number `from` of a listed directory is next:
/// the directory's entries from there on, then what was on the agenda before.
spec fn agenda_from(
    entries: Seq<Child>,
    from: int,
    complete: bool,
    dir: Seq<char>,
    below: Seq<AgendaItem>,
) -> Seq<AgendaItem> {
    listed(child_paths(entries), complete, dir).skip(from) + below
}

proof fn lemma_agenda_from_entry(
    entries: Seq<Child>,
    from: int,
    complete: bool,
    dir: Seq<char>,
    below: Seq<AgendaItem>,
)
    requires
        0 <= from < entries.len(),
    ensures
        agenda_from(entries, from, complete, dir, below).len() > 0,
        agenda_from(entries, from, complete, dir, below)[0] == AgendaItem::Entry(
            entries[from].path@,
        ),
        agenda_from(entries, from, complete, dir, below).drop_first() == agenda_from(
            entries,
            from + 1,
            complete,
            dir,
            below,
        ),
{
    let all = listed(child_paths(entries), complete, dir);
    assert(all.len() >= entries.len());
    assert(all[from] == AgendaItem::Entry(entries[from].path@));
    assert(agenda_from(entries, from, complete, dir, below).drop_first() =~= agenda_from(
        entries,
        from + 1,
        complete,
        dir,
        below,
    ));
}

proof fn lemma_agenda_from_end(
    entries: Seq<Child>,
    complete: bool,
    dir: Seq<char>,
    below: Seq<AgendaItem>,
)
    ensures
        complete ==> agenda_from(entries, entries.len() as int, complete, dir, below) == below,
        !complete ==> agenda_from(entries, entries.len() as int, complete, dir, below) == seq![
            AgendaItem::Truncated(dir),
        ] + below,
{
    let rest = agenda_from(entries, entries.len() as int, complete, dir, below);
    if complete {
        assert(rest =~= below);
    } else {
        assert(rest =~= seq![AgendaItem::Truncated(dir)] + below);
    }
}

/// Where working through a directory's remaining entries ends the search
/// without asking the host, the search ends as the tree's result says, and
/// the entries visited on the way are those that the tree's walk visits.
proof fn lemma_resume_done(
    entries: Seq<Child>,
    from: int,
    complete: bool,
    dir: Seq<char>,
    below: Seq<AgendaItem>,
    files: Seq<Seq<char>>,
    excluded: Set<Seq<char>>,
)
    requires
        0 <= from <= entries.len(),
        resume(agenda_from(entries, from, complete, dir, below), files, excluded) is Done,
    ensures
        resume(agenda_from(entries, from, complete, dir, below), files, excluded) == carried_on(
            ExplorerView { excluded, agenda: below, files, wanted: dir, at_root: false },
            found_under(entries, from, complete, dir, excluded),
        ),
        last_visited(agenda_from(entries, from, complete, dir, below), excluded) == (if found_under(
            entries,
            from,
            complete,
            dir,
            excluded,
        ) is Ok {
            later_or(last_visited(below, excluded), seen_under(entries, from, excluded))
        } else {
            seen_under(entries, from, excluded)
        }),
    decreases entries.len() - from,
{
    if from < entries.len() {
        lemma_agenda_from_entry(entries, from, complete, dir, below);
        lemma_resume_done(entries, from + 1, complete, dir, below, files, excluded);
    } else {
        lemma_agenda_from_end(entries, complete, dir, below);
        assert(files + Seq::<Seq<char>>::empty() =~= files);
    }
}

/// A search that waits for the host keeps the filter and the files it resumed with.
proof fn lemma_resume_pending(
    agenda: Seq<AgendaItem>,
    files: Seq<Seq<char>>,
    excluded: Set<Seq<char>>,
)
    ensures
        resume(agenda, files, excluded) matches SearchView::Pending(waiting) ==> waiting.excluded
            == excluded && waiting.files == files && !waiting.at_root,
    decreases agenda.len(),
{
    if agenda.len() > 0 {
        lemma_resume_pending(agenda.drop_first(), files, excluded);
    }
}

/// The replay of a directory is on track before entry number `from`: the
/// search stands where resuming with the remaining entries leaves it; the
/// files collected so far, followed by what the remaining entries give,
/// make up the directory's result; and the status text names the entry
/// visited last.
spec fn on_track(
    next: SearchView,
    shown: Option<SessionView>,
    start: ExplorerView,
    before: Option<SessionView>,
    entries: Seq<Child>,
    from: int,
    complete: bool,
    collected: Seq<Seq<char>>,
    seen: Option<Seq<char>>,
) -> bool {
    let agenda = agenda_from(entries, from, complete, start.wanted, start.agenda);
    &&& next == resume(agenda, start.files + collected, start.excluded)
    &&& found_under(entries, 0, complete, start.wanted, start.excluded) == then_found(
        Ok(collected),
        found_under(entries, from, complete, start.wanted, start.excluded),
    )
    &&& seen_under(entries, 0, start.excluded) == later_or(
        seen_under(entries, from, start.excluded),
        seen,
    )
    &&& shown == progress_after_visit(
        before,
        later_or(last_visited(agenda, start.excluded), seen),
    )
}

/// The replay of a directory has failed as the directory's result says.
spec fn has_failed(
    next: SearchView,
    shown: Option<SessionView>,
    start: ExplorerView,
    before: Option<SessionView>,
    entries: Seq<Child>,
    complete: bool,
) -> bool {
    &&& found_under(entries, 0, complete, start.wanted, start.excluded) matches Err(failure)
    &&& next == SearchView::Done(Err::<Seq<Seq<char>>, _>(failure))
    &&& shown == progress_after_visit(before, seen_under(entries, 0, start.excluded))
}

/// Answers the explorer's requests from the subtree `node` at its wanted
/// path, until the search needs something outside that subtree or ends.
fn replay(explorer: PathExplorer, node: &Node, progress: &mut ProgressState) -> (next: Search)
    ensures
        next@ == carried_on(explorer@, expected_at(explorer@, *node)),
        final(progress)@ == progress_after_visit(old(progress)@, visited_on(explorer@, *node)),
    decreases node,
{
    let ghost start = explorer@;
    let ghost before = progress@;
    let found = node.inspect();
    match node {
        Node::Directory { entries, complete } => {
            let mut next = explorer.search(found, progress);
            let ghost mut collected: Seq<Seq<char>> = Seq::empty();
            let ghost mut seen: Option<Seq<char>> = None;
            let mut i: usize = 0;
            proof {
                assert(agenda_from(entries@, 0, *complete, start.wanted, start.agenda) =~= listed(
                    child_paths(entries@),
                    *complete,
                    start.wanted,
                ) + start.agenda);
                assert(start.files + collected =~= start.files);
                match found_under(entries@, 0, *complete, start.wanted, start.excluded) {
                    Ok(all) => {
                        assert(collected + all =~= all);
                    },
                    Err(_) => {},
                }
                assert(on_track(
                    next@,
                    progress@,
                    start,
                    before,
                    entries@,
                    0,
                    *complete,
                    collected,
                    seen,
                ));
            }
            while i < entries.len()
                invariant
                    i <= entries.len(),
                    start == explorer@,
                    before == old(progress)@,
                    *node == (Node::Directory { entries: *entries, complete: *complete }),
                    on_track(
                        next@,
                        progress@,
                        start,
                        before,
                        entries@,
                        i as int,
                        *complete,
                        collected,
                        seen,
                    ) || has_failed(next@, progress@, start, before, entries@, *complete),
                decreases entries.len() - i,
            {
                match next {
                    Search::Done(result) => {
                        proof {
                            if on_track(
                                next@,
                                progress@,
                                start,
                                before,
                                entries@,
                                i as int,
                                *complete,
                                collected,
                                seen,
                            ) {
                                lemma_resume_done(
                                    entries@,
                                    i as int,
                                    *complete,
                                    start.wanted,
                                    start.agenda,
                                    start.files + collected,
                                    start.excluded,
                                );
                                match found_under(
                                    entries@,
                                    i as int,
                                    *complete,
                                    start.wanted,
                                    start.excluded,
                                ) {
                                    Ok(more) => {
                                        assert(start.files + collected + more =~= start.files + (
                                        collected + more));
                                    },
                                    Err(_) => {},
                                }
                            }
                        }
                        return Search::Done(result);
                    },
                    Search::Pending(waiting) => {
                        let ghost agenda = agenda_from(
                            entries@,
                            i as int,
                            *complete,
                            start.wanted,
                            start.agenda,
                        );
                        let ghost here = Some(entries@[i as int].path@);
                        proof {
                            assert(on_track(
                                next@,
                                progress@,
                                start,
                                before,
                                entries@,
                                i as int,
                                *complete,
                                collected,
                                seen,
                            ));
                            lemma_agenda_from_entry(
                                entries@,
                                i as int,
                                *complete,
                                start.wanted,
                                start.agenda,
                            );
                            lemma_resume_pending(agenda, start.files + collected, start.excluded);
                        }
                        if waiting.is_excluded(entries[i].path.as_str()) {
                            next = Search::Pending(waiting);
                            proof {
                                seen = later_or(here, seen);
                                assert(on_track(
                                    next@,
                                    progress@,
                                    start,
                                    before,
                                    entries@,
                                    i + 1,
                                    *complete,
                                    collected,
                                    seen,
                                ));
                            }
                        } else {
                            let ghost so_far = collected;
                            let ghost child = entries@[i as int];
                            let ghost found_here = found_at(
                                child.path@,
                                child.node,
                                start.excluded,
                            );
                            let ghost rest = found_under(
                                entries@,
                                i + 1,
                                *complete,
                                start.wanted,
                                start.excluded,
                            );
                            let ghost below = later_or(seen_at(child.node, start.excluded), here);
                            proof {
                                assert(waiting@.wanted == child.path@);
                                assert(waiting@.agenda == agenda.drop_first());
                                assert(expected_at(waiting@, child.node) == found_here);
                                assert(progress@ == progress_after_visit(before, here));
                            }
                            next = replay(waiting, &entries[i].node, progress);
                            proof {
                                match found_here {
                                    Ok(more) => {
                                        collected = so_far + more;
                                        seen = below;
                                        assert(start.files + so_far + more =~= start.files
                                            + collected);
                                        match rest {
                                            Ok(last) => {
                                                assert(so_far + (more + last) =~= collected
                                                    + last);
                                            },
                                            Err(_) => {},
                                        }
                                        assert(on_track(
                                            next@,
                                            progress@,
                                            start,
                                            before,
                                            entries@,
                                            i + 1,
                                            *complete,
                                            collected,
                                            seen,
                                        ));
                                    },
                                    Err(_) => {
                                        assert(has_failed(
                                            next@,
                                            progress@,
                                            start,
                                            before,
                                            entries@,
                                            *complete,
                                        ));
                                    },
                                }
                            }
                        }
                        i += 1;
                    },
                }
            }
            proof {
                lemma_agenda_from_end(entries@, *complete, start.wanted, start.agenda);
                if *complete {
                    assert(collected + Seq::<Seq<char>>::empty() =~= collected);
                }
            }
            next
        },
        _ => {
            proof {
                assert(start.files.push(start.wanted) =~= start.files + seq![start.wanted]);
            }
            explorer.search(found, progress)
        },
    }
}

/// Runs a fresh explorer to its end with the answers of `tree`, which lies
/// at the explorer's base path.
pub(crate) fn replay_from_base(
    explorer: PathExplorer,
    tree: &Node,
    progress: &mut ProgressState,
) -> (result: Result<IncludedFiles, SearchError>)
    requires
        explorer@ == initial_explorer(explorer@.wanted, explorer@.excluded),
    ensures
        found_view(result) == discover(explorer@.wanted, *tree, explorer@.excluded),
        final(progress)@ == progress_after_visit(
            old(progress)@,
            seen_at(*tree, explorer@.excluded),
        ),
{
    let ghost start = explorer@;
    proof {
        match discover(start.wanted, *tree, start.excluded) {
            Ok(files) => {
                assert(start.files + files =~= files);
            },
            Err(_) => {},
        }
    }
    match replay(explorer, tree, progress) {
        Search::Done(result) => result,
        Search::Pending(_) => {
            // With the whole tree replayed and nothing else on the agenda,
            // the search cannot be waiting for the host.
            proof {
                assert(false);
            }
            unreached()
        },
    }
}

/// A search result as a plain value.
pub open spec fn found_view(result: Result<IncludedFiles, SearchError>) -> Found {
    match result {
        Ok(files) => Ok(files@),
        Err(error) => Err(error@),
    }
}

/// Searches the tree `tree` that lies at the base path `root`, passing over
/// what `filter` excludes: an explorer is run to its end with the tree's
/// answers.
///
/// The result is what [`discover`] says: the files in traversal order, or
/// the first failure met. The status text names the entry visited last.
pub fn search_tree(
    root: String,
    filter: ExclusionFilter,
    tree: &Node,
    progress: &mut ProgressState,
) -> (result: Result<IncludedFiles, SearchError>)
    ensures
        found_view(result) == discover(root@, *tree, filter@),
        final(progress)@ == progress_after_visit(old(progress)@, seen_at(*tree, filter@)),
{
    replay_from_base(PathExplorer::new(root, filter), tree, progress)
}

/// Whether `target` is a file below the entries from number `from` on that
/// the search reaches: no entry on the way down to it, nor the file's own
/// entry, is excluded.
pub open spec fn reached_under(
    entries: Seq<Child>,
    from: int,
    excluded: Set<Seq<char>>,
    target: Seq<char>,
) -> bool
    decreases entries, entries.len() - from,
{
    &&& 0 <= from < entries.len()
    &&& {
        ||| !excluded.contains(entries[from].path@) && reached_at(
            entries[from].path@,
            entries[from].node,
            excluded,
            target,
        )
        ||| reached_under(entries, from + 1, excluded, target)
    }
}

/// Whether `target` is the file at `path` itself, or a file that the search
/// reaches below the directory at `path`.
pub open spec fn reached_at(
    path: Seq<char>,
    node: Node,
    excluded: Set<Seq<char>>,
    target: Seq<char>,
) -> bool
    decreases node, 0int,
{
    match node {
        Node::File => target == path,
        Node::Directory { entries, .. } => reached_under(entries@, 0, excluded, target),
        _ => false,
    }
}

/// Whether two subtrees are alike wherever the search can look: they may
/// differ only in what lies below excluded entries.
pub open spec fn alike_at(left: Node, right: Node, excluded: Set<Seq<char>>) -> bool
    decreases left, 0int,
{
    match (left, right) {
        (Node::File, Node::File) => true,
        (
            Node::Directory { entries: a, complete: ca },
            Node::Directory { entries: b, complete: cb },
        ) => ca == cb && alike_under(a@, b@, 0, excluded),
        (Node::Unreadable, Node::Unreadable) => true,
        (Node::Missing, Node::Missing) => true,
        (Node::Other, Node::Other) => true,
        _ => false,
    }
}

/// Whether two listings are alike from entry number `from` on: the same
/// paths in the same order, and alike subtrees at every path that is not
/// excluded.
pub open spec fn alike_under(
    left: Seq<Child>,
    right: Seq<Child>,
    from: int,
    excluded: Set<Seq<char>>,
) -> bool
    decreases left, left.len() - from,
{
    &&& left.len() == right.len()
    &&& 0 <= from < left.len() ==> {
        &&& left[from].path@ == right[from].path@
        &&& excluded.contains(left[from].path@) || alike_at(
            left[from].node,
            right[from].node,
            excluded,
        )
        &&& alike_under(left, right, from + 1, excluded)
    }
}

/// Every file that the search collects below a directory is a file that it
/// reaches through entries that are not excluded.
pub proof fn lemma_found_is_reached(
    entries: Seq<Child>,
    from: int,
    complete: bool,
    dir: Seq<char>,
    excluded: Set<Seq<char>>,
)
    requires
        0 <= from,
    ensures
        found_under(entries, from, complete, dir, excluded) matches Ok(files) ==> forall|k: int|
            0 <= k < files.len() ==> reached_under(entries, from, excluded, #[trigger] files[k]),
    decreases entries, entries.len() - from,
{
    if from < entries.len() {
        let child = entries[from];
        let rest = found_under(entries, from + 1, complete, dir, excluded);
        let here = found_at(child.path@, child.node, excluded);
        lemma_found_is_reached(entries, from + 1, complete, dir, excluded);
        if excluded.contains(child.path@) {
            assert(found_under(entries, from, complete, dir, excluded) == rest);
        } else {
            assert(found_under(entries, from, complete, dir, excluded) == then_found(here, rest));
            match child.node {
                Node::Directory { entries: inner, complete: inner_complete } => {
                    lemma_found_is_reached(inner@, 0, inner_complete, child.path@, excluded);
                    assert(here == found_under(inner@, 0, inner_complete, child.path@, excluded));
                },
                _ => {},
            }
            match (here, rest) {
                (Ok(first), Ok(more)) => {
                    let files = first + more;
                    assert forall|k: int| 0 <= k < files.len() implies reached_under(
                        entries,
                        from,
                        excluded,
                        #[trigger] files[k],
                    ) by {
                        if k < first.len() {
                            assert(files[k] == first[k]);
                            assert(reached_at(child.path@, child.node, excluded, first[k]));
                        } else {
                            assert(files[k] == more[k - first.len()]);
                        }
                    }
                },
                _ => {},
            }
        }
    }
}

/// A file that the search reaches is not excluded.
pub proof fn lemma_reached_is_not_excluded(
    entries: Seq<Child>,
    from: int,
    excluded: Set<Seq<char>>,
    target: Seq<char>,
)
    requires
        reached_under(entries, from, excluded, target),
    ensures
        !excluded.contains(target),
    decreases entries, entries.len() - from,
{
    let child = entries[from];
    if !excluded.contains(child.path@) && reached_at(child.path@, child.node, excluded, target) {
        match child.node {
            Node::Directory { entries: inner, .. } => {
                lemma_reached_is_not_excluded(inner@, 0, excluded, target);
            },
            _ => {},
        }
    } else {
        lemma_reached_is_not_excluded(entries, from + 1, excluded, target);
    }
}

/// No discovered file is an excluded path, and each one is reached without
/// passing an excluded directory: the search never looks below an entry
/// whose exact path is excluded.
pub proof fn lemma_discovered_files_are_not_excluded(
    root: Seq<char>,
    tree: Node,
    excluded: Set<Seq<char>>,
)
    requires
        tree is Directory,
    ensures
        discover(root, tree, excluded) matches Ok(files) ==> forall|k: int|
            0 <= k < files.len() ==> !excluded.contains(#[trigger] files[k]) && reached_at(
                root,
                tree,
                excluded,
                files[k],
            ),
{
    match discover(root, tree, excluded) {
        Ok(files) => {
            let entries = tree->entries;
            lemma_found_is_reached(entries@, 0, tree->complete, root, excluded);
            assert forall|k: int| 0 <= k < files.len() implies !excluded.contains(
                #[trigger] files[k],
            ) && reached_at(root, tree, excluded, files[k]) by {
                lemma_reached_is_not_excluded(entries@, 0, excluded, files[k]);
            }
        },
        Err(_) => {},
    }
}

/// What lies below an excluded entry has no effect: two listings that are
/// alike wherever the search can look give the same result.
pub proof fn lemma_excluded_subtrees_are_ignored(
    left: Seq<Child>,
    right: Seq<Child>,
    from: int,
    complete: bool,
    dir: Seq<char>,
    excluded: Set<Seq<char>>,
)
    requires
        0 <= from,
        alike_under(left, right, from, excluded),
    ensures
        found_under(left, from, complete, dir, excluded) == found_under(
            right,
            from,
            complete,
            dir,
            excluded,
        ),
    decreases left, left.len() - from,
{
    if from < left.len() {
        lemma_excluded_subtrees_are_ignored(left, right, from + 1, complete, dir, excluded);
        let path = left[from].path@;
        if !excluded.contains(path) {
            assert(alike_at(left[from].node, right[from].node, excluded));
            match (left[from].node, right[from].node) {
                (
                    Node::Directory { entries: a, complete: ca },
                    Node::Directory { entries: b, complete: cb },
                ) => {
                    assert(alike_under(a@, b@, 0, excluded));
                    lemma_excluded_subtrees_are_ignored(a@, b@, 0, ca, path, excluded);
                    assert(found_at(path, left[from].node, excluded) == found_under(
                        a@,
                        0,
                        ca,
                        path,
                        excluded,
                    ));
                    assert(found_at(path, right[from].node, excluded) == found_under(
                        b@,
                        0,
                        cb,
                        path,
                        excluded,
                    ));
                },
                _ => {},
            }
            assert(found_at(path, left[from].node, excluded) == found_at(
                path,
                right[from].node,
                excluded,
            ));
        }
    }
}

/// Two trees that are alike wherever the search can look give the same
/// result from the same base path.
pub proof fn lemma_discovery_ignores_excluded_subtrees(
    root: Seq<char>,
    left: Node,
    right: Node,
    excluded: Set<Seq<char>>,
)
    requires
        alike_at(left, right, excluded),
    ensures
        discover(root, left, excluded) == discover(root, right, excluded),
{
    match (left, right) {
        (
            Node::Directory { entries: a, complete: ca },
            Node::Directory { entries: b, complete: cb },
        ) => {
            lemma_excluded_subtrees_are_ignored(a@, b@, 0, ca, root, excluded);
        },
        _ => {},
    }
}

/// A base path that is a single file is the whole result, whatever is excluded.
pub proof fn lemma_single_file_ignores_filter(root: Seq<char>, excluded: Set<Seq<char>>)
    ensures
        discover(root, Node::File, excluded) == Ok::<_, SearchFailure>(seq![root]),
{
}

/// The result depends on the excluded paths as a set only: two filters that
/// exclude the same paths give the same files in the same order.
pub proof fn lemma_discovery_is_repeatable(
    root: Seq<char>,
    tree: Node,
    first: Set<Seq<char>>,
    second: Set<Seq<char>>,
)
    requires
        forall|path: Seq<char>| first.contains(path) == second.contains(path),
    ensures
        discover(root, tree, first) == discover(root, tree, second),
{
    assert(first =~= second);
}

} // verus!
