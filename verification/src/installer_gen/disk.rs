//! Discovery against three trees held in memory: what lies at the base
//! paths of the three source groups.
//!
//! [`searched`] says what the search for all files returns on such a disk,
//! group by group. [`find_all_files_in`] runs the search with the trees'
//! answers and is proved to return exactly that.

use crate::config::{Config, ConfigView};
use crate::installer_gen::included_files::{progress_after_visit, SearchError, SearchFailure};
use crate::installer_gen::{
    begun, explorer_for, find_all_files, following, matches_groups, no_files, rank, source_of,
    Discovery, DiscoveryView, FilesView, Outcome, RumkinstFiles, SourceGroup,
};
use crate::progress_log::{after_increment, ProgressState, SessionView};
use crate::text::texts;
use crate::installer_gen::tree::{discover, seen_at, Node};
use vstd::prelude::*;

verus! {

/// What lies at the base paths of the three source groups.
#[derive(Debug)]
pub struct SourceTrees {
    pub root: Node,
    pub env: Node,
    pub scripts: Node,
}

impl SourceTrees {
    /// The tree at the base path of `group`.
    pub open spec fn of(self, group: SourceGroup) -> Node {
        match group {
            SourceGroup::Root => self.root,
            SourceGroup::Env => self.env,
            SourceGroup::Scripts => self.scripts,
        }
    }

    fn tree(&self, group: SourceGroup) -> (tree: &Node)
        ensures
            *tree == self.of(group),
    {
        match group {
            SourceGroup::Root => &self.root,
            SourceGroup::Env => &self.env,
            SourceGroup::Scripts => &self.scripts,
        }
    }
}

/// The paths excluded from `group`.
pub open spec fn excluded_from(config: ConfigView, group: SourceGroup) -> Set<Seq<char>> {
    texts(source_of(config, group).exclude@).to_set()
}

/// What the search finds in `group` on the disk `trees`.
pub open spec fn found_in_group(
    config: ConfigView,
    trees: SourceTrees,
    group: SourceGroup,
) -> Result<Seq<Seq<char>>, SearchFailure> {
    discover(source_of(config, group).path@, trees.of(group), excluded_from(config, group))
}

/// The end of a search: its result, and what the progress session shows.
pub struct Searched {
    pub result: Result<FilesView, SearchFailure>,
    pub progress: Option<SessionView>,
}

/// What the search for all files comes to on the disk `trees`, from `group`
/// on, the groups before it having given `found`.
///
/// The groups are searched in order. A disabled group is passed over: its
/// tree is never looked at and it gets no collection. An enabled group gets
/// what the search finds in its tree; the first group whose search fails
/// fails the whole search, and no later group is searched. Each group that
/// is passed over or searched to its end counts one unit of progress.
pub open spec fn searched(
    config: ConfigView,
    trees: SourceTrees,
    group: Option<SourceGroup>,
    found: FilesView,
    progress: Option<SessionView>,
) -> Searched
    decreases 3 - rank(group),
{
    match group {
        None => Searched { result: Ok(found), progress },
        Some(group) => if source_of(config, group).disable {
            searched(config, trees, following(group), found, after_increment(progress, 1))
        } else {
            let shown = progress_after_visit(
                progress,
                seen_at(trees.of(group), excluded_from(config, group)),
            );
            match found_in_group(config, trees, group) {
                Err(failure) => Searched { result: Err(failure), progress: shown },
                Ok(files) => searched(
                    config,
                    trees,
                    following(group),
                    found.with_slot(group, Some(files)),
                    after_increment(shown, 1),
                ),
            }
        },
    }
}

/// What a search that has just taken up a group comes to on the disk `trees`.
spec fn carried_through(outcome: Outcome, trees: SourceTrees) -> Searched
    decreases
            match outcome.discovery {
                DiscoveryView::Pending(search) => 3 - rank(Some(search.group)),
                DiscoveryView::Done(_) => 0,
            },
{
    match outcome.discovery {
        DiscoveryView::Done(result) => Searched { result, progress: outcome.progress },
        DiscoveryView::Pending(search) => searched(
            search.config,
            trees,
            Some(search.group),
            search.found,
            outcome.progress,
        ),
    }
}

/// Taking up the search at a group and carrying it through the disk comes
/// to what the disk gives from that group on.
proof fn lemma_begun_is_searched(
    config: ConfigView,
    trees: SourceTrees,
    group: Option<SourceGroup>,
    found: FilesView,
    progress: Option<SessionView>,
)
    ensures
        carried_through(begun(config, group, found, progress), trees) == searched(
            config,
            trees,
            group,
            found,
            progress,
        ),
        begun(config, group, found, progress).discovery matches DiscoveryView::Pending(search)
            ==> search.config == config && !source_of(config, search.group).disable
            && search.explorer == explorer_for(source_of(config, search.group))
            && rank(Some(search.group)) >= rank(group),
    decreases 3 - rank(group),
{
    match group {
        None => {},
        Some(current) => {
            if source_of(config, current).disable {
                lemma_begun_is_searched(
                    config,
                    trees,
                    following(current),
                    found,
                    after_increment(progress, 1),
                );
            }
        },
    }
}

/// Searches all groups on the disk `trees`: the search for all files is run
/// to its end with the trees' answers.
///
/// The result is what [`searched`] says. A search that ends well holds a
/// collection for exactly the enabled groups.
pub fn find_all_files_in(
    config: &Config,
    trees: &SourceTrees,
    progress: &mut ProgressState,
) -> (result: Result<RumkinstFiles, SearchError>)
    ensures
        match result {
            Ok(files) => searched(
                config@,
                *trees,
                Some(SourceGroup::Root),
                no_files(),
                old(progress)@,
            ).result == Ok::<_, SearchFailure>(files@) && matches_groups(config@, files@),
            Err(error) => searched(
                config@,
                *trees,
                Some(SourceGroup::Root),
                no_files(),
                old(progress)@,
            ).result == Err::<FilesView, _>(error@),
        },
        final(progress)@ == searched(
            config@,
            *trees,
            Some(SourceGroup::Root),
            no_files(),
            old(progress)@,
        ).progress,
{
    let ghost target = searched(
        config@,
        *trees,
        Some(SourceGroup::Root),
        no_files(),
        old(progress)@,
    );
    let mut discovery = find_all_files(config, progress);
    proof {
        lemma_begun_is_searched(
            config@,
            *trees,
            Some(SourceGroup::Root),
            no_files(),
            old(progress)@,
        );
    }
    let ghost mut least: nat = 0;
    loop
        invariant
            target == searched(
                config@,
                *trees,
                Some(SourceGroup::Root),
                no_files(),
                old(progress)@,
            ),
            carried_through(Outcome { discovery: discovery@, progress: progress@ }, *trees)
                == target,
            discovery matches Discovery::Pending(search) ==> search@.config == config@
                && !source_of(config@, search@.group).disable && search@.explorer
                == explorer_for(source_of(config@, search@.group)) && rank(
                Some(search@.group),
            ) >= least,
            discovery matches Discovery::Done(Ok(files)) ==> matches_groups(config@, files@),
            least <= 3,
        decreases 3 - least,
    {
        match discovery {
            Discovery::Done(result) => {
                return result;
            },
            Discovery::Pending(search) => {
                let ghost view = search@;
                let ghost shown = progress@;
                let group = search.group();
                discovery = search.replay(trees.tree(group), progress);
                proof {
                    match found_in_group(config@, *trees, group) {
                        Ok(files) => {
                            lemma_begun_is_searched(
                                config@,
                                *trees,
                                following(group),
                                view.found.with_slot(group, Some(files)),
                                after_increment(
                                    progress_after_visit(
                                        shown,
                                        seen_at(trees.of(group), excluded_from(config@, group)),
                                    ),
                                    1,
                                ),
                            );
                        },
                        Err(_) => {},
                    }
                    least = rank(Some(group)) + 1;
                }
            },
        }
    }
}

/// What lies at the base path of a disabled group has no effect: two disks
/// that differ only in the tree of a disabled group give the same search.
pub proof fn lemma_disabled_group_is_never_read(
    config: ConfigView,
    first: SourceTrees,
    second: SourceTrees,
    group: Option<SourceGroup>,
    found: FilesView,
    progress: Option<SessionView>,
)
    requires
        forall|g: SourceGroup| !source_of(config, g).disable ==> first.of(g) == second.of(g),
    ensures
        searched(config, first, group, found, progress) == searched(
            config,
            second,
            group,
            found,
            progress,
        ),
    decreases 3 - rank(group),
{
    match group {
        None => {},
        Some(current) => {
            if source_of(config, current).disable {
                lemma_disabled_group_is_never_read(
                    config,
                    first,
                    second,
                    following(current),
                    found,
                    after_increment(progress, 1),
                );
            } else {
                assert(first.of(current) == second.of(current));
                let shown = progress_after_visit(
                    progress,
                    seen_at(first.of(current), excluded_from(config, current)),
                );
                match found_in_group(config, first, current) {
                    Ok(files) => {
                        lemma_disabled_group_is_never_read(
                            config,
                            first,
                            second,
                            following(current),
                            found.with_slot(current, Some(files)),
                            after_increment(shown, 1),
                        );
                    },
                    Err(_) => {},
                }
            }
        },
    }
}

/// A search that ends well gives each enabled group exactly what the search
/// finds in its tree, and gives a disabled group nothing.
pub proof fn lemma_each_group_gets_its_own_files(
    config: ConfigView,
    trees: SourceTrees,
    group: SourceGroup,
    progress: Option<SessionView>,
)
    requires
        searched(config, trees, Some(SourceGroup::Root), no_files(), progress).result is Ok,
    ensures
        searched(config, trees, Some(SourceGroup::Root), no_files(), progress).result->Ok_0.slot(
            group,
        ) == (if source_of(config, group).disable {
            None::<Seq<Seq<char>>>
        } else {
            Some(found_in_group(config, trees, group)->Ok_0)
        }),
        !source_of(config, group).disable ==> found_in_group(config, trees, group) is Ok,
{
    lemma_slots_from(config, trees, Some(SourceGroup::Root), no_files(), progress, group);
}

/// From `from` on, a search that ends well fills the slots of the enabled
/// groups with what it finds, and leaves every other slot as it was.
proof fn lemma_slots_from(
    config: ConfigView,
    trees: SourceTrees,
    from: Option<SourceGroup>,
    found: FilesView,
    progress: Option<SessionView>,
    group: SourceGroup,
)
    requires
        searched(config, trees, from, found, progress).result is Ok,
    ensures
        searched(config, trees, from, found, progress).result->Ok_0.slot(group) == (if rank(
            Some(group),
        ) < rank(from) || source_of(config, group).disable {
            found.slot(group)
        } else {
            Some(found_in_group(config, trees, group)->Ok_0)
        }),
        rank(Some(group)) >= rank(from) && !source_of(config, group).disable ==> found_in_group(
            config,
            trees,
            group,
        ) is Ok,
    decreases 3 - rank(from),
{
    match from {
        None => {},
        Some(current) => {
            if source_of(config, current).disable {
                lemma_slots_from(
                    config,
                    trees,
                    following(current),
                    found,
                    after_increment(progress, 1),
                    group,
                );
            } else {
                let shown = progress_after_visit(
                    progress,
                    seen_at(trees.of(current), excluded_from(config, current)),
                );
                match found_in_group(config, trees, current) {
                    Ok(files) => {
                        lemma_slots_from(
                            config,
                            trees,
                            following(current),
                            found.with_slot(current, Some(files)),
                            after_increment(shown, 1),
                            group,
                        );
                    },
                    Err(_) => {},
                }
            }
        },
    }
}

} // verus!
