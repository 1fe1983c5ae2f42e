use rumkinst::installer_gen::included_files::{IncludedFiles, Inspection, PathExplorer, Search, SearchError};
use rumkinst::installer_gen::included_files::ExclusionFilter;
use rumkinst::progress_log::ProgressState;
use rumkinst::installer_gen::tree::{search_tree, Child, Node};

fn strings(items: &[&str]) -> Vec<String> {
    items.iter().map(|s| s.to_string()).collect()
}

fn filter(paths: &[&str]) -> ExclusionFilter {
    ExclusionFilter::from(&strings(paths))
}

fn file(path: &str) -> Child {
    Child { path: path.to_string(), node: Node::File }
}

fn dir(path: &str, entries: Vec<Child>) -> Child {
    Child { path: path.to_string(), node: Node::Directory { entries, complete: true } }
}

fn listing(entries: Vec<Child>) -> Node {
    Node::Directory { entries, complete: true }
}

/// Looks `path` up in `tree`, which lies at `at`, as a host would look it up on disk.
fn lookup(at: &str, tree: &Node, path: &str) -> Option<Inspection> {
    if at == path {
        return Some(tree.inspect());
    }
    if let Node::Directory { entries, .. } = tree {
        for child in entries {
            if let Some(found) = lookup(&child.path, &child.node, path) {
                return Some(found);
            }
        }
    }
    None
}

/// Runs an explorer as a host does: by answering one request after another.
fn drive(
    root: &str,
    excluded: &[&str],
    tree: &Node,
    progress: &mut ProgressState,
) -> (Result<IncludedFiles, SearchError>, Vec<String>) {
    let mut asked = Vec::new();
    let mut explorer = PathExplorer::new(root.to_string(), filter(excluded));
    loop {
        let wanted = explorer.wanted().to_string();
        let found = lookup(root, tree, &wanted).unwrap_or(Inspection::Missing);
        asked.push(wanted);
        match explorer.search(found, progress) {
            Search::Pending(next) => explorer = next,
            Search::Done(result) => return (result, asked),
        }
    }
}

fn sample_tree() -> Node {
    listing(vec![
        file("root/a.txt"),
        dir("root/sub", vec![file("root/sub/b.txt"), file("root/sub/c.txt")]),
    ])
}

#[test]
fn filter_matches_exact_paths_only() {
    let f = filter(&["root/sub", "root/x.txt"]);
    assert!(f.is_excluded("root/sub"));
    assert!(f.is_excluded("root/x.txt"));
    assert!(!f.is_excluded("root/sub/b.txt"));
    assert!(!f.is_excluded("root/su"));
    assert!(!f.is_excluded("root/sub/"));
    assert!(!f.is_excluded("root"));
    assert!(!f.is_excluded(""));
}

#[test]
fn empty_filter_excludes_nothing() {
    let f = filter(&[]);
    assert!(!f.is_excluded("anything"));
    assert!(!f.is_excluded(""));
}

#[test]
fn filter_takes_repeated_paths() {
    let f = filter(&["a", "a", "b"]);
    assert!(f.is_excluded("a"));
    assert!(f.is_excluded("b"));
    assert!(!f.is_excluded("c"));
}

#[test]
fn excluded_directory_hides_its_files() {
    let mut progress = ProgressState::new();
    let (result, asked) = drive("root", &["root/sub"], &sample_tree(), &mut progress);
    assert_eq!(result.unwrap().files(), &strings(&["root/a.txt"]));
    assert_eq!(asked, strings(&["root", "root/a.txt"]));
}

#[test]
fn excluded_directory_hides_its_files_in_a_held_tree() {
    let mut progress = ProgressState::new();
    let found =
        search_tree("root".to_string(), filter(&["root/sub"]), &sample_tree(), &mut progress)
            .unwrap();
    assert_eq!(found.files(), &strings(&["root/a.txt"]));
    assert_eq!(found.len(), 1);
    assert_eq!(found.get(0), "root/a.txt");
}

#[test]
fn without_exclusions_every_file_is_found_in_traversal_order() {
    let mut progress = ProgressState::new();
    let (result, asked) = drive("root", &[], &sample_tree(), &mut progress);
    assert_eq!(
        result.unwrap().files(),
        &strings(&["root/a.txt", "root/sub/b.txt", "root/sub/c.txt"])
    );
    assert_eq!(
        asked,
        strings(&["root", "root/a.txt", "root/sub", "root/sub/b.txt", "root/sub/c.txt"])
    );
}

#[test]
fn subdirectory_files_stand_where_the_subdirectory_stands() {
    let tree = listing(vec![
        file("r/z"),
        dir("r/d", vec![file("r/d/2"), dir("r/d/e", vec![file("r/d/e/x")]), file("r/d/1")]),
        file("r/a"),
        dir("r/empty", vec![]),
        file("r/m"),
    ]);
    let expected = strings(&["r/z", "r/d/2", "r/d/e/x", "r/d/1", "r/a", "r/m"]);
    let mut progress = ProgressState::new();
    let (driven, _) = drive("r", &[], &tree, &mut progress);
    assert_eq!(driven.unwrap().files(), &expected);
    let held = search_tree("r".to_string(), filter(&[]), &tree, &mut progress).unwrap();
    assert_eq!(held.files(), &expected);
}

#[test]
fn excluded_file_is_left_out() {
    let mut progress = ProgressState::new();
    let (result, asked) = drive("root", &["root/sub/b.txt"], &sample_tree(), &mut progress);
    assert_eq!(result.unwrap().files(), &strings(&["root/a.txt", "root/sub/c.txt"]));
    assert!(!asked.contains(&"root/sub/b.txt".to_string()));
}

#[test]
fn excluding_a_child_path_does_not_exclude_by_prefix() {
    let mut progress = ProgressState::new();
    let (result, _) = drive("root", &["root/su", "sub", "root/sub/"], &sample_tree(), &mut progress);
    assert_eq!(
        result.unwrap().files(),
        &strings(&["root/a.txt", "root/sub/b.txt", "root/sub/c.txt"])
    );
}

#[test]
fn what_lies_below_an_excluded_entry_is_never_looked_at() {
    let tree = listing(vec![
        Child {
            path: "root/broken".to_string(),
            node: Node::Directory {
                entries: vec![Child { path: "root/broken/dev".to_string(), node: Node::Other }],
                complete: false,
            },
        },
        file("root/ok"),
    ]);
    let mut progress = ProgressState::new();
    let (result, asked) = drive("root", &["root/broken"], &tree, &mut progress);
    assert_eq!(result.unwrap().files(), &strings(&["root/ok"]));
    assert_eq!(asked, strings(&["root", "root/ok"]));
    let held = search_tree("root".to_string(), filter(&["root/broken"]), &tree, &mut progress);
    assert_eq!(held.unwrap().files(), &strings(&["root/ok"]));
}

#[test]
fn single_file_base_is_the_whole_result() {
    let mut progress = ProgressState::new();
    let (result, asked) = drive("notes.txt", &[], &Node::File, &mut progress);
    assert_eq!(result.unwrap().files(), &strings(&["notes.txt"]));
    assert_eq!(asked, strings(&["notes.txt"]));
}

#[test]
fn single_file_base_ignores_the_filter() {
    let mut progress = ProgressState::new();
    let (result, _) = drive("notes.txt", &["notes.txt"], &Node::File, &mut progress);
    assert_eq!(result.unwrap().files(), &strings(&["notes.txt"]));
    let held =
        search_tree("notes.txt".to_string(), filter(&["notes.txt"]), &Node::File, &mut progress);
    assert_eq!(held.unwrap().files(), &strings(&["notes.txt"]));
}

#[test]
fn excluded_base_directory_is_still_searched() {
    let mut progress = ProgressState::new();
    let (result, _) = drive("root", &["root"], &sample_tree(), &mut progress);
    assert_eq!(result.unwrap().len(), 3);
}

#[test]
fn empty_directory_gives_no_files() {
    let mut progress = ProgressState::new();
    let (result, _) = drive("root", &[], &listing(vec![]), &mut progress);
    assert_eq!(result.unwrap().len(), 0);
}

#[test]
fn missing_base_fails() {
    let mut progress = ProgressState::new();
    let (result, _) = drive("nowhere", &[], &Node::Missing, &mut progress);
    assert_eq!(result.unwrap_err(), SearchError::Missing("nowhere".to_string()));
    let held = search_tree("nowhere".to_string(), filter(&[]), &Node::Missing, &mut progress);
    assert_eq!(held.unwrap_err(), SearchError::Missing("nowhere".to_string()));
}

#[test]
fn base_that_is_neither_file_nor_directory_fails() {
    let mut progress = ProgressState::new();
    let (result, _) = drive("/dev/null", &[], &Node::Other, &mut progress);
    assert_eq!(result.unwrap_err(), SearchError::Unexpected("/dev/null".to_string()));
}

#[test]
fn unreadable_base_directory_fails() {
    let mut progress = ProgressState::new();
    let (result, _) = drive("locked", &[], &Node::Unreadable, &mut progress);
    assert_eq!(result.unwrap_err(), SearchError::ReadDirectory("locked".to_string()));
}

#[test]
fn special_entry_fails_the_whole_search() {
    let tree = listing(vec![
        file("root/a"),
        Child { path: "root/socket".to_string(), node: Node::Other },
        file("root/b"),
    ]);
    let mut progress = ProgressState::new();
    let (result, asked) = drive("root", &[], &tree, &mut progress);
    assert_eq!(result.unwrap_err(), SearchError::NotFileOrDirectory("root/socket".to_string()));
    assert_eq!(asked, strings(&["root", "root/a", "root/socket"]));
    let held = search_tree("root".to_string(), filter(&[]), &tree, &mut progress);
    assert_eq!(held.unwrap_err(), SearchError::NotFileOrDirectory("root/socket".to_string()));
}

#[test]
fn vanished_entry_fails_the_whole_search() {
    let tree = listing(vec![Child { path: "root/gone".to_string(), node: Node::Missing }]);
    let mut progress = ProgressState::new();
    let (result, _) = drive("root", &[], &tree, &mut progress);
    assert_eq!(result.unwrap_err(), SearchError::NotFileOrDirectory("root/gone".to_string()));
}

#[test]
fn unreadable_subdirectory_fails_the_whole_search() {
    let tree = listing(vec![
        file("root/a"),
        Child { path: "root/locked".to_string(), node: Node::Unreadable },
    ]);
    let mut progress = ProgressState::new();
    let (result, _) = drive("root", &[], &tree, &mut progress);
    assert_eq!(result.unwrap_err(), SearchError::ReadDirectory("root/locked".to_string()));
}

#[test]
fn listing_that_breaks_off_fails_after_its_entries() {
    let tree = Node::Directory {
        entries: vec![
            file("root/a"),
            Child {
                path: "root/d".to_string(),
                node: Node::Directory { entries: vec![file("root/d/x")], complete: false },
            },
            file("root/never"),
        ],
        complete: true,
    };
    let mut progress = ProgressState::new();
    let (result, asked) = drive("root", &[], &tree, &mut progress);
    assert_eq!(result.unwrap_err(), SearchError::ReadEntry("root/d".to_string()));
    assert_eq!(asked, strings(&["root", "root/a", "root/d", "root/d/x"]));
    let held = search_tree("root".to_string(), filter(&[]), &tree, &mut progress);
    assert_eq!(held.unwrap_err(), SearchError::ReadEntry("root/d".to_string()));
}

#[test]
fn earlier_failure_wins_over_a_listing_that_breaks_off() {
    let tree = Node::Directory {
        entries: vec![Child { path: "root/dev".to_string(), node: Node::Other }],
        complete: false,
    };
    let mut progress = ProgressState::new();
    let (result, _) = drive("root", &[], &tree, &mut progress);
    assert_eq!(result.unwrap_err(), SearchError::NotFileOrDirectory("root/dev".to_string()));
}

#[test]
fn same_tree_and_filter_give_the_same_list_again() {
    let mut progress = ProgressState::new();
    let (first, _) = drive("root", &["root/a.txt"], &sample_tree(), &mut progress);
    let (second, _) = drive("root", &["root/a.txt", "root/a.txt"], &sample_tree(), &mut progress);
    assert_eq!(first.unwrap(), second.unwrap());
}

#[test]
fn search_shows_the_entry_it_reads() {
    let mut progress = ProgressState::new();
    progress.try_begin(3).unwrap();
    let (result, _) = drive("root", &["root/sub"], &sample_tree(), &mut progress);
    assert!(result.is_ok());
    let session = progress.current().unwrap();
    assert_eq!(session.message(), "Reading \"root/sub\"");
    assert_eq!(session.position(), 0);
    assert_eq!(session.length(), 3);
}

#[test]
fn search_without_a_session_shows_nothing() {
    let mut progress = ProgressState::new();
    let (result, _) = drive("root", &[], &sample_tree(), &mut progress);
    assert!(result.is_ok());
    assert!(!progress.is_active());
}

#[test]
fn inspecting_a_node_lists_its_entries_in_order() {
    assert_eq!(
        sample_tree().inspect(),
        Inspection::Directory { entries: strings(&["root/a.txt", "root/sub"]), complete: true }
    );
    assert_eq!(Node::File.inspect(), Inspection::File);
    assert_eq!(Node::Unreadable.inspect(), Inspection::Unreadable);
    assert_eq!(Node::Missing.inspect(), Inspection::Missing);
    assert_eq!(Node::Other.inspect(), Inspection::Other);
}
