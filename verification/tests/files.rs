use rumkinst::installer_gen::archive::{ArchiveError, ArchiveJob, Archiving};
use rumkinst::config::{
    Config, InternalConfig, InternalPackageDetails, InternalSourceConfig,
};
use rumkinst::installer_gen::disk::{find_all_files_in, SourceTrees};
use rumkinst::installer_gen::included_files::{IncludedFiles, Inspection, SearchError};
use rumkinst::installer_gen::{
    find_all_files, get_files_len, search_source, Discovery, RumkinstFiles, SourceGroup,
};
use rumkinst::config::identifier::Identifier;
use rumkinst::progress_log::ProgressState;
use rumkinst::config::relativepathbuf::RelativePathBuf;
use rumkinst::installer_gen::tree::{Child, Node};

fn strings(items: &[&str]) -> Vec<String> {
    items.iter().map(|s| s.to_string()).collect()
}

fn included(items: &[&str]) -> IncludedFiles {
    IncludedFiles::new(strings(items))
}

fn group(disable: bool, path: &str, exclude: &[&str]) -> Option<InternalSourceConfig> {
    Some(InternalSourceConfig {
        disable: Some(disable),
        path: Some(RelativePathBuf::try_from(path).unwrap()),
        exclude: Some(exclude.iter().map(|p| RelativePathBuf::try_from(*p).unwrap()).collect()),
    })
}

fn config(
    root: Option<InternalSourceConfig>,
    env: Option<InternalSourceConfig>,
    scripts: Option<InternalSourceConfig>,
) -> Config {
    Config::from(InternalConfig {
        package: InternalPackageDetails {
            name: Identifier::try_from("pkg".to_string()).unwrap(),
            description: None,
            authors: None,
        },
        installer: None,
        build: None,
        root,
        env,
        scripts,
    })
}

/// A small disk: each path with what lies there.
fn disk(path: &str) -> Inspection {
    match path {
        "./root/" => Inspection::Directory {
            entries: strings(&["./root/a.txt", "./root/sub"]),
            complete: true,
        },
        "./root/a.txt" => Inspection::File,
        "./root/sub" => Inspection::Directory {
            entries: strings(&["./root/sub/b.txt", "./root/sub/c.txt"]),
            complete: true,
        },
        "./root/sub/b.txt" => Inspection::File,
        "./root/sub/c.txt" => Inspection::File,
        "./env/" => Inspection::Directory { entries: strings(&["./env/vars"]), complete: true },
        "./env/vars" => Inspection::File,
        "./scripts/" => Inspection::Directory {
            entries: strings(&["./scripts/run.sh", "./scripts/dev"]),
            complete: true,
        },
        "./scripts/run.sh" => Inspection::File,
        "./scripts/dev" => Inspection::Other,
        "single" => Inspection::File,
        _ => Inspection::Missing,
    }
}

fn run(
    config: &Config,
    progress: &mut ProgressState,
) -> (Result<RumkinstFiles, SearchError>, Vec<String>) {
    let mut asked = Vec::new();
    let mut discovery = find_all_files(config, progress);
    loop {
        match discovery {
            Discovery::Done(result) => return (result, asked),
            Discovery::Pending(search) => {
                let wanted = search.wanted().to_string();
                let found = disk(&wanted);
                asked.push(wanted);
                discovery = search.resume(found, progress);
            }
        }
    }
}

#[test]
fn groups_are_searched_in_order() {
    let cfg = config(None, None, group(false, "./scripts/", &["./scripts/dev"]));
    let mut progress = ProgressState::new();
    progress.try_begin(3).unwrap();
    let (result, asked) = run(&cfg, &mut progress);
    let files = result.unwrap();
    assert_eq!(
        files.group(SourceGroup::Root).unwrap().files(),
        &strings(&["./root/a.txt", "./root/sub/b.txt", "./root/sub/c.txt"])
    );
    assert_eq!(files.group(SourceGroup::Env).unwrap().files(), &strings(&["./env/vars"]));
    assert_eq!(
        files.group(SourceGroup::Scripts).unwrap().files(),
        &strings(&["./scripts/run.sh"])
    );
    assert_eq!(files.total_files(), 5);
    assert_eq!(files.checked_total_files(), Some(5));
    assert!(!files.is_empty());
    assert_eq!(
        asked,
        strings(&[
            "./root/",
            "./root/a.txt",
            "./root/sub",
            "./root/sub/b.txt",
            "./root/sub/c.txt",
            "./env/",
            "./env/vars",
            "./scripts/",
            "./scripts/run.sh",
        ])
    );
    assert_eq!(progress.current().unwrap().position(), 3);
}

#[test]
fn disabled_group_gives_no_collection_and_is_never_read() {
    let cfg = config(group(true, "./root/", &[]), None, group(true, "nowhere", &[]));
    let mut progress = ProgressState::new();
    progress.try_begin(3).unwrap();
    let (result, asked) = run(&cfg, &mut progress);
    let files = result.unwrap();
    assert!(files.group(SourceGroup::Root).is_none());
    assert_eq!(files.group(SourceGroup::Env).unwrap().files(), &strings(&["./env/vars"]));
    assert!(files.group(SourceGroup::Scripts).is_none());
    assert_eq!(files.total_files(), 1);
    assert_eq!(asked, strings(&["./env/", "./env/vars"]));
    assert_eq!(progress.current().unwrap().position(), 3);
    assert_eq!(files.entry_order(), strings(&["./env/vars"]));
}

#[test]
fn all_groups_disabled_ends_at_once_with_nothing() {
    let cfg = config(
        group(true, "./root/", &[]),
        group(true, "./env/", &[]),
        group(true, "./scripts/", &[]),
    );
    let mut progress = ProgressState::new();
    progress.try_begin(3).unwrap();
    match find_all_files(&cfg, &mut progress) {
        Discovery::Done(Ok(files)) => {
            assert!(files.is_empty());
            assert_eq!(files.total_files(), 0);
            assert!(files.group(SourceGroup::Root).is_none());
            assert!(files.group(SourceGroup::Env).is_none());
            assert!(files.group(SourceGroup::Scripts).is_none());
            assert!(files.entry_order().is_empty());
        }
        _ => panic!("the search should be over"),
    }
    assert_eq!(progress.current().unwrap().position(), 3);
}

#[test]
fn enabled_group_without_files_has_an_empty_collection() {
    let cfg = config(
        group(false, "./root/", &["./root/a.txt", "./root/sub"]),
        group(true, "./env/", &[]),
        group(true, "./scripts/", &[]),
    );
    let mut progress = ProgressState::new();
    let (result, _) = run(&cfg, &mut progress);
    let files = result.unwrap();
    assert_eq!(files.group(SourceGroup::Root).unwrap().len(), 0);
    assert!(files.is_empty());
    assert_eq!(files.total_files(), 0);
}

#[test]
fn first_failing_group_ends_the_search() {
    let cfg = config(None, group(false, "missing-env", &[]), None);
    let mut progress = ProgressState::new();
    progress.try_begin(3).unwrap();
    let (result, asked) = run(&cfg, &mut progress);
    assert_eq!(result.unwrap_err(), SearchError::Missing("missing-env".to_string()));
    assert_eq!(asked.last().unwrap(), "missing-env");
    assert!(!asked.contains(&"./scripts/".to_string()));
    assert_eq!(progress.current().unwrap().position(), 1);
}

#[test]
fn special_entry_fails_its_group() {
    let cfg = config(group(true, "./root/", &[]), group(true, "./env/", &[]), None);
    let mut progress = ProgressState::new();
    let (result, _) = run(&cfg, &mut progress);
    assert_eq!(
        result.unwrap_err(),
        SearchError::NotFileOrDirectory("./scripts/dev".to_string())
    );
}

#[test]
fn group_whose_base_is_a_file_ignores_its_exclusions() {
    let cfg = config(
        group(false, "single", &["single"]),
        group(true, "./env/", &[]),
        group(true, "./scripts/", &[]),
    );
    let mut progress = ProgressState::new();
    let (result, asked) = run(&cfg, &mut progress);
    let files = result.unwrap();
    assert_eq!(files.group(SourceGroup::Root).unwrap().files(), &strings(&["single"]));
    assert_eq!(asked, strings(&["single"]));
}

#[test]
fn group_exclusions_apply_to_their_own_group() {
    let cfg = config(
        group(false, "./root/", &["./root/sub", "./env/vars"]),
        group(false, "./env/", &["./root/a.txt"]),
        group(true, "./scripts/", &[]),
    );
    let mut progress = ProgressState::new();
    let (result, _) = run(&cfg, &mut progress);
    let files = result.unwrap();
    assert_eq!(files.group(SourceGroup::Root).unwrap().files(), &strings(&["./root/a.txt"]));
    assert_eq!(files.group(SourceGroup::Env).unwrap().files(), &strings(&["./env/vars"]));
}

#[test]
fn search_tells_which_group_it_is_in() {
    let cfg = config(group(true, "./root/", &[]), None, None);
    let mut progress = ProgressState::new();
    match find_all_files(&cfg, &mut progress) {
        Discovery::Pending(search) => {
            assert_eq!(search.group(), SourceGroup::Env);
            assert_eq!(search.wanted(), "./env/");
        }
        _ => panic!("the env group should be waiting"),
    }
}

#[test]
fn search_source_skips_a_disabled_group() {
    let cfg = config(group(true, "./root/", &[]), group(false, "./env/", &["./env/x"]), None);
    assert!(search_source(cfg.root()).is_none());
    let explorer = search_source(cfg.env()).unwrap();
    assert_eq!(explorer.wanted(), "./env/");
    assert!(explorer.is_excluded("./env/x"));
    assert!(!explorer.is_excluded("./env/"));
}

#[test]
fn total_counts_every_group() {
    let files = RumkinstFiles::new(
        Some(included(&["a", "b"])),
        None,
        Some(included(&["c", "d", "e"])),
    );
    assert_eq!(files.total_files(), 5);
    assert_eq!(files.checked_total_files(), Some(5));
    assert!(!files.is_empty());
    assert_eq!(get_files_len(&Some(included(&["x"]))), 1);
    assert_eq!(get_files_len(&Some(included(&[]))), 0);
    assert_eq!(get_files_len(&None), 0);
    let none = RumkinstFiles::new(None, Some(included(&[])), None);
    assert_eq!(none.total_files(), 0);
    assert!(none.is_empty());
}

#[test]
fn entry_order_is_root_then_env_then_scripts() {
    let files = RumkinstFiles::new(
        Some(included(&["r2", "r1"])),
        Some(included(&["e1"])),
        Some(included(&["s1", "s0"])),
    );
    assert_eq!(files.entry_order(), strings(&["r2", "r1", "e1", "s1", "s0"]));
}

#[test]
fn entry_order_keeps_a_path_found_by_two_groups() {
    let files =
        RumkinstFiles::new(Some(included(&["same", "x"])), None, Some(included(&["same"])));
    assert_eq!(files.entry_order(), strings(&["same", "x", "same"]));
    assert_eq!(files.total_files(), 3);
}

#[test]
fn archive_takes_the_files_in_entry_order() {
    let files = RumkinstFiles::new(
        Some(included(&["r/a", "r/b"])),
        None,
        Some(included(&["s/run"])),
    );
    let mut progress = ProgressState::new();
    progress.try_begin(3).unwrap();
    let mut writer = files.write_archive(&mut progress);
    let mut appended = Vec::new();
    let result = loop {
        assert_eq!(writer.position(), appended.len());
        match writer.job() {
            ArchiveJob::Append(path) => {
                assert_eq!(
                    progress.current().unwrap().message(),
                    format!("Writing {:?} to archive", path)
                );
                appended.push(path.to_string());
            }
            ArchiveJob::Finish => {}
        }
        match writer.resume(true, &mut progress) {
            Archiving::Pending(next) => writer = next,
            Archiving::Done(result) => break result,
        }
    };
    assert_eq!(result, Ok(()));
    assert_eq!(appended, strings(&["r/a", "r/b", "s/run"]));
    assert_eq!(progress.current().unwrap().position(), 3);
    assert_eq!(progress.current().unwrap().message(), "Writing \"s/run\" to archive");
}

#[test]
fn archive_without_files_is_only_finished() {
    let files = RumkinstFiles::new(None, Some(included(&[])), None);
    let mut progress = ProgressState::new();
    progress.try_begin(0).unwrap();
    let writer = files.write_archive(&mut progress);
    assert_eq!(writer.job(), ArchiveJob::Finish);
    assert_eq!(progress.current().unwrap().message(), "");
    match writer.resume(true, &mut progress) {
        Archiving::Done(result) => assert_eq!(result, Ok(())),
        Archiving::Pending(_) => panic!("nothing should be left to do"),
    }
    assert_eq!(progress.current().unwrap().position(), 0);
}

#[test]
fn failed_append_ends_the_archive_and_names_the_file() {
    let files = RumkinstFiles::new(Some(included(&["one", "two", "three"])), None, None);
    let mut progress = ProgressState::new();
    progress.try_begin(3).unwrap();
    let writer = files.write_archive(&mut progress);
    let writer = match writer.resume(true, &mut progress) {
        Archiving::Pending(next) => next,
        Archiving::Done(_) => panic!("two files are left"),
    };
    assert_eq!(writer.job(), ArchiveJob::Append("two"));
    match writer.resume(false, &mut progress) {
        Archiving::Done(result) => {
            assert_eq!(result, Err(ArchiveError::Append("two".to_string())))
        }
        Archiving::Pending(_) => panic!("a failed append ends the archive"),
    }
    assert_eq!(progress.current().unwrap().position(), 1);
}

#[test]
fn failed_finish_ends_the_archive() {
    let files = RumkinstFiles::new(None, None, None);
    let mut progress = ProgressState::new();
    let writer = files.write_archive(&mut progress);
    match writer.resume(false, &mut progress) {
        Archiving::Done(result) => assert_eq!(result, Err(ArchiveError::Finish)),
        Archiving::Pending(_) => panic!("a failed finish ends the archive"),
    }
}

#[test]
fn archive_message_quotes_the_path() {
    let files = RumkinstFiles::new(Some(included(&["dir/with \"quote\""])), None, None);
    let mut progress = ProgressState::new();
    progress.try_begin(1).unwrap();
    let _writer = files.write_archive(&mut progress);
    assert_eq!(
        progress.current().unwrap().message(),
        "Writing \"dir/with \\\"quote\\\"\" to archive"
    );
}

fn file(path: &str) -> Child {
    Child { path: path.to_string(), node: Node::File }
}

/// The same disk as `disk`, held as three trees.
fn trees() -> SourceTrees {
    SourceTrees {
        root: Node::Directory {
            entries: vec![
                file("./root/a.txt"),
                Child {
                    path: "./root/sub".to_string(),
                    node: Node::Directory {
                        entries: vec![file("./root/sub/b.txt"), file("./root/sub/c.txt")],
                        complete: true,
                    },
                },
            ],
            complete: true,
        },
        env: Node::Directory { entries: vec![file("./env/vars")], complete: true },
        scripts: Node::Directory {
            entries: vec![
                file("./scripts/run.sh"),
                Child { path: "./scripts/dev".to_string(), node: Node::Other },
            ],
            complete: true,
        },
    }
}

#[test]
fn held_disk_gives_what_the_driven_search_gives() {
    let cfg = config(
        group(false, "./root/", &["./root/sub/b.txt"]),
        None,
        group(false, "./scripts/", &["./scripts/dev"]),
    );
    let mut driven_progress = ProgressState::new();
    driven_progress.try_begin(3).unwrap();
    let (driven, _) = run(&cfg, &mut driven_progress);
    let mut held_progress = ProgressState::new();
    held_progress.try_begin(3).unwrap();
    let held = find_all_files_in(&cfg, &trees(), &mut held_progress).unwrap();
    let driven = driven.unwrap();
    assert_eq!(held.entry_order(), driven.entry_order());
    assert_eq!(
        held.entry_order(),
        strings(&["./root/a.txt", "./root/sub/c.txt", "./env/vars", "./scripts/run.sh"])
    );
    assert_eq!(held_progress.current().unwrap().position(), 3);
    assert_eq!(
        held_progress.current().unwrap().message(),
        driven_progress.current().unwrap().message()
    );
    assert_eq!(held_progress.current().unwrap().message(), "Reading \"./scripts/dev\"");
}

#[test]
fn held_disk_is_not_read_for_a_disabled_group() {
    let cfg = config(group(true, "./root/", &[]), None, group(true, "./scripts/", &[]));
    let mut progress = ProgressState::new();
    let mut broken = trees();
    broken.root = Node::Unreadable;
    broken.scripts = Node::Missing;
    let files = find_all_files_in(&cfg, &broken, &mut progress).unwrap();
    assert!(files.group(SourceGroup::Root).is_none());
    assert!(files.group(SourceGroup::Scripts).is_none());
    assert_eq!(files.entry_order(), strings(&["./env/vars"]));
}

#[test]
fn held_disk_fails_with_the_first_failing_group() {
    let cfg = config(None, None, None);
    let mut progress = ProgressState::new();
    progress.try_begin(3).unwrap();
    let mut broken = trees();
    broken.env = Node::Missing;
    assert_eq!(
        find_all_files_in(&cfg, &broken, &mut progress).unwrap_err(),
        SearchError::Missing("./env/".to_string())
    );
    assert_eq!(progress.current().unwrap().position(), 1);
    let mut progress = ProgressState::new();
    assert_eq!(
        find_all_files_in(&cfg, &trees(), &mut progress).unwrap_err(),
        SearchError::NotFileOrDirectory("./scripts/dev".to_string())
    );
}
