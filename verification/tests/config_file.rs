use rumkinst::config::search::{
    find_config_file_at, find_default_config_file, ConfigNotFound, ConfigSearch, PathKind,
};
use rumkinst::error_log::{FatalError, Log};
use rumkinst::text::{append_str, join_path};

fn search(path: Option<&str>, answers: &[PathKind]) -> (Result<String, ConfigNotFound>, Vec<String>) {
    let mut asked = Vec::new();
    let mut probe = find_config_file_at(path.map(|p| p.to_string()));
    let mut answers = answers.iter();
    loop {
        asked.push(probe.wanted().to_string());
        match probe.resume(*answers.next().expect("more answers were needed")) {
            ConfigSearch::Pending(next) => probe = next,
            ConfigSearch::Done(result) => return (result, asked),
        }
    }
}

#[test]
fn named_file_is_the_config_file() {
    let (result, asked) = search(Some("conf/my.toml"), &[PathKind::File]);
    assert_eq!(result, Ok("conf/my.toml".to_string()));
    assert_eq!(asked, vec!["conf/my.toml".to_string()]);
}

#[test]
fn named_directory_holds_the_config_file() {
    let (result, asked) = search(Some("project"), &[PathKind::Directory, PathKind::File]);
    assert_eq!(result, Ok("project/rumkinst.toml".to_string()));
    assert_eq!(asked, vec!["project".to_string(), "project/rumkinst.toml".to_string()]);
}

#[test]
fn named_directory_with_a_trailing_slash() {
    let (result, _) = search(Some("project/"), &[PathKind::Directory, PathKind::File]);
    assert_eq!(result, Ok("project/rumkinst.toml".to_string()));
}

#[test]
fn named_directory_without_the_file_fails() {
    let (result, _) = search(Some("project"), &[PathKind::Directory, PathKind::Other]);
    assert_eq!(result, Err(ConfigNotFound::NotAt("project".to_string())));
    let (result, _) = search(Some("project"), &[PathKind::Directory, PathKind::Directory]);
    assert_eq!(result, Err(ConfigNotFound::NotAt("project".to_string())));
}

#[test]
fn named_path_that_is_nothing_fails() {
    let (result, asked) = search(Some("nowhere"), &[PathKind::Other]);
    assert_eq!(result, Err(ConfigNotFound::NotAt("nowhere".to_string())));
    assert_eq!(asked.len(), 1);
}

#[test]
fn default_search_looks_here_first() {
    let (result, asked) = search(None, &[PathKind::File]);
    assert_eq!(result, Ok("./rumkinst.toml".to_string()));
    assert_eq!(asked, vec!["./rumkinst.toml".to_string()]);
}

#[test]
fn default_search_looks_in_the_nested_directory_next() {
    let (result, asked) = search(None, &[PathKind::Other, PathKind::File]);
    assert_eq!(result, Ok("./rumkinst/rumkinst.toml".to_string()));
    assert_eq!(
        asked,
        vec!["./rumkinst.toml".to_string(), "./rumkinst/rumkinst.toml".to_string()]
    );
}

#[test]
fn default_search_fails_where_neither_place_holds_the_file() {
    let (result, _) = search(None, &[PathKind::Directory, PathKind::Other]);
    assert_eq!(result, Err(ConfigNotFound::NoDefault));
}

#[test]
fn default_search_starts_at_the_first_default_place() {
    assert_eq!(find_default_config_file().wanted(), "./rumkinst.toml");
}

#[test]
fn join_puts_one_slash_between() {
    assert_eq!(join_path("a", "b"), "a/b");
    assert_eq!(join_path("a/", "b"), "a/b");
    assert_eq!(join_path("", "b"), "b");
    assert_eq!(join_path("./out/xyz", "pkg.tar.gz"), "./out/xyz/pkg.tar.gz");
    assert_eq!(join_path("/", "etc"), "/etc");
    assert_eq!(join_path("a", ""), "a/");
}

#[test]
fn join_agrees_with_the_standard_library() {
    for (base, name) in [("a", "b"), ("a/", "b"), ("", "b"), ("./", "rumkinst.toml"), ("x/y", "z/w")] {
        let expected = std::path::Path::new(base).join(name);
        assert_eq!(join_path(base, name), expected.to_str().unwrap());
    }
}

#[test]
fn append_str_appends() {
    assert_eq!(append_str("./out/", "id"), "./out/id");
    assert_eq!(append_str("", ""), "");
}

#[test]
fn fatal_replaces_any_error() {
    let failed: Result<u8, String> = Err("cause".to_string());
    assert_eq!(failed.fatal(), Err(FatalError));
    let fine: Result<u8, String> = Ok(7);
    assert_eq!(fine.fatal(), Ok(7));
}

#[test]
fn warn_and_error_hand_the_result_on() {
    let failed: Result<u8, String> = Err("cause".to_string());
    assert_eq!(failed.warn(), Err("cause".to_string()));
    let failed: Result<u8, String> = Err("cause".to_string());
    assert_eq!(failed.error(), Err("cause".to_string()));
    let fine: Result<u8, String> = Ok(1);
    assert_eq!(fine.warn().error(), Ok(1));
}

#[test]
fn fatal_error_text() {
    assert_eq!(FatalError.message(), "Encountered a fatal error, cannot continue");
}

#[test]
fn config_search_errors_say_where_they_looked() {
    assert_eq!(
        ConfigNotFound::NotAt("some/dir".to_string()).message(),
        "could not find `rumkinst.toml` in `\"some/dir\"`"
    );
    assert_eq!(
        ConfigNotFound::NoDefault.message(),
        "could not find `rumkinst.toml` in `./` or in `./rumkinst/`"
    );
}
