//! The layout of a new project directory.

use crate::config::identifier::Identifier;
use crate::text::{append_str, join_path, joined, texts};
use vstd::prelude::*;

verus! {

/// What a new project is made of: the directories to create, in order, and
/// the configuration file to write.
#[derive(Debug)]
pub struct Scaffold {
    pub directories: Vec<String>,
    pub config_file: String,
}

/// The project directory named `dir_name`, below the working directory.
pub open spec fn project_dir(dir_name: Seq<char>) -> Seq<char> {
    "./"@ + dir_name
}

/// The directories of a new project: the project directory itself, and in
/// it one directory for each source group.
pub open spec fn project_directories(dir: Seq<char>) -> Seq<Seq<char>> {
    seq![dir, joined(dir, "root"@), joined(dir, "env"@), joined(dir, "scripts"@)]
}

/// The layout of the new project in the directory named `dir_name`.
pub fn new_project(dir_name: &Identifier) -> (layout: Scaffold)
    ensures
        texts(layout.directories@) == project_directories(project_dir(dir_name@)),
        layout.config_file@ == joined(project_dir(dir_name@), "rumkinst.toml"@),
{
    let dir = append_str("./", dir_name.as_str());
    let root = join_path(dir.as_str(), "root");
    let env = join_path(dir.as_str(), "env");
    let scripts = join_path(dir.as_str(), "scripts");
    let config_file = join_path(dir.as_str(), "rumkinst.toml");
    let mut directories: Vec<String> = Vec::new();
    directories.push(dir);
    directories.push(root);
    directories.push(env);
    directories.push(scripts);
    proof {
        assert(texts(directories@) =~= project_directories(project_dir(dir_name@)));
    }
    Scaffold { directories, config_file }
}

} // verus!
