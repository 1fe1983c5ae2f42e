//! Where the configuration file lies: at a path the caller names, or at one
//! of two default places.
//!
//! Whether a path is a file or a directory is the host's to find out. The
//! search names one path at a time and takes the host's answer.

use crate::text::{debug_text, join_path, joined, quoted_between};
use vstd::prelude::*;
use vstd::string::*;

verus! {

/// What kind of thing lies at a path.
#[derive(Debug, Clone, Copy, PartialEq, Eq)]
pub enum PathKind {
    /// A regular file.
    File,
    /// A directory.
    Directory,
    /// Nothing, or something that is neither.
    Other,
}

/// Why no configuration file was found.
#[derive(Debug, PartialEq, Eq)]
pub enum ConfigNotFound {
    /// The path that was named is no file, and no directory that holds the file.
    NotAt(String),
    /// Neither default place holds the file.
    NoDefault,
}

/// The mathematical value of a [`ConfigNotFound`].
pub enum NotFoundView {
    NotAt(Seq<char>),
    NoDefault,
}

impl View for ConfigNotFound {
    type V = NotFoundView;

    open spec fn view(&self) -> NotFoundView {
        match *self {
            ConfigNotFound::NotAt(path) => NotFoundView::NotAt(path@),
            ConfigNotFound::NoDefault => NotFoundView::NoDefault,
        }
    }
}

/// The text that says where no configuration file was found.
pub open spec fn not_found_text(error: NotFoundView) -> Seq<char> {
    match error {
        NotFoundView::NotAt(path) => "could not find `rumkinst.toml` in `"@ + debug_text(path)
            + "`"@,
        NotFoundView::NoDefault => "could not find `rumkinst.toml` in `./` or in `./rumkinst/`"@,
    }
}

impl ConfigNotFound {
    /// Says where no configuration file was found.
    pub fn message(&self) -> (text: String)
        ensures
            text@ == not_found_text(self@),
    {
        match self {
            ConfigNotFound::NotAt(path) => quoted_between(
                "could not find `rumkinst.toml` in `",
                path.as_str(),
                "`",
            ),
            ConfigNotFound::NoDefault => String::from_str(
                "could not find `rumkinst.toml` in `./` or in `./rumkinst/`",
            ),
        }
    }
}

/// Which place a probe asks about.
pub enum ProbeStage {
    /// The path that the caller named.
    Given,
    /// The configuration file inside the directory that the caller named.
    InDirectory(Seq<char>),
    /// The first default place, `./rumkinst.toml`.
    DefaultHere,
    /// The second default place, `./rumkinst/rumkinst.toml`.
    DefaultNested,
}

/// A probe as a mathematical value: the path asked about, and which place it is.
pub struct ProbeView {
    pub wanted: Seq<char>,
    pub stage: ProbeStage,
}

enum Place {
    Given,
    InDirectory(String),
    DefaultHere,
    DefaultNested,
}

/// A search for the configuration file, waiting for the host to say what
/// lies at one path.
pub struct ConfigProbe {
    wanted: String,
    place: Place,
}

impl View for ConfigProbe {
    type V = ProbeView;

    closed spec fn view(&self) -> ProbeView {
        ProbeView {
            wanted: self.wanted@,
            stage: match self.place {
                Place::Given => ProbeStage::Given,
                Place::InDirectory(dir) => ProbeStage::InDirectory(dir@),
                Place::DefaultHere => ProbeStage::DefaultHere,
                Place::DefaultNested => ProbeStage::DefaultNested,
            },
        }
    }
}

/// Where the search for the configuration file stands.
pub enum ConfigSearch {
    /// The host is to say what lies at the probe's wanted path.
    Pending(ConfigProbe),
    /// The search is over: the file's path, or why there is none.
    Done(Result<String, ConfigNotFound>),
}

/// The mathematical value of a [`ConfigSearch`].
pub enum ConfigSearchView {
    Pending(ProbeView),
    Done(Result<Seq<char>, NotFoundView>),
}

impl View for ConfigSearch {
    type V = ConfigSearchView;

    open spec fn view(&self) -> ConfigSearchView {
        match *self {
            ConfigSearch::Pending(probe) => ConfigSearchView::Pending(probe@),
            ConfigSearch::Done(Ok(path)) => ConfigSearchView::Done(Ok(path@)),
            ConfigSearch::Done(Err(error)) => ConfigSearchView::Done(Err(error@)),
        }
    }
}

/// The configuration file's path inside the directory `dir`.
pub open spec fn config_in(dir: Seq<char>) -> Seq<char> {
    joined(dir, "rumkinst.toml"@)
}

/// The probe that a search starts with: the named path, or else the first
/// default place.
pub open spec fn first_probe(path: Option<Seq<char>>) -> ProbeView {
    match path {
        Some(path) => ProbeView { wanted: path, stage: ProbeStage::Given },
        None => ProbeView { wanted: config_in("./"@), stage: ProbeStage::DefaultHere },
    }
}

/// One step of the search, once the host says that `kind` lies at the
/// wanted path.
///
/// A named path that is a file is the configuration file. A named path that
/// is a directory holds it, if `rumkinst.toml` inside it is a file. Without
/// a named path the file is looked for at `./rumkinst.toml` and then at
/// `./rumkinst/rumkinst.toml`.
pub open spec fn probed(probe: ProbeView, kind: PathKind) -> ConfigSearchView {
    match probe.stage {
        ProbeStage::Given => match kind {
            PathKind::File => ConfigSearchView::Done(Ok(probe.wanted)),
            PathKind::Directory => ConfigSearchView::Pending(
                ProbeView {
                    wanted: config_in(probe.wanted),
                    stage: ProbeStage::InDirectory(probe.wanted),
                },
            ),
            PathKind::Other => ConfigSearchView::Done(Err(NotFoundView::NotAt(probe.wanted))),
        },
        ProbeStage::InDirectory(dir) => match kind {
            PathKind::File => ConfigSearchView::Done(Ok(probe.wanted)),
            _ => ConfigSearchView::Done(Err(NotFoundView::NotAt(dir))),
        },
        ProbeStage::DefaultHere => match kind {
            PathKind::File => ConfigSearchView::Done(Ok(probe.wanted)),
            _ => ConfigSearchView::Pending(
                ProbeView { wanted: config_in("./rumkinst/"@), stage: ProbeStage::DefaultNested },
            ),
        },
        ProbeStage::DefaultNested => match kind {
            PathKind::File => ConfigSearchView::Done(Ok(probe.wanted)),
            _ => ConfigSearchView::Done(Err(NotFoundView::NoDefault)),
        },
    }
}

/// Starts the search for the configuration file at `path`, or at the
/// default places where no path is named.
pub fn find_config_file_at(path: Option<String>) -> (probe: ConfigProbe)
    ensures
        probe@ == first_probe(
            match path {
                Some(path) => Some(path@),
                None => None,
            },
        ),
{
    match path {
        Some(path) => ConfigProbe { wanted: path, place: Place::Given },
        None => find_default_config_file(),
    }
}

/// Starts the search at the default places.
pub fn find_default_config_file() -> (probe: ConfigProbe)
    ensures
        probe@ == first_probe(None),
{
    ConfigProbe { wanted: join_path("./", "rumkinst.toml"), place: Place::DefaultHere }
}

impl ConfigProbe {
    /// The path that the host is to look at.
    pub fn wanted(&self) -> (path: &str)
        ensures
            path@ == self@.wanted,
    {
        self.wanted.as_str()
    }

    /// Takes the host's answer and carries the search on.
    pub fn resume(self, kind: PathKind) -> (next: ConfigSearch)
        ensures
            next@ == probed(self@, kind),
    {
        let ConfigProbe { wanted, place } = self;
        match kind {
            PathKind::File => ConfigSearch::Done(Ok(wanted)),
            PathKind::Directory => match place {
                Place::Given => {
                    let inside = join_path(wanted.as_str(), "rumkinst.toml");
                    ConfigSearch::Pending(
                        ConfigProbe { wanted: inside, place: Place::InDirectory(wanted) },
                    )
                },
                Place::InDirectory(dir) => ConfigSearch::Done(Err(ConfigNotFound::NotAt(dir))),
                Place::DefaultHere => ConfigSearch::Pending(nested_default()),
                Place::DefaultNested => ConfigSearch::Done(Err(ConfigNotFound::NoDefault)),
            },
            PathKind::Other => match place {
                Place::Given => ConfigSearch::Done(Err(ConfigNotFound::NotAt(wanted))),
                Place::InDirectory(dir) => ConfigSearch::Done(Err(ConfigNotFound::NotAt(dir))),
                Place::DefaultHere => ConfigSearch::Pending(nested_default()),
                Place::DefaultNested => ConfigSearch::Done(Err(ConfigNotFound::NoDefault)),
            },
        }
    }
}

fn nested_default() -> (probe: ConfigProbe)
    ensures
        probe@ == (ProbeView {
            wanted: config_in("./rumkinst/"@),
            stage: ProbeStage::DefaultNested,
        }),
{
    ConfigProbe { wanted: join_path("./rumkinst/", "rumkinst.toml"), place: Place::DefaultNested }
}

} // verus!
