//! The packager's configuration: the raw form as it is read, with every
//! optional part still open, and the resolved form with defaults filled in.

pub mod identifier;
pub mod relativepathbuf;
pub mod search;

pub use crate::config::search::{find_config_file_at, find_default_config_file};

use crate::config::identifier::{is_identifier, Identifier};
use crate::config::relativepathbuf::RelativePathBuf;
use crate::text::texts;
use vstd::prelude::*;
use vstd::string::*;

verus! {

/// How the installer presents itself.
#[derive(Debug, Clone, Copy, PartialEq, Eq)]
pub enum ThemeType {
    Plain,
    Box,
    Figlet,
}

/// The package section as read.
#[derive(Debug)]
pub struct InternalPackageDetails {
    pub name: Identifier,
    pub description: Option<String>,
    pub authors: Option<Vec<String>>,
}

/// The package section, resolved.
#[derive(Debug)]
pub struct PackageDetails {
    pub name: String,
    pub description: Option<String>,
    pub authors: Vec<String>,
}

/// The installer section as read.
#[derive(Debug)]
pub struct InternalInstallerConfig {
    pub allow_user_install: Option<bool>,
    pub theme: Option<ThemeType>,
    pub preinstall: Option<RelativePathBuf>,
    pub postinstall: Option<RelativePathBuf>,
}

/// The installer section, resolved.
#[derive(Debug)]
pub struct InstallerConfig {
    pub allow_user_install: bool,
    pub theme: ThemeType,
    pub preinstall: Option<String>,
    pub postinstall: Option<String>,
}

/// The build section as read.
#[derive(Debug)]
pub struct InternalBuildConfig {
    pub prebuild: Option<RelativePathBuf>,
    pub postbuild: Option<RelativePathBuf>,
}

/// The build section, resolved.
#[derive(Debug)]
pub struct BuildConfig {
    pub prebuild: String,
    pub postbuild: String,
}

/// One source group as read.
#[derive(Debug)]
pub struct InternalSourceConfig {
    pub disable: Option<bool>,
    pub path: Option<RelativePathBuf>,
    pub exclude: Option<Vec<RelativePathBuf>>,
}

/// One source group, resolved: whether it is left out, its base path, and
/// the paths excluded from it.
#[derive(Debug)]
pub struct SourceConfig {
    pub disable: bool,
    pub path: String,
    pub exclude: Vec<String>,
}

/// The whole configuration as read.
#[derive(Debug)]
pub struct InternalConfig {
    pub package: InternalPackageDetails,
    pub installer: Option<InternalInstallerConfig>,
    pub build: Option<InternalBuildConfig>,
    pub root: Option<InternalSourceConfig>,
    pub env: Option<InternalSourceConfig>,
    pub scripts: Option<InternalSourceConfig>,
}

/// The whole configuration, resolved.
#[derive(Debug)]
pub struct Config {
    package: PackageDetails,
    installer: InstallerConfig,
    build: BuildConfig,
    root: SourceConfig,
    env: SourceConfig,
    scripts: SourceConfig,
}

/// The resolved configuration as a plain value: its six sections.
pub struct ConfigView {
    pub package: PackageDetails,
    pub installer: InstallerConfig,
    pub build: BuildConfig,
    pub root: SourceConfig,
    pub env: SourceConfig,
    pub scripts: SourceConfig,
}

impl View for Config {
    type V = ConfigView;

    closed spec fn view(&self) -> ConfigView {
        ConfigView {
            package: self.package,
            installer: self.installer,
            build: self.build,
            root: self.root,
            env: self.env,
            scripts: self.scripts,
        }
    }
}

/// The text of an optional relative path.
pub open spec fn path_text(path: Option<RelativePathBuf>) -> Option<Seq<char>> {
    match path {
        Some(path) => Some(path@),
        None => None,
    }
}

/// The text of an optional string.
pub open spec fn option_text(text: Option<String>) -> Option<Seq<char>> {
    match text {
        Some(text) => Some(text@),
        None => None,
    }
}

/// The texts of a sequence of relative paths, in order.
pub open spec fn path_texts(paths: Seq<RelativePathBuf>) -> Seq<Seq<char>> {
    paths.map_values(|path: RelativePathBuf| path@)
}

/// The path that is given, or else the default.
pub open spec fn path_or(path: Option<RelativePathBuf>, default_path: Seq<char>) -> Seq<char> {
    match path {
        Some(path) => path@,
        None => default_path,
    }
}

fn resolve_path(path: Option<RelativePathBuf>, default_path: &str) -> (resolved: String)
    ensures
        resolved@ == path_or(path, default_path@),
{
    match path {
        Some(path) => path.into_pathbuf(),
        None => String::from_str(default_path),
    }
}

fn optional_path(path: Option<RelativePathBuf>) -> (text: Option<String>)
    ensures
        option_text(text) == path_text(path),
{
    match path {
        Some(path) => Some(path.into_pathbuf()),
        None => None,
    }
}

impl PackageDetails {
    /// The package section with a missing author list taken as empty.
    pub fn init(source: InternalPackageDetails) -> (details: PackageDetails)
        ensures
            details.name@ == source.name@,
            is_identifier(details.name@),
            details.description == source.description,
            details.authors@ == match source.authors {
                Some(authors) => authors@,
                None => Seq::empty(),
            },
    {
        let InternalPackageDetails { name, description, authors } = source;
        PackageDetails {
            name: name.into_string(),
            description,
            authors: match authors {
                Some(authors) => authors,
                None => Vec::new(),
            },
        }
    }
}

/// An installer section as [`InstallerConfig::init`] resolves it: no user
/// install and the plain theme unless it says otherwise, and the scripts it names.
pub open spec fn resolved_installer(
    source: Option<InternalInstallerConfig>,
    installer: InstallerConfig,
) -> bool {
    match source {
        Some(source) => {
            &&& installer.allow_user_install == match source.allow_user_install {
                Some(allow) => allow,
                None => false,
            }
            &&& installer.theme == match source.theme {
                Some(theme) => theme,
                None => ThemeType::Plain,
            }
            &&& option_text(installer.preinstall) == path_text(source.preinstall)
            &&& option_text(installer.postinstall) == path_text(source.postinstall)
        },
        None => {
            &&& !installer.allow_user_install
            &&& installer.theme == ThemeType::Plain
            &&& installer.preinstall is None
            &&& installer.postinstall is None
        },
    }
}

/// A build section as [`BuildConfig::init`] resolves it: the scripts it
/// names, or else `./prebuild.sh` and `./postbuild.sh`.
pub open spec fn resolved_build(source: Option<InternalBuildConfig>, build: BuildConfig) -> bool {
    &&& build.prebuild@ == match source {
        Some(source) => path_or(source.prebuild, "./prebuild.sh"@),
        None => "./prebuild.sh"@,
    }
    &&& build.postbuild@ == match source {
        Some(source) => path_or(source.postbuild, "./postbuild.sh"@),
        None => "./postbuild.sh"@,
    }
}

impl InstallerConfig {
    /// The installer section with its defaults filled in.
    pub fn init(source: Option<InternalInstallerConfig>) -> (installer: InstallerConfig)
        ensures
            resolved_installer(source, installer),
    {
        match source {
            Some(source) => {
                let InternalInstallerConfig { allow_user_install, theme, preinstall, postinstall } =
                    source;
                InstallerConfig {
                    allow_user_install: match allow_user_install {
                        Some(allow) => allow,
                        None => false,
                    },
                    theme: match theme {
                        Some(theme) => theme,
                        None => ThemeType::Plain,
                    },
                    preinstall: optional_path(preinstall),
                    postinstall: optional_path(postinstall),
                }
            },
            None => InstallerConfig {
                allow_user_install: false,
                theme: ThemeType::Plain,
                preinstall: None,
                postinstall: None,
            },
        }
    }
}

impl BuildConfig {
    /// The build section with its default scripts, `./prebuild.sh` and
    /// `./postbuild.sh`.
    pub fn init(source: Option<InternalBuildConfig>) -> (build: BuildConfig)
        ensures
            resolved_build(source, build),
    {
        match source {
            Some(source) => {
                let InternalBuildConfig { prebuild, postbuild } = source;
                BuildConfig {
                    prebuild: resolve_path(prebuild, "./prebuild.sh"),
                    postbuild: resolve_path(postbuild, "./postbuild.sh"),
                }
            },
            None => BuildConfig {
                prebuild: String::from_str("./prebuild.sh"),
                postbuild: String::from_str("./postbuild.sh"),
            },
        }
    }
}

/// A source group as [`SourceConfig::init`] resolves it: enabled unless it
/// says otherwise, at the default path unless it names one, with nothing
/// excluded unless it lists paths.
pub open spec fn resolved_source(
    source: Option<InternalSourceConfig>,
    default_path: Seq<char>,
    resolved: SourceConfig,
) -> bool {
    match source {
        Some(source) => {
            &&& resolved.disable == match source.disable {
                Some(disable) => disable,
                None => false,
            }
            &&& resolved.path@ == path_or(source.path, default_path)
            &&& texts(resolved.exclude@) == match source.exclude {
                Some(exclude) => path_texts(exclude@),
                None => Seq::empty(),
            }
        },
        None => {
            &&& !resolved.disable
            &&& resolved.path@ == default_path
            &&& resolved.exclude@.len() == 0
        },
    }
}

impl SourceConfig {
    /// Resolves one source group against its default path.
    pub fn init(source: Option<InternalSourceConfig>, default_path: &str) -> (resolved:
        SourceConfig)
        ensures
            resolved_source(source, default_path@, resolved),
    {
        match source {
            Some(source) => {
                let InternalSourceConfig { disable, path, exclude } = source;
                let mut paths: Vec<String> = Vec::new();
                match exclude {
                    Some(exclude) => {
                        let mut i: usize = 0;
                        while i < exclude.len()
                            invariant
                                i <= exclude.len(),
                                paths@.len() == i,
                                texts(paths@) == path_texts(exclude@).take(i as int),
                            decreases exclude.len() - i,
                        {
                            let ghost before = paths@;
                            paths.push(String::from_str(exclude[i].as_path()));
                            proof {
                                let all = path_texts(exclude@);
                                assert forall|k: int| 0 <= k < i + 1 implies texts(paths@)[k]
                                    == all.take(i + 1)[k] by {
                                    if k < i {
                                        assert(texts(before)[k] == all.take(i as int)[k]);
                                    }
                                }
                                assert(texts(paths@) =~= all.take(i + 1));
                            }
                            i += 1;
                        }
                        proof {
                            assert(path_texts(exclude@).take(i as int) =~= path_texts(exclude@));
                        }
                    },
                    None => {
                        proof {
                            assert(texts(paths@) =~= Seq::empty());
                        }
                    },
                }
                SourceConfig {
                    disable: match disable {
                        Some(disable) => disable,
                        None => false,
                    },
                    path: resolve_path(path, default_path),
                    exclude: paths,
                }
            },
            None => SourceConfig {
                disable: false,
                path: String::from_str(default_path),
                exclude: Vec::new(),
            },
        }
    }

    /// Whether the group is left out of the package.
    pub fn disabled(&self) -> (disable: bool)
        ensures
            disable == self.disable,
    {
        self.disable
    }

    /// The group's base path.
    pub fn path(&self) -> (path: &str)
        ensures
            path@ == self.path@,
    {
        self.path.as_str()
    }

    /// The paths excluded from the group.
    pub fn exclude(&self) -> (exclude: &Vec<String>)
        ensures
            *exclude == self.exclude,
    {
        &self.exclude
    }
}

impl Config {
    #[verifier::type_invariant]
    spec fn well_formed(self) -> bool {
        is_identifier(self.package.name@)
    }

    /// Resolves a configuration as read: each source group against its
    /// default path (`./root/`, `./env/`, `./scripts/`), the other sections
    /// against their defaults.
    pub fn from(value: InternalConfig) -> (config: Config)
        ensures
            config@.package.name@ == value.package.name@,
            config@.package.description == value.package.description,
            config@.package.authors@ == match value.package.authors {
                Some(authors) => authors@,
                None => Seq::empty(),
            },
            resolved_installer(value.installer, config@.installer),
            resolved_build(value.build, config@.build),
            resolved_source(value.root, "./root/"@, config@.root),
            resolved_source(value.env, "./env/"@, config@.env),
            resolved_source(value.scripts, "./scripts/"@, config@.scripts),
    {
        let InternalConfig { package, installer, build, root, env, scripts } = value;
        Config {
            package: PackageDetails::init(package),
            installer: InstallerConfig::init(installer),
            build: BuildConfig::init(build),
            root: SourceConfig::init(root, "./root/"),
            env: SourceConfig::init(env, "./env/"),
            scripts: SourceConfig::init(scripts, "./scripts/"),
        }
    }

    /// The package name, an identifier.
    pub fn get_name(&self) -> (name: &str)
        ensures
            name@ == self@.package.name@,
            is_identifier(name@),
    {
        proof {
            use_type_invariant(self);
        }
        self.package.name.as_str()
    }

    /// The package section.
    pub fn package(&self) -> (package: &PackageDetails)
        ensures
            *package == self@.package,
    {
        &self.package
    }

    /// The installer section.
    pub fn installer(&self) -> (installer: &InstallerConfig)
        ensures
            *installer == self@.installer,
    {
        &self.installer
    }

    /// The build section.
    pub fn build(&self) -> (build: &BuildConfig)
        ensures
            *build == self@.build,
    {
        &self.build
    }

    /// The root overlay group.
    pub fn root(&self) -> (source: &SourceConfig)
        ensures
            *source == self@.root,
    {
        &self.root
    }

    /// The environment files group.
    pub fn env(&self) -> (source: &SourceConfig)
        ensures
            *source == self@.env,
    {
        &self.env
    }

    /// The scripts group.
    pub fn scripts(&self) -> (source: &SourceConfig)
        ensures
            *source == self@.scripts,
    {
        &self.scripts
    }
}

impl InternalConfig {
    /// The configuration that a new project starts with: the given name, an
    /// empty description, no authors, an installer section with its
    /// defaults spelled out, and every other section left open.
    pub fn default_for(package_name: Identifier) -> (config: InternalConfig)
        ensures
            config.package.name@ == package_name@,
            config.package.description matches Some(text) && text@.len() == 0,
            config.package.authors matches Some(authors) && authors@.len() == 0,
            config.installer matches Some(installer) && installer.allow_user_install == Some(
                false,
            ) && installer.theme == Some(ThemeType::Plain) && installer.preinstall is None
                && installer.postinstall is None,
            config.build is None,
            config.root is None,
            config.env is None,
            config.scripts is None,
    {
        InternalConfig {
            package: InternalPackageDetails {
                name: package_name,
                description: Some(String::new()),
                authors: Some(Vec::new()),
            },
            installer: Some(
                InternalInstallerConfig {
                    allow_user_install: Some(false),
                    theme: Some(ThemeType::Plain),
                    preinstall: None,
                    postinstall: None,
                },
            ),
            build: None,
            root: None,
            env: None,
            scripts: None,
        }
    }
}

} // verus!
