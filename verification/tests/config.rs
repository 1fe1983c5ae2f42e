use rumkinst::config::{
    Config, InternalBuildConfig, InternalConfig, InternalInstallerConfig,
    InternalPackageDetails, InternalSourceConfig, ThemeType,
};
use rumkinst::config::identifier::Identifier;
use rumkinst::config::relativepathbuf::RelativePathBuf;

fn name(text: &str) -> Identifier {
    Identifier::try_from(text.to_string()).unwrap()
}

fn rel(text: &str) -> RelativePathBuf {
    RelativePathBuf::try_from(text).unwrap()
}

fn bare(text: &str) -> InternalConfig {
    InternalConfig {
        package: InternalPackageDetails { name: name(text), description: None, authors: None },
        installer: None,
        build: None,
        root: None,
        env: None,
        scripts: None,
    }
}

#[test]
fn config_fills_in_every_default() {
    let config = Config::from(bare("pkg"));
    assert_eq!(config.get_name(), "pkg");
    assert_eq!(config.package().description, None);
    assert!(config.package().authors.is_empty());
    assert!(!config.installer().allow_user_install);
    assert_eq!(config.installer().theme, ThemeType::Plain);
    assert_eq!(config.installer().preinstall, None);
    assert_eq!(config.installer().postinstall, None);
    assert_eq!(config.build().prebuild, "./prebuild.sh");
    assert_eq!(config.build().postbuild, "./postbuild.sh");
    assert!(!config.root().disabled());
    assert_eq!(config.root().path(), "./root/");
    assert!(config.root().exclude().is_empty());
    assert!(!config.env().disabled());
    assert_eq!(config.env().path(), "./env/");
    assert!(!config.scripts().disabled());
    assert_eq!(config.scripts().path(), "./scripts/");
}

#[test]
fn config_keeps_what_is_given() {
    let mut raw = bare("tool");
    raw.package.description = Some("a tool".to_string());
    raw.package.authors = Some(vec!["A".to_string(), "B".to_string()]);
    raw.installer = Some(InternalInstallerConfig {
        allow_user_install: Some(true),
        theme: Some(ThemeType::Figlet),
        preinstall: Some(rel("pre.sh")),
        postinstall: None,
    });
    raw.build = Some(InternalBuildConfig { prebuild: None, postbuild: Some(rel("after.sh")) });
    raw.root = Some(InternalSourceConfig {
        disable: Some(true),
        path: Some(rel("overlay")),
        exclude: Some(vec![rel("overlay/tmp"), rel("overlay/.git")]),
    });
    raw.env = Some(InternalSourceConfig { disable: None, path: None, exclude: None });
    let config = Config::from(raw);
    assert_eq!(config.get_name(), "tool");
    assert_eq!(config.package().description, Some("a tool".to_string()));
    assert_eq!(config.package().authors, vec!["A".to_string(), "B".to_string()]);
    assert!(config.installer().allow_user_install);
    assert_eq!(config.installer().theme, ThemeType::Figlet);
    assert_eq!(config.installer().preinstall, Some("pre.sh".to_string()));
    assert_eq!(config.installer().postinstall, None);
    assert_eq!(config.build().prebuild, "./prebuild.sh");
    assert_eq!(config.build().postbuild, "after.sh");
    assert!(config.root().disabled());
    assert_eq!(config.root().path(), "overlay");
    assert_eq!(
        config.root().exclude(),
        &vec!["overlay/tmp".to_string(), "overlay/.git".to_string()]
    );
    assert!(!config.env().disabled());
    assert_eq!(config.env().path(), "./env/");
    assert!(config.env().exclude().is_empty());
}

#[test]
fn installer_section_without_values_gets_the_defaults() {
    let mut raw = bare("pkg");
    raw.installer = Some(InternalInstallerConfig {
        allow_user_install: None,
        theme: None,
        preinstall: None,
        postinstall: Some(rel("post.sh")),
    });
    let config = Config::from(raw);
    assert!(!config.installer().allow_user_install);
    assert_eq!(config.installer().theme, ThemeType::Plain);
    assert_eq!(config.installer().postinstall, Some("post.sh".to_string()));
}

#[test]
fn default_config_for_a_new_project() {
    let raw = InternalConfig::default_for(name("fresh"));
    assert_eq!(raw.package.name.as_str(), "fresh");
    assert_eq!(raw.package.description, Some(String::new()));
    assert_eq!(raw.package.authors, Some(Vec::new()));
    let installer = raw.installer.as_ref().unwrap();
    assert_eq!(installer.allow_user_install, Some(false));
    assert_eq!(installer.theme, Some(ThemeType::Plain));
    assert!(installer.preinstall.is_none());
    assert!(installer.postinstall.is_none());
    assert!(raw.build.is_none());
    assert!(raw.root.is_none());
    assert!(raw.env.is_none());
    assert!(raw.scripts.is_none());
    let config = Config::from(raw);
    assert_eq!(config.get_name(), "fresh");
    assert_eq!(config.root().path(), "./root/");
}
