use fnm::config::FnmConfig;
use fnm::directories::{BaseDirStep, PlatformDirs};
use fnm::text::{join_path, same_text};

fn dirs(home: Option<&str>, data: Option<&str>) -> PlatformDirs {
    PlatformDirs {
        home: home.map(|s| s.to_string()),
        data: data.map(|s| s.to_string()),
    }
}

fn path_of(step: BaseDirStep) -> String {
    match step {
        BaseDirStep::Existing(p) | BaseDirStep::Create(p) => p,
        BaseDirStep::Unresolvable => panic!("no base directory"),
    }
}

#[test]
fn override_is_returned_unchanged() {
    let c = FnmConfig::default().with_base_dir(Some("/does/not/exist".to_string()));
    for legacy_exists in [false, true] {
        match c.base_dir_with_default(&dirs(Some("/home/u"), Some("/data")), legacy_exists) {
            BaseDirStep::Existing(p) => assert_eq!(p, "/does/not/exist"),
            other => panic!("unexpected {:?}", other),
        }
    }
    match c.base_dir_with_default(&dirs(None, None), false) {
        BaseDirStep::Existing(p) => assert_eq!(p, "/does/not/exist"),
        other => panic!("unexpected {:?}", other),
    }
    assert_eq!(c.legacy_dir_to_probe(&dirs(Some("/home/u"), None)), None);
}

#[test]
fn override_skips_platform_lookup() {
    let c = FnmConfig::default().with_base_dir(Some("/tmp/fnmtest".to_string()));
    let d = c.platform_dirs();
    assert_eq!(d.home, None);
    assert_eq!(d.data, None);
}

#[test]
fn existing_legacy_directory_is_preferred() {
    let c = FnmConfig::default();
    let d = dirs(Some("/home/u"), Some("/home/u/.local/share"));
    assert_eq!(c.legacy_dir_to_probe(&d).as_deref(), Some("/home/u/.fnm"));
    match c.base_dir_with_default(&d, true) {
        BaseDirStep::Existing(p) => assert_eq!(p, "/home/u/.fnm"),
        other => panic!("unexpected {:?}", other),
    }
}

#[test]
fn modern_directory_is_created_without_legacy() {
    let c = FnmConfig::default();
    let d = dirs(Some("/home/u"), Some("/home/u/.local/share"));
    let first = c.base_dir_with_default(&d, false);
    let second = c.base_dir_with_default(&d, false);
    match (first, second) {
        (BaseDirStep::Create(a), BaseDirStep::Create(b)) => {
            assert_eq!(a, "/home/u/.local/share/fnm");
            assert_eq!(a, b);
        }
        other => panic!("unexpected {:?}", other),
    }
}

#[test]
fn modern_directory_without_home() {
    let c = FnmConfig::default();
    let d = dirs(None, Some("C:\\Users\\u\\AppData\\Roaming/"));
    assert_eq!(c.legacy_dir_to_probe(&d), None);
    match c.base_dir_with_default(&d, true) {
        BaseDirStep::Create(p) => assert_eq!(p, "C:\\Users\\u\\AppData\\Roaming/fnm"),
        other => panic!("unexpected {:?}", other),
    }
}

#[test]
fn no_home_and_no_data_is_unresolvable() {
    let c = FnmConfig::default();
    assert!(matches!(
        c.base_dir_with_default(&dirs(None, None), false),
        BaseDirStep::Unresolvable
    ));
    assert!(matches!(
        c.base_dir_with_default(&dirs(Some("/home/u"), None), false),
        BaseDirStep::Unresolvable
    ));
}

#[test]
fn aliases_dir_under_overridden_base() {
    let c = FnmConfig::default().with_base_dir(Some("/tmp/fnmtest".to_string()));
    let base = path_of(c.base_dir_with_default(&c.platform_dirs(), false));
    assert_eq!(base, "/tmp/fnmtest");
    assert_eq!(FnmConfig::aliases_dir(&base), "/tmp/fnmtest/aliases");
}

#[test]
fn fresh_install_uses_modern_directory() {
    let c = FnmConfig::default();
    let d = dirs(Some("/nonexistent-home"), Some("/tmp/fnm-data"));
    match c.base_dir_with_default(&d, false) {
        BaseDirStep::Create(p) => assert_eq!(p, "/tmp/fnm-data/fnm"),
        other => panic!("unexpected {:?}", other),
    }
}

#[test]
fn derived_directories() {
    assert_eq!(FnmConfig::installations_dir("/b"), "/b/node-versions");
    assert_eq!(FnmConfig::aliases_dir("/b/"), "/b/aliases");
    assert_eq!(FnmConfig::default_version_dir("/b"), "/b/aliases/default");
    assert_eq!(FnmConfig::installations_dir(""), "node-versions");
    for p in [
        FnmConfig::installations_dir("/srv/fnm"),
        FnmConfig::aliases_dir("/srv/fnm"),
        FnmConfig::default_version_dir("/srv/fnm"),
    ] {
        assert!(p.starts_with("/srv/fnm/"));
    }
}

#[test]
fn text_helpers() {
    assert!(same_text("local", "local"));
    assert!(!same_text("local", "locale"));
    assert!(!same_text("x86", "x64"));
    assert!(same_text("", ""));
    assert_eq!(join_path("/a", "b"), "/a/b");
    assert_eq!(join_path("/a/", "b"), "/a/b");
    assert_eq!(join_path("", "b"), "b");
}
