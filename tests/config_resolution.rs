use fnm::config::{ConfigError, ConfigSources, FnmConfig};
use fnm::options::{Arch, LogLevel, VersionFileStrategy};

fn text(s: &str) -> Option<String> {
    Some(s.to_string())
}

#[test]
fn default_config_has_documented_values() {
    let c = FnmConfig::default();
    assert_eq!(c.node_dist_mirror, "https://nodejs.org/dist");
    assert_eq!(*c.log_level(), LogLevel::Info);
    assert_eq!(*c.version_file_strategy(), VersionFileStrategy::Local);
    assert_eq!(c.base_dir, None);
    assert_eq!(c.multishell_path(), None);
    assert_eq!(c.arch, None);
}

#[test]
fn nothing_given_resolves_to_default() {
    let c = FnmConfig::resolve(&ConfigSources::silent(), &ConfigSources::silent()).unwrap();
    let d = FnmConfig::default();
    assert_eq!(c.node_dist_mirror, d.node_dist_mirror);
    assert_eq!(c.log_level, d.log_level);
    assert_eq!(c.version_file_strategy, d.version_file_strategy);
    assert_eq!(c.base_dir, None);
    assert_eq!(c.arch, None);
}

#[test]
fn flag_wins_over_environment() {
    let mut flags = ConfigSources::silent();
    flags.log_level = text("debug");
    flags.base_dir = text("/from/flag");
    let mut env = ConfigSources::silent();
    env.log_level = text("error");
    env.base_dir = text("/from/env");
    env.arch = text("arm64");
    let c = FnmConfig::resolve(&flags, &env).unwrap();
    assert_eq!(c.log_level, LogLevel::Debug);
    assert_eq!(c.base_dir.as_deref(), Some("/from/flag"));
    assert_eq!(c.arch, Some(Arch::Arm64));
}

#[test]
fn environment_wins_over_default() {
    let mut env = ConfigSources::silent();
    env.version_file_strategy = text("recursive");
    env.multishell_path = text("/run/fnm/shell-1");
    let c = FnmConfig::resolve(&ConfigSources::silent(), &env).unwrap();
    assert_eq!(*c.version_file_strategy(), VersionFileStrategy::Recursive);
    assert_eq!(c.multishell_path(), Some("/run/fnm/shell-1"));
    assert_eq!(*c.log_level(), LogLevel::Info);
}

#[test]
fn merged_sources_prefer_the_first() {
    let mut flags = ConfigSources::silent();
    flags.arch = text("x86");
    let mut env = ConfigSources::silent();
    env.arch = text("x64");
    env.log_level = text("warn");
    let m = flags.over(&env);
    assert_eq!(m.arch.as_deref(), Some("x86"));
    assert_eq!(m.log_level.as_deref(), Some("warn"));
    assert_eq!(m.base_dir, None);
}

#[test]
fn unknown_log_level_is_rejected_with_accepted_set() {
    let mut flags = ConfigSources::silent();
    flags.log_level = text("loud");
    let e = FnmConfig::resolve(&flags, &ConfigSources::silent()).unwrap_err();
    assert!(matches!(e, ConfigError::InvalidLogLevel { .. }));
    assert_eq!(e.given(), "loud");
    assert_eq!(e.accepted_values(), vec!["error", "warn", "info", "debug", "trace"]);
}

#[test]
fn unknown_arch_is_rejected_with_accepted_set() {
    let mut env = ConfigSources::silent();
    env.arch = text("sparc");
    let e = FnmConfig::resolve(&ConfigSources::silent(), &env).unwrap_err();
    assert!(matches!(e, ConfigError::InvalidArch { .. }));
    assert_eq!(e.given(), "sparc");
    assert_eq!(
        e.accepted_values(),
        vec!["x86", "x64", "arm64", "armv7l", "ppc64le", "ppc64", "s390x"]
    );
}

#[test]
fn unknown_strategy_is_rejected_with_accepted_set() {
    let mut flags = ConfigSources::silent();
    flags.version_file_strategy = text("Local");
    let e = FnmConfig::resolve(&flags, &ConfigSources::silent()).unwrap_err();
    assert!(matches!(e, ConfigError::InvalidVersionFileStrategy { .. }));
    assert_eq!(e.given(), "Local");
    assert_eq!(e.accepted_values(), vec!["local", "recursive"]);
}

#[test]
fn malformed_mirror_is_rejected_with_parse_error() {
    let mut flags = ConfigSources::silent();
    flags.node_dist_mirror = text("not a url");
    flags.log_level = text("loud");
    let e = FnmConfig::resolve(&flags, &ConfigSources::silent()).unwrap_err();
    match &e {
        ConfigError::InvalidMirror { given, reason } => {
            assert_eq!(given, "not a url");
            assert_eq!(reason, "relative URL without a base");
        }
        other => panic!("unexpected error {:?}", other),
    }
    assert!(e.accepted_values().is_empty());
}

#[test]
fn given_mirror_is_stored_serialized() {
    let mut env = ConfigSources::silent();
    env.node_dist_mirror = text("HTTPS://Mirror.Example.COM");
    let c = FnmConfig::resolve(&ConfigSources::silent(), &env).unwrap();
    assert_eq!(c.node_dist_mirror, "https://mirror.example.com/");
}

#[test]
fn settle_takes_the_parsed_mirror() {
    let mut sel = ConfigSources::silent();
    sel.node_dist_mirror = text("anything");
    let c = FnmConfig::settle(&sel, Ok("https://a.example/dist".to_string())).unwrap();
    assert_eq!(c.node_dist_mirror, "https://a.example/dist");
    let e = FnmConfig::settle(&sel, Err("bad".to_string())).unwrap_err();
    match e {
        ConfigError::InvalidMirror { given, reason } => {
            assert_eq!(given, "anything");
            assert_eq!(reason, "bad");
        }
        other => panic!("unexpected error {:?}", other),
    }
}

#[test]
fn settle_ignores_mirror_outcome_when_none_given() {
    let c = FnmConfig::settle(&ConfigSources::silent(), Err("unused".to_string())).unwrap();
    assert_eq!(c.node_dist_mirror, "https://nodejs.org/dist");
}

#[test]
fn with_base_dir_replaces_override_only() {
    let mut env = ConfigSources::silent();
    env.log_level = text("trace");
    let c = FnmConfig::resolve(&ConfigSources::silent(), &env)
        .unwrap()
        .with_base_dir(text("/tmp/fnmtest"));
    assert_eq!(c.base_dir.as_deref(), Some("/tmp/fnmtest"));
    assert_eq!(c.log_level, LogLevel::Trace);
    let c = c.with_base_dir(None);
    assert_eq!(c.base_dir, None);
}

#[test]
fn tokens_round_trip() {
    for t in LogLevel::possible_values() {
        assert_eq!(LogLevel::from_str(t).unwrap().as_str(), t);
    }
    for t in Arch::possible_values() {
        assert_eq!(Arch::from_str(t).unwrap().as_str(), t);
    }
    for t in VersionFileStrategy::possible_values() {
        assert_eq!(VersionFileStrategy::from_str(t).unwrap().as_str(), t);
    }
    assert_eq!(LogLevel::from_str("INFO"), None);
    assert_eq!(Arch::from_str("x86_64"), None);
    assert_eq!(VersionFileStrategy::from_str(""), None);
    assert_eq!(VersionFileStrategy::default(), VersionFileStrategy::Local);
}
