//! The configuration value: its fields, the sources it is resolved from, and
//! the precedence of an explicit value over the environment over the default.

use vstd::prelude::*;
use crate::options::{Arch, LogLevel, VersionFileStrategy};
use crate::outside::{parse_url, url_parse_outcome};

verus! {

/// The distribution mirror used when none is given.
pub open spec fn default_mirror() -> Seq<char> {
    "https://nodejs.org/dist"@
}

/// The text of a setting as one source gives it, `None` where it is silent.
pub open spec fn given_text(s: &Option<String>) -> Option<Seq<char>> {
    match s {
        Some(t) => Some(t@),
        None => None,
    }
}

/// The value an explicit setting wins with over one from the environment.
pub open spec fn preferred(explicit: Option<Seq<char>>, env: Option<Seq<char>>) -> Option<Seq<char>> {
    if explicit is Some {
        explicit
    } else {
        env
    }
}

/// The settings as one source (the invocation's flags, or the environment)
/// gives them, as unparsed text.
#[derive(Clone, Debug)]
pub struct ConfigSources {
    pub node_dist_mirror: Option<String>,
    pub base_dir: Option<String>,
    pub multishell_path: Option<String>,
    pub log_level: Option<String>,
    pub arch: Option<String>,
    pub version_file_strategy: Option<String>,
}

pub struct SourcesView {
    pub node_dist_mirror: Option<Seq<char>>,
    pub base_dir: Option<Seq<char>>,
    pub multishell_path: Option<Seq<char>>,
    pub log_level: Option<Seq<char>>,
    pub arch: Option<Seq<char>>,
    pub version_file_strategy: Option<Seq<char>>,
}

impl SourcesView {
    /// A source that gives nothing.
    pub open spec fn silent() -> SourcesView {
        SourcesView {
            node_dist_mirror: None,
            base_dir: None,
            multishell_path: None,
            log_level: None,
            arch: None,
            version_file_strategy: None,
        }
    }

    /// Each setting of `self` where it is given, else that of `fallback`.
    pub open spec fn over(self, fallback: SourcesView) -> SourcesView {
        SourcesView {
            node_dist_mirror: preferred(self.node_dist_mirror, fallback.node_dist_mirror),
            base_dir: preferred(self.base_dir, fallback.base_dir),
            multishell_path: preferred(self.multishell_path, fallback.multishell_path),
            log_level: preferred(self.log_level, fallback.log_level),
            arch: preferred(self.arch, fallback.arch),
            version_file_strategy: preferred(self.version_file_strategy, fallback.version_file_strategy),
        }
    }
}

impl View for ConfigSources {
    type V = SourcesView;

    open spec fn view(&self) -> SourcesView {
        SourcesView {
            node_dist_mirror: given_text(&self.node_dist_mirror),
            base_dir: given_text(&self.base_dir),
            multishell_path: given_text(&self.multishell_path),
            log_level: given_text(&self.log_level),
            arch: given_text(&self.arch),
            version_file_strategy: given_text(&self.version_file_strategy),
        }
    }
}

fn copy_text(s: &Option<String>) -> (r: Option<String>)
    ensures
        given_text(&r) == given_text(s),
{
    match s {
        Some(t) => Some(t.clone()),
        None => None,
    }
}

fn prefer(explicit: &Option<String>, env: &Option<String>) -> (r: Option<String>)
    ensures
        given_text(&r) == preferred(given_text(explicit), given_text(env)),
{
    match explicit {
        Some(t) => Some(t.clone()),
        None => copy_text(env),
    }
}

impl ConfigSources {
    /// A source that gives nothing.
    pub fn silent() -> (r: ConfigSources)
        ensures
            r@ == SourcesView::silent(),
    {
        ConfigSources {
            node_dist_mirror: None,
            base_dir: None,
            multishell_path: None,
            log_level: None,
            arch: None,
            version_file_strategy: None,
        }
    }

    /// Each setting of `self` where it is given, else that of `fallback`.
    pub fn over(&self, fallback: &ConfigSources) -> (r: ConfigSources)
        ensures
            r@ == self@.over(fallback@),
    {
        ConfigSources {
            node_dist_mirror: prefer(&self.node_dist_mirror, &fallback.node_dist_mirror),
            base_dir: prefer(&self.base_dir, &fallback.base_dir),
            multishell_path: prefer(&self.multishell_path, &fallback.multishell_path),
            log_level: prefer(&self.log_level, &fallback.log_level),
            arch: prefer(&self.arch, &fallback.arch),
            version_file_strategy: prefer(&self.version_file_strategy, &fallback.version_file_strategy),
        }
    }
}


/// The resolved configuration of one invocation.
#[derive(Clone, Debug)]
pub struct FnmConfig {
    /// The serialized absolute URL of the distribution mirror.
    pub node_dist_mirror: String,
    /// The explicit root of all managed state, if one was given.
    pub base_dir: Option<String>,
    /// Where the current version's link is kept; set by shell integration.
    pub multishell_path: Option<String>,
    pub log_level: LogLevel,
    /// The architecture whose binaries are fetched; `None` stands for the host's.
    pub arch: Option<Arch>,
    pub version_file_strategy: VersionFileStrategy,
}

pub struct ConfigView {
    pub node_dist_mirror: Seq<char>,
    pub base_dir: Option<Seq<char>>,
    pub multishell_path: Option<Seq<char>>,
    pub log_level: LogLevel,
    pub arch: Option<Arch>,
    pub version_file_strategy: VersionFileStrategy,
}

impl View for FnmConfig {
    type V = ConfigView;

    open spec fn view(&self) -> ConfigView {
        ConfigView {
            node_dist_mirror: self.node_dist_mirror@,
            base_dir: given_text(&self.base_dir),
            multishell_path: given_text(&self.multishell_path),
            log_level: self.log_level,
            arch: self.arch,
            version_file_strategy: self.version_file_strategy,
        }
    }
}

/// The configuration that no source changes.
pub open spec fn default_config() -> ConfigView {
    ConfigView {
        node_dist_mirror: default_mirror(),
        base_dir: None,
        multishell_path: None,
        log_level: LogLevel::Info,
        arch: None,
        version_file_strategy: VersionFileStrategy::Local,
    }
}

/// A value that was given but could not be taken.
#[derive(Clone, Debug)]
pub enum ConfigError {
    /// The mirror is not an absolute URL; `reason` is the parser's description.
    InvalidMirror { given: String, reason: String },
    InvalidLogLevel { given: String },
    InvalidArch { given: String },
    InvalidVersionFileStrategy { given: String },
}

pub enum ErrorView {
    InvalidMirror { given: Seq<char>, reason: Seq<char> },
    InvalidLogLevel { given: Seq<char> },
    InvalidArch { given: Seq<char> },
    InvalidVersionFileStrategy { given: Seq<char> },
}

impl View for ConfigError {
    type V = ErrorView;

    open spec fn view(&self) -> ErrorView {
        match self {
            ConfigError::InvalidMirror { given, reason } => ErrorView::InvalidMirror {
                given: given@,
                reason: reason@,
            },
            ConfigError::InvalidLogLevel { given } => ErrorView::InvalidLogLevel { given: given@ },
            ConfigError::InvalidArch { given } => ErrorView::InvalidArch { given: given@ },
            ConfigError::InvalidVersionFileStrategy { given } => ErrorView::InvalidVersionFileStrategy {
                given: given@,
            },
        }
    }
}

impl ErrorView {
    /// The tokens that the setting accepts; none are listed for a URL.
    pub open spec fn accepted(self) -> Seq<Seq<char>> {
        match self {
            ErrorView::InvalidMirror { .. } => Seq::empty(),
            ErrorView::InvalidLogLevel { .. } => LogLevel::tokens(),
            ErrorView::InvalidArch { .. } => Arch::tokens(),
            ErrorView::InvalidVersionFileStrategy { .. } => VersionFileStrategy::tokens(),
        }
    }

    /// The text that was refused.
    pub open spec fn given(self) -> Seq<char> {
        match self {
            ErrorView::InvalidMirror { given, .. } => given,
            ErrorView::InvalidLogLevel { given } => given,
            ErrorView::InvalidArch { given } => given,
            ErrorView::InvalidVersionFileStrategy { given } => given,
        }
    }
}

impl ConfigError {
    /// The tokens that the refused setting accepts; empty for the mirror.
    pub fn accepted_values(&self) -> (r: Vec<&'static str>)
        ensures
            r@.map_values(|s: &'static str| s@) == self@.accepted(),
    {
        match self {
            ConfigError::InvalidMirror { .. } => {
                let r: Vec<&'static str> = Vec::new();
                assert(r@.map_values(|s: &'static str| s@) =~= Seq::<Seq<char>>::empty());
                r
            },
            ConfigError::InvalidLogLevel { .. } => LogLevel::possible_values(),
            ConfigError::InvalidArch { .. } => Arch::possible_values(),
            ConfigError::InvalidVersionFileStrategy { .. } => VersionFileStrategy::possible_values(),
        }
    }

    /// The text that was refused.
    pub fn given(&self) -> (r: &str)
        ensures
            r@ == self@.given(),
    {
        match self {
            ConfigError::InvalidMirror { given, .. } => given.as_str(),
            ConfigError::InvalidLogLevel { given } => given.as_str(),
            ConfigError::InvalidArch { given } => given.as_str(),
            ConfigError::InvalidVersionFileStrategy { given } => given.as_str(),
        }
    }
}

pub open spec fn outcome_view(r: Result<FnmConfig, ConfigError>) -> Result<ConfigView, ErrorView> {
    match r {
        Ok(c) => Ok(c@),
        Err(e) => Err(e@),
    }
}

pub open spec fn text_outcome(r: Result<String, String>) -> Result<Seq<char>, Seq<char>> {
    match r {
        Ok(t) => Ok(t@),
        Err(t) => Err(t@),
    }
}

/// What parsing the given mirror yields; the default mirror where none is given.
pub open spec fn mirror_outcome(given: Option<Seq<char>>) -> Result<Seq<char>, Seq<char>> {
    match given {
        Some(t) => url_parse_outcome(t),
        None => Ok(default_mirror()),
    }
}

/// The configuration made of the chosen settings `sel`, where `mirror` is what
/// parsing `sel`'s mirror yielded. The settings are checked in order: mirror,
/// log level, architecture, version-file strategy; the first refused one is
/// the error.
pub open spec fn settled(sel: SourcesView, mirror: Result<Seq<char>, Seq<char>>) -> Result<ConfigView, ErrorView> {
    if sel.node_dist_mirror is Some && mirror is Err {
        Err(ErrorView::InvalidMirror { given: sel.node_dist_mirror->0, reason: mirror->Err_0 })
    } else if sel.log_level is Some && LogLevel::from_token(sel.log_level->0) is None {
        Err(ErrorView::InvalidLogLevel { given: sel.log_level->0 })
    } else if sel.arch is Some && Arch::from_token(sel.arch->0) is None {
        Err(ErrorView::InvalidArch { given: sel.arch->0 })
    } else if sel.version_file_strategy is Some && VersionFileStrategy::from_token(
        sel.version_file_strategy->0,
    ) is None {
        Err(ErrorView::InvalidVersionFileStrategy { given: sel.version_file_strategy->0 })
    } else {
        Ok(
            ConfigView {
                node_dist_mirror: if sel.node_dist_mirror is Some {
                    mirror->Ok_0
                } else {
                    default_mirror()
                },
                base_dir: sel.base_dir,
                multishell_path: sel.multishell_path,
                log_level: if sel.log_level is Some {
                    LogLevel::from_token(sel.log_level->0)->0
                } else {
                    LogLevel::Info
                },
                arch: if sel.arch is Some {
                    Arch::from_token(sel.arch->0)
                } else {
                    None
                },
                version_file_strategy: if sel.version_file_strategy is Some {
                    VersionFileStrategy::from_token(sel.version_file_strategy->0)->0
                } else {
                    VersionFileStrategy::Local
                },
            },
        )
    }
}

/// The configuration resolved from the invocation's flags and the environment.
pub open spec fn resolved(flags: SourcesView, env: SourcesView) -> Result<ConfigView, ErrorView> {
    let sel = flags.over(env);
    settled(sel, mirror_outcome(sel.node_dist_mirror))
}

/// With nothing given by flags or environment, the configuration is the
/// default one: the nodejs.org mirror, log level info, the local version-file
/// strategy and no base directory override.
pub proof fn lemma_nothing_given_is_default()
    ensures
        resolved(SourcesView::silent(), SourcesView::silent()) == Ok::<ConfigView, ErrorView>(
            default_config(),
        ),
        default_config().node_dist_mirror == "https://nodejs.org/dist"@,
        default_config().log_level == LogLevel::Info,
        default_config().version_file_strategy == VersionFileStrategy::Local,
        default_config().base_dir is None,
{
}

/// A given mirror that does not parse as an absolute URL fails with the
/// parser's error.
pub proof fn lemma_malformed_mirror_rejected(sel: SourcesView, mirror: Result<Seq<char>, Seq<char>>)
    requires
        sel.node_dist_mirror is Some,
        mirror is Err,
    ensures
        settled(sel, mirror) == Err::<ConfigView, ErrorView>(
            ErrorView::InvalidMirror { given: sel.node_dist_mirror->0, reason: mirror->Err_0 },
        ),
{
}

/// An unknown log level fails with an error that lists the accepted levels,
/// unless an earlier setting, the mirror, failed first.
pub proof fn lemma_unknown_log_level_rejected(sel: SourcesView, mirror: Result<Seq<char>, Seq<char>>)
    requires
        sel.log_level is Some,
        LogLevel::from_token(sel.log_level->0) is None,
    ensures
        settled(sel, mirror) is Err,
        sel.node_dist_mirror is None || mirror is Ok ==> settled(sel, mirror) == Err::<
            ConfigView,
            ErrorView,
        >(ErrorView::InvalidLogLevel { given: sel.log_level->0 }) && settled(
            sel,
            mirror,
        )->Err_0.accepted() == LogLevel::tokens(),
{
}

/// An unknown architecture fails with an error that lists the accepted ones,
/// unless an earlier setting (mirror, log level) failed first.
pub proof fn lemma_unknown_arch_rejected(sel: SourcesView, mirror: Result<Seq<char>, Seq<char>>)
    requires
        sel.arch is Some,
        Arch::from_token(sel.arch->0) is None,
    ensures
        settled(sel, mirror) is Err,
        (sel.node_dist_mirror is None || mirror is Ok) && (sel.log_level is None || LogLevel::from_token(
            sel.log_level->0,
        ) is Some) ==> settled(sel, mirror) == Err::<ConfigView, ErrorView>(
            ErrorView::InvalidArch { given: sel.arch->0 },
        ) && settled(sel, mirror)->Err_0.accepted() == Arch::tokens(),
{
}

/// An unknown version-file strategy fails with an error that lists the
/// accepted ones, unless an earlier setting failed first.
pub proof fn lemma_unknown_strategy_rejected(sel: SourcesView, mirror: Result<Seq<char>, Seq<char>>)
    requires
        sel.version_file_strategy is Some,
        VersionFileStrategy::from_token(sel.version_file_strategy->0) is None,
    ensures
        settled(sel, mirror) is Err,
        (sel.node_dist_mirror is None || mirror is Ok) && (sel.log_level is None || LogLevel::from_token(
            sel.log_level->0,
        ) is Some) && (sel.arch is None || Arch::from_token(sel.arch->0) is Some) ==> settled(
            sel,
            mirror,
        ) == Err::<ConfigView, ErrorView>(
            ErrorView::InvalidVersionFileStrategy { given: sel.version_file_strategy->0 },
        ) && settled(sel, mirror)->Err_0.accepted() == VersionFileStrategy::tokens(),
{
}

impl Default for FnmConfig {
    fn default() -> (r: FnmConfig)
        ensures
            r@ == default_config(),
    {
        FnmConfig {
            node_dist_mirror: String::from_str("https://nodejs.org/dist"),
            base_dir: None,
            multishell_path: None,
            log_level: LogLevel::Info,
            arch: None,
            version_file_strategy: VersionFileStrategy::Local,
        }
    }
}

impl FnmConfig {
    /// Builds the configuration from the chosen settings `sel`, given what
    /// parsing `sel`'s mirror yielded (looked at only where a mirror is given).
    pub fn settle(sel: &ConfigSources, mirror: Result<String, String>) -> (r: Result<FnmConfig, ConfigError>)
        ensures
            outcome_view(r) == settled(sel@, text_outcome(mirror)),
    {
        let node_dist_mirror = match &sel.node_dist_mirror {
            Some(given) => match mirror {
                Ok(url) => url,
                Err(reason) => {
                    return Err(ConfigError::InvalidMirror { given: given.clone(), reason });
                },
            },
            None => {
                String::from_str("https://nodejs.org/dist")
            },
        };
        let log_level = match &sel.log_level {
            Some(t) => match LogLevel::from_str(t.as_str()) {
                Some(l) => l,
                None => {
                    return Err(ConfigError::InvalidLogLevel { given: t.clone() });
                },
            },
            None => LogLevel::Info,
        };
        let arch = match &sel.arch {
            Some(t) => match Arch::from_str(t.as_str()) {
                Some(a) => Some(a),
                None => {
                    return Err(ConfigError::InvalidArch { given: t.clone() });
                },
            },
            None => None,
        };
        let version_file_strategy = match &sel.version_file_strategy {
            Some(t) => match VersionFileStrategy::from_str(t.as_str()) {
                Some(v) => v,
                None => {
                    return Err(ConfigError::InvalidVersionFileStrategy { given: t.clone() });
                },
            },
            None => VersionFileStrategy::Local,
        };
        Ok(
            FnmConfig {
                node_dist_mirror,
                base_dir: copy_text(&sel.base_dir),
                multishell_path: copy_text(&sel.multishell_path),
                log_level,
                arch,
                version_file_strategy,
            },
        )
    }

    /// Resolves the configuration: a flag wins over the environment, which
    /// wins over the default. A given mirror is parsed as an absolute URL.
    pub fn resolve(flags: &ConfigSources, env: &ConfigSources) -> (r: Result<FnmConfig, ConfigError>)
        ensures
            outcome_view(r) == resolved(flags@, env@),
    {
        let sel = flags.over(env);
        let mirror = match &sel.node_dist_mirror {
            Some(given) => parse_url(given.as_str()),
            None => Ok(String::new()),
        };
        FnmConfig::settle(&sel, mirror)
    }

    pub fn version_file_strategy(&self) -> (r: &VersionFileStrategy)
        ensures
            *r == self.version_file_strategy,
    {
        &self.version_file_strategy
    }

    pub fn multishell_path(&self) -> (r: Option<&str>)
        ensures
            match r {
                Some(p) => self@.multishell_path == Some(p@),
                None => self@.multishell_path is None,
            },
    {
        match &self.multishell_path {
            None => None,
            Some(v) => Some(v.as_str()),
        }
    }

    pub fn log_level(&self) -> (r: &LogLevel)
        ensures
            *r == self.log_level,
    {
        &self.log_level
    }

    /// The same configuration with the base directory override replaced.
    pub fn with_base_dir(self, base_dir: Option<String>) -> (r: FnmConfig)
        ensures
            r@ == (ConfigView { base_dir: given_text(&base_dir), ..self@ }),
    {
        FnmConfig { base_dir, ..self }
    }
}

} // verus!
