//! Where the tool keeps its state: the choice of the base directory among an
//! explicit override, the legacy location and the modern one, and the
//! directories derived from it.
//!
//! Looking at the file system is left to the caller: the functions here say
//! which path to probe, which to use as it is, and which to create.

use vstd::prelude::*;
use crate::config::{given_text, FnmConfig};
use crate::outside::{data_dir, home_dir};
use crate::text::{joined, join_path, lemma_joined_nested, lemma_nested_transitive, nested_under};

verus! {

pub open spec fn legacy_name() -> Seq<char> {
    ".fnm"@
}

pub open spec fn modern_name() -> Seq<char> {
    "fnm"@
}

/// The platform locations that the base directory may be derived from.
#[derive(Clone, Debug)]
pub struct PlatformDirs {
    /// The user's home directory.
    pub home: Option<String>,
    /// The platform's directory for application data.
    pub data: Option<String>,
}

/// What to do to obtain the base directory.
#[derive(Clone, Debug)]
pub enum BaseDirStep {
    /// Use this path as it stands: nothing is checked or created.
    Existing(String),
    /// Create this directory and its parents where absent, then use it.
    Create(String),
    /// No base directory can be determined.
    Unresolvable,
}

pub enum BaseDirChoice {
    Existing(Seq<char>),
    Create(Seq<char>),
    Unresolvable,
}

impl View for BaseDirStep {
    type V = BaseDirChoice;

    open spec fn view(&self) -> BaseDirChoice {
        match self {
            BaseDirStep::Existing(p) => BaseDirChoice::Existing(p@),
            BaseDirStep::Create(p) => BaseDirChoice::Create(p@),
            BaseDirStep::Unresolvable => BaseDirChoice::Unresolvable,
        }
    }
}

/// The legacy location under a home directory.
pub open spec fn legacy_of(home: Seq<char>) -> Seq<char> {
    joined(home, legacy_name())
}

/// The modern location under a data directory.
pub open spec fn modern_of(data: Seq<char>) -> Seq<char> {
    joined(data, modern_name())
}

/// The legacy path whose existence decides the base directory: there is one
/// only without an override and with a known home directory.
pub open spec fn legacy_probe(base_dir: Option<Seq<char>>, home: Option<Seq<char>>) -> Option<Seq<char>> {
    if base_dir is None && home is Some {
        Some(legacy_of(home->0))
    } else {
        None
    }
}

/// The choice of the base directory: the override as it stands; else the
/// legacy location if it exists; else the modern location, to be created;
/// else none.
pub open spec fn base_dir_choice(
    base_dir: Option<Seq<char>>,
    home: Option<Seq<char>>,
    legacy_exists: bool,
    data: Option<Seq<char>>,
) -> BaseDirChoice {
    if base_dir is Some {
        BaseDirChoice::Existing(base_dir->0)
    } else if home is Some && legacy_exists {
        BaseDirChoice::Existing(legacy_of(home->0))
    } else if data is Some {
        BaseDirChoice::Create(modern_of(data->0))
    } else {
        BaseDirChoice::Unresolvable
    }
}

pub open spec fn installations_of(base: Seq<char>) -> Seq<char> {
    joined(base, "node-versions"@)
}

pub open spec fn aliases_of(base: Seq<char>) -> Seq<char> {
    joined(base, "aliases"@)
}

pub open spec fn default_version_of(base: Seq<char>) -> Seq<char> {
    joined(aliases_of(base), "default"@)
}

/// An explicit base directory is the base directory, unchanged, whatever the
/// platform reports and whether or not anything exists on disk.
pub proof fn lemma_override_kept(
    base: Seq<char>,
    home: Option<Seq<char>>,
    legacy_exists: bool,
    data: Option<Seq<char>>,
)
    ensures
        base_dir_choice(Some(base), home, legacy_exists, data) == BaseDirChoice::Existing(base),
        legacy_probe(Some(base), home) is None,
{
}

/// Without an override, an existing legacy directory is the base directory,
/// used as it stands, whatever the data directory is and whether the modern
/// directory exists.
pub proof fn lemma_existing_legacy_preferred(home: Seq<char>, data: Option<Seq<char>>)
    ensures
        legacy_probe(None, Some(home)) == Some(legacy_of(home)),
        base_dir_choice(None, Some(home), true, data) == BaseDirChoice::Existing(legacy_of(home)),
{
}

/// Without an override or an existing legacy directory, the base directory is
/// the modern one, to be created where absent. The choice does not depend on
/// whether it exists already, so a second resolution, after the first created
/// it, gives the same path.
pub proof fn lemma_modern_chosen(home: Option<Seq<char>>, legacy_exists: bool, data: Seq<char>)
    requires
        home is None || !legacy_exists,
    ensures
        base_dir_choice(None, home, legacy_exists, Some(data)) == BaseDirChoice::Create(modern_of(data)),
        base_dir_choice(None, home, legacy_exists, Some(data)) == base_dir_choice(None, home, false, Some(data)),
{
}

/// Only with no override, no home directory or no legacy directory there, and
/// no data directory, is the base directory unresolvable.
pub proof fn lemma_unresolvable_exactly(
    base_dir: Option<Seq<char>>,
    home: Option<Seq<char>>,
    legacy_exists: bool,
    data: Option<Seq<char>>,
)
    ensures
        (base_dir_choice(base_dir, home, legacy_exists, data) is Unresolvable) <==> (base_dir is None
            && (home is None || !legacy_exists) && data is None),
{
}

/// The installations, aliases and default-version directories lie below the
/// base directory they are derived from.
pub proof fn lemma_derived_dirs_nested(base: Seq<char>)
    ensures
        nested_under(installations_of(base), base),
        nested_under(aliases_of(base), base),
        nested_under(default_version_of(base), aliases_of(base)),
        nested_under(default_version_of(base), base),
{
    reveal_strlit("node-versions");
    reveal_strlit("aliases");
    reveal_strlit("default");
    lemma_joined_nested(base, "node-versions"@);
    lemma_joined_nested(base, "aliases"@);
    lemma_joined_nested(aliases_of(base), "default"@);
    lemma_nested_transitive(default_version_of(base), aliases_of(base), base);
}

impl FnmConfig {
    /// The platform's home and data directories, asked for only where no
    /// base directory override is set.
    pub fn platform_dirs(&self) -> (r: PlatformDirs)
        ensures
            self.base_dir is Some ==> r.home is None && r.data is None,
    {
        match &self.base_dir {
            Some(_) => PlatformDirs { home: None, data: None },
            None => PlatformDirs { home: home_dir(), data: data_dir() },
        }
    }

    /// The legacy path whose existence the caller must find out before
    /// calling `base_dir_with_default`; `None` where it does not matter.
    pub fn legacy_dir_to_probe(&self, dirs: &PlatformDirs) -> (r: Option<String>)
        ensures
            given_text(&r) == legacy_probe(self@.base_dir, given_text(&dirs.home)),
    {
        match (&self.base_dir, &dirs.home) {
            (None, Some(home)) => {
                Some(join_path(home.as_str(), ".fnm"))
            },
            _ => None,
        }
    }

    /// The base directory, given the platform locations and whether the
    /// legacy path (see `legacy_dir_to_probe`) exists.
    pub fn base_dir_with_default(&self, dirs: &PlatformDirs, legacy_exists: bool) -> (r: BaseDirStep)
        ensures
            r@ == base_dir_choice(
                self@.base_dir,
                given_text(&dirs.home),
                legacy_exists,
                given_text(&dirs.data),
            ),
    {
        if let Some(dir) = &self.base_dir {
            return BaseDirStep::Existing(dir.clone());
        }
        if let Some(home) = &dirs.home {
            if legacy_exists {
                return BaseDirStep::Existing(join_path(home.as_str(), ".fnm"));
            }
        }
        match &dirs.data {
            Some(data) => {
                BaseDirStep::Create(join_path(data.as_str(), "fnm"))
            },
            None => BaseDirStep::Unresolvable,
        }
    }

    /// Where installed versions are kept under the base directory `base`.
    pub fn installations_dir(base: &str) -> (r: String)
        ensures
            r@ == installations_of(base@),
    {
        join_path(base, "node-versions")
    }

    /// Where aliases are kept under the base directory `base`.
    pub fn aliases_dir(base: &str) -> (r: String)
        ensures
            r@ == aliases_of(base@),
    {
        join_path(base, "aliases")
    }

    /// The alias used when no version is selected, under the base directory `base`.
    pub fn default_version_dir(base: &str) -> (r: String)
        ensures
            r@ == default_version_of(base@),
    {
        let aliases = FnmConfig::aliases_dir(base);
        join_path(aliases.as_str(), "default")
    }
}

} // verus!
