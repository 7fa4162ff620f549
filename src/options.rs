//! The enumerated settings and their textual tokens.

use vstd::prelude::*;
use crate::text::same_text;

verus! {

/// How much the tool reports about what it does.
#[derive(Clone, Copy, Debug, PartialEq, Eq, Structural)]
pub enum LogLevel {
    Error,
    Warn,
    Info,
    Debug,
    Trace,
}

/// The CPU architecture whose Node binaries are fetched.
#[derive(Clone, Copy, Debug, PartialEq, Eq, Structural)]
pub enum Arch {
    X86,
    X64,
    Arm64,
    Armv7l,
    Ppc64le,
    Ppc64,
    S390x,
}

/// How the version file of a project is looked up.
#[derive(Clone, Copy, Debug, PartialEq, Eq, Structural)]
pub enum VersionFileStrategy {
    /// Only the current directory.
    Local,
    /// The current directory and each of its parents.
    Recursive,
}

impl LogLevel {
    pub open spec fn token(self) -> Seq<char> {
        match self {
            LogLevel::Error => "error"@,
            LogLevel::Warn => "warn"@,
            LogLevel::Info => "info"@,
            LogLevel::Debug => "debug"@,
            LogLevel::Trace => "trace"@,
        }
    }

    /// The accepted tokens, in order.
    pub open spec fn tokens() -> Seq<Seq<char>> {
        seq!["error"@, "warn"@, "info"@, "debug"@, "trace"@]
    }

    /// The level that a token names, if any.
    pub open spec fn from_token(t: Seq<char>) -> Option<LogLevel> {
        if t == "error"@ {
            Some(LogLevel::Error)
        } else if t == "warn"@ {
            Some(LogLevel::Warn)
        } else if t == "info"@ {
            Some(LogLevel::Info)
        } else if t == "debug"@ {
            Some(LogLevel::Debug)
        } else if t == "trace"@ {
            Some(LogLevel::Trace)
        } else {
            None
        }
    }

    pub fn possible_values() -> (r: Vec<&'static str>)
        ensures
            r@.map_values(|s: &'static str| s@) == Self::tokens(),
    {
        let r = vec!["error", "warn", "info", "debug", "trace"];
        assert(r@.map_values(|s: &'static str| s@) =~= Self::tokens());
        r
    }

    pub fn as_str(&self) -> (r: &'static str)
        ensures
            r@ == self.token(),
    {
        match self {
            LogLevel::Error => "error",
            LogLevel::Warn => "warn",
            LogLevel::Info => "info",
            LogLevel::Debug => "debug",
            LogLevel::Trace => "trace",
        }
    }

    pub fn from_str(t: &str) -> (r: Option<LogLevel>)
        ensures
            r == Self::from_token(t@),
    {
        if same_text(t, "error") {
            Some(LogLevel::Error)
        } else if same_text(t, "warn") {
            Some(LogLevel::Warn)
        } else if same_text(t, "info") {
            Some(LogLevel::Info)
        } else if same_text(t, "debug") {
            Some(LogLevel::Debug)
        } else if same_text(t, "trace") {
            Some(LogLevel::Trace)
        } else {
            None
        }
    }
}

impl Arch {
    pub open spec fn token(self) -> Seq<char> {
        match self {
            Arch::X86 => "x86"@,
            Arch::X64 => "x64"@,
            Arch::Arm64 => "arm64"@,
            Arch::Armv7l => "armv7l"@,
            Arch::Ppc64le => "ppc64le"@,
            Arch::Ppc64 => "ppc64"@,
            Arch::S390x => "s390x"@,
        }
    }

    /// The accepted tokens, in order.
    pub open spec fn tokens() -> Seq<Seq<char>> {
        seq!["x86"@, "x64"@, "arm64"@, "armv7l"@, "ppc64le"@, "ppc64"@, "s390x"@]
    }

    /// The architecture that a token names, if any.
    pub open spec fn from_token(t: Seq<char>) -> Option<Arch> {
        if t == "x86"@ {
            Some(Arch::X86)
        } else if t == "x64"@ {
            Some(Arch::X64)
        } else if t == "arm64"@ {
            Some(Arch::Arm64)
        } else if t == "armv7l"@ {
            Some(Arch::Armv7l)
        } else if t == "ppc64le"@ {
            Some(Arch::Ppc64le)
        } else if t == "ppc64"@ {
            Some(Arch::Ppc64)
        } else if t == "s390x"@ {
            Some(Arch::S390x)
        } else {
            None
        }
    }

    pub fn possible_values() -> (r: Vec<&'static str>)
        ensures
            r@.map_values(|s: &'static str| s@) == Self::tokens(),
    {
        let r = vec!["x86", "x64", "arm64", "armv7l", "ppc64le", "ppc64", "s390x"];
        assert(r@.map_values(|s: &'static str| s@) =~= Self::tokens());
        r
    }

    pub fn as_str(&self) -> (r: &'static str)
        ensures
            r@ == self.token(),
    {
        match self {
            Arch::X86 => "x86",
            Arch::X64 => "x64",
            Arch::Arm64 => "arm64",
            Arch::Armv7l => "armv7l",
            Arch::Ppc64le => "ppc64le",
            Arch::Ppc64 => "ppc64",
            Arch::S390x => "s390x",
        }
    }

    pub fn from_str(t: &str) -> (r: Option<Arch>)
        ensures
            r == Self::from_token(t@),
    {
        if same_text(t, "x86") {
            Some(Arch::X86)
        } else if same_text(t, "x64") {
            Some(Arch::X64)
        } else if same_text(t, "arm64") {
            Some(Arch::Arm64)
        } else if same_text(t, "armv7l") {
            Some(Arch::Armv7l)
        } else if same_text(t, "ppc64le") {
            Some(Arch::Ppc64le)
        } else if same_text(t, "ppc64") {
            Some(Arch::Ppc64)
        } else if same_text(t, "s390x") {
            Some(Arch::S390x)
        } else {
            None
        }
    }
}

impl VersionFileStrategy {
    pub open spec fn token(self) -> Seq<char> {
        match self {
            VersionFileStrategy::Local => "local"@,
            VersionFileStrategy::Recursive => "recursive"@,
        }
    }

    /// The accepted tokens, in order.
    pub open spec fn tokens() -> Seq<Seq<char>> {
        seq!["local"@, "recursive"@]
    }

    /// The strategy that a token names, if any.
    pub open spec fn from_token(t: Seq<char>) -> Option<VersionFileStrategy> {
        if t == "local"@ {
            Some(VersionFileStrategy::Local)
        } else if t == "recursive"@ {
            Some(VersionFileStrategy::Recursive)
        } else {
            None
        }
    }

    pub fn possible_values() -> (r: Vec<&'static str>)
        ensures
            r@.map_values(|s: &'static str| s@) == Self::tokens(),
    {
        let r = vec!["local", "recursive"];
        assert(r@.map_values(|s: &'static str| s@) =~= Self::tokens());
        r
    }

    pub fn as_str(&self) -> (r: &'static str)
        ensures
            r@ == self.token(),
    {
        match self {
            VersionFileStrategy::Local => "local",
            VersionFileStrategy::Recursive => "recursive",
        }
    }

    pub fn from_str(t: &str) -> (r: Option<VersionFileStrategy>)
        ensures
            r == Self::from_token(t@),
    {
        if same_text(t, "local") {
            Some(VersionFileStrategy::Local)
        } else if same_text(t, "recursive") {
            Some(VersionFileStrategy::Recursive)
        } else {
            None
        }
    }
}

/// Each log level is named by its token, and a token names a level exactly
/// when it is among the accepted ones.
pub proof fn lemma_log_level_tokens(v: LogLevel, t: Seq<char>)
    ensures
        LogLevel::from_token(v.token()) == Some(v),
        LogLevel::tokens().contains(v.token()),
        LogLevel::from_token(t) is Some <==> LogLevel::tokens().contains(t),
        LogLevel::from_token(t) is Some ==> LogLevel::from_token(t)->0.token() == t,
{
    reveal_strlit("error");
    reveal_strlit("warn");
    reveal_strlit("info");
    reveal_strlit("debug");
    reveal_strlit("trace");
    assert("error"@[0] == 'e' && "error"@[1] == 'r');
    assert("warn"@[0] == 'w' && "warn"@[1] == 'a');
    assert("info"@[0] == 'i' && "info"@[1] == 'n');
    assert("debug"@[0] == 'd' && "debug"@[1] == 'e');
    assert("trace"@[0] == 't' && "trace"@[1] == 'r');
    match v {
        LogLevel::Error => assert(LogLevel::tokens()[0] == v.token()),
        LogLevel::Warn => assert(LogLevel::tokens()[1] == v.token()),
        LogLevel::Info => assert(LogLevel::tokens()[2] == v.token()),
        LogLevel::Debug => assert(LogLevel::tokens()[3] == v.token()),
        LogLevel::Trace => assert(LogLevel::tokens()[4] == v.token()),
    }
    if LogLevel::tokens().contains(t) {
        let i = choose|i: int| 0 <= i < LogLevel::tokens().len() && LogLevel::tokens()[i] == t;
        assert(LogLevel::tokens()[0] == "error"@);
        assert(LogLevel::tokens()[1] == "warn"@);
        assert(LogLevel::tokens()[2] == "info"@);
        assert(LogLevel::tokens()[3] == "debug"@);
        assert(LogLevel::tokens()[4] == "trace"@);
    }
}

/// Each architecture is named by its token, and a token names an
/// architecture exactly when it is among the accepted ones.
pub proof fn lemma_architecture_tokens(v: Arch, t: Seq<char>)
    ensures
        Arch::from_token(v.token()) == Some(v),
        Arch::tokens().contains(v.token()),
        Arch::from_token(t) is Some <==> Arch::tokens().contains(t),
        Arch::from_token(t) is Some ==> Arch::from_token(t)->0.token() == t,
{
    reveal_strlit("x86");
    reveal_strlit("x64");
    reveal_strlit("arm64");
    reveal_strlit("armv7l");
    reveal_strlit("ppc64le");
    reveal_strlit("ppc64");
    reveal_strlit("s390x");
    assert("x86"@[0] == 'x' && "x86"@[1] == '8');
    assert("x64"@[0] == 'x' && "x64"@[1] == '6');
    assert("arm64"@[0] == 'a' && "arm64"@[1] == 'r');
    assert("armv7l"@[0] == 'a' && "armv7l"@[1] == 'r');
    assert("ppc64le"@[0] == 'p' && "ppc64le"@[1] == 'p');
    assert("ppc64"@[0] == 'p' && "ppc64"@[1] == 'p');
    assert("s390x"@[0] == 's' && "s390x"@[1] == '3');
    match v {
        Arch::X86 => assert(Arch::tokens()[0] == v.token()),
        Arch::X64 => assert(Arch::tokens()[1] == v.token()),
        Arch::Arm64 => assert(Arch::tokens()[2] == v.token()),
        Arch::Armv7l => assert(Arch::tokens()[3] == v.token()),
        Arch::Ppc64le => assert(Arch::tokens()[4] == v.token()),
        Arch::Ppc64 => assert(Arch::tokens()[5] == v.token()),
        Arch::S390x => assert(Arch::tokens()[6] == v.token()),
    }
    if Arch::tokens().contains(t) {
        let i = choose|i: int| 0 <= i < Arch::tokens().len() && Arch::tokens()[i] == t;
        assert(Arch::tokens()[0] == "x86"@);
        assert(Arch::tokens()[1] == "x64"@);
        assert(Arch::tokens()[2] == "arm64"@);
        assert(Arch::tokens()[3] == "armv7l"@);
        assert(Arch::tokens()[4] == "ppc64le"@);
        assert(Arch::tokens()[5] == "ppc64"@);
        assert(Arch::tokens()[6] == "s390x"@);
    }
}

/// Each version-file strategy is named by its token, and a token names a
/// strategy exactly when it is among the accepted ones.
pub proof fn lemma_version_file_strategy_tokens(v: VersionFileStrategy, t: Seq<char>)
    ensures
        VersionFileStrategy::from_token(v.token()) == Some(v),
        VersionFileStrategy::tokens().contains(v.token()),
        VersionFileStrategy::from_token(t) is Some <==> VersionFileStrategy::tokens().contains(t),
        VersionFileStrategy::from_token(t) is Some ==> VersionFileStrategy::from_token(t)->0.token() == t,
{
    reveal_strlit("local");
    reveal_strlit("recursive");
    match v {
        VersionFileStrategy::Local => assert(VersionFileStrategy::tokens()[0] == v.token()),
        VersionFileStrategy::Recursive => assert(VersionFileStrategy::tokens()[1] == v.token()),
    }
    if VersionFileStrategy::tokens().contains(t) {
        let i = choose|i: int| 0 <= i < VersionFileStrategy::tokens().len() && VersionFileStrategy::tokens()[i] == t;
        assert(VersionFileStrategy::tokens()[0] == "local"@);
        assert(VersionFileStrategy::tokens()[1] == "recursive"@);
    }
}

impl Default for VersionFileStrategy {
    fn default() -> (r: Self)
        ensures
            r == VersionFileStrategy::Local,
    {
        VersionFileStrategy::Local
    }
}

} // verus!
