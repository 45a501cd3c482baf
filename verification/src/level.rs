//! Severity levels and thresholds.
//!
//! A [`Level`] tags a log record; a [`LevelFilter`] expresses a threshold that
//! admits records up to a given verbosity. `Off` is the most restrictive
//! threshold (it admits nothing) and `Trace` the least restrictive (it admits
//! everything).

use vstd::prelude::*;
use vstd::string::StrSliceExecFns;

verus! {

/// The severity of a log record, ordered from most severe (`Error`) to most
/// verbose (`Trace`).
#[derive(Clone, Copy, PartialEq, Eq, Structural, Debug, Hash)]
pub enum Level {
    Error,
    Warn,
    Info,
    Debug,
    Trace,
}

/// A severity threshold: either a [`Level`] or the sentinel `Off`, which
/// disables logging entirely.
#[derive(Clone, Copy, PartialEq, Eq, Structural, Debug, Hash)]
pub enum LevelFilter {
    Off,
    Error,
    Warn,
    Info,
    Debug,
    Trace,
}

/// The verbosity rank of a level: `Error` is 1, `Trace` is 5.
pub open spec fn level_rank(l: Level) -> int {
    match l {
        Level::Error => 1,
        Level::Warn => 2,
        Level::Info => 3,
        Level::Debug => 4,
        Level::Trace => 5,
    }
}

/// The verbosity rank of a threshold: `Off` is 0, `Trace` is 5.
pub open spec fn filter_rank(f: LevelFilter) -> int {
    match f {
        LevelFilter::Off => 0,
        LevelFilter::Error => 1,
        LevelFilter::Warn => 2,
        LevelFilter::Info => 3,
        LevelFilter::Debug => 4,
        LevelFilter::Trace => 5,
    }
}

/// A threshold admits a record whose level is at most as verbose as the
/// threshold itself.
pub open spec fn admits(threshold: LevelFilter, level: Level) -> bool {
    level_rank(level) <= filter_rank(threshold)
}

/// The threshold with the same rank as `l`.
pub open spec fn spec_to_level_filter(l: Level) -> LevelFilter {
    match l {
        Level::Error => LevelFilter::Error,
        Level::Warn => LevelFilter::Warn,
        Level::Info => LevelFilter::Info,
        Level::Debug => LevelFilter::Debug,
        Level::Trace => LevelFilter::Trace,
    }
}

/// The upper-case name of a level, as it appears in rendered log lines.
pub open spec fn spec_level_name(l: Level) -> Seq<char> {
    match l {
        Level::Error => "ERROR"@,
        Level::Warn => "WARN"@,
        Level::Info => "INFO"@,
        Level::Debug => "DEBUG"@,
        Level::Trace => "TRACE"@,
    }
}

impl Level {
    /// The threshold that admits exactly the records this level admits.
    pub fn to_level_filter(self) -> (f: LevelFilter)
        ensures
            f == spec_to_level_filter(self),
            filter_rank(f) == level_rank(self),
    {
        match self {
            Level::Error => LevelFilter::Error,
            Level::Warn => LevelFilter::Warn,
            Level::Info => LevelFilter::Info,
            Level::Debug => LevelFilter::Debug,
            Level::Trace => LevelFilter::Trace,
        }
    }

    /// Returns the upper-case name of this level.
    pub fn as_str(&self) -> (s: &'static str)
        ensures
            s@ == spec_level_name(*self),
    {
        match self {
            Level::Error => "ERROR",
            Level::Warn => "WARN",
            Level::Info => "INFO",
            Level::Debug => "DEBUG",
            Level::Trace => "TRACE",
        }
    }
}

/// The upper-case name of a threshold.
pub open spec fn spec_level_filter_name(f: LevelFilter) -> Seq<char> {
    match f {
        LevelFilter::Off => "OFF"@,
        LevelFilter::Error => "ERROR"@,
        LevelFilter::Warn => "WARN"@,
        LevelFilter::Info => "INFO"@,
        LevelFilter::Debug => "DEBUG"@,
        LevelFilter::Trace => "TRACE"@,
    }
}

impl LevelFilter {
    /// Returns the upper-case name of this threshold.
    pub fn as_str(&self) -> (s: &'static str)
        ensures
            s@ == spec_level_filter_name(*self),
    {
        match self {
            LevelFilter::Off => "OFF",
            LevelFilter::Error => "ERROR",
            LevelFilter::Warn => "WARN",
            LevelFilter::Info => "INFO",
            LevelFilter::Debug => "DEBUG",
            LevelFilter::Trace => "TRACE",
        }
    }
}

/// `s` equals a name given in its lower-case and upper-case spellings,
/// comparing each character case-insensitively.
pub open spec fn ci_eq(s: Seq<char>, lower: Seq<char>, upper: Seq<char>) -> bool {
    s.len() == lower.len() && forall|i: int|
        0 <= i < s.len() ==> (s[i] == lower[i] || s[i] == upper[i])
}

/// Which level, if any, a piece of configuration text names,
/// case-insensitively.
pub open spec fn spec_parse_level(s: Seq<char>) -> Option<Level> {
    if ci_eq(s, "error"@, "ERROR"@) {
        Some(Level::Error)
    } else if ci_eq(s, "warn"@, "WARN"@) {
        Some(Level::Warn)
    } else if ci_eq(s, "info"@, "INFO"@) {
        Some(Level::Info)
    } else if ci_eq(s, "debug"@, "DEBUG"@) {
        Some(Level::Debug)
    } else if ci_eq(s, "trace"@, "TRACE"@) {
        Some(Level::Trace)
    } else {
        None
    }
}

/// Which threshold, if any, a piece of configuration text names,
/// case-insensitively.
pub open spec fn spec_parse_level_filter(s: Seq<char>) -> Option<LevelFilter> {
    if ci_eq(s, "off"@, "OFF"@) {
        Some(LevelFilter::Off)
    } else {
        match spec_parse_level(s) {
            Some(l) => Some(spec_to_level_filter(l)),
            None => None,
        }
    }
}

/// Compares `s` character by character against a name spelled out in lower
/// and upper case.
fn eq_ignore_case(s: &str, lower: &str, upper: &str) -> (b: bool)
    requires
        lower@.len() == upper@.len(),
    ensures
        b == ci_eq(s@, lower@, upper@),
{
    let n = s.unicode_len();
    if n != lower.unicode_len() {
        return false;
    }
    let mut i: usize = 0;
    while i < n
        invariant
            n == s@.len(),
            n == lower@.len(),
            n == upper@.len(),
            i <= n,
            forall|j: int| 0 <= j < i ==> (s@[j] == lower@[j] || s@[j] == upper@[j]),
        decreases n - i,
    {
        let c = s.get_char(i);
        if c != lower.get_char(i) && c != upper.get_char(i) {
            return false;
        }
        i += 1;
    }
    true
}

/// Parses the name of a severity level, case-insensitively.
///
/// Returns `Err(Error::UnrecognizedLevel)` exactly when `s` is none of the
/// five level names.
pub fn parse_level(s: &str) -> (r: Result<Level, crate::error::Error>)
    ensures
        match r {
            Ok(l) => spec_parse_level(s@) == Some(l),
            Err(e) => spec_parse_level(s@) is None && e == crate::error::Error::UnrecognizedLevel,
        },
{
    proof {
        reveal_strlit("error");
        reveal_strlit("ERROR");
        reveal_strlit("warn");
        reveal_strlit("WARN");
        reveal_strlit("info");
        reveal_strlit("INFO");
        reveal_strlit("debug");
        reveal_strlit("DEBUG");
        reveal_strlit("trace");
        reveal_strlit("TRACE");
    }
    if eq_ignore_case(s, "error", "ERROR") {
        Ok(Level::Error)
    } else if eq_ignore_case(s, "warn", "WARN") {
        Ok(Level::Warn)
    } else if eq_ignore_case(s, "info", "INFO") {
        Ok(Level::Info)
    } else if eq_ignore_case(s, "debug", "DEBUG") {
        Ok(Level::Debug)
    } else if eq_ignore_case(s, "trace", "TRACE") {
        Ok(Level::Trace)
    } else {
        Err(crate::error::Error::UnrecognizedLevel)
    }
}

/// Parses the name of a threshold, case-insensitively: the five level names
/// plus `off`.
pub fn parse_level_filter(s: &str) -> (r: Result<LevelFilter, crate::error::Error>)
    ensures
        match r {
            Ok(f) => spec_parse_level_filter(s@) == Some(f),
            Err(e) => spec_parse_level_filter(s@) is None && e
                == crate::error::Error::UnrecognizedLevel,
        },
{
    proof {
        reveal_strlit("off");
        reveal_strlit("OFF");
    }
    if eq_ignore_case(s, "off", "OFF") {
        Ok(LevelFilter::Off)
    } else {
        match parse_level(s) {
            Ok(l) => Ok(l.to_level_filter()),
            Err(e) => Err(e),
        }
    }
}

/// Parsing a rendered level name yields the level back: the two directions of
/// the configuration-boundary text pair agree.
pub proof fn lemma_level_name_round_trip(l: Level)
    ensures
        spec_parse_level(spec_level_name(l)) == Some(l),
{
    reveal_strlit("error");
    reveal_strlit("ERROR");
    reveal_strlit("warn");
    reveal_strlit("WARN");
    reveal_strlit("info");
    reveal_strlit("INFO");
    reveal_strlit("debug");
    reveal_strlit("DEBUG");
    reveal_strlit("trace");
    reveal_strlit("TRACE");
    match l {
        Level::Error => {
            assert(ci_eq("ERROR"@, "error"@, "ERROR"@));
        },
        Level::Warn => {
            assert(!ci_eq("WARN"@, "error"@, "ERROR"@));
            assert(ci_eq("WARN"@, "warn"@, "WARN"@));
        },
        Level::Info => {
            assert(!ci_eq("INFO"@, "error"@, "ERROR"@));
            assert("INFO"@[0] != 'w' && "INFO"@[0] != 'W');
            assert(!ci_eq("INFO"@, "warn"@, "WARN"@));
            assert(ci_eq("INFO"@, "info"@, "INFO"@));
        },
        Level::Debug => {
            assert("DEBUG"@[0] != 'e' && "DEBUG"@[0] != 'E');
            assert(!ci_eq("DEBUG"@, "error"@, "ERROR"@));
            assert(!ci_eq("DEBUG"@, "warn"@, "WARN"@));
            assert(!ci_eq("DEBUG"@, "info"@, "INFO"@));
            assert(ci_eq("DEBUG"@, "debug"@, "DEBUG"@));
        },
        Level::Trace => {
            assert("TRACE"@[0] != 'e' && "TRACE"@[0] != 'E');
            assert(!ci_eq("TRACE"@, "error"@, "ERROR"@));
            assert(!ci_eq("TRACE"@, "warn"@, "WARN"@));
            assert(!ci_eq("TRACE"@, "info"@, "INFO"@));
            assert("TRACE"@[0] != 'd' && "TRACE"@[0] != 'D');
            assert(!ci_eq("TRACE"@, "debug"@, "DEBUG"@));
            assert(ci_eq("TRACE"@, "trace"@, "TRACE"@));
        },
    }
}

/// Whether `threshold` admits a record of severity `level`.
pub fn level_passes(threshold: LevelFilter, level: Level) -> (b: bool)
    ensures
        b == admits(threshold, level),
{
    let lr: u8 = match level {
        Level::Error => 1,
        Level::Warn => 2,
        Level::Info => 3,
        Level::Debug => 4,
        Level::Trace => 5,
    };
    let fr: u8 = match threshold {
        LevelFilter::Off => 0,
        LevelFilter::Error => 1,
        LevelFilter::Warn => 2,
        LevelFilter::Info => 3,
        LevelFilter::Debug => 4,
        LevelFilter::Trace => 5,
    };
    lr <= fr
}

/// An `Off` threshold admits no record at all.
pub proof fn lemma_off_admits_nothing(level: Level)
    ensures
        !admits(LevelFilter::Off, level),
{
}

/// A `Trace` threshold admits every record.
pub proof fn lemma_trace_admits_all(level: Level)
    ensures
        admits(LevelFilter::Trace, level),
{
}

/// Thresholds are totally ordered by what they admit: a coarser threshold
/// admits a subset of what a finer one does.
pub proof fn lemma_admits_monotone(a: LevelFilter, b: LevelFilter, level: Level)
    requires
        filter_rank(a) <= filter_rank(b),
        admits(a, level),
    ensures
        admits(b, level),
{
}

} // verus!
