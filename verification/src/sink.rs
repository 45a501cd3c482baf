//! The sink: formatting, routing, and the filter-resolution gate.
//!
//! The sink holds the configuration registered at initialization. Given a
//! record, it resolves the effective threshold for the record's origin
//! (longest matching module prefix wins; among equally long prefixes the most
//! recently added wins; no match falls back to the default level), formats
//! passing records with a timestamp, and decides which console channel
//! receives the text: warnings and errors go to the warning channel,
//! everything else to the standard channel.

use vstd::prelude::*;
use vstd::string::StrSliceExecFns;
use vstd::string::StringExecFns;

use crate::builder::Builder;
use crate::filter::Filter;
use crate::level::{
    admits, level_rank, spec_level_name, spec_to_level_filter, level_passes, Level, LevelFilter,
};
use crate::time::{render_timestamp, spec_timestamp, Timestamp};

verus! {

/// One log record, as delivered by the logging facade.
pub struct Record {
    /// The record's severity.
    pub level: Level,
    /// The module path of the code that produced the record, when known.
    pub origin: Option<String>,
    /// The rendered message text.
    pub message: String,
}

impl Record {
    /// The origin as a sequence of characters, when known.
    pub open spec fn spec_origin(self) -> Option<Seq<char>> {
        match self.origin {
            Some(o) => Some(o@),
            None => None,
        }
    }
}

/// The two output channels the host console offers.
#[derive(Clone, Copy, PartialEq, Eq, Structural, Debug)]
pub enum Channel {
    /// The console's warning channel, for warnings and errors.
    Warning,
    /// The console's standard channel, for informational output.
    Standard,
}

/// The channel a record of severity `level` is dispatched to: `Warn` and
/// anything more severe goes to the warning channel.
pub open spec fn spec_route(level: Level) -> Channel {
    if level_rank(level) <= level_rank(Level::Warn) {
        Channel::Warning
    } else {
        Channel::Standard
    }
}

/// Records of severity `Error` or `Warn` — and exactly those — go to the
/// warning channel; `Info`, `Debug` and `Trace` records go to the standard
/// channel. The boundary is inclusive: `Warn` belongs to the warning side.
pub proof fn lemma_routing(level: Level)
    ensures
        (level == Level::Error || level == Level::Warn) <==> spec_route(level)
            == Channel::Warning,
        !(level == Level::Error || level == Level::Warn) <==> spec_route(level)
            == Channel::Standard,
{
}

/// Decides the console channel for a record of severity `level`.
pub fn route(level: Level) -> (c: Channel)
    ensures
        c == spec_route(level),
{
    match level {
        Level::Error => Channel::Warning,
        Level::Warn => Channel::Warning,
        _ => Channel::Standard,
    }
}

/// The view of an optional origin string.
pub open spec fn spec_opt_origin(origin: Option<&str>) -> Option<Seq<char>> {
    match origin {
        Some(o) => Some(o@),
        None => None,
    }
}

/// The full text of one log line: `YYYY-MM-DD HH:MM:SS LEVEL [origin ]message`,
/// where the origin segment is omitted when no origin is known.
pub open spec fn spec_output(
    t: Timestamp,
    level: Level,
    origin: Option<Seq<char>>,
    message: Seq<char>,
) -> Seq<char> {
    match origin {
        Some(o) => spec_timestamp(t) + seq![' '] + spec_level_name(level) + seq![' '] + o
            + seq![' '] + message,
        None => spec_timestamp(t) + seq![' '] + spec_level_name(level) + seq![' '] + message,
    }
}

/// Builds the text of one log line.
pub fn format_record(t: &Timestamp, level: Level, origin: Option<&str>, message: &str) -> (s:
    String)
    requires
        t.wf(),
    ensures
        s@ == spec_output(*t, level, spec_opt_origin(origin), message@),
{
    let mut out = render_timestamp(t);
    out.append(" ");
    out.append(level.as_str());
    out.append(" ");
    match origin {
        Some(o) => {
            out.append(o);
            out.append(" ");
        },
        None => (),
    }
    out.append(message);
    proof {
        reveal_strlit(" ");
        assert(out@ =~= spec_output(*t, level, spec_opt_origin(origin), message@));
    }
    out
}

/// `prefix` is an initial segment of `s`.
pub open spec fn is_prefix_of(prefix: Seq<char>, s: Seq<char>) -> bool {
    prefix.len() <= s.len() && s.subrange(0, prefix.len() as int) == prefix
}

/// Whether `prefix` is an initial segment of `s`.
fn is_prefix(prefix: &str, s: &str) -> (b: bool)
    ensures
        b == is_prefix_of(prefix@, s@),
{
    let n = prefix.unicode_len();
    if n > s.unicode_len() {
        return false;
    }
    let mut i: usize = 0;
    while i < n
        invariant
            n == prefix@.len(),
            n <= s@.len(),
            i <= n,
            forall|j: int| 0 <= j < i ==> prefix@[j] == s@[j],
        decreases n - i,
    {
        if prefix.get_char(i) != s.get_char(i) {
            proof {
                if is_prefix_of(prefix@, s@) {
                    assert(s@.subrange(0, prefix@.len() as int)[i as int] == s@[i as int]);
                }
            }
            return false;
        }
        i += 1;
    }
    proof {
        assert(s@.subrange(0, prefix@.len() as int) =~= prefix@);
    }
    true
}

/// The filter at index `i` matches a record with origin `origin`.
pub open spec fn filter_matches(filters: Seq<Filter>, origin: Seq<char>, i: int) -> bool {
    0 <= i < filters.len() && is_prefix_of(filters[i].spec_module(), origin)
}

/// The filter at index `j` takes precedence over the one at index `i`: its
/// module prefix is longer, or equally long and added later.
pub open spec fn takes_precedence(filters: Seq<Filter>, i: int, j: int) -> bool {
    ||| filters[j].spec_module().len() > filters[i].spec_module().len()
    ||| (filters[j].spec_module().len() == filters[i].spec_module().len() && j > i)
}

/// The filter at index `i` is the one that decides a record with origin
/// `origin`: it matches, and no other matching filter takes precedence.
pub open spec fn selected(filters: Seq<Filter>, origin: Seq<char>, i: int) -> bool {
    &&& filter_matches(filters, origin, i)
    &&& forall|j: int|
        filter_matches(filters, origin, j) && j != i ==> !takes_precedence(filters, i, j)
}

/// At most one filter decides a given origin.
pub proof fn lemma_selected_unique(filters: Seq<Filter>, origin: Seq<char>, i: int, j: int)
    requires
        selected(filters, origin, i),
        selected(filters, origin, j),
    ensures
        i == j,
{
    if i != j {
        assert(!takes_precedence(filters, i, j));
        assert(!takes_precedence(filters, j, i));
    }
}

/// The threshold in force for a record with origin `origin`: the level of the
/// deciding filter, or the default level when no filter matches.
pub open spec fn spec_effective_threshold(s: Sink, origin: Seq<char>) -> LevelFilter {
    if exists|i: int| filter_matches(s.filters@, origin, i) {
        s.filters@[choose|i: int| selected(s.filters@, origin, i)].spec_level()
    } else {
        spec_to_level_filter(s.default_log_level)
    }
}

/// Whether a record with the given origin and severity passes the combined
/// default/filter gate.
pub open spec fn spec_passes(s: Sink, origin: Option<Seq<char>>, level: Level) -> bool {
    match origin {
        Some(o) => admits(spec_effective_threshold(s, o), level),
        None => admits(spec_to_level_filter(s.default_log_level), level),
    }
}

/// The process-wide log destination: the configuration registered at
/// initialization, immutable thereafter.
#[derive(Clone, Debug)]
pub struct Sink {
    /// The threshold applied to records no filter matches.
    pub default_log_level: Level,
    /// The per-module overrides, in insertion order.
    pub filters: Vec<Filter>,
}

impl Builder {
    /// Consumes the builder and constructs the sink it describes.
    pub fn build(self) -> (s: Sink)
        ensures
            s.default_log_level == self.default_log_level,
            s.filters@ == self.filters@,
    {
        Sink { default_log_level: self.default_log_level, filters: self.filters }
    }
}

impl Sink {
    /// Resolves the threshold in force for a record with origin `origin`: the
    /// level of the deciding filter, or the default level when no filter
    /// matches.
    pub fn effective_threshold(&self, origin: &str) -> (t: LevelFilter)
        ensures
            t == spec_effective_threshold(*self, origin@),
    {
        let ghost filters = self.filters@;
        let mut best: Option<usize> = None;
        let mut idx: usize = 0;
        while idx < self.filters.len()
            invariant
                self.filters@ == filters,
                idx <= filters.len(),
                match best {
                    None => forall|j: int| 0 <= j < idx ==> !filter_matches(filters, origin@, j),
                    Some(b) => {
                        &&& (b as int) < idx
                        &&& filter_matches(filters, origin@, b as int)
                        &&& forall|j: int|
                            0 <= j < idx && j != b && filter_matches(filters, origin@, j)
                                ==> !takes_precedence(filters, b as int, j)
                    },
                },
            decreases filters.len() - idx,
        {
            let f = self.filters[idx];
            proof {
                assert(f == filters[idx as int]);
            }
            let matched = is_prefix(f.module(), origin);
            if matched {
                proof {
                    assert(filter_matches(filters, origin@, idx as int));
                }
                match best {
                    None => {
                        best = Some(idx);
                    },
                    Some(b) => {
                        let best_len = self.filters[b].module().unicode_len();
                        let cur_len = f.module().unicode_len();
                        if cur_len >= best_len {
                            proof {
                                assert(!takes_precedence(filters, idx as int, b as int));
                                assert forall|j: int|
                                    0 <= j < idx && j != idx && filter_matches(filters, origin@, j)
                                        implies !takes_precedence(filters, idx as int, j) by {
                                    if j != b {
                                        assert(!takes_precedence(filters, b as int, j));
                                    }
                                };
                            }
                            best = Some(idx);
                        } else {
                            proof {
                                assert(!takes_precedence(filters, b as int, idx as int));
                            }
                        }
                    },
                }
            } else {
                proof {
                    assert(!filter_matches(filters, origin@, idx as int));
                }
            }
            idx += 1;
        }
        match best {
            None => {
                proof {
                    assert(!(exists|i: int| filter_matches(filters, origin@, i)));
                }
                self.default_log_level.to_level_filter()
            },
            Some(b) => {
                proof {
                    assert(selected(filters, origin@, b as int));
                    let ch = choose|i: int| selected(filters, origin@, i);
                    lemma_selected_unique(filters, origin@, ch, b as int);
                }
                self.filters[b].level()
            },
        }
    }

    /// Decides whether a record with the given origin and severity passes the
    /// combined default/filter gate.
    pub fn passes(&self, origin: Option<&str>, level: Level) -> (b: bool)
        ensures
            b == spec_passes(*self, spec_opt_origin(origin), level),
    {
        let threshold = match origin {
            Some(o) => self.effective_threshold(o),
            None => self.default_log_level.to_level_filter(),
        };
        level_passes(threshold, level)
    }

    /// Formats a record with the given timestamp and decides its channel.
    ///
    /// The returned pair is the console channel the record belongs to and the
    /// full text of the log line.
    pub fn receive_at(&self, record: &Record, t: &Timestamp) -> (r: (Channel, String))
        requires
            t.wf(),
        ensures
            r.0 == spec_route(record.level),
            r.1@ == spec_output(*t, record.level, record.spec_origin(), record.message@),
    {
        let text = match &record.origin {
            Some(o) => format_record(t, record.level, Some(o.as_str()), record.message.as_str()),
            None => format_record(t, record.level, None, record.message.as_str()),
        };
        (route(record.level), text)
    }

    /// Formats a record with the current local wall-clock time and decides
    /// its channel.
    ///
    /// Never fails: whatever the clock reports, the record is formatted and
    /// routed.
    pub fn receive(&self, record: &Record) -> (r: (Channel, String))
        ensures
            r.0 == spec_route(record.level),
            exists|t: Timestamp|
                t.wf() && r.1@ == spec_output(t, record.level, record.spec_origin(), record.message@),
    {
        let t = Timestamp::now();
        let r = self.receive_at(record, &t);
        proof {
            assert(t.wf() && r.1@ == spec_output(
                t,
                record.level,
                record.spec_origin(),
                record.message@,
            ));
        }
        r
    }

    /// Does nothing: logging here is unbuffered, each record is written as it
    /// arrives, so there is nothing to flush.
    pub fn flush(&self) {
    }
}

} // verus!
