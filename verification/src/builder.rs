//! Configuration of the logger.

use vstd::prelude::*;

use crate::filter::Filter;
use crate::level::{Level, LevelFilter};

verus! {

/// A `Builder` accumulates the logger's configuration: a default threshold and
/// an ordered list of per-module overrides.
///
/// A fresh builder has default level `Warn` and no filters. The setters are
/// pure value updates that return the updated builder for chaining; the
/// builder is eventually consumed to construct the active [`Sink`].
///
/// [`Sink`]: crate::sink::Sink
#[derive(Clone, Debug)]
pub struct Builder {
    /// The threshold applied to records no filter matches.
    pub default_log_level: Level,
    /// The per-module overrides, in insertion order.
    pub filters: Vec<Filter>,
}

impl Builder {
    /// Sets the default log level.
    ///
    /// Records whose origin no filter matches are judged against this level.
    pub fn default_log_level(self, default_log_level: Level) -> (b: Self)
        ensures
            b.default_log_level == default_log_level,
            b.filters@ == self.filters@,
    {
        Self { default_log_level, filters: self.filters }
    }

    /// Appends a filter binding `module` to `level`.
    ///
    /// Filters override the default log level for specific Rust modules. The
    /// list keeps insertion order, and duplicate module prefixes are retained.
    pub fn add_filter(self, module: &'static str, level: LevelFilter) -> (b: Self)
        requires
            module@.len() > 0,
        ensures
            b.default_log_level == self.default_log_level,
            b.filters@.len() == self.filters@.len() + 1,
            b.filters@.subrange(0, self.filters@.len() as int) == self.filters@,
            b.filters@.last().spec_module() == module@,
            b.filters@.last().spec_level() == level,
    {
        let mut filters = self.filters;
        filters.push(Filter::new(module, level));
        proof {
            assert(filters@.subrange(0, self.filters@.len() as int) =~= self.filters@);
        }
        Self { default_log_level: self.default_log_level, filters }
    }
}

impl Default for Builder {
    /// Returns the default configuration: level `Warn`, no filters.
    fn default() -> (b: Self)
        ensures
            b.default_log_level == Level::Warn,
            b.filters@ =~= Seq::<Filter>::empty(),
    {
        Self { default_log_level: Level::Warn, filters: Vec::new() }
    }
}

} // verus!
