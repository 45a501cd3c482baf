//! Per-module threshold overrides.

use vstd::prelude::*;

use crate::level::LevelFilter;

verus! {

/// A filter applies a custom threshold to one Rust module.
///
/// A `Filter` binds a module-path prefix to a [`LevelFilter`]; records whose
/// origin starts with that prefix are judged against the filter's threshold
/// instead of the default one.
#[derive(Clone, Copy, Debug)]
pub struct Filter {
    module: &'static str,
    level: LevelFilter,
}

impl Filter {
    /// The module-path prefix this filter applies to.
    pub closed spec fn spec_module(self) -> Seq<char> {
        self.module@
    }

    /// The threshold this filter applies.
    pub closed spec fn spec_level(self) -> LevelFilter {
        self.level
    }

    /// Creates a filter binding `module` to `level`.
    ///
    /// The module path must be non-empty: an empty prefix would silently
    /// override the default threshold for every record.
    pub fn new(module: &'static str, level: LevelFilter) -> (f: Self)
        requires
            module@.len() > 0,
        ensures
            f.spec_module() == module@,
            f.spec_level() == level,
    {
        Self { module, level }
    }

    /// Returns the filter's module path.
    pub fn module(&self) -> (m: &'static str)
        ensures
            m@ == self.spec_module(),
    {
        self.module
    }

    /// Returns the filter's threshold.
    pub fn level(&self) -> (l: LevelFilter)
        ensures
            l == self.spec_level(),
    {
        self.level
    }
}

} // verus!
