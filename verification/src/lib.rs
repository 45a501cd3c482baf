//! A logger for the Godot game engine.
//!
//! Log records carry a severity level and an originating module path. The
//! library resolves a per-record threshold from a default level plus a list of
//! per-module overrides, formats passing records with a timestamp, and decides
//! which of the host console's two channels (warning or standard) receives the
//! text. The host-facing glue registers the sink once per process.

use vstd::prelude::*;

pub mod builder;
pub mod error;
pub mod filter;
pub mod level;
pub mod registry;
pub mod sink;
pub mod time;

pub use builder::Builder;
pub use error::Error;
pub use filter::Filter;
pub use level::Level;
pub use level::LevelFilter;
pub use registry::Registry;
pub use sink::Channel;
pub use sink::Record;
pub use sink::Sink;
pub use time::Timestamp;

verus! {

/// A logger that prints to the output console of the Godot game engine.
///
/// Configuration happens through the crate's [`Builder`], obtained from
/// [`GodotLogger::builder`].
///
/// [`Builder`]: crate::builder::Builder
pub struct GodotLogger;

impl GodotLogger {
    /// Returns a [`Builder`] holding the default configuration.
    ///
    /// [`Builder`]: crate::builder::Builder
    pub fn builder() -> (b: crate::builder::Builder)
        ensures
            b.default_log_level == crate::level::Level::Warn,
            b.filters@ =~= Seq::<crate::filter::Filter>::empty(),
    {
        crate::builder::Builder::default()
    }
}

} // verus!
