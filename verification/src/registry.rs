//! At-most-once registration of the active sink.
//!
//! A process holds exactly one `Registry`, guarded by whatever serialization
//! the host glue provides. The registry moves from unregistered to registered
//! exactly once; every later attempt fails and leaves the active sink
//! untouched.

use vstd::prelude::*;

use crate::error::Error;
use crate::sink::Sink;

verus! {

/// The one-shot cell holding the process-wide active sink.
pub struct Registry {
    /// The registered sink, present once initialization has succeeded.
    pub active: Option<Sink>,
}

impl Registry {
    /// Returns a registry in the unregistered state.
    pub fn new() -> (r: Registry)
        ensures
            r.active is None,
    {
        Registry { active: None }
    }

    /// Whether a sink has been registered.
    pub fn is_initialized(&self) -> (b: bool)
        ensures
            b == (self.active is Some),
    {
        match &self.active {
            Some(_) => true,
            None => false,
        }
    }

    /// Attempts to register `sink` as the active sink.
    ///
    /// The first attempt succeeds and records the sink; every later attempt
    /// returns `Error::AlreadyInitialized` and leaves the previously
    /// registered sink exactly as it was.
    pub fn try_initialize(&mut self, sink: Sink) -> (r: Result<(), Error>)
        ensures
            final(self).active is Some,
            old(self).active is None ==> r is Ok && final(self).active == Some(sink),
            old(self).active is Some ==> r == Err::<(), Error>(Error::AlreadyInitialized)
                && final(self).active == old(self).active,
    {
        match &self.active {
            Some(_) => Err(Error::AlreadyInitialized),
            None => {
                self.active = Some(sink);
                Ok(())
            },
        }
    }
}

} // verus!
