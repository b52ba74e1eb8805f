//! The listener abstraction: the capability surface a dispatcher relies on
//! (cooperative stop, advisory update-kind hint, timeout hint) and the fetch
//! collaborator the polling implementation is driven by. Long/short polling
//! is one implementation of the listener surface; a push-based listener
//! could stand behind the same trait without touching its consumers.

use vstd::prelude::*;

use crate::polling::PollingEngine;
use crate::types::{AllowedUpdate, FetchError, FetchRequest, Update};

verus! {

/// An update listener, as a dispatcher sees one.
pub trait UpdateListener {
    /// Requests a cooperative stop. The effect is not immediate: updates
    /// already fetched but not yet handed out are still delivered, and the
    /// consumer confirms the stop by observing the end of the sequence.
    /// Requesting a stop more than once has the effect of requesting it
    /// once.
    fn stop(&mut self);

    /// Hints which kinds of updates the listener should ask for. Advisory:
    /// a listener may ignore it, and consumers must not rely on it for
    /// correctness.
    fn hint_allowed_updates(&mut self, hint: Vec<AllowedUpdate>) {
        let _ = hint;
    }

    /// How often, in seconds, a caller should expect a response from the
    /// listener, so that shutdown checks can be scheduled; `None` when no
    /// such period applies (for example for a push-based listener).
    fn timeout_hint(&self) -> Option<u64> {
        Option::None
    }
}

/// The fetch collaborator: one network round trip returning the next batch
/// of updates at or after the cursor, or a failure it has itself classified
/// as recoverable or fatal. Injected into the engine by the embedding;
/// nothing is assumed about its behaviour — the engine is verified against
/// every outcome it may return.
pub trait Fetcher {
    /// Performs one fetch with the given parameters and advisory filter.
    fn fetch(&mut self, request: FetchRequest, allowed: &Option<Vec<AllowedUpdate>>) -> Result<
        Vec<Update>,
        FetchError,
    >;
}

impl UpdateListener for PollingEngine {
    fn stop(&mut self) {
        self.request_stop();
    }

    fn hint_allowed_updates(&mut self, hint: Vec<AllowedUpdate>) {
        self.set_allowed_updates(hint);
    }

    fn timeout_hint(&self) -> Option<u64> {
        Option::Some(self.config.timeout_secs)
    }
}

} // verus!
