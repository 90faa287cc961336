//! What the health monitor is told.

use vstd::prelude::*;

verus! {

/// Something that happened to a session.
#[derive(Debug)]
pub enum HealthEvent {
    /// The session was closed.
    SessionClosed { reason: String },
    /// The session turned out to be gone.
    SessionInvalidated { reason: String },
    /// An input event could not be injected.
    InputFailed { reason: String, permanent: bool },
}

} // verus!
