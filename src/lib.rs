//! Supervision of a long-running worker process that executes tasks on binary
//! payloads: the line protocol spoken over its standard streams, the
//! shared-memory and file transports that carry payloads, and the request
//! state machine that ties them together with one respawn-and-retry.
use vstd::prelude::*;

pub mod guarantees;
pub mod protocol;
pub mod session;
pub mod text;
pub mod transport;

verus! {

} // verus!
