//! Client runtime for a line-delimited JSON-over-socket daemon: a response
//! decoder, a request builder with an exact wire format, and a
//! request/response correlator that waits on a shared broadcast stream.

use vstd::prelude::*;

pub mod clock;
pub mod decode;
pub mod json;
pub mod signald;
pub mod signaldrequest;
pub mod signaldresponse;
pub mod socket;
pub mod wire;

verus! {

/// Milliseconds a waiting call is given before it reports a timeout.
pub const WAIT_TIMEOUT_MS: u64 = 3000;

} // verus!
