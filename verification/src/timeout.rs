//! The hardened front end's timeout policy: the connection-level (slowloris)
//! defense on header reads and keep-alive, and the global per-request
//! deadline. The front end measures elapsed time and enforces what these
//! decision functions say; a deadline that fires always wins over work that
//! completes late.

use vstd::prelude::*;

use crate::reply::{is_request_timeout_reply, request_timeout_reply, HttpReply};

verus! {

/// Time allowed for one connection to deliver a complete set of request
/// headers, in milliseconds.
pub const HEADER_READ_TIMEOUT_MS: u64 = 1_000;

/// Idle time after which a kept-alive connection is dropped, in milliseconds.
pub const KEEP_ALIVE_TIMEOUT_MS: u64 = 1_000;

/// Interval between keep-alive probes on a live connection, in milliseconds.
pub const KEEP_ALIVE_INTERVAL_MS: u64 = 1_000;

/// Total time allowed for handling one request, engine round-trip included,
/// in milliseconds.
pub const REQUEST_TIMEOUT_MS: u64 = 10_000;

/// The two independent timeout layers of the front end, as policy values.
#[derive(Clone, Copy, Debug, PartialEq, Eq, Structural)]
pub struct TimeoutPolicy {
    /// Bound on reading one request's complete headers.
    pub header_read_timeout_ms: u64,
    /// Bound on a kept-alive connection's idle time.
    pub keep_alive_timeout_ms: u64,
    /// Interval between keep-alive probes.
    pub keep_alive_interval_ms: u64,
    /// Global bound on handling one request.
    pub request_timeout_ms: u64,
}

impl Default for TimeoutPolicy {
    /// The hardened policy this service runs with: one second for headers and
    /// keep-alive, ten seconds for a whole request.
    fn default() -> (p: TimeoutPolicy)
        ensures
            p.header_read_timeout_ms == HEADER_READ_TIMEOUT_MS,
            p.keep_alive_timeout_ms == KEEP_ALIVE_TIMEOUT_MS,
            p.keep_alive_interval_ms == KEEP_ALIVE_INTERVAL_MS,
            p.request_timeout_ms == REQUEST_TIMEOUT_MS,
    {
        TimeoutPolicy {
            header_read_timeout_ms: HEADER_READ_TIMEOUT_MS,
            keep_alive_timeout_ms: KEEP_ALIVE_TIMEOUT_MS,
            keep_alive_interval_ms: KEEP_ALIVE_INTERVAL_MS,
            request_timeout_ms: REQUEST_TIMEOUT_MS,
        }
    }
}

/// What the slowloris defense does with a connection whose header read has
/// been running for a while.
#[derive(Clone, Copy, Debug, PartialEq, Eq, Structural)]
pub enum HeaderReadVerdict {
    /// Drop the connection server-side; no response is generated for it.
    CloseWithoutResponse,
    /// The headers are complete: dispatch the request.
    Proceed,
    /// Still within budget: keep reading.
    KeepWaiting,
}

/// The slowloris decision: a connection that has not delivered complete
/// headers within the budget is closed without a response; complete headers
/// proceed; otherwise the read goes on.
pub fn header_read_verdict(policy: &TimeoutPolicy, elapsed_ms: u64, headers_complete: bool) -> (v:
    HeaderReadVerdict)
    ensures
        v is CloseWithoutResponse <==> !headers_complete && elapsed_ms
            > policy.header_read_timeout_ms,
        v is Proceed <==> headers_complete,
        v is KeepWaiting <==> !headers_complete && elapsed_ms <= policy.header_read_timeout_ms,
{
    if headers_complete {
        HeaderReadVerdict::Proceed
    } else if elapsed_ms > policy.header_read_timeout_ms {
        HeaderReadVerdict::CloseWithoutResponse
    } else {
        HeaderReadVerdict::KeepWaiting
    }
}

/// The keep-alive decision: a kept-alive connection that has been idle longer
/// than the budget is dropped.
pub fn keep_alive_expired(policy: &TimeoutPolicy, idle_ms: u64) -> (drop: bool)
    ensures
        drop <==> idle_ms > policy.keep_alive_timeout_ms,
{
    idle_ms > policy.keep_alive_timeout_ms
}

/// The end of one request under the global deadline. Past the deadline the
/// answer is the 408 reply, even when the handler's own reply arrived — a
/// late success is a no-op from the client's perspective; within the deadline
/// the handler's reply (which then exists) is returned unchanged.
pub fn finish_request(policy: &TimeoutPolicy, elapsed_ms: u64, handler_reply: Option<HttpReply>) -> (r:
    HttpReply)
    requires
        elapsed_ms <= policy.request_timeout_ms ==> handler_reply is Some,
    ensures
        elapsed_ms > policy.request_timeout_ms ==> is_request_timeout_reply(r),
        elapsed_ms <= policy.request_timeout_ms ==> r == handler_reply->0,
{
    if elapsed_ms > policy.request_timeout_ms {
        request_timeout_reply()
    } else {
        match handler_reply {
            Some(reply) => reply,
            None => request_timeout_reply(),
        }
    }
}

} // verus!
