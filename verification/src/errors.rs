//! Error taxonomy of the relay and the per-tick outcome record.
//!
//! The first three error kinds are contained at the tick boundary: they are
//! logged and discarded, and never terminate the loop. Only
//! `FatalSchedulerError` — a broken timer primitive — may end the process.

use vstd::prelude::*;

verus! {

/// Why a tick's HTTP fetch failed.
#[derive(Debug)]
pub enum FetchError {
    /// The request could not be sent, or the connection failed.
    Network { detail: String },
    /// The server answered with a status outside the success range.
    HttpStatus { status: u16 },
    /// The response body could not be read in full.
    BodyRead { detail: String },
}

/// Why a tick's write of the payload to the destination file failed.
#[derive(Debug)]
pub struct PersistError {
    /// The underlying filesystem failure (permission, disk full, bad path).
    pub detail: String,
}

/// Why a tick's hand-off of the payload to the broker failed.
#[derive(Debug)]
pub enum PublishError {
    /// The payload could not be placed on the client's send queue.
    Enqueue { detail: String },
    /// The broker rejected the message.
    Rejected { detail: String },
    /// No acknowledgement arrived within the delivery timeout.
    AckTimeout { timeout_ms: u64 },
}

/// A broken scheduling primitive: the only error that may end the process.
#[derive(Debug)]
pub struct FatalSchedulerError {
    pub detail: String,
}

/// The per-tick result record: success or failure of each of the tick's
/// three steps. `None` for persist or publish means the step was never
/// attempted, which happens exactly when the fetch failed. The record is
/// used for logging only and is discarded after the tick.
#[derive(Debug)]
pub struct TickOutcome {
    pub fetch: Result<(), FetchError>,
    pub persist: Option<Result<(), PersistError>>,
    pub publish: Option<Result<(), PublishError>>,
}

impl TickOutcome {
    /// Well-formedness: persist and publish were each attempted if and only
    /// if the fetch succeeded — the two sinks depend only on having a
    /// payload, never on each other.
    pub open spec fn wf(self) -> bool {
        &&& self.fetch is Ok <==> self.persist is Some
        &&& self.fetch is Ok <==> self.publish is Some
    }

    /// Every step of the tick was attempted and succeeded.
    pub open spec fn all_ok(self) -> bool {
        &&& self.fetch is Ok
        &&& self.persist matches Some(p) && p is Ok
        &&& self.publish matches Some(p) && p is Ok
    }

    /// Whether the tick should be reported as fully successful.
    pub fn is_all_ok(&self) -> (r: bool)
        ensures
            r == self.all_ok(),
    {
        match (&self.fetch, &self.persist, &self.publish) {
            (Result::Ok(()), Option::Some(Result::Ok(())), Option::Some(Result::Ok(()))) => true,
            _ => false,
        }
    }
}

} // verus!
