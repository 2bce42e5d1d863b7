//! The fetcher's decision logic: turning what an HTTP exchange produced
//! into either the tick's payload or a `FetchError`.
//!
//! The surrounding process performs the request itself and hands in the
//! response status together with the result of reading the body (or builds
//! a `FetchError::Network` directly when no response arrived at all).

use vstd::prelude::*;

use crate::errors::FetchError;

verus! {

/// The HTTP success range: `200..=299`.
pub open spec fn status_in_success_range(status: u16) -> bool {
    200 <= status < 300
}

/// Whether an HTTP status lies in the success range.
pub fn status_is_success(status: u16) -> (r: bool)
    ensures
        r == status_in_success_range(status),
{
    200 <= status && status < 300
}

/// Decide a tick's fetch result from the response status and the attempt to
/// read the response body. A non-success status fails the fetch whatever the
/// body read yielded; on a success status a body read failure fails the
/// fetch; otherwise the body bytes become the tick's payload.
pub fn fetch_result(status: u16, body: Result<Vec<u8>, String>) -> (r: Result<
    Vec<u8>,
    FetchError,
>)
    ensures
        !status_in_success_range(status) ==> (r matches Err(e) && e matches
            FetchError::HttpStatus { status: st } && st == status),
        status_in_success_range(status) && body is Ok ==> (r matches Ok(p) && body matches Ok(b)
            && p == b),
        status_in_success_range(status) && body is Err ==> (r matches Err(e) && e matches
            FetchError::BodyRead { detail } && body matches Err(d) && detail == d),
{
    if !status_is_success(status) {
        Err(FetchError::HttpStatus { status })
    } else {
        match body {
            Ok(bytes) => Ok(bytes),
            Err(detail) => Err(FetchError::BodyRead { detail }),
        }
    }
}

} // verus!
