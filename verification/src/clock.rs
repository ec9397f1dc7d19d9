//! The wall clock, and how the age of a record is measured against it.

use chrono::Utc;
use vstd::prelude::*;

verus! {

/// Milliseconds in one minute.
pub const MILLIS_PER_MINUTE: i64 = 60_000;

/// A record created at `created` has expired at `now`, both in
/// milliseconds since the Unix epoch, once its age exceeds the window: at
/// exactly the window it is still valid, a millisecond later it is not.
pub open spec fn expired_at(created: int, now: int, window_minutes: int) -> bool {
    now - created > window_minutes * MILLIS_PER_MINUTE
}

/// `Utc::now` of the `chrono` crate, read through `timestamp_millis`: the
/// current time in milliseconds since the Unix epoch. Nothing is promised
/// of the value.
#[verifier::external_body]
pub(crate) fn now_millis() -> i64 {
    Utc::now().timestamp_millis()
}

/// Decides `expired_at` on machine integers.
pub fn is_expired_between(created: i64, now: i64, window_minutes: u32) -> (expired: bool)
    ensures
        expired == expired_at(created as int, now as int, window_minutes as int),
{
    let elapsed: i128 = now as i128 - created as i128;
    assert(window_minutes * 60_000 <= u32::MAX * 60_000) by (nonlinear_arith)
        requires
            window_minutes <= u32::MAX,
    ;
    let window: i128 = window_minutes as i128 * (MILLIS_PER_MINUTE as i128);
    elapsed > window
}

/// A record is expired if and only if its age exceeds the window. A record
/// that is not expired at some instant was not expired at any earlier one,
/// and one that is expired stays so.
pub proof fn lemma_expiry_threshold(created: int, now: int, later: int, window_minutes: int)
    requires
        now <= later,
    ensures
        expired_at(created, now, window_minutes) <==> now - created > window_minutes
            * MILLIS_PER_MINUTE,
        expired_at(created, now, window_minutes) ==> expired_at(created, later, window_minutes),
{
}

/// At exactly the window a record is still valid; one millisecond past the
/// window it has expired.
pub proof fn lemma_expiry_boundary(created: int, window_minutes: int)
    ensures
        !expired_at(created, created + window_minutes * MILLIS_PER_MINUTE, window_minutes),
        expired_at(created, created + window_minutes * MILLIS_PER_MINUTE + 1, window_minutes),
{
}

} // verus!
