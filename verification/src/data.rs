//! The clock: millisecond timestamps for user bookkeeping.

use vstd::prelude::*;

verus! {

/// Relies on `std::time::SystemTime::now` and
/// `SystemTime::duration_since(UNIX_EPOCH)`: the milliseconds elapsed since
/// the Unix epoch, read from the machine's clock, or nothing where the
/// clock reads before the epoch.  The value depends on the clock alone, so
/// nothing is promised of it.
#[verifier::external_body]
fn epoch_millis() -> Option<i64> {
    match std::time::SystemTime::now().duration_since(std::time::UNIX_EPOCH) {
        Ok(elapsed) => Some(elapsed.as_millis() as i64),
        Err(_) => None,
    }
}

/// The current time in milliseconds since the Unix epoch, clamped to zero so
/// that every timestamp the store holds is non-negative.
pub fn current_timestamp() -> (r: i64)
    ensures
        r >= 0,
{
    match epoch_millis() {
        Some(t) => if t < 0 {
            0
        } else {
            t
        },
        None => 0,
    }
}

} // verus!
