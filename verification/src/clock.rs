//! The wall clock, read through `chrono`.

use vstd::prelude::*;

verus! {

/// Calls `chrono::Local::now` and `DateTime::timestamp` on what it returns:
/// the seconds since the Unix epoch on the machine's clock. Trusted, and
/// nothing is claimed of the number: a clock may be set to any time, and may
/// be set back between two readings. `chrono` stops the process where the
/// clock stands before the epoch.
#[verifier::external_body]
pub(crate) fn unix_seconds_now() -> i64 {
    chrono::Local::now().timestamp()
}

} // verus!
