//! Wall-clock timestamps, used only as an opaque marker value.

use vstd::prelude::*;
use std::time::SystemTime;
use std::time::UNIX_EPOCH;

verus! {

/// Relies on `std::time::SystemTime::now` and
/// `SystemTime::duration_since(UNIX_EPOCH)`: nanoseconds of the system clock
/// since the Unix epoch, or zero on a clock set before the epoch. The clock
/// is outside the verified world, so nothing is promised of the value.
#[verifier::external_body]
fn clock_nanos() -> u128 {
    match SystemTime::now().duration_since(UNIX_EPOCH) {
        Ok(d) => d.as_nanos(),
        Err(_) => 0,
    }
}

/// The current wall-clock time in nanoseconds since the Unix epoch. The
/// value is an opaque marker: nothing may depend on it.
pub fn get_timestamp() -> u128 {
    clock_nanos()
}

} // verus!
