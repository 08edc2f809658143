//! The wall clock.

use vstd::prelude::*;

verus! {

/// `SystemTime::now()` as whole seconds since the Unix epoch (0 for a clock
/// set before the epoch). What it returns depends on the clock; nothing is
/// stated of it.
#[verifier::external_body]
pub(crate) fn now_unix_seconds() -> (r: u64) {
    match std::time::SystemTime::now().duration_since(std::time::UNIX_EPOCH) {
        Ok(d) => d.as_secs(),
        Err(_) => 0,
    }
}

/// The current time in whole seconds since the Unix epoch, as a signed
/// timestamp: the wall clock's reading, cut to what an `i64` holds.
pub(crate) fn now_timestamp() -> (r: i64)
    ensures
        r >= 0,
{
    let secs = now_unix_seconds();
    if secs > i64::MAX as u64 {
        i64::MAX
    } else {
        secs as i64
    }
}

} // verus!
