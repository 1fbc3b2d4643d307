//! The system clock.
use vstd::prelude::*;

verus! {

/// Seconds since the Unix epoch by the system clock (`SystemTime::now`), or `None` when the
/// clock is set before the epoch; nothing is promised of the value.
#[verifier::external_body]
pub(crate) fn unix_now_secs() -> (r: Option<u64>) {
    std::time::SystemTime::now().duration_since(std::time::UNIX_EPOCH).ok().map(|d| d.as_secs())
}

/// Seconds since the Unix epoch, 0 when the clock is set before it.
pub fn now_secs() -> u64 {
    match unix_now_secs() {
        Some(t) => t,
        None => 0,
    }
}

} // verus!
