//! Wall-clock access, taken on trust.

use vstd::prelude::*;

verus! {

/// Milliseconds since the Unix epoch, for timestamping observations and
/// audit rows.
///
/// Relies on `std::time::SystemTime::now` and `duration_since`: the result
/// depends on the wall clock, so nothing can be promised of it; a clock that
/// reads before the epoch yields 0.
#[verifier::external_body]
pub fn now_ms() -> u64 {
    std::time::SystemTime::now()
        .duration_since(std::time::UNIX_EPOCH)
        .unwrap_or_else(|_| std::time::Duration::from_secs(0))
        .as_millis() as u64
}

} // verus!
