//! The wall clock.

use vstd::prelude::*;

verus! {

/// The time as `SystemTime::now` reports it, in whole seconds since the
/// Unix epoch; zero where the clock stands before the epoch. Nothing is
/// claimed of the result: two readings may differ in either direction.
#[verifier::external_body]
pub(crate) fn unix_now() -> u64 {
    std::time::SystemTime::now()
        .duration_since(std::time::UNIX_EPOCH)
        .map(|d| d.as_secs())
        .unwrap_or(0)
}

} // verus!
