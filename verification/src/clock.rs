//! The wall clock, read as whole seconds since the Unix epoch.

use vstd::prelude::*;

verus! {

/// Relies on std::time::SystemTime::now: reads the wall clock and converts
/// it to whole seconds since the Unix epoch. A clock before the epoch reads
/// as zero. Nothing more can be promised of a clock.
#[verifier::external_body]
pub fn now() -> (t: i64)
    ensures
        t >= 0,
{
    match std::time::SystemTime::now().duration_since(std::time::UNIX_EPOCH) {
        Ok(d) => i64::try_from(d.as_secs()).unwrap_or(i64::MAX),
        Err(_) => 0,
    }
}

} // verus!
