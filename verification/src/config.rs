//! The constants that a deployment starts from.

use vstd::prelude::*;

verus! {

/// How many messages the hub keeps for a subscriber that falls behind,
/// before it drops the oldest.
pub const HUB_CAPACITY: usize = 100;

/// Seconds that a completed session stays in the store before a sweep
/// removes it.
pub const RETENTION_SECONDS: u64 = 60;

/// Seconds between two sweeps.
pub const SWEEP_INTERVAL_SECONDS: u64 = 30;

/// Microseconds in a second.
pub const MICROS_PER_SECOND: u64 = 1_000_000;

/// The retention time in microseconds, the unit of the store's timestamps.
pub fn retention_micros() -> (ttl: u64)
    ensures
        ttl == RETENTION_SECONDS * MICROS_PER_SECOND,
{
    RETENTION_SECONDS * MICROS_PER_SECOND
}

/// A sweep comes at least once within the retention time, so an expired
/// session is gone within one interval of its expiry; and the hub keeps at
/// least a hundred messages for a subscriber that falls behind.
pub proof fn law_defaults_meet_their_bounds()
    ensures
        0 < SWEEP_INTERVAL_SECONDS <= RETENTION_SECONDS,
        HUB_CAPACITY >= 100,
{
}

} // verus!
