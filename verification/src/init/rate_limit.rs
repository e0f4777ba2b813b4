//! The rate limits of the endpoints.

use vstd::prelude::*;

verus! {

/// A per-client rate limit: one request of the quota is replenished every
/// `replenish_interval_secs` seconds, and at most `burst_size` requests may
/// come at once.
#[derive(Debug, Clone, Copy, PartialEq, Eq, Structural)]
pub struct RateLimit {
    pub replenish_interval_secs: u64,
    pub burst_size: u32,
}

/// How often, in seconds, the limiters forget clients that have been quiet.
pub const LIMITER_CLEANUP_SECS: u64 = 60;

/// The limit on every route.
pub fn general() -> (r: RateLimit)
    ensures
        r == (RateLimit { replenish_interval_secs: 10, burst_size: 20 }),
{
    RateLimit { replenish_interval_secs: 10, burst_size: 20 }
}

/// The limit on logins.
pub fn auth_login() -> (r: RateLimit)
    ensures
        r == (RateLimit { replenish_interval_secs: 1, burst_size: 5 }),
{
    RateLimit { replenish_interval_secs: 1, burst_size: 5 }
}

/// The limit on registrations.
pub fn auth_register() -> (r: RateLimit)
    ensures
        r == (RateLimit { replenish_interval_secs: 1, burst_size: 5 }),
{
    RateLimit { replenish_interval_secs: 1, burst_size: 5 }
}

} // verus!
