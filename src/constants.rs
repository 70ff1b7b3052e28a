use vstd::prelude::*;

verus! {

/// Base units in one whole token.
pub const DECIMALS_PER_TOKEN: u64 = 1000000;

/// Smallest principal accepted by `stake` and `top_up` (100 tokens).
pub const STAKE_MINIMUM: u64 = 100 * DECIMALS_PER_TOKEN;

/// Length of one day of lock time, in seconds.
pub const SECONDS_PER_DAY: u64 = 86400;

/// Shortest lock, in days.
pub const DURATION_MIN: u64 = 14;

/// Longest lock, in days.
pub const DURATION_MAX: u64 = 365;

/// Days in the reward year.
pub const DAYS_PER_YEAR: u64 = 365;

/// Slope of the reward line: a full-year lock earns this many times the principal.
pub const REWARD_APR_FACTOR: u64 = 3;

} // verus!
