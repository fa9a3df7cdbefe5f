use vstd::prelude::*;

verus! {

/// Fixed-point scale for prices, reserves and position amounts (1e9).
pub const PRECISION: u128 = 1_000_000_000;

/// Fixed-point scale for collateral balances (1e6).
pub const COLLATERAL_PRECISION: u64 = 1_000_000;

/// Factor between the price scale and the collateral scale
/// (PRECISION / COLLATERAL_PRECISION).
pub const PRECISION_RATIO: u128 = 1_000;

/// Denominator of every rate-scaled quantity: fee rates and margin ratios are
/// expressed in millionths.
pub const RATE_DENOMINATOR: u128 = 1_000_000;

/// Number of position slots per account.
pub const MAX_POSITIONS: usize = 8;

/// How old an oracle observation may be, in seconds.
pub const ORACLE_STALENESS_THRESHOLD: i64 = 60;

/// Length of one funding period, in seconds.
pub const FUNDING_PERIOD: i64 = 3600;

/// Hourly-to-daily amortization divisor of the funding premium.
pub const FUNDING_RATE_DIVISOR: i128 = 24;

} // verus!
