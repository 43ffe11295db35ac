use vstd::prelude::*;

verus! {

/// Largest number of outcomes a market may have; also the capacity of the
/// per-outcome stake accumulators.
pub const MAX_ITEMS: usize = 10;

/// Largest weight a single unit of raw stake may carry in effective stake.
pub const MAX_MULTIPLIER: u128 = 10;

/// One whole in basis points.
pub const BPS_DENOMINATOR: u64 = 10_000;

/// Highest fee rate the protocol accepts, in basis points.
pub const MAX_FEE_BPS: u16 = 10_000;

} // verus!
