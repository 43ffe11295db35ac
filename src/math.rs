use vstd::prelude::*;
use crate::constants::BPS_DENOMINATOR;
use crate::constants::MAX_FEE_BPS;
use crate::errors::ProtocolError;

verus! {

/// The protocol's cut of `total`: `floor(total * fee_bps / 10000)`.
pub open spec fn protocol_fee_of(total: u64, fee_bps: u16) -> int {
    (total * fee_bps) / (BPS_DENOMINATOR as int)
}

/// Whether `total * fee_bps` leaves the 64-bit range.
pub open spec fn fee_overflows(total: u64, fee_bps: u16) -> bool {
    total * fee_bps > u64::MAX
}

/// A winner's share of `pool`: `floor(effective_stake * pool / denominator)`.
pub open spec fn payout_of(effective_stake: u128, pool: u64, denominator: u128) -> int {
    (effective_stake * pool) / (denominator as int)
}

/// Whether computing the share of `pool` leaves the 128-bit range of the
/// product or the 64-bit range of the result.
pub open spec fn payout_overflows(effective_stake: u128, pool: u64, denominator: u128) -> bool {
    ||| effective_stake * pool > u128::MAX
    ||| payout_of(effective_stake, pool, denominator) > u64::MAX
}

/// Splits `total` into the protocol fee and the pool left for winners.
pub fn fee_split(total: u64, fee_bps: u16) -> (r: Result<(u64, u64), ProtocolError>)
    requires
        fee_bps <= MAX_FEE_BPS,
    ensures
        match r {
            Ok((fee, pool)) => {
                &&& !fee_overflows(total, fee_bps)
                &&& fee == protocol_fee_of(total, fee_bps)
                &&& fee + pool == total
            },
            Err(e) => fee_overflows(total, fee_bps) && e == ProtocolError::MathOverflow,
        },
{
    let product = match total.checked_mul(fee_bps as u64) {
        Some(v) => v,
        None => return Err(ProtocolError::MathOverflow),
    };
    let fee = product / BPS_DENOMINATOR;
    assert(fee <= total) by (nonlinear_arith)
        requires
            product == total * fee_bps,
            fee == product / 10000,
            fee_bps <= 10000,
    ;
    Ok((fee, total - fee))
}

/// The share of `pool` owed to `effective_stake` out of `denominator`.
pub fn proportional_payout(effective_stake: u128, pool: u64, denominator: u128) -> (r: Result<
    u64,
    ProtocolError,
>)
    requires
        denominator > 0,
    ensures
        match r {
            Ok(v) => !payout_overflows(effective_stake, pool, denominator) && v == payout_of(
                effective_stake,
                pool,
                denominator,
            ),
            Err(e) => payout_overflows(effective_stake, pool, denominator) && e
                == ProtocolError::MathOverflow,
        },
{
    let product = match effective_stake.checked_mul(pool as u128) {
        Some(v) => v,
        None => return Err(ProtocolError::MathOverflow),
    };
    let share = product / denominator;
    if share > u64::MAX as u128 {
        return Err(ProtocolError::MathOverflow);
    }
    Ok(share as u64)
}

} // verus!
