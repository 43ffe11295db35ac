use vstd::prelude::*;
use crate::address::Address;
use crate::constants::{MAX_ITEMS, MAX_MULTIPLIER};
use crate::enums::MarketStatus;
use crate::errors::ProtocolError;
use crate::market::{lemma_sum_upto_update, Market, Position};
use crate::protocol::Protocol;

verus! {

/// Which precondition of a stake fails, if any, before custody and overflow
/// are looked at. The window is half-open: `[start_ts, end_ts)`. A stake on
/// the native path is refused at once, after the status, when the market is
/// not native.
pub open spec fn stake_error(
    p: Protocol,
    m: Market,
    native: bool,
    now: i64,
    selected_item_index: u8,
    raw_stake: u64,
    effective_stake: u128,
) -> Option<ProtocolError> {
    if p.paused {
        Some(ProtocolError::ProtocolPaused)
    } else if m.status != MarketStatus::Open {
        Some(ProtocolError::InvalidMarketState)
    } else if native && !m.is_native {
        Some(ProtocolError::InvalidStakeAmount)
    } else if now < m.start_ts || now >= m.end_ts {
        Some(ProtocolError::InvalidTimestamp)
    } else if raw_stake == 0 {
        Some(ProtocolError::InvalidStakeAmount)
    } else if selected_item_index >= m.item_count {
        Some(ProtocolError::InvalidItemIndex)
    } else if effective_stake > raw_stake * MAX_MULTIPLIER {
        Some(ProtocolError::EffectiveStakeTooLarge)
    } else if effective_stake == 0 {
        Some(ProtocolError::InvalidStakeAmount)
    } else {
        None
    }
}

/// Whether adding the stake would overflow one of the market's accumulators.
pub open spec fn stake_overflows(m: Market, selected_item_index: u8, raw_stake: u64, effective_stake: u128) -> bool {
    ||| m.total_raw_stake + raw_stake > u64::MAX
    ||| m.total_effective_stake + effective_stake > u128::MAX
    ||| m.effective_stake_per_item[selected_item_index as int] + effective_stake > u128::MAX
}

/// The token-custody accounts belong to `m`: the source and the vault hold
/// the market's asset, and the vault is the market's.
pub open spec fn token_custody_ok(m: Market, source_mint: Address, vault_mint: Address, vault: Address) -> bool {
    &&& !m.is_native
    &&& source_mint == m.token_mint
    &&& vault_mint == m.token_mint
    &&& vault == m.vault
}

/// The native-custody vault belongs to `m`.
pub open spec fn native_custody_ok(m: Market, vault: Address) -> bool {
    vault == m.vault
}

/// The outcome of a stake on `m` along the native path or the token path,
/// given whether its custody accounts belong to it: the new position, or the
/// first failed precondition.
pub open spec fn stake_outcome(
    p: Protocol,
    m: Market,
    native: bool,
    market_key: Address,
    user: Address,
    now: i64,
    selected_item_index: u8,
    raw_stake: u64,
    effective_stake: u128,
    bump: u8,
    custody_ok: bool,
) -> Result<Position, ProtocolError> {
    if stake_error(p, m, native, now, selected_item_index, raw_stake, effective_stake) is Some {
        Err(stake_error(p, m, native, now, selected_item_index, raw_stake, effective_stake).unwrap())
    } else if !custody_ok {
        Err(ProtocolError::InvalidStakeAmount)
    } else if stake_overflows(m, selected_item_index, raw_stake, effective_stake) {
        Err(ProtocolError::MathOverflow)
    } else {
        Ok(
            Position {
                market: market_key,
                user,
                selected_item_index,
                raw_stake,
                effective_stake,
                claimed: false,
                bump,
            },
        )
    }
}

/// `after` is `before` with the stake added: raw total, effective total and
/// the chosen outcome's aggregate grow, nothing else changes.
pub open spec fn staked(
    before: Market,
    after: Market,
    selected_item_index: u8,
    raw_stake: u64,
    effective_stake: u128,
) -> bool {
    &&& after == Market {
        total_raw_stake: (before.total_raw_stake + raw_stake) as u64,
        total_effective_stake: (before.total_effective_stake + effective_stake) as u128,
        effective_stake_per_item: after.effective_stake_per_item,
        ..before
    }
    &&& after.effective_stake_per_item@ == before.effective_stake_per_item@.update(
        selected_item_index as int,
        (before.effective_stake_per_item[selected_item_index as int] + effective_stake) as u128,
    )
}

fn record_stake(
    protocol: &Protocol,
    market: &mut Market,
    native: bool,
    market_key: &Address,
    user: &Address,
    now: i64,
    selected_item_index: u8,
    raw_stake: u64,
    effective_stake: u128,
    bump: u8,
    custody_ok: bool,
) -> (r: Result<Position, ProtocolError>)
    requires
        old(market).wf(),
    ensures
        r == stake_outcome(
            *protocol,
            *old(market),
            native,
            *market_key,
            *user,
            now,
            selected_item_index,
            raw_stake,
            effective_stake,
            bump,
            custody_ok,
        ),
        r is Ok ==> staked(*old(market), *final(market), selected_item_index, raw_stake, effective_stake),
        r is Err ==> *final(market) == *old(market),
        final(market).wf(),
{
    if protocol.paused {
        return Err(ProtocolError::ProtocolPaused);
    }
    if market.status != MarketStatus::Open {
        return Err(ProtocolError::InvalidMarketState);
    }
    if native && !market.is_native {
        return Err(ProtocolError::InvalidStakeAmount);
    }
    if now < market.start_ts || now >= market.end_ts {
        return Err(ProtocolError::InvalidTimestamp);
    }
    if raw_stake == 0 {
        return Err(ProtocolError::InvalidStakeAmount);
    }
    if selected_item_index >= market.item_count {
        return Err(ProtocolError::InvalidItemIndex);
    }
    if effective_stake > raw_stake as u128 * MAX_MULTIPLIER {
        return Err(ProtocolError::EffectiveStakeTooLarge);
    }
    if effective_stake == 0 {
        return Err(ProtocolError::InvalidStakeAmount);
    }
    if !custody_ok {
        return Err(ProtocolError::InvalidStakeAmount);
    }
    let idx = selected_item_index as usize;
    if raw_stake > u64::MAX - market.total_raw_stake {
        return Err(ProtocolError::MathOverflow);
    }
    if effective_stake > u128::MAX - market.total_effective_stake {
        return Err(ProtocolError::MathOverflow);
    }
    if effective_stake > u128::MAX - market.effective_stake_per_item[idx] {
        return Err(ProtocolError::MathOverflow);
    }
    proof {
        lemma_sum_upto_update(
            market.effective_stake_per_item@,
            MAX_ITEMS as nat,
            idx as int,
            (market.effective_stake_per_item[idx as int] + effective_stake) as u128,
        );
    }
    market.total_raw_stake = market.total_raw_stake + raw_stake;
    market.total_effective_stake = market.total_effective_stake + effective_stake;
    market.effective_stake_per_item[idx] = market.effective_stake_per_item[idx] + effective_stake;
    Ok(
        Position {
            market: *market_key,
            user: *user,
            selected_item_index,
            raw_stake,
            effective_stake,
            claimed: false,
            bump,
        },
    )
}

/// Stakes `raw_stake` of a token market's asset on one outcome, weighted as
/// `effective_stake`, and returns the new position. The source account's
/// and the vault's asset must be the market's, and the vault the market's;
/// on success the caller moves `raw_stake` from the source into the vault.
pub fn place_position(
    protocol: &Protocol,
    market: &mut Market,
    market_key: &Address,
    user: &Address,
    source_mint: &Address,
    vault_mint: &Address,
    vault: &Address,
    now: i64,
    selected_item_index: u8,
    raw_stake: u64,
    effective_stake: u128,
    bump: u8,
) -> (r: Result<Position, ProtocolError>)
    requires
        old(market).wf(),
    ensures
        r == stake_outcome(
            *protocol,
            *old(market),
            false,
            *market_key,
            *user,
            now,
            selected_item_index,
            raw_stake,
            effective_stake,
            bump,
            token_custody_ok(*old(market), *source_mint, *vault_mint, *vault),
        ),
        r is Ok ==> staked(*old(market), *final(market), selected_item_index, raw_stake, effective_stake),
        r is Err ==> *final(market) == *old(market),
        final(market).wf(),
{
    let custody_ok = !market.is_native && source_mint.same_as(&market.token_mint)
        && vault_mint.same_as(&market.token_mint) && vault.same_as(&market.vault);
    record_stake(
        protocol,
        market,
        false,
        market_key,
        user,
        now,
        selected_item_index,
        raw_stake,
        effective_stake,
        bump,
        custody_ok,
    )
}

/// Stakes `raw_stake` of the native asset on one outcome of a native
/// market, weighted as `effective_stake`, and returns the new position. A
/// market that is not native is refused right after the status check. The
/// vault must be the market's; on success the caller moves `raw_stake` into
/// it.
pub fn place_position_native(
    protocol: &Protocol,
    market: &mut Market,
    market_key: &Address,
    user: &Address,
    vault: &Address,
    now: i64,
    selected_item_index: u8,
    raw_stake: u64,
    effective_stake: u128,
    bump: u8,
) -> (r: Result<Position, ProtocolError>)
    requires
        old(market).wf(),
    ensures
        r == stake_outcome(
            *protocol,
            *old(market),
            true,
            *market_key,
            *user,
            now,
            selected_item_index,
            raw_stake,
            effective_stake,
            bump,
            native_custody_ok(*old(market), *vault),
        ),
        r is Ok ==> staked(*old(market), *final(market), selected_item_index, raw_stake, effective_stake),
        r is Err ==> *final(market) == *old(market),
        final(market).wf(),
{
    let custody_ok = vault.same_as(&market.vault);
    record_stake(
        protocol,
        market,
        true,
        market_key,
        user,
        now,
        selected_item_index,
        raw_stake,
        effective_stake,
        bump,
        custody_ok,
    )
}

} // verus!
