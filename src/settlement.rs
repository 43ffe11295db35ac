use vstd::prelude::*;
use crate::address::Address;
use crate::enums::MarketStatus;
use crate::errors::ProtocolError;
use crate::market::{Market, Position};
use crate::math::{fee_overflows, fee_split, payout_of, payout_overflows, proportional_payout, protocol_fee_of};
use crate::protocol::Protocol;

verus! {

/// The outcome of settling `m` on `winning_item_index`, given whether the
/// custody accounts belong to it: the settled market, or the first failed
/// precondition. The fee is `floor(total_raw_stake * fee_bps / 10000)` and
/// the pool is the rest of the raw stake.
pub open spec fn settle_spec(
    p: Protocol,
    m: Market,
    caller: Address,
    winning_item_index: u8,
    custody_ok: bool,
) -> Result<Market, ProtocolError> {
    if caller != p.admin_authority {
        Err(ProtocolError::Unauthorized)
    } else if p.paused {
        Err(ProtocolError::ProtocolPaused)
    } else if m.status != MarketStatus::Closed {
        Err(ProtocolError::InvalidMarketState)
    } else if m.total_raw_stake == 0 {
        Err(ProtocolError::InvalidStakeAmount)
    } else if winning_item_index >= m.item_count {
        Err(ProtocolError::InvalidItemIndex)
    } else if !custody_ok {
        Err(ProtocolError::InvalidStakeAmount)
    } else if fee_overflows(m.total_raw_stake, p.protocol_fee_bps) {
        Err(ProtocolError::MathOverflow)
    } else {
        Ok(
            Market {
                status: MarketStatus::Settled,
                winning_item_index,
                protocol_fee_amount: protocol_fee_of(m.total_raw_stake, p.protocol_fee_bps) as u64,
                distributable_pool: (m.total_raw_stake - protocol_fee_of(
                    m.total_raw_stake,
                    p.protocol_fee_bps,
                )) as u64,
                ..m
            },
        )
    }
}

/// The token-custody accounts of a settlement: the market's vault, and a
/// treasury account of the market's asset owned by the protocol's treasury.
pub open spec fn token_settle_custody_ok(
    p: Protocol,
    m: Market,
    vault: Address,
    treasury_mint: Address,
    treasury_owner: Address,
) -> bool {
    &&& !m.is_native
    &&& vault == m.vault
    &&& treasury_mint == m.token_mint
    &&& treasury_owner == p.treasury
}

/// The native-custody accounts of a settlement: the market's vault and the
/// protocol's treasury.
pub open spec fn native_settle_custody_ok(p: Protocol, m: Market, vault: Address, treasury: Address) -> bool {
    &&& m.is_native
    &&& vault == m.vault
    &&& treasury == p.treasury
}

/// The denominator of every payout of `m`: the aggregated effective stake on
/// the winning outcome. Both custody paths share it, so stake on losing
/// outcomes never dilutes a winner's share.
pub open spec fn winning_denominator(m: Market) -> u128 {
    m.effective_stake_per_item[m.winning_item_index as int]
}

/// The outcome of claiming position `pos` of `m`, given whether the custody
/// accounts belong to the market: the payout, or the first failed
/// precondition.
pub open spec fn claim_spec(
    m: Market,
    pos: Position,
    market_key: Address,
    caller: Address,
    custody_ok: bool,
) -> Result<u64, ProtocolError> {
    if pos.market != market_key || pos.user != caller {
        Err(ProtocolError::Unauthorized)
    } else if m.status != MarketStatus::Settled {
        Err(ProtocolError::InvalidMarketState)
    } else if pos.claimed {
        Err(ProtocolError::AlreadyClaimed)
    } else if pos.selected_item_index != m.winning_item_index {
        Err(ProtocolError::InvalidMarketState)
    } else if winning_denominator(m) == 0 {
        Err(ProtocolError::InvalidStakeAmount)
    } else if !custody_ok {
        Err(ProtocolError::InvalidStakeAmount)
    } else if payout_overflows(pos.effective_stake, m.distributable_pool, winning_denominator(m)) {
        Err(ProtocolError::MathOverflow)
    } else {
        Ok(payout_of(pos.effective_stake, m.distributable_pool, winning_denominator(m)) as u64)
    }
}

/// `pos` with its claim flag set.
pub open spec fn marked_claimed(pos: Position) -> Position {
    Position { claimed: true, ..pos }
}

fn settle(
    protocol: &Protocol,
    market: &mut Market,
    caller: &Address,
    winning_item_index: u8,
    custody_ok: bool,
) -> (r: Result<u64, ProtocolError>)
    requires
        protocol.wf(),
        old(market).wf(),
    ensures
        match settle_spec(*protocol, *old(market), *caller, winning_item_index, custody_ok) {
            Ok(m) => r == Ok::<u64, ProtocolError>(m.protocol_fee_amount) && *final(market) == m,
            Err(e) => r == Err::<u64, ProtocolError>(e) && *final(market) == *old(market),
        },
        final(market).wf(),
{
    if !caller.same_as(&protocol.admin_authority) {
        return Err(ProtocolError::Unauthorized);
    }
    if protocol.paused {
        return Err(ProtocolError::ProtocolPaused);
    }
    if market.status != MarketStatus::Closed {
        return Err(ProtocolError::InvalidMarketState);
    }
    if market.total_raw_stake == 0 {
        return Err(ProtocolError::InvalidStakeAmount);
    }
    if winning_item_index >= market.item_count {
        return Err(ProtocolError::InvalidItemIndex);
    }
    if !custody_ok {
        return Err(ProtocolError::InvalidStakeAmount);
    }
    let (fee, pool) = fee_split(market.total_raw_stake, protocol.protocol_fee_bps)?;
    market.protocol_fee_amount = fee;
    market.distributable_pool = pool;
    market.winning_item_index = winning_item_index;
    market.status = MarketStatus::Settled;
    Ok(fee)
}

/// Settles a closed token market on `winning_item_index`: records the
/// protocol fee and the distributable pool and moves the market to
/// `Settled`. Returns the fee, which the caller moves from the vault to the
/// treasury account when it is not zero.
pub fn settle_market(
    protocol: &Protocol,
    market: &mut Market,
    caller: &Address,
    vault: &Address,
    treasury_mint: &Address,
    treasury_owner: &Address,
    winning_item_index: u8,
) -> (r: Result<u64, ProtocolError>)
    requires
        protocol.wf(),
        old(market).wf(),
    ensures
        match settle_spec(
            *protocol,
            *old(market),
            *caller,
            winning_item_index,
            token_settle_custody_ok(*protocol, *old(market), *vault, *treasury_mint, *treasury_owner),
        ) {
            Ok(m) => r == Ok::<u64, ProtocolError>(m.protocol_fee_amount) && *final(market) == m,
            Err(e) => r == Err::<u64, ProtocolError>(e) && *final(market) == *old(market),
        },
        final(market).wf(),
{
    let custody_ok = !market.is_native && vault.same_as(&market.vault) && treasury_mint.same_as(
        &market.token_mint,
    ) && treasury_owner.same_as(&protocol.treasury);
    settle(protocol, market, caller, winning_item_index, custody_ok)
}

/// Settles a closed native market on `winning_item_index`, as
/// `settle_market` does; the caller moves the returned fee from the vault
/// to the treasury when it is not zero.
pub fn settle_market_native(
    protocol: &Protocol,
    market: &mut Market,
    caller: &Address,
    vault: &Address,
    treasury: &Address,
    winning_item_index: u8,
) -> (r: Result<u64, ProtocolError>)
    requires
        protocol.wf(),
        old(market).wf(),
    ensures
        match settle_spec(
            *protocol,
            *old(market),
            *caller,
            winning_item_index,
            native_settle_custody_ok(*protocol, *old(market), *vault, *treasury),
        ) {
            Ok(m) => r == Ok::<u64, ProtocolError>(m.protocol_fee_amount) && *final(market) == m,
            Err(e) => r == Err::<u64, ProtocolError>(e) && *final(market) == *old(market),
        },
        final(market).wf(),
{
    let custody_ok = market.is_native && vault.same_as(&market.vault) && treasury.same_as(
        &protocol.treasury,
    );
    settle(protocol, market, caller, winning_item_index, custody_ok)
}

fn claim(
    market: &Market,
    position: &mut Position,
    market_key: &Address,
    caller: &Address,
    custody_ok: bool,
) -> (r: Result<u64, ProtocolError>)
    requires
        market.wf(),
    ensures
        r == claim_spec(*market, *old(position), *market_key, *caller, custody_ok),
        *final(position) == if r is Ok {
            marked_claimed(*old(position))
        } else {
            *old(position)
        },
{
    if !position.market.same_as(market_key) || !position.user.same_as(caller) {
        return Err(ProtocolError::Unauthorized);
    }
    if market.status != MarketStatus::Settled {
        return Err(ProtocolError::InvalidMarketState);
    }
    if position.claimed {
        return Err(ProtocolError::AlreadyClaimed);
    }
    if position.selected_item_index != market.winning_item_index {
        return Err(ProtocolError::InvalidMarketState);
    }
    let denominator = market.effective_stake_per_item[market.winning_item_index as usize];
    if denominator == 0 {
        return Err(ProtocolError::InvalidStakeAmount);
    }
    if !custody_ok {
        return Err(ProtocolError::InvalidStakeAmount);
    }
    let payout = proportional_payout(position.effective_stake, market.distributable_pool, denominator)?;
    // The flag is set before the caller moves any value, so that a repeated
    // or re-entered claim finds it set and is refused.
    position.claimed = true;
    Ok(payout)
}

/// Pays out a winning position of a settled token market: marks it claimed
/// and returns `floor(effective_stake * distributable_pool / winning
/// aggregate)`, which the caller then moves from the vault to the claimant's
/// account when it is not zero. The claimant's account must hold the
/// market's asset and the vault must be the market's.
pub fn claim_payout(
    market: &Market,
    position: &mut Position,
    market_key: &Address,
    caller: &Address,
    vault: &Address,
    destination_mint: &Address,
) -> (r: Result<u64, ProtocolError>)
    requires
        market.wf(),
    ensures
        r == claim_spec(
            *market,
            *old(position),
            *market_key,
            *caller,
            !market.is_native && *vault == market.vault && *destination_mint == market.token_mint,
        ),
        *final(position) == if r is Ok {
            marked_claimed(*old(position))
        } else {
            *old(position)
        },
{
    let custody_ok = !market.is_native && vault.same_as(&market.vault) && destination_mint.same_as(
        &market.token_mint,
    );
    claim(market, position, market_key, caller, custody_ok)
}

/// Pays out a winning position of a settled native market, as
/// `claim_payout` does: the payout is the position's share of the pool by
/// the winning outcome's aggregate, and losing positions are refused.
pub fn claim_payout_native(
    market: &Market,
    position: &mut Position,
    market_key: &Address,
    caller: &Address,
    vault: &Address,
) -> (r: Result<u64, ProtocolError>)
    requires
        market.wf(),
    ensures
        r == claim_spec(*market, *old(position), *market_key, *caller, market.is_native && *vault == market.vault),
        *final(position) == if r is Ok {
            marked_claimed(*old(position))
        } else {
            *old(position)
        },
{
    let custody_ok = market.is_native && vault.same_as(&market.vault);
    claim(market, position, market_key, caller, custody_ok)
}

} // verus!
