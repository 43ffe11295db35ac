use vstd::prelude::*;
use vstd::array::spec_array_fill_for_copy_type;
use crate::address::Address;
use crate::constants::MAX_ITEMS;
use crate::enums::MarketStatus;
use crate::errors::ProtocolError;
use crate::market::{lemma_sum_zero, Market};
use crate::protocol::Protocol;

verus! {

/// The address the host ledger gives its native-asset system program, which
/// a native market records as its asset.
pub open spec fn native_mint() -> Address {
    Address { bytes: spec_array_fill_for_copy_type::<u8, 32>(0u8) }
}

/// What is wrong with a staking window and outcome count, if anything.
pub open spec fn schedule_error(start_ts: i64, end_ts: i64, item_count: u8) -> Option<ProtocolError> {
    if end_ts <= start_ts {
        Some(ProtocolError::InvalidTimestamp)
    } else if item_count <= 1 || item_count > MAX_ITEMS {
        Some(ProtocolError::InvalidItemIndex)
    } else {
        None
    }
}

/// The outcome of creating a market under `p`: the new market in `Draft`,
/// numbered by the protocol's counter, with every aggregate at zero.
pub open spec fn create_spec(
    p: Protocol,
    caller: Address,
    start_ts: i64,
    end_ts: i64,
    items_hash: [u8; 32],
    item_count: u8,
    token_mint: Address,
    vault: Address,
    bump: u8,
    is_native: bool,
) -> Result<Market, ProtocolError> {
    if caller != p.admin_authority {
        Err(ProtocolError::Unauthorized)
    } else if p.paused {
        Err(ProtocolError::ProtocolPaused)
    } else if schedule_error(start_ts, end_ts, item_count) is Some {
        Err(schedule_error(start_ts, end_ts, item_count).unwrap())
    } else if p.market_count == u64::MAX {
        Err(ProtocolError::MathOverflow)
    } else {
        Ok(
            Market {
                market_id: p.market_count,
                items_hash,
                item_count,
                start_ts,
                end_ts,
                status: MarketStatus::Draft,
                total_raw_stake: 0,
                total_effective_stake: 0,
                effective_stake_per_item: spec_array_fill_for_copy_type::<u128, MAX_ITEMS>(0u128),
                winning_item_index: 0,
                protocol_fee_amount: 0,
                distributable_pool: 0,
                token_mint,
                vault,
                bump,
                is_native,
            },
        )
    }
}

/// The protocol after a market was created under it.
pub open spec fn counted(p: Protocol) -> Protocol {
    Protocol { market_count: (p.market_count + 1) as u64, ..p }
}

/// The outcome of editing `m`: only a `Draft` market with no stake changes,
/// and only its window, outcome commitment and outcome count.
pub open spec fn edit_spec(
    p: Protocol,
    m: Market,
    caller: Address,
    start_ts: i64,
    end_ts: i64,
    items_hash: [u8; 32],
    item_count: u8,
) -> Result<Market, ProtocolError> {
    if caller != p.admin_authority {
        Err(ProtocolError::Unauthorized)
    } else if p.paused {
        Err(ProtocolError::ProtocolPaused)
    } else if m.status != MarketStatus::Draft || m.total_raw_stake != 0 {
        Err(ProtocolError::InvalidMarketState)
    } else if schedule_error(start_ts, end_ts, item_count) is Some {
        Err(schedule_error(start_ts, end_ts, item_count).unwrap())
    } else {
        Ok(Market { start_ts, end_ts, items_hash, item_count, ..m })
    }
}

/// The outcome of opening `m` at time `now`.
pub open spec fn open_spec(p: Protocol, m: Market, caller: Address, now: i64) -> Result<
    Market,
    ProtocolError,
> {
    if caller != p.admin_authority {
        Err(ProtocolError::Unauthorized)
    } else if p.paused {
        Err(ProtocolError::ProtocolPaused)
    } else if m.status != MarketStatus::Draft {
        Err(ProtocolError::InvalidMarketState)
    } else if now < m.start_ts {
        Err(ProtocolError::InvalidTimestamp)
    } else {
        Ok(Market { status: MarketStatus::Open, ..m })
    }
}

/// The outcome of closing `m` at time `now`.
pub open spec fn close_spec(p: Protocol, m: Market, now: i64) -> Result<Market, ProtocolError> {
    if p.paused {
        Err(ProtocolError::ProtocolPaused)
    } else if m.status != MarketStatus::Open {
        Err(ProtocolError::InvalidMarketState)
    } else if now < m.end_ts {
        Err(ProtocolError::InvalidTimestamp)
    } else {
        Ok(Market { status: MarketStatus::Closed, ..m })
    }
}

fn check_schedule(start_ts: i64, end_ts: i64, item_count: u8) -> (r: Result<(), ProtocolError>)
    ensures
        match schedule_error(start_ts, end_ts, item_count) {
            Some(e) => r == Err::<(), ProtocolError>(e),
            None => r is Ok,
        },
{
    if end_ts <= start_ts {
        return Err(ProtocolError::InvalidTimestamp);
    }
    if item_count <= 1 || item_count as usize > MAX_ITEMS {
        return Err(ProtocolError::InvalidItemIndex);
    }
    Ok(())
}

fn open_new_market(
    protocol: &mut Protocol,
    caller: &Address,
    start_ts: i64,
    end_ts: i64,
    items_hash: [u8; 32],
    item_count: u8,
    token_mint: Address,
    vault: Address,
    bump: u8,
    is_native: bool,
) -> (r: Result<Market, ProtocolError>)
    ensures
        r == create_spec(
            *old(protocol),
            *caller,
            start_ts,
            end_ts,
            items_hash,
            item_count,
            token_mint,
            vault,
            bump,
            is_native,
        ),
        *final(protocol) == if r is Ok {
            counted(*old(protocol))
        } else {
            *old(protocol)
        },
        r matches Ok(m) ==> m.wf(),
{
    if !caller.same_as(&protocol.admin_authority) {
        return Err(ProtocolError::Unauthorized);
    }
    if protocol.paused {
        return Err(ProtocolError::ProtocolPaused);
    }
    check_schedule(start_ts, end_ts, item_count)?;
    if protocol.market_count == u64::MAX {
        return Err(ProtocolError::MathOverflow);
    }
    let market = Market {
        market_id: protocol.market_count,
        items_hash,
        item_count,
        start_ts,
        end_ts,
        status: MarketStatus::Draft,
        total_raw_stake: 0,
        total_effective_stake: 0,
        effective_stake_per_item: [0u128; MAX_ITEMS],
        winning_item_index: 0,
        protocol_fee_amount: 0,
        distributable_pool: 0,
        token_mint,
        vault,
        bump,
        is_native,
    };
    protocol.market_count = protocol.market_count + 1;
    proof {
        lemma_sum_zero(market.effective_stake_per_item@, MAX_ITEMS as nat);
    }
    Ok(market)
}

/// Creates a token-custody market in `Draft`, held in the token account
/// `vault` of the asset `token_mint`, and advances the market counter.
pub fn create_market(
    protocol: &mut Protocol,
    caller: &Address,
    start_ts: i64,
    end_ts: i64,
    items_hash: [u8; 32],
    item_count: u8,
    token_mint: Address,
    vault: Address,
    bump: u8,
) -> (r: Result<Market, ProtocolError>)
    ensures
        r == create_spec(
            *old(protocol),
            *caller,
            start_ts,
            end_ts,
            items_hash,
            item_count,
            token_mint,
            vault,
            bump,
            false,
        ),
        *final(protocol) == if r is Ok {
            counted(*old(protocol))
        } else {
            *old(protocol)
        },
        r matches Ok(m) ==> m.wf(),
{
    open_new_market(
        protocol,
        caller,
        start_ts,
        end_ts,
        items_hash,
        item_count,
        token_mint,
        vault,
        bump,
        false,
    )
}

/// Creates a native-asset market in `Draft`, held directly at the derived
/// address `vault`, and advances the market counter.
pub fn create_market_native(
    protocol: &mut Protocol,
    caller: &Address,
    start_ts: i64,
    end_ts: i64,
    items_hash: [u8; 32],
    item_count: u8,
    vault: Address,
    bump: u8,
) -> (r: Result<Market, ProtocolError>)
    ensures
        r == create_spec(
            *old(protocol),
            *caller,
            start_ts,
            end_ts,
            items_hash,
            item_count,
            native_mint(),
            vault,
            bump,
            true,
        ),
        *final(protocol) == if r is Ok {
            counted(*old(protocol))
        } else {
            *old(protocol)
        },
        r matches Ok(m) ==> m.wf(),
{
    let mint = Address::zero();
    assert(mint.bytes =~= native_mint().bytes);
    open_new_market(
        protocol,
        caller,
        start_ts,
        end_ts,
        items_hash,
        item_count,
        mint,
        vault,
        bump,
        true,
    )
}

/// Rewrites the window, outcome commitment and outcome count of a `Draft`
/// market that holds no stake.
pub fn edit_market(
    protocol: &Protocol,
    market: &mut Market,
    caller: &Address,
    start_ts: i64,
    end_ts: i64,
    items_hash: [u8; 32],
    item_count: u8,
) -> (r: Result<(), ProtocolError>)
    requires
        old(market).wf(),
    ensures
        match edit_spec(*protocol, *old(market), *caller, start_ts, end_ts, items_hash, item_count) {
            Ok(m) => r is Ok && *final(market) == m,
            Err(e) => r == Err::<(), ProtocolError>(e) && *final(market) == *old(market),
        },
        final(market).wf(),
{
    if !caller.same_as(&protocol.admin_authority) {
        return Err(ProtocolError::Unauthorized);
    }
    if protocol.paused {
        return Err(ProtocolError::ProtocolPaused);
    }
    if market.status != MarketStatus::Draft || market.total_raw_stake != 0 {
        return Err(ProtocolError::InvalidMarketState);
    }
    check_schedule(start_ts, end_ts, item_count)?;
    market.start_ts = start_ts;
    market.end_ts = end_ts;
    market.items_hash = items_hash;
    market.item_count = item_count;
    Ok(())
}

/// Moves a `Draft` market to `Open` once its window has started.
pub fn open_market(protocol: &Protocol, market: &mut Market, caller: &Address, now: i64) -> (r:
    Result<(), ProtocolError>)
    requires
        old(market).wf(),
    ensures
        match open_spec(*protocol, *old(market), *caller, now) {
            Ok(m) => r is Ok && *final(market) == m,
            Err(e) => r == Err::<(), ProtocolError>(e) && *final(market) == *old(market),
        },
        final(market).wf(),
{
    if !caller.same_as(&protocol.admin_authority) {
        return Err(ProtocolError::Unauthorized);
    }
    if protocol.paused {
        return Err(ProtocolError::ProtocolPaused);
    }
    if market.status != MarketStatus::Draft {
        return Err(ProtocolError::InvalidMarketState);
    }
    if now < market.start_ts {
        return Err(ProtocolError::InvalidTimestamp);
    }
    market.status = MarketStatus::Open;
    Ok(())
}

/// Moves an `Open` market to `Closed` once its window has ended.
pub fn close_market(protocol: &Protocol, market: &mut Market, now: i64) -> (r: Result<
    (),
    ProtocolError,
>)
    requires
        old(market).wf(),
    ensures
        match close_spec(*protocol, *old(market), now) {
            Ok(m) => r is Ok && *final(market) == m,
            Err(e) => r == Err::<(), ProtocolError>(e) && *final(market) == *old(market),
        },
        final(market).wf(),
{
    if protocol.paused {
        return Err(ProtocolError::ProtocolPaused);
    }
    if market.status != MarketStatus::Open {
        return Err(ProtocolError::InvalidMarketState);
    }
    if now < market.end_ts {
        return Err(ProtocolError::InvalidTimestamp);
    }
    market.status = MarketStatus::Closed;
    Ok(())
}

} // verus!
