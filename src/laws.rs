use vstd::prelude::*;
use crate::address::Address;
use crate::enums::{lifecycle_step, MarketStatus};
use crate::errors::ProtocolError;
use crate::lifecycle::{close_spec, create_spec, edit_spec, open_spec};
use crate::market::{Market, Position};
use crate::math::{payout_of, protocol_fee_of};
use crate::protocol::Protocol;
use crate::settlement::{claim_spec, marked_claimed, settle_spec, winning_denominator};
use crate::staking::{stake_outcome, staked};

verus! {

/// The sum of a list of effective stakes.
pub open spec fn sum_stakes(s: Seq<u128>) -> int
    decreases s.len(),
{
    if s.len() == 0 {
        0
    } else {
        sum_stakes(s.drop_last()) + s.last()
    }
}

/// The sum of the payouts owed to a list of effective stakes out of `pool`
/// by `denominator`.
pub open spec fn sum_payouts(s: Seq<u128>, pool: u64, denominator: u128) -> int
    decreases s.len(),
{
    if s.len() == 0 {
        0
    } else {
        sum_payouts(s.drop_last(), pool, denominator) + payout_of(s.last(), pool, denominator)
    }
}

proof fn lemma_floor_bounds(x: int, d: int)
    requires
        x >= 0,
        d > 0,
    ensures
        (x / d) * d <= x,
        x < (x / d + 1) * d,
        x / d >= 0,
{
    vstd::arithmetic::div_mod::lemma_fundamental_div_mod(x, d);
    vstd::arithmetic::div_mod::lemma_mod_bound(x, d);
    vstd::arithmetic::div_mod::lemma_div_pos_is_pos(x, d);
    let q = x / d;
    let r = x % d;
    assert(q * d <= x && x < (q + 1) * d) by (nonlinear_arith)
        requires
            x == d * q + r,
            0 <= r < d,
    ;
}

proof fn lemma_sum_payouts_bounds(s: Seq<u128>, pool: u64, denominator: u128)
    requires
        denominator > 0,
    ensures
        sum_payouts(s, pool, denominator) * denominator <= sum_stakes(s) * pool,
        sum_stakes(s) * pool <= (sum_payouts(s, pool, denominator) + s.len()) * denominator,
        sum_stakes(s) >= 0,
    decreases s.len(),
{
    if s.len() > 0 {
        let t = s.drop_last();
        let a = s.last();
        lemma_sum_payouts_bounds(t, pool, denominator);
        let x = a * pool;
        assert(x >= 0) by (nonlinear_arith)
            requires
                x == a * pool,
                a >= 0,
                pool >= 0,
        ;
        lemma_floor_bounds(x, denominator as int);
        let q = payout_of(a, pool, denominator);
        let sp = sum_payouts(t, pool, denominator);
        let ss = sum_stakes(t);
        let d = denominator as int;
        let n = t.len() as int;
        assert((sp + q) * d <= (ss + a) * pool) by (nonlinear_arith)
            requires
                sp * d <= ss * pool,
                q * d <= a * pool,
        ;
        assert((ss + a) * pool <= (sp + q + n + 1) * d) by (nonlinear_arith)
            requires
                ss * pool <= (sp + n) * d,
                a * pool < (q + 1) * d,
        ;
    }
}

/// A settlement splits the raw stake exactly: the fee is
/// `floor(total_raw_stake * fee_bps / 10000)` and fee plus pool is the raw
/// stake, for every fee rate within one whole.
pub proof fn lemma_settlement_split_exact(
    p: Protocol,
    m: Market,
    caller: Address,
    winning_item_index: u8,
    custody_ok: bool,
)
    requires
        p.wf(),
    ensures
        settle_spec(p, m, caller, winning_item_index, custody_ok) matches Ok(s) ==> {
            &&& s.protocol_fee_amount == protocol_fee_of(m.total_raw_stake, p.protocol_fee_bps)
            &&& s.protocol_fee_amount + s.distributable_pool == m.total_raw_stake
        },
{
    let t = m.total_raw_stake as int;
    let b = p.protocol_fee_bps as int;
    assert(0 <= (t * b) / 10000 <= t) by (nonlinear_arith)
        requires
            0 <= t,
            0 <= b <= 10000,
    ;
}

/// Payouts never exceed the pool. When `winners` lists the effective stakes
/// of the positions on the winning outcome of a settled market, so that they
/// add up to that outcome's aggregate, the payouts their claims return add
/// up to at most the distributable pool, and fall short of it by at most one
/// unit per position. Every position holds a positive effective stake, as
/// staking ensures.
pub proof fn lemma_payouts_within_pool(m: Market, winners: Seq<u128>)
    requires
        m.wf(),
        m.status == MarketStatus::Settled,
        winners.len() >= 1,
        forall|i: int| 0 <= i < winners.len() ==> winners[i] > 0,
        sum_stakes(winners) == winning_denominator(m),
    ensures
        sum_payouts(winners, m.distributable_pool, winning_denominator(m)) <= m.distributable_pool,
        m.distributable_pool - sum_payouts(winners, m.distributable_pool, winning_denominator(m))
            <= winners.len(),
{
    let d = winning_denominator(m);
    lemma_positive_sum_is_positive(winners);
    lemma_sum_payouts_bounds(winners, m.distributable_pool, d);
    let sp = sum_payouts(winners, m.distributable_pool, d);
    let pool = m.distributable_pool as int;
    let n = winners.len() as int;
    assert(sp <= pool) by (nonlinear_arith)
        requires
            sp * d <= d * pool,
            d > 0,
    ;
    assert(pool <= sp + n) by (nonlinear_arith)
        requires
            d * pool <= (sp + n) * d,
            d > 0,
    ;
}

proof fn lemma_positive_sum_is_positive(s: Seq<u128>)
    requires
        s.len() >= 1,
        forall|i: int| 0 <= i < s.len() ==> s[i] > 0,
    ensures
        sum_stakes(s) > 0,
    decreases s.len(),
{
    let t = s.drop_last();
    if t.len() >= 1 {
        assert(forall|i: int| 0 <= i < t.len() ==> t[i] == s[i]);
        lemma_positive_sum_is_positive(t);
    } else {
        assert(sum_stakes(t) == 0);
    }
}

/// A claim succeeds at most once: after a successful claim the same position
/// is refused with `AlreadyClaimed`, whatever the payout was.
pub proof fn lemma_claim_idempotent(
    m: Market,
    pos: Position,
    market_key: Address,
    caller: Address,
    custody_ok: bool,
)
    requires
        claim_spec(m, pos, market_key, caller, custody_ok) is Ok,
    ensures
        claim_spec(m, marked_claimed(pos), market_key, caller, custody_ok) == Err::<
            u64,
            ProtocolError,
        >(ProtocolError::AlreadyClaimed),
{
}

/// Every operation moves a market along an edge of the lifecycle graph or
/// leaves its state alone: creation yields `Draft`, opening needs `Draft`,
/// closing needs `Open`, settling needs `Closed`, and neither editing nor
/// staking changes the state. In particular no `Draft` market is settled.
pub proof fn lemma_lifecycle_steps(
    p: Protocol,
    m: Market,
    after: Market,
    caller: Address,
    now: i64,
    start_ts: i64,
    end_ts: i64,
    items_hash: [u8; 32],
    item_count: u8,
    token_mint: Address,
    vault: Address,
    bump: u8,
    is_native: bool,
    selected_item_index: u8,
    raw_stake: u64,
    effective_stake: u128,
    winning_item_index: u8,
    custody_ok: bool,
)
    ensures
        create_spec(p, caller, start_ts, end_ts, items_hash, item_count, token_mint, vault, bump, is_native)
            matches Ok(c) ==> c.status == MarketStatus::Draft,
        edit_spec(p, m, caller, start_ts, end_ts, items_hash, item_count) matches Ok(e)
            ==> lifecycle_step(m.status, e.status),
        open_spec(p, m, caller, now) matches Ok(o) ==> m.status == MarketStatus::Draft
            && o.status == MarketStatus::Open,
        close_spec(p, m, now) matches Ok(c) ==> m.status == MarketStatus::Open && c.status
            == MarketStatus::Closed,
        settle_spec(p, m, caller, winning_item_index, custody_ok) matches Ok(s) ==> m.status
            == MarketStatus::Closed && s.status == MarketStatus::Settled,
        staked(m, after, selected_item_index, raw_stake, effective_stake) ==> after.status
            == m.status,
        m.status == MarketStatus::Draft ==> settle_spec(p, m, caller, winning_item_index, custody_ok)
            is Err,
{
}

/// A stake outside the window `[start_ts, end_ts)` or on a market that is
/// not `Open` is refused; the staking operations then leave the market as it
/// was. On an unpaused protocol a market that is not `Open` gives
/// `InvalidMarketState`, and an `Open` market of the right kind outside its
/// window gives `InvalidTimestamp`.
pub proof fn lemma_stake_outside_window_refused(
    p: Protocol,
    m: Market,
    native: bool,
    market_key: Address,
    user: Address,
    now: i64,
    selected_item_index: u8,
    raw_stake: u64,
    effective_stake: u128,
    bump: u8,
    custody_ok: bool,
)
    requires
        now < m.start_ts || now >= m.end_ts || m.status != MarketStatus::Open,
    ensures
        stake_outcome(
            p,
            m,
            native,
            market_key,
            user,
            now,
            selected_item_index,
            raw_stake,
            effective_stake,
            bump,
            custody_ok,
        ) is Err,
        !p.paused && m.status != MarketStatus::Open ==> stake_outcome(
            p,
            m,
            native,
            market_key,
            user,
            now,
            selected_item_index,
            raw_stake,
            effective_stake,
            bump,
            custody_ok,
        ) == Err::<Position, ProtocolError>(ProtocolError::InvalidMarketState),
        !p.paused && m.status == MarketStatus::Open && (!native || m.is_native) ==> stake_outcome(
            p,
            m,
            native,
            market_key,
            user,
            now,
            selected_item_index,
            raw_stake,
            effective_stake,
            bump,
            custody_ok,
        ) == Err::<Position, ProtocolError>(ProtocolError::InvalidTimestamp),
{
}

/// Settlement is reached only from `Closed`: asked by the administrator of
/// an unpaused protocol, settling a market in any other state is refused
/// with `InvalidMarketState`, and a closed market without stake with
/// `InvalidStakeAmount`.
pub proof fn lemma_settle_only_from_closed(
    p: Protocol,
    m: Market,
    winning_item_index: u8,
    custody_ok: bool,
)
    requires
        !p.paused,
    ensures
        m.status != MarketStatus::Closed ==> settle_spec(
            p,
            m,
            p.admin_authority,
            winning_item_index,
            custody_ok,
        ) == Err::<Market, ProtocolError>(ProtocolError::InvalidMarketState),
        m.status == MarketStatus::Closed && m.total_raw_stake == 0 ==> settle_spec(
            p,
            m,
            p.admin_authority,
            winning_item_index,
            custody_ok,
        ) == Err::<Market, ProtocolError>(ProtocolError::InvalidStakeAmount),
{
}

/// A claimed position of a settled market is refused with `AlreadyClaimed`
/// when its owner asks again, whatever else holds.
pub proof fn lemma_claimed_position_refused(m: Market, pos: Position, custody_ok: bool)
    requires
        m.status == MarketStatus::Settled,
        pos.claimed,
    ensures
        claim_spec(m, pos, pos.market, pos.user, custody_ok) == Err::<u64, ProtocolError>(
            ProtocolError::AlreadyClaimed,
        ),
{
}

/// The effective stakes of a list of positions.
pub open spec fn effective_stakes(ps: Seq<Position>) -> Seq<u128> {
    ps.map_values(|q: Position| q.effective_stake)
}

/// The sum of what claims of the positions `ps` by their owners return.
pub open spec fn claimed_total(m: Market, ps: Seq<Position>, market_key: Address, custody_ok: bool) -> int
    decreases ps.len(),
{
    if ps.len() == 0 {
        0
    } else {
        claimed_total(m, ps.drop_last(), market_key, custody_ok) + match claim_spec(
            m,
            ps.last(),
            market_key,
            ps.last().user,
            custody_ok,
        ) {
            Ok(v) => v as int,
            Err(_) => 0,
        }
    }
}

proof fn lemma_claimed_total_is_sum_payouts(m: Market, ps: Seq<Position>, market_key: Address, custody_ok: bool)
    requires
        forall|i: int|
            0 <= i < ps.len() ==> #[trigger] claim_spec(m, ps[i], market_key, ps[i].user, custody_ok) is Ok,
    ensures
        claimed_total(m, ps, market_key, custody_ok) == sum_payouts(
            effective_stakes(ps),
            m.distributable_pool,
            winning_denominator(m),
        ),
    decreases ps.len(),
{
    if ps.len() > 0 {
        let t = ps.drop_last();
        assert(forall|i: int| 0 <= i < t.len() ==> t[i] == ps[i]);
        lemma_claimed_total_is_sum_payouts(m, t, market_key, custody_ok);
        assert(effective_stakes(ps).drop_last() =~= effective_stakes(t));
        assert(claim_spec(m, ps[ps.len() - 1], market_key, ps[ps.len() - 1].user, custody_ok) is Ok);
    }
}

/// Claims together never pay out more than the pool. When `winners` are all
/// the positions on the winning outcome of a settled market, so that their
/// effective stakes add up to that outcome's aggregate, and each one's claim
/// by its owner succeeds, the payouts add up to at most the distributable
/// pool and fall short of it by at most one unit per position.
pub proof fn lemma_claims_within_pool(m: Market, winners: Seq<Position>, market_key: Address, custody_ok: bool)
    requires
        m.wf(),
        m.status == MarketStatus::Settled,
        winners.len() >= 1,
        forall|i: int| 0 <= i < winners.len() ==> #[trigger] winners[i].effective_stake > 0,
        sum_stakes(effective_stakes(winners)) == winning_denominator(m),
        forall|i: int|
            0 <= i < winners.len() ==> #[trigger] claim_spec(
                m,
                winners[i],
                market_key,
                winners[i].user,
                custody_ok,
            ) is Ok,
    ensures
        claimed_total(m, winners, market_key, custody_ok) <= m.distributable_pool,
        m.distributable_pool - claimed_total(m, winners, market_key, custody_ok) <= winners.len(),
{
    lemma_claimed_total_is_sum_payouts(m, winners, market_key, custody_ok);
    let s = effective_stakes(winners);
    assert(forall|i: int| 0 <= i < s.len() ==> s[i] == winners[i].effective_stake);
    lemma_payouts_within_pool(m, s);
}

/// Stakes accumulate independently of their order: two stakes applied in
/// either order leave the market with the same totals and aggregates.
pub proof fn lemma_stakes_commute(
    m: Market,
    first_then: Market,
    both: Market,
    second_then: Market,
    both_swapped: Market,
    i: u8,
    raw_i: u64,
    eff_i: u128,
    j: u8,
    raw_j: u64,
    eff_j: u128,
)
    requires
        i < m.item_count <= m.effective_stake_per_item@.len(),
        j < m.item_count,
        staked(m, first_then, i, raw_i, eff_i),
        staked(first_then, both, j, raw_j, eff_j),
        staked(m, second_then, j, raw_j, eff_j),
        staked(second_then, both_swapped, i, raw_i, eff_i),
        m.total_raw_stake + raw_i + raw_j <= u64::MAX,
        m.total_effective_stake + eff_i + eff_j <= u128::MAX,
        m.effective_stake_per_item[i as int] + eff_i + eff_j <= u128::MAX,
        m.effective_stake_per_item[j as int] + eff_i + eff_j <= u128::MAX,
    ensures
        both == both_swapped,
{
    assert(both.effective_stake_per_item =~= both_swapped.effective_stake_per_item);
}

} // verus!
