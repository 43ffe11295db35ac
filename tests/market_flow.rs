use kleos_protocol::address::Address;
use kleos_protocol::constants::{MAX_ITEMS, MAX_MULTIPLIER};
use kleos_protocol::enums::MarketStatus;
use kleos_protocol::errors::ProtocolError;
use kleos_protocol::lifecycle::{close_market, create_market, edit_market, open_market};
use kleos_protocol::market::{Market, Position};
use kleos_protocol::protocol::{initialize_protocol, update_protocol, Protocol};
use kleos_protocol::settlement::{claim_payout, settle_market};
use kleos_protocol::staking::place_position;

fn addr(b: u8) -> Address {
    Address { bytes: [b; 32] }
}

const ADMIN: u8 = 1;
const TREASURY: u8 = 2;
const MINT: u8 = 3;
const VAULT: u8 = 4;
const MARKET_KEY: u8 = 5;
const ALICE: u8 = 6;
const BOB: u8 = 7;

fn protocol(fee_bps: u16) -> Protocol {
    initialize_protocol(addr(ADMIN), fee_bps, addr(TREASURY), 255).unwrap()
}

fn draft(p: &mut Protocol) -> Market {
    create_market(p, &addr(ADMIN), 100, 200, [9; 32], 2, addr(MINT), addr(VAULT), 254).unwrap()
}

fn open(p: &mut Protocol) -> Market {
    let mut m = draft(p);
    open_market(p, &mut m, &addr(ADMIN), 100).unwrap();
    m
}

fn stake(p: &Protocol, m: &mut Market, user: u8, item: u8, raw: u64, eff: u128) -> Result<Position, ProtocolError> {
    place_position(
        p,
        m,
        &addr(MARKET_KEY),
        &addr(user),
        &addr(MINT),
        &addr(MINT),
        &addr(VAULT),
        150,
        item,
        raw,
        eff,
        253,
    )
}

fn settle(p: &Protocol, m: &mut Market, winning: u8) -> Result<u64, ProtocolError> {
    settle_market(p, m, &addr(ADMIN), &addr(VAULT), &addr(MINT), &addr(TREASURY), winning)
}

fn claim(m: &Market, pos: &mut Position, user: u8) -> Result<u64, ProtocolError> {
    claim_payout(m, pos, &addr(MARKET_KEY), &addr(user), &addr(VAULT), &addr(MINT))
}

#[test]
fn two_outcome_market_pays_the_winner() {
    let mut p = protocol(500);
    let mut m = open(&mut p);
    let mut a = stake(&p, &mut m, ALICE, 0, 100, 100).unwrap();
    let mut b = stake(&p, &mut m, BOB, 1, 300, 300).unwrap();
    assert_eq!(m.total_raw_stake, 400);
    assert_eq!(m.total_effective_stake, 400);
    assert_eq!(m.effective_stake_per_item[0], 100);
    assert_eq!(m.effective_stake_per_item[1], 300);
    close_market(&p, &mut m, 200).unwrap();
    assert_eq!(settle(&p, &mut m, 1), Ok(20));
    assert_eq!(m.status, MarketStatus::Settled);
    assert_eq!(m.protocol_fee_amount, 20);
    assert_eq!(m.distributable_pool, 380);
    assert_eq!(claim(&m, &mut b, BOB), Ok(380));
    assert!(b.claimed);
    assert_eq!(claim(&m, &mut a, ALICE), Err(ProtocolError::InvalidMarketState));
    assert!(!a.claimed);
}

#[test]
fn multiplier_cap_is_inclusive() {
    let mut p = protocol(500);
    let mut m = open(&mut p);
    let raw: u64 = 50;
    let cap = raw as u128 * MAX_MULTIPLIER;
    assert_eq!(stake(&p, &mut m, ALICE, 0, raw, cap + 1).err(), Some(ProtocolError::EffectiveStakeTooLarge));
    assert_eq!(m.total_raw_stake, 0);
    let pos = stake(&p, &mut m, ALICE, 0, raw, cap).unwrap();
    assert_eq!(pos.effective_stake, cap);
    assert_eq!(m.total_effective_stake, cap);
}

#[test]
fn second_settlement_is_refused() {
    let mut p = protocol(500);
    let mut m = open(&mut p);
    stake(&p, &mut m, ALICE, 0, 1000, 1000).unwrap();
    close_market(&p, &mut m, 250).unwrap();
    assert_eq!(settle(&p, &mut m, 0), Ok(50));
    assert_eq!(settle(&p, &mut m, 1), Err(ProtocolError::InvalidMarketState));
    assert_eq!(m.protocol_fee_amount, 50);
    assert_eq!(m.distributable_pool, 950);
    assert_eq!(m.winning_item_index, 0);
}

#[test]
fn counter_at_maximum_refuses_creation() {
    let mut p = protocol(500);
    p.market_count = u64::MAX;
    let r = create_market(&mut p, &addr(ADMIN), 100, 200, [9; 32], 2, addr(MINT), addr(VAULT), 254);
    assert_eq!(r.err(), Some(ProtocolError::MathOverflow));
    assert_eq!(p.market_count, u64::MAX);
}

#[test]
fn creation_numbers_markets() {
    let mut p = protocol(500);
    let first = draft(&mut p);
    let second = draft(&mut p);
    assert_eq!(first.market_id, 0);
    assert_eq!(second.market_id, 1);
    assert_eq!(p.market_count, 2);
    assert_eq!(first.status, MarketStatus::Draft);
    assert!(!first.is_native);
    assert!(first.is_well_formed());
}

#[test]
fn claim_twice_is_refused() {
    let mut p = protocol(0);
    let mut m = open(&mut p);
    let mut a = stake(&p, &mut m, ALICE, 1, 10, 10).unwrap();
    close_market(&p, &mut m, 200).unwrap();
    assert_eq!(settle(&p, &mut m, 1), Ok(0));
    assert_eq!(claim(&m, &mut a, ALICE), Ok(10));
    assert_eq!(claim(&m, &mut a, ALICE), Err(ProtocolError::AlreadyClaimed));
}

#[test]
fn draft_market_cannot_be_settled() {
    let mut p = protocol(500);
    let mut m = draft(&mut p);
    assert_eq!(settle(&p, &mut m, 0), Err(ProtocolError::InvalidMarketState));
    assert_eq!(m.status, MarketStatus::Draft);
    assert_eq!(close_market(&p, &mut m, 500), Err(ProtocolError::InvalidMarketState));
}

#[test]
fn open_market_cannot_be_settled_or_reopened() {
    let mut p = protocol(500);
    let mut m = open(&mut p);
    stake(&p, &mut m, ALICE, 0, 10, 10).unwrap();
    assert_eq!(settle(&p, &mut m, 0), Err(ProtocolError::InvalidMarketState));
    assert_eq!(open_market(&p, &mut m, &addr(ADMIN), 150), Err(ProtocolError::InvalidMarketState));
    assert_eq!(m.status, MarketStatus::Open);
}

#[test]
fn stakes_outside_the_window_are_refused() {
    let mut p = protocol(500);
    let mut m = draft(&mut p);
    m.start_ts = 100;
    open_market(&p, &mut m, &addr(ADMIN), 100).unwrap();
    let before = place_position(
        &p, &mut m, &addr(MARKET_KEY), &addr(ALICE), &addr(MINT), &addr(MINT), &addr(VAULT), 99, 0, 10, 10, 1,
    );
    assert_eq!(before.err(), Some(ProtocolError::InvalidTimestamp));
    let at_end = place_position(
        &p, &mut m, &addr(MARKET_KEY), &addr(ALICE), &addr(MINT), &addr(MINT), &addr(VAULT), 200, 0, 10, 10, 1,
    );
    assert_eq!(at_end.err(), Some(ProtocolError::InvalidTimestamp));
    let last = place_position(
        &p, &mut m, &addr(MARKET_KEY), &addr(ALICE), &addr(MINT), &addr(MINT), &addr(VAULT), 199, 0, 10, 10, 1,
    );
    assert!(last.is_ok());
    assert_eq!(m.total_raw_stake, 10);
}

#[test]
fn stakes_on_a_market_not_open_leave_it_unchanged() {
    let mut p = protocol(500);
    let mut m = draft(&mut p);
    assert_eq!(stake(&p, &mut m, ALICE, 0, 10, 10).err(), Some(ProtocolError::InvalidMarketState));
    assert_eq!(m.total_raw_stake, 0);
    assert_eq!(m.effective_stake_per_item, [0u128; MAX_ITEMS]);
    open_market(&p, &mut m, &addr(ADMIN), 120).unwrap();
    stake(&p, &mut m, ALICE, 0, 10, 10).unwrap();
    close_market(&p, &mut m, 200).unwrap();
    assert_eq!(stake(&p, &mut m, BOB, 1, 10, 10).err(), Some(ProtocolError::InvalidMarketState));
    assert_eq!(m.total_raw_stake, 10);
    assert_eq!(m.effective_stake_per_item[1], 0);
}

#[test]
fn stake_validation_errors() {
    let mut p = protocol(500);
    let mut m = open(&mut p);
    assert_eq!(stake(&p, &mut m, ALICE, 0, 0, 0).err(), Some(ProtocolError::InvalidStakeAmount));
    assert_eq!(stake(&p, &mut m, ALICE, 2, 10, 10).err(), Some(ProtocolError::InvalidItemIndex));
    assert_eq!(stake(&p, &mut m, ALICE, 0, 10, 0).err(), Some(ProtocolError::InvalidStakeAmount));
    let wrong_mint = place_position(
        &p, &mut m, &addr(MARKET_KEY), &addr(ALICE), &addr(42), &addr(MINT), &addr(VAULT), 150, 0, 10, 10, 1,
    );
    assert_eq!(wrong_mint.err(), Some(ProtocolError::InvalidStakeAmount));
    let wrong_vault = place_position(
        &p, &mut m, &addr(MARKET_KEY), &addr(ALICE), &addr(MINT), &addr(MINT), &addr(42), 150, 0, 10, 10, 1,
    );
    assert_eq!(wrong_vault.err(), Some(ProtocolError::InvalidStakeAmount));
    assert_eq!(m.total_raw_stake, 0);
}

#[test]
fn paused_protocol_refuses_stakes() {
    let mut p = protocol(500);
    let mut m = open(&mut p);
    update_protocol(&mut p, &addr(ADMIN), 500, addr(TREASURY), true).unwrap();
    assert_eq!(stake(&p, &mut m, ALICE, 0, 10, 10).err(), Some(ProtocolError::ProtocolPaused));
    let r = create_market(&mut p, &addr(ADMIN), 100, 200, [9; 32], 2, addr(MINT), addr(VAULT), 254);
    assert_eq!(r.err(), Some(ProtocolError::ProtocolPaused));
    assert_eq!(p.market_count, 1);
}

#[test]
fn accumulator_overflow_is_refused() {
    let mut p = protocol(500);
    let mut m = open(&mut p);
    m.total_raw_stake = u64::MAX - 5;
    m.effective_stake_per_item[0] = 1;
    m.total_effective_stake = 1;
    assert_eq!(stake(&p, &mut m, ALICE, 0, 10, 10).err(), Some(ProtocolError::MathOverflow));
    assert_eq!(m.total_raw_stake, u64::MAX - 5);
}

#[test]
fn fee_overflow_fails_settlement() {
    let mut p = protocol(500);
    let mut m = open(&mut p);
    stake(&p, &mut m, ALICE, 0, u64::MAX / 2, 1).unwrap();
    close_market(&p, &mut m, 200).unwrap();
    assert_eq!(settle(&p, &mut m, 0), Err(ProtocolError::MathOverflow));
    assert_eq!(m.status, MarketStatus::Closed);
}

#[test]
fn settlement_validation_errors() {
    let mut p = protocol(500);
    let mut m = open(&mut p);
    close_market(&p, &mut m, 200).unwrap();
    assert_eq!(settle(&p, &mut m, 0), Err(ProtocolError::InvalidStakeAmount));
    let mut m = open(&mut p);
    stake(&p, &mut m, ALICE, 0, 10, 10).unwrap();
    close_market(&p, &mut m, 200).unwrap();
    assert_eq!(settle(&p, &mut m, 2), Err(ProtocolError::InvalidItemIndex));
    assert_eq!(
        settle_market(&p, &mut m, &addr(ALICE), &addr(VAULT), &addr(MINT), &addr(TREASURY), 0),
        Err(ProtocolError::Unauthorized)
    );
    assert_eq!(
        settle_market(&p, &mut m, &addr(ADMIN), &addr(VAULT), &addr(MINT), &addr(ALICE), 0),
        Err(ProtocolError::InvalidStakeAmount)
    );
    assert_eq!(m.status, MarketStatus::Closed);
}

#[test]
fn close_and_open_respect_time_gates() {
    let mut p = protocol(500);
    let mut m = draft(&mut p);
    assert_eq!(open_market(&p, &mut m, &addr(ADMIN), 99), Err(ProtocolError::InvalidTimestamp));
    assert_eq!(open_market(&p, &mut m, &addr(ALICE), 150), Err(ProtocolError::Unauthorized));
    open_market(&p, &mut m, &addr(ADMIN), 150).unwrap();
    assert_eq!(close_market(&p, &mut m, 199), Err(ProtocolError::InvalidTimestamp));
    close_market(&p, &mut m, 200).unwrap();
    assert_eq!(m.status, MarketStatus::Closed);
}

#[test]
fn edit_only_in_draft() {
    let mut p = protocol(500);
    let mut m = draft(&mut p);
    edit_market(&p, &mut m, &addr(ADMIN), 300, 400, [7; 32], 5).unwrap();
    assert_eq!((m.start_ts, m.end_ts, m.item_count, m.items_hash), (300, 400, 5, [7; 32]));
    assert_eq!(edit_market(&p, &mut m, &addr(ADMIN), 400, 400, [7; 32], 5), Err(ProtocolError::InvalidTimestamp));
    assert_eq!(edit_market(&p, &mut m, &addr(ADMIN), 300, 400, [7; 32], 1), Err(ProtocolError::InvalidItemIndex));
    assert_eq!(
        edit_market(&p, &mut m, &addr(ADMIN), 300, 400, [7; 32], MAX_ITEMS as u8 + 1),
        Err(ProtocolError::InvalidItemIndex)
    );
    assert_eq!(edit_market(&p, &mut m, &addr(BOB), 300, 400, [7; 32], 3), Err(ProtocolError::Unauthorized));
    open_market(&p, &mut m, &addr(ADMIN), 300).unwrap();
    assert_eq!(edit_market(&p, &mut m, &addr(ADMIN), 300, 500, [7; 32], 3), Err(ProtocolError::InvalidMarketState));
    assert_eq!(m.end_ts, 400);
}

#[test]
fn creation_validation_errors() {
    let mut p = protocol(500);
    let bad_window = create_market(&mut p, &addr(ADMIN), 200, 200, [9; 32], 2, addr(MINT), addr(VAULT), 1);
    assert_eq!(bad_window.err(), Some(ProtocolError::InvalidTimestamp));
    let one_item = create_market(&mut p, &addr(ADMIN), 100, 200, [9; 32], 1, addr(MINT), addr(VAULT), 1);
    assert_eq!(one_item.err(), Some(ProtocolError::InvalidItemIndex));
    let too_many =
        create_market(&mut p, &addr(ADMIN), 100, 200, [9; 32], MAX_ITEMS as u8 + 1, addr(MINT), addr(VAULT), 1);
    assert_eq!(too_many.err(), Some(ProtocolError::InvalidItemIndex));
    let most = create_market(&mut p, &addr(ADMIN), 100, 200, [9; 32], MAX_ITEMS as u8, addr(MINT), addr(VAULT), 1);
    assert!(most.is_ok());
    let stranger = create_market(&mut p, &addr(BOB), 100, 200, [9; 32], 2, addr(MINT), addr(VAULT), 1);
    assert_eq!(stranger.err(), Some(ProtocolError::Unauthorized));
    assert_eq!(p.market_count, 1);
}

#[test]
fn claim_validation_errors() {
    let mut p = protocol(500);
    let mut m = open(&mut p);
    let mut b = stake(&p, &mut m, BOB, 1, 300, 300).unwrap();
    assert_eq!(claim(&m, &mut b, BOB), Err(ProtocolError::InvalidMarketState));
    close_market(&p, &mut m, 200).unwrap();
    settle(&p, &mut m, 1).unwrap();
    assert_eq!(claim(&m, &mut b, ALICE), Err(ProtocolError::Unauthorized));
    assert_eq!(
        claim_payout(&m, &mut b, &addr(MARKET_KEY), &addr(BOB), &addr(VAULT), &addr(42)),
        Err(ProtocolError::InvalidStakeAmount)
    );
    assert!(!b.claimed);
    let mut empty = m;
    empty.effective_stake_per_item[1] = 0;
    assert_eq!(claim(&empty, &mut b, BOB), Err(ProtocolError::InvalidStakeAmount));
    let mut big = b;
    big.effective_stake = u128::MAX;
    assert_eq!(claim(&m, &mut big, BOB), Err(ProtocolError::MathOverflow));
    assert!(!big.claimed);
}

#[test]
fn winners_share_the_pool_with_bounded_dust() {
    let mut p = protocol(100);
    let mut m = open(&mut p);
    let mut w1 = stake(&p, &mut m, ALICE, 0, 100, 100).unwrap();
    let mut w2 = stake(&p, &mut m, BOB, 0, 100, 200).unwrap();
    let mut w3 = stake(&p, &mut m, 8, 0, 101, 1000).unwrap();
    stake(&p, &mut m, 9, 1, 700, 700).unwrap();
    close_market(&p, &mut m, 200).unwrap();
    assert_eq!(settle(&p, &mut m, 0), Ok(10));
    assert_eq!(m.distributable_pool, 991);
    let a = claim(&m, &mut w1, ALICE).unwrap();
    let b = claim(&m, &mut w2, BOB).unwrap();
    let c = claim(&m, &mut w3, 8).unwrap();
    assert_eq!((a, b, c), (76, 152, 762));
    let total = a + b + c;
    assert!(total <= m.distributable_pool);
    assert!(m.distributable_pool - total <= 3);
}

#[test]
fn well_formedness_check_rejects_broken_records() {
    let mut p = protocol(500);
    let mut m = open(&mut p);
    stake(&p, &mut m, ALICE, 0, 10, 10).unwrap();
    assert!(m.is_well_formed());
    let mut bad = m;
    bad.total_effective_stake = 11;
    assert!(!bad.is_well_formed());
    let mut bad = m;
    bad.effective_stake_per_item[5] = 1;
    bad.total_effective_stake = 11;
    assert!(!bad.is_well_formed());
    let mut bad = m;
    bad.item_count = 1;
    assert!(!bad.is_well_formed());
    assert!(p.is_well_formed());
    p.protocol_fee_bps = 10_001;
    assert!(!p.is_well_formed());
}

#[test]
fn stakes_accumulate_in_any_order() {
    let mut p = protocol(500);
    let base = open(&mut p);
    let mut one = base;
    stake(&p, &mut one, ALICE, 0, 40, 120).unwrap();
    stake(&p, &mut one, BOB, 1, 60, 60).unwrap();
    let mut other = base;
    stake(&p, &mut other, BOB, 1, 60, 60).unwrap();
    stake(&p, &mut other, ALICE, 0, 40, 120).unwrap();
    assert_eq!(one.total_raw_stake, other.total_raw_stake);
    assert_eq!(one.total_effective_stake, 180);
    assert_eq!(one.total_effective_stake, other.total_effective_stake);
    assert_eq!(one.effective_stake_per_item, other.effective_stake_per_item);
    assert!(one.is_well_formed());
}
