use vstd::prelude::*;
use crate::address::Address;
use crate::constants::MAX_ITEMS;
use crate::enums::MarketStatus;

verus! {

/// One prediction market: its outcome set, staking window, lifecycle state,
/// stake aggregates, settlement results and custody references.
#[derive(Clone, Copy, Debug)]
pub struct Market {
    pub market_id: u64,
    pub items_hash: [u8; 32],
    pub item_count: u8,
    pub start_ts: i64,
    pub end_ts: i64,
    pub status: MarketStatus,
    pub total_raw_stake: u64,
    pub total_effective_stake: u128,
    pub effective_stake_per_item: [u128; MAX_ITEMS],
    pub winning_item_index: u8,
    pub protocol_fee_amount: u64,
    pub distributable_pool: u64,
    pub token_mint: Address,
    pub vault: Address,
    pub bump: u8,
    /// When true the market holds the native asset, with `vault` the derived
    /// address that keeps it; otherwise `vault` is a token account of
    /// `token_mint`.
    pub is_native: bool,
}

/// One participant's stake on one market.
#[derive(Clone, Copy, Debug)]
pub struct Position {
    pub market: Address,
    pub user: Address,
    pub selected_item_index: u8,
    pub raw_stake: u64,
    pub effective_stake: u128,
    pub claimed: bool,
    pub bump: u8,
}

/// The sum of the first `n` entries of `s`.
pub open spec fn sum_upto(s: Seq<u128>, n: nat) -> int
    decreases n,
{
    if n == 0 {
        0
    } else {
        sum_upto(s, (n - 1) as nat) + s[n - 1]
    }
}

/// Adding `v` to one entry below `n` adds `v` to the sum of the first `n`.
pub proof fn lemma_sum_upto_update(s: Seq<u128>, n: nat, i: int, v: u128)
    requires
        n <= s.len(),
        0 <= i < s.len(),
    ensures
        sum_upto(s.update(i, v), n) == sum_upto(s, n) + (if i < n { v - s[i] } else { 0 }),
    decreases n,
{
    if n > 0 {
        lemma_sum_upto_update(s, (n - 1) as nat, i, v);
    }
}

/// The sum of the first `n` entries is at most the sum of the first `k`.
pub proof fn lemma_sum_upto_monotonic(s: Seq<u128>, n: nat, k: nat)
    requires
        n <= k <= s.len(),
    ensures
        sum_upto(s, n) <= sum_upto(s, k),
    decreases k,
{
    if n < k {
        lemma_sum_upto_monotonic(s, n, (k - 1) as nat);
    }
}

/// Entries that are all zero sum to zero.
pub proof fn lemma_sum_zero(s: Seq<u128>, n: nat)
    requires
        n <= s.len(),
        forall|i: int| 0 <= i < n ==> s[i] == 0,
    ensures
        sum_upto(s, n) == 0,
    decreases n,
{
    if n > 0 {
        lemma_sum_zero(s, (n - 1) as nat);
    }
}

impl Market {
    /// The market's invariant: a valid outcome count, a total that is the
    /// sum of the per-outcome aggregates, nothing aggregated on outcomes that
    /// do not exist or before any stake, and settlement results that split
    /// the raw stake exactly.
    pub open spec fn wf(&self) -> bool {
        &&& 1 < self.item_count <= MAX_ITEMS
        &&& self.effective_stake_per_item@.len() == MAX_ITEMS
        &&& self.total_effective_stake == sum_upto(self.effective_stake_per_item@, MAX_ITEMS as nat)
        &&& forall|i: int| self.item_count <= i < MAX_ITEMS ==> #[trigger] self.effective_stake_per_item[i] == 0
        &&& self.total_raw_stake == 0 ==> forall|i: int|
            0 <= i < MAX_ITEMS ==> #[trigger] self.effective_stake_per_item[i] == 0
        &&& self.status == MarketStatus::Settled ==> {
            &&& self.winning_item_index < self.item_count
            &&& self.protocol_fee_amount + self.distributable_pool == self.total_raw_stake
        }
    }

    /// Tests the market's invariant, for records that come from outside.
    pub fn is_well_formed(&self) -> (r: bool)
        ensures
            r == self.wf(),
    {
        if self.item_count <= 1 || self.item_count as usize > MAX_ITEMS {
            return false;
        }
        let mut sum: u128 = 0;
        let mut i: usize = 0;
        while i < MAX_ITEMS
            invariant
                i <= MAX_ITEMS,
                1 < self.item_count <= MAX_ITEMS,
                sum == sum_upto(self.effective_stake_per_item@, i as nat),
                forall|j: int| self.item_count <= j < i ==> self.effective_stake_per_item[j] == 0,
                self.total_raw_stake == 0 ==> forall|j: int|
                    0 <= j < i ==> self.effective_stake_per_item[j] == 0,
            decreases MAX_ITEMS - i,
        {
            let v = self.effective_stake_per_item[i];
            if (i >= self.item_count as usize || self.total_raw_stake == 0) && v != 0 {
                return false;
            }
            if v > u128::MAX - sum {
                proof {
                    lemma_sum_upto_monotonic(
                        self.effective_stake_per_item@,
                        (i + 1) as nat,
                        MAX_ITEMS as nat,
                    );
                }
                return false;
            }
            sum = sum + v;
            i = i + 1;
        }
        if sum != self.total_effective_stake {
            return false;
        }
        if self.status == MarketStatus::Settled {
            if self.winning_item_index >= self.item_count {
                return false;
            }
            if self.protocol_fee_amount > self.total_raw_stake || self.distributable_pool
                != self.total_raw_stake - self.protocol_fee_amount {
                return false;
            }
        }
        true
    }
}

} // verus!
