//! The hub's storage and the bookkeeping on it: staker records, balance updates,
//! unbond wait lists and the history of unbonding batches.
use vstd::prelude::*;

use crate::addr_map::{
    AddrMap, BatchMap, distinct_keys, has_key, insert_pair, key_index, lemma_insert_pair,
    lemma_key_index_unique, lemma_remove_key, lookup, remove_key,
};
use crate::decimal::{Decimal, mul_div_floor, uint_mul_decimal, DECIMAL_FRACTIONAL};
use crate::host::StdError;
use crate::hub::{Config, CurrentBatch, Parameters, State, UnbondHistory, UnbondRequest, UnbondWaitEntity};

verus! {

/// The hub's record of one staker.
#[derive(Debug)]
pub struct StakerInfo {
    pub amount_staked_unibi: u128,
    pub amount_stnibi_balance: u128,
    pub bonding_time: u128,
    pub unbonding_period: Option<u64>,
    pub validator_list: Option<Vec<String>>,
    pub last_update_time: u64,
}

/// What changed a staker's balance.
#[derive(Debug, PartialEq, Eq)]
pub enum BalanceAction {
    Bond { nibi_amount: u128, stnibi_minted: u128, validator: Option<String> },
    BondRewards { nibi_amount: u128 },
    Unbond { nibi_unbonded: u128, stnibi_burned: u128 },
    Slash { nibi_slashed: u128, stnibi_adjusted: u128, validator: String },
}

/// One change of a staker's balance and the balances it left.
#[derive(Debug, PartialEq, Eq)]
pub struct BalanceUpdate {
    pub action: BalanceAction,
    pub timestamp: u64,
    pub exchange_rate: Decimal,
    pub resulting_nibi_balance: u128,
    pub resulting_stnibi_balance: u128,
    pub block_height: u64,
}

/// The inputs of a balance change.
#[derive(Debug)]
pub struct BalanceUpdateData {
    pub nibi_amount: u128,
    pub stnibi_amount: u128,
    pub timestamp: u64,
    pub exchange_rate: Decimal,
    pub block_height: u64,
    pub validator: Option<String>,
}

/// A page of a staker's balance updates with what they add up to.
#[derive(Debug)]
pub struct BalanceHistory {
    pub updates: Vec<BalanceUpdate>,
    pub total_bonded: u128,
    pub total_unbonded: u128,
    pub current_stnibi: u128,
}

/// A page of a staker's balance updates.
#[derive(Debug)]
pub struct BalanceUpdatesResponse {
    pub updates: Vec<BalanceUpdate>,
    pub last_update_id: u64,
}

/// A staker's record as the `StakerInfo` query reports it.
#[derive(Debug)]
pub struct StakerInfoResponse {
    pub amount_staked_unibi: u128,
    pub amount_stnibi_balance: u128,
    pub bonding_time: u128,
    pub unbonding_period: Option<u64>,
    pub validator_list: Option<Vec<String>>,
    pub last_update_time: u64,
    pub total_rewards_earned: Option<u128>,
}

/// One pending unbond request with the times it is released.
#[derive(Clone, Copy, Debug, PartialEq, Eq)]
pub struct UnbondingRequest {
    pub batch_id: u64,
    pub amount: u128,
    pub time_requested: u64,
    pub contract_release_time: u64,
    pub protocol_release_time: u64,
    pub final_release_time: u64,
}

/// A user's pending unbonding and the periods that govern it.
#[derive(Debug)]
pub struct UnbondingInfoResponse {
    pub contract_unbonding_period: u64,
    pub protocol_unbonding_period: u64,
    pub effective_unbonding_period: u64,
    pub unbonding_requests: Vec<UnbondingRequest>,
    pub total_unbonding: u128,
    pub is_unbonding_protocol_locked: bool,
}

/// The unbonding period of the chain's staking module: 21 days, in seconds.
pub const COSMOS_UNBONDING_PERIOD: u64 = 1_814_400u64;

/// The hub's storage.
///
/// `balance_updates` holds each staker's updates in id order; the update with id `n`
/// is the `n`-th, and the last id is their number. `unbond_wait_list` holds, for each
/// user, the amount requested in each batch. `unbond_history` holds the processed
/// batches by id in ascending order.
pub struct HubStore {
    pub config: Config,
    pub state: State,
    pub params: Parameters,
    pub current_batch: CurrentBatch,
    pub guardians: AddrMap<bool>,
    pub staker_info: AddrMap<StakerInfo>,
    pub staker_info_new: AddrMap<StakerInfo>,
    pub balance_updates: AddrMap<Vec<BalanceUpdate>>,
    pub lp_tokens: AddrMap<u128>,
    pub token_supply: Option<u128>,
    pub unbond_wait_list: AddrMap<BatchMap<u128>>,
    pub unbond_history: Vec<(u64, UnbondHistory)>,
}

/// The ids of `h` ascend strictly.
pub open spec fn history_sorted(h: Seq<(u64, UnbondHistory)>) -> bool {
    forall|i: int, j: int| 0 <= i < j < h.len() ==> h[i].0 < h[j].0
}

/// The batches `user` waits on, with the amounts, in storage order.
pub open spec fn wait_list_of(w: Seq<(Seq<char>, BatchMap<u128>)>, user: Seq<char>) -> Seq<(u64, u128)> {
    match lookup(w, user) {
        Some(m) => m@,
        None => Seq::empty(),
    }
}

/// `l` after each batch of `ids` in turn is taken out.
pub open spec fn remove_batches(l: Seq<(u64, u128)>, ids: Seq<u64>) -> Seq<(u64, u128)>
    decreases ids.len(),
{
    if ids.len() == 0 {
        l
    } else {
        remove_key(remove_batches(l, ids.drop_last()), ids.last())
    }
}

/// The balance updates of `staker`, in id order.
pub open spec fn updates_of(u: Seq<(Seq<char>, Vec<BalanceUpdate>)>, staker: Seq<char>) -> Seq<BalanceUpdate> {
    match lookup(u, staker) {
        Some(v) => v@,
        None => Seq::empty(),
    }
}

/// The withdrawable amount of the first `k` requests of `l`: each request whose batch
/// `h` holds and `counts` accepts adds its amount times the batch's withdraw rate.
pub open spec fn withdrawable_prefix(
    l: Seq<(u64, u128)>,
    h: Seq<(u64, UnbondHistory)>,
    counts: spec_fn(UnbondHistory) -> bool,
    k: int,
) -> int
    decreases k,
{
    if k <= 0 {
        0
    } else {
        withdrawable_prefix(l, h, counts, k - 1) + match lookup(h, l[k - 1].0) {
            Some(b) => if counts(b) {
                mul_div_floor(l[k - 1].1 as int, b.stnibi_withdraw_rate.atomics as int, DECIMAL_FRACTIONAL as int)
            } else {
                0
            },
            None => 0,
        }
    }
}

/// The batches among the first `k` requests of `l` that `h` holds and `counts` accepts.
pub open spec fn counted_batches(
    l: Seq<(u64, u128)>,
    h: Seq<(u64, UnbondHistory)>,
    counts: spec_fn(UnbondHistory) -> bool,
    k: int,
) -> Seq<u64>
    decreases k,
{
    if k <= 0 {
        Seq::empty()
    } else {
        let p = counted_batches(l, h, counts, k - 1);
        match lookup(h, l[k - 1].0) {
            Some(b) => if counts(b) {
                p.push(l[k - 1].0)
            } else {
                p
            },
            None => p,
        }
    }
}

pub(crate) proof fn lemma_withdrawable_monotone(
    l: Seq<(u64, u128)>,
    h: Seq<(u64, UnbondHistory)>,
    counts: spec_fn(UnbondHistory) -> bool,
    k: int,
    n: int,
)
    requires
        0 <= k <= n,
    ensures
        withdrawable_prefix(l, h, counts, k) <= withdrawable_prefix(l, h, counts, n),
    decreases n - k,
{
    if k < n {
        lemma_withdrawable_monotone(l, h, counts, k + 1, n);
        match lookup(h, l[n - 1].0) {
            Some(b) => {
                if counts(b) {
                    vstd::arithmetic::div_mod::lemma_div_pos_is_pos(
                        l[n - 1].1 as int * b.stnibi_withdraw_rate.atomics as int,
                        DECIMAL_FRACTIONAL as int,
                    );
                    assert(l[n - 1].1 as int * b.stnibi_withdraw_rate.atomics as int >= 0) by (nonlinear_arith)
                        requires
                            l[n - 1].1 as int >= 0,
                            b.stnibi_withdraw_rate.atomics as int >= 0,
                    ;
                }
            },
            None => {},
        }
        lemma_withdrawable_step(l, h, counts, k + 1);
    }
}

proof fn lemma_withdrawable_step(
    l: Seq<(u64, u128)>,
    h: Seq<(u64, UnbondHistory)>,
    counts: spec_fn(UnbondHistory) -> bool,
    k: int,
)
    requires
        k >= 1,
    ensures
        withdrawable_prefix(l, h, counts, k - 1) <= withdrawable_prefix(l, h, counts, k),
{
    match lookup(h, l[k - 1].0) {
        Some(b) => {
            if counts(b) {
                assert(l[k - 1].1 as int * b.stnibi_withdraw_rate.atomics as int >= 0) by (nonlinear_arith)
                    requires
                        l[k - 1].1 as int >= 0,
                        b.stnibi_withdraw_rate.atomics as int >= 0,
                ;
                vstd::arithmetic::div_mod::lemma_div_pos_is_pos(
                    l[k - 1].1 as int * b.stnibi_withdraw_rate.atomics as int,
                    DECIMAL_FRACTIONAL as int,
                );
            }
        },
        None => {},
    }
}

/// A processed batch is released.
pub open spec fn is_released(b: UnbondHistory) -> bool {
    b.released
}

/// A processed batch was processed before `time`.
pub open spec fn processed_before(time: u64) -> spec_fn(UnbondHistory) -> bool {
    |b: UnbondHistory| b.time < time
}

/// The number of leading entries of `h` whose id is at most `s`.
pub open spec fn ids_not_after(h: Seq<(u64, UnbondHistory)>, s: u64) -> int
    decreases h.len(),
{
    if h.len() == 0 || h[0].0 > s {
        0
    } else {
        1 + ids_not_after(h.drop_first(), s)
    }
}

/// The first position of `h` whose id exceeds `start` (for ascending ids), or zero
/// without a start.
pub open spec fn first_after(h: Seq<(u64, UnbondHistory)>, start: Option<u64>) -> int {
    match start {
        None => 0,
        Some(s) => ids_not_after(h, s),
    }
}

/// The number of histories `all_unbond_history` returns at most: `limit`, ten by
/// default, never more than a hundred.
pub open spec fn history_page_limit(limit: Option<u32>) -> int {
    let l = match limit {
        Some(l) => l as int,
        None => 10,
    };
    if l < 100 {
        l
    } else {
        100
    }
}

/// The big-endian bytes of `x`.
pub open spec fn be_bytes(x: u64) -> Seq<u8> {
    seq![
        (x >> 56u64) as u8,
        (x >> 48u64) as u8,
        (x >> 40u64) as u8,
        (x >> 32u64) as u8,
        (x >> 24u64) as u8,
        (x >> 16u64) as u8,
        (x >> 8u64) as u8,
        x as u8,
    ]
}

/// The storage key just after the key of `start_after`: its big-endian bytes
/// followed by a one.
pub fn convert(start_after: Option<u64>) -> (r: Option<Vec<u8>>)
    ensures
        match start_after {
            None => r is None,
            Some(idx) => r is Some && r->Some_0@ == be_bytes(idx).push(1u8),
        },
{
    match start_after {
        None => None,
        Some(idx) => {
            let mut v: Vec<u8> = Vec::new();
            v.push((idx >> 56u64) as u8);
            v.push((idx >> 48u64) as u8);
            v.push((idx >> 40u64) as u8);
            v.push((idx >> 32u64) as u8);
            v.push((idx >> 24u64) as u8);
            v.push((idx >> 16u64) as u8);
            v.push((idx >> 8u64) as u8);
            v.push(idx as u8);
            v.push(1u8);
            assert(v@ =~= be_bytes(idx).push(1u8));
            Some(v)
        },
    }
}

/// The lock entries are in strictly ascending time order, as the store lists them
/// (one entry per unlock time).
pub open spec fn locks_sorted(s: Seq<(u64, u128)>) -> bool {
    forall|i: int, j: int| 0 <= i < j < s.len() ==> s[i].0 < s[j].0
}

/// Takes the lock entries `(unlock time, amount)` of one user and asset, in time
/// order, whose time is at most `timestamp`, and returns their total: the entries
/// left are exactly those due later. The total must fit in 128 bits (the contract
/// panics otherwise).
pub fn remove_and_accumulate_lock_info(locks: &mut Vec<(u64, u128)>, timestamp: u64) -> (r: u128)
    requires
        locks_sorted(old(locks)@),
        lock_total(old(locks)@, lock_due_count(old(locks)@, timestamp)) <= u128::MAX,
    ensures
        r == lock_total(old(locks)@, lock_due_count(old(locks)@, timestamp)),
        final(locks)@ == old(locks)@.skip(lock_due_count(old(locks)@, timestamp)),
        forall|i: int| 0 <= i < lock_due_count(old(locks)@, timestamp) ==> #[trigger] old(locks)@[i].0 <= timestamp,
        forall|i: int| 0 <= i < final(locks)@.len() ==> #[trigger] final(locks)@[i].0 > timestamp,
        locks_sorted(final(locks)@),
{
    let ghost s = locks@;
    let n = locks.len();
    let mut i: usize = 0;
    let mut total: u128 = 0;
    proof {
        lemma_lock_due_nonneg(s, timestamp);
    }
    while i < n && locks[i].0 <= timestamp
        invariant
            n == s.len(),
            locks@ == s,
            0 <= i <= n,
            i <= lock_due_count(s, timestamp),
            forall|j: int| 0 <= j < i ==> s[j].0 <= timestamp,
            total == lock_total(s, i as int),
            lock_total(s, lock_due_count(s, timestamp)) <= u128::MAX,
        decreases n - i,
    {
        proof {
            lemma_lock_due_step(s, timestamp, i as int);
            lemma_lock_total_monotone(s, i as int + 1, lock_due_count(s, timestamp));
        }
        total = total + locks[i].1;
        i = i + 1;
    }
    proof {
        lemma_lock_due_exact(s, timestamp, i as int);
        assert forall|j: int| i <= j < n implies #[trigger] s[j].0 > timestamp by {
            assert(s[i as int].0 > timestamp);
            if j > i {
                assert(s[i as int].0 < s[j].0);
            }
        }
    }
    let mut rest: Vec<(u64, u128)> = Vec::new();
    let mut j: usize = i;
    while j < n
        invariant
            n == s.len(),
            locks@ == s,
            i <= j <= n,
            rest@ == s.subrange(i as int, j as int),
        decreases n - j,
    {
        rest.push(locks[j]);
        j = j + 1;
    }
    *locks = rest;
    total
}

/// The number of leading lock entries of `s` due at `timestamp`.
pub open spec fn lock_due_count(s: Seq<(u64, u128)>, timestamp: u64) -> int
    decreases s.len(),
{
    if s.len() == 0 || s[0].0 > timestamp {
        0
    } else {
        1 + lock_due_count(s.drop_first(), timestamp)
    }
}

/// The amounts of the first `k` lock entries.
pub open spec fn lock_total(s: Seq<(u64, u128)>, k: int) -> int
    decreases k,
{
    if k <= 0 {
        0
    } else {
        lock_total(s, k - 1) + s[k - 1].1
    }
}

proof fn lemma_lock_due_step(s: Seq<(u64, u128)>, timestamp: u64, i: int)
    requires
        0 <= i < s.len(),
        forall|j: int| 0 <= j < i ==> s[j].0 <= timestamp,
        s[i].0 <= timestamp,
    ensures
        i + 1 <= lock_due_count(s, timestamp),
    decreases i,
{
    if i > 0 {
        assert forall|j: int| 0 <= j < i - 1 implies s.drop_first()[j].0 <= timestamp by {
            assert(s.drop_first()[j] == s[j + 1]);
        }
        lemma_lock_due_step(s.drop_first(), timestamp, i - 1);
    } else {
        lemma_lock_due_nonneg(s.drop_first(), timestamp);
    }
}

proof fn lemma_lock_due_nonneg(s: Seq<(u64, u128)>, timestamp: u64)
    ensures
        lock_due_count(s, timestamp) >= 0,
    decreases s.len(),
{
    if s.len() > 0 {
        lemma_lock_due_nonneg(s.drop_first(), timestamp);
    }
}

proof fn lemma_lock_due_exact(s: Seq<(u64, u128)>, timestamp: u64, i: int)
    requires
        0 <= i <= s.len(),
        forall|j: int| 0 <= j < i ==> s[j].0 <= timestamp,
        i == s.len() || s[i].0 > timestamp,
    ensures
        lock_due_count(s, timestamp) == i,
    decreases i,
{
    if i > 0 {
        assert forall|j: int| 0 <= j < i - 1 implies s.drop_first()[j].0 <= timestamp by {
            assert(s.drop_first()[j] == s[j + 1]);
        }
        if i < s.len() {
            assert(s.drop_first()[i - 1] == s[i]);
        }
        lemma_lock_due_exact(s.drop_first(), timestamp, i - 1);
    }
}

proof fn lemma_lock_total_monotone(s: Seq<(u64, u128)>, k: int, n: int)
    requires
        0 <= k <= n,
    ensures
        lock_total(s, k) <= lock_total(s, n),
    decreases n - k,
{
    if k < n {
        lemma_lock_total_monotone(s, k + 1, n);
    }
}

impl HubStore {
    /// Adds `amount` to what `sender_address` asked to unbond in batch `batch_id`.
    /// The sum must fit in 128 bits (the contract panics otherwise).
    pub fn store_unbond_wait_list(&mut self, batch_id: u64, sender_address: String, amount: u128)
        requires
            match lookup(wait_list_of(old(self).unbond_wait_list@, sender_address@), batch_id) {
                Some(a) => a + amount <= u128::MAX,
                None => true,
            },
        ensures
            has_key(final(self).unbond_wait_list@, sender_address@),
            final(self).unbond_wait_list@ == insert_pair(
                old(self).unbond_wait_list@,
                sender_address@,
                lookup(final(self).unbond_wait_list@, sender_address@)->Some_0,
            ),
            wait_list_of(final(self).unbond_wait_list@, sender_address@) == insert_pair(
                wait_list_of(old(self).unbond_wait_list@, sender_address@),
                batch_id,
                (match lookup(wait_list_of(old(self).unbond_wait_list@, sender_address@), batch_id) {
                    Some(a) => a + amount,
                    None => amount as int,
                }) as u128,
            ),
            final(self).config == old(self).config,
            final(self).state == old(self).state,
            final(self).current_batch == old(self).current_batch,
            final(self).unbond_history == old(self).unbond_history,
            final(self).staker_info_new@ == old(self).staker_info_new@,
            final(self).balance_updates@ == old(self).balance_updates@,
    {
        let blank: BatchMap<u128> = BatchMap::new();
        let ghost ph = blank;
        let taken = self.unbond_wait_list.insert(sender_address.clone(), blank);
        let mut list = match taken {
            Some(m) => m,
            None => BatchMap::new(),
        };
        let current = match list.get(&batch_id) {
            Some(a) => *a,
            None => 0,
        };
        let _ = list.insert(batch_id, current + amount);
        let ghost outer = old(self).unbond_wait_list@;
        let _ = self.unbond_wait_list.insert(sender_address, list);
        proof {
            crate::addr_map::lemma_insert_twice(outer, sender_address@, ph, list);
            lemma_insert_pair(outer, sender_address@, list);
        }
    }
}

/// Sorted ids are distinct.
pub proof fn lemma_sorted_distinct(h: Seq<(u64, UnbondHistory)>)
    requires
        history_sorted(h),
    ensures
        distinct_keys(h),
{
    assert forall|i: int, j: int| 0 <= i < h.len() && 0 <= j < h.len() && i != j implies h[i].0
        != h[j].0 by {
        if i < j {
            assert(h[i].0 < h[j].0);
        } else {
            assert(h[j].0 < h[i].0);
        }
    }
}

impl HubStore {
    /// Takes the batches `batch_id` out of `sender_address`'s wait list.
    pub fn remove_unbond_wait_list(&mut self, batch_id: Vec<u64>, sender_address: String)
        ensures
            wait_list_of(final(self).unbond_wait_list@, sender_address@) == remove_batches(
                wait_list_of(old(self).unbond_wait_list@, sender_address@),
                batch_id@,
            ),
            has_key(old(self).unbond_wait_list@, sender_address@) ==> final(self).unbond_wait_list@
                == insert_pair(
                old(self).unbond_wait_list@,
                sender_address@,
                lookup(final(self).unbond_wait_list@, sender_address@)->Some_0,
            ),
            !has_key(old(self).unbond_wait_list@, sender_address@) ==> final(self).unbond_wait_list@
                == old(self).unbond_wait_list@,
            final(self).config == old(self).config,
            final(self).state == old(self).state,
            final(self).current_batch == old(self).current_batch,
            final(self).unbond_history == old(self).unbond_history,
            final(self).staker_info_new@ == old(self).staker_info_new@,
            final(self).balance_updates@ == old(self).balance_updates@,
    {
        let ghost outer = self.unbond_wait_list@;
        if !self.unbond_wait_list.contains_key(&sender_address) {
            proof {
                assert forall|k: int| 0 <= k <= batch_id@.len() implies remove_batches(
                    Seq::<(u64, u128)>::empty(),
                    batch_id@.take(k),
                ) == Seq::<(u64, u128)>::empty() by {
                    lemma_remove_batches_empty(batch_id@.take(k));
                }
                assert(batch_id@.take(batch_id@.len() as int) =~= batch_id@);
            }
            return;
        }
        let blank: BatchMap<u128> = BatchMap::new();
        let ghost ph = blank;
        let taken = self.unbond_wait_list.insert(sender_address.clone(), blank);
        let mut list = match taken {
            Some(m) => m,
            None => BatchMap::new(),
        };
        let ghost start = list@;
        let n = batch_id.len();
        let mut i: usize = 0;
        while i < n
            invariant
                n == batch_id@.len(),
                0 <= i <= n,
                list@ == remove_batches(start, batch_id@.take(i as int)),
            decreases n - i,
        {
            list.remove(&batch_id[i]);
            proof {
                assert(batch_id@.take(i + 1).drop_last() =~= batch_id@.take(i as int));
            }
            i = i + 1;
        }
        proof {
            assert(batch_id@.take(n as int) =~= batch_id@);
        }
        let _ = self.unbond_wait_list.insert(sender_address, list);
        proof {
            crate::addr_map::lemma_insert_twice(outer, sender_address@, ph, list);
            lemma_insert_pair(outer, sender_address@, list);
        }
    }

    /// The amount `sender_addr` asked to unbond in batch `batch_id`; fails when there
    /// is none.
    pub fn read_unbond_wait_list(&self, batch_id: u64, sender_addr: &String) -> (r: Result<UnbondWaitEntity, StdError>)
        ensures
            match lookup(wait_list_of(self.unbond_wait_list@, sender_addr@), batch_id) {
                Some(a) => r == Ok::<UnbondWaitEntity, StdError>(UnbondWaitEntity { stnibi_amount: a }),
                None => r == Err::<UnbondWaitEntity, StdError>(StdError::NotFound { kind: "nexus_staking::hub::UnbondWaitEntity" }),
            },
    {
        match self.unbond_wait_list.get(sender_addr) {
            Some(list) => match list.get(&batch_id) {
                Some(a) => Ok(UnbondWaitEntity { stnibi_amount: *a }),
                None => Err(StdError::NotFound { kind: "nexus_staking::hub::UnbondWaitEntity" }),
            },
            None => Err(StdError::NotFound { kind: "nexus_staking::hub::UnbondWaitEntity" }),
        }
    }

    /// The unbond requests of `sender_addr`: `(batch id, amount)` in storage order.
    pub fn get_unbond_requests(&self, sender_addr: &String) -> (r: UnbondRequest)
        ensures
            r@ == wait_list_of(self.unbond_wait_list@, sender_addr@),
    {
        let mut requests: Vec<(u64, u128)> = Vec::new();
        match self.unbond_wait_list.get(sender_addr) {
            Some(list) => {
                let n = list.len();
                let mut i: usize = 0;
                while i < n
                    invariant
                        n == list@.len(),
                        0 <= i <= n,
                        requests@ == list@.take(i as int),
                    decreases n - i,
                {
                    let (k, v) = list.entry(i);
                    requests.push((*k, *v));
                    proof {
                        assert(requests@ =~= list@.take(i + 1));
                    }
                    i = i + 1;
                }
                proof {
                    assert(list@.take(n as int) =~= list@);
                }
            },
            None => {},
        }
        requests
    }

    /// The processed batch `epoch_id`; fails when there is none.
    pub fn read_unbond_history(&self, epoch_id: u64) -> (r: Result<UnbondHistory, StdError>)
        requires
            history_sorted(self.unbond_history@),
        ensures
            match lookup(self.unbond_history@, epoch_id) {
                Some(h) => r == Ok::<UnbondHistory, StdError>(h),
                None => r == Err::<UnbondHistory, StdError>(
                    StdError::Generic { msg: "Burn requests not found for the specified time period" },
                ),
            },
    {
        proof {
            lemma_sorted_distinct(self.unbond_history@);
        }
        let n = self.unbond_history.len();
        let mut i: usize = 0;
        while i < n
            invariant
                n == self.unbond_history@.len(),
                0 <= i <= n,
                distinct_keys(self.unbond_history@),
                forall|j: int| 0 <= j < i ==> self.unbond_history@[j].0 != epoch_id,
            decreases n - i,
        {
            if self.unbond_history[i].0 == epoch_id {
                proof {
                    lemma_key_index_unique(self.unbond_history@, i as int);
                }
                return Ok(self.unbond_history[i].1);
            }
            i = i + 1;
        }
        Err(StdError::Generic { msg: "Burn requests not found for the specified time period" })
    }

    /// Stores the processed batch `batch_id`, keeping the ids ascending.
    pub fn store_unbond_history(&mut self, batch_id: u64, history: UnbondHistory)
        requires
            history_sorted(old(self).unbond_history@),
        ensures
            history_sorted(final(self).unbond_history@),
            lookup(final(self).unbond_history@, batch_id) == Some(history),
            forall|k: u64| k != batch_id ==> lookup(final(self).unbond_history@, k) == lookup(
                old(self).unbond_history@,
                k,
            ),
            final(self).config == old(self).config,
            final(self).state == old(self).state,
            final(self).current_batch == old(self).current_batch,
            final(self).unbond_wait_list@ == old(self).unbond_wait_list@,
    {
        let ghost h = self.unbond_history@;
        proof {
            lemma_sorted_distinct(h);
        }
        let n = self.unbond_history.len();
        let mut i: usize = 0;
        while i < n && self.unbond_history[i].0 < batch_id
            invariant
                n == self.unbond_history@.len(),
                self.unbond_history@ == h,
                0 <= i <= n,
                forall|j: int| 0 <= j < i ==> h[j].0 < batch_id,
            decreases n - i,
        {
            i = i + 1;
        }
        let mut v: Vec<(u64, UnbondHistory)> = Vec::new();
        std::mem::swap(&mut v, &mut self.unbond_history);
        if i < n && v[i].0 == batch_id {
            let _ = v.remove(i);
            v.insert(i, (batch_id, history));
            proof {
                assert(v@ =~= h.update(i as int, (batch_id, history)));
                lemma_key_index_unique(h, i as int);
                assert(insert_pair(h, batch_id, history) == v@);
                lemma_insert_pair(h, batch_id, history);
            }
        } else {
            v.insert(i, (batch_id, history));
            proof {
                let t = h.insert(i as int, (batch_id, history));
                assert(v@ == t);
                assert(history_sorted(t)) by {
                    assert forall|a: int, b: int| 0 <= a < b < t.len() implies t[a].0 < t[b].0 by {
                        if b < i {
                        } else if b == i {
                        } else if a < i {
                            assert(t[b] == h[b - 1]);
                            if b - 1 >= i && i < n {
                                assert(h[i as int].0 > batch_id);
                                if b - 1 > i {
                                    assert(h[i as int].0 < h[b - 1].0);
                                }
                            }
                        } else if a == i {
                            assert(t[b] == h[b - 1]);
                            assert(h[i as int].0 > batch_id);
                            if b - 1 > i {
                                assert(h[i as int].0 < h[b - 1].0);
                            }
                        } else {
                            assert(t[a] == h[a - 1]);
                            assert(t[b] == h[b - 1]);
                        }
                    }
                }
                lemma_sorted_distinct(t);
                assert(!has_key(h, batch_id)) by {
                    if has_key(h, batch_id) {
                        let j = key_index(h, batch_id);
                        if j < i {
                        } else if j == i {
                        } else {
                            assert(h[i as int].0 < h[j].0);
                        }
                    }
                }
                lemma_key_index_unique(t, i as int);
                assert forall|k: u64| k != batch_id implies lookup(t, k) == lookup(h, k) by {
                    if has_key(h, k) {
                        let j = key_index(h, k);
                        let tj = if j < i { j } else { j + 1 };
                        assert(t[tj] == h[j]);
                        lemma_key_index_unique(t, tj);
                    } else if has_key(t, k) {
                        let j = key_index(t, k);
                        if j < i {
                            assert(t[j] == h[j]);
                        } else if j > i {
                            assert(t[j] == h[j - 1]);
                        }
                    }
                }
            }
        }
        self.unbond_history = v;
    }

    /// The processed batches with an id after `start`, in ascending id order, at most
    /// `limit` of them (ten by default, never more than a hundred).
    pub fn all_unbond_history(&self, start: Option<u64>, limit: Option<u32>) -> (r: Vec<UnbondHistory>)
        requires
            history_sorted(self.unbond_history@),
        ensures
            ({
                let h = self.unbond_history@;
                let from = first_after(h, start);
                let to = if from + history_page_limit(limit) < h.len() {
                    from + history_page_limit(limit)
                } else {
                    h.len() as int
                };
                &&& 0 <= from <= h.len()
                &&& r@.len() == to - from
                &&& forall|i: int| 0 <= i < r@.len() ==> #[trigger] r@[i] == h[from + i].1
            }),
    {
        let ghost h = self.unbond_history@;
        let lim: u32 = match limit {
            Some(l) => if l < 100 { l } else { 100 },
            None => 10,
        };
        let n = self.unbond_history.len();
        let mut from: usize = 0;
        match start {
            Some(s) => {
                while from < n && self.unbond_history[from].0 <= s
                    invariant
                        n == h.len(),
                        self.unbond_history@ == h,
                        0 <= from <= n,
                        forall|j: int| 0 <= j < from ==> h[j].0 <= s,
                    decreases n - from,
                {
                    from = from + 1;
                }
                proof {
                    lemma_ids_not_after(h, s, from as int);
                }
            },
            None => {},
        }
        let mut r: Vec<UnbondHistory> = Vec::new();
        let mut i: usize = from;
        while i < n && i - from < lim as usize
            invariant
                n == h.len(),
                self.unbond_history@ == h,
                from <= i <= n,
                r@.len() == i - from,
                i - from <= lim,
                forall|j: int| 0 <= j < r@.len() ==> #[trigger] r@[j] == h[from + j].1,
            decreases n - i,
        {
            r.push(self.unbond_history[i].1);
            i = i + 1;
        }
        r
    }

    /// The withdrawable amount and the batches of `sender_addr`'s requests whose
    /// batch is released. The amount must fit in 128 bits (the contract panics
    /// otherwise).
    pub fn get_finished_amount(&self, sender_addr: &String) -> (r: (u128, Vec<u64>))
        requires
            history_sorted(self.unbond_history@),
            withdrawable_prefix(
                wait_list_of(self.unbond_wait_list@, sender_addr@),
                self.unbond_history@,
                |b: UnbondHistory| is_released(b),
                wait_list_of(self.unbond_wait_list@, sender_addr@).len() as int,
            ) <= u128::MAX,
        ensures
            ({
                let l = wait_list_of(self.unbond_wait_list@, sender_addr@);
                &&& r.0 == withdrawable_prefix(l, self.unbond_history@, |b: UnbondHistory| is_released(b), l.len() as int)
                &&& r.1@ == counted_batches(l, self.unbond_history@, |b: UnbondHistory| is_released(b), l.len() as int)
            }),
    {
        let requests = self.get_unbond_requests(sender_addr);
        let ghost l = requests@;
        let ghost counts = |b: UnbondHistory| is_released(b);
        let n = requests.len();
        let mut amount: u128 = 0;
        let mut batches: Vec<u64> = Vec::new();
        let mut i: usize = 0;
        while i < n
            invariant
                n == l.len(),
                requests@ == l,
                0 <= i <= n,
                history_sorted(self.unbond_history@),
                counts == (|b: UnbondHistory| is_released(b)),
                amount == withdrawable_prefix(l, self.unbond_history@, counts, i as int),
                batches@ == counted_batches(l, self.unbond_history@, counts, i as int),
                withdrawable_prefix(l, self.unbond_history@, counts, n as int) <= u128::MAX,
            decreases n - i,
        {
            let (batch, requested) = requests[i];
            proof {
                lemma_withdrawable_monotone(l, self.unbond_history@, counts, i + 1, n as int);
            }
            match self.read_unbond_history(batch) {
                Ok(h) => {
                    if h.released {
                        let part = uint_mul_decimal(requested, h.stnibi_withdraw_rate);
                        amount = amount + part;
                        batches.push(batch);
                    }
                },
                Err(_) => {},
            }
            i = i + 1;
        }
        (amount, batches)
    }

    /// The withdrawable amount of `sender_addr`'s requests whose batch was processed
    /// before `block_time`. It must fit in 128 bits (the contract panics otherwise).
    pub fn query_get_finished_amount(&self, sender_addr: &String, block_time: u64) -> (r: u128)
        requires
            history_sorted(self.unbond_history@),
            withdrawable_prefix(
                wait_list_of(self.unbond_wait_list@, sender_addr@),
                self.unbond_history@,
                processed_before(block_time),
                wait_list_of(self.unbond_wait_list@, sender_addr@).len() as int,
            ) <= u128::MAX,
        ensures
            r == withdrawable_prefix(
                wait_list_of(self.unbond_wait_list@, sender_addr@),
                self.unbond_history@,
                processed_before(block_time),
                wait_list_of(self.unbond_wait_list@, sender_addr@).len() as int,
            ),
    {
        let requests = self.get_unbond_requests(sender_addr);
        let ghost l = requests@;
        let ghost counts = processed_before(block_time);
        let n = requests.len();
        let mut amount: u128 = 0;
        let mut i: usize = 0;
        while i < n
            invariant
                n == l.len(),
                requests@ == l,
                0 <= i <= n,
                history_sorted(self.unbond_history@),
                counts == processed_before(block_time),
                amount == withdrawable_prefix(l, self.unbond_history@, counts, i as int),
                withdrawable_prefix(l, self.unbond_history@, counts, n as int) <= u128::MAX,
            decreases n - i,
        {
            let (batch, requested) = requests[i];
            proof {
                lemma_withdrawable_monotone(l, self.unbond_history@, counts, i + 1, n as int);
            }
            match self.read_unbond_history(batch) {
                Ok(h) => {
                    if h.time < block_time {
                        let part = uint_mul_decimal(requested, h.stnibi_withdraw_rate);
                        amount = amount + part;
                    }
                },
                Err(_) => {},
            }
            i = i + 1;
        }
        amount
    }
}

proof fn lemma_remove_batches_empty(ids: Seq<u64>)
    ensures
        remove_batches(Seq::<(u64, u128)>::empty(), ids) == Seq::<(u64, u128)>::empty(),
    decreases ids.len(),
{
    if ids.len() > 0 {
        lemma_remove_batches_empty(ids.drop_last());
    }
}

proof fn lemma_ids_not_after(h: Seq<(u64, UnbondHistory)>, s: u64, i: int)
    requires
        0 <= i <= h.len(),
        forall|j: int| 0 <= j < i ==> h[j].0 <= s,
        i == h.len() || h[i].0 > s,
    ensures
        ids_not_after(h, s) == i,
    decreases i,
{
    if i > 0 {
        assert forall|j: int| 0 <= j < i - 1 implies h.drop_first()[j].0 <= s by {
            assert(h.drop_first()[j] == h[j + 1]);
        }
        if i < h.len() {
            assert(h.drop_first()[i - 1] == h[i]);
        }
        lemma_ids_not_after(h.drop_first(), s, i - 1);
    }
}

/// The views of a list of strings.
pub open spec fn strings_view(v: Seq<String>) -> Seq<Seq<char>> {
    v.map_values(|x: String| x@)
}

/// The view of an optional list of strings.
pub open spec fn list_view(o: Option<Vec<String>>) -> Option<Seq<Seq<char>>> {
    match o {
        Some(v) => Some(strings_view(v@)),
        None => None,
    }
}

/// A copy of a list of strings.
pub fn copy_strings(v: &Vec<String>) -> (r: Vec<String>)
    ensures
        r@ == v@,
{
    let mut r: Vec<String> = Vec::new();
    let n = v.len();
    let mut i: usize = 0;
    while i < n
        invariant
            n == v@.len(),
            0 <= i <= n,
            r@ == v@.take(i as int),
        decreases n - i,
    {
        r.push(v[i].clone());
        proof {
            assert(r@ =~= v@.take(i + 1));
        }
        i = i + 1;
    }
    proof {
        assert(v@.take(n as int) =~= v@);
    }
    r
}

/// A copy of an optional list of strings.
pub fn copy_list(o: &Option<Vec<String>>) -> (r: Option<Vec<String>>)
    ensures
        list_view(r) == list_view(*o),
{
    match o {
        Some(v) => {
            let c = copy_strings(v);
            proof {
                assert(strings_view(c@) =~= strings_view(v@));
            }
            Some(c)
        },
        None => None,
    }
}

impl BalanceAction {
    /// An identical action.
    pub fn copy(&self) -> (r: BalanceAction)
        ensures
            r == *self,
    {
        match self {
            BalanceAction::Bond { nibi_amount, stnibi_minted, validator } => BalanceAction::Bond {
                nibi_amount: *nibi_amount,
                stnibi_minted: *stnibi_minted,
                validator: match validator {
                    Some(v) => Some(v.clone()),
                    None => None,
                },
            },
            BalanceAction::BondRewards { nibi_amount } => BalanceAction::BondRewards { nibi_amount: *nibi_amount },
            BalanceAction::Unbond { nibi_unbonded, stnibi_burned } => BalanceAction::Unbond {
                nibi_unbonded: *nibi_unbonded,
                stnibi_burned: *stnibi_burned,
            },
            BalanceAction::Slash { nibi_slashed, stnibi_adjusted, validator } => BalanceAction::Slash {
                nibi_slashed: *nibi_slashed,
                stnibi_adjusted: *stnibi_adjusted,
                validator: validator.clone(),
            },
        }
    }
}

impl BalanceUpdate {
    /// An identical update.
    pub fn copy(&self) -> (r: BalanceUpdate)
        ensures
            r == *self,
    {
        BalanceUpdate {
            action: self.action.copy(),
            timestamp: self.timestamp,
            exchange_rate: self.exchange_rate,
            resulting_nibi_balance: self.resulting_nibi_balance,
            resulting_stnibi_balance: self.resulting_stnibi_balance,
            block_height: self.block_height,
        }
    }
}

} // verus!
