//! The hub's entry points other than bonding: setup, guardians and pausing, reward
//! dispatch, slashing, and the queries.
use vstd::prelude::*;

use crate::addr_map::{
    AddrMap, BatchMap, distinct_keys, has_key, insert_pair, key_index, lemma_insert_pair, lemma_key_index_unique,
    lookup, remove_key,
};
use crate::decimal::{Decimal, decimal_div, mul_div_floor, uint_mul_decimal, DECIMAL_FRACTIONAL};
use crate::staking::bond::{Outcome, bond_done, bond_outcome, store_unchanged};
use crate::staking::config::{update_config_done, update_params_done};
use crate::validator_registry::ValidatorResponse;
use crate::staking::error::BalanceError;
use crate::host::{Attr, AttrValue, Delegation, Env, MessageInfo, Msg, Response, StdError, WasmCall, attr_static, attr_text};
use crate::hub::{
    BondType, ExecuteMsg,
    AllHistoryResponse, Config, ConfigResponse, CurrentBatch, CurrentBatchResponse, InstantiateMsg, Parameters,
    RestakeResponse, State, StateResponse, UnbondHistory, UnbondHistoryResponse, UnbondRequestsResponse,
    WithdrawableUnbondedResponse, exchange_rate_for, exchange_rate_fits,
};
use crate::staking::state::{
    BalanceAction, BalanceHistory, BalanceUpdate, BalanceUpdatesResponse, HubStore, StakerInfo, StakerInfoResponse,
    UnbondingInfoResponse, UnbondingRequest, COSMOS_UNBONDING_PERIOD, copy_list, first_after, history_page_limit,
    history_sorted, list_view, processed_before, updates_of, wait_list_of, withdrawable_prefix,
};

verus! {

/// The amount delegated in `denom` by the first `k` delegations.
pub open spec fn bonded_in(ds: Seq<Delegation>, denom: Seq<char>, k: int) -> int
    decreases k,
{
    if k <= 0 {
        0
    } else {
        bonded_in(ds, denom, k - 1) + if ds[k - 1].amount.denom@ == denom {
            ds[k - 1].amount.amount as int
        } else {
            0int
        }
    }
}

/// The hub's state once it has looked at its delegations: when it has any and
/// believes it has bonded something, the bonded amount is cut down to what is
/// actually delegated in the underlying denomination, and the exchange rate is
/// recomputed for the issued stNIBI plus the current batch's requests.
pub open spec fn actual_state(s: State, denom: Seq<char>, requested: u128, ds: Seq<Delegation>) -> State {
    if ds.len() == 0 || s.total_bond_stnibi_amount == 0 {
        s
    } else {
        let actual = bonded_in(ds, denom, ds.len() as int);
        let bond = if s.total_bond_stnibi_amount > actual {
            actual as u128
        } else {
            s.total_bond_stnibi_amount
        };
        State {
            total_bond_stnibi_amount: bond,
            stnibi_exchange_rate: Decimal {
                atomics: exchange_rate_for(bond, s.total_stnibi_issued + requested) as u128,
            },
            ..s
        }
    }
}

/// Computing the actual state does not overflow (the contract panics otherwise).
pub open spec fn actual_state_fits(s: State, denom: Seq<char>, requested: u128, ds: Seq<Delegation>) -> bool {
    ds.len() == 0 || {
        let actual = bonded_in(ds, denom, ds.len() as int);
        let bond = if s.total_bond_stnibi_amount > actual {
            actual
        } else {
            s.total_bond_stnibi_amount as int
        };
        &&& actual <= u128::MAX
        &&& (s.total_bond_stnibi_amount == 0 || exchange_rate_fits(
            bond as u128,
            s.total_stnibi_issued + requested,
        ))
    }
}

/// The actual state of `store` for the delegations `ds`.
pub open spec fn store_actual_state(store: &HubStore, ds: Seq<Delegation>) -> State {
    actual_state(store.state, store.params.underlying_coin_denom@, store.current_batch.requested_stnibi, ds)
}

/// Computing the actual state of `store` for the delegations `ds` does not overflow.
pub open spec fn store_actual_state_fits(store: &HubStore, ds: Seq<Delegation>) -> bool {
    actual_state_fits(store.state, store.params.underlying_coin_denom@, store.current_batch.requested_stnibi, ds)
}

pub(crate) proof fn lemma_bonded_monotone(ds: Seq<Delegation>, denom: Seq<char>, k: int, n: int)
    requires
        0 <= k <= n,
    ensures
        bonded_in(ds, denom, k) <= bonded_in(ds, denom, n),
    decreases n - k,
{
    if k < n {
        lemma_bonded_monotone(ds, denom, k + 1, n);
    }
}

impl HubStore {
    /// The hub's state as it actually is; `delegations` is the outcome of the query
    /// for all of the hub's delegations.
    pub fn query_actual_state(&self, delegations: &Result<Vec<Delegation>, StdError>) -> (r: Result<State, StdError>)
        requires
            delegations is Ok ==> store_actual_state_fits(self, delegations->Ok_0@),
        ensures
            match delegations {
                Err(e) => r == Err::<State, StdError>(*e),
                Ok(ds) => r == Ok::<State, StdError>(store_actual_state(self, ds@)),
            },
    {
        let ds = match delegations {
            Err(e) => { return Err(e.duplicate()); },
            Ok(ds) => ds,
        };
        let mut state = self.state;
        if ds.len() == 0 {
            return Ok(state);
        }
        let ghost denom = self.params.underlying_coin_denom@;
        let n = ds.len();
        let mut actual_total_bonded: u128 = 0;
        let mut i: usize = 0;
        while i < n
            invariant
                n == ds@.len(),
                0 <= i <= n,
                denom == self.params.underlying_coin_denom@,
                actual_total_bonded == bonded_in(ds@, denom, i as int),
                bonded_in(ds@, denom, n as int) <= u128::MAX,
            decreases n - i,
        {
            proof {
                lemma_bonded_monotone(ds@, denom, i + 1, n as int);
            }
            if ds[i].amount.denom == self.params.underlying_coin_denom {
                actual_total_bonded = actual_total_bonded + ds[i].amount.amount;
            }
            i = i + 1;
        }
        if state.total_bond_stnibi_amount == 0 {
            return Ok(state);
        }
        let total_issued = state.total_stnibi_issued;
        let requested = self.current_batch.requested_stnibi;
        if state.total_bond_stnibi_amount > actual_total_bonded {
            state.total_bond_stnibi_amount = actual_total_bonded;
        }
        state.update_stnibi_exchange_rate(total_issued, requested);
        Ok(state)
    }

    /// Brings the stored state up to the actual state and returns it.
    pub fn slashing(&mut self, delegations: &Result<Vec<Delegation>, StdError>) -> (r: Result<State, StdError>)
        requires
            delegations is Ok ==> store_actual_state_fits(old(self), delegations->Ok_0@),
        ensures
            match delegations {
                Err(e) => r == Err::<State, StdError>(*e) && final(self).state == old(self).state,
                Ok(ds) => r == Ok::<State, StdError>(store_actual_state(old(self), ds@))
                    && final(self).state == store_actual_state(old(self), ds@),
            },
            final(self).config == old(self).config,
            final(self).params == old(self).params,
            final(self).current_batch == old(self).current_batch,
            final(self).guardians@ == old(self).guardians@,
            final(self).staker_info@ == old(self).staker_info@,
            final(self).staker_info_new@ == old(self).staker_info_new@,
            final(self).balance_updates@ == old(self).balance_updates@,
            final(self).lp_tokens@ == old(self).lp_tokens@,
            final(self).token_supply == old(self).token_supply,
            final(self).unbond_wait_list@ == old(self).unbond_wait_list@,
            final(self).unbond_history == old(self).unbond_history,
    {
        let state = self.query_actual_state(delegations)?;
        self.state = state;
        Ok(state)
    }
}

/// The part of `amount` that a slash by `pct` takes: `amount * pct`, rounded down.
pub open spec fn slash_cut(amount: u128, pct: Decimal) -> int {
    mul_div_floor(amount as int, pct.atomics as int, DECIMAL_FRACTIONAL as int)
}

/// Two staker records agree in every field, the validator list taken by its view.
pub open spec fn same_info(a: StakerInfo, b: StakerInfo) -> bool {
    &&& a.amount_staked_unibi == b.amount_staked_unibi
    &&& a.amount_stnibi_balance == b.amount_stnibi_balance
    &&& a.bonding_time == b.bonding_time
    &&& a.unbonding_period == b.unbonding_period
    &&& list_view(a.validator_list) == list_view(b.validator_list)
    &&& a.last_update_time == b.last_update_time
}

/// A staker's record after a slash by `pct`: each of its balances loses its cut.
pub open spec fn slashed_info(info: StakerInfo, pct: Decimal) -> StakerInfo {
    StakerInfo {
        amount_staked_unibi: (info.amount_staked_unibi - slash_cut(info.amount_staked_unibi, pct)) as u128,
        amount_stnibi_balance: (info.amount_stnibi_balance - slash_cut(info.amount_stnibi_balance, pct)) as u128,
        ..info
    }
}

/// The balance update that records a slash by `pct` of the staker record `info`,
/// charged to `validator`; it carries an exchange rate of one.
pub open spec fn slash_record(
    info: StakerInfo,
    pct: Decimal,
    validator: String,
    timestamp: u64,
    block_height: u64,
) -> BalanceUpdate {
    let after = slashed_info(info, pct);
    BalanceUpdate {
        action: BalanceAction::Slash {
            nibi_slashed: slash_cut(info.amount_staked_unibi, pct) as u128,
            stnibi_adjusted: slash_cut(info.amount_stnibi_balance, pct) as u128,
            validator,
        },
        timestamp,
        exchange_rate: Decimal { atomics: DECIMAL_FRACTIONAL },
        resulting_nibi_balance: after.amount_staked_unibi,
        resulting_stnibi_balance: after.amount_stnibi_balance,
        block_height,
    }
}

/// `update_balances_for_slash` panics: a cut does not fit in 128 bits, or the
/// staker's next update id does not fit in 64 bits.
pub open spec fn slash_update_panics(store: &HubStore, staker: Seq<char>, pct: Decimal) -> bool {
    match lookup(store.staker_info_new@, staker) {
        None => false,
        Some(info) => slash_cut(info.amount_staked_unibi, pct) > u128::MAX
            || slash_cut(info.amount_stnibi_balance, pct) > u128::MAX
            || (slash_cut(info.amount_staked_unibi, pct) <= info.amount_staked_unibi
                && slash_cut(info.amount_stnibi_balance, pct) <= info.amount_stnibi_balance
                && updates_of(store.balance_updates@, staker).len() >= u64::MAX),
    }
}

/// The parts of the storage that a slash does not touch are equal.
pub open spec fn same_but_slashed(a: &HubStore, b: &HubStore) -> bool {
    &&& a.config == b.config
    &&& a.params == b.params
    &&& a.current_batch == b.current_batch
    &&& a.guardians@ == b.guardians@
    &&& a.staker_info_new@ == b.staker_info_new@
    &&& a.lp_tokens@ == b.lp_tokens@
    &&& a.token_supply == b.token_supply
    &&& a.unbond_wait_list@ == b.unbond_wait_list@
    &&& a.unbond_history == b.unbond_history
}

proof fn lemma_slash_cut_bounded(amount: u128, pct: Decimal)
    requires
        pct.atomics <= DECIMAL_FRACTIONAL,
    ensures
        0 <= slash_cut(amount, pct) <= amount,
{
    let a = amount as int;
    let p = pct.atomics as int;
    let f = DECIMAL_FRACTIONAL as int;
    assert(p * a <= f * a) by {
        vstd::arithmetic::mul::lemma_mul_inequality(p, f, a);
    }
    assert(a * p == p * a) by {
        vstd::arithmetic::mul::lemma_mul_is_commutative(a, p);
    }
    assert((a * p) / f <= a) by {
        vstd::arithmetic::div_mod::lemma_multiply_divide_le(a * p, f, a);
    }
    assert(0 <= a * p) by {
        vstd::arithmetic::mul::lemma_mul_nonnegative(a, p);
    }
    assert(0 <= (a * p) / f) by {
        vstd::arithmetic::div_mod::lemma_div_pos_is_pos(a * p, f);
    }
}

impl HubStore {
    /// Slashes the staker's balances by `slash_percentage`, charged to `validator`:
    /// the staker's current record loses the cut of each balance, the result is
    /// stored in the old staker records, and a slash update is appended to the
    /// staker's balance updates. Fails when the staker has no current record, or when
    /// a cut exceeds its balance.
    pub fn update_balances_for_slash(
        &mut self,
        staker: &String,
        slash_percentage: Decimal,
        validator: String,
        timestamp: u64,
        block_height: u64,
    ) -> (r: Result<(), BalanceError>)
        requires
            !slash_update_panics(old(self), staker@, slash_percentage),
        ensures
            same_but_slashed(old(self), final(self)),
            final(self).state == old(self).state,
            forall|k: Seq<char>| k != staker@ ==> #[trigger] updates_of(final(self).balance_updates@, k)
                == updates_of(old(self).balance_updates@, k),
            match lookup(old(self).staker_info_new@, staker@) {
                None => r == Err::<(), BalanceError>(BalanceError::StakerNotFound)
                    && final(self).staker_info@ == old(self).staker_info@
                    && final(self).balance_updates@ == old(self).balance_updates@,
                Some(info) => if slash_cut(info.amount_staked_unibi, slash_percentage) > info.amount_staked_unibi
                    || slash_cut(info.amount_stnibi_balance, slash_percentage) > info.amount_stnibi_balance {
                    &&& r == Err::<(), BalanceError>(BalanceError::NegativeBalance)
                    &&& final(self).staker_info@ == old(self).staker_info@
                    &&& final(self).balance_updates@ == old(self).balance_updates@
                } else {
                    &&& r is Ok
                    &&& lookup(final(self).staker_info@, staker@) matches Some(x)
                        && same_info(x, slashed_info(info, slash_percentage))
                    &&& final(self).staker_info@ == insert_pair(
                        old(self).staker_info@,
                        staker@,
                        lookup(final(self).staker_info@, staker@)->Some_0,
                    )
                    &&& updates_of(final(self).balance_updates@, staker@) == updates_of(
                        old(self).balance_updates@,
                        staker@,
                    ).push(slash_record(info, slash_percentage, validator, timestamp, block_height))
                },
            },
    {
        let old_info = match self.staker_info_new.get(staker) {
            Some(i) => i,
            None => {
                return Err(BalanceError::StakerNotFound);
            },
        };
        let nibi_slashed = uint_mul_decimal(old_info.amount_staked_unibi, slash_percentage);
        let stnibi_adjusted = uint_mul_decimal(old_info.amount_stnibi_balance, slash_percentage);
        if nibi_slashed > old_info.amount_staked_unibi || stnibi_adjusted > old_info.amount_stnibi_balance {
            return Err(BalanceError::NegativeBalance);
        }
        let new_info = StakerInfo {
            amount_staked_unibi: old_info.amount_staked_unibi - nibi_slashed,
            amount_stnibi_balance: old_info.amount_stnibi_balance - stnibi_adjusted,
            bonding_time: old_info.bonding_time,
            unbonding_period: old_info.unbonding_period,
            validator_list: copy_list(&old_info.validator_list),
            last_update_time: old_info.last_update_time,
        };
        let update = BalanceUpdate {
            action: BalanceAction::Slash { nibi_slashed, stnibi_adjusted, validator },
            timestamp,
            exchange_rate: Decimal::one(),
            resulting_nibi_balance: new_info.amount_staked_unibi,
            resulting_stnibi_balance: new_info.amount_stnibi_balance,
            block_height,
        };
        let ghost bu = self.balance_updates@;
        let ghost si = self.staker_info@;
        let ghost x = new_info;
        let _ = self.staker_info.insert(staker.clone(), new_info);
        proof {
            lemma_insert_pair(si, staker@, x);
        }
        self.append_balance_update(staker, update);
        proof {
            lemma_insert_pair(bu, staker@, lookup(self.balance_updates@, staker@)->Some_0);
        }
        Ok(())
    }
}

/// The fraction by which the exchange rate fell from `prev` to `new`:
/// `1 - new / prev`.
pub open spec fn slash_percentage(prev: Decimal, new: Decimal) -> Decimal {
    Decimal {
        atomics: (DECIMAL_FRACTIONAL - mul_div_floor(
            new.atomics as int,
            DECIMAL_FRACTIONAL as int,
            prev.atomics as int,
        )) as u128,
    }
}

/// The slash records of a staker whose record is `info`: one per delegation among
/// the first `count` of `ds`, charged to that delegation's validator.
pub open spec fn slash_records(
    info: StakerInfo,
    pct: Decimal,
    ds: Seq<Delegation>,
    timestamp: u64,
    block_height: u64,
    count: int,
) -> Seq<BalanceUpdate> {
    Seq::new(count as nat, |x: int| slash_record(info, pct, ds[x].validator, timestamp, block_height))
}

/// The validators of the delegations `ds`, in order.
pub open spec fn validators_of(ds: Seq<Delegation>) -> Seq<String> {
    ds.map_values(|d: Delegation| d.validator)
}

/// The balance updates of `k` while a slash by `pct` is under way: every staker of
/// the old records that has a current record gets one slash record per delegation,
/// stakers in record order; the first `i` are done and the `i`-th has received `j`.
pub open spec fn slash_progress(
    old: &HubStore,
    pct: Decimal,
    ds: Seq<Delegation>,
    timestamp: u64,
    block_height: u64,
    k: Seq<char>,
    i: int,
    j: int,
) -> Seq<BalanceUpdate> {
    let done = if !has_key(old.staker_info@, k) {
        0
    } else if key_index(old.staker_info@, k) < i {
        ds.len() as int
    } else if key_index(old.staker_info@, k) == i {
        j
    } else {
        0
    };
    match lookup(old.staker_info_new@, k) {
        Some(info) => updates_of(old.balance_updates@, k) + slash_records(info, pct, ds, timestamp, block_height, done),
        None => updates_of(old.balance_updates@, k),
    }
}

/// The old record at position `idx` while a slash by `pct` over `m` delegations is
/// under way, the first `i` stakers done and the `i`-th at its `j`-th delegation:
/// once a staker with a current record has been slashed, its old record is the
/// slashed current one; otherwise it is unchanged.
pub open spec fn slashed_entry(old: &HubStore, pct: Decimal, m: int, idx: int, i: int, j: int, v: StakerInfo) -> bool {
    let k = old.staker_info@[idx].0;
    if lookup(old.staker_info_new@, k) is Some && ((idx < i && m > 0) || (idx == i && j > 0)) {
        same_info(v, slashed_info(lookup(old.staker_info_new@, k)->Some_0, pct))
    } else {
        v == old.staker_info@[idx].1
    }
}

/// Every staker of the old records can take one more slash update per delegation.
pub open spec fn slash_fits(store: &HubStore, ds: Seq<Delegation>) -> bool {
    forall|k: Seq<char>| #[trigger] has_key(store.staker_info@, k) && lookup(store.staker_info_new@, k) is Some
        ==> updates_of(store.balance_updates@, k).len() + ds.len() <= u64::MAX
}

/// What `execute_slashing` leaves in the stakers' old records and in the balance
/// updates when the exchange rate fell by `pct`: every staker of the old records that
/// has a current record is slashed once per delegation, its old record becoming the
/// slashed current one and its updates gaining one slash record per delegation.
pub open spec fn slashed_stakers(
    old: &HubStore,
    new: &HubStore,
    pct: Decimal,
    ds: Seq<Delegation>,
    timestamp: u64,
    block_height: u64,
) -> bool {
    let n = old.staker_info@.len() as int;
    &&& new.staker_info@.len() == n
    &&& forall|idx: int| 0 <= idx < n ==> #[trigger] new.staker_info@[idx].0 == old.staker_info@[idx].0
        && slashed_entry(old, pct, ds.len() as int, idx, n, 0, new.staker_info@[idx].1)
    &&& forall|k: Seq<char>| #[trigger] updates_of(new.balance_updates@, k)
        == slash_progress(old, pct, ds, timestamp, block_height, k, n, 0)
}

/// Looking at the same delegations twice is looking once: the actual state of the
/// actual state is the actual state, and computing it again does not overflow.
pub proof fn lemma_actual_state_idempotent(s: State, denom: Seq<char>, requested: u128, ds: Seq<Delegation>)
    requires
        actual_state_fits(s, denom, requested, ds),
    ensures
        actual_state_fits(actual_state(s, denom, requested, ds), denom, requested, ds),
        actual_state(actual_state(s, denom, requested, ds), denom, requested, ds) == actual_state(
            s,
            denom,
            requested,
            ds,
        ),
{
}

/// What `execute_slashing` does when it goes through: the state becomes the actual
/// state; when that lowers the exchange rate, the stakers are slashed by the fraction
/// it fell by, and the response reports the new rate, that fraction and the
/// validators the hub delegates to; otherwise it reports the new rate alone.
pub open spec fn slashing_effects(old: &HubStore, new: &HubStore, env: &Env, ds: Seq<Delegation>, r: Response) -> bool {
    let st = store_actual_state(old, ds);
    &&& new.state == st
    &&& same_but_slashed(old, new)
    &&& r.messages@.len() == 0
    &&& if st.stnibi_exchange_rate.atomics < old.state.stnibi_exchange_rate.atomics {
        let pct = slash_percentage(old.state.stnibi_exchange_rate, st.stnibi_exchange_rate);
        &&& slashed_stakers(old, new, pct, ds, env.block_time, env.block_height)
        &&& r.attributes@.len() == 4
        &&& r.attributes@[0] == Attr { key: "action", value: AttrValue::Static("check_slashing") }
        &&& r.attributes@[1] == Attr {
            key: "new_stnibi_exchange_rate",
            value: AttrValue::Dec(st.stnibi_exchange_rate),
        }
        &&& r.attributes@[2] == Attr { key: "slash_percentage", value: AttrValue::Dec(pct) }
        &&& r.attributes@[3].key == "affected_validators"
        &&& r.attributes@[3].value matches AttrValue::Joined(v) && v@ == validators_of(ds)
    } else {
        &&& new.staker_info@ == old.staker_info@
        &&& new.balance_updates@ == old.balance_updates@
        &&& r.attributes@ == seq![
            Attr { key: "action", value: AttrValue::Static("check_slashing") },
            Attr { key: "new_stnibi_exchange_rate", value: AttrValue::Dec(st.stnibi_exchange_rate) },
        ]
    }
}

impl HubStore {
    /// Checks for slashing: brings the state up to the actual state and, when that
    /// lowers the exchange rate, slashes every staker by the fraction the rate fell by,
    /// once per validator the hub delegates to. `delegations` is the outcome of the
    /// query for all of the hub's delegations (the same within one call).
    pub fn execute_slashing(&mut self, env: &Env, delegations: &Result<Vec<Delegation>, StdError>) -> (r: Result<
        Response,
        StdError,
    >)
        requires
            delegations is Ok ==> store_actual_state_fits(old(self), delegations->Ok_0@),
            delegations is Ok && store_actual_state(old(self), delegations->Ok_0@).stnibi_exchange_rate.atomics
                < old(self).state.stnibi_exchange_rate.atomics ==> slash_fits(old(self), delegations->Ok_0@),
        ensures
            slashing_done(old(self), final(self), env, delegations, r),
    {
        if match self.params.paused {
            Some(p) => p,
            None => false,
        } {
            return Err(StdError::Generic { msg: "the contract is temporarily paused" });
        }
        let ds = match delegations {
            Err(e) => {
                return Err(e.duplicate());
            },
            Ok(ds) => ds,
        };
        let prev_state = self.state;
        let new_state = self.slashing(delegations)?;
        if new_state.stnibi_exchange_rate.atomics < prev_state.stnibi_exchange_rate.atomics {
            let ghost new_rate = new_state.stnibi_exchange_rate.atomics as int;
            let ghost prev_rate = prev_state.stnibi_exchange_rate.atomics as int;
            let ghost f = DECIMAL_FRACTIONAL as int;
            proof {
                assert(new_rate * f < prev_rate * f) by {
                    vstd::arithmetic::mul::lemma_mul_strict_inequality(new_rate, prev_rate, f);
                }
                assert(new_rate * f < prev_rate * f ==> (new_rate * f) / prev_rate < f) by {
                    if new_rate * f < prev_rate * f {
                        vstd::arithmetic::div_mod::lemma_multiply_divide_lt(new_rate * f, prev_rate, f);
                    }
                }
                assert(0 <= new_rate * f) by {
                    vstd::arithmetic::mul::lemma_mul_nonnegative(new_rate, f);
                }
                assert(0 <= (new_rate * f) / prev_rate) by {
                    vstd::arithmetic::div_mod::lemma_div_pos_is_pos(new_rate * f, prev_rate);
                }
            }
            let ratio = decimal_div(new_state.stnibi_exchange_rate, prev_state.stnibi_exchange_rate);
            let slash_pct = ratio.one_minus();
            let m = ds.len();
            let mut affected: Vec<String> = Vec::new();
            let mut a: usize = 0;
            while a < m
                invariant
                    m == ds@.len(),
                    0 <= a <= m,
                    affected@ == validators_of(ds@).take(a as int),
                decreases m - a,
            {
                affected.push(ds[a].validator.clone());
                proof {
                    assert(affected@ =~= validators_of(ds@).take(a + 1));
                }
                a = a + 1;
            }
            proof {
                assert(validators_of(ds@).take(m as int) =~= validators_of(ds@));
            }
            let _ = self.staker_info.len();
            let stakers = self.staker_info.keys();
            let n = stakers.len();
            let mut i: usize = 0;
            while i < n
                invariant
                    n == old(self).staker_info@.len(),
                    stakers@.len() == n,
                    forall|x: int| 0 <= x < n ==> #[trigger] stakers@[x]@ == old(self).staker_info@[x].0,
                    distinct_keys(old(self).staker_info@),
                    m == ds@.len(),
                    affected@ == validators_of(ds@),
                    0 <= i <= n,
                    slash_pct.atomics <= DECIMAL_FRACTIONAL,
                    slash_fits(old(self), ds@),
                    same_but_slashed(old(self), self),
                    self.state == new_state,
                    self.staker_info@.len() == n,
                    forall|idx: int| 0 <= idx < n ==> #[trigger] self.staker_info@[idx].0 == old(self).staker_info@[idx].0
                        && slashed_entry(old(self), slash_pct, m as int, idx, i as int, 0, self.staker_info@[idx].1),
                    forall|k: Seq<char>| #[trigger] updates_of(self.balance_updates@, k) == slash_progress(
                        old(self),
                        slash_pct,
                        ds@,
                        env.block_time,
                        env.block_height,
                        k,
                        i as int,
                        0,
                    ),
                decreases n - i,
            {
                let mut j: usize = 0;
                while j < m
                    invariant
                        n == old(self).staker_info@.len(),
                        stakers@.len() == n,
                        forall|x: int| 0 <= x < n ==> #[trigger] stakers@[x]@ == old(self).staker_info@[x].0,
                        distinct_keys(old(self).staker_info@),
                        m == ds@.len(),
                        affected@ == validators_of(ds@),
                        0 <= i < n,
                        0 <= j <= m,
                        slash_pct.atomics <= DECIMAL_FRACTIONAL,
                        slash_fits(old(self), ds@),
                        same_but_slashed(old(self), self),
                        self.state == new_state,
                        self.staker_info@.len() == n,
                        forall|idx: int| 0 <= idx < n ==> #[trigger] self.staker_info@[idx].0
                            == old(self).staker_info@[idx].0 && slashed_entry(
                            old(self),
                            slash_pct,
                            m as int,
                            idx,
                            i as int,
                            j as int,
                            self.staker_info@[idx].1,
                        ),
                        forall|k: Seq<char>| #[trigger] updates_of(self.balance_updates@, k) == slash_progress(
                            old(self),
                            slash_pct,
                            ds@,
                            env.block_time,
                            env.block_height,
                            k,
                            i as int,
                            j as int,
                        ),
                    decreases m - j,
                {
                    let ghost sk = stakers@[i as int]@;
                    let ghost cur_si = self.staker_info@;
                    let ghost cur_bu = self.balance_updates@;
                    let ghost t = env.block_time;
                    let ghost h = env.block_height;
                    proof {
                        lemma_key_index_unique(old(self).staker_info@, i as int);
                        assert forall|a: int, b: int|
                            0 <= a < cur_si.len() && 0 <= b < cur_si.len() && a != b implies cur_si[a].0
                            != cur_si[b].0 by {
                            assert(cur_si[a].0 == old(self).staker_info@[a].0);
                            assert(cur_si[b].0 == old(self).staker_info@[b].0);
                        }
                        assert(cur_si[i as int].0 == sk);
                        lemma_key_index_unique(cur_si, i as int);
                        assert(updates_of(cur_bu, sk) == slash_progress(old(self), slash_pct, ds@, t, h, sk, i as int, j as int));
                        if lookup(old(self).staker_info_new@, sk) is Some {
                            let info = lookup(old(self).staker_info_new@, sk)->Some_0;
                            lemma_slash_cut_bounded(info.amount_staked_unibi, slash_pct);
                            lemma_slash_cut_bounded(info.amount_stnibi_balance, slash_pct);
                        }
                        assert(affected@[j as int] == validators_of(ds@)[j as int]);
                    }
                    let v = affected[j].clone();
                    let _ = self.update_balances_for_slash(&stakers[i], slash_pct, v, env.block_time, env.block_height);
                    proof {
                        assert forall|idx: int| 0 <= idx < n implies #[trigger] self.staker_info@[idx].0
                            == old(self).staker_info@[idx].0 && slashed_entry(
                            old(self),
                            slash_pct,
                            m as int,
                            idx,
                            i as int,
                            j + 1,
                            self.staker_info@[idx].1,
                        ) by {
                            assert(cur_si[idx].0 == old(self).staker_info@[idx].0);
                            assert(slashed_entry(old(self), slash_pct, m as int, idx, i as int, j as int, cur_si[idx].1));
                        }
                        assert forall|k: Seq<char>| #[trigger] updates_of(self.balance_updates@, k) == slash_progress(
                            old(self),
                            slash_pct,
                            ds@,
                            t,
                            h,
                            k,
                            i as int,
                            j + 1,
                        ) by {
                            assert(updates_of(cur_bu, k) == slash_progress(old(self), slash_pct, ds@, t, h, k, i as int, j as int));
                            if k == sk {
                                if lookup(old(self).staker_info_new@, sk) is Some {
                                    let info = lookup(old(self).staker_info_new@, sk)->Some_0;
                                    assert(updates_of(cur_bu, sk).push(
                                        slash_record(info, slash_pct, ds@[j as int].validator, t, h),
                                    ) =~= updates_of(old(self).balance_updates@, sk) + slash_records(
                                        info,
                                        slash_pct,
                                        ds@,
                                        t,
                                        h,
                                        j + 1,
                                    ));
                                }
                            } else if has_key(old(self).staker_info@, k) {
                                let q = key_index(old(self).staker_info@, k);
                                assert(old(self).staker_info@[q].0 == k);
                            }
                        }
                    }
                    j = j + 1;
                }
                proof {
                    assert forall|idx: int| 0 <= idx < n implies #[trigger] self.staker_info@[idx].0
                        == old(self).staker_info@[idx].0 && slashed_entry(
                        old(self),
                        slash_pct,
                        m as int,
                        idx,
                        i + 1,
                        0,
                        self.staker_info@[idx].1,
                    ) by {
                        assert(self.staker_info@[idx].0 == old(self).staker_info@[idx].0);
                        assert(slashed_entry(old(self), slash_pct, m as int, idx, i as int, m as int, self.staker_info@[idx].1));
                    }
                }
                i = i + 1;
                proof {
                    assert forall|idx: int| 0 <= idx < n implies slashed_entry(
                        old(self),
                        slash_pct,
                        m as int,
                        idx,
                        i as int,
                        0,
                        #[trigger] self.staker_info@[idx].1,
                    ) by {
                        assert(self.staker_info@[idx].0 == old(self).staker_info@[idx].0);
                    }
                }
            }
            let mut attributes: Vec<Attr> = Vec::new();
            attributes.push(attr_static("action", "check_slashing"));
            attributes.push(Attr { key: "new_stnibi_exchange_rate", value: AttrValue::Dec(new_state.stnibi_exchange_rate) });
            attributes.push(Attr { key: "slash_percentage", value: AttrValue::Dec(slash_pct) });
            attributes.push(Attr { key: "affected_validators", value: AttrValue::Joined(affected) });
            return Ok(Response { messages: Vec::new(), attributes });
        }
        proof {
            lemma_actual_state_idempotent(
                old(self).state,
                old(self).params.underlying_coin_denom@,
                old(self).current_batch.requested_stnibi,
                ds@,
            );
        }
        let state = self.slashing(delegations)?;
        let mut attributes: Vec<Attr> = Vec::new();
        attributes.push(attr_static("action", "check_slashing"));
        attributes.push(Attr { key: "new_stnibi_exchange_rate", value: AttrValue::Dec(state.stnibi_exchange_rate) });
        proof {
            assert(attributes@ =~= seq![
                Attr { key: "action", value: AttrValue::Static("check_slashing") },
                Attr { key: "new_stnibi_exchange_rate", value: AttrValue::Dec(state.stnibi_exchange_rate) },
            ]);
        }
        Ok(Response { messages: Vec::new(), attributes })
    }
}

/// What `execute_add_guardians` does.
pub open spec fn add_guardians_done(
    old: &HubStore,
    new: &HubStore,
    info: &MessageInfo,
    guardians: Vec<String>,
    r: Result<Response, StdError>,
) -> bool {
    &&& info.sender@ != old.config.creator@ ==> r == Err::<Response, StdError>(StdError::Generic { msg: "unauthorized" })
        && new.guardians@ == old.guardians@
    &&& info.sender@ == old.config.creator@ ==> r is Ok
        && new.guardians@ == guardians_added(old.guardians@, guardians@, guardians@.len() as int)
        && r->Ok_0.messages@.len() == 0
        && r->Ok_0.attributes@ == seq![Attr { key: "action", value: AttrValue::Static("add_guardians") }]
            + address_attrs("address", guardians@)
    &&& new.params == old.params
    &&& same_but_guardians_params(old, new)
}

/// What `execute_remove_guardians` does.
pub open spec fn remove_guardians_done(
    old: &HubStore,
    new: &HubStore,
    info: &MessageInfo,
    guardians: Vec<String>,
    r: Result<Response, StdError>,
) -> bool {
    &&& info.sender@ != old.config.creator@ ==> r == Err::<Response, StdError>(StdError::Generic { msg: "unauthorized" })
        && new.guardians@ == old.guardians@
    &&& info.sender@ == old.config.creator@ ==> r is Ok
        && new.guardians@ == guardians_removed(old.guardians@, guardians@, guardians@.len() as int)
        && r->Ok_0.messages@.len() == 0
        && r->Ok_0.attributes@ == seq![Attr { key: "action", value: AttrValue::Static("remove_guardians") }]
            + address_attrs("value", guardians@)
    &&& new.params == old.params
    &&& same_but_guardians_params(old, new)
}

/// What `execute_pause_contracts` does.
pub open spec fn pause_done(
    old: &HubStore,
    new: &HubStore,
    info: &MessageInfo,
    r: Result<Response, StdError>,
) -> bool {
    &&& !(info.sender@ == old.config.creator@ || has_key(old.guardians@, info.sender@)) ==> r
        == Err::<Response, StdError>(StdError::Generic { msg: "unauthorized" }) && new.params == old.params
    &&& (info.sender@ == old.config.creator@ || has_key(old.guardians@, info.sender@)) ==> r is Ok
        && new.params == (Parameters { paused: Some(true), ..old.params })
        && r->Ok_0.messages@.len() == 0
        && r->Ok_0.attributes@ == seq![Attr { key: "action", value: AttrValue::Static("pause_contracts") }]
    &&& new.guardians@ == old.guardians@
    &&& same_but_guardians_params(old, new)
}

/// What `execute_unpause_contracts` does.
pub open spec fn unpause_done(
    old: &HubStore,
    new: &HubStore,
    info: &MessageInfo,
    r: Result<Response, StdError>,
) -> bool {
    &&& info.sender@ != old.config.creator@ ==> r == Err::<Response, StdError>(StdError::Generic { msg: "unauthorized" })
        && new.params == old.params
    &&& info.sender@ == old.config.creator@ ==> r is Ok
        && new.params == (Parameters { paused: Some(false), ..old.params })
        && r->Ok_0.messages@.len() == 0
        && r->Ok_0.attributes@ == seq![Attr { key: "action", value: AttrValue::Static("unpause_contracts") }]
    &&& new.guardians@ == old.guardians@
    &&& same_but_guardians_params(old, new)
}

/// What `execute_dispatch_rewards` answers.
pub open spec fn dispatch_rewards_done(
    store: &HubStore,
    delegations: &Result<Vec<Delegation>, StdError>,
    r: Result<Response, StdError>,
) -> bool {
    &&& store.params.paused == Some(true) ==> r == Err::<Response, StdError>(StdError::Generic { msg: "the contract is temporarily paused" })
    &&& store.params.paused != Some(true) && store.config.reward_dispatcher_contract is None ==> r == Err::<Response, StdError>(
        StdError::Generic { msg: "the reward contract must have been registered" })
    &&& store.params.paused != Some(true) && store.config.reward_dispatcher_contract is Some ==> match delegations {
        Err(e) => r == Err::<Response, StdError>(*e),
        Ok(ds) => r is Ok && r->Ok_0.messages@.len() == ds@.len() + 1
            && (forall|i: int| 0 <= i < ds@.len() ==> #[trigger] r->Ok_0.messages@[i]
                == (Msg::WithdrawDelegatorReward { validator: ds@[i].validator }))
            && (r->Ok_0.messages@.last() matches Msg::Execute { contract_addr, call: WasmCall::DispatchRewards, funds }
                && contract_addr == store.config.reward_dispatcher_contract->Some_0 && funds@.len() == 0)
            && r->Ok_0.attributes@ == seq![Attr { key: "action", value: AttrValue::Static("dispatch_rewards") }],
    }
}

/// What `execute_slashing` does.
pub open spec fn slashing_done(
    old: &HubStore,
    new: &HubStore,
    env: &Env,
    delegations: &Result<Vec<Delegation>, StdError>,
    r: Result<Response, StdError>,
) -> bool {
    &&& if old.params.paused == Some(true) {
        r == Err::<Response, StdError>(StdError::Generic { msg: "the contract is temporarily paused" })
            && store_unchanged(old, new)
    } else {
        match delegations {
            Err(e) => r == Err::<Response, StdError>(*e) && store_unchanged(old, new),
            Ok(ds) => r is Ok && slashing_effects(old, new, env, ds@, r->Ok_0),
        }
    }
}

/// What the host answered for one call of the hub: the hub's delegations, the
/// registry's validators, and the checks of the addresses that a configuration update
/// gives. A message consults only the answers it needs.
pub struct HubAnswers {
    pub delegations: Result<Vec<Delegation>, StdError>,
    pub validators: Result<Vec<ValidatorResponse>, StdError>,
    pub owner_check: Result<(), StdError>,
    pub reward_check: Result<(), StdError>,
    pub token_check: Result<(), StdError>,
    pub registry_check: Result<(), StdError>,
}

/// The messages that `execute` routes: all but the unbonding ones (`Receive`,
/// `WithdrawUnbonded`), whose handlers are not part of this library, `Restake`,
/// which the hub does not route, and `RedelegateProxy`, on which the hub panics.
pub open spec fn routed(msg: ExecuteMsg) -> bool {
    !(msg is Receive || msg is WithdrawUnbonded || msg is Restake || msg is RedelegateProxy)
}

impl HubStore {
    /// Runs one message with the host's `answers`. The new owner, reward dispatcher,
    /// stNIBI token contract and registry of an update are checked by `answers`.
    pub fn execute(&mut self, env: &Env, info: &MessageInfo, msg: ExecuteMsg, answers: HubAnswers) -> (r: Result<
        Response,
        StdError,
    >)
        requires
            routed(msg),
            msg is BondForstnibi ==> !(bond_outcome(
                old(self),
                env,
                info,
                BondType::stnibi,
                answers.delegations,
                answers.validators,
            ) is Panics),
            msg is BondRewards ==> !(bond_outcome(
                old(self),
                env,
                info,
                BondType::BondRewards,
                answers.delegations,
                answers.validators,
            ) is Panics),
            msg is CheckSlashing && answers.delegations is Ok ==> store_actual_state_fits(
                old(self),
                answers.delegations->Ok_0@,
            ) && (store_actual_state(old(self), answers.delegations->Ok_0@).stnibi_exchange_rate.atomics
                < old(self).state.stnibi_exchange_rate.atomics ==> slash_fits(old(self), answers.delegations->Ok_0@)),
        ensures
            match msg {
                ExecuteMsg::UpdateConfig {
                    owner,
                    rewards_dispatcher_contract,
                    validators_registry_contract,
                    stnibi_token_contract,
                    stnibi_denom,
                } => update_config_done(
                    old(self),
                    final(self),
                    info,
                    owner,
                    rewards_dispatcher_contract,
                    stnibi_token_contract,
                    validators_registry_contract,
                    stnibi_denom,
                    answers.owner_check,
                    answers.reward_check,
                    answers.token_check,
                    answers.registry_check,
                    r,
                ),
                ExecuteMsg::UpdateParams { epoch_period, unbonding_period } => update_params_done(
                    old(self),
                    final(self),
                    info,
                    epoch_period,
                    unbonding_period,
                    r,
                ),
                ExecuteMsg::PauseContracts => pause_done(old(self), final(self), info, r),
                ExecuteMsg::UnpauseContracts => unpause_done(old(self), final(self), info, r),
                ExecuteMsg::BondForstnibi => bond_done(
                    old(self),
                    final(self),
                    env,
                    info,
                    BondType::stnibi,
                    answers.delegations,
                    answers.validators,
                    r,
                ),
                ExecuteMsg::BondRewards => bond_done(
                    old(self),
                    final(self),
                    env,
                    info,
                    BondType::BondRewards,
                    answers.delegations,
                    answers.validators,
                    r,
                ),
                ExecuteMsg::DispatchRewards => dispatch_rewards_done(old(self), &answers.delegations, r)
                    && store_unchanged(old(self), final(self)),
                ExecuteMsg::CheckSlashing => slashing_done(old(self), final(self), env, &answers.delegations, r),
                ExecuteMsg::AddGuardians { addresses } => add_guardians_done(old(self), final(self), info, addresses, r),
                ExecuteMsg::RemoveGuardians { addresses } => remove_guardians_done(
                    old(self),
                    final(self),
                    info,
                    addresses,
                    r,
                ),
                _ => true,
            },
    {
        let HubAnswers { delegations, validators, owner_check, reward_check, token_check, registry_check } = answers;
        match msg {
            ExecuteMsg::UpdateConfig {
                owner,
                rewards_dispatcher_contract,
                validators_registry_contract,
                stnibi_token_contract,
                stnibi_denom,
            } => self.execute_update_config(
                info,
                owner,
                rewards_dispatcher_contract,
                stnibi_token_contract,
                validators_registry_contract,
                stnibi_denom,
                owner_check,
                reward_check,
                token_check,
                registry_check,
            ),
            ExecuteMsg::UpdateParams { epoch_period, unbonding_period } => self.execute_update_params(
                info,
                epoch_period,
                unbonding_period,
            ),
            ExecuteMsg::PauseContracts => self.execute_pause_contracts(info),
            ExecuteMsg::UnpauseContracts => self.execute_unpause_contracts(info),
            ExecuteMsg::BondForstnibi => self.execute_bond(env, info, BondType::stnibi, delegations, validators),
            ExecuteMsg::BondRewards => self.execute_bond(env, info, BondType::BondRewards, delegations, validators),
            ExecuteMsg::DispatchRewards => self.execute_dispatch_rewards(&delegations),
            ExecuteMsg::CheckSlashing => self.execute_slashing(env, &delegations),
            ExecuteMsg::AddGuardians { addresses } => self.execute_add_guardians(info, addresses),
            ExecuteMsg::RemoveGuardians { addresses } => self.execute_remove_guardians(info, addresses),
            ExecuteMsg::Receive { .. } | ExecuteMsg::WithdrawUnbonded | ExecuteMsg::Restake { .. }
            | ExecuteMsg::RedelegateProxy { .. } => {
                proof {
                    assert(false);
                }
                Err(StdError::Generic { msg: "unreachable" })
            },
        }
    }
}

/// `s` after storing `true` under each of the first `k` addresses of `gs`.
pub open spec fn guardians_added(s: Seq<(Seq<char>, bool)>, gs: Seq<String>, k: int) -> Seq<(Seq<char>, bool)>
    decreases k,
{
    if k <= 0 {
        s
    } else {
        insert_pair(guardians_added(s, gs, k - 1), gs[k - 1]@, true)
    }
}

/// `s` after removing each of the first `k` addresses of `gs`.
pub open spec fn guardians_removed(s: Seq<(Seq<char>, bool)>, gs: Seq<String>, k: int) -> Seq<(Seq<char>, bool)>
    decreases k,
{
    if k <= 0 {
        s
    } else {
        remove_key(guardians_removed(s, gs, k - 1), gs[k - 1]@)
    }
}

/// One attribute per address of `gs`, under `key`.
pub open spec fn address_attrs(key: &'static str, gs: Seq<String>) -> Seq<Attr> {
    gs.map_values(|g: String| Attr { key, value: AttrValue::Text(g) })
}

/// Everything but the guardians and the parameters is left as it was.
pub open spec fn same_but_guardians_params(a: &HubStore, b: &HubStore) -> bool {
    &&& a.config == b.config
    &&& a.state == b.state
    &&& a.current_batch == b.current_batch
    &&& a.staker_info@ == b.staker_info@
    &&& a.staker_info_new@ == b.staker_info_new@
    &&& a.balance_updates@ == b.balance_updates@
    &&& a.lp_tokens@ == b.lp_tokens@
    &&& a.token_supply == b.token_supply
    &&& a.unbond_wait_list@ == b.unbond_wait_list@
    &&& a.unbond_history == b.unbond_history
}

/// Sets the hub up: the sender is the creator, no other contract is registered yet,
/// the exchange rate is one, the parameters are those given and not paused, and the
/// first batch is open.
pub fn instantiate(env: &Env, info: &MessageInfo, msg: InstantiateMsg) -> (r: (HubStore, Response))
    ensures
        r.0.config.creator == info.sender,
        r.0.config.reward_dispatcher_contract is None,
        r.0.config.validators_registry_contract is None,
        r.0.config.stnibi_token_contract is None,
        r.0.config.rstnibi_token_contract is None,
        r.0.config.stnibi_reserve is None,
        r.0.config.total_bonded == 0,
        r.0.config.stnibi_denom is None,
        r.0.state == (State {
            total_stnibi_issued: 0,
            total_rstnibi_issued: 0,
            stnibi_exchange_rate: Decimal { atomics: crate::decimal::DECIMAL_FRACTIONAL },
            total_bond_stnibi_amount: 0,
            prev_hub_balance: 0,
            last_unbonded_time: env.block_time,
            last_processed_batch: 0,
        }),
        r.0.params.epoch_period == msg.epoch_period,
        r.0.params.underlying_coin_denom == msg.underlying_coin_denom,
        r.0.params.unbonding_period == msg.unbonding_period,
        r.0.params.paused == Some(false),
        r.0.current_batch == (CurrentBatch { id: 1, requested_stnibi: 0 }),
        r.0.guardians@.len() == 0,
        r.0.staker_info@.len() == 0,
        r.0.staker_info_new@.len() == 0,
        r.0.balance_updates@.len() == 0,
        r.0.lp_tokens@.len() == 0,
        r.0.token_supply is None,
        r.0.unbond_wait_list@.len() == 0,
        r.0.unbond_history@.len() == 0,
        r.1.messages@.len() == 0,
        r.1.attributes@.len() == 0,
{
    let store = HubStore {
        config: Config {
            creator: info.sender.clone(),
            reward_dispatcher_contract: None,
            validators_registry_contract: None,
            stnibi_token_contract: None,
            rstnibi_token_contract: None,
            stnibi_reserve: None,
            total_bonded: 0,
            stnibi_denom: None,
        },
        state: State {
            total_stnibi_issued: 0,
            total_rstnibi_issued: 0,
            stnibi_exchange_rate: Decimal::one(),
            total_bond_stnibi_amount: 0,
            prev_hub_balance: 0,
            last_unbonded_time: env.block_time,
            last_processed_batch: 0,
        },
        params: Parameters {
            epoch_period: msg.epoch_period,
            underlying_coin_denom: msg.underlying_coin_denom,
            unbonding_period: msg.unbonding_period,
            paused: Some(false),
        },
        current_batch: CurrentBatch { id: 1, requested_stnibi: 0 },
        guardians: AddrMap::new(),
        staker_info: AddrMap::new(),
        staker_info_new: AddrMap::new(),
        balance_updates: AddrMap::new(),
        lp_tokens: AddrMap::new(),
        token_supply: None,
        unbond_wait_list: AddrMap::new(),
        unbond_history: Vec::new(),
    };
    (store, Response { messages: Vec::new(), attributes: Vec::new() })
}

/// What a migration does: nothing.
pub fn migrate() -> (r: Response)
    ensures
        r.messages@.len() == 0,
        r.attributes@.len() == 0,
{
    Response { messages: Vec::new(), attributes: Vec::new() }
}

/// Where the unbonding process is described.
///
/// # Unbonding Process in Cosmos-SDK Based Chains
///
/// This contract interacts with two levels of unbonding:
///
/// 1. Contract Level:
///    - Configurable through `params.unbonding_period`
///    - Controls when users can withdraw from the contract
///    - Can be set to any value including 0
///
/// 2. Protocol Level (Cosmos SDK):
///    - Fixed 21-day unbonding period
///    - Hardcoded in the Cosmos SDK staking module
///    - Cannot be modified by contracts or the chain
///    - Required for network security
///
/// The effective unbonding period will always be at least 21 days due to
/// the protocol-level requirement, regardless of contract settings.
pub fn document_unbonding_process() -> (r: &'static str)
    ensures
        r == "See function documentation for unbonding process details",
{
    "See function documentation for unbonding process details"
}

/// The messages that withdraw the hub's rewards from each validator it delegates to;
/// `delegations` is the outcome of the query for the hub's delegations.
pub fn withdraw_all_rewards(delegations: &Result<Vec<Delegation>, StdError>) -> (r: Result<Vec<Msg>, StdError>)
    ensures
        match delegations {
            Err(e) => r == Err::<Vec<Msg>, StdError>(*e),
            Ok(ds) => r is Ok && r->Ok_0@.len() == ds@.len() && forall|i: int| 0 <= i < ds@.len()
                ==> #[trigger] r->Ok_0@[i] == (Msg::WithdrawDelegatorReward { validator: ds@[i].validator }),
        },
{
    let ds = match delegations {
        Err(e) => { return Err(e.duplicate()); },
        Ok(ds) => ds,
    };
    let mut messages: Vec<Msg> = Vec::new();
    let n = ds.len();
    let mut i: usize = 0;
    while i < n
        invariant
            n == ds@.len(),
            0 <= i <= n,
            messages@.len() == i,
            forall|k: int| 0 <= k < i ==> #[trigger] messages@[k] == (Msg::WithdrawDelegatorReward { validator: ds@[k].validator }),
        decreases n - i,
    {
        messages.push(Msg::WithdrawDelegatorReward { validator: ds[i].validator.clone() });
        i = i + 1;
    }
    Ok(messages)
}

impl HubStore {
    /// Marks the addresses as guardians, who may pause the hub; only the creator may.
    pub fn execute_add_guardians(&mut self, info: &MessageInfo, guardians: Vec<String>) -> (r: Result<Response, StdError>)
        ensures
            add_guardians_done(old(self), final(self), info, guardians, r),
    {
        if info.sender != self.config.creator {
            return Err(StdError::Generic { msg: "unauthorized" });
        }
        let mut attributes: Vec<Attr> = Vec::new();
        attributes.push(attr_static("action", "add_guardians"));
        let n = guardians.len();
        let mut i: usize = 0;
        while i < n
            invariant
                n == guardians@.len(),
                0 <= i <= n,
                self.guardians@ == guardians_added(old(self).guardians@, guardians@, i as int),
                attributes@ == seq![Attr { key: "action", value: AttrValue::Static("add_guardians") }]
                    + address_attrs("address", guardians@.take(i as int)),
                self.params == old(self).params,
                same_but_guardians_params(old(self), self),
            decreases n - i,
        {
            let _ = self.guardians.insert(guardians[i].clone(), true);
            attributes.push(attr_text("address", guardians[i].clone()));
            proof {
                assert(address_attrs("address", guardians@.take(i + 1)) =~= address_attrs("address", guardians@.take(i as int)).push(
                    Attr { key: "address", value: AttrValue::Text(guardians@[i as int]) }));
            }
            i = i + 1;
        }
        proof {
            assert(guardians@.take(n as int) =~= guardians@);
        }
        Ok(Response { messages: Vec::new(), attributes })
    }

    /// Takes the guardian role from the addresses; only the creator may.
    pub fn execute_remove_guardians(&mut self, info: &MessageInfo, guardians: Vec<String>) -> (r: Result<Response, StdError>)
        ensures
            remove_guardians_done(old(self), final(self), info, guardians, r),
    {
        if info.sender != self.config.creator {
            return Err(StdError::Generic { msg: "unauthorized" });
        }
        let mut attributes: Vec<Attr> = Vec::new();
        attributes.push(attr_static("action", "remove_guardians"));
        let n = guardians.len();
        let mut i: usize = 0;
        while i < n
            invariant
                n == guardians@.len(),
                0 <= i <= n,
                self.guardians@ == guardians_removed(old(self).guardians@, guardians@, i as int),
                attributes@ == seq![Attr { key: "action", value: AttrValue::Static("remove_guardians") }]
                    + address_attrs("value", guardians@.take(i as int)),
                self.params == old(self).params,
                same_but_guardians_params(old(self), self),
            decreases n - i,
        {
            self.guardians.remove(&guardians[i]);
            attributes.push(attr_text("value", guardians[i].clone()));
            proof {
                assert(address_attrs("value", guardians@.take(i + 1)) =~= address_attrs("value", guardians@.take(i as int)).push(
                    Attr { key: "value", value: AttrValue::Text(guardians@[i as int]) }));
            }
            i = i + 1;
        }
        proof {
            assert(guardians@.take(n as int) =~= guardians@);
        }
        Ok(Response { messages: Vec::new(), attributes })
    }

    /// Pauses the hub; the creator and the guardians may.
    pub fn execute_pause_contracts(&mut self, info: &MessageInfo) -> (r: Result<Response, StdError>)
        ensures
            pause_done(old(self), final(self), info, r),
    {
        if !(info.sender == self.config.creator || self.guardians.contains_key(&info.sender)) {
            return Err(StdError::Generic { msg: "unauthorized" });
        }
        self.params.paused = Some(true);
        let mut attributes: Vec<Attr> = Vec::new();
        attributes.push(attr_static("action", "pause_contracts"));
        proof {
            assert(attributes@ =~= seq![Attr { key: "action", value: AttrValue::Static("pause_contracts") }]);
        }
        Ok(Response { messages: Vec::new(), attributes })
    }

    /// Unpauses the hub; only the creator may.
    pub fn execute_unpause_contracts(&mut self, info: &MessageInfo) -> (r: Result<Response, StdError>)
        ensures
            unpause_done(old(self), final(self), info, r),
    {
        if info.sender != self.config.creator {
            return Err(StdError::Generic { msg: "unauthorized" });
        }
        self.params.paused = Some(false);
        let mut attributes: Vec<Attr> = Vec::new();
        attributes.push(attr_static("action", "unpause_contracts"));
        proof {
            assert(attributes@ =~= seq![Attr { key: "action", value: AttrValue::Static("unpause_contracts") }]);
        }
        Ok(Response { messages: Vec::new(), attributes })
    }

    /// Accepts stNIBI sent back through the token contract for unbonding: the hub
    /// must not be paused, the sending contract `sender` must pass the host's address
    /// check (`sender_check` is its outcome), the token contract must be registered,
    /// and only that contract may send. On success it returns the amount and the
    /// staker to unbond for.
    pub fn receive_cw20(
        &self,
        sender: &String,
        sender_check: Result<(), StdError>,
        staker: String,
        amount: u128,
    ) -> (r: Result<(u128, String), StdError>)
        ensures
            r == if self.params.paused == Some(true) {
                Err::<(u128, String), StdError>(StdError::Generic { msg: "the contract is temporarily paused" })
            } else if sender_check is Err {
                Err(sender_check->Err_0)
            } else if self.config.stnibi_token_contract is None {
                Err(StdError::Generic { msg: "the stnibi token contract must have been registered" })
            } else if sender@ != self.config.stnibi_token_contract->Some_0@ {
                Err(StdError::Generic { msg: "unauthorized" })
            } else {
                Ok((amount, staker))
            },
    {
        if match self.params.paused { Some(p) => p, None => false } {
            return Err(StdError::Generic { msg: "the contract is temporarily paused" });
        }
        if let Err(e) = sender_check {
            return Err(e);
        }
        let token = match &self.config.stnibi_token_contract {
            Some(t) => t,
            None => {
                return Err(StdError::Generic { msg: "the stnibi token contract must have been registered" });
            },
        };
        if *sender != *token {
            return Err(StdError::Generic { msg: "unauthorized" });
        }
        Ok((amount, staker))
    }

    /// Withdraws the rewards of every validator the hub delegates to and asks the
    /// reward dispatcher to dispatch them. Anyone may call it while the hub is not
    /// paused; the dispatcher must be registered.
    pub fn execute_dispatch_rewards(&self, delegations: &Result<Vec<Delegation>, StdError>) -> (r: Result<Response, StdError>)
        ensures
            dispatch_rewards_done(self, delegations, r),
    {
        if match self.params.paused { Some(p) => p, None => false } {
            return Err(StdError::Generic { msg: "the contract is temporarily paused" });
        }
        let dispatcher = match &self.config.reward_dispatcher_contract {
            Some(d) => d.clone(),
            None => { return Err(StdError::Generic { msg: "the reward contract must have been registered" }); },
        };
        let mut messages = withdraw_all_rewards(delegations)?;
        messages.push(Msg::Execute { contract_addr: dispatcher, call: WasmCall::DispatchRewards, funds: Vec::new() });
        let mut attributes: Vec<Attr> = Vec::new();
        attributes.push(attr_static("action", "dispatch_rewards"));
        proof {
            assert(attributes@ =~= seq![Attr { key: "action", value: AttrValue::Static("dispatch_rewards") }]);
        }
        Ok(Response { messages, attributes })
    }
}

/// The number of updates a page holds at most: `limit`, ten by default, never more
/// than thirty.
pub open spec fn update_page_limit(limit: Option<u64>) -> int {
    let l = match limit {
        Some(l) => l as int,
        None => 10,
    };
    if l < 30 {
        l
    } else {
        30
    }
}

/// The number of updates on the page of `u` after id `start_after`, newest first.
pub open spec fn update_page_len(u: Seq<BalanceUpdate>, start_after: Option<u64>, limit: Option<u64>) -> int {
    let lo = match start_after {
        Some(s) => if s < u.len() { s as int } else { u.len() as int },
        None => 0,
    };
    if update_page_limit(limit) < u.len() - lo {
        update_page_limit(limit)
    } else {
        u.len() - lo
    }
}

/// The page of `u` (ids are positions plus one) with ids after `start_after`, newest
/// first, at most `update_page_limit(limit)` of them.
pub open spec fn update_page(u: Seq<BalanceUpdate>, start_after: Option<u64>, limit: Option<u64>) -> Seq<BalanceUpdate> {
    Seq::new(update_page_len(u, start_after, limit) as nat, |i: int| u[u.len() - 1 - i])
}

/// The NIBI bonded, and the NIBI unbonded, by the first `k` updates of `p`.
pub open spec fn page_bonded(p: Seq<BalanceUpdate>, k: int) -> int
    decreases k,
{
    if k <= 0 {
        0
    } else {
        page_bonded(p, k - 1) + match p[k - 1].action {
            BalanceAction::Bond { nibi_amount, .. } => nibi_amount as int,
            _ => 0,
        }
    }
}

pub open spec fn page_unbonded(p: Seq<BalanceUpdate>, k: int) -> int
    decreases k,
{
    if k <= 0 {
        0
    } else {
        page_unbonded(p, k - 1) + match p[k - 1].action {
            BalanceAction::Unbond { nibi_unbonded, .. } => nibi_unbonded as int,
            _ => 0,
        }
    }
}

/// The rewards bonded by the first `k` updates of `p`.
pub open spec fn page_rewards(p: Seq<BalanceUpdate>, k: int) -> int
    decreases k,
{
    if k <= 0 {
        0
    } else {
        page_rewards(p, k - 1) + match p[k - 1].action {
            BalanceAction::BondRewards { nibi_amount } => nibi_amount as int,
            _ => 0,
        }
    }
}

proof fn lemma_page_sums_prefix(p: Seq<BalanceUpdate>, u: BalanceUpdate, k: int)
    requires
        0 <= k <= p.len(),
    ensures
        page_rewards(p.push(u), k) == page_rewards(p, k),
        page_bonded(p.push(u), k) == page_bonded(p, k),
        page_unbonded(p.push(u), k) == page_unbonded(p, k),
    decreases k,
{
    if k > 0 {
        lemma_page_sums_prefix(p, u, k - 1);
        assert(p.push(u)[k - 1] == p[k - 1]);
    }
}

/// Only rewards bonds earn rewards, and only user bonds and unbonds count as bonded
/// and unbonded: a list without updates of a kind sums to nothing for that kind.
pub proof fn lemma_page_sums_need_their_kind(p: Seq<BalanceUpdate>, k: int)
    requires
        0 <= k <= p.len(),
    ensures
        (forall|i: int| 0 <= i < k ==> !(#[trigger] p[i].action is BondRewards)) ==> page_rewards(p, k) == 0,
        (forall|i: int| 0 <= i < k ==> !(#[trigger] p[i].action is Bond)) ==> page_bonded(p, k) == 0,
        (forall|i: int| 0 <= i < k ==> !(#[trigger] p[i].action is Unbond)) ==> page_unbonded(p, k) == 0,
    decreases k,
{
    if k > 0 {
        lemma_page_sums_need_their_kind(p, k - 1);
    }
}

/// One more update adds its own NIBI to exactly one of the sums: a rewards bond to the
/// rewards, a user bond to the bonded NIBI, an unbond to the unbonded NIBI; any other
/// update (a slash) leaves all three as they were.
pub proof fn lemma_page_sums_after_update(p: Seq<BalanceUpdate>, u: BalanceUpdate)
    ensures
        ({
            let n = p.len() as int;
            let q = p.push(u);
            &&& u.action matches BalanceAction::BondRewards { nibi_amount } ==> page_rewards(q, n + 1)
                == page_rewards(p, n) + nibi_amount
            &&& !(u.action is BondRewards) ==> page_rewards(q, n + 1) == page_rewards(p, n)
            &&& u.action matches BalanceAction::Bond { nibi_amount, .. } ==> page_bonded(q, n + 1)
                == page_bonded(p, n) + nibi_amount
            &&& !(u.action is Bond) ==> page_bonded(q, n + 1) == page_bonded(p, n)
            &&& u.action matches BalanceAction::Unbond { nibi_unbonded, .. } ==> page_unbonded(q, n + 1)
                == page_unbonded(p, n) + nibi_unbonded
            &&& !(u.action is Unbond) ==> page_unbonded(q, n + 1) == page_unbonded(p, n)
        }),
{
    lemma_page_sums_prefix(p, u, p.len() as int);
    assert(p.push(u)[p.len() as int] == u);
}

pub(crate) proof fn lemma_page_sums_monotone(p: Seq<BalanceUpdate>, k: int, n: int)
    requires
        0 <= k <= n,
    ensures
        page_bonded(p, k) <= page_bonded(p, n),
        page_unbonded(p, k) <= page_unbonded(p, n),
        page_rewards(p, k) <= page_rewards(p, n),
    decreases n - k,
{
    if k < n {
        lemma_page_sums_monotone(p, k + 1, n);
    }
}

/// The requests of `l` whose batch `h` holds, with their release times under a
/// contract unbonding period `cp`, for the first `k` requests.
pub open spec fn unbonding_details(l: Seq<(u64, u128)>, h: Seq<(u64, UnbondHistory)>, cp: u64, k: int) -> Seq<UnbondingRequest>
    decreases k,
{
    if k <= 0 {
        Seq::empty()
    } else {
        let p = unbonding_details(l, h, cp, k - 1);
        match lookup(h, l[k - 1].0) {
            Some(b) => {
                let contract_release = (b.time + cp) as u64;
                let protocol_release = (b.time + COSMOS_UNBONDING_PERIOD) as u64;
                p.push(UnbondingRequest {
                    batch_id: l[k - 1].0,
                    amount: l[k - 1].1,
                    time_requested: b.time,
                    contract_release_time: contract_release,
                    protocol_release_time: protocol_release,
                    final_release_time: if contract_release < protocol_release { protocol_release } else { contract_release },
                })
            },
            None => p,
        }
    }
}

/// The amount of the first `k` requests of `l` whose batch `h` holds.
pub open spec fn unbonding_total(l: Seq<(u64, u128)>, h: Seq<(u64, UnbondHistory)>, k: int) -> int
    decreases k,
{
    if k <= 0 {
        0
    } else {
        unbonding_total(l, h, k - 1) + match lookup(h, l[k - 1].0) {
            Some(b) => l[k - 1].1 as int,
            None => 0,
        }
    }
}

/// The release times of the first `k` requests of `l` fit in 64 bits.
pub open spec fn release_times_fit(l: Seq<(u64, u128)>, h: Seq<(u64, UnbondHistory)>, cp: u64, k: int) -> bool {
    forall|i: int| 0 <= i < k ==> match #[trigger] lookup(h, l[i].0) {
        Some(b) => b.time + cp <= u64::MAX && b.time + COSMOS_UNBONDING_PERIOD <= u64::MAX,
        None => true,
    }
}

pub(crate) proof fn lemma_unbonding_total_monotone(l: Seq<(u64, u128)>, h: Seq<(u64, UnbondHistory)>, k: int, n: int)
    requires
        0 <= k <= n,
    ensures
        unbonding_total(l, h, k) <= unbonding_total(l, h, n),
    decreases n - k,
{
    if k < n {
        lemma_unbonding_total_monotone(l, h, k + 1, n);
    }
}

/// When each pending request is released: it was requested when its batch was
/// processed; the contract releases it its own unbonding period later, the chain its
/// unbonding period later, and it is finally released at the later of the two, so
/// no sooner than both periods after the request.
pub proof fn lemma_release_after_both_periods(l: Seq<(u64, u128)>, h: Seq<(u64, UnbondHistory)>, cp: u64, k: int)
    requires
        0 <= k <= l.len(),
        release_times_fit(l, h, cp, k),
    ensures
        forall|i: int| 0 <= i < unbonding_details(l, h, cp, k).len() ==> {
            let q = #[trigger] unbonding_details(l, h, cp, k)[i];
            &&& lookup(h, q.batch_id) matches Some(b) && b.time == q.time_requested
            &&& q.contract_release_time == q.time_requested + cp
            &&& q.protocol_release_time == q.time_requested + COSMOS_UNBONDING_PERIOD
            &&& q.final_release_time == if cp < COSMOS_UNBONDING_PERIOD {
                q.protocol_release_time
            } else {
                q.contract_release_time
            }
            &&& q.final_release_time >= q.time_requested + COSMOS_UNBONDING_PERIOD
            &&& q.final_release_time >= q.time_requested + cp
        },
    decreases k,
{
    if k > 0 {
        assert(release_times_fit(l, h, cp, k - 1));
        lemma_release_after_both_periods(l, h, cp, k - 1);
        let p = unbonding_details(l, h, cp, k - 1);
        let d = unbonding_details(l, h, cp, k);
        match lookup(h, l[k - 1].0) {
            Some(b) => {
                assert(b.time + cp <= u64::MAX && b.time + COSMOS_UNBONDING_PERIOD <= u64::MAX);
                assert forall|i: int| 0 <= i < d.len() implies {
                    let q = #[trigger] d[i];
                    &&& lookup(h, q.batch_id) matches Some(b) && b.time == q.time_requested
                    &&& q.contract_release_time == q.time_requested + cp
                    &&& q.protocol_release_time == q.time_requested + COSMOS_UNBONDING_PERIOD
                    &&& q.final_release_time == if cp < COSMOS_UNBONDING_PERIOD {
                        q.protocol_release_time
                    } else {
                        q.contract_release_time
                    }
                    &&& q.final_release_time >= q.time_requested + COSMOS_UNBONDING_PERIOD
                    &&& q.final_release_time >= q.time_requested + cp
                } by {
                    if i < p.len() {
                        assert(d[i] == p[i]);
                    }
                }
            },
            None => {
                assert(d == p);
            },
        }
    }
}

/// An empty staker record.
pub open spec fn empty_staker_info() -> StakerInfo {
    StakerInfo {
        amount_staked_unibi: 0,
        amount_stnibi_balance: 0,
        bonding_time: 0,
        unbonding_period: None,
        validator_list: None,
        last_update_time: 0,
    }
}

impl HubStore {
    /// The page of `staker`'s balance updates after `start_after`, newest first, and
    /// the last update id; nothing for an unknown staker.
    pub fn query_balance_updates(&self, staker: &String, start_after: Option<u64>, limit: Option<u64>) -> (r: BalanceUpdatesResponse)
        ensures
            !has_key(self.staker_info_new@, staker@) ==> r.updates@.len() == 0 && r.last_update_id == 0,
            has_key(self.staker_info_new@, staker@) ==> r.updates@ == update_page(
                updates_of(self.balance_updates@, staker@), start_after, limit)
                && r.last_update_id == updates_of(self.balance_updates@, staker@).len(),
    {
        if !self.staker_info_new.contains_key(staker) {
            return BalanceUpdatesResponse { updates: Vec::new(), last_update_id: 0 };
        }
        let updates = self.update_page_of(staker, start_after, limit);
        let last: usize = match self.balance_updates.get(staker) {
            Some(v) => v.len(),
            None => 0,
        };
        BalanceUpdatesResponse { updates, last_update_id: last as u64 }
    }

    /// The page of `staker`'s balance updates after `start_after`, newest first.
    pub(crate) fn update_page_of(&self, staker: &String, start_after: Option<u64>, limit: Option<u64>) -> (r: Vec<BalanceUpdate>)
        ensures
            r@ == update_page(updates_of(self.balance_updates@, staker@), start_after, limit),
    {
        let ghost u = updates_of(self.balance_updates@, staker@);
        let empty: Vec<BalanceUpdate> = Vec::new();
        let list = match self.balance_updates.get(staker) {
            Some(v) => v,
            None => &empty,
        };
        proof {
            assert(list@ == u);
        }
        let lim: u64 = match limit {
            Some(l) => if l < 30 { l } else { 30 },
            None => 10,
        };
        let n = list.len();
        let lo: usize = match start_after {
            Some(s) => if (s as u128) < (n as u128) { s as usize } else { n },
            None => 0,
        };
        let count: usize = if (lim as u128) < ((n - lo) as u128) { lim as usize } else { n - lo };
        proof {
            assert(count == update_page_len(u, start_after, limit));
        }
        let mut r: Vec<BalanceUpdate> = Vec::new();
        let mut i: usize = 0;
        while i < count
            invariant
                n == u.len(),
                list@ == u,
                lo <= n,
                count <= n - lo,
                0 <= i <= count,
                r@.len() == i,
                forall|k: int| 0 <= k < i ==> #[trigger] r@[k] == u[n - 1 - k],
            decreases count - i,
        {
            r.push(list[n - 1 - i].copy());
            i = i + 1;
        }
        proof {
            assert(r@ =~= update_page(u, start_after, limit));
        }
        r
    }

    /// The rewards bonded to `staker`, over all its updates. They must fit in 128
    /// bits (the contract panics otherwise).
    pub fn calculate_total_rewards(&self, staker: &String) -> (r: u128)
        requires
            page_rewards(updates_of(self.balance_updates@, staker@), updates_of(self.balance_updates@, staker@).len() as int)
                <= u128::MAX,
        ensures
            r == page_rewards(updates_of(self.balance_updates@, staker@), updates_of(self.balance_updates@, staker@).len() as int),
            (forall|i: int| 0 <= i < updates_of(self.balance_updates@, staker@).len() ==> !(
            #[trigger] updates_of(self.balance_updates@, staker@)[i].action is BondRewards)) ==> r == 0,
    {
        let ghost u = updates_of(self.balance_updates@, staker@);
        let empty: Vec<BalanceUpdate> = Vec::new();
        let list = match self.balance_updates.get(staker) {
            Some(v) => v,
            None => &empty,
        };
        let n = list.len();
        let mut total: u128 = 0;
        let mut i: usize = 0;
        while i < n
            invariant
                n == u.len(),
                list@ == u,
                0 <= i <= n,
                total == page_rewards(u, i as int),
                page_rewards(u, n as int) <= u128::MAX,
            decreases n - i,
        {
            proof {
                lemma_page_sums_monotone(u, i + 1, n as int);
            }
            match list[i].action {
                BalanceAction::BondRewards { nibi_amount } => {
                    total = total + nibi_amount;
                },
                _ => {},
            }
            i = i + 1;
        }
        proof {
            lemma_page_sums_need_their_kind(u, n as int);
        }
        total
    }

    /// `staker`'s record with the time of its last update and the rewards bonded to
    /// it; zeros for an unknown staker. For a known staker the rewards must fit in 128
    /// bits (the contract panics otherwise).
    pub fn query_staker_info(&self, staker: &String) -> (r: StakerInfoResponse)
        requires
            has_key(self.staker_info_new@, staker@) ==> page_rewards(
                updates_of(self.balance_updates@, staker@),
                updates_of(self.balance_updates@, staker@).len() as int,
            ) <= u128::MAX,
        ensures
            match lookup(self.staker_info_new@, staker@) {
                None => r.amount_staked_unibi == 0 && r.amount_stnibi_balance == 0 && r.bonding_time == 0
                    && r.unbonding_period is None && r.validator_list is None && r.last_update_time == 0
                    && r.total_rewards_earned is None,
                Some(info) => {
                    let u = updates_of(self.balance_updates@, staker@);
                    &&& r.amount_staked_unibi == info.amount_staked_unibi
                    &&& r.amount_stnibi_balance == info.amount_stnibi_balance
                    &&& r.bonding_time == info.bonding_time
                    &&& r.unbonding_period == info.unbonding_period
                    &&& list_view(r.validator_list) == list_view(info.validator_list)
                    &&& r.last_update_time == if u.len() > 0 { u.last().timestamp } else { 0 }
                    &&& r.total_rewards_earned == Some(page_rewards(u, u.len() as int) as u128)
                    &&& (forall|i: int| 0 <= i < u.len() ==> !(#[trigger] u[i].action is BondRewards))
                        ==> r.total_rewards_earned == Some(0u128)
                },
            },
    {
        match self.staker_info_new.get(staker) {
            None => StakerInfoResponse {
                amount_staked_unibi: 0,
                amount_stnibi_balance: 0,
                bonding_time: 0,
                unbonding_period: None,
                validator_list: None,
                last_update_time: 0,
                total_rewards_earned: None,
            },
            Some(info) => {
                let last_update_time: u64 = match self.balance_updates.get(staker) {
                    Some(v) => if v.len() > 0 { v[v.len() - 1].timestamp } else { 0 },
                    None => 0,
                };
                let total = self.calculate_total_rewards(staker);
                StakerInfoResponse {
                    amount_staked_unibi: info.amount_staked_unibi,
                    amount_stnibi_balance: info.amount_stnibi_balance,
                    bonding_time: info.bonding_time,
                    unbonding_period: info.unbonding_period,
                    validator_list: copy_list(&info.validator_list),
                    last_update_time,
                    total_rewards_earned: Some(total),
                }
            },
        }
    }

    /// The page of `staker`'s balance updates after `start_after`, newest first, with
    /// the NIBI the page bonds and unbonds and the staker's stNIBI balance; nothing for
    /// an unknown staker. For a known staker the page's sums must fit in 128 bits (the
    /// contract panics otherwise).
    pub fn query_balance_history(&self, staker: &String, start_after: Option<u64>, limit: Option<u64>) -> (r: BalanceHistory)
        requires
            has_key(self.staker_info_new@, staker@) ==> ({
                let p = update_page(updates_of(self.balance_updates@, staker@), start_after, limit);
                page_bonded(p, p.len() as int) <= u128::MAX && page_unbonded(p, p.len() as int) <= u128::MAX
            }),
        ensures
            match lookup(self.staker_info_new@, staker@) {
                None => r.updates@.len() == 0 && r.total_bonded == 0 && r.total_unbonded == 0 && r.current_stnibi == 0,
                Some(info) => {
                    let p = update_page(updates_of(self.balance_updates@, staker@), start_after, limit);
                    &&& r.updates@ == p
                    &&& r.total_bonded == page_bonded(p, p.len() as int)
                    &&& r.total_unbonded == page_unbonded(p, p.len() as int)
                    &&& (forall|i: int| 0 <= i < p.len() ==> !(#[trigger] p[i].action is Bond)) ==> r.total_bonded == 0
                    &&& (forall|i: int| 0 <= i < p.len() ==> !(#[trigger] p[i].action is Unbond)) ==> r.total_unbonded
                        == 0
                    &&& r.current_stnibi == info.amount_stnibi_balance
                },
            },
    {
        let current = match self.staker_info_new.get(staker) {
            None => {
                return BalanceHistory { updates: Vec::new(), total_bonded: 0, total_unbonded: 0, current_stnibi: 0 };
            },
            Some(info) => info.amount_stnibi_balance,
        };
        let updates = self.update_page_of(staker, start_after, limit);
        let ghost p = updates@;
        let n = updates.len();
        let mut total_bonded: u128 = 0;
        let mut total_unbonded: u128 = 0;
        let mut i: usize = 0;
        while i < n
            invariant
                n == p.len(),
                updates@ == p,
                0 <= i <= n,
                total_bonded == page_bonded(p, i as int),
                total_unbonded == page_unbonded(p, i as int),
                page_bonded(p, n as int) <= u128::MAX,
                page_unbonded(p, n as int) <= u128::MAX,
            decreases n - i,
        {
            proof {
                lemma_page_sums_monotone(p, i + 1, n as int);
            }
            match &updates[i].action {
                BalanceAction::Bond { nibi_amount, .. } => {
                    total_bonded = total_bonded + *nibi_amount;
                },
                BalanceAction::Unbond { nibi_unbonded, .. } => {
                    total_unbonded = total_unbonded + *nibi_unbonded;
                },
                _ => {},
            }
            i = i + 1;
        }
        proof {
            lemma_page_sums_need_their_kind(p, n as int);
        }
        BalanceHistory { updates, total_bonded, total_unbonded, current_stnibi: current }
    }

    /// `staker`'s record in the older staker map, or an empty record.
    pub fn query_staker(&self, staker: &String) -> (r: StakerInfo)
        ensures
            match lookup(self.staker_info@, staker@) {
                None => r == empty_staker_info(),
                Some(info) => r.amount_staked_unibi == info.amount_staked_unibi
                    && r.amount_stnibi_balance == info.amount_stnibi_balance
                    && r.bonding_time == info.bonding_time
                    && r.unbonding_period == info.unbonding_period
                    && list_view(r.validator_list) == list_view(info.validator_list)
                    && r.last_update_time == info.last_update_time,
            },
    {
        match self.staker_info.get(staker) {
            Some(info) => StakerInfo {
                amount_staked_unibi: info.amount_staked_unibi,
                amount_stnibi_balance: info.amount_stnibi_balance,
                bonding_time: info.bonding_time,
                unbonding_period: info.unbonding_period,
                validator_list: copy_list(&info.validator_list),
                last_update_time: info.last_update_time,
            },
            None => StakerInfo {
                amount_staked_unibi: 0,
                amount_stnibi_balance: 0,
                bonding_time: 0,
                unbonding_period: None,
                validator_list: None,
                last_update_time: 0,
            },
        }
    }

    /// The liquidity tokens `staker` holds; the contract panics for a staker without
    /// any, which `requires` leaves out.
    pub fn query_restake(&self, staker: String) -> (r: RestakeResponse)
        requires
            has_key(self.lp_tokens@, staker@),
        ensures
            r.Staker == staker,
            Some(r.stnibi_amount) == lookup(self.lp_tokens@, staker@),
    {
        let amount = match self.lp_tokens.get(&staker) {
            Some(a) => *a,
            None => 0,
        };
        RestakeResponse { Staker: staker, stnibi_amount: amount }
    }

    /// The guardians, in storage order.
    pub fn query_guardians(&self) -> (r: Vec<String>)
        ensures
            r@.len() == self.guardians@.len(),
            forall|i: int| 0 <= i < r@.len() ==> #[trigger] r@[i]@ == self.guardians@[i].0,
    {
        self.guardians.keys()
    }

    /// The creator and the registered contracts.
    pub fn query_config(&self) -> (r: ConfigResponse)
        ensures
            r.owner == self.config.creator,
            r.reward_dispatcher_contract == self.config.reward_dispatcher_contract,
            r.validators_registry_contract == self.config.validators_registry_contract,
            r.stnibi_token_contract == self.config.stnibi_token_contract,
    {
        ConfigResponse {
            owner: self.config.creator.clone(),
            reward_dispatcher_contract: match &self.config.reward_dispatcher_contract {
                Some(a) => Some(a.clone()),
                None => None,
            },
            validators_registry_contract: match &self.config.validators_registry_contract {
                Some(a) => Some(a.clone()),
                None => None,
            },
            stnibi_token_contract: match &self.config.stnibi_token_contract {
                Some(a) => Some(a.clone()),
                None => None,
            },
        }
    }

    /// The actual state; `delegations` is the outcome of the query for the hub's
    /// delegations.
    pub fn query_state(&self, delegations: &Result<Vec<Delegation>, StdError>) -> (r: Result<StateResponse, StdError>)
        requires
            delegations is Ok ==> store_actual_state_fits(self, delegations->Ok_0@),
        ensures
            match delegations {
                Err(e) => r == Err::<StateResponse, StdError>(*e),
                Ok(ds) => {
                    let st = store_actual_state(self, ds@);
                    r == Ok::<StateResponse, StdError>(StateResponse {
                        stnibi_exchange_rate: st.stnibi_exchange_rate,
                        total_bond_stnibi_amount: st.total_bond_stnibi_amount,
                        prev_hub_balance: st.prev_hub_balance,
                        last_unbonded_time: st.last_unbonded_time,
                        last_processed_batch: st.last_processed_batch,
                    })
                },
            },
    {
        let state = self.query_actual_state(delegations)?;
        Ok(StateResponse {
            stnibi_exchange_rate: state.stnibi_exchange_rate,
            total_bond_stnibi_amount: state.total_bond_stnibi_amount,
            prev_hub_balance: state.prev_hub_balance,
            last_unbonded_time: state.last_unbonded_time,
            last_processed_batch: state.last_processed_batch,
        })
    }

    pub fn query_current_batch(&self) -> (r: CurrentBatchResponse)
        ensures
            r == (CurrentBatchResponse { id: self.current_batch.id, requested_stnibi: self.current_batch.requested_stnibi }),
    {
        CurrentBatchResponse { id: self.current_batch.id, requested_stnibi: self.current_batch.requested_stnibi }
    }

    /// What `address` may withdraw: its requests in batches processed more than an
    /// unbonding period ago. The block time must not precede one unbonding period
    /// and the amount must fit in 128 bits (the contract panics otherwise).
    pub fn query_withdrawable_unbonded(&self, address: &String, env: &Env) -> (r: WithdrawableUnbondedResponse)
        requires
            history_sorted(self.unbond_history@),
            env.block_time >= self.params.unbonding_period,
            withdrawable_prefix(
                wait_list_of(self.unbond_wait_list@, address@),
                self.unbond_history@,
                processed_before((env.block_time - self.params.unbonding_period) as u64),
                wait_list_of(self.unbond_wait_list@, address@).len() as int,
            ) <= u128::MAX,
        ensures
            r.withdrawable == withdrawable_prefix(
                wait_list_of(self.unbond_wait_list@, address@),
                self.unbond_history@,
                processed_before((env.block_time - self.params.unbonding_period) as u64),
                wait_list_of(self.unbond_wait_list@, address@).len() as int,
            ),
    {
        let historical_time = env.block_time - self.params.unbonding_period;
        let all_requests = self.query_get_finished_amount(address, historical_time);
        WithdrawableUnbondedResponse { withdrawable: all_requests }
    }

    pub fn query_params(&self) -> (r: Parameters)
        ensures
            r == self.params,
    {
        Parameters {
            epoch_period: self.params.epoch_period,
            underlying_coin_denom: self.params.underlying_coin_denom.clone(),
            unbonding_period: self.params.unbonding_period,
            paused: self.params.paused,
        }
    }

    /// The stNIBI the hub has issued, as its state records it.
    pub fn query_total_stnibi_issued(&self) -> (r: u128)
        ensures
            r == self.state.total_stnibi_issued,
    {
        self.state.total_stnibi_issued
    }

    pub fn query_unbond_requests(&self, address: String) -> (r: UnbondRequestsResponse)
        ensures
            r.address == address,
            r.requests@ == wait_list_of(self.unbond_wait_list@, address@),
    {
        let requests = self.get_unbond_requests(&address);
        UnbondRequestsResponse { address, requests }
    }

    /// The page of processed batches after `start`, as `all_unbond_history` gives it.
    pub fn query_unbond_requests_limitation(&self, start: Option<u64>, limit: Option<u32>) -> (r: AllHistoryResponse)
        requires
            history_sorted(self.unbond_history@),
        ensures
            ({
                let h = self.unbond_history@;
                let from = first_after(h, start);
                let to = if from + history_page_limit(limit) < h.len() {
                    from + history_page_limit(limit)
                } else {
                    h.len() as int
                };
                &&& r.history@.len() == to - from
                &&& forall|i: int| 0 <= i < r.history@.len() ==> {
                    let b = #[trigger] h[from + i].1;
                    r.history@[i] == (UnbondHistoryResponse {
                        batch_id: b.batch_id,
                        time: b.time,
                        stnibi_amount: b.stnibi_amount,
                        stnibi_applied_exchange_rate: b.stnibi_applied_exchange_rate,
                        stnibi_withdraw_rate: b.stnibi_withdraw_rate,
                        released: b.released,
                    })
                }
            }),
    {
        let requests = self.all_unbond_history(start, limit);
        let ghost h = self.unbond_history@;
        let ghost from = first_after(h, start);
        let mut history: Vec<UnbondHistoryResponse> = Vec::new();
        let n = requests.len();
        let mut i: usize = 0;
        while i < n
            invariant
                n == requests@.len(),
                0 <= i <= n,
                0 <= from,
                from + n <= h.len(),
                forall|k: int| 0 <= k < n ==> #[trigger] requests@[k] == h[from + k].1,
                history@.len() == i,
                forall|k: int| 0 <= k < i ==> {
                    let b = #[trigger] h[from + k].1;
                    history@[k] == (UnbondHistoryResponse {
                        batch_id: b.batch_id,
                        time: b.time,
                        stnibi_amount: b.stnibi_amount,
                        stnibi_applied_exchange_rate: b.stnibi_applied_exchange_rate,
                        stnibi_withdraw_rate: b.stnibi_withdraw_rate,
                        released: b.released,
                    })
                },
            decreases n - i,
        {
            let r = requests[i];
            history.push(UnbondHistoryResponse {
                batch_id: r.batch_id,
                time: r.time,
                stnibi_amount: r.stnibi_amount,
                stnibi_applied_exchange_rate: r.stnibi_applied_exchange_rate,
                stnibi_withdraw_rate: r.stnibi_withdraw_rate,
                released: r.released,
            });
            i = i + 1;
        }
        AllHistoryResponse { history }
    }

    /// A user's pending unbonding: each request in a processed batch with the times
    /// the contract and the chain release it, their total, the periods, and whether
    /// the user has delegations of its own. `address_check` is the outcome of the
    /// host's check of the address, `user_delegations` that of the query for the
    /// user's delegations. The total and the release times must fit (the contract
    /// panics otherwise).
    pub fn query_unbonding_info(
        &self,
        user_address: &String,
        address_check: Result<(), StdError>,
        user_delegations: Result<Vec<Delegation>, StdError>,
    ) -> (r: Result<UnbondingInfoResponse, StdError>)
        requires
            history_sorted(self.unbond_history@),
            ({
                let l = wait_list_of(self.unbond_wait_list@, user_address@);
                &&& unbonding_total(l, self.unbond_history@, l.len() as int) <= u128::MAX
                &&& release_times_fit(l, self.unbond_history@, self.params.unbonding_period, l.len() as int)
            }),
        ensures
            address_check is Err ==> r == Err::<UnbondingInfoResponse, StdError>(address_check->Err_0),
            address_check is Ok && user_delegations is Err ==> r == Err::<UnbondingInfoResponse, StdError>(
                user_delegations->Err_0),
            address_check is Ok && user_delegations is Ok ==> r is Ok && ({
                let l = wait_list_of(self.unbond_wait_list@, user_address@);
                let cp = self.params.unbonding_period;
                let v = r->Ok_0;
                &&& v.contract_unbonding_period == cp
                &&& v.protocol_unbonding_period == COSMOS_UNBONDING_PERIOD
                &&& v.effective_unbonding_period == if cp < COSMOS_UNBONDING_PERIOD { COSMOS_UNBONDING_PERIOD } else { cp }
                &&& v.unbonding_requests@ == unbonding_details(l, self.unbond_history@, cp, l.len() as int)
                &&& v.total_unbonding == unbonding_total(l, self.unbond_history@, l.len() as int)
                &&& v.is_unbonding_protocol_locked == (user_delegations->Ok_0@.len() > 0)
                &&& v.effective_unbonding_period >= COSMOS_UNBONDING_PERIOD
                &&& forall|i: int| 0 <= i < v.unbonding_requests@.len() ==> {
                    let q = #[trigger] v.unbonding_requests@[i];
                    &&& lookup(self.unbond_history@, q.batch_id) matches Some(b) && b.time == q.time_requested
                    &&& q.contract_release_time == q.time_requested + cp
                    &&& q.protocol_release_time == q.time_requested + COSMOS_UNBONDING_PERIOD
                    &&& q.final_release_time >= q.time_requested + COSMOS_UNBONDING_PERIOD
                    &&& q.final_release_time >= q.time_requested + cp
                }
            }),
    {
        let contract_period = self.params.unbonding_period;
        let effective_period = if contract_period < COSMOS_UNBONDING_PERIOD { COSMOS_UNBONDING_PERIOD } else { contract_period };
        let requests = self.get_unbond_requests(user_address);
        if let Err(e) = address_check {
            return Err(e);
        }
        let is_protocol_unbonding = match user_delegations {
            Err(e) => { return Err(e); },
            Ok(ds) => ds.len() > 0,
        };
        let ghost l = requests@;
        let ghost h = self.unbond_history@;
        let n = requests.len();
        let mut details: Vec<UnbondingRequest> = Vec::new();
        let mut total_unbonding: u128 = 0;
        let mut i: usize = 0;
        while i < n
            invariant
                n == l.len(),
                requests@ == l,
                h == self.unbond_history@,
                history_sorted(h),
                contract_period == self.params.unbonding_period,
                0 <= i <= n,
                details@ == unbonding_details(l, h, contract_period, i as int),
                total_unbonding == unbonding_total(l, h, i as int),
                unbonding_total(l, h, n as int) <= u128::MAX,
                release_times_fit(l, h, contract_period, n as int),
            decreases n - i,
        {
            let (batch_id, amount) = requests[i];
            proof {
                lemma_unbonding_total_monotone(l, h, i + 1, n as int);
                let _ = lookup(h, l[i as int].0);
            }
            match self.read_unbond_history(batch_id) {
                Ok(history) => {
                    total_unbonding = total_unbonding + amount;
                    let contract_release = history.time + contract_period;
                    let protocol_release = history.time + COSMOS_UNBONDING_PERIOD;
                    let final_release = if contract_release < protocol_release { protocol_release } else { contract_release };
                    details.push(UnbondingRequest {
                        batch_id,
                        amount,
                        time_requested: history.time,
                        contract_release_time: contract_release,
                        protocol_release_time: protocol_release,
                        final_release_time: final_release,
                    });
                },
                Err(_) => {},
            }
            i = i + 1;
        }
        proof {
            lemma_release_after_both_periods(l, h, contract_period, n as int);
        }
        Ok(UnbondingInfoResponse {
            contract_unbonding_period: contract_period,
            protocol_unbonding_period: COSMOS_UNBONDING_PERIOD,
            effective_unbonding_period: effective_period,
            unbonding_requests: details,
            total_unbonding,
            is_unbonding_protocol_locked: is_protocol_unbonding,
        })
    }
}

} // verus!
