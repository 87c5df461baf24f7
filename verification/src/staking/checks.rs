//! Whether the hub's entry points can run on given inputs. The contract panics on
//! arithmetic overflow, and the library's functions leave those inputs out by their
//! preconditions; these functions tell a caller beforehand.
use vstd::prelude::*;

use crate::addr_map::{has_key, lemma_key_index_unique, lookup};
use crate::decimal::{mul_div_fits, DECIMAL_FRACTIONAL};
use crate::host::{Delegation, Env, MessageInfo, StdError};
use crate::hub::{BondType, UnbondHistory};
use crate::staking::bond::{bond_outcome, Outcome};
use crate::staking::contract::{
    bonded_in, lemma_bonded_monotone, lemma_page_sums_monotone, lemma_unbonding_total_monotone, page_bonded,
    page_rewards, page_unbonded, release_times_fit, slash_fits, store_actual_state, store_actual_state_fits,
    unbonding_total, update_page,
};
use crate::staking::math::decimal_division;
use crate::staking::state::{
    BalanceAction, HubStore, history_sorted, lemma_withdrawable_monotone, processed_before, updates_of,
    wait_list_of, withdrawable_prefix, COSMOS_UNBONDING_PERIOD,
};
use crate::validator_registry::{ValidatorResponse, delegations_fit};

verus! {

impl HubStore {
    /// Whether the processed batches are stored by ascending id, as the queries on
    /// them need.
    pub fn history_is_sorted(&self) -> (r: bool)
        ensures
            r == history_sorted(self.unbond_history@),
    {
        let n = self.unbond_history.len();
        let mut i: usize = 1;
        if n == 0 {
            return true;
        }
        while i < n
            invariant
                n == self.unbond_history@.len(),
                1 <= i <= n,
                forall|a: int, b: int| 0 <= a < b < i ==> self.unbond_history@[a].0 < self.unbond_history@[b].0,
            decreases n - i,
        {
            if self.unbond_history[i - 1].0 >= self.unbond_history[i].0 {
                return false;
            }
            i = i + 1;
        }
        true
    }

    /// Whether the actual state can be computed for the outcome `delegations` of the
    /// delegation query, as `query_actual_state` needs.
    pub fn actual_state_computable(&self, delegations: &Result<Vec<Delegation>, StdError>) -> (r: bool)
        ensures
            r == (delegations is Ok ==> store_actual_state_fits(self, delegations->Ok_0@)),
    {
        let ds = match delegations {
            Err(_) => {
                return true;
            },
            Ok(ds) => ds,
        };
        if ds.len() == 0 {
            return true;
        }
        let ghost denom = self.params.underlying_coin_denom@;
        let n = ds.len();
        let mut actual: u128 = 0;
        let mut i: usize = 0;
        while i < n
            invariant
                n == ds@.len(),
                0 <= i <= n,
                delegations is Ok,
                delegations->Ok_0@ == ds@,
                denom == self.params.underlying_coin_denom@,
                actual == bonded_in(ds@, denom, i as int),
            decreases n - i,
        {
            proof {
                lemma_bonded_monotone(ds@, denom, i + 1, n as int);
            }
            if ds[i].amount.denom == self.params.underlying_coin_denom {
                if actual > u128::MAX - ds[i].amount.amount {
                    proof {
                        assert(bonded_in(ds@, denom, i + 1) > u128::MAX);
                    }
                    return false;
                }
                actual = actual + ds[i].amount.amount;
            }
            i = i + 1;
        }
        if self.state.total_bond_stnibi_amount == 0 {
            return true;
        }
        let bond = if self.state.total_bond_stnibi_amount > actual {
            actual
        } else {
            self.state.total_bond_stnibi_amount
        };
        if self.state.total_stnibi_issued > u128::MAX - self.current_batch.requested_stnibi {
            return false;
        }
        let supply = self.state.total_stnibi_issued + self.current_batch.requested_stnibi;
        bond == 0 || supply == 0 || mul_div_fits(bond, DECIMAL_FRACTIONAL, supply)
    }

    /// Whether `execute_bond` panics on these inputs (it overflows somewhere).
    pub fn bond_panics(
        &self,
        env: &Env,
        info: &MessageInfo,
        bond_type: BondType,
        delegations: &Result<Vec<Delegation>, StdError>,
        validators: &Result<Vec<ValidatorResponse>, StdError>,
    ) -> (r: bool)
        ensures
            r == (bond_outcome(self, env, info, bond_type, *delegations, *validators) is Panics),
    {
        if delegations.is_err() {
            return false;
        }
        if !self.actual_state_computable(delegations) {
            return true;
        }
        let st = match self.query_actual_state(delegations) {
            Ok(s) => s,
            Err(_) => {
                return false;
            },
        };
        if match self.params.paused {
            Some(p) => p,
            None => false,
        } {
            return false;
        }
        let dispatcher = match &self.config.reward_dispatcher_contract {
            Some(a) => a,
            None => {
                return false;
            },
        };
        if bond_type == BondType::BondRewards && info.sender != *dispatcher {
            return false;
        }
        if info.funds.len() > 1 {
            return false;
        }
        if info.funds.len() == 0 || !(info.funds[0].denom == self.params.underlying_coin_denom
            && info.funds[0].amount > 0) {
            return false;
        }
        let amount = info.funds[0].amount;
        if bond_type == BondType::stnibi && !mul_div_fits(amount, DECIMAL_FRACTIONAL, st.stnibi_exchange_rate.atomics) {
            return true;
        }
        let mint: u128 = if bond_type == BondType::stnibi {
            decimal_division(amount, st.stnibi_exchange_rate)
        } else {
            0
        };
        if st.total_stnibi_issued > u128::MAX - mint {
            return false;
        }
        if st.total_bond_stnibi_amount > u128::MAX - amount {
            return false;
        }
        if bond_type == BondType::BondRewards {
            let bonded = st.total_bond_stnibi_amount + amount;
            let issued = st.total_stnibi_issued + mint;
            if issued > u128::MAX - self.current_batch.requested_stnibi {
                return true;
            }
            let supply = issued + self.current_batch.requested_stnibi;
            if !(bonded == 0 || supply == 0 || mul_div_fits(bonded, DECIMAL_FRACTIONAL, supply)) {
                return true;
            }
        }
        if self.check_bond_update(&info.sender, amount, mint, env.block_time, st.stnibi_exchange_rate, bond_type).is_err() {
            return false;
        }
        if self.config.validators_registry_contract.is_none() {
            return false;
        }
        let vs = match validators {
            Ok(v) => v,
            Err(_) => {
                return false;
            },
        };
        if vs.len() == 0 {
            return false;
        }
        !delegations_fit(vs, amount)
    }

    /// Whether `execute_slashing` panics on this outcome of the delegation query: the
    /// actual state cannot be computed, or the exchange rate falls and a staker's
    /// update ids would overflow.
    pub fn slashing_panics(&self, delegations: &Result<Vec<Delegation>, StdError>) -> (r: bool)
        ensures
            r == !(delegations is Ok ==> store_actual_state_fits(self, delegations->Ok_0@) && (store_actual_state(
                self,
                delegations->Ok_0@,
            ).stnibi_exchange_rate.atomics < self.state.stnibi_exchange_rate.atomics ==> slash_fits(
                self,
                delegations->Ok_0@,
            ))),
    {
        let ds = match delegations {
            Err(_) => {
                return false;
            },
            Ok(ds) => ds,
        };
        if !self.actual_state_computable(delegations) {
            return true;
        }
        let st = match self.query_actual_state(delegations) {
            Ok(s) => s,
            Err(_) => {
                return false;
            },
        };
        if !(st.stnibi_exchange_rate.atomics < self.state.stnibi_exchange_rate.atomics) {
            return false;
        }
        let m = ds.len();
        let n = self.staker_info.len();
        let mut i: usize = 0;
        while i < n
            invariant
                n == self.staker_info@.len(),
                m == ds@.len(),
                0 <= i <= n,
                delegations is Ok,
                delegations->Ok_0@ == ds@,
                store_actual_state_fits(self, ds@),
                store_actual_state(self, ds@).stnibi_exchange_rate.atomics < self.state.stnibi_exchange_rate.atomics,
                forall|j: int|
                    0 <= j < i && #[trigger] lookup(self.staker_info_new@, self.staker_info@[j].0) is Some
                        ==> updates_of(self.balance_updates@, self.staker_info@[j].0).len() + m <= u64::MAX,
            decreases n - i,
        {
            let (key, _) = self.staker_info.entry(i);
            if self.staker_info_new.contains_key(key) {
                let count: usize = match self.balance_updates.get(key) {
                    Some(v) => v.len(),
                    None => 0,
                };
                if count as u128 + m as u128 > u64::MAX as u128 {
                    proof {
                        let k = self.staker_info@[i as int].0;
                        assert(has_key(self.staker_info@, k));
                        assert(lookup(self.staker_info_new@, k) is Some);
                        assert(updates_of(self.balance_updates@, k).len() + m > u64::MAX);
                        assert(!slash_fits(self, ds@));
                    }
                    return true;
                }
            }
            i = i + 1;
        }
        proof {
            assert forall|k: Seq<char>|
                #[trigger] has_key(self.staker_info@, k) && lookup(self.staker_info_new@, k) is Some implies updates_of(
                self.balance_updates@,
                k,
            ).len() + m <= u64::MAX by {
                let j = choose|j: int| 0 <= j < self.staker_info@.len() && self.staker_info@[j].0 == k;
                assert(lookup(self.staker_info_new@, self.staker_info@[j].0) is Some);
            }
        }
        false
    }

    /// Whether the rewards bonded to `staker` add up within 128 bits, as
    /// `calculate_total_rewards` and `query_staker_info` need.
    pub fn rewards_fit(&self, staker: &String) -> (r: bool)
        ensures
            r == (page_rewards(
                updates_of(self.balance_updates@, staker@),
                updates_of(self.balance_updates@, staker@).len() as int,
            ) <= u128::MAX),
    {
        let ghost u = updates_of(self.balance_updates@, staker@);
        let empty: Vec<crate::staking::state::BalanceUpdate> = Vec::new();
        let list = match self.balance_updates.get(staker) {
            Some(v) => v,
            None => &empty,
        };
        let n = list.len();
        let mut total: u128 = 0;
        let mut i: usize = 0;
        while i < n
            invariant
                n == u.len(),
                list@ == u,
                u == updates_of(self.balance_updates@, staker@),
                0 <= i <= n,
                total == page_rewards(u, i as int),
            decreases n - i,
        {
            proof {
                lemma_page_sums_monotone(u, i + 1, n as int);
            }
            match list[i].action {
                BalanceAction::BondRewards { nibi_amount } => {
                    if total > u128::MAX - nibi_amount {
                        proof {
                            assert(page_rewards(u, i + 1) > u128::MAX);
                        }
                        return false;
                    }
                    total = total + nibi_amount;
                },
                _ => {},
            }
            i = i + 1;
        }
        true
    }

    /// Whether the bonded and the unbonded amounts of a page of `staker`'s updates
    /// each add up within 128 bits, as `query_balance_history` needs.
    pub fn balance_history_fits(&self, staker: &String, start_after: Option<u64>, limit: Option<u64>) -> (r: bool)
        ensures
            r == ({
                let p = update_page(updates_of(self.balance_updates@, staker@), start_after, limit);
                page_bonded(p, p.len() as int) <= u128::MAX && page_unbonded(p, p.len() as int) <= u128::MAX
            }),
    {
        let updates = self.update_page_of(staker, start_after, limit);
        let ghost p = updates@;
        let n = updates.len();
        let mut bonded: u128 = 0;
        let mut unbonded: u128 = 0;
        let mut i: usize = 0;
        while i < n
            invariant
                n == p.len(),
                updates@ == p,
                p == update_page(updates_of(self.balance_updates@, staker@), start_after, limit),
                0 <= i <= n,
                bonded == page_bonded(p, i as int),
                unbonded == page_unbonded(p, i as int),
            decreases n - i,
        {
            proof {
                lemma_page_sums_monotone(p, i + 1, n as int);
            }
            match &updates[i].action {
                BalanceAction::Bond { nibi_amount, .. } => {
                    if bonded > u128::MAX - *nibi_amount {
                        proof {
                            assert(page_bonded(p, i + 1) > u128::MAX);
                        }
                        return false;
                    }
                    bonded = bonded + *nibi_amount;
                },
                BalanceAction::Unbond { nibi_unbonded, .. } => {
                    if unbonded > u128::MAX - *nibi_unbonded {
                        proof {
                            assert(page_unbonded(p, i + 1) > u128::MAX);
                        }
                        return false;
                    }
                    unbonded = unbonded + *nibi_unbonded;
                },
                _ => {},
            }
            i = i + 1;
        }
        true
    }

    /// Whether `query_withdrawable_unbonded` can answer for `address` at `env`'s
    /// block: the block time is at least one unbonding period and the withdrawable
    /// amount fits in 128 bits.
    pub fn withdrawable_fits(&self, address: &String, env: &Env) -> (r: bool)
        requires
            history_sorted(self.unbond_history@),
        ensures
            r == (env.block_time >= self.params.unbonding_period && withdrawable_prefix(
                wait_list_of(self.unbond_wait_list@, address@),
                self.unbond_history@,
                processed_before((env.block_time - self.params.unbonding_period) as u64),
                wait_list_of(self.unbond_wait_list@, address@).len() as int,
            ) <= u128::MAX),
    {
        if env.block_time < self.params.unbonding_period {
            return false;
        }
        let block_time = env.block_time - self.params.unbonding_period;
        let requests = self.get_unbond_requests(address);
        let ghost l = requests@;
        let ghost counts = processed_before(block_time);
        let n = requests.len();
        let mut amount: u128 = 0;
        let mut i: usize = 0;
        while i < n
            invariant
                n == l.len(),
                requests@ == l,
                l == wait_list_of(self.unbond_wait_list@, address@),
                env.block_time >= self.params.unbonding_period,
                block_time == env.block_time - self.params.unbonding_period,
                0 <= i <= n,
                history_sorted(self.unbond_history@),
                counts == processed_before(block_time),
                amount == withdrawable_prefix(l, self.unbond_history@, counts, i as int),
            decreases n - i,
        {
            let (batch, requested) = requests[i];
            proof {
                lemma_withdrawable_monotone(l, self.unbond_history@, counts, i + 1, n as int);
            }
            match self.read_unbond_history(batch) {
                Ok(h) => {
                    if h.time < block_time {
                        if !mul_div_fits(requested, h.stnibi_withdraw_rate.atomics, DECIMAL_FRACTIONAL) {
                            proof {
                                lemma_withdrawable_monotone(l, self.unbond_history@, counts, i as int, i + 1);
                            }
                            return false;
                        }
                        let part = crate::decimal::uint_mul_decimal(requested, h.stnibi_withdraw_rate);
                        if amount > u128::MAX - part {
                            proof {
                                assert(withdrawable_prefix(l, self.unbond_history@, counts, i + 1) > u128::MAX);
                            }
                            return false;
                        }
                        amount = amount + part;
                    }
                },
                Err(_) => {},
            }
            i = i + 1;
        }
        true
    }

    /// Whether `query_unbonding_info` can answer for `user_address`: the amounts of
    /// its requests add up within 128 bits and their release times fit in 64 bits.
    pub fn unbonding_info_fits(&self, user_address: &String) -> (r: bool)
        requires
            history_sorted(self.unbond_history@),
        ensures
            r == ({
                let l = wait_list_of(self.unbond_wait_list@, user_address@);
                &&& unbonding_total(l, self.unbond_history@, l.len() as int) <= u128::MAX
                &&& release_times_fit(l, self.unbond_history@, self.params.unbonding_period, l.len() as int)
            }),
    {
        let requests = self.get_unbond_requests(user_address);
        let ghost l = requests@;
        let ghost h = self.unbond_history@;
        let cp = self.params.unbonding_period;
        let n = requests.len();
        let mut total: u128 = 0;
        let mut i: usize = 0;
        while i < n
            invariant
                n == l.len(),
                requests@ == l,
                l == wait_list_of(self.unbond_wait_list@, user_address@),
                h == self.unbond_history@,
                history_sorted(h),
                cp == self.params.unbonding_period,
                0 <= i <= n,
                total == unbonding_total(l, h, i as int),
                release_times_fit(l, h, cp, i as int),
            decreases n - i,
        {
            let (batch_id, amount) = requests[i];
            proof {
                lemma_unbonding_total_monotone(l, h, i + 1, n as int);
                let _ = lookup(h, l[i as int].0);
            }
            match self.read_unbond_history(batch_id) {
                Ok(history) => {
                    if total > u128::MAX - amount {
                        proof {
                            assert(unbonding_total(l, h, i + 1) > u128::MAX);
                        }
                        return false;
                    }
                    if history.time > u64::MAX - cp || history.time > u64::MAX - COSMOS_UNBONDING_PERIOD {
                        proof {
                            assert(!release_times_fit(l, h, cp, n as int)) by {
                                let _ = lookup(h, l[i as int].0);
                            }
                        }
                        return false;
                    }
                    total = total + amount;
                },
                Err(_) => {},
            }
            proof {
                assert forall|j: int| 0 <= j < i + 1 implies match #[trigger] lookup(h, l[j].0) {
                    Some(b) => b.time + cp <= u64::MAX && b.time + COSMOS_UNBONDING_PERIOD <= u64::MAX,
                    None => true,
                } by {
                    if j < i {
                        assert(release_times_fit(l, h, cp, i as int));
                    }
                }
            }
            i = i + 1;
        }
        true
    }
}

} // verus!
