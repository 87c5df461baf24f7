//! Bonding: NIBI comes in, is delegated over the registry's validators, and stNIBI
//! is minted for it at the hub's exchange rate (or, for rewards, nothing is minted and
//! the exchange rate rises).
use vstd::prelude::*;

use crate::addr_map::{distinct_keys, insert_pair, lemma_insert_pair, lookup};
use crate::decimal::{Decimal, mul_div_floor, DECIMAL_FRACTIONAL};
use crate::host::{Attr, AttrValue, Coin, Delegation, Env, MessageInfo, Msg, Response, StdError, WasmCall, attr_static, attr_text};
use crate::hub::{BondType, State, exchange_rate_for, exchange_rate_fits};
use crate::staking::contract::{store_actual_state, store_actual_state_fits};
use crate::staking::math::decimal_division;
use crate::staking::state::{BalanceAction, BalanceUpdate, HubStore, StakerInfo, updates_of};
use crate::validator_registry::{
    ValidatorResponse, calculate_delegations, delegation_plan, lemma_plan_delegates_everything, sum_prefix,
    total_delegated,
};

verus! {

/// Whether a call goes through, fails with an error, or panics.
pub enum Outcome {
    Panics,
    Fails(StdError),
    Passes,
}

/// Why a staker's balance may not change now, if it may not: a zero exchange rate or
/// a timestamp before the staker's last update.
pub open spec fn balance_update_error(prev: StakerInfo, timestamp: u64, rate: Decimal) -> Option<StdError> {
    if rate.atomics == 0 {
        Some(StdError::Generic { msg: "Exchange rate cannot be zero" })
    } else if timestamp < prev.last_update_time {
        Some(StdError::Generic { msg: "Update timestamp is before last update" })
    } else {
        None
    }
}

/// Checks that a staker's balance may change: the exchange rate must not be zero and
/// the update must not predate the staker's last update.
pub fn validate_balance_update(
    data: &StakerInfo,
    nibi_amount: u128,
    stnibi_amount: u128,
    is_bond: bool,
    timestamp: u64,
    exchange_rate: Decimal,
) -> (r: Result<(), StdError>)
    ensures
        r == match balance_update_error(*data, timestamp, exchange_rate) {
            Some(e) => Err::<(), StdError>(e),
            None => Ok(()),
        },
{
    if exchange_rate.atomics == 0 {
        return Err(StdError::Generic { msg: "Exchange rate cannot be zero" });
    }
    if timestamp < data.last_update_time {
        return Err(StdError::Generic { msg: "Update timestamp is before last update" });
    }
    Ok(())
}

/// Why `update_balances_for_bond` fails, if it does.
pub open spec fn bond_balance_error(
    prev: Option<StakerInfo>,
    nibi_amount: u128,
    stnibi_amount: u128,
    timestamp: u64,
    rate: Decimal,
    bond_type: BondType,
    n_updates: nat,
) -> Option<StdError> {
    match prev {
        Some(d) => match balance_update_error(d, timestamp, rate) {
            Some(e) => Some(e),
            None => if d.amount_staked_unibi + nibi_amount > u128::MAX {
                Some(StdError::Generic {
                    msg: if bond_type == BondType::BondRewards {
                        "supply overflow"
                    } else {
                        "Overflow when adding staked amount"
                    },
                })
            } else if bond_type == BondType::stnibi && d.amount_stnibi_balance + stnibi_amount > u128::MAX {
                Some(StdError::Generic { msg: "Overflow when adding stnibi balance" })
            } else if n_updates >= u64::MAX {
                Some(StdError::Generic { msg: "Overflow when incrementing update ID" })
            } else {
                None
            },
        },
        None => if n_updates >= u64::MAX {
            Some(StdError::Generic { msg: "Overflow when incrementing update ID" })
        } else {
            None
        },
    }
}

/// A staker's record after a bond: the NIBI is added to what it staked and, for a
/// user bond, the stNIBI to its balance; a new staker starts with both.
pub open spec fn bonded_info(
    prev: Option<StakerInfo>,
    nibi_amount: u128,
    stnibi_amount: u128,
    timestamp: u64,
    bond_type: BondType,
) -> StakerInfo {
    match prev {
        Some(d) => StakerInfo {
            amount_staked_unibi: (d.amount_staked_unibi + nibi_amount) as u128,
            amount_stnibi_balance: if bond_type == BondType::stnibi {
                (d.amount_stnibi_balance + stnibi_amount) as u128
            } else {
                d.amount_stnibi_balance
            },
            bonding_time: d.bonding_time,
            unbonding_period: d.unbonding_period,
            validator_list: d.validator_list,
            last_update_time: timestamp,
        },
        None => StakerInfo {
            amount_staked_unibi: nibi_amount,
            amount_stnibi_balance: stnibi_amount,
            bonding_time: timestamp as u128,
            unbonding_period: None,
            validator_list: None,
            last_update_time: 0,
        },
    }
}

/// The balance update a bond records.
pub open spec fn bond_record(
    info: StakerInfo,
    nibi_amount: u128,
    stnibi_amount: u128,
    timestamp: u64,
    rate: Decimal,
    block_height: u64,
    validator: Option<String>,
    bond_type: BondType,
) -> BalanceUpdate {
    BalanceUpdate {
        action: if bond_type == BondType::BondRewards {
            BalanceAction::BondRewards { nibi_amount }
        } else {
            BalanceAction::Bond { nibi_amount, stnibi_minted: stnibi_amount, validator }
        },
        timestamp,
        exchange_rate: rate,
        resulting_nibi_balance: info.amount_staked_unibi,
        resulting_stnibi_balance: info.amount_stnibi_balance,
        block_height,
    }
}

/// The parts of the storage that the balance bookkeeping does not touch are equal.
pub open spec fn same_but_balances(a: &HubStore, b: &HubStore) -> bool {
    &&& a.config == b.config
    &&& a.state == b.state
    &&& a.params == b.params
    &&& a.current_batch == b.current_batch
    &&& a.guardians@ == b.guardians@
    &&& a.staker_info@ == b.staker_info@
    &&& a.lp_tokens@ == b.lp_tokens@
    &&& a.token_supply == b.token_supply
    &&& a.unbond_wait_list@ == b.unbond_wait_list@
    &&& a.unbond_history == b.unbond_history
}

/// A staker's record and updates after a bond of `nibi_amount` NIBI for
/// `stnibi_amount` stNIBI.
pub open spec fn balances_after_bond(
    old: &HubStore,
    new: &HubStore,
    staker: Seq<char>,
    nibi_amount: u128,
    stnibi_amount: u128,
    timestamp: u64,
    rate: Decimal,
    block_height: u64,
    validator: Option<String>,
    bond_type: BondType,
) -> bool {
    let info = bonded_info(lookup(old.staker_info_new@, staker), nibi_amount, stnibi_amount, timestamp, bond_type);
    &&& new.staker_info_new@ == insert_pair(old.staker_info_new@, staker, info)
    &&& lookup(new.balance_updates@, staker) is Some
    &&& new.balance_updates@ == insert_pair(old.balance_updates@, staker, lookup(new.balance_updates@, staker)->Some_0)
    &&& updates_of(new.balance_updates@, staker) == updates_of(old.balance_updates@, staker).push(
        bond_record(info, nibi_amount, stnibi_amount, timestamp, rate, block_height, validator, bond_type),
    )
}

impl HubStore {
    /// Checks that `update_balances_for_bond` would succeed, without changing anything.
    pub fn check_bond_update(
        &self,
        staker: &String,
        nibi_amount: u128,
        stnibi_amount: u128,
        timestamp: u64,
        exchange_rate: Decimal,
        bond_type: BondType,
    ) -> (r: Result<(), StdError>)
        ensures
            r == match bond_balance_error(
                lookup(self.staker_info_new@, staker@),
                nibi_amount,
                stnibi_amount,
                timestamp,
                exchange_rate,
                bond_type,
                updates_of(self.balance_updates@, staker@).len(),
            ) {
                Some(e) => Err::<(), StdError>(e),
                None => Ok(()),
            },
    {
        let n_updates: usize = match self.balance_updates.get(staker) {
            Some(v) => v.len(),
            None => 0,
        };
        match self.staker_info_new.get(staker) {
            Some(data) => {
                validate_balance_update(data, nibi_amount, stnibi_amount, true, timestamp, exchange_rate)?;
                if data.amount_staked_unibi > u128::MAX - nibi_amount {
                    return Err(StdError::Generic {
                        msg: if bond_type == BondType::BondRewards {
                            "supply overflow"
                        } else {
                            "Overflow when adding staked amount"
                        },
                    });
                }
                if bond_type == BondType::stnibi && data.amount_stnibi_balance > u128::MAX - stnibi_amount {
                    return Err(StdError::Generic { msg: "Overflow when adding stnibi balance" });
                }
            },
            None => {},
        }
        if n_updates as u64 == u64::MAX || n_updates as u128 > u64::MAX as u128 {
            return Err(StdError::Generic { msg: "Overflow when incrementing update ID" });
        }
        Ok(())
    }

    /// Records a bond of `nibi_amount` NIBI for `stnibi_amount` stNIBI in the staker's
    /// record and appends it to the staker's balance updates.
    pub fn update_balances_for_bond(
        &mut self,
        staker: &String,
        nibi_amount: u128,
        stnibi_amount: u128,
        timestamp: u64,
        exchange_rate: Decimal,
        block_height: u64,
        validator: Option<String>,
        bond_type: &BondType,
    ) -> (r: Result<(), StdError>)
        ensures
            r == match bond_balance_error(
                lookup(old(self).staker_info_new@, staker@),
                nibi_amount,
                stnibi_amount,
                timestamp,
                exchange_rate,
                *bond_type,
                updates_of(old(self).balance_updates@, staker@).len(),
            ) {
                Some(e) => Err::<(), StdError>(e),
                None => Ok(()),
            },
            r is Err ==> final(self).staker_info_new@ == old(self).staker_info_new@
                && final(self).balance_updates@ == old(self).balance_updates@,
            r is Ok ==> balances_after_bond(
                old(self),
                final(self),
                staker@,
                nibi_amount,
                stnibi_amount,
                timestamp,
                exchange_rate,
                block_height,
                validator,
                *bond_type,
            ),
            same_but_balances(old(self), final(self)),
    {
        self.check_bond_update(staker, nibi_amount, stnibi_amount, timestamp, exchange_rate, *bond_type)?;
        let ghost infos = self.staker_info_new@;
        let ghost prev = lookup(infos, staker@);
        let blank = StakerInfo {
            amount_staked_unibi: 0,
            amount_stnibi_balance: 0,
            bonding_time: 0,
            unbonding_period: None,
            validator_list: None,
            last_update_time: 0,
        };
        let ghost ph = blank;
        let taken = self.staker_info_new.insert(staker.clone(), blank);
        let new_info = match taken {
            Some(data) => StakerInfo {
                amount_staked_unibi: data.amount_staked_unibi + nibi_amount,
                amount_stnibi_balance: if *bond_type == BondType::stnibi {
                    data.amount_stnibi_balance + stnibi_amount
                } else {
                    data.amount_stnibi_balance
                },
                bonding_time: data.bonding_time,
                unbonding_period: data.unbonding_period,
                validator_list: data.validator_list,
                last_update_time: timestamp,
            },
            None => StakerInfo {
                amount_staked_unibi: nibi_amount,
                amount_stnibi_balance: stnibi_amount,
                bonding_time: timestamp as u128,
                unbonding_period: None,
                validator_list: None,
                last_update_time: 0,
            },
        };
        let resulting_nibi = new_info.amount_staked_unibi;
        let resulting_stnibi = new_info.amount_stnibi_balance;
        let ghost info_value = new_info;
        let _ = self.staker_info_new.insert(staker.clone(), new_info);
        proof {
            crate::addr_map::lemma_insert_twice(infos, staker@, ph, info_value);
        }
        let record = BalanceUpdate {
            action: if *bond_type == BondType::BondRewards {
                BalanceAction::BondRewards { nibi_amount }
            } else {
                BalanceAction::Bond { nibi_amount, stnibi_minted: stnibi_amount, validator }
            },
            timestamp,
            exchange_rate,
            resulting_nibi_balance: resulting_nibi,
            resulting_stnibi_balance: resulting_stnibi,
            block_height,
        };
        self.append_balance_update(staker, record);
        Ok(())
    }

    /// Appends `record` to the balance updates of `staker`.
    pub fn append_balance_update(&mut self, staker: &String, record: BalanceUpdate)
        ensures
            lookup(final(self).balance_updates@, staker@) is Some,
            final(self).balance_updates@ == insert_pair(
                old(self).balance_updates@,
                staker@,
                lookup(final(self).balance_updates@, staker@)->Some_0,
            ),
            updates_of(final(self).balance_updates@, staker@) == updates_of(old(self).balance_updates@, staker@).push(record),
            distinct_keys(old(self).balance_updates@),
            final(self).staker_info_new@ == old(self).staker_info_new@,
            same_but_balances(old(self), final(self)),
    {
        let ghost outer = self.balance_updates@;
        let blank: Vec<BalanceUpdate> = Vec::new();
        let ghost ph = blank;
        let taken = self.balance_updates.insert(staker.clone(), blank);
        let mut list = match taken {
            Some(v) => v,
            None => Vec::new(),
        };
        list.push(record);
        let ghost lv = list;
        let _ = self.balance_updates.insert(staker.clone(), list);
        proof {
            crate::addr_map::lemma_insert_twice(outer, staker@, ph, lv);
            lemma_insert_pair(outer, staker@, lv);
        }
    }
}

/// The coin a bond pays with: the single coin sent, when it is of `denom` and not
/// zero (a call that sends more than one coin fails before this is asked).
pub open spec fn bond_payment(funds: Seq<Coin>, denom: Seq<char>) -> Option<Coin> {
    if funds.len() == 1 && funds[0].denom@ == denom && funds[0].amount > 0 {
        Some(funds[0])
    } else {
        None
    }
}

/// The stNIBI a bond mints: the amount at the exchange rate for a user bond,
/// nothing for rewards.
pub open spec fn bond_mint(bond_type: BondType, amount: u128, rate: Decimal) -> int {
    if bond_type == BondType::stnibi {
        mul_div_floor(amount as int, DECIMAL_FRACTIONAL as int, rate.atomics as int)
    } else {
        0
    }
}

/// The hub's state after a bond of `amount` minting `mint`, from the actual state
/// `st`: the bonded amount grows by `amount`; a user bond adds `mint` to the issued
/// stNIBI, a rewards bond recomputes the exchange rate instead.
pub open spec fn bond_state(st: State, amount: u128, mint: int, requested: u128, bond_type: BondType) -> State {
    let bonded = (st.total_bond_stnibi_amount + amount) as u128;
    if bond_type == BondType::BondRewards {
        State {
            total_bond_stnibi_amount: bonded,
            stnibi_exchange_rate: Decimal {
                atomics: exchange_rate_for(bonded, st.total_stnibi_issued + mint + requested) as u128,
            },
            ..st
        }
    } else {
        State {
            total_bond_stnibi_amount: bonded,
            total_stnibi_issued: (st.total_stnibi_issued + mint) as u128,
            ..st
        }
    }
}

/// Whether `execute_bond` passes, fails (and with which error) or panics.
pub open spec fn bond_outcome(
    store: &HubStore,
    env: &Env,
    info: &MessageInfo,
    bond_type: BondType,
    delegations: Result<Vec<Delegation>, StdError>,
    validators: Result<Vec<ValidatorResponse>, StdError>,
) -> Outcome {
    match delegations {
        Err(e) => Outcome::Fails(e),
        Ok(ds) => if !store_actual_state_fits(store, ds@) {
            Outcome::Panics
        } else {
            let st = store_actual_state(store, ds@);
            if store.params.paused == Some(true) {
                Outcome::Fails(StdError::Generic { msg: "the contract is temporarily paused" })
            } else if store.config.reward_dispatcher_contract is None {
                Outcome::Fails(StdError::Generic { msg: "the reward dispatcher contract must have been registered" })
            } else if bond_type == BondType::BondRewards && info.sender@
                != store.config.reward_dispatcher_contract->Some_0@ {
                Outcome::Fails(StdError::Generic { msg: "unauthorized" })
            } else if info.funds@.len() > 1 {
                Outcome::Fails(StdError::Generic { msg: "More than one coin is sent; only one asset is supported" })
            } else {
                match bond_payment(info.funds@, store.params.underlying_coin_denom@) {
                    None => Outcome::Fails(StdError::NoAssetsProvided { denom: store.params.underlying_coin_denom }),
                    Some(p) => if bond_type == BondType::stnibi && (st.stnibi_exchange_rate.atomics == 0
                        || mul_div_floor(p.amount as int, DECIMAL_FRACTIONAL as int, st.stnibi_exchange_rate.atomics as int)
                        > u128::MAX) {
                        Outcome::Panics
                    } else {
                        let mint = bond_mint(bond_type, p.amount, st.stnibi_exchange_rate);
                        if st.total_stnibi_issued + mint > u128::MAX {
                            Outcome::Fails(StdError::Generic { msg: "supply overflow" })
                        } else if st.total_bond_stnibi_amount + p.amount > u128::MAX {
                            Outcome::Fails(StdError::Generic { msg: "Bond amount overflow" })
                        } else if bond_type == BondType::BondRewards && !exchange_rate_fits(
                            (st.total_bond_stnibi_amount + p.amount) as u128,
                            st.total_stnibi_issued + mint + store.current_batch.requested_stnibi,
                        ) {
                            Outcome::Panics
                        } else {
                            match bond_balance_error(
                                lookup(store.staker_info_new@, info.sender@),
                                p.amount,
                                mint as u128,
                                env.block_time,
                                st.stnibi_exchange_rate,
                                bond_type,
                                updates_of(store.balance_updates@, info.sender@).len(),
                            ) {
                                Some(e) => Outcome::Fails(e),
                                None => if store.config.validators_registry_contract is None {
                                    Outcome::Fails(StdError::Generic { msg: "Validators registry contract address is empty" })
                                } else {
                                    match validators {
                                        Err(e) => Outcome::Fails(e),
                                        Ok(vs) => if vs@.len() == 0 {
                                            Outcome::Fails(StdError::Generic { msg: "Validators registry is empty" })
                                        } else if total_delegated(vs@) + p.amount > u128::MAX {
                                            Outcome::Panics
                                        } else if bond_type == BondType::BondRewards {
                                            Outcome::Passes
                                        } else if match store.token_supply {
                                            Some(s) => s + mint > u128::MAX,
                                            None => false,
                                        } {
                                            Outcome::Fails(StdError::Generic { msg: "supply overflow" })
                                        } else if store.config.stnibi_token_contract is None {
                                            Outcome::Fails(StdError::Generic { msg: "the token contract must have been registered" })
                                        } else {
                                            Outcome::Passes
                                        },
                                    }
                                },
                            }
                        }
                    },
                }
            }
        },
    }
}

/// The delegation messages for the planned amounts `plan` of the first `k`
/// validators: one per non-zero amount, in validator order.
pub open spec fn delegate_msgs(vs: Seq<ValidatorResponse>, plan: Seq<int>, denom: String, k: int) -> Seq<Msg>
    decreases k,
{
    if k <= 0 {
        Seq::empty()
    } else {
        let p = delegate_msgs(vs, plan, denom, k - 1);
        if plan[k - 1] == 0 {
            p
        } else {
            p.push(Msg::Delegate {
                validator: vs[k - 1].address,
                amount: Coin { denom, amount: plan[k - 1] as u128 },
            })
        }
    }
}

/// The amount the delegation messages among `msgs` delegate.
pub open spec fn delegated_by(msgs: Seq<Msg>) -> int
    decreases msgs.len(),
{
    if msgs.len() == 0 {
        0
    } else {
        delegated_by(msgs.drop_last()) + match msgs.last() {
            Msg::Delegate { amount, .. } => amount.amount as int,
            _ => 0,
        }
    }
}

proof fn lemma_delegate_msgs_total(vs: Seq<ValidatorResponse>, plan: Seq<int>, denom: String, k: int)
    requires
        0 <= k <= plan.len(),
        forall|i: int| 0 <= i < plan.len() ==> 0 <= #[trigger] plan[i] <= u128::MAX,
    ensures
        delegated_by(delegate_msgs(vs, plan, denom, k)) == sum_prefix(plan, k),
    decreases k,
{
    if k > 0 {
        lemma_delegate_msgs_total(vs, plan, denom, k - 1);
        let p = delegate_msgs(vs, plan, denom, k - 1);
        if plan[k - 1] != 0 {
            let m = Msg::Delegate { validator: vs[k - 1].address, amount: Coin { denom, amount: plan[k - 1] as u128 } };
            assert(p.push(m).drop_last() =~= p);
        }
    }
}

/// No delegation message is empty: every message a plan gives delegates a non-zero
/// amount, in `denom`, to a validator whose planned amount it is.
pub proof fn lemma_delegate_msgs_nonzero(vs: Seq<ValidatorResponse>, plan: Seq<int>, denom: String, k: int)
    requires
        0 <= k <= plan.len(),
        forall|i: int| 0 <= i < plan.len() ==> 0 <= #[trigger] plan[i] <= u128::MAX,
    ensures
        delegate_msgs(vs, plan, denom, k).len() <= k,
        forall|i: int| 0 <= i < delegate_msgs(vs, plan, denom, k).len() ==> {
            &&& #[trigger] delegate_msgs(vs, plan, denom, k)[i] matches Msg::Delegate { validator, amount }
            &&& amount.amount > 0
            &&& amount.denom == denom
            &&& exists|j: int| 0 <= j < k && vs[j].address == validator && plan[j] == amount.amount
        },
    decreases k,
{
    if k > 0 {
        lemma_delegate_msgs_nonzero(vs, plan, denom, k - 1);
        let p = delegate_msgs(vs, plan, denom, k - 1);
        let q = delegate_msgs(vs, plan, denom, k);
        assert forall|i: int| 0 <= i < q.len() implies {
            &&& #[trigger] q[i] matches Msg::Delegate { validator, amount }
            &&& amount.amount > 0
            &&& amount.denom == denom
            &&& exists|j: int| 0 <= j < k && vs[j].address == validator && plan[j] == amount.amount
        } by {
            if i < p.len() {
                assert(q[i] == p[i]);
                let w = choose|j: int| 0 <= j < k - 1 && vs[j].address == p[i]->Delegate_validator && plan[j] == p[i]->Delegate_amount.amount;
                assert(0 <= w < k && vs[w].address == q[i]->Delegate_validator && plan[w] == q[i]->Delegate_amount.amount);
            } else {
                assert(plan[k - 1] != 0);
                assert(vs[k - 1].address == q[i]->Delegate_validator && plan[k - 1] == q[i]->Delegate_amount.amount);
            }
        }
    }
}

proof fn lemma_delegated_by_push(msgs: Seq<Msg>, m: Msg)
    requires
        !(m is Delegate),
    ensures
        delegated_by(msgs.push(m)) == delegated_by(msgs),
{
    assert(msgs.push(m).drop_last() =~= msgs);
}

/// The delegation messages for the amounts `planned`, which `calculate_delegations`
/// computed for `amount` over `validators`: one per non-zero amount, to that
/// validator, in `denom`. Together they delegate `amount`.
pub fn delegation_messages(
    planned: &Vec<u128>,
    validators: &Vec<ValidatorResponse>,
    denom: &String,
    amount: u128,
) -> (r: Vec<Msg>)
    requires
        validators@.len() > 0,
        total_delegated(validators@) + amount <= u128::MAX,
        planned@.len() == validators@.len(),
        forall|k: int| 0 <= k < planned@.len() ==> #[trigger] planned@[k] == delegation_plan(
            validators@,
            amount as int,
            validators@.len(),
        )[k],
    ensures
        r@ == delegate_msgs(
            validators@,
            delegation_plan(validators@, amount as int, validators@.len()),
            *denom,
            validators@.len() as int,
        ),
        delegated_by(r@) == amount,
        forall|i: int| 0 <= i < r@.len() ==> (#[trigger] r@[i] matches Msg::Delegate { amount: c, .. } && c.amount > 0
            && c.denom == *denom),
{
    let ghost vs = validators@;
    let ghost plan = delegation_plan(vs, amount as int, vs.len());
    proof {
        lemma_plan_delegates_everything(vs, amount as int);
    }
    let mut messages: Vec<Msg> = Vec::new();
    let n = planned.len();
    let mut i: usize = 0;
    while i < n
        invariant
            n == planned@.len(),
            n == vs.len(),
            validators@ == vs,
            0 <= i <= n,
            plan.len() == n,
            forall|k: int| 0 <= k < n ==> #[trigger] planned@[k] == plan[k],
            messages@ == delegate_msgs(vs, plan, *denom, i as int),
        decreases n - i,
    {
        if planned[i] != 0 {
            messages.push(Msg::Delegate {
                validator: validators[i].address.clone(),
                amount: Coin { denom: denom.clone(), amount: planned[i] },
            });
        }
        i = i + 1;
    }
    proof {
        assert forall|k: int| 0 <= k < plan.len() implies 0 <= #[trigger] plan[k] <= u128::MAX by {
            assert(planned@[k] == plan[k]);
        }
        lemma_delegate_msgs_total(vs, plan, *denom, n as int);
        lemma_delegate_msgs_nonzero(vs, plan, *denom, n as int);
    }
    messages
}

/// What a successful `execute_bond` does.
pub open spec fn bond_effects(
    old: &HubStore,
    new: &HubStore,
    env: &Env,
    info: &MessageInfo,
    bond_type: BondType,
    ds: Seq<Delegation>,
    vs: Seq<ValidatorResponse>,
    r: Response,
) -> bool {
    let st = store_actual_state(old, ds);
    let p = bond_payment(info.funds@, old.params.underlying_coin_denom@)->Some_0;
    let mint = bond_mint(bond_type, p.amount, st.stnibi_exchange_rate);
    let plan = delegation_plan(vs, p.amount as int, vs.len());
    let delegates = delegate_msgs(vs, plan, p.denom, vs.len() as int);
    &&& new.state == bond_state(st, p.amount, mint, old.current_batch.requested_stnibi, bond_type)
    &&& balances_after_bond(old, new, info.sender@, p.amount, mint as u128, env.block_time,
        st.stnibi_exchange_rate, env.block_height, None, bond_type)
    &&& new.config == old.config
    &&& new.params == old.params
    &&& new.current_batch == old.current_batch
    &&& new.guardians@ == old.guardians@
    &&& new.staker_info@ == old.staker_info@
    &&& new.lp_tokens@ == old.lp_tokens@
    &&& new.unbond_wait_list@ == old.unbond_wait_list@
    &&& new.unbond_history == old.unbond_history
    &&& delegated_by(r.messages@) == p.amount
    &&& if bond_type == BondType::BondRewards {
        &&& new.token_supply == old.token_supply
        &&& r.messages@ == delegates
        &&& r.attributes@ == seq![
            Attr { key: "action", value: AttrValue::Static("bond_rewards") },
            Attr { key: "from", value: AttrValue::Text(info.sender) },
            Attr { key: "bonded", value: AttrValue::Uint(p.amount) },
        ]
    } else {
        &&& new.token_supply == Some((match old.token_supply { Some(s) => s as int, None => 0 } + mint) as u128)
        &&& r.messages@.len() == delegates.len() + 1
        &&& r.messages@.take(delegates.len() as int) == delegates
        &&& r.messages@.last() matches Msg::Execute { contract_addr, call: WasmCall::Mint { recipient, amount }, funds }
            && contract_addr == old.config.stnibi_token_contract->Some_0 && recipient == info.sender
            && amount == mint && funds@.len() == 0
        &&& r.attributes@ == seq![
            Attr { key: "action", value: AttrValue::Static("mint") },
            Attr { key: "from", value: AttrValue::Text(info.sender) },
            Attr { key: "bonded", value: AttrValue::Uint(p.amount) },
            Attr { key: "minted", value: AttrValue::Uint(mint as u128) },
        ]
    }
}

/// What `execute_bond` does.
pub open spec fn bond_done(
    old: &HubStore,
    new: &HubStore,
    env: &Env,
    info: &MessageInfo,
    bond_type: BondType,
    delegations: Result<Vec<Delegation>, StdError>,
    validators: Result<Vec<ValidatorResponse>, StdError>,
    r: Result<Response, StdError>,
) -> bool {
    &&& match bond_outcome(old, env, info, bond_type, delegations, validators) {
        Outcome::Fails(e) => r == Err::<Response, StdError>(e) && store_unchanged(old, new),
        Outcome::Passes => r is Ok && bond_effects(old, new, env, info, bond_type,
            delegations->Ok_0@, validators->Ok_0@, r->Ok_0),
        Outcome::Panics => false,
    }
}

/// What a staker had staked and held before a bond: nothing for a new staker.
pub open spec fn staked_before(prev: Option<StakerInfo>) -> int {
    match prev {
        Some(d) => d.amount_staked_unibi as int,
        None => 0,
    }
}

pub open spec fn held_before(prev: Option<StakerInfo>) -> int {
    match prev {
        Some(d) => d.amount_stnibi_balance as int,
        None => 0,
    }
}

/// A bond credits the staker: after a successful bond the sender's record has staked
/// the NIBI paid on top of what it had staked, and holds the stNIBI minted on top of
/// what it held (a rewards bond mints nothing); a new staker starts from zero.
pub proof fn lemma_bond_credits_staker(
    old: &HubStore,
    new: &HubStore,
    env: &Env,
    info: &MessageInfo,
    bond_type: BondType,
    delegations: Result<Vec<Delegation>, StdError>,
    validators: Result<Vec<ValidatorResponse>, StdError>,
    r: Response,
)
    requires
        distinct_keys(old.staker_info_new@),
        bond_done(old, new, env, info, bond_type, delegations, validators, Ok(r)),
    ensures
        ({
            let st = store_actual_state(old, delegations->Ok_0@);
            let p = bond_payment(info.funds@, old.params.underlying_coin_denom@)->Some_0;
            let mint = bond_mint(bond_type, p.amount, st.stnibi_exchange_rate);
            let prev = lookup(old.staker_info_new@, info.sender@);
            lookup(new.staker_info_new@, info.sender@) matches Some(x)
                && x.amount_staked_unibi == staked_before(prev) + p.amount
                && x.amount_stnibi_balance == held_before(prev) + mint
        }),
{
    let st = store_actual_state(old, delegations->Ok_0@);
    let p = bond_payment(info.funds@, old.params.underlying_coin_denom@)->Some_0;
    let mint = bond_mint(bond_type, p.amount, st.stnibi_exchange_rate);
    let prev = lookup(old.staker_info_new@, info.sender@);
    assert(bond_outcome(old, env, info, bond_type, delegations, validators) is Passes);
    let x = bonded_info(prev, p.amount, mint as u128, env.block_time, bond_type);
    lemma_insert_pair(old.staker_info_new@, info.sender@, x);
}

/// The storage is left as it was (a failed call changes nothing).
pub open spec fn store_unchanged(a: &HubStore, b: &HubStore) -> bool {
    &&& a.staker_info_new@ == b.staker_info_new@
    &&& a.balance_updates@ == b.balance_updates@
    &&& same_but_balances(a, b)
}

impl HubStore {
    /// Bonds the NIBI sent with the call. For a user bond it mints stNIBI to the
    /// sender at the actual exchange rate; for rewards, which only the reward
    /// dispatcher may send, it mints nothing and the exchange rate rises. The NIBI is
    /// delegated over the registry's validators. `delegations` is the outcome of the
    /// query for the hub's delegations, `validators` that of the registry's
    /// `GetValidatorsForDelegation` query.
    pub fn execute_bond(
        &mut self,
        env: &Env,
        info: &MessageInfo,
        bond_type: BondType,
        delegations: Result<Vec<Delegation>, StdError>,
        validators: Result<Vec<ValidatorResponse>, StdError>,
    ) -> (r: Result<Response, StdError>)
        requires
            !(bond_outcome(old(self), env, info, bond_type, delegations, validators) is Panics),
        ensures
            bond_done(old(self), final(self), env, info, bond_type, delegations, validators, r),
    {
        let state = self.query_actual_state(&delegations)?;
        let ghost ds = delegations->Ok_0@;
        if match self.params.paused { Some(p) => p, None => false } {
            return Err(StdError::Generic { msg: "the contract is temporarily paused" });
        }
        let reward_dispatcher_addr = match &self.config.reward_dispatcher_contract {
            Some(a) => a,
            None => {
                return Err(StdError::Generic { msg: "the reward dispatcher contract must have been registered" });
            },
        };
        if bond_type == BondType::BondRewards && info.sender != *reward_dispatcher_addr {
            return Err(StdError::Generic { msg: "unauthorized" });
        }
        if info.funds.len() > 1 {
            return Err(StdError::Generic { msg: "More than one coin is sent; only one asset is supported" });
        }
        if info.funds.len() == 0 || !(info.funds[0].denom == self.params.underlying_coin_denom
            && info.funds[0].amount > 0) {
            return Err(StdError::NoAssetsProvided { denom: self.params.underlying_coin_denom.clone() });
        }
        let payment = &info.funds[0];
        let amount = payment.amount;
        let mint_amount: u128 = match bond_type {
            BondType::stnibi => decimal_division(amount, state.stnibi_exchange_rate),
            BondType::BondRewards => 0,
        };
        if state.total_stnibi_issued > u128::MAX - mint_amount {
            return Err(StdError::Generic { msg: "supply overflow" });
        }
        let total_supply = state.total_stnibi_issued + mint_amount;
        if state.total_bond_stnibi_amount > u128::MAX - amount {
            return Err(StdError::Generic { msg: "Bond amount overflow" });
        }
        let mut new_state = state;
        new_state.total_bond_stnibi_amount = state.total_bond_stnibi_amount + amount;
        match bond_type {
            BondType::BondRewards => {
                new_state.update_stnibi_exchange_rate(total_supply, self.current_batch.requested_stnibi);
            },
            BondType::stnibi => {
                new_state.total_stnibi_issued = total_supply;
            },
        }
        self.check_bond_update(&info.sender, amount, mint_amount, env.block_time, state.stnibi_exchange_rate, bond_type)?;
        if self.config.validators_registry_contract.is_none() {
            return Err(StdError::Generic { msg: "Validators registry contract address is empty" });
        }
        let validators = match validators {
            Ok(v) => v,
            Err(e) => { return Err(e); },
        };
        if validators.len() == 0 {
            return Err(StdError::Generic { msg: "Validators registry is empty" });
        }
        let planned = match calculate_delegations(amount, &validators) {
            Ok(d) => d,
            Err(e) => { return Err(e); },
        };
        let ghost vs = validators@;
        let ghost plan = delegation_plan(vs, amount as int, vs.len());
        let mut messages = delegation_messages(&planned, &validators, &payment.denom, amount);
        let ghost delegates = messages@;
        let sender = info.sender.clone();
        if bond_type == BondType::BondRewards {
            self.state = new_state;
            let _ = self.update_balances_for_bond(&info.sender, amount, mint_amount, env.block_time,
                state.stnibi_exchange_rate, env.block_height, None, &bond_type);
            let mut attributes: Vec<Attr> = Vec::new();
            attributes.push(attr_static("action", "bond_rewards"));
            attributes.push(attr_text("from", sender));
            attributes.push(Attr { key: "bonded", value: AttrValue::Uint(amount) });
            proof {
                assert(attributes@ =~= seq![
                    Attr { key: "action", value: AttrValue::Static("bond_rewards") },
                    Attr { key: "from", value: AttrValue::Text(info.sender) },
                    Attr { key: "bonded", value: AttrValue::Uint(amount) },
                ]);
            }
            return Ok(Response { messages, attributes });
        }
        let new_supply: u128 = match self.token_supply {
            Some(s) => {
                if s > u128::MAX - mint_amount {
                    return Err(StdError::Generic { msg: "supply overflow" });
                }
                s + mint_amount
            },
            None => mint_amount,
        };
        let token_address = match &self.config.stnibi_token_contract {
            Some(t) => t.clone(),
            None => {
                return Err(StdError::Generic { msg: "the token contract must have been registered" });
            },
        };
        self.state = new_state;
        let _ = self.update_balances_for_bond(&info.sender, amount, mint_amount, env.block_time,
            state.stnibi_exchange_rate, env.block_height, None, &bond_type);
        self.token_supply = Some(new_supply);
        let mint_msg = Msg::Execute {
            contract_addr: token_address,
            call: WasmCall::Mint { recipient: info.sender.clone(), amount: mint_amount },
            funds: Vec::new(),
        };
        proof {
            lemma_delegated_by_push(messages@, mint_msg);
        }
        messages.push(mint_msg);
        proof {
            assert(messages@.take(delegates.len() as int) =~= delegates);
        }
        let mut attributes: Vec<Attr> = Vec::new();
        attributes.push(attr_static("action", "mint"));
        attributes.push(attr_text("from", sender));
        attributes.push(Attr { key: "bonded", value: AttrValue::Uint(amount) });
        attributes.push(Attr { key: "minted", value: AttrValue::Uint(mint_amount) });
        proof {
            assert(attributes@ =~= seq![
                Attr { key: "action", value: AttrValue::Static("mint") },
                Attr { key: "from", value: AttrValue::Text(info.sender) },
                Attr { key: "bonded", value: AttrValue::Uint(amount) },
                Attr { key: "minted", value: AttrValue::Uint(mint_amount) },
            ]);
        }
        Ok(Response { messages, attributes })
    }
}

} // verus!
