//! Types shared by the hub and the contracts around it: its state, configuration,
//! parameters, unbonding batches and the messages it understands.
use vstd::prelude::*;

use crate::decimal::{Decimal, decimal_from_ratio, mul_div_floor, DECIMAL_FRACTIONAL};
use crate::host::Coin;

verus! {

/// The hooks a token contract attaches to the stNIBI it forwards to the hub.
#[derive(Clone, Copy, Debug, PartialEq, Eq, Structural)]
pub enum Cw20HookMsg {
    Unbond,
    Restake,
}

/// How a bond is paid for: with NIBI sent by a user (minting stNIBI), or with
/// rewards sent by the reward dispatcher (minting nothing).
#[allow(non_camel_case_types)]
#[derive(Clone, Copy, Debug, PartialEq, Eq, Structural)]
pub enum BondType {
    stnibi,
    BondRewards,
}

/// The unbond requests of one user: `(batch id, stNIBI amount)`.
pub type UnbondRequest = Vec<(u64, u128)>;

/// The parameters the hub is instantiated with.
#[derive(Clone, Debug)]
pub struct InstantiateMsg {
    pub epoch_period: u64,
    pub underlying_coin_denom: String,
    pub unbonding_period: u64,
}

/// The hub's bookkeeping.
#[derive(Clone, Copy, Debug)]
pub struct State {
    pub total_stnibi_issued: u128,
    pub total_rstnibi_issued: u128,
    pub stnibi_exchange_rate: Decimal,
    pub total_bond_stnibi_amount: u128,
    pub prev_hub_balance: u128,
    pub last_unbonded_time: u64,
    pub last_processed_batch: u64,
}

/// The exchange rate that `update_stnibi_exchange_rate` sets for a bonded amount and
/// a supply: one when either is zero, `bonded / supply` otherwise.
pub open spec fn exchange_rate_for(bonded: u128, supply: int) -> int {
    if bonded == 0 || supply == 0 {
        DECIMAL_FRACTIONAL as int
    } else {
        mul_div_floor(bonded as int, DECIMAL_FRACTIONAL as int, supply)
    }
}

/// `update_stnibi_exchange_rate` does not overflow for this bonded amount and supply.
pub open spec fn exchange_rate_fits(bonded: u128, supply: int) -> bool {
    &&& supply <= u128::MAX
    &&& (bonded == 0 || supply == 0 || mul_div_floor(
        bonded as int,
        DECIMAL_FRACTIONAL as int,
        supply,
    ) <= u128::MAX)
}

impl State {
    /// Sets the exchange rate to the bonded amount per stNIBI of the actual supply,
    /// `total_issued + requested`, or to one when either is zero.
    pub fn update_stnibi_exchange_rate(&mut self, total_issued: u128, requested: u128)
        requires
            exchange_rate_fits(old(self).total_bond_stnibi_amount, total_issued + requested),
        ensures
            *final(self) == (State {
                stnibi_exchange_rate: Decimal {
                    atomics: exchange_rate_for(
                        old(self).total_bond_stnibi_amount,
                        total_issued + requested,
                    ) as u128,
                },
                ..*old(self)
            }),
    {
        let actual_supply = total_issued + requested;
        if self.total_bond_stnibi_amount == 0 || actual_supply == 0 {
            self.stnibi_exchange_rate = Decimal::one();
        } else {
            self.stnibi_exchange_rate = decimal_from_ratio(
                self.total_bond_stnibi_amount,
                actual_supply,
            );
        }
    }
}

/// Who runs the hub and which contracts it works with.
#[derive(Clone, Debug)]
pub struct Config {
    pub creator: String,
    pub reward_dispatcher_contract: Option<String>,
    pub validators_registry_contract: Option<String>,
    pub stnibi_token_contract: Option<String>,
    pub rstnibi_token_contract: Option<String>,
    pub stnibi_reserve: Option<u128>,
    pub total_bonded: u128,
    pub stnibi_denom: Option<String>,
}

/// The hub's messages.
#[derive(Clone, Debug)]
pub enum ExecuteMsg {
    UpdateConfig {
        owner: Option<String>,
        rewards_dispatcher_contract: Option<String>,
        validators_registry_contract: Option<String>,
        stnibi_token_contract: Option<String>,
        stnibi_denom: Option<String>,
    },
    UpdateParams { epoch_period: Option<u64>, unbonding_period: Option<u64> },
    PauseContracts,
    UnpauseContracts,
    BondForstnibi,
    BondRewards,
    Restake { sender: String, amount: u128, hook: Cw20HookMsg },
    DispatchRewards,
    WithdrawUnbonded,
    CheckSlashing,
    Receive { sender: String, amount: u128, hook: Cw20HookMsg },
    RedelegateProxy { src_validator: String, redelegations: Vec<(String, Coin)> },
    AddGuardians { addresses: Vec<String> },
    RemoveGuardians { addresses: Vec<String> },
}

/// The hub's tunable parameters.
#[derive(Clone, Debug)]
pub struct Parameters {
    pub epoch_period: u64,
    pub underlying_coin_denom: String,
    pub unbonding_period: u64,
    pub paused: Option<bool>,
}

/// The unbonding batch currently collecting requests.
#[derive(Clone, Copy, Debug)]
pub struct CurrentBatch {
    pub id: u64,
    pub requested_stnibi: u128,
}

/// A processed unbonding batch.
#[derive(Clone, Copy, Debug)]
pub struct UnbondHistory {
    pub batch_id: u64,
    pub time: u64,
    pub stnibi_amount: u128,
    pub stnibi_applied_exchange_rate: Decimal,
    pub stnibi_withdraw_rate: Decimal,
    pub released: bool,
}

/// A processed unbonding batch, as queries report it.
#[derive(Clone, Copy, Debug)]
pub struct UnbondHistoryResponse {
    pub batch_id: u64,
    pub time: u64,
    pub stnibi_amount: u128,
    pub stnibi_applied_exchange_rate: Decimal,
    pub stnibi_withdraw_rate: Decimal,
    pub released: bool,
}

/// The amount one user asked to unbond in one batch.
#[derive(Clone, Copy, Debug)]
pub struct UnbondWaitEntity {
    pub stnibi_amount: u128,
}

#[derive(Clone, Copy, Debug)]
pub struct StateResponse {
    pub stnibi_exchange_rate: Decimal,
    pub total_bond_stnibi_amount: u128,
    pub prev_hub_balance: u128,
    pub last_unbonded_time: u64,
    pub last_processed_batch: u64,
}

#[derive(Clone, Debug)]
pub struct ConfigResponse {
    pub owner: String,
    pub reward_dispatcher_contract: Option<String>,
    pub validators_registry_contract: Option<String>,
    pub stnibi_token_contract: Option<String>,
}

#[allow(non_snake_case)]
#[derive(Clone, Debug)]
pub struct RestakeResponse {
    pub Staker: String,
    pub stnibi_amount: u128,
}

#[derive(Clone, Copy, Debug)]
pub struct CurrentBatchResponse {
    pub id: u64,
    pub requested_stnibi: u128,
}

#[derive(Clone, Copy, Debug)]
pub struct WithdrawableUnbondedResponse {
    pub withdrawable: u128,
}

#[derive(Clone, Debug)]
pub struct UnbondRequestsResponse {
    pub address: String,
    pub requests: UnbondRequest,
}

#[derive(Clone, Debug)]
pub struct AllHistoryResponse {
    pub history: Vec<UnbondHistoryResponse>,
}

#[derive(Clone, Copy, Debug)]
pub struct MigrateMsg {}

/// The hub's queries.
#[derive(Clone, Debug)]
pub enum QueryMsg {
    Config,
    State,
    CurrentBatch,
    WithdrawableUnbonded { address: String },
    Parameters,
    UnbondRequests { address: String },
    AllHistory { start_from: Option<u64>, limit: Option<u32> },
    Guardians,
    Restake { staker: String },
    Staker { staker: String },
    DelegationData { delegator: String },
}

/// Whether the hub is paused, given its parameters as a `Parameters` query returned
/// them: an unset flag counts as not paused.
pub fn is_paused(params: &Parameters) -> (r: bool)
    ensures
        r == (params.paused == Some(true)),
{
    match params.paused {
        Some(p) => p,
        None => false,
    }
}

} // verus!
