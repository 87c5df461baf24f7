//! The reward dispatcher: it collects the hub's staking rewards, keeps the Nexus fee
//! and sends the rest back to the hub to be bonded as rewards.
use vstd::prelude::*;

use crate::decimal::{Decimal, mul_div_fits, mul_div_floor, uint_mul_decimal, DECIMAL_FRACTIONAL};
use crate::host::{Attr, AttrValue, Coin, MessageInfo, Msg, Response, StdError, WasmCall, attr_static};
use crate::hub::{Parameters, is_paused};

verus! {

/// The dispatcher's configuration.
#[derive(Debug)]
pub struct Config {
    pub owner: String,
    pub staking_nibi_contract: String,
    pub stnibi_reward_denom: String,
    pub nexusfi_fee_address: String,
    pub nexusfi_fee_rate: Decimal,
}

/// What the dispatcher is instantiated with.
#[derive(Clone, Debug)]
pub struct InstantiateMsg {
    pub staking_nibi_contract: String,
    pub stnibi_reward_denom: String,
    pub nexusfi_fee_address: String,
    pub nexusfi_fee_rate: Decimal,
}

/// The dispatcher's messages.
#[derive(Clone, Debug)]
pub enum ExecuteMsg {
    UpdateConfig {
        owner: Option<String>,
        staking_nibi_contract: Option<String>,
        stnibi_reward_denom: Option<String>,
        nexusfi_fee_address: Option<String>,
        nexusfi_fee_rate: Option<Decimal>,
    },
    DispatchRewards,
}

/// The dispatcher's queries.
#[derive(Clone, Copy, Debug, PartialEq, Eq, Structural)]
pub enum QueryMsg {
    /// The buffered rewards (not answered).
    GetBufferedRewards,
    /// The configuration.
    Config,
}

#[derive(Clone, Copy, Debug, PartialEq, Eq, Structural)]
pub struct GetBufferedRewardsResponse {}

#[derive(Clone, Copy, Debug, PartialEq, Eq, Structural)]
pub struct MigrateMsg {}

/// The Nexus fee on `amount` at `rate`: `amount * rate`, rounded down.
pub open spec fn nexus_fee(amount: u128, rate: Decimal) -> int {
    mul_div_floor(amount as int, rate.atomics as int, DECIMAL_FRACTIONAL as int)
}

/// The fee on `amount` at `fee_rate`, `amount * fee_rate` rounded down; the product
/// must fit in 128 bits (the contract panics otherwise).
pub fn compute_nexus_fee(amount: u128, fee_rate: Decimal) -> (r: u128)
    requires
        nexus_fee(amount, fee_rate) <= u128::MAX,
    ensures
        r == nexus_fee(amount, fee_rate),
{
    uint_mul_decimal(amount, fee_rate)
}

/// Whether the fee on `amount` at `fee_rate` fits in 128 bits, as
/// `compute_nexus_fee` needs.
pub fn nexus_fee_fits(amount: u128, fee_rate: Decimal) -> (r: bool)
    ensures
        r == (nexus_fee(amount, fee_rate) <= u128::MAX),
{
    mul_div_fits(amount, fee_rate.atomics, DECIMAL_FRACTIONAL)
}

/// The coins that the messages `msgs` send: the funds of contract calls and the
/// amounts of bank sends.
pub open spec fn dispatched_amount(msgs: Seq<Msg>) -> int
    decreases msgs.len(),
{
    if msgs.len() == 0 {
        0
    } else {
        dispatched_amount(msgs.drop_last()) + match msgs.last() {
            Msg::Execute { funds, .. } => coins_amount(funds@),
            Msg::BankSend { amount, .. } => coins_amount(amount@),
            _ => 0,
        }
    }
}

/// The total amount of the coins `cs`.
pub open spec fn coins_amount(cs: Seq<Coin>) -> int
    decreases cs.len(),
{
    if cs.len() == 0 {
        0
    } else {
        coins_amount(cs.drop_last()) + cs.last().amount
    }
}

/// `m` sends `rewards` of `denom` to the hub with a `BondRewards` call.
pub open spec fn is_bond_rewards_call(m: Msg, hub: String, denom: String, rewards: u128) -> bool {
    m matches Msg::Execute { contract_addr, call, funds } && contract_addr == hub && call
        == WasmCall::BondRewards && funds@ == seq![Coin { denom, amount: rewards }]
}

/// `m` sends the fee `fee` of `denom` to the fee address.
pub open spec fn is_fee_send(m: Msg, fee_address: String, denom: String, fee: u128) -> bool {
    m matches Msg::BankSend { to_address, amount } && to_address == fee_address && amount@ == seq![
        Coin { denom, amount: fee },
    ]
}

/// `msgs` are the messages of a dispatch of `rewards` and `fee`: the rewards go to the
/// hub as a `BondRewards` call, then the fee to the fee address, each only when not
/// zero.
pub open spec fn dispatch_messages(
    msgs: Seq<Msg>,
    hub: String,
    fee_address: String,
    denom: String,
    rewards: u128,
    fee: u128,
) -> bool {
    let nb: int = if rewards != 0 { 1 } else { 0 };
    let nf: int = if fee != 0 { 1 } else { 0 };
    &&& msgs.len() == nb + nf
    &&& rewards != 0 ==> is_bond_rewards_call(msgs[0], hub, denom, rewards)
    &&& fee != 0 ==> is_fee_send(msgs[nb], fee_address, denom, fee)
}

/// Why a dispatch fails, if it does, before the balance is split: the hub's parameters
/// could not be read, the hub is paused, the sender is not the hub, or the balance
/// could not be read.
pub open spec fn dispatch_error(
    hub: Seq<char>,
    sender: Seq<char>,
    hub_params: Result<Parameters, StdError>,
    balance: Result<u128, StdError>,
) -> Option<StdError> {
    match hub_params {
        Err(e) => Some(e),
        Ok(p) => if p.paused == Some(true) {
            Some(StdError::Generic { msg: "the contract is temporarily paused" })
        } else if sender != hub {
            Some(StdError::Generic { msg: "unauthorized" })
        } else {
            match balance {
                Err(e) => Some(e),
                Ok(_) => None,
            }
        },
    }
}

/// The messages and the fee attribute of a dispatch of `rewards` and `fee`.
pub fn dispatch_parts(
    hub: &String,
    fee_address: &String,
    denom: &String,
    rewards: u128,
    fee: u128,
    fee_key: &'static str,
) -> (r: (Vec<Msg>, Vec<Attr>))
    ensures
        dispatch_messages(r.0@, *hub, *fee_address, *denom, rewards, fee),
        dispatched_amount(r.0@) == rewards + fee,
        r.1@ == if fee != 0 {
            seq![Attr { key: fee_key, value: AttrValue::Coin(Coin { denom: *denom, amount: fee }) }]
        } else {
            Seq::<Attr>::empty()
        },
{
    let mut messages: Vec<Msg> = Vec::new();
    if rewards != 0 {
        let mut funds: Vec<Coin> = Vec::new();
        funds.push(Coin { denom: denom.clone(), amount: rewards });
        proof {
            assert(funds@ =~= seq![Coin { denom: *denom, amount: rewards }]);
            assert(coins_amount(funds@.drop_last()) == 0);
        }
        let m = Msg::Execute { contract_addr: hub.clone(), call: WasmCall::BondRewards, funds };
        proof {
            assert(messages@.push(m).drop_last() =~= messages@);
            assert(coins_amount(seq![Coin { denom: *denom, amount: rewards }]) == rewards);
            assert(dispatched_amount(messages@.push(m)) == dispatched_amount(messages@) + rewards);
        }
        messages.push(m);
    }
    let ghost after_bond = messages@;
    let mut fee_attrs: Vec<Attr> = Vec::new();
    if fee != 0 {
        let mut fees: Vec<Coin> = Vec::new();
        fees.push(Coin { denom: denom.clone(), amount: fee });
        proof {
            assert(fees@ =~= seq![Coin { denom: *denom, amount: fee }]);
            assert(coins_amount(fees@.drop_last()) == 0);
        }
        let m = Msg::BankSend { to_address: fee_address.clone(), amount: fees };
        proof {
            assert(messages@.push(m).drop_last() =~= messages@);
            assert(coins_amount(seq![Coin { denom: *denom, amount: fee }]) == fee);
            assert(dispatched_amount(messages@.push(m)) == dispatched_amount(messages@) + fee);
        }
        messages.push(m);
        fee_attrs.push(Attr { key: fee_key, value: AttrValue::Coin(Coin { denom: denom.clone(), amount: fee }) });
        proof {
            assert(fee_attrs@ =~= seq![Attr { key: fee_key, value: AttrValue::Coin(Coin { denom: *denom, amount: fee }) }]);
        }
    }
    (messages, fee_attrs)
}

/// The configuration after an update: each value given replaces the old one.
pub open spec fn updated_config(
    c: Config,
    owner: Option<String>,
    staking_nibi_contract: Option<String>,
    nexusfi_fee_address: Option<String>,
    nexusfi_fee_rate: Option<Decimal>,
) -> Config {
    Config {
        owner: match owner {
            Some(o) => o,
            None => c.owner,
        },
        staking_nibi_contract: match staking_nibi_contract {
            Some(h) => h,
            None => c.staking_nibi_contract,
        },
        nexusfi_fee_address: match nexusfi_fee_address {
            Some(a) => a,
            None => c.nexusfi_fee_address,
        },
        nexusfi_fee_rate: match nexusfi_fee_rate {
            Some(r) => r,
            None => c.nexusfi_fee_rate,
        },
        ..c
    }
}

/// Why `execute_update_config` fails, if it does: the sender fails the host's check
/// or is not the owner, an address given fails the host's check, or a reward
/// denomination is given (it cannot change). The checks run in the order sender,
/// owner, hub, denomination, fee address.
pub open spec fn update_config_error(
    c: Config,
    sender: Seq<char>,
    owner: Option<String>,
    staking_nibi_contract: Option<String>,
    stnibi_reward_denom: Option<String>,
    nexusfi_fee_address: Option<String>,
    sender_check: Result<(), StdError>,
    owner_check: Result<(), StdError>,
    hub_check: Result<(), StdError>,
    address_check: Result<(), StdError>,
) -> Option<StdError> {
    if sender_check is Err {
        Some(sender_check->Err_0)
    } else if sender != c.owner@ {
        Some(StdError::Generic { msg: "unauthorized" })
    } else if owner is Some && owner_check is Err {
        Some(owner_check->Err_0)
    } else if staking_nibi_contract is Some && hub_check is Err {
        Some(hub_check->Err_0)
    } else if stnibi_reward_denom is Some {
        Some(StdError::Generic { msg: "updating statom reward denom is forbidden" })
    } else if nexusfi_fee_address is Some && address_check is Err {
        Some(address_check->Err_0)
    } else {
        None
    }
}

/// What `execute_update_config` does.
pub open spec fn update_config_done(
    old: &Config,
    new: &Config,
    info: &MessageInfo,
    owner: Option<String>,
    staking_nibi_contract: Option<String>,
    stnibi_reward_denom: Option<String>,
    nexusfi_fee_address: Option<String>,
    nexusfi_fee_rate: Option<Decimal>,
    sender_check: Result<(), StdError>,
    owner_check: Result<(), StdError>,
    hub_check: Result<(), StdError>,
    address_check: Result<(), StdError>,
    r: Result<Response, StdError>,
) -> bool {
    match update_config_error(
        *old,
        info.sender@,
        owner,
        staking_nibi_contract,
        stnibi_reward_denom,
        nexusfi_fee_address,
        sender_check,
        owner_check,
        hub_check,
        address_check,
    ) {
        Some(e) => r == Err::<Response, StdError>(e) && *new == *old,
        None => {
            &&& r matches Ok(res) && res.messages@.len() == 0 && res.attributes@.len() == 0
            &&& *new == updated_config(
                *old,
                owner,
                staking_nibi_contract,
                nexusfi_fee_address,
                nexusfi_fee_rate,
            )
        },
    }
}

/// What `execute_dispatch_rewards` does for the configuration `c`.
pub open spec fn dispatch_done(
    c: &Config,
    info: &MessageInfo,
    hub_params: Result<Parameters, StdError>,
    balance: Result<u128, StdError>,
    r: Result<Response, StdError>,
) -> bool {
    match dispatch_error(c.staking_nibi_contract@, info.sender@, hub_params, balance) {
        Some(e) => r == Err::<Response, StdError>(e),
        None => {
            let b = balance->Ok_0;
            let fee = nexus_fee(b, c.nexusfi_fee_rate);
            if fee > b {
                r == Err::<Response, StdError>(StdError::Overflow)
            } else {
                let rewards = (b - fee) as u128;
                &&& r is Ok
                &&& dispatch_messages(
                    r->Ok_0.messages@,
                    c.staking_nibi_contract,
                    c.nexusfi_fee_address,
                    c.stnibi_reward_denom,
                    rewards,
                    fee as u128,
                )
                &&& dispatched_amount(r->Ok_0.messages@) == b
                &&& r->Ok_0.attributes@ == seq![
                    Attr { key: "action", value: AttrValue::Static("claim_reward") },
                    Attr {
                        key: "statom_rewards",
                        value: AttrValue::Coin(Coin { denom: c.stnibi_reward_denom, amount: rewards }),
                    },
                ] + if fee != 0 {
                    seq![
                        Attr {
                            key: "lido_statom_fee",
                            value: AttrValue::Coin(Coin { denom: c.stnibi_reward_denom, amount: fee as u128 }),
                        },
                    ]
                } else {
                    Seq::<Attr>::empty()
                }
            }
        },
    }
}

/// Creates the configuration: the sender becomes the owner; the hub and the fee
/// address must pass the host's checks (`hub_check` and `fee_address_check` are the
/// outcomes).
pub fn instantiate(
    info: &MessageInfo,
    msg: InstantiateMsg,
    hub_check: Result<(), StdError>,
    fee_address_check: Result<(), StdError>,
) -> (r: Result<(Config, Response), StdError>)
    ensures
        hub_check is Err ==> r == Err::<(Config, Response), StdError>(hub_check->Err_0),
        hub_check is Ok && fee_address_check is Err ==> r == Err::<(Config, Response), StdError>(
            fee_address_check->Err_0,
        ),
        hub_check is Ok && fee_address_check is Ok ==> (r matches Ok((c, res)) && c == (Config {
            owner: info.sender,
            staking_nibi_contract: msg.staking_nibi_contract,
            stnibi_reward_denom: msg.stnibi_reward_denom,
            nexusfi_fee_address: msg.nexusfi_fee_address,
            nexusfi_fee_rate: msg.nexusfi_fee_rate,
        }) && res.messages@.len() == 0 && res.attributes@.len() == 0),
{
    if let Err(e) = hub_check {
        return Err(e);
    }
    if let Err(e) = fee_address_check {
        return Err(e);
    }
    let config = Config {
        owner: info.sender.clone(),
        staking_nibi_contract: msg.staking_nibi_contract,
        stnibi_reward_denom: msg.stnibi_reward_denom,
        nexusfi_fee_address: msg.nexusfi_fee_address,
        nexusfi_fee_rate: msg.nexusfi_fee_rate,
    };
    Ok((config, Response { messages: Vec::new(), attributes: Vec::new() }))
}

/// What a migration does: nothing.
pub fn migrate() -> (r: Response)
    ensures
        r.messages@.len() == 0,
        r.attributes@.len() == 0,
{
    Response { messages: Vec::new(), attributes: Vec::new() }
}

impl Config {
    /// Handles a message: dispatches the rewards or updates the configuration.
    /// `hub_params` and `balance` are the outcomes of the queries a dispatch makes;
    /// the checks are the outcomes of the host's checks an update makes.
    pub fn execute(
        &mut self,
        info: &MessageInfo,
        msg: ExecuteMsg,
        hub_params: Result<Parameters, StdError>,
        balance: Result<u128, StdError>,
        sender_check: Result<(), StdError>,
        owner_check: Result<(), StdError>,
        hub_check: Result<(), StdError>,
        address_check: Result<(), StdError>,
    ) -> (r: Result<Response, StdError>)
        requires
            msg is DispatchRewards && dispatch_error(old(self).staking_nibi_contract@, info.sender@, hub_params, balance)
                is None ==> nexus_fee(balance->Ok_0, old(self).nexusfi_fee_rate) <= u128::MAX,
        ensures
            match msg {
                ExecuteMsg::DispatchRewards => *final(self) == *old(self) && dispatch_done(
                    old(self),
                    info,
                    hub_params,
                    balance,
                    r,
                ),
                ExecuteMsg::UpdateConfig {
                    owner,
                    staking_nibi_contract,
                    stnibi_reward_denom,
                    nexusfi_fee_address,
                    nexusfi_fee_rate,
                } => update_config_done(
                    old(self),
                    final(self),
                    info,
                    owner,
                    staking_nibi_contract,
                    stnibi_reward_denom,
                    nexusfi_fee_address,
                    nexusfi_fee_rate,
                    sender_check,
                    owner_check,
                    hub_check,
                    address_check,
                    r,
                ),
            },
    {
        match msg {
            ExecuteMsg::DispatchRewards => self.execute_dispatch_rewards(info, hub_params, balance),
            ExecuteMsg::UpdateConfig {
                owner,
                staking_nibi_contract,
                stnibi_reward_denom,
                nexusfi_fee_address,
                nexusfi_fee_rate,
            } => self.execute_update_config(
                info,
                owner,
                staking_nibi_contract,
                stnibi_reward_denom,
                nexusfi_fee_address,
                nexusfi_fee_rate,
                sender_check,
                owner_check,
                hub_check,
                address_check,
            ),
        }
    }

    /// Updates the owner, the hub, the fee rate and the fee address, each where one is
    /// given; only the owner may. The sender and each address must pass the host's
    /// check (`sender_check`, `owner_check`, `hub_check` and `address_check` are the
    /// outcomes); the reward denomination cannot change.
    pub fn execute_update_config(
        &mut self,
        info: &MessageInfo,
        owner: Option<String>,
        staking_nibi_contract: Option<String>,
        stnibi_reward_denom: Option<String>,
        nexusfi_fee_address: Option<String>,
        nexusfi_fee_rate: Option<Decimal>,
        sender_check: Result<(), StdError>,
        owner_check: Result<(), StdError>,
        hub_check: Result<(), StdError>,
        address_check: Result<(), StdError>,
    ) -> (r: Result<Response, StdError>)
        ensures
            update_config_done(
                old(self),
                final(self),
                info,
                owner,
                staking_nibi_contract,
                stnibi_reward_denom,
                nexusfi_fee_address,
                nexusfi_fee_rate,
                sender_check,
                owner_check,
                hub_check,
                address_check,
                r,
            ),
    {
        if let Err(e) = sender_check {
            return Err(e);
        }
        if info.sender != self.owner {
            return Err(StdError::Generic { msg: "unauthorized" });
        }
        if owner.is_some() {
            if let Err(e) = owner_check {
                return Err(e);
            }
        }
        if staking_nibi_contract.is_some() {
            if let Err(e) = hub_check {
                return Err(e);
            }
        }
        if stnibi_reward_denom.is_some() {
            return Err(StdError::Generic { msg: "updating statom reward denom is forbidden" });
        }
        if nexusfi_fee_address.is_some() {
            if let Err(e) = address_check {
                return Err(e);
            }
        }
        match owner {
            Some(o) => {
                self.owner = o;
            },
            None => {},
        }
        match staking_nibi_contract {
            Some(h) => {
                self.staking_nibi_contract = h;
            },
            None => {},
        }
        match nexusfi_fee_rate {
            Some(rate) => {
                self.nexusfi_fee_rate = rate;
            },
            None => {},
        }
        match nexusfi_fee_address {
            Some(a) => {
                self.nexusfi_fee_address = a;
            },
            None => {},
        }
        Ok(Response { messages: Vec::new(), attributes: Vec::new() })
    }

    /// Sends the dispatcher's balance of the reward denomination on: the Nexus fee to
    /// the fee address and the rest to the hub as rewards to bond. Only the hub may
    /// call it, and not while the hub is paused. `hub_params` is the outcome of the
    /// hub's `Parameters` query, `balance` that of the query for the dispatcher's
    /// balance of the reward denomination.
    pub fn execute_dispatch_rewards(
        &self,
        info: &MessageInfo,
        hub_params: Result<Parameters, StdError>,
        balance: Result<u128, StdError>,
    ) -> (r: Result<Response, StdError>)
        requires
            dispatch_error(self.staking_nibi_contract@, info.sender@, hub_params, balance) is None ==> nexus_fee(
                balance->Ok_0,
                self.nexusfi_fee_rate,
            ) <= u128::MAX,
        ensures
            dispatch_done(self, info, hub_params, balance, r),
    {
        let params = match hub_params {
            Ok(p) => p,
            Err(e) => {
                return Err(e);
            },
        };
        if is_paused(&params) {
            return Err(StdError::Generic { msg: "the contract is temporarily paused" });
        }
        if info.sender != self.staking_nibi_contract {
            return Err(StdError::Generic { msg: "unauthorized" });
        }
        let amount = match balance {
            Ok(b) => b,
            Err(e) => {
                return Err(e);
            },
        };
        let fee = compute_nexus_fee(amount, self.nexusfi_fee_rate);
        if fee > amount {
            return Err(StdError::Overflow);
        }
        let rewards = amount - fee;
        let (messages, fee_attrs) = dispatch_parts(
            &self.staking_nibi_contract,
            &self.nexusfi_fee_address,
            &self.stnibi_reward_denom,
            rewards,
            fee,
            "lido_statom_fee",
        );
        let mut attributes: Vec<Attr> = Vec::new();
        attributes.push(attr_static("action", "claim_reward"));
        attributes.push(Attr {
            key: "statom_rewards",
            value: AttrValue::Coin(Coin { denom: self.stnibi_reward_denom.clone(), amount: rewards }),
        });
        let mut fee_attrs = fee_attrs;
        attributes.append(&mut fee_attrs);
        proof {
            assert(attributes@ =~= seq![
                Attr { key: "action", value: AttrValue::Static("claim_reward") },
                Attr {
                    key: "statom_rewards",
                    value: AttrValue::Coin(Coin { denom: self.stnibi_reward_denom, amount: rewards }),
                },
            ] + if fee != 0 {
                seq![
                    Attr {
                        key: "lido_statom_fee",
                        value: AttrValue::Coin(Coin { denom: self.stnibi_reward_denom, amount: fee }),
                    },
                ]
            } else {
                Seq::<Attr>::empty()
            });
        }
        Ok(Response { messages, attributes })
    }

    /// The configuration.
    pub fn query_config(&self) -> (r: Config)
        ensures
            r == *self,
    {
        Config {
            owner: self.owner.clone(),
            staking_nibi_contract: self.staking_nibi_contract.clone(),
            stnibi_reward_denom: self.stnibi_reward_denom.clone(),
            nexusfi_fee_address: self.nexusfi_fee_address.clone(),
            nexusfi_fee_rate: self.nexusfi_fee_rate,
        }
    }
}

} // verus!
