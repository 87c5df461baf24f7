//! The rewards dispatcher of the staking contracts: the same dispatch as
//! `reward_dispatcher`, with the hub named `hub_contract` and the Nexus fee logged as
//! `nexus_stnibi_fee`.
use vstd::prelude::*;

use crate::decimal::{Decimal, uint_mul_decimal};
use crate::host::{Attr, AttrValue, Coin, MessageInfo, Response, StdError, attr_static};
use crate::hub::{Parameters, is_paused};
use crate::reward_dispatcher::{dispatch_error, dispatch_messages, dispatch_parts, dispatched_amount, nexus_fee};

verus! {

/// The dispatcher's configuration.
#[derive(Debug)]
pub struct Config {
    pub owner: String,
    pub hub_contract: String,
    pub stnibi_reward_denom: String,
    pub nexus_fee_address: String,
    pub nexus_fee_rate: Decimal,
}

/// What the dispatcher is instantiated with.
#[derive(Clone, Debug)]
pub struct InstantiateMsg {
    pub hub_contract: String,
    pub stnibi_reward_denom: String,
    pub nexus_fee_address: String,
    pub nexus_fee_rate: Decimal,
}

/// The dispatcher's messages.
#[derive(Clone, Debug)]
pub enum ExecuteMsg {
    UpdateConfig {
        owner: Option<String>,
        hub_contract: Option<String>,
        stnibi_reward_denom: Option<String>,
        nexus_fee_address: Option<String>,
        nexus_fee_rate: Option<Decimal>,
    },
    DispatchRewards,
}

/// The dispatcher's queries.
#[derive(Clone, Copy, Debug, PartialEq, Eq, Structural)]
pub enum QueryMsg {
    /// The buffered rewards (not answered).
    GetBufferedRewards,
    /// The configuration.
    Config,
}

#[derive(Clone, Copy, Debug, PartialEq, Eq, Structural)]
pub struct GetBufferedRewardsResponse {}

#[derive(Clone, Copy, Debug, PartialEq, Eq, Structural)]
pub struct MigrateMsg {}

/// The fee on `amount` at `fee_rate`, `amount * fee_rate` rounded down; the product
/// must fit in 128 bits (the contract panics otherwise).
pub fn compute_nexus_fee(amount: u128, fee_rate: Decimal) -> (r: u128)
    requires
        nexus_fee(amount, fee_rate) <= u128::MAX,
    ensures
        r == nexus_fee(amount, fee_rate),
{
    uint_mul_decimal(amount, fee_rate)
}

/// The configuration after an update: each value given replaces the old one.
pub open spec fn updated_config(
    c: Config,
    owner: Option<String>,
    hub_contract: Option<String>,
    nexus_fee_address: Option<String>,
    nexus_fee_rate: Option<Decimal>,
) -> Config {
    Config {
        owner: match owner {
            Some(o) => o,
            None => c.owner,
        },
        hub_contract: match hub_contract {
            Some(h) => h,
            None => c.hub_contract,
        },
        nexus_fee_address: match nexus_fee_address {
            Some(a) => a,
            None => c.nexus_fee_address,
        },
        nexus_fee_rate: match nexus_fee_rate {
            Some(r) => r,
            None => c.nexus_fee_rate,
        },
        ..c
    }
}

/// Why `execute_update_config` fails, if it does: the sender fails the host's check
/// or is not the owner, an address given fails the host's check, or a reward
/// denomination is given (it cannot change). The checks run in the order sender,
/// owner, hub, denomination, fee address.
pub open spec fn update_config_error(
    c: Config,
    sender: Seq<char>,
    owner: Option<String>,
    hub_contract: Option<String>,
    stnibi_reward_denom: Option<String>,
    nexus_fee_address: Option<String>,
    sender_check: Result<(), StdError>,
    owner_check: Result<(), StdError>,
    hub_check: Result<(), StdError>,
    address_check: Result<(), StdError>,
) -> Option<StdError> {
    if sender_check is Err {
        Some(sender_check->Err_0)
    } else if sender != c.owner@ {
        Some(StdError::Generic { msg: "unauthorized" })
    } else if owner is Some && owner_check is Err {
        Some(owner_check->Err_0)
    } else if hub_contract is Some && hub_check is Err {
        Some(hub_check->Err_0)
    } else if stnibi_reward_denom is Some {
        Some(StdError::Generic { msg: "updating stnibi reward denom is forbidden" })
    } else if nexus_fee_address is Some && address_check is Err {
        Some(address_check->Err_0)
    } else {
        None
    }
}

/// What `execute_update_config` does.
pub open spec fn update_config_done(
    old: &Config,
    new: &Config,
    info: &MessageInfo,
    owner: Option<String>,
    hub_contract: Option<String>,
    stnibi_reward_denom: Option<String>,
    nexus_fee_address: Option<String>,
    nexus_fee_rate: Option<Decimal>,
    sender_check: Result<(), StdError>,
    owner_check: Result<(), StdError>,
    hub_check: Result<(), StdError>,
    address_check: Result<(), StdError>,
    r: Result<Response, StdError>,
) -> bool {
    match update_config_error(
        *old,
        info.sender@,
        owner,
        hub_contract,
        stnibi_reward_denom,
        nexus_fee_address,
        sender_check,
        owner_check,
        hub_check,
        address_check,
    ) {
        Some(e) => r == Err::<Response, StdError>(e) && *new == *old,
        None => {
            &&& r matches Ok(res) && res.messages@.len() == 0 && res.attributes@.len() == 0
            &&& *new == updated_config(
                *old,
                owner,
                hub_contract,
                nexus_fee_address,
                nexus_fee_rate,
            )
        },
    }
}

/// What `execute_dispatch_rewards` does for the configuration `c`.
pub open spec fn dispatch_done(
    c: &Config,
    info: &MessageInfo,
    hub_params: Result<Parameters, StdError>,
    balance: Result<u128, StdError>,
    r: Result<Response, StdError>,
) -> bool {
    match dispatch_error(c.hub_contract@, info.sender@, hub_params, balance) {
        Some(e) => r == Err::<Response, StdError>(e),
        None => {
            let b = balance->Ok_0;
            let fee = nexus_fee(b, c.nexus_fee_rate);
            if fee > b {
                r == Err::<Response, StdError>(StdError::Overflow)
            } else {
                let rewards = (b - fee) as u128;
                &&& r is Ok
                &&& dispatch_messages(
                    r->Ok_0.messages@,
                    c.hub_contract,
                    c.nexus_fee_address,
                    c.stnibi_reward_denom,
                    rewards,
                    fee as u128,
                )
                &&& dispatched_amount(r->Ok_0.messages@) == b
                &&& r->Ok_0.attributes@ == seq![
                    Attr { key: "action", value: AttrValue::Static("claim_reward") },
                    Attr {
                        key: "stnibi_rewards",
                        value: AttrValue::Coin(Coin { denom: c.stnibi_reward_denom, amount: rewards }),
                    },
                ] + if fee != 0 {
                    seq![
                        Attr {
                            key: "nexus_stnibi_fee",
                            value: AttrValue::Coin(Coin { denom: c.stnibi_reward_denom, amount: fee as u128 }),
                        },
                    ]
                } else {
                    Seq::<Attr>::empty()
                }
            }
        },
    }
}

/// Creates the configuration: the sender becomes the owner; the hub and the fee
/// address must pass the host's checks (`hub_check` and `fee_address_check` are the
/// outcomes).
pub fn instantiate(
    info: &MessageInfo,
    msg: InstantiateMsg,
    hub_check: Result<(), StdError>,
    fee_address_check: Result<(), StdError>,
) -> (r: Result<(Config, Response), StdError>)
    ensures
        hub_check is Err ==> r == Err::<(Config, Response), StdError>(hub_check->Err_0),
        hub_check is Ok && fee_address_check is Err ==> r == Err::<(Config, Response), StdError>(
            fee_address_check->Err_0,
        ),
        hub_check is Ok && fee_address_check is Ok ==> (r matches Ok((c, res)) && c == (Config {
            owner: info.sender,
            hub_contract: msg.hub_contract,
            stnibi_reward_denom: msg.stnibi_reward_denom,
            nexus_fee_address: msg.nexus_fee_address,
            nexus_fee_rate: msg.nexus_fee_rate,
        }) && res.messages@.len() == 0 && res.attributes@.len() == 0),
{
    if let Err(e) = hub_check {
        return Err(e);
    }
    if let Err(e) = fee_address_check {
        return Err(e);
    }
    let config = Config {
        owner: info.sender.clone(),
        hub_contract: msg.hub_contract,
        stnibi_reward_denom: msg.stnibi_reward_denom,
        nexus_fee_address: msg.nexus_fee_address,
        nexus_fee_rate: msg.nexus_fee_rate,
    };
    Ok((config, Response { messages: Vec::new(), attributes: Vec::new() }))
}

/// What a migration does: nothing.
pub fn migrate() -> (r: Response)
    ensures
        r.messages@.len() == 0,
        r.attributes@.len() == 0,
{
    Response { messages: Vec::new(), attributes: Vec::new() }
}

impl Config {
    /// Handles a message: dispatches the rewards or updates the configuration.
    /// `hub_params` and `balance` are the outcomes of the queries a dispatch makes;
    /// the checks are the outcomes of the host's checks an update makes.
    pub fn execute(
        &mut self,
        info: &MessageInfo,
        msg: ExecuteMsg,
        hub_params: Result<Parameters, StdError>,
        balance: Result<u128, StdError>,
        sender_check: Result<(), StdError>,
        owner_check: Result<(), StdError>,
        hub_check: Result<(), StdError>,
        address_check: Result<(), StdError>,
    ) -> (r: Result<Response, StdError>)
        requires
            msg is DispatchRewards && dispatch_error(old(self).hub_contract@, info.sender@, hub_params, balance)
                is None ==> nexus_fee(balance->Ok_0, old(self).nexus_fee_rate) <= u128::MAX,
        ensures
            match msg {
                ExecuteMsg::DispatchRewards => *final(self) == *old(self) && dispatch_done(
                    old(self),
                    info,
                    hub_params,
                    balance,
                    r,
                ),
                ExecuteMsg::UpdateConfig {
                    owner,
                    hub_contract,
                    stnibi_reward_denom,
                    nexus_fee_address,
                    nexus_fee_rate,
                } => update_config_done(
                    old(self),
                    final(self),
                    info,
                    owner,
                    hub_contract,
                    stnibi_reward_denom,
                    nexus_fee_address,
                    nexus_fee_rate,
                    sender_check,
                    owner_check,
                    hub_check,
                    address_check,
                    r,
                ),
            },
    {
        match msg {
            ExecuteMsg::DispatchRewards => self.execute_dispatch_rewards(info, hub_params, balance),
            ExecuteMsg::UpdateConfig {
                owner,
                hub_contract,
                stnibi_reward_denom,
                nexus_fee_address,
                nexus_fee_rate,
            } => self.execute_update_config(
                info,
                owner,
                hub_contract,
                stnibi_reward_denom,
                nexus_fee_address,
                nexus_fee_rate,
                sender_check,
                owner_check,
                hub_check,
                address_check,
            ),
        }
    }

    /// Updates the owner, the hub, the fee rate and the fee address, each where one is
    /// given; only the owner may. The sender and each address must pass the host's
    /// check (`sender_check`, `owner_check`, `hub_check` and `address_check` are the
    /// outcomes); the reward denomination cannot change.
    pub fn execute_update_config(
        &mut self,
        info: &MessageInfo,
        owner: Option<String>,
        hub_contract: Option<String>,
        stnibi_reward_denom: Option<String>,
        nexus_fee_address: Option<String>,
        nexus_fee_rate: Option<Decimal>,
        sender_check: Result<(), StdError>,
        owner_check: Result<(), StdError>,
        hub_check: Result<(), StdError>,
        address_check: Result<(), StdError>,
    ) -> (r: Result<Response, StdError>)
        ensures
            update_config_done(
                old(self),
                final(self),
                info,
                owner,
                hub_contract,
                stnibi_reward_denom,
                nexus_fee_address,
                nexus_fee_rate,
                sender_check,
                owner_check,
                hub_check,
                address_check,
                r,
            ),
    {
        if let Err(e) = sender_check {
            return Err(e);
        }
        if info.sender != self.owner {
            return Err(StdError::Generic { msg: "unauthorized" });
        }
        if owner.is_some() {
            if let Err(e) = owner_check {
                return Err(e);
            }
        }
        if hub_contract.is_some() {
            if let Err(e) = hub_check {
                return Err(e);
            }
        }
        if stnibi_reward_denom.is_some() {
            return Err(StdError::Generic { msg: "updating stnibi reward denom is forbidden" });
        }
        if nexus_fee_address.is_some() {
            if let Err(e) = address_check {
                return Err(e);
            }
        }
        match owner {
            Some(o) => {
                self.owner = o;
            },
            None => {},
        }
        match hub_contract {
            Some(h) => {
                self.hub_contract = h;
            },
            None => {},
        }
        match nexus_fee_rate {
            Some(rate) => {
                self.nexus_fee_rate = rate;
            },
            None => {},
        }
        match nexus_fee_address {
            Some(a) => {
                self.nexus_fee_address = a;
            },
            None => {},
        }
        Ok(Response { messages: Vec::new(), attributes: Vec::new() })
    }

    /// Sends the dispatcher's balance of the reward denomination on: the Nexus fee to
    /// the fee address and the rest to the hub as rewards to bond. Only the hub may
    /// call it, and not while the hub is paused. `hub_params` is the outcome of the
    /// hub's `Parameters` query, `balance` that of the query for the dispatcher's
    /// balance of the reward denomination.
    pub fn execute_dispatch_rewards(
        &self,
        info: &MessageInfo,
        hub_params: Result<Parameters, StdError>,
        balance: Result<u128, StdError>,
    ) -> (r: Result<Response, StdError>)
        requires
            dispatch_error(self.hub_contract@, info.sender@, hub_params, balance) is None ==> nexus_fee(
                balance->Ok_0,
                self.nexus_fee_rate,
            ) <= u128::MAX,
        ensures
            dispatch_done(self, info, hub_params, balance, r),
    {
        let params = match hub_params {
            Ok(p) => p,
            Err(e) => {
                return Err(e);
            },
        };
        if is_paused(&params) {
            return Err(StdError::Generic { msg: "the contract is temporarily paused" });
        }
        if info.sender != self.hub_contract {
            return Err(StdError::Generic { msg: "unauthorized" });
        }
        let amount = match balance {
            Ok(b) => b,
            Err(e) => {
                return Err(e);
            },
        };
        let fee = compute_nexus_fee(amount, self.nexus_fee_rate);
        if fee > amount {
            return Err(StdError::Overflow);
        }
        let rewards = amount - fee;
        let (messages, fee_attrs) = dispatch_parts(
            &self.hub_contract,
            &self.nexus_fee_address,
            &self.stnibi_reward_denom,
            rewards,
            fee,
            "nexus_stnibi_fee",
        );
        let mut attributes: Vec<Attr> = Vec::new();
        attributes.push(attr_static("action", "claim_reward"));
        attributes.push(Attr {
            key: "stnibi_rewards",
            value: AttrValue::Coin(Coin { denom: self.stnibi_reward_denom.clone(), amount: rewards }),
        });
        let mut fee_attrs = fee_attrs;
        attributes.append(&mut fee_attrs);
        proof {
            assert(attributes@ =~= seq![
                Attr { key: "action", value: AttrValue::Static("claim_reward") },
                Attr {
                    key: "stnibi_rewards",
                    value: AttrValue::Coin(Coin { denom: self.stnibi_reward_denom, amount: rewards }),
                },
            ] + if fee != 0 {
                seq![
                    Attr {
                        key: "nexus_stnibi_fee",
                        value: AttrValue::Coin(Coin { denom: self.stnibi_reward_denom, amount: fee }),
                    },
                ]
            } else {
                Seq::<Attr>::empty()
            });
        }
        Ok(Response { messages, attributes })
    }

    /// The configuration.
    pub fn query_config(&self) -> (r: Config)
        ensures
            r == *self,
    {
        Config {
            owner: self.owner.clone(),
            hub_contract: self.hub_contract.clone(),
            stnibi_reward_denom: self.stnibi_reward_denom.clone(),
            nexus_fee_address: self.nexus_fee_address.clone(),
            nexus_fee_rate: self.nexus_fee_rate,
        }
    }
}

} // verus!
