//! The owner's settings: the hub's parameters and the contracts it works with.
use vstd::prelude::*;

use crate::host::{Attr, AttrValue, MessageInfo, Msg, Response, StdError, attr_static};
use crate::hub::{Config, Parameters};
use crate::staking::bond::store_unchanged;
use crate::staking::contract::same_but_guardians_params;
use crate::staking::state::HubStore;

verus! {

/// The parameters after an update: each value given replaces the old one; the
/// denomination and the pause flag stay.
pub open spec fn updated_params(p: Parameters, epoch_period: Option<u64>, unbonding_period: Option<u64>) -> Parameters {
    Parameters {
        epoch_period: match epoch_period {
            Some(e) => e,
            None => p.epoch_period,
        },
        unbonding_period: match unbonding_period {
            Some(u) => u,
            None => p.unbonding_period,
        },
        ..p
    }
}

/// Why `execute_update_config` fails, if it does: the sender is not the creator, an
/// address given fails the host's check, or the stNIBI denomination, once set, is
/// given again. The checks run in the order owner, reward dispatcher, stNIBI token,
/// denomination, validators registry.
pub open spec fn update_config_error(
    config: Config,
    sender: Seq<char>,
    owner: Option<String>,
    rewards_dispatcher_contract: Option<String>,
    stnibi_token_contract: Option<String>,
    validators_registry_contract: Option<String>,
    stnibi_denom: Option<String>,
    owner_check: Result<(), StdError>,
    reward_check: Result<(), StdError>,
    token_check: Result<(), StdError>,
    registry_check: Result<(), StdError>,
) -> Option<StdError> {
    if sender != config.creator@ {
        Some(StdError::Generic { msg: "unauthorized" })
    } else if owner is Some && owner_check is Err {
        Some(owner_check->Err_0)
    } else if rewards_dispatcher_contract is Some && reward_check is Err {
        Some(reward_check->Err_0)
    } else if stnibi_token_contract is Some && token_check is Err {
        Some(token_check->Err_0)
    } else if stnibi_denom is Some && config.stnibi_denom is Some {
        Some(StdError::Generic { msg: "updating stnibi token address is forbidden" })
    } else if validators_registry_contract is Some && registry_check is Err {
        Some(registry_check->Err_0)
    } else {
        None
    }
}

/// The configuration after an update: each address or denomination given replaces
/// the old one.
pub open spec fn updated_config(
    config: Config,
    owner: Option<String>,
    rewards_dispatcher_contract: Option<String>,
    stnibi_token_contract: Option<String>,
    validators_registry_contract: Option<String>,
    stnibi_denom: Option<String>,
) -> Config {
    Config {
        creator: match owner {
            Some(o) => o,
            None => config.creator,
        },
        reward_dispatcher_contract: match rewards_dispatcher_contract {
            Some(r) => Some(r),
            None => config.reward_dispatcher_contract,
        },
        stnibi_token_contract: match stnibi_token_contract {
            Some(t) => Some(t),
            None => config.stnibi_token_contract,
        },
        validators_registry_contract: match validators_registry_contract {
            Some(v) => Some(v),
            None => config.validators_registry_contract,
        },
        stnibi_denom: match stnibi_denom {
            Some(d) => Some(d),
            None => config.stnibi_denom,
        },
        ..config
    }
}

/// The parts of the storage other than the configuration are equal.
pub open spec fn same_but_config(a: &HubStore, b: &HubStore) -> bool {
    &&& a.state == b.state
    &&& a.params == b.params
    &&& a.current_batch == b.current_batch
    &&& a.guardians@ == b.guardians@
    &&& a.staker_info@ == b.staker_info@
    &&& a.staker_info_new@ == b.staker_info_new@
    &&& a.balance_updates@ == b.balance_updates@
    &&& a.lp_tokens@ == b.lp_tokens@
    &&& a.token_supply == b.token_supply
    &&& a.unbond_wait_list@ == b.unbond_wait_list@
    &&& a.unbond_history == b.unbond_history
}

/// What `execute_update_params` does.
pub open spec fn update_params_done(
    old: &HubStore,
    new: &HubStore,
    info: &MessageInfo,
    epoch_period: Option<u64>,
    unbonding_period: Option<u64>,
    r: Result<Response, StdError>,
) -> bool {
    &&& info.sender@ != old.config.creator@ ==> r == Err::<Response, StdError>(
        StdError::Generic { msg: "unauthorized" },
    ) && store_unchanged(old, new)
    &&& info.sender@ == old.config.creator@ ==> {
        &&& r is Ok
        &&& new.params == updated_params(old.params, epoch_period, unbonding_period)
        &&& new.guardians@ == old.guardians@
        &&& same_but_guardians_params(old, new)
        &&& r->Ok_0.messages@.len() == 0
        &&& r->Ok_0.attributes@ == seq![Attr { key: "action", value: AttrValue::Static("update_params") }]
    }
}

/// What `execute_update_config` does.
pub open spec fn update_config_done(
    old: &HubStore,
    new: &HubStore,
    info: &MessageInfo,
    owner: Option<String>,
    rewards_dispatcher_contract: Option<String>,
    stnibi_token_contract: Option<String>,
    validators_registry_contract: Option<String>,
    stnibi_denom: Option<String>,
    owner_check: Result<(), StdError>,
    reward_check: Result<(), StdError>,
    token_check: Result<(), StdError>,
    registry_check: Result<(), StdError>,
    r: Result<Response, StdError>,
) -> bool {
    &&& match update_config_error(
        old.config,
        info.sender@,
        owner,
        rewards_dispatcher_contract,
        stnibi_token_contract,
        validators_registry_contract,
        stnibi_denom,
        owner_check,
        reward_check,
        token_check,
        registry_check,
    ) {
        Some(e) => r == Err::<Response, StdError>(e) && store_unchanged(old, new),
        None => {
            &&& r is Ok
            &&& new.config == updated_config(
                old.config,
                owner,
                rewards_dispatcher_contract,
                stnibi_token_contract,
                validators_registry_contract,
                stnibi_denom,
            )
            &&& same_but_config(old, new)
            &&& r->Ok_0.messages@ == match rewards_dispatcher_contract {
                Some(a) => seq![Msg::SetWithdrawAddress { address: a }],
                None => Seq::<Msg>::empty(),
            }
            &&& r->Ok_0.attributes@ == seq![Attr { key: "action", value: AttrValue::Static("update_config") }]
        },
    }
}

impl HubStore {
    /// Updates the epoch and unbonding periods, each where one is given; only the
    /// creator may.
    pub fn execute_update_params(
        &mut self,
        info: &MessageInfo,
        epoch_period: Option<u64>,
        unbonding_period: Option<u64>,
    ) -> (r: Result<Response, StdError>)
        ensures
            update_params_done(old(self), final(self), info, epoch_period, unbonding_period, r),
    {
        if info.sender != self.config.creator {
            return Err(StdError::Generic { msg: "unauthorized" });
        }
        match epoch_period {
            Some(e) => {
                self.params.epoch_period = e;
            },
            None => {},
        }
        match unbonding_period {
            Some(u) => {
                self.params.unbonding_period = u;
            },
            None => {},
        }
        let mut attributes: Vec<Attr> = Vec::new();
        attributes.push(attr_static("action", "update_params"));
        proof {
            assert(attributes@ =~= seq![Attr { key: "action", value: AttrValue::Static("update_params") }]);
        }
        Ok(Response { messages: Vec::new(), attributes })
    }

    /// Updates the owner, the reward dispatcher, the stNIBI token contract, the
    /// validators registry and the stNIBI denomination, each where one is given; only
    /// the creator may. Each address must pass the host's check (`owner_check`,
    /// `reward_check`, `token_check` and `registry_check` are the outcomes); the
    /// denomination can be set once only. A new
    /// reward dispatcher also becomes the address the hub's staking rewards are
    /// withdrawn to.
    pub fn execute_update_config(
        &mut self,
        info: &MessageInfo,
        owner: Option<String>,
        rewards_dispatcher_contract: Option<String>,
        stnibi_token_contract: Option<String>,
        validators_registry_contract: Option<String>,
        stnibi_denom: Option<String>,
        owner_check: Result<(), StdError>,
        reward_check: Result<(), StdError>,
        token_check: Result<(), StdError>,
        registry_check: Result<(), StdError>,
    ) -> (r: Result<Response, StdError>)
        ensures
            update_config_done(
                old(self),
                final(self),
                info,
                owner,
                rewards_dispatcher_contract,
                stnibi_token_contract,
                validators_registry_contract,
                stnibi_denom,
                owner_check,
                reward_check,
                token_check,
                registry_check,
                r,
            ),
    {
        if info.sender != self.config.creator {
            return Err(StdError::Generic { msg: "unauthorized" });
        }
        if owner.is_some() {
            if let Err(e) = owner_check {
                return Err(e);
            }
        }
        if rewards_dispatcher_contract.is_some() {
            if let Err(e) = reward_check {
                return Err(e);
            }
        }
        if stnibi_token_contract.is_some() {
            if let Err(e) = token_check {
                return Err(e);
            }
        }
        if stnibi_denom.is_some() && self.config.stnibi_denom.is_some() {
            return Err(StdError::Generic { msg: "updating stnibi token address is forbidden" });
        }
        if validators_registry_contract.is_some() {
            if let Err(e) = registry_check {
                return Err(e);
            }
        }
        let mut messages: Vec<Msg> = Vec::new();
        match owner {
            Some(o) => {
                self.config.creator = o;
            },
            None => {},
        }
        match rewards_dispatcher_contract {
            Some(a) => {
                messages.push(Msg::SetWithdrawAddress { address: a.clone() });
                self.config.reward_dispatcher_contract = Some(a);
            },
            None => {},
        }
        match stnibi_token_contract {
            Some(t) => {
                self.config.stnibi_token_contract = Some(t);
            },
            None => {},
        }
        match stnibi_denom {
            Some(d) => {
                self.config.stnibi_denom = Some(d);
            },
            None => {},
        }
        match validators_registry_contract {
            Some(v) => {
                self.config.validators_registry_contract = Some(v);
            },
            None => {},
        }
        let mut attributes: Vec<Attr> = Vec::new();
        attributes.push(attr_static("action", "update_config"));
        proof {
            assert(attributes@ =~= seq![Attr { key: "action", value: AttrValue::Static("update_config") }]);
        }
        Ok(Response { messages, attributes })
    }
}

} // verus!
