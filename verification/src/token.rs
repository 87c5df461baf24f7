//! The stNIBI token's own entry points around the standard cw20 ones: the pause
//! guard, and forwarding stNIBI to the hub to unbond or to restake it.
use vstd::prelude::*;

use crate::host::{Attr, AttrValue, MessageInfo, Msg, Response, StdError, WasmCall, attr_static};
use crate::hub::{Cw20HookMsg, Parameters, is_paused};

verus! {

/// The token's own storage: the hub it belongs to.
#[derive(Debug)]
pub struct TokenStore {
    pub hub_contract: String,
}

/// Checks that the hub is not paused before any token message is handled;
/// `hub_params` is the outcome of the hub's `Parameters` query.
pub fn check_not_paused(hub_params: Result<Parameters, StdError>) -> (r: Result<(), StdError>)
    ensures
        match hub_params {
            Err(e) => r == Err::<(), StdError>(e),
            Ok(p) => if p.paused == Some(true) {
                r == Err::<(), StdError>(StdError::Generic { msg: "The contract is temporarily paused" })
            } else {
                r is Ok
            },
        },
{
    let params = match hub_params {
        Ok(p) => p,
        Err(e) => {
            return Err(e);
        },
    };
    if is_paused(&params) {
        return Err(StdError::Generic { msg: "The contract is temporarily paused" });
    }
    Ok(())
}

impl TokenStore {
    /// Asks the hub to unbond `amount` of stNIBI for the sender: a `Receive` call on
    /// the hub with the `Unbond` hook.
    pub fn transfer_stnibi_token(&self, info: &MessageInfo, amount: u128) -> (r: Result<Response, StdError>)
        ensures
            r matches Ok(res) && res.messages@.len() == 1 && (res.messages@[0] matches Msg::Execute {
                contract_addr,
                call,
                funds,
            } && contract_addr == self.hub_contract && call == (WasmCall::Receive {
                sender: info.sender,
                amount,
                hook: Cw20HookMsg::Unbond,
            }) && funds@.len() == 0) && res.attributes@ == seq![
                Attr { key: "action", value: AttrValue::Static("receive") },
            ],
    {
        let mut messages: Vec<Msg> = Vec::new();
        messages.push(Msg::Execute {
            contract_addr: self.hub_contract.clone(),
            call: WasmCall::Receive { sender: info.sender.clone(), amount, hook: Cw20HookMsg::Unbond },
            funds: Vec::new(),
        });
        let mut attributes: Vec<Attr> = Vec::new();
        attributes.push(attr_static("action", "receive"));
        proof {
            assert(attributes@ =~= seq![Attr { key: "action", value: AttrValue::Static("receive") }]);
        }
        Ok(Response { messages, attributes })
    }

    /// Asks the hub to restake `amount` of stNIBI for the sender: a `Restake` call on
    /// the hub with the `Restake` hook.
    pub fn restake_stnibi_token(&self, info: &MessageInfo, amount: u128) -> (r: Result<Response, StdError>)
        ensures
            r matches Ok(res) && res.messages@.len() == 1 && (res.messages@[0] matches Msg::Execute {
                contract_addr,
                call,
                funds,
            } && contract_addr == self.hub_contract && call == (WasmCall::Restake {
                sender: info.sender,
                amount,
                hook: Cw20HookMsg::Restake,
            }) && funds@.len() == 0) && res.attributes@ == seq![
                Attr { key: "action", value: AttrValue::Static("restake") },
            ],
    {
        let mut messages: Vec<Msg> = Vec::new();
        messages.push(Msg::Execute {
            contract_addr: self.hub_contract.clone(),
            call: WasmCall::Restake { sender: info.sender.clone(), amount, hook: Cw20HookMsg::Restake },
            funds: Vec::new(),
        });
        let mut attributes: Vec<Attr> = Vec::new();
        attributes.push(attr_static("action", "restake"));
        proof {
            assert(attributes@ =~= seq![Attr { key: "action", value: AttrValue::Static("restake") }]);
        }
        Ok(Response { messages, attributes })
    }
}

} // verus!
