//! Restaking: stNIBI sent to the hub is delegated over the registry's validators.
use vstd::prelude::*;

use crate::host::{Attr, AttrValue, Coin, MessageInfo, Msg, Response, StdError, attr_text};
use crate::staking::bond::{bond_payment, delegate_msgs, delegated_by, delegation_messages};
use crate::staking::state::HubStore;
use crate::validator_registry::{ValidatorResponse, calculate_delegations, delegation_plan, total_delegated};

verus! {

/// The denomination that restaking accepts.
pub open spec fn restake_denom() -> Seq<char> {
    seq!['s', 't', 'N', 'I', 'B', 'I']
}

/// `execute_restake_bond` reaches the delegation of the payment: the hub is not
/// paused, one coin of stNIBI was sent, the registry is configured and answered with
/// validators.
pub open spec fn restake_reaches_delegation(
    store: &HubStore,
    info: &MessageInfo,
    validators: Result<Vec<ValidatorResponse>, StdError>,
) -> bool {
    &&& store.params.paused != Some(true)
    &&& info.funds@.len() <= 1
    &&& bond_payment(info.funds@, restake_denom()) is Some
    &&& store.config.validators_registry_contract is Some
    &&& validators matches Ok(vs) && vs@.len() > 0
}

/// What a successful `execute_restake_bond` answers: the stNIBI is delegated over the
/// validators, and the sender and the amount are logged.
pub open spec fn restake_effects(
    info: &MessageInfo,
    vs: Seq<ValidatorResponse>,
    r: Response,
) -> bool {
    let p = bond_payment(info.funds@, restake_denom())->Some_0;
    &&& r.messages@ == delegate_msgs(vs, delegation_plan(vs, p.amount as int, vs.len()), p.denom, vs.len() as int)
    &&& delegated_by(r.messages@) == p.amount
    &&& r.attributes@ == seq![
        Attr { key: "from", value: AttrValue::Text(info.sender) },
        Attr { key: "bonded", value: AttrValue::Uint(p.amount) },
    ]
}

impl HubStore {
    /// Delegates the stNIBI sent with the call over the registry's validators, as a
    /// bond does with NIBI, but minting nothing and recording nothing. `validators` is
    /// the outcome of the registry's `GetValidatorsForDelegation` query.
    pub fn execute_restake_bond(
        &self,
        info: &MessageInfo,
        validators: Result<Vec<ValidatorResponse>, StdError>,
    ) -> (r: Result<Response, StdError>)
        requires
            restake_reaches_delegation(self, info, validators) ==> total_delegated(validators->Ok_0@)
                + bond_payment(info.funds@, restake_denom())->Some_0.amount <= u128::MAX,
        ensures
            if self.params.paused == Some(true) {
                r == Err::<Response, StdError>(StdError::Generic { msg: "the contract is temporarily paused" })
            } else if info.funds@.len() > 1 {
                r == Err::<Response, StdError>(
                    StdError::Generic { msg: "More than one coin is sent; only one asset is supported" },
                )
            } else if bond_payment(info.funds@, restake_denom()) is None {
                r matches Err(StdError::NoAssetsProvided { denom }) && denom@ == restake_denom()
            } else if self.config.validators_registry_contract is None {
                r == Err::<Response, StdError>(
                    StdError::Generic { msg: "Validators registry contract address is empty" },
                )
            } else {
                match validators {
                    Err(e) => r == Err::<Response, StdError>(e),
                    Ok(vs) => if vs@.len() == 0 {
                        r == Err::<Response, StdError>(StdError::Generic { msg: "Validators registry is empty" })
                    } else {
                        r is Ok && restake_effects(info, vs@, r->Ok_0)
                    },
                }
            },
    {
        if match self.params.paused {
            Some(p) => p,
            None => false,
        } {
            return Err(StdError::Generic { msg: "the contract is temporarily paused" });
        }
        let restake_coin_denom = "stNIBI".to_owned();
        proof {
            reveal_strlit("stNIBI");
            assert(restake_coin_denom@ =~= restake_denom());
        }
        if info.funds.len() > 1 {
            return Err(StdError::Generic { msg: "More than one coin is sent; only one asset is supported" });
        }
        if info.funds.len() == 0 || !(info.funds[0].denom == restake_coin_denom && info.funds[0].amount > 0) {
            return Err(StdError::NoAssetsProvided { denom: restake_coin_denom });
        }
        let payment = &info.funds[0];
        if self.config.validators_registry_contract.is_none() {
            return Err(StdError::Generic { msg: "Validators registry contract address is empty" });
        }
        let validators = match validators {
            Ok(v) => v,
            Err(e) => {
                return Err(e);
            },
        };
        if validators.len() == 0 {
            return Err(StdError::Generic { msg: "Validators registry is empty" });
        }
        let planned = calculate_delegations(payment.amount, &validators)?;
        let messages = delegation_messages(&planned, &validators, &payment.denom, payment.amount);
        let mut attributes: Vec<Attr> = Vec::new();
        attributes.push(attr_text("from", info.sender.clone()));
        attributes.push(Attr { key: "bonded", value: AttrValue::Uint(payment.amount) });
        proof {
            assert(attributes@ =~= seq![
                Attr { key: "from", value: AttrValue::Text(info.sender) },
                Attr { key: "bonded", value: AttrValue::Uint(payment.amount) },
            ]);
        }
        Ok(Response { messages, attributes })
    }
}

/// A fixed restake for trying the hub out: delegates one `nexusnibif` to the
/// validator `nibivaloper1lq3ktemm9rhpu0je850rnlrny752v6yuv4jc6d` and logs the sender.
pub fn execute_restake_bond_test(info: &MessageInfo) -> (r: Result<Response, StdError>)
    ensures
        r is Ok,
        r->Ok_0.messages@.len() == 1,
        r->Ok_0.messages@[0] matches Msg::Delegate { validator, amount }
            && validator@ == "nibivaloper1lq3ktemm9rhpu0je850rnlrny752v6yuv4jc6d"@
            && amount.denom@ == "nexusnibif"@ && amount.amount == 1,
        r->Ok_0.attributes@ == seq![
            Attr { key: "from", value: AttrValue::Text(info.sender) },
            Attr { key: "bonded", value: AttrValue::Static("1") },
        ],
{
    let mut messages: Vec<Msg> = Vec::new();
    messages.push(Msg::Delegate {
        validator: "nibivaloper1lq3ktemm9rhpu0je850rnlrny752v6yuv4jc6d".to_owned(),
        amount: Coin { denom: "nexusnibif".to_owned(), amount: 1 },
    });
    let mut attributes: Vec<Attr> = Vec::new();
    attributes.push(attr_text("from", info.sender.clone()));
    attributes.push(Attr { key: "bonded", value: AttrValue::Static("1") });
    proof {
        assert(attributes@ =~= seq![
            Attr { key: "from", value: AttrValue::Text(info.sender) },
            Attr { key: "bonded", value: AttrValue::Static("1") },
        ]);
    }
    Ok(Response { messages, attributes })
}

} // verus!
