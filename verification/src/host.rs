//! The values a contract receives from the chain with each call, and the response it
//! hands back: the messages it asks the chain to dispatch and the attributes it logs.
use vstd::prelude::*;

use crate::decimal::Decimal;
use crate::hub::Cw20HookMsg;

verus! {

/// An amount of one native denomination.
#[derive(Clone, Debug)]
pub struct Coin {
    pub denom: String,
    pub amount: u128,
}

/// The block and the contract's own address.
#[derive(Clone, Debug)]
pub struct Env {
    pub block_time: u64,
    pub block_height: u64,
    pub contract_address: String,
}

/// The sender of a call and the coins sent along with it.
#[derive(Clone, Debug)]
pub struct MessageInfo {
    pub sender: String,
    pub funds: Vec<Coin>,
}

/// A delegation of this contract to a validator, as the staking module reports it.
#[derive(Clone, Debug)]
pub struct Delegation {
    pub delegator: String,
    pub validator: String,
    pub amount: Coin,
}

/// A delegation with what of it can be redelegated now, as the staking module reports
/// one delegation.
#[derive(Clone, Debug)]
pub struct FullDelegation {
    pub delegator: String,
    pub validator: String,
    pub amount: Coin,
    pub can_redelegate: Coin,
}

/// The body of a call to another contract.
#[derive(Clone, Debug)]
pub enum WasmCall {
    /// `DispatchRewards {}` of the reward dispatcher or of the hub.
    DispatchRewards,
    /// `BondRewards {}` of the hub.
    BondRewards,
    /// `Mint { recipient, amount }` of a cw20 token.
    Mint { recipient: String, amount: u128 },
    /// `RedelegateProxy { src_validator, redelegations }` of the hub.
    RedelegateProxy { src_validator: String, redelegations: Vec<(String, Coin)> },
    /// `Receive(Cw20ReceiveMsg { sender, amount, msg: hook })` of the hub.
    Receive { sender: String, amount: u128, hook: Cw20HookMsg },
    /// `Restake { cwmsg: Cw20ReceiveMsg { sender, amount, msg: hook } }` of the hub.
    Restake { sender: String, amount: u128, hook: Cw20HookMsg },
}

/// A message for the chain to dispatch after the call.
#[derive(Clone, Debug)]
pub enum Msg {
    /// Delegate `amount` to `validator`.
    Delegate { validator: String, amount: Coin },
    /// Withdraw this contract's staking rewards from `validator`.
    WithdrawDelegatorReward { validator: String },
    /// Send future staking rewards to `address`.
    SetWithdrawAddress { address: String },
    /// Send coins to `to_address`.
    BankSend { to_address: String, amount: Vec<Coin> },
    /// Call `contract_addr` with `call`, sending `funds`.
    Execute { contract_addr: String, call: WasmCall, funds: Vec<Coin> },
}

/// The value of a logged attribute; it is rendered to text by the caller.
#[derive(Clone, Debug)]
pub enum AttrValue {
    Text(String),
    Static(&'static str),
    Uint(u128),
    U64(u64),
    Dec(Decimal),
    /// A coin, rendered as amount followed by denomination.
    Coin(Coin),
    /// A list of texts, rendered joined by commas.
    Joined(Vec<String>),
}

/// A logged attribute.
#[derive(Clone, Debug)]
pub struct Attr {
    pub key: &'static str,
    pub value: AttrValue,
}

/// What a successful call hands back.
#[derive(Clone, Debug)]
pub struct Response {
    pub messages: Vec<Msg>,
    pub attributes: Vec<Attr>,
}

/// The errors of the host's standard library that the contracts raise.
#[derive(Clone, Debug, PartialEq, Eq)]
pub enum StdError {
    /// An error the host reported, such as a failed address check or query, with its text.
    Host { msg: String },
    /// A generic error with the given text.
    Generic { msg: &'static str },
    /// A generic error reading "No {denom} assets are provided to bond".
    NoAssetsProvided { denom: String },
    /// An overflow or underflow of a checked integer operation.
    Overflow,
    /// A value of the named kind is not in storage.
    NotFound { kind: &'static str },
}

impl StdError {
    /// An identical error.
    pub fn duplicate(&self) -> (r: StdError)
        ensures
            r == *self,
    {
        match self {
            StdError::Host { msg } => StdError::Host { msg: msg.clone() },
            StdError::Generic { msg } => StdError::Generic { msg: *msg },
            StdError::NoAssetsProvided { denom } => StdError::NoAssetsProvided { denom: denom.clone() },
            StdError::Overflow => StdError::Overflow,
            StdError::NotFound { kind } => StdError::NotFound { kind: *kind },
        }
    }
}

/// An attribute with a static text value.
pub fn attr_static(key: &'static str, value: &'static str) -> (r: Attr)
    ensures
        r.key == key,
        r.value == AttrValue::Static(value),
{
    Attr { key, value: AttrValue::Static(value) }
}

/// An attribute with a text value.
pub fn attr_text(key: &'static str, value: String) -> (r: Attr)
    ensures
        r.key == key,
        r.value == AttrValue::Text(value),
{
    Attr { key, value: AttrValue::Text(value) }
}

} // verus!
