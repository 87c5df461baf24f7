//! Verified models of the Nexus liquid-staking contracts on Nibiru: the staking hub,
//! the reward dispatchers, the validator registry, the point system, the stNIBI vault
//! and the token front end. Every contract's storage is a value of a library type and
//! every entry point is a verified transition on it; the host runtime's reads and
//! writes, queries and address checks are done by the caller, which hands their
//! outcomes in as plain values.
use vstd::prelude::*;

pub mod addr_map;
pub mod avs;
pub mod decimal;
pub mod host;
pub mod hub;
pub mod point_system;
pub mod reward_dispatcher;
pub mod rewards_dispatcher;
pub mod staking;
pub mod token;
pub mod validator_registry;
pub mod vault;

verus! {
} // verus!
