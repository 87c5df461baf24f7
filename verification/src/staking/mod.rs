//! The staking hub: users bond NIBI for stNIBI at the hub's exchange rate, the hub
//! delegates the NIBI over the registry's validators, tracks slashing, and keeps a
//! history of every staker's balance changes.
pub mod bond;
pub mod checks;
pub mod config;
pub mod contract;
pub mod error;
pub mod math;
pub mod restaking;
pub mod state;
