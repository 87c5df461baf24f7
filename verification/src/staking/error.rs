//! The errors of balance bookkeeping.
use vstd::prelude::*;

use crate::host::StdError;

verus! {

/// Why a staker's balance could not be updated.
#[derive(Clone, Debug, PartialEq, Eq)]
pub enum BalanceError {
    InsufficientBalance { required: u128, available: u128 },
    InvalidAmount { reason: String },
    StakerNotFound,
    NegativeBalance,
    ZeroExchangeRate,
    InvalidTimestamp,
    Std(StdError),
}

} // verus!
