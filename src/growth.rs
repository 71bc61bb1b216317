//! The decisions behind growing a record: how much must be transferred to it,
//! and the errors a growth can end in.

use vstd::prelude::*;

verus! {

/// Why a growth was refused. Each one aborts the whole operation.
#[derive(Debug, Clone, Copy, PartialEq, Eq, Structural)]
pub enum GrowthError {
    /// The minimum balance for the requested size could not be obtained.
    BalanceOracleUnavailable,
    /// The funder could not pay the shortfall: too little balance, or no authority.
    TransferRejected,
    /// The platform refuses the requested buffer size.
    ResizeRejected,
}

/// What a record holding `balance` still lacks to hold `required`; zero when
/// it already holds enough.
pub open spec fn shortfall(required: nat, balance: nat) -> nat {
    if required > balance {
        (required - balance) as nat
    } else {
        0
    }
}

/// The amount that must be transferred to a record holding `balance` so that
/// it holds at least `required`.
pub fn top_up_amount(required: u64, balance: u64) -> (r: u64)
    ensures
        r == shortfall(required as nat, balance as nat),
        balance + r >= required,
        r > 0 <==> balance < required,
{
    required.saturating_sub(balance)
}

} // verus!
