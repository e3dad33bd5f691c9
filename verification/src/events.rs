//! The structured facts appended to the public log after each successful
//! state change, for external observers and indexers.

use vstd::prelude::*;

use crate::identity::Pubkey;

verus! {

/// An expense was recorded against the owner's budget.
#[derive(Clone, Copy, Debug)]
pub struct ExpenseRecorded {
    pub owner: Pubkey,
    /// The amount of this expense.
    pub amount: u64,
    /// The cumulative spend after this expense.
    pub new_total: u64,
    /// The remaining budget after this expense, clamped at zero.
    pub savings: u64,
}

/// Native asset moved into custody.
#[derive(Clone, Copy, Debug)]
pub struct SolSavingsDeposited {
    pub owner: Pubkey,
    pub amount: u64,
    /// The tracked native savings balance after the deposit.
    pub total_savings: u64,
}

/// Native asset moved out of custody.
#[derive(Clone, Copy, Debug)]
pub struct SolSavingsWithdrawn {
    pub owner: Pubkey,
    pub amount: u64,
    /// The tracked native savings balance after the withdrawal.
    pub remaining_savings: u64,
}

/// Token asset moved into the vault's token holding account.
#[derive(Clone, Copy, Debug)]
pub struct UsdcSavingsDeposited {
    pub owner: Pubkey,
    pub amount: u64,
}

/// Token asset moved out of the vault's token holding account.
#[derive(Clone, Copy, Debug)]
pub struct UsdcSavingsWithdrawn {
    pub owner: Pubkey,
    pub amount: u64,
}

} // verus!
