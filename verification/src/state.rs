//! The per-user budget record and the pure state transitions on it.

use vstd::prelude::*;

use crate::identity::Pubkey;

verus! {

/// The persistent record kept for one user: the controlling identity, the
/// spending limit, the cumulative spend since the last budget reset, and the
/// native-asset savings balance held in custody on the user's behalf.
#[derive(Clone, Copy, Debug)]
#[verifier::ext_equal]
pub struct UserBudget {
    /// Identity of the controlling user; never changes after creation.
    pub owner: Pubkey,
    /// The spending limit.
    pub budget: u64,
    /// Cumulative spend since the last budget reset.
    pub spent: u64,
    /// Native-asset balance held in custody; the authoritative ledger of
    /// native custody, equal to deposits minus withdrawals recorded here.
    pub sol_savings: u64,
}

/// The remaining budget: `budget - spent`, clamped at zero when overspent.
pub open spec fn remaining_spec(budget: u64, spent: u64) -> u64 {
    if spent >= budget {
        0u64
    } else {
        (budget - spent) as u64
    }
}

/// The record after a successful expense of `amount`.
pub open spec fn expense_applied(s: UserBudget, amount: u64) -> UserBudget
    recommends
        s.spent + amount <= u64::MAX,
{
    UserBudget { spent: (s.spent + amount) as u64, ..s }
}

/// The record after a budget reset to `new_budget`: the limit is replaced
/// and the spend history is wiped.
pub open spec fn budget_reset(s: UserBudget, new_budget: u64) -> UserBudget {
    UserBudget { budget: new_budget, spent: 0u64, ..s }
}

/// The record after a successful native deposit of `amount`.
pub open spec fn savings_deposited(s: UserBudget, amount: u64) -> UserBudget
    recommends
        s.sol_savings + amount <= u64::MAX,
{
    UserBudget { sol_savings: (s.sol_savings + amount) as u64, ..s }
}

/// The record after a successful native withdrawal of `amount`.
pub open spec fn savings_withdrawn(s: UserBudget, amount: u64) -> UserBudget
    recommends
        amount <= s.sol_savings,
{
    UserBudget { sol_savings: (s.sol_savings - amount) as u64, ..s }
}

impl UserBudget {
    /// The remaining budget, recomputed from the current limit and spend.
    /// It saturates: when the record is overspent the remainder reads
    /// exactly zero, it never goes negative and never wraps.
    pub fn remaining(&self) -> (r: u64)
        ensures
            r == remaining_spec(self.budget, self.spent),
            self.spent > self.budget ==> r == 0,
            r <= self.budget,
    {
        if self.spent >= self.budget {
            0
        } else {
            self.budget - self.spent
        }
    }
}

} // verus!
