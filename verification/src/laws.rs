//! Laws that relate several operations, proved over the state transitions
//! that the operations' own contracts are stated with.

use vstd::prelude::*;

use crate::state::budget_reset;
use crate::state::expense_applied;
use crate::state::remaining_spec;
use crate::state::savings_deposited;
use crate::state::savings_withdrawn;
use crate::state::UserBudget;

verus! {

/// Recording two expenses accumulates: starting from a fresh spend of
/// zero, an expense of `a` followed by an expense of `b` leaves the
/// cumulative spend at `a + b`, the limit and the rest of the record
/// untouched, and the remaining budget at `budget - (a + b)`, clamped at
/// zero, whenever `a + b` does not overflow.
pub proof fn lemma_expenses_accumulate(s: UserBudget, a: u64, b: u64)
    requires
        s.spent == 0,
        a + b <= u64::MAX,
    ensures
        ({
            let s2 = expense_applied(expense_applied(s, a), b);
            &&& s2.spent == a + b
            &&& s2.owner == s.owner
            &&& s2.budget == s.budget
            &&& s2.sol_savings == s.sol_savings
            &&& remaining_spec(s2.budget, s2.spent) == (if a + b >= s.budget {
                0
            } else {
                s.budget - (a + b)
            })
        }),
{
}

/// A native round trip is exact: depositing `a` and then withdrawing the
/// same `a` returns the record, savings balance included, to precisely its
/// initial value, and the intermediate balance always suffices for the
/// withdrawal.
pub proof fn lemma_native_round_trip(s: UserBudget, a: u64)
    requires
        s.sol_savings + a <= u64::MAX,
    ensures
        a <= savings_deposited(s, a).sol_savings,
        savings_withdrawn(savings_deposited(s, a), a) == s,
{
    assert(savings_withdrawn(savings_deposited(s, a), a) =~= s);
}

/// Resetting the budget wipes the spend history whatever it held: after a
/// reset the spend is zero and the limit is the new one, for every prior
/// record.
pub proof fn lemma_reset_wipes_spend(s: UserBudget, new_budget: u64)
    ensures
        budget_reset(s, new_budget).spent == 0,
        budget_reset(s, new_budget).budget == new_budget,
        budget_reset(s, new_budget).owner == s.owner,
        budget_reset(s, new_budget).sol_savings == s.sol_savings,
{
}

/// The overspend clamp: whenever the cumulative spend exceeds the limit,
/// the remaining budget reads exactly zero.
pub proof fn lemma_overspend_clamp(budget: u64, spent: u64)
    requires
        spent > budget,
    ensures
        remaining_spec(budget, spent) == 0,
{
}

} // verus!
