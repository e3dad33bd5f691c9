//! The faults an operation can end with. Every fault is terminal for the
//! invocation: the caller sees the error and no state has changed.

use vstd::prelude::*;

verus! {

/// Why an operation was refused.
#[derive(Clone, Copy, Debug, PartialEq, Eq)]
pub enum BudgetError {
    /// The transaction's signer does not match the record's owner.
    Unauthorized,
    /// A native withdrawal asked for more than the tracked savings balance.
    InsufficientSavings,
    /// A checked balance addition or subtraction would wrap.
    ArithmeticOverflow,
    /// A supplied custody address does not match the deterministic
    /// derivation expected for the owner.
    AddressMismatch,
}

} // verus!
