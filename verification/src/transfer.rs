//! Transfer requests: the custody engine's instructions to the host ledger.
//!
//! The core never moves value itself. A successful deposit or withdrawal
//! returns a [`TransferRequest`] describing exactly which movement the host
//! ledger must perform, and under which authority, in the same atomic unit
//! as the state change.

use vstd::prelude::*;

use crate::identity::Pubkey;

verus! {

/// Which asset class a transfer moves.
#[derive(Clone, Copy, Debug)]
pub enum AssetKind {
    /// The native settlement asset, tracked in the budget record.
    Native,
    /// The fungible token asset, held in external token holding accounts.
    Token,
}

/// Who authorizes a transfer out of its source account.
#[derive(Clone, Copy, Debug)]
pub enum TransferAuthority {
    /// The holder of this identity signed the transaction directly.
    Signer(Pubkey),
    /// The vault signs for itself: authority is proven by re-deriving the
    /// vault address from the owner identity, the fixed vault label and
    /// this bump, not by a stored key.
    DerivedVault { owner: Pubkey, bump: u8 },
}

/// One value movement for the host ledger to perform.
#[derive(Clone, Copy, Debug)]
pub struct TransferRequest {
    pub asset: AssetKind,
    pub from: Pubkey,
    pub to: Pubkey,
    pub amount: u64,
    pub authority: TransferAuthority,
}

} // verus!
