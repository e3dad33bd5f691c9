//! A per-user budget and dual-asset savings ledger, modelled as a
//! deterministic state-transition core.
//!
//! For each user identity the core tracks a spending budget, the cumulative
//! spend, and a native-asset savings balance held in custody. The core is the
//! authenticated accounting state machine: every mutating operation first
//! passes an authorization guard (the transaction's signer must equal the
//! record's owner), balance arithmetic is checked rather than wrapping, and
//! value movement in or out of custody is described by transfer requests that
//! the host ledger performs atomically around each operation.

pub mod addressing;
pub mod error;
pub mod events;
pub mod identity;
pub mod laws;
pub mod ops;
pub mod state;
pub mod transfer;
