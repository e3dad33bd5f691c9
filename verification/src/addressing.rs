//! Deterministic account addressing.
//!
//! Every owner identity determines two addresses: the budget record address
//! (from a fixed budget label plus the owner) and the vault custody address
//! (from a fixed vault label plus the owner). Each derivation also yields a
//! one-byte bump. The vault holds no key of its own: authority over it is
//! proven by reproducing this derivation, so the bump is recomputed and the
//! supplied address checked on every operation that touches the vault,
//! never trusted from caller input.

use vstd::prelude::*;

use crate::error::BudgetError;
use crate::identity::Pubkey;

verus! {

/// Immutable configuration fixed at system initialization: the identity of
/// the program that owns all derived addresses.
#[derive(Clone, Copy, Debug)]
pub struct DerivationConfig {
    pub program_id: Pubkey,
}

/// The address and bump that the platform's program-derived-address
/// function yields for the seed pair `[label, owner]` under `program`,
/// or `None` in the (statistically improbable) case that no bump works.
pub uninterp spec fn find_pda(label: Seq<u8>, owner: Seq<u8>, program: Seq<u8>) -> Option<
    (Seq<u8>, u8),
>;

/// Relies on `solana_pubkey::Pubkey::try_find_program_address`: the derived
/// address and bump are a pure function of the seed bytes and the program
/// id, and `None` is returned (never a panic) when no bump seed works.
#[verifier::external_body]
fn derive_pda(label: &Vec<u8>, owner: &Pubkey, program: &Pubkey) -> (r: Option<(Pubkey, u8)>)
    ensures
        r is Some <==> find_pda(label@, owner@, program@) is Some,
        r matches Some(p) ==> find_pda(label@, owner@, program@) == Some((p.0@, p.1)),
{
    let seeds: [&[u8]; 2] = [label.as_slice(), owner.bytes.as_slice()];
    let program_key = solana_pubkey::Pubkey::new_from_array(program.bytes);
    match solana_pubkey::Pubkey::try_find_program_address(&seeds, &program_key) {
        Some((addr, bump)) => Some((Pubkey { bytes: addr.to_bytes() }, bump)),
        None => None,
    }
}

/// The bytes of the fixed label under which budget record addresses are
/// derived.
pub open spec fn budget_label() -> Seq<u8> {
    seq![117u8, 115u8, 101u8, 114u8, 95u8, 98u8, 117u8, 100u8, 103u8, 101u8, 116u8]
}

/// The bytes of the fixed label under which vault custody addresses are
/// derived.
pub open spec fn vault_label() -> Seq<u8> {
    seq![118u8, 97u8, 117u8, 108u8, 116u8]
}

/// The budget record label as a byte vector.
fn budget_label_bytes() -> (r: Vec<u8>)
    ensures
        r@ == budget_label(),
{
    let mut v: Vec<u8> = Vec::new();
    v.push(117u8);
    v.push(115u8);
    v.push(101u8);
    v.push(114u8);
    v.push(95u8);
    v.push(98u8);
    v.push(117u8);
    v.push(100u8);
    v.push(103u8);
    v.push(101u8);
    v.push(116u8);
    proof {
        assert(v@ =~= budget_label());
    }
    v
}

/// The vault label as a byte vector.
fn vault_label_bytes() -> (r: Vec<u8>)
    ensures
        r@ == vault_label(),
{
    let mut v: Vec<u8> = Vec::new();
    v.push(118u8);
    v.push(97u8);
    v.push(117u8);
    v.push(108u8);
    v.push(116u8);
    proof {
        assert(v@ =~= vault_label());
    }
    v
}

/// The budget record address and bump for `owner`.
pub fn user_budget_address(config: &DerivationConfig, owner: &Pubkey) -> (r: Option<(Pubkey, u8)>)
    ensures
        r is Some <==> find_pda(budget_label(), owner@, config.program_id@) is Some,
        r matches Some(p) ==> find_pda(budget_label(), owner@, config.program_id@) == Some(
            (p.0@, p.1),
        ),
{
    let label = budget_label_bytes();
    derive_pda(&label, owner, &config.program_id)
}

/// The vault custody address and bump for `owner`.
pub fn vault_address(config: &DerivationConfig, owner: &Pubkey) -> (r: Option<(Pubkey, u8)>)
    ensures
        r is Some <==> find_pda(vault_label(), owner@, config.program_id@) is Some,
        r matches Some(p) ==> find_pda(vault_label(), owner@, config.program_id@) == Some(
            (p.0@, p.1),
        ),
{
    let label = vault_label_bytes();
    derive_pda(&label, owner, &config.program_id)
}

/// Recompute the vault derivation for `owner` and check the supplied vault
/// address against it. On success the recomputed bump is returned; a
/// mismatch, or a derivation that yields nothing, is an address fault.
pub fn verify_vault_address(config: &DerivationConfig, owner: &Pubkey, vault: &Pubkey) -> (r:
    Result<u8, BudgetError>)
    ensures
        r matches Ok(bump) ==> find_pda(vault_label(), owner@, config.program_id@) == Some(
            (vault@, bump),
        ),
        r is Err ==> r == Err::<u8, BudgetError>(BudgetError::AddressMismatch),
        r is Ok <==> (find_pda(vault_label(), owner@, config.program_id@) matches Some(p)
            && p.0 == vault@),
{
    match vault_address(config, owner) {
        Some((derived, bump)) => {
            if vault.key_eq(&derived) {
                Ok(bump)
            } else {
                Err(BudgetError::AddressMismatch)
            }
        },
        None => Err(BudgetError::AddressMismatch),
    }
}

} // verus!
