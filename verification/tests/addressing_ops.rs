use finai_budget::addressing::user_budget_address;
use finai_budget::addressing::vault_address;
use finai_budget::addressing::verify_vault_address;
use finai_budget::addressing::DerivationConfig;
use finai_budget::error::BudgetError;
use finai_budget::identity::Pubkey;

fn key(b: u8) -> Pubkey {
    Pubkey { bytes: [b; 32] }
}

fn config() -> DerivationConfig {
    DerivationConfig { program_id: key(200) }
}

#[test]
fn derivation_is_deterministic() {
    let owner = key(1);
    let (a1, b1) = vault_address(&config(), &owner).expect("a vault bump exists");
    let (a2, b2) = vault_address(&config(), &owner).expect("a vault bump exists");
    assert_eq!(a1.bytes, a2.bytes);
    assert_eq!(b1, b2);
    let (r1, c1) = user_budget_address(&config(), &owner).expect("a record bump exists");
    let (r2, c2) = user_budget_address(&config(), &owner).expect("a record bump exists");
    assert_eq!(r1.bytes, r2.bytes);
    assert_eq!(c1, c2);
}

#[test]
fn labels_and_owners_give_distinct_addresses() {
    let owner = key(1);
    let other = key(2);
    let (vault, _) = vault_address(&config(), &owner).expect("a vault bump exists");
    let (record, _) = user_budget_address(&config(), &owner).expect("a record bump exists");
    let (other_vault, _) = vault_address(&config(), &other).expect("a vault bump exists");
    assert_ne!(vault.bytes, record.bytes);
    assert_ne!(vault.bytes, other_vault.bytes);
    assert_ne!(vault.bytes, owner.bytes);
    assert_ne!(record.bytes, owner.bytes);
}

#[test]
fn verify_vault_accepts_the_derived_address() {
    let owner = key(3);
    let (vault, bump) = vault_address(&config(), &owner).expect("a vault bump exists");
    let checked = verify_vault_address(&config(), &owner, &vault).unwrap();
    assert_eq!(checked, bump);
}

#[test]
fn verify_vault_rejects_other_addresses() {
    let owner = key(3);
    let r = verify_vault_address(&config(), &owner, &key(4));
    assert_eq!(r.unwrap_err(), BudgetError::AddressMismatch);
    let r2 = verify_vault_address(&config(), &owner, &owner);
    assert_eq!(r2.unwrap_err(), BudgetError::AddressMismatch);
}
