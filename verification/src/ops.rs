//! The seven operations of the core.
//!
//! Each operation takes the accounts presented with the transaction (its
//! context), runs the authorization guard first, then mutates the budget
//! record and/or returns the transfer request the host ledger must perform,
//! and on success returns the fact to append to the public log. On any
//! fault the context is left exactly as it was: an operation either applies
//! in full or not at all.
//!
//! The `owner` field of every context is the identity whose signature the
//! host has already verified on the transaction; the guard checks that it
//! equals the stored owner of the record.

use vstd::prelude::*;

use crate::addressing::find_pda;
use crate::addressing::vault_label;
use crate::addressing::verify_vault_address;
use crate::addressing::DerivationConfig;
use crate::error::BudgetError;
use crate::events::ExpenseRecorded;
use crate::events::SolSavingsDeposited;
use crate::events::SolSavingsWithdrawn;
use crate::events::UsdcSavingsDeposited;
use crate::events::UsdcSavingsWithdrawn;
use crate::identity::Pubkey;
use crate::state::budget_reset;
use crate::state::expense_applied;
use crate::state::remaining_spec;
use crate::state::savings_deposited;
use crate::state::savings_withdrawn;
use crate::state::UserBudget;
use crate::transfer::AssetKind;
use crate::transfer::TransferAuthority;
use crate::transfer::TransferRequest;

verus! {

/// Accounts for creating a budget record: the creating signer, who becomes
/// the owner unconditionally. The host guarantees that no record exists
/// yet for this owner.
pub struct InitializeUserBudget {
    pub owner: Pubkey,
}

/// Accounts for replacing the budget limit.
pub struct SetBudget {
    pub user_budget: UserBudget,
    pub owner: Pubkey,
}

/// Accounts for recording an expense.
pub struct RecordExpense {
    pub user_budget: UserBudget,
    pub owner: Pubkey,
}

/// Accounts for a native deposit into custody: the record, the signer, and
/// the vault address the transaction names as destination.
pub struct DepositSol {
    pub user_budget: UserBudget,
    pub owner: Pubkey,
    pub vault: Pubkey,
}

/// Accounts for a native withdrawal out of custody.
pub struct WithdrawSol {
    pub user_budget: UserBudget,
    pub owner: Pubkey,
    pub vault: Pubkey,
}

/// Accounts for a token deposit: the owner's and the vault's token holding
/// accounts. Balances live in those external accounts, not in the record.
pub struct DepositUsdc {
    pub user_budget: UserBudget,
    pub owner: Pubkey,
    pub owner_ata: Pubkey,
    pub vault_ata: Pubkey,
}

/// Accounts for a token withdrawal: the two token holding accounts and the
/// vault address whose derived authority signs the transfer.
pub struct WithdrawUsdc {
    pub user_budget: UserBudget,
    pub owner: Pubkey,
    pub owner_ata: Pubkey,
    pub vault_ata: Pubkey,
    pub vault: Pubkey,
}

/// The vault address supplied with the transaction is exactly the one the
/// derivation yields for `owner`.
pub open spec fn vault_checks_out(config: DerivationConfig, owner: Pubkey, vault: Pubkey) -> bool {
    find_pda(vault_label(), owner@, config.program_id@) matches Some(p) && p.0 == vault@
}

/// The bump that the vault derivation yields for `owner`.
pub open spec fn vault_bump_of(config: DerivationConfig, owner: Pubkey) -> u8
    recommends
        find_pda(vault_label(), owner@, config.program_id@) is Some,
{
    find_pda(vault_label(), owner@, config.program_id@).unwrap().1
}

/// Create the budget record for the creating signer: the given limit,
/// nothing spent, nothing saved.
pub fn initialize_user_budget(ctx: &InitializeUserBudget, budget: u64) -> (r: UserBudget)
    ensures
        r.owner == ctx.owner,
        r.budget == budget,
        r.spent == 0,
        r.sol_savings == 0,
{
    UserBudget { owner: ctx.owner, budget, spent: 0, sol_savings: 0 }
}

/// Replace the budget limit and wipe the spend history: on success the
/// limit is `new_budget` and the spend is reset to zero, whatever it was.
pub fn set_budget(ctx: &mut SetBudget, new_budget: u64) -> (r: Result<(), BudgetError>)
    ensures
        r is Err ==> *final(ctx) == *old(ctx),
        old(ctx).owner != old(ctx).user_budget.owner ==> r == Err::<(), BudgetError>(
            BudgetError::Unauthorized,
        ),
        old(ctx).owner == old(ctx).user_budget.owner ==> {
            &&& r is Ok
            &&& final(ctx).user_budget == budget_reset(old(ctx).user_budget, new_budget)
            &&& final(ctx).owner == old(ctx).owner
        },
{
    if !ctx.owner.key_eq(&ctx.user_budget.owner) {
        return Err(BudgetError::Unauthorized);
    }
    ctx.user_budget.budget = new_budget;
    ctx.user_budget.spent = 0;
    Ok(())
}

/// Record an expense: add `amount` to the cumulative spend (checked), and
/// report the new total together with the remaining budget, which clamps
/// at zero when overspent.
pub fn record_expense(ctx: &mut RecordExpense, amount: u64) -> (r: Result<
    ExpenseRecorded,
    BudgetError,
>)
    ensures
        r is Err ==> *final(ctx) == *old(ctx),
        old(ctx).owner != old(ctx).user_budget.owner ==> r == Err::<ExpenseRecorded, BudgetError>(
            BudgetError::Unauthorized,
        ),
        old(ctx).owner == old(ctx).user_budget.owner && old(ctx).user_budget.spent + amount
            > u64::MAX ==> r == Err::<ExpenseRecorded, BudgetError>(
            BudgetError::ArithmeticOverflow,
        ),
        old(ctx).owner == old(ctx).user_budget.owner && old(ctx).user_budget.spent + amount
            <= u64::MAX ==> {
            &&& r matches Ok(ev)
            &&& final(ctx).user_budget == expense_applied(old(ctx).user_budget, amount)
            &&& final(ctx).owner == old(ctx).owner
            &&& ev.owner == old(ctx).owner
            &&& ev.amount == amount
            &&& ev.new_total == old(ctx).user_budget.spent + amount
            &&& ev.savings == remaining_spec(
                old(ctx).user_budget.budget,
                (old(ctx).user_budget.spent + amount) as u64,
            )
        },
{
    if !ctx.owner.key_eq(&ctx.user_budget.owner) {
        return Err(BudgetError::Unauthorized);
    }
    let new_total = match ctx.user_budget.spent.checked_add(amount) {
        Some(v) => v,
        None => {
            return Err(BudgetError::ArithmeticOverflow);
        },
    };
    ctx.user_budget.spent = new_total;
    let savings = ctx.user_budget.remaining();
    Ok(ExpenseRecorded { owner: ctx.owner, amount, new_total, savings })
}

/// Move `amount` of the native asset from the owner into the vault,
/// authorized by the owner's own signature, and add it to the tracked
/// savings balance (checked). The supplied vault address is verified
/// against the derivation before anything else.
pub fn deposit_sol(config: &DerivationConfig, ctx: &mut DepositSol, amount: u64) -> (r: Result<
    (TransferRequest, SolSavingsDeposited),
    BudgetError,
>)
    ensures
        r is Err ==> *final(ctx) == *old(ctx),
        !vault_checks_out(*config, old(ctx).owner, old(ctx).vault) ==> r == Err::<
            (TransferRequest, SolSavingsDeposited),
            BudgetError,
        >(BudgetError::AddressMismatch),
        vault_checks_out(*config, old(ctx).owner, old(ctx).vault) && old(ctx).owner != old(
            ctx,
        ).user_budget.owner ==> r == Err::<(TransferRequest, SolSavingsDeposited), BudgetError>(
            BudgetError::Unauthorized,
        ),
        vault_checks_out(*config, old(ctx).owner, old(ctx).vault) && old(ctx).owner == old(
            ctx,
        ).user_budget.owner && old(ctx).user_budget.sol_savings + amount > u64::MAX ==> r == Err::<
            (TransferRequest, SolSavingsDeposited),
            BudgetError,
        >(BudgetError::ArithmeticOverflow),
        vault_checks_out(*config, old(ctx).owner, old(ctx).vault) && old(ctx).owner == old(
            ctx,
        ).user_budget.owner && old(ctx).user_budget.sol_savings + amount <= u64::MAX ==> {
            &&& r matches Ok(p)
            &&& final(ctx).user_budget == savings_deposited(old(ctx).user_budget, amount)
            &&& final(ctx).owner == old(ctx).owner
            &&& final(ctx).vault == old(ctx).vault
            &&& p.0 == (TransferRequest {
                asset: AssetKind::Native,
                from: old(ctx).owner,
                to: old(ctx).vault,
                amount,
                authority: TransferAuthority::Signer(old(ctx).owner),
            })
            &&& p.1.owner == old(ctx).owner
            &&& p.1.amount == amount
            &&& p.1.total_savings == old(ctx).user_budget.sol_savings + amount
        },
{
    match verify_vault_address(config, &ctx.owner, &ctx.vault) {
        Ok(_) => {},
        Err(e) => {
            return Err(e);
        },
    };
    if !ctx.owner.key_eq(&ctx.user_budget.owner) {
        return Err(BudgetError::Unauthorized);
    }
    let new_savings = match ctx.user_budget.sol_savings.checked_add(amount) {
        Some(v) => v,
        None => {
            return Err(BudgetError::ArithmeticOverflow);
        },
    };
    ctx.user_budget.sol_savings = new_savings;
    let transfer = TransferRequest {
        asset: AssetKind::Native,
        from: ctx.owner,
        to: ctx.vault,
        amount,
        authority: TransferAuthority::Signer(ctx.owner),
    };
    Ok((transfer, SolSavingsDeposited { owner: ctx.owner, amount, total_savings: new_savings }))
}

/// Move `amount` of the native asset from the vault back to the owner and
/// subtract it from the tracked savings balance. The vault signs for
/// itself: the transfer is authorized by re-deriving the vault address and
/// bump from the owner identity, not by a stored key. Asks for more than
/// the tracked balance are refused before any movement is attempted.
pub fn withdraw_sol(config: &DerivationConfig, ctx: &mut WithdrawSol, amount: u64) -> (r: Result<
    (TransferRequest, SolSavingsWithdrawn),
    BudgetError,
>)
    ensures
        r is Err ==> *final(ctx) == *old(ctx),
        !vault_checks_out(*config, old(ctx).owner, old(ctx).vault) ==> r == Err::<
            (TransferRequest, SolSavingsWithdrawn),
            BudgetError,
        >(BudgetError::AddressMismatch),
        vault_checks_out(*config, old(ctx).owner, old(ctx).vault) && old(ctx).owner != old(
            ctx,
        ).user_budget.owner ==> r == Err::<(TransferRequest, SolSavingsWithdrawn), BudgetError>(
            BudgetError::Unauthorized,
        ),
        vault_checks_out(*config, old(ctx).owner, old(ctx).vault) && old(ctx).owner == old(
            ctx,
        ).user_budget.owner && amount > old(ctx).user_budget.sol_savings ==> r == Err::<
            (TransferRequest, SolSavingsWithdrawn),
            BudgetError,
        >(BudgetError::InsufficientSavings),
        vault_checks_out(*config, old(ctx).owner, old(ctx).vault) && old(ctx).owner == old(
            ctx,
        ).user_budget.owner && amount <= old(ctx).user_budget.sol_savings ==> {
            &&& r matches Ok(p)
            &&& final(ctx).user_budget == savings_withdrawn(old(ctx).user_budget, amount)
            &&& final(ctx).owner == old(ctx).owner
            &&& final(ctx).vault == old(ctx).vault
            &&& p.0 == (TransferRequest {
                asset: AssetKind::Native,
                from: old(ctx).vault,
                to: old(ctx).owner,
                amount,
                authority: TransferAuthority::DerivedVault {
                    owner: old(ctx).owner,
                    bump: vault_bump_of(*config, old(ctx).owner),
                },
            })
            &&& p.1.owner == old(ctx).owner
            &&& p.1.amount == amount
            &&& p.1.remaining_savings == old(ctx).user_budget.sol_savings - amount
        },
{
    let bump = match verify_vault_address(config, &ctx.owner, &ctx.vault) {
        Ok(b) => b,
        Err(e) => {
            return Err(e);
        },
    };
    if !ctx.owner.key_eq(&ctx.user_budget.owner) {
        return Err(BudgetError::Unauthorized);
    }
    if amount > ctx.user_budget.sol_savings {
        return Err(BudgetError::InsufficientSavings);
    }
    let new_savings = match ctx.user_budget.sol_savings.checked_sub(amount) {
        Some(v) => v,
        None => {
            return Err(BudgetError::ArithmeticOverflow);
        },
    };
    ctx.user_budget.sol_savings = new_savings;
    let transfer = TransferRequest {
        asset: AssetKind::Native,
        from: ctx.vault,
        to: ctx.owner,
        amount,
        authority: TransferAuthority::DerivedVault { owner: ctx.owner, bump },
    };
    Ok((transfer, SolSavingsWithdrawn { owner: ctx.owner, amount, remaining_savings: new_savings }))
}

/// Delegate a token deposit to the external token-transfer service: move
/// `amount` from the owner's token holding account to the vault's,
/// authorized by the owner's signature. No record field changes.
pub fn deposit_usdc(ctx: &DepositUsdc, amount: u64) -> (r: Result<
    (TransferRequest, UsdcSavingsDeposited),
    BudgetError,
>)
    ensures
        ctx.owner != ctx.user_budget.owner ==> r == Err::<
            (TransferRequest, UsdcSavingsDeposited),
            BudgetError,
        >(BudgetError::Unauthorized),
        ctx.owner == ctx.user_budget.owner ==> {
            &&& r matches Ok(p)
            &&& p.0 == (TransferRequest {
                asset: AssetKind::Token,
                from: ctx.owner_ata,
                to: ctx.vault_ata,
                amount,
                authority: TransferAuthority::Signer(ctx.owner),
            })
            &&& p.1.owner == ctx.owner
            &&& p.1.amount == amount
        },
{
    if !ctx.owner.key_eq(&ctx.user_budget.owner) {
        return Err(BudgetError::Unauthorized);
    }
    let transfer = TransferRequest {
        asset: AssetKind::Token,
        from: ctx.owner_ata,
        to: ctx.vault_ata,
        amount,
        authority: TransferAuthority::Signer(ctx.owner),
    };
    Ok((transfer, UsdcSavingsDeposited { owner: ctx.owner, amount }))
}

/// Delegate a token withdrawal to the external token-transfer service:
/// move `amount` from the vault's token holding account to the owner's,
/// authorized by the vault's derived authority. There is no local
/// sufficiency check on this track: the token service itself refuses the
/// transfer when the vault's holding account lacks the balance.
pub fn withdraw_usdc(config: &DerivationConfig, ctx: &WithdrawUsdc, amount: u64) -> (r: Result<
    (TransferRequest, UsdcSavingsWithdrawn),
    BudgetError,
>)
    ensures
        !vault_checks_out(*config, ctx.owner, ctx.vault) ==> r == Err::<
            (TransferRequest, UsdcSavingsWithdrawn),
            BudgetError,
        >(BudgetError::AddressMismatch),
        vault_checks_out(*config, ctx.owner, ctx.vault) && ctx.owner != ctx.user_budget.owner
            ==> r == Err::<(TransferRequest, UsdcSavingsWithdrawn), BudgetError>(
            BudgetError::Unauthorized,
        ),
        vault_checks_out(*config, ctx.owner, ctx.vault) && ctx.owner == ctx.user_budget.owner
            ==> {
            &&& r matches Ok(p)
            &&& p.0 == (TransferRequest {
                asset: AssetKind::Token,
                from: ctx.vault_ata,
                to: ctx.owner_ata,
                amount,
                authority: TransferAuthority::DerivedVault {
                    owner: ctx.owner,
                    bump: vault_bump_of(*config, ctx.owner),
                },
            })
            &&& p.1.owner == ctx.owner
            &&& p.1.amount == amount
        },
{
    let bump = match verify_vault_address(config, &ctx.owner, &ctx.vault) {
        Ok(b) => b,
        Err(e) => {
            return Err(e);
        },
    };
    if !ctx.owner.key_eq(&ctx.user_budget.owner) {
        return Err(BudgetError::Unauthorized);
    }
    let transfer = TransferRequest {
        asset: AssetKind::Token,
        from: ctx.vault_ata,
        to: ctx.owner_ata,
        amount,
        authority: TransferAuthority::DerivedVault { owner: ctx.owner, bump },
    };
    Ok((transfer, UsdcSavingsWithdrawn { owner: ctx.owner, amount }))
}

} // verus!
