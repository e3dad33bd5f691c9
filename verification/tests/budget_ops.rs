use finai_budget::error::BudgetError;
use finai_budget::identity::Pubkey;
use finai_budget::ops::initialize_user_budget;
use finai_budget::ops::record_expense;
use finai_budget::ops::set_budget;
use finai_budget::ops::InitializeUserBudget;
use finai_budget::ops::RecordExpense;
use finai_budget::ops::SetBudget;
use finai_budget::state::UserBudget;

fn key(b: u8) -> Pubkey {
    Pubkey { bytes: [b; 32] }
}

#[test]
fn create_initializes_fields() {
    let owner = key(1);
    let rec = initialize_user_budget(&InitializeUserBudget { owner }, 1000);
    assert_eq!(rec.owner.bytes, owner.bytes);
    assert_eq!(rec.budget, 1000);
    assert_eq!(rec.spent, 0);
    assert_eq!(rec.sol_savings, 0);
    assert_eq!(rec.remaining(), 1000);
}

#[test]
fn set_budget_resets_spent() {
    let owner = key(1);
    let rec = UserBudget { owner, budget: 1000, spent: 777, sol_savings: 5 };
    let mut ctx = SetBudget { user_budget: rec, owner };
    let r = set_budget(&mut ctx, 500);
    assert!(r.is_ok());
    assert_eq!(ctx.user_budget.budget, 500);
    assert_eq!(ctx.user_budget.spent, 0);
    assert_eq!(ctx.user_budget.sol_savings, 5);
    assert_eq!(ctx.user_budget.owner.bytes, owner.bytes);
}

#[test]
fn set_budget_unauthorized_changes_nothing() {
    let owner = key(1);
    let intruder = key(2);
    let rec = UserBudget { owner, budget: 1000, spent: 777, sol_savings: 5 };
    let mut ctx = SetBudget { user_budget: rec, owner: intruder };
    let r = set_budget(&mut ctx, 500);
    assert_eq!(r, Err(BudgetError::Unauthorized));
    assert_eq!(ctx.user_budget.budget, 1000);
    assert_eq!(ctx.user_budget.spent, 777);
    assert_eq!(ctx.user_budget.sol_savings, 5);
}

#[test]
fn expenses_accumulate() {
    let owner = key(1);
    let rec = initialize_user_budget(&InitializeUserBudget { owner }, 1000);
    let mut ctx = RecordExpense { user_budget: rec, owner };
    let first = record_expense(&mut ctx, 300).unwrap();
    assert_eq!(first.new_total, 300);
    assert_eq!(first.savings, 700);
    let second = record_expense(&mut ctx, 150).unwrap();
    assert_eq!(second.new_total, 450);
    assert_eq!(second.savings, 550);
    assert_eq!(ctx.user_budget.spent, 450);
    assert_eq!(ctx.user_budget.remaining(), 550);
}

#[test]
fn record_expense_event_is_exact() {
    let owner = key(9);
    let rec = UserBudget { owner, budget: 100, spent: 40, sol_savings: 0 };
    let mut ctx = RecordExpense { user_budget: rec, owner };
    let ev = record_expense(&mut ctx, 25).unwrap();
    assert_eq!(ev.owner.bytes, owner.bytes);
    assert_eq!(ev.amount, 25);
    assert_eq!(ev.new_total, 65);
    assert_eq!(ev.savings, 35);
}

#[test]
fn record_expense_unauthorized_changes_nothing() {
    let owner = key(1);
    let intruder = key(2);
    let rec = UserBudget { owner, budget: 100, spent: 40, sol_savings: 0 };
    let mut ctx = RecordExpense { user_budget: rec, owner: intruder };
    let r = record_expense(&mut ctx, 25);
    assert_eq!(r.unwrap_err(), BudgetError::Unauthorized);
    assert_eq!(ctx.user_budget.spent, 40);
    assert_eq!(ctx.user_budget.budget, 100);
}

#[test]
fn record_expense_overflow_leaves_spent_unchanged() {
    let owner = key(1);
    let rec = UserBudget { owner, budget: 100, spent: u64::MAX - 1, sol_savings: 0 };
    let mut ctx = RecordExpense { user_budget: rec, owner };
    let r = record_expense(&mut ctx, 2);
    assert_eq!(r.unwrap_err(), BudgetError::ArithmeticOverflow);
    assert_eq!(ctx.user_budget.spent, u64::MAX - 1);
    let ok = record_expense(&mut ctx, 1).unwrap();
    assert_eq!(ok.new_total, u64::MAX);
}

#[test]
fn overspend_clamps_to_zero() {
    let owner = key(1);
    let rec = UserBudget { owner, budget: 100, spent: 0, sol_savings: 0 };
    let mut ctx = RecordExpense { user_budget: rec, owner };
    let ev = record_expense(&mut ctx, 150).unwrap();
    assert_eq!(ev.new_total, 150);
    assert_eq!(ev.savings, 0);
    assert_eq!(ctx.user_budget.remaining(), 0);
}

#[test]
fn reads_do_not_mutate() {
    let owner = key(1);
    let rec = UserBudget { owner, budget: 100, spent: 30, sol_savings: 7 };
    let before = rec;
    let first = rec.remaining();
    let second = rec.remaining();
    assert_eq!(first, 70);
    assert_eq!(second, 70);
    assert_eq!(rec.budget, before.budget);
    assert_eq!(rec.spent, before.spent);
    assert_eq!(rec.sol_savings, before.sol_savings);
    assert_eq!(rec.owner.bytes, before.owner.bytes);
}

#[test]
fn budget_lifecycle_scenario() {
    let owner = key(4);
    let rec = initialize_user_budget(&InitializeUserBudget { owner }, 1000);
    let mut spend_ctx = RecordExpense { user_budget: rec, owner };
    let ev = record_expense(&mut spend_ctx, 300).unwrap();
    assert_eq!(ev.new_total, 300);
    assert_eq!(ev.savings, 700);

    let mut reset_ctx = SetBudget { user_budget: spend_ctx.user_budget, owner };
    set_budget(&mut reset_ctx, 500).unwrap();
    assert_eq!(reset_ctx.user_budget.spent, 0);
    assert_eq!(reset_ctx.user_budget.remaining(), 500);

    let mut spend_again = RecordExpense { user_budget: reset_ctx.user_budget, owner };
    let ev2 = record_expense(&mut spend_again, 600).unwrap();
    assert_eq!(ev2.new_total, 600);
    assert_eq!(ev2.savings, 0);
    assert_eq!(spend_again.user_budget.remaining(), 0);
}
