use skinsol::vault::{
    accrue_rewards, borrow, deposit, deposit_skin_as_collateral, initialize_vault, liquidate,
    repay, withdraw,
};
use skinsol::{ErrorCode, Identity};

fn id(n: u64) -> Identity {
    Identity {
        w0: n,
        w1: 0,
        w2: 0,
        w3: 0,
    }
}

#[test]
fn initialize_vault_starts_empty() {
    let owner = id(1);
    let v = initialize_vault(owner);
    assert_eq!(v.owner, owner);
    assert_eq!(v.skin_id, 0);
    assert_eq!(v.loan_amount, 0);
    assert_eq!(v.total_deposits, 0);
}

#[test]
fn deposit_accrue_withdraw_scenario() {
    let a = id(1);
    let mut v = initialize_vault(a);
    assert_eq!(deposit(a, &mut v, 100), Ok(()));
    assert_eq!(accrue_rewards(&mut v, 50), Ok(()));
    assert_eq!(withdraw(a, &mut v, 120), Ok(()));
    assert_eq!(v.total_deposits, 30);
    assert_eq!(withdraw(a, &mut v, 31), Err(ErrorCode::InsufficientFunds));
    assert_eq!(v.total_deposits, 30);
}

#[test]
fn deposit_of_zero_is_rejected() {
    let a = id(1);
    let mut v = initialize_vault(a);
    assert_eq!(deposit(a, &mut v, 0), Err(ErrorCode::InvalidAmount));
    assert_eq!(v.total_deposits, 0);
}

#[test]
fn deposit_overflow_is_rejected() {
    let a = id(1);
    let mut v = initialize_vault(a);
    assert_eq!(deposit(a, &mut v, u64::MAX), Ok(()));
    assert_eq!(deposit(a, &mut v, 1), Err(ErrorCode::Overflow));
    assert_eq!(v.total_deposits, u64::MAX);
}

#[test]
fn accrue_overflow_is_rejected() {
    let a = id(1);
    let mut v = initialize_vault(a);
    assert_eq!(accrue_rewards(&mut v, u64::MAX), Ok(()));
    assert_eq!(accrue_rewards(&mut v, 1), Err(ErrorCode::Overflow));
    assert_eq!(v.total_deposits, u64::MAX);
}

#[test]
fn accrue_then_withdraw_restores_balance() {
    let a = id(1);
    let mut v = initialize_vault(a);
    assert_eq!(deposit(a, &mut v, 700), Ok(()));
    assert_eq!(accrue_rewards(&mut v, 41), Ok(()));
    assert_eq!(withdraw(a, &mut v, 41), Ok(()));
    assert_eq!(v.total_deposits, 700);
}

#[test]
fn deposit_withdraw_sequence_nets_out() {
    let a = id(1);
    let mut v = initialize_vault(a);
    assert_eq!(deposit(a, &mut v, 10), Ok(()));
    assert_eq!(deposit(a, &mut v, 20), Ok(()));
    assert_eq!(withdraw(a, &mut v, 5), Ok(()));
    assert_eq!(withdraw(a, &mut v, 100), Err(ErrorCode::InsufficientFunds));
    assert_eq!(deposit(a, &mut v, 0), Err(ErrorCode::InvalidAmount));
    assert_eq!(deposit(a, &mut v, 7), Ok(()));
    assert_eq!(v.total_deposits, 10 + 20 - 5 + 7);
}

#[test]
fn withdraw_exact_balance_empties_pool() {
    let a = id(1);
    let mut v = initialize_vault(a);
    assert_eq!(deposit(a, &mut v, 55), Ok(()));
    assert_eq!(withdraw(a, &mut v, 55), Ok(()));
    assert_eq!(v.total_deposits, 0);
}

#[test]
fn collateral_borrow_repay_scenario() {
    let user = id(7);
    let mut v = deposit_skin_as_collateral(user, 1);
    assert_eq!(v.owner, user);
    assert_eq!(v.skin_id, 1);
    assert_eq!(v.loan_amount, 0);
    assert_eq!(borrow(user, &mut v, 200), Ok(()));
    assert_eq!(v.loan_amount, 200);
    assert_eq!(repay(user, &mut v, 200), Ok(()));
    assert_eq!(v.loan_amount, 0);
    assert_eq!(v.skin_id, 0);
    assert_eq!(repay(user, &mut v, 1), Err(ErrorCode::InvalidRepayAmount));
    assert_eq!(v.loan_amount, 0);
}

#[test]
fn partial_repay_keeps_collateral() {
    let user = id(7);
    let mut v = deposit_skin_as_collateral(user, 3);
    assert_eq!(borrow(user, &mut v, 200), Ok(()));
    assert_eq!(repay(user, &mut v, 150), Ok(()));
    assert_eq!(v.loan_amount, 50);
    assert_eq!(v.skin_id, 3);
}

#[test]
fn borrow_wraps_silently() {
    let user = id(9);
    let mut v = deposit_skin_as_collateral(user, 2);
    assert_eq!(borrow(user, &mut v, u64::MAX), Ok(()));
    assert_eq!(v.loan_amount, u64::MAX);
    assert_eq!(borrow(user, &mut v, 2), Ok(()));
    assert_eq!(v.loan_amount, 1);
}

#[test]
fn unauthorized_borrow_is_rejected() {
    let owner = id(1);
    let other = id(2);
    let mut v = deposit_skin_as_collateral(owner, 1);
    assert_eq!(borrow(other, &mut v, 10), Err(ErrorCode::Unauthorized));
    assert_eq!(v.loan_amount, 0);
    assert_eq!(v.skin_id, 1);
}

#[test]
fn unauthorized_repay_is_rejected() {
    let owner = id(1);
    let other = id(2);
    let mut v = deposit_skin_as_collateral(owner, 1);
    assert_eq!(borrow(owner, &mut v, 10), Ok(()));
    assert_eq!(repay(other, &mut v, 10), Err(ErrorCode::Unauthorized));
    assert_eq!(v.loan_amount, 10);
}

#[test]
fn unauthorized_liquidate_is_rejected() {
    let owner = id(1);
    let other = id(2);
    let mut v = deposit_skin_as_collateral(owner, 1);
    assert_eq!(borrow(owner, &mut v, 10), Ok(()));
    assert_eq!(liquidate(other, &mut v), Err(ErrorCode::Unauthorized));
    assert_eq!(v.loan_amount, 10);
    assert_eq!(v.skin_id, 1);
}

#[test]
fn liquidate_clears_loan_and_collateral() {
    let owner = id(1);
    let mut v = deposit_skin_as_collateral(owner, 2);
    assert_eq!(borrow(owner, &mut v, 123), Ok(()));
    assert_eq!(accrue_rewards(&mut v, 40), Ok(()));
    assert_eq!(liquidate(owner, &mut v), Ok(()));
    assert_eq!(v.loan_amount, 0);
    assert_eq!(v.skin_id, 0);
    assert_eq!(v.total_deposits, 40);
    assert_eq!(v.owner, owner);
}

#[test]
fn accrue_needs_no_authorization() {
    let owner = id(1);
    let mut v = initialize_vault(owner);
    assert_eq!(accrue_rewards(&mut v, 99), Ok(()));
    assert_eq!(v.total_deposits, 99);
}
