use vstd::prelude::*;

use crate::errors::ErrorCode;
use crate::identity::Identity;

verus! {

/// The per-owner value store: one record per owner identity, tracking the
/// accumulated deposit balance and the state of a single collateralized
/// loan. `skin_id == 0` means no collateral is held.
#[derive(Clone, Copy, Debug, PartialEq, Eq, Structural)]
pub struct Vault {
    pub owner: Identity,
    pub skin_id: u64,
    pub loan_amount: u64,
    pub total_deposits: u64,
}

/// A freshly initialized vault: no collateral, no loan, no deposits.
pub open spec fn fresh_vault(owner: Identity) -> Vault {
    Vault { owner, skin_id: 0, loan_amount: 0, total_deposits: 0 }
}

/// A fresh vault binding `skin_id` as collateral for `user`, with no loan
/// drawn against it yet.
pub open spec fn collateralized(user: Identity, skin_id: u64) -> Vault {
    Vault { owner: user, skin_id, loan_amount: 0, total_deposits: 0 }
}

/// Whether `caller` is the stored owner: the only authorization test the
/// loan operations perform.
pub open spec fn authorized(v: Vault, caller: Identity) -> bool {
    v.owner == caller
}

/// Whether `amount` can be added to the deposit balance without leaving
/// the unsigned 64-bit range.
pub open spec fn can_credit(v: Vault, amount: u64) -> bool {
    v.total_deposits + amount <= u64::MAX
}

/// The vault after `amount` is added to the deposit balance.
pub open spec fn credited(v: Vault, amount: u64) -> Vault
    recommends
        can_credit(v, amount),
{
    Vault { total_deposits: (v.total_deposits + amount) as u64, ..v }
}

/// The vault after `amount` is taken from the deposit balance.
pub open spec fn debited(v: Vault, amount: u64) -> Vault
    recommends
        v.total_deposits >= amount,
{
    Vault { total_deposits: (v.total_deposits - amount) as u64, ..v }
}

/// Whether a deposit of `amount` is accepted: deposits must be positive
/// and must fit in the balance.
pub open spec fn deposit_ok(v: Vault, amount: u64) -> bool {
    amount > 0 && can_credit(v, amount)
}

/// Whether a withdrawal of `amount` is covered by the balance.
pub open spec fn withdraw_ok(v: Vault, amount: u64) -> bool {
    v.total_deposits >= amount
}

/// The vault after a loan of `amount` is drawn. The borrow path is the
/// one place without checked arithmetic: the loan total wraps modulo 2^64
/// instead of failing, unlike every other numeric field. The contract
/// states the wrap exactly rather than hardening it away.
pub open spec fn borrowed(v: Vault, amount: u64) -> Vault {
    Vault {
        loan_amount: if v.loan_amount + amount <= u64::MAX {
            (v.loan_amount + amount) as u64
        } else {
            (v.loan_amount + amount - 0x1_0000_0000_0000_0000) as u64
        },
        ..v
    }
}

/// Whether `user` may repay `amount`: only the owner may repay, and never
/// more than is outstanding.
pub open spec fn repay_ok(v: Vault, user: Identity, amount: u64) -> bool {
    authorized(v, user) && v.loan_amount >= amount
}

/// The vault after `amount` of the loan is repaid; full repayment releases
/// the collateral.
pub open spec fn repaid(v: Vault, amount: u64) -> Vault
    recommends
        v.loan_amount >= amount,
{
    Vault {
        loan_amount: (v.loan_amount - amount) as u64,
        skin_id: if v.loan_amount == amount {
            0
        } else {
            v.skin_id
        },
        ..v
    }
}

/// The vault after liquidation: loan and collateral are cleared
/// unconditionally; the deposit balance is untouched.
pub open spec fn liquidated(v: Vault) -> Vault {
    Vault { skin_id: 0, loan_amount: 0, ..v }
}

/// One operation on the deposit pool, for stating how the balance evolves
/// across a whole sequence of calls.
#[derive(Clone, Copy, Debug)]
pub enum PoolOp {
    Deposit { amount: u64 },
    Withdraw { amount: u64 },
}

/// The deposit balance after one pool operation: a rejected operation
/// (zero deposit, overflow, uncovered withdrawal) leaves it unchanged.
pub open spec fn pool_step(balance: int, op: PoolOp) -> int {
    match op {
        PoolOp::Deposit { amount } => if amount > 0 && balance + amount <= u64::MAX {
            balance + amount
        } else {
            balance
        },
        PoolOp::Withdraw { amount } => if balance >= amount {
            balance - amount
        } else {
            balance
        },
    }
}

/// Creates the vault record for `authority`. The hosting ledger keys the
/// record by owner and rejects re-initialization of an existing key; this
/// logic itself cannot fail.
pub fn initialize_vault(authority: Identity) -> (v: Vault)
    ensures
        v == fresh_vault(authority),
{
    Vault { owner: authority, skin_id: 0, loan_amount: 0, total_deposits: 0 }
}

/// Creates a fresh vault record binding `skin_id` as collateral for
/// `user`. Create-only semantics: the hosting ledger rejects the call if
/// `user` already holds a vault, so there is no re-collateralize path.
pub fn deposit_skin_as_collateral(user: Identity, skin_id: u64) -> (v: Vault)
    ensures
        v == collateralized(user, skin_id),
{
    Vault { owner: user, skin_id, loan_amount: 0, total_deposits: 0 }
}

/// Credits a flat reward to the pool balance, failing only on overflow.
/// Deliberately performs no authorization check: any caller able to
/// reference the vault may credit it.
pub fn accrue_rewards(vault: &mut Vault, amount: u64) -> (r: Result<(), ErrorCode>)
    ensures
        r is Ok <==> can_credit(*old(vault), amount),
        r is Ok ==> *final(vault) == credited(*old(vault), amount),
        r is Err ==> *final(vault) == *old(vault) && r == Err::<(), ErrorCode>(
            ErrorCode::Overflow,
        ),
{
    match vault.total_deposits.checked_add(amount) {
        Some(new_total) => {
            vault.total_deposits = new_total;
            Ok(())
        },
        None => Err(ErrorCode::Overflow),
    }
}

/// Deposits `amount` into the pool. Rejects a zero amount, then credits
/// the balance with checked arithmetic. The accompanying signer is not
/// compared against the vault's owner: anyone may pay in.
#[allow(unused_variables)]
pub fn deposit(user: Identity, vault: &mut Vault, amount: u64) -> (r: Result<(), ErrorCode>)
    ensures
        r is Ok <==> deposit_ok(*old(vault), amount),
        r is Ok ==> *final(vault) == credited(*old(vault), amount),
        r is Err ==> *final(vault) == *old(vault),
        amount == 0 ==> r == Err::<(), ErrorCode>(ErrorCode::InvalidAmount),
        amount > 0 && !can_credit(*old(vault), amount) ==> r == Err::<(), ErrorCode>(
            ErrorCode::Overflow,
        ),
        final(vault).total_deposits == pool_step(
            old(vault).total_deposits as int,
            PoolOp::Deposit { amount },
        ),
{
    if amount == 0 {
        return Err(ErrorCode::InvalidAmount);
    }
    match vault.total_deposits.checked_add(amount) {
        Some(new_total) => {
            vault.total_deposits = new_total;
            Ok(())
        },
        None => Err(ErrorCode::Overflow),
    }
}

/// Withdraws `amount` from the pool, failing if the balance does not cover
/// it. As with `deposit`, the accompanying signer is not compared against
/// the vault's owner.
#[allow(unused_variables)]
pub fn withdraw(user: Identity, vault: &mut Vault, amount: u64) -> (r: Result<(), ErrorCode>)
    ensures
        r is Ok <==> withdraw_ok(*old(vault), amount),
        r is Ok ==> *final(vault) == debited(*old(vault), amount),
        r is Err ==> *final(vault) == *old(vault) && r == Err::<(), ErrorCode>(
            ErrorCode::InsufficientFunds,
        ),
        final(vault).total_deposits == pool_step(
            old(vault).total_deposits as int,
            PoolOp::Withdraw { amount },
        ),
{
    if vault.total_deposits < amount {
        return Err(ErrorCode::InsufficientFunds);
    }
    vault.total_deposits = vault.total_deposits - amount;
    Ok(())
}

/// Draws a loan of `amount` against the vault's collateral. Only the owner
/// may borrow; no collateral-value limit is applied. The loan total is
/// updated with wrapping arithmetic — a known quirk of this design, kept
/// and stated exactly in the contract rather than silently hardened.
pub fn borrow(user: Identity, vault: &mut Vault, amount: u64) -> (r: Result<(), ErrorCode>)
    ensures
        r is Ok <==> authorized(*old(vault), user),
        r is Ok ==> *final(vault) == borrowed(*old(vault), amount),
        r is Err ==> *final(vault) == *old(vault) && r == Err::<(), ErrorCode>(
            ErrorCode::Unauthorized,
        ),
{
    if vault.owner != user {
        return Err(ErrorCode::Unauthorized);
    }
    vault.loan_amount = vault.loan_amount.wrapping_add(amount);
    Ok(())
}

/// Repays `amount` of the outstanding loan. Only the owner may repay, and
/// never more than is outstanding; repaying the loan down to zero releases
/// the collateral.
pub fn repay(user: Identity, vault: &mut Vault, amount: u64) -> (r: Result<(), ErrorCode>)
    ensures
        r is Ok <==> repay_ok(*old(vault), user, amount),
        r is Ok ==> *final(vault) == repaid(*old(vault), amount),
        r is Err ==> *final(vault) == *old(vault),
        !authorized(*old(vault), user) ==> r == Err::<(), ErrorCode>(ErrorCode::Unauthorized),
        authorized(*old(vault), user) && old(vault).loan_amount < amount ==> r == Err::<
            (),
            ErrorCode,
        >(ErrorCode::InvalidRepayAmount),
{
    if vault.owner != user {
        return Err(ErrorCode::Unauthorized);
    }
    if vault.loan_amount < amount {
        return Err(ErrorCode::InvalidRepayAmount);
    }
    vault.loan_amount = vault.loan_amount - amount;
    if vault.loan_amount == 0 {
        vault.skin_id = 0;
    }
    Ok(())
}

/// Clears the loan and collateral unconditionally, whatever has been
/// repaid. In this design only the vault's own owner may liquidate it — a
/// placeholder for a real liquidator role.
pub fn liquidate(authority: Identity, vault: &mut Vault) -> (r: Result<(), ErrorCode>)
    ensures
        r is Ok <==> authorized(*old(vault), authority),
        r is Ok ==> *final(vault) == liquidated(*old(vault)),
        r is Err ==> *final(vault) == *old(vault) && r == Err::<(), ErrorCode>(
            ErrorCode::Unauthorized,
        ),
{
    if vault.owner != authority {
        return Err(ErrorCode::Unauthorized);
    }
    vault.loan_amount = 0;
    vault.skin_id = 0;
    Ok(())
}

} // verus!
