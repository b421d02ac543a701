use vstd::prelude::*;

use crate::identity::Identity;
use crate::listing::fresh_listing;
use crate::listing::rent_ok;
use crate::listing::rental_seconds;
use crate::listing::rented;
use crate::vault::authorized;
use crate::vault::borrowed;
use crate::vault::can_credit;
use crate::vault::credited;
use crate::vault::debited;
use crate::vault::pool_step;
use crate::vault::repaid;
use crate::vault::repay_ok;
use crate::vault::withdraw_ok;
use crate::vault::PoolOp;
use crate::vault::Vault;

verus! {

/// The deposit balance after a whole sequence of pool operations, applied
/// first to last with the semantics of `deposit` and `withdraw`: a
/// rejected operation leaves the balance as it was.
pub open spec fn pool_run(balance: int, ops: Seq<PoolOp>) -> int
    decreases ops.len(),
{
    if ops.len() == 0 {
        balance
    } else {
        pool_run(pool_step(balance, ops.first()), ops.drop_first())
    }
}

/// The sum of the deposit amounts that the sequence actually applies,
/// counting only deposits that are accepted from the balance they meet.
pub open spec fn pool_deposited(balance: int, ops: Seq<PoolOp>) -> int
    decreases ops.len(),
{
    if ops.len() == 0 {
        0
    } else {
        let applied: int = match ops.first() {
            PoolOp::Deposit { amount } => if amount > 0 && balance + amount <= u64::MAX {
                amount as int
            } else {
                0
            },
            PoolOp::Withdraw { .. } => 0,
        };
        applied + pool_deposited(pool_step(balance, ops.first()), ops.drop_first())
    }
}

/// The sum of the withdrawal amounts that the sequence actually applies,
/// counting only withdrawals covered by the balance they meet.
pub open spec fn pool_withdrawn(balance: int, ops: Seq<PoolOp>) -> int
    decreases ops.len(),
{
    if ops.len() == 0 {
        0
    } else {
        let applied: int = match ops.first() {
            PoolOp::Deposit { .. } => 0,
            PoolOp::Withdraw { amount } => if balance >= amount {
                amount as int
            } else {
                0
            },
        };
        applied + pool_withdrawn(pool_step(balance, ops.first()), ops.drop_first())
    }
}

/// Law: over every sequence of deposit and withdraw calls the pool balance
/// stays within the unsigned 64-bit range — in particular it never goes
/// negative — and always equals the starting balance plus the deposits
/// actually applied minus the withdrawals actually applied. The `ensures`
/// of `deposit` and `withdraw` tie each call to one `pool_step`, and an
/// uncovered withdrawal fails `InsufficientFunds` with the vault unchanged.
pub proof fn lemma_pool_conservation(init: u64, ops: Seq<PoolOp>)
    ensures
        0 <= pool_run(init as int, ops) <= u64::MAX,
        pool_run(init as int, ops) == init + pool_deposited(init as int, ops) - pool_withdrawn(
            init as int,
            ops,
        ),
        pool_withdrawn(init as int, ops) <= init + pool_deposited(init as int, ops),
    decreases ops.len(),
{
    if ops.len() > 0 {
        let next = pool_step(init as int, ops.first());
        assert(0 <= next <= u64::MAX);
        lemma_pool_conservation(next as u64, ops.drop_first());
    }
}

/// Law: crediting rewards and then withdrawing the credited amount is
/// accepted and returns the vault exactly to its pre-accrual state.
pub proof fn lemma_accrue_then_withdraw(v: Vault, amount: u64)
    requires
        can_credit(v, amount),
    ensures
        withdraw_ok(credited(v, amount), amount),
        debited(credited(v, amount), amount) == v,
{
}

/// Law: starting from a vault with no outstanding loan, borrowing an
/// amount and then repaying the same amount is accepted, clears the loan,
/// and releases the collateral; the owner and the deposit balance are
/// untouched. Repaying more than is outstanding instead fails
/// `InvalidRepayAmount` with the vault unchanged, by the `ensures` of
/// `repay`.
pub proof fn lemma_borrow_then_repay(v: Vault, user: Identity, amount: u64)
    requires
        authorized(v, user),
        v.loan_amount == 0,
    ensures
        authorized(borrowed(v, amount), user),
        repay_ok(borrowed(v, amount), user, amount),
        repaid(borrowed(v, amount), amount) == (Vault {
            skin_id: 0,
            loan_amount: 0,
            ..v
        }),
{
}

/// Law: a caller other than the stored owner is never authorized, so
/// `borrow`, `repay` and `liquidate` all fail `Unauthorized` for it and
/// leave the vault unchanged, by their `ensures`.
pub proof fn lemma_unauthorized_rejected(v: Vault, caller: Identity, amount: u64)
    requires
        caller != v.owner,
    ensures
        !authorized(v, caller),
        !repay_ok(v, caller, amount),
{
}

/// Law: renting a freshly created listing for `days` days at clock
/// reading `now` is accepted whenever the second count fits the unsigned
/// 64-bit range and the expiry fits the signed 64-bit range; it takes the
/// listing off the market, binds it to the renter and
/// stamps the expiry exactly `days * 86400` seconds past `now`. No second
/// rental is ever accepted afterwards, whatever its arguments — by the
/// `ensures` of `rent` the second call fails `NotListed` with the record
/// unchanged.
pub proof fn lemma_list_then_rent(
    owner: Identity,
    mint: Identity,
    daily_price_usd: u64,
    renter: Identity,
    days: u64,
    now: i64,
    days2: u64,
    now2: i64,
)
    requires
        rental_seconds(days) <= u64::MAX,
        now + rental_seconds(days) <= i64::MAX,
    ensures
        rent_ok(fresh_listing(owner, mint, daily_price_usd), days, now),
        ({
            let l1 = rented(fresh_listing(owner, mint, daily_price_usd), renter, days, now);
            &&& !l1.is_listed
            &&& l1.renter == renter
            &&& l1.rented_until == now + days * 86400
            &&& !rent_ok(l1, days2, now2)
        }),
{
}

} // verus!
