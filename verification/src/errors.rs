use vstd::prelude::*;

verus! {

/// The closed failure taxonomy. Every operation either completes in full or
/// reports one of these conditions and leaves its record untouched; none is
/// retryable and none is recovered from internally.
#[derive(Clone, Copy, Debug, PartialEq, Eq, Structural)]
pub enum ErrorCode {
    /// The caller's identity does not match the stored owner.
    Unauthorized,
    /// A repayment exceeds the outstanding loan.
    InvalidRepayAmount,
    /// A withdrawal exceeds the deposit balance.
    InsufficientFunds,
    /// A deposit of a zero amount.
    InvalidAmount,
    /// Checked arithmetic would leave the representable range.
    Overflow,
    /// A rental was attempted on a listing that is not available.
    NotListed,
}

} // verus!
