use vstd::prelude::*;

verus! {

/// The ways an operation on the counter account can fail. Every failure
/// leaves the ledger exactly as it was: no operation has a partial effect.
#[derive(Clone, Copy, Debug, PartialEq, Eq, Structural)]
pub enum CounterError {
    /// `initialize` found the account already allocated, or the payer
    /// cannot cover the allocation cost.
    AllocationError,
    /// `increment` was asked to move the count past its greatest value.
    ArithmeticOverflow,
    /// `decrement` was asked to move the count below zero.
    ArithmeticUnderflow,
    /// The account the operation refers to does not exist (it was never
    /// allocated, or it has been closed).
    AccountNotFound,
}

} // verus!
