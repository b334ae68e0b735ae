use vstd::prelude::*;

verus! {

/// Why a record was not applied. A rejected record leaves every balance and
/// the lock flag exactly as they were.
#[derive(Clone, Copy, Debug, PartialEq, Eq, Structural)]
pub enum Rejection {
    /// The deposit would not strictly increase the total: the amount is zero
    /// or negative, or the sum is beyond the largest amount.
    DepositNotIncreasing,
    /// The withdrawal asks for more than is available.
    InsufficientFunds,
    /// A deposit or withdrawal without an amount, or a reference to one.
    MissingAmount,
    /// No earlier deposit or withdrawal of this client has the given `tx`.
    UnknownTransaction,
    /// The record named by a chargeback is neither a deposit nor a withdrawal.
    InvalidChargebackTarget,
    /// A balance would leave the range of amounts.
    OutOfRange,
}

} // verus!
