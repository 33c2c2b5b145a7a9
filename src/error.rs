use vstd::prelude::*;

verus! {

/// Why an operation was refused. Every refusal is detected before any record
/// changes or any transfer is requested.
#[derive(Clone, Copy, Debug, PartialEq, Eq, Structural)]
pub enum ErrorCode {
    /// A fee rate above 10000 basis points.
    InvalidFee,
    /// A deposit of nothing.
    ZeroAmount,
    /// A balance or counter would exceed the unit's range.
    Overflow,
    /// The settlement amount `seconds * price` does not fit the unit.
    MathOverflow,
    /// The escrow cannot cover the requested amount.
    InsufficientFunds,
    /// The caller is not the identity the record names.
    Unauthorized,
    /// A claim on a zero balance.
    NothingToClaim,
    /// A builder code that is already registered.
    AlreadyRegistered,
    /// A record that does not belong to the expected owner.
    InvalidPool,
    /// A refund of an escrow that already holds nothing.
    ZeroBalance,
}

} // verus!
