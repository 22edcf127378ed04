use vstd::prelude::*;

verus! {

/// Every way a transfer can fail. Errors are values, not faults: each variant
/// carries exactly the payload a caller needs to act on it. The taxonomy is
/// wire-stable: `Expired`, `Duplicate` and `TemporarilyUnavailable` are part
/// of it for clients' sake, though this ledger never produces them.
#[derive(Debug, Clone, Copy, PartialEq, Eq, Structural)]
pub enum TransactionError {
    BadFee,
    CreatedInFuture { ledger_time: u64 },
    TooOld,
    Expired,
    Duplicate { duplicate_of: u64 },
    TemporarilyUnavailable,
    InsufficientFunds { balance: u128 },
}

/// Failures of the account store's arithmetic-safe accessors: a credit that
/// would overflow the balance type, or a debit past the available balance.
#[derive(Debug, Clone, Copy, PartialEq, Eq, Structural)]
pub enum StoreError {
    Overflow,
    InsufficientFunds { available: u128 },
}

} // verus!
