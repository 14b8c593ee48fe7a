use vstd::prelude::*;

verus! {

/// The error codes the purchase instruction declares for its own checks.
///
/// `InsufficientTreasuryBalance` is reserved: the purchase logic never raises
/// it itself. A shortfall in the custodian's token holdings surfaces instead
/// as a `LedgerError` propagated unchanged from the token ledger.
#[derive(Clone, Copy, PartialEq, Eq, Debug)]
pub enum ErrorCode {
    InvalidLockDuration,
    InvalidAmount,
    InsufficientTreasuryBalance,
}

/// A refusal reported by one of the two external ledgers when a transfer leg
/// cannot go through. Each leg is all-or-nothing: a refused leg changes
/// neither of the accounts it names.
#[derive(Clone, Copy, PartialEq, Eq, Debug)]
pub enum LedgerError {
    /// The authorizing signer does not control the source account.
    Unauthorized,
    /// The source account holds less than the requested amount.
    InsufficientFunds,
    /// Crediting the destination would overflow its balance.
    BalanceOverflow,
}

/// Everything the purchase instruction can surface to its caller: one of its
/// own declared codes, or a ledger refusal passed through unchanged.
#[derive(Clone, Copy, PartialEq, Eq, Debug)]
pub enum PurchaseError {
    Program(ErrorCode),
    Ledger(LedgerError),
}

/// The message attached to each declared error code.
pub open spec fn message_of(code: ErrorCode) -> Seq<char> {
    match code {
        ErrorCode::InvalidLockDuration => "Invalid lock duration. Must be 1, 3, 6, or 12 months."@,
        ErrorCode::InvalidAmount => "Invalid amount. Amount must be greater than 0."@,
        ErrorCode::InsufficientTreasuryBalance => "Insufficient token balance in treasury."@,
    }
}

impl ErrorCode {
    /// Human-readable text for a declared code, for callers that report it.
    pub fn message(&self) -> (r: &'static str)
        ensures
            r@ == message_of(*self),
    {
        match self {
            ErrorCode::InvalidLockDuration => "Invalid lock duration. Must be 1, 3, 6, or 12 months.",
            ErrorCode::InvalidAmount => "Invalid amount. Amount must be greater than 0.",
            ErrorCode::InsufficientTreasuryBalance => "Insufficient token balance in treasury.",
        }
    }
}

} // verus!
