use vstd::prelude::*;

verus! {

/// Every failure the exchange core can report.
///
/// `InvalidInstruction` and `InvalidAccountAddress` arise in this program's
/// own validation; the remaining variants model the failures that the two
/// ledger collaborators surface (missing signature or authority, not enough
/// balance, arithmetic that would wrap).
#[derive(Clone, Copy, Debug, PartialEq, Eq, Structural)]
pub enum TokenTradeError {
    /// The instruction byte stream is malformed or carries an unknown tag.
    InvalidInstruction,
    /// The supplied vault account is not the address derived from the
    /// program id and the mint.
    InvalidAccountAddress,
    /// The caller supplied fewer accounts than the handler consumes.
    NotEnoughAccounts,
    /// A required signature or transfer authority is missing or wrong.
    AuthorityMismatch,
    /// The debited balance is smaller than the requested amount.
    InsufficientFunds,
    /// The credited balance or a computed amount would exceed `u64::MAX`.
    ArithmeticOverflow,
}

} // verus!
