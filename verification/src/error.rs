use vstd::prelude::*;

verus! {

/// Failure taxonomy of the vault ledger and the reconciliation subsystem.
///
/// Every rejected operation leaves all state untouched and reports exactly
/// one of these kinds to the caller.
#[derive(Clone, Copy, Debug, PartialEq, Eq, Structural)]
pub enum VaultError {
    /// An amount was zero, or a registry configuration exceeds its bound.
    InvalidAmount,
    /// The caller is not in the set of authorized callers.
    Unauthorized,
    /// The requested amount exceeds what is currently available (or locked,
    /// for an unlock) in the requested direction.
    InsufficientAvailableBalance,
    /// A full withdrawal was attempted while collateral is still locked.
    OpenPositionsExist,
    /// A checked arithmetic operation would overflow its 64-bit range.
    MathOverflow,
    /// A balance record for this owner already exists.
    AlreadyExists,
    /// No balance record exists for this owner.
    NotFound,
    /// Authoritative state could not be retrieved after exhausting retries.
    AuthoritativeFetchFailed,
}

} // verus!
