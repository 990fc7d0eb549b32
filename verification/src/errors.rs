use vstd::prelude::*;

verus! {

/// Failure conditions shared by the collateral operations.
#[derive(Clone, Copy, Debug, PartialEq, Eq, Structural)]
pub enum ErrorCode {
    /// A zero or otherwise disallowed amount was supplied to a deposit.
    InvalidAmount,
    /// A lock requested more than the ledger's available balance.
    InsufficientAvailableCollateral,
    /// A checked arithmetic step would have overflowed or underflowed.
    MathError,
    /// Reserved; no operation raises it.
    InvalidVaultTokenAccount,
}

} // verus!
