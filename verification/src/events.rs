use vstd::prelude::*;
use crate::address::AccountKey;

verus! {

/// Notification emitted after a successful deposit.
#[derive(Clone, Copy, Debug, PartialEq, Eq, Structural)]
pub struct DepositEvent {
    pub user: AccountKey,
    pub amount: u64,
    pub new_balance: u64,
}

/// Notification emitted after a successful lock.
#[derive(Clone, Copy, Debug, PartialEq, Eq, Structural)]
pub struct LockEvent {
    pub user: AccountKey,
    pub amount: u64,
    pub locked_balance: u64,
}

} // verus!
