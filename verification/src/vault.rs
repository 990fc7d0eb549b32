use vstd::prelude::*;
use crate::address::{AccountKey, Address};
use crate::errors::ErrorCode;

verus! {

/// One collateral ledger: the persisted record for an `(owner, vault_id)`
/// pair. It tracks how much value sits in custody in total, how much of it
/// is still available, and how much is pledged ("locked").
#[derive(Clone, Copy, Debug, PartialEq, Eq, Structural)]
pub struct CollateralVault {
    /// Identity of the controlling party. Immutable after creation.
    pub owner: AccountKey,
    /// Address of the custody sub-account holding the value. Immutable.
    pub token_account: Address,
    /// All value in custody for this ledger.
    pub total_balance: u64,
    /// Value currently pledged against an obligation.
    pub locked_balance: u64,
    /// Value in custody and not pledged.
    pub available_balance: u64,
    /// Cumulative audit counter; no operation mutates it.
    pub total_deposited: u64,
    /// Cumulative audit counter; no operation mutates it.
    pub total_withdrawn: u64,
    /// Creation timestamp.
    pub created_at: i64,
    /// Disambiguation nonce produced by address derivation at creation.
    pub bump: u8,
    /// Caller-chosen index distinguishing ledgers of one owner. Immutable.
    pub vault_id: u8,
}

impl CollateralVault {
    /// Conservation invariant: every custodied unit is either available or
    /// locked, never both and never neither.
    pub open spec fn wf(self) -> bool {
        self.total_balance == self.available_balance + self.locked_balance
    }

    /// The fresh record that creation persists: the given bindings, all
    /// balances and audit counters zero.
    pub open spec fn spec_new(
        owner: AccountKey,
        token_account: Address,
        vault_id: u8,
        bump: u8,
        created_at: i64,
    ) -> CollateralVault {
        CollateralVault {
            owner,
            token_account,
            total_balance: 0,
            locked_balance: 0,
            available_balance: 0,
            total_deposited: 0,
            total_withdrawn: 0,
            created_at,
            bump,
            vault_id,
        }
    }

    /// `self` with the three balances replaced and every other field kept.
    pub open spec fn with_balances(self, total: u64, available: u64, locked: u64) -> CollateralVault {
        CollateralVault {
            owner: self.owner,
            token_account: self.token_account,
            total_balance: total,
            locked_balance: locked,
            available_balance: available,
            total_deposited: self.total_deposited,
            total_withdrawn: self.total_withdrawn,
            created_at: self.created_at,
            bump: self.bump,
            vault_id: self.vault_id,
        }
    }

    /// Creates the record for a fresh ledger.
    pub fn new(
        owner: AccountKey,
        token_account: Address,
        vault_id: u8,
        bump: u8,
        created_at: i64,
    ) -> (v: CollateralVault)
        ensures
            v == Self::spec_new(owner, token_account, vault_id, bump, created_at),
            v.wf(),
    {
        CollateralVault {
            owner,
            token_account,
            total_balance: 0,
            locked_balance: 0,
            available_balance: 0,
            total_deposited: 0,
            total_withdrawn: 0,
            created_at,
            bump,
            vault_id,
        }
    }

    /// Runtime check of the conservation invariant, for callers outside
    /// verified code that must establish it before an operation.
    pub fn check_invariant(&self) -> (r: bool)
        ensures
            r == self.wf(),
    {
        match self.available_balance.checked_add(self.locked_balance) {
            Some(sum) => self.total_balance == sum,
            None => false,
        }
    }

    /// Credits a deposit that has already reached custody: both the total
    /// and the available balance grow by `amount`, or nothing changes and
    /// the arithmetic failure is reported. Returns the new total balance.
    pub fn credit_deposit(&mut self, amount: u64) -> (r: Result<u64, ErrorCode>)
        requires
            old(self).wf(),
        ensures
            old(self).total_balance + amount > u64::MAX ==> {
                &&& r == Err::<u64, ErrorCode>(ErrorCode::MathError)
                &&& *final(self) == *old(self)
            },
            old(self).total_balance + amount <= u64::MAX ==> {
                &&& r == Ok::<u64, ErrorCode>((old(self).total_balance + amount) as u64)
                &&& *final(self) == old(self).with_balances(
                    (old(self).total_balance + amount) as u64,
                    (old(self).available_balance + amount) as u64,
                    old(self).locked_balance,
                )
            },
            final(self).wf(),
    {
        match self.total_balance.checked_add(amount) {
            Some(new_total) => {
                // Conservation makes this second check redundant (available
                // never exceeds total), but it stays as defence in depth.
                match self.available_balance.checked_add(amount) {
                    Some(new_available) => {
                        self.total_balance = new_total;
                        self.available_balance = new_available;
                        Ok(new_total)
                    },
                    None => Err(ErrorCode::MathError),
                }
            },
            None => Err(ErrorCode::MathError),
        }
    }

    /// Reclassifies `amount` from available to locked. The total balance
    /// never moves: on success the two components exchange exactly
    /// `amount`, on failure nothing changes. Returns the new locked
    /// balance.
    pub fn lock(&mut self, amount: u64) -> (r: Result<u64, ErrorCode>)
        requires
            old(self).wf(),
        ensures
            amount > old(self).available_balance ==> {
                &&& r == Err::<u64, ErrorCode>(ErrorCode::InsufficientAvailableCollateral)
                &&& *final(self) == *old(self)
            },
            amount <= old(self).available_balance ==> {
                &&& r == Ok::<u64, ErrorCode>((old(self).locked_balance + amount) as u64)
                &&& *final(self) == old(self).with_balances(
                    old(self).total_balance,
                    (old(self).available_balance - amount) as u64,
                    (old(self).locked_balance + amount) as u64,
                )
            },
            final(self).wf(),
    {
        if self.available_balance < amount {
            return Err(ErrorCode::InsufficientAvailableCollateral);
        }
        // Conservation rules both arithmetic failures out here, but the
        // checked forms stay as defence in depth.
        match self.available_balance.checked_sub(amount) {
            Some(new_available) => {
                match self.locked_balance.checked_add(amount) {
                    Some(new_locked) => {
                        self.available_balance = new_available;
                        self.locked_balance = new_locked;
                        Ok(new_locked)
                    },
                    None => Err(ErrorCode::MathError),
                }
            },
            None => Err(ErrorCode::MathError),
        }
    }
}

} // verus!
