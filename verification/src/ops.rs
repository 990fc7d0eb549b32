use vstd::prelude::*;
use crate::address::{
    AccountKey, Address, DERIVATION_NONCE, derive_token_account_address, derive_vault_address,
    spec_token_account_address, spec_vault_address,
};
use crate::errors::ErrorCode;
use crate::events::{DepositEvent, LockEvent};
use crate::vault::CollateralVault;

verus! {

/// Accounts read by `initialize_vault`: the authenticated identity that
/// will own the new ledger. The ledger address and its custody sub-account
/// are outputs of derivation, not inputs.
#[derive(Clone, Copy, Debug, PartialEq, Eq, Structural)]
pub struct InitializeVault {
    pub signer: AccountKey,
}

/// Accounts read by `deposit`: the authenticated caller, the ledger it
/// presents together with the address it claims for it, and the custody
/// sub-account it wants the value moved into.
#[derive(Clone, Copy, Debug, PartialEq, Eq, Structural)]
pub struct Deposit {
    pub signer: AccountKey,
    pub vault_address: Address,
    pub vault: CollateralVault,
    pub vault_token_account: Address,
}

/// Accounts read by `lock_collateral`: the authenticated caller and the
/// ledger it presents together with the address it claims for it.
#[derive(Clone, Copy, Debug, PartialEq, Eq, Structural)]
pub struct LockCollateral {
    pub signer: AccountKey,
    pub vault_address: Address,
    pub vault: CollateralVault,
}

/// The caller-presented ledger genuinely belongs to `(signer, vault_id)`:
/// the claimed address re-derives from the pair, the stored nonce matches
/// the derivation, and the record itself names the signer as owner and
/// carries the index. Every operation demands this, so a substituted or
/// impersonated ledger is turned away before anything runs.
pub open spec fn vault_access_ok(
    signer: AccountKey,
    vault_address: Address,
    vault: CollateralVault,
    vault_id: u8,
) -> bool {
    &&& vault_address == spec_vault_address(signer, vault_id)
    &&& vault.bump == DERIVATION_NONCE
    &&& vault.owner == signer
    &&& vault.vault_id == vault_id
}

/// Everything `deposit` demands of its accounts: valid ledger access, and
/// a caller-supplied custody sub-account equal to the one the ledger was
/// created with, so value cannot be redirected into an unrelated account.
pub open spec fn deposit_access_ok(accounts: Deposit, vault_id: u8) -> bool {
    &&& vault_access_ok(accounts.signer, accounts.vault_address, accounts.vault, vault_id)
    &&& accounts.vault_token_account == accounts.vault.token_account
}

/// Everything `lock_collateral` demands of its accounts.
pub open spec fn lock_access_ok(accounts: LockCollateral, vault_id: u8) -> bool {
    vault_access_ok(accounts.signer, accounts.vault_address, accounts.vault, vault_id)
}

/// Re-derives the ledger address from `(signer, vault_id)` and compares it,
/// the stored nonce and the stored bindings against what the caller
/// presented. Exactly the access condition `vault_access_ok`.
pub fn validate_vault_access(
    signer: &AccountKey,
    vault_address: &Address,
    vault: &CollateralVault,
    vault_id: u8,
) -> (r: bool)
    ensures
        r == vault_access_ok(*signer, *vault_address, *vault, vault_id),
{
    let (derived, nonce) = derive_vault_address(*signer, vault_id);
    *vault_address == derived && vault.bump == nonce && vault.owner == *signer
        && vault.vault_id == vault_id
}

/// The full account validation for a deposit: ledger access plus the
/// custody sub-account comparison.
pub fn validate_deposit(accounts: &Deposit, vault_id: u8) -> (r: bool)
    ensures
        r == deposit_access_ok(*accounts, vault_id),
{
    validate_vault_access(&accounts.signer, &accounts.vault_address, &accounts.vault, vault_id)
        && accounts.vault_token_account == accounts.vault.token_account
}

/// The full account validation for a lock.
pub fn validate_lock(accounts: &LockCollateral, vault_id: u8) -> (r: bool)
    ensures
        r == lock_access_ok(*accounts, vault_id),
{
    validate_vault_access(&accounts.signer, &accounts.vault_address, &accounts.vault, vault_id)
}

/// Creates the ledger for `(signer, vault_id)`: derives its address and
/// the custody sub-account bound to that address, and returns the address
/// together with the zeroed record, ready to be persisted at it.
pub fn initialize_vault(accounts: &InitializeVault, vault_id: u8, now: i64) -> (r: (
    Address,
    CollateralVault,
))
    ensures
        r.0 == spec_vault_address(accounts.signer, vault_id),
        r.1 == CollateralVault::spec_new(
            accounts.signer,
            spec_token_account_address(r.0),
            vault_id,
            DERIVATION_NONCE,
            now,
        ),
        r.1.wf(),
        vault_access_ok(accounts.signer, r.0, r.1, vault_id),
{
    let (vault_address, bump) = derive_vault_address(accounts.signer, vault_id);
    let token_account = derive_token_account_address(&vault_address);
    let vault = CollateralVault::new(accounts.signer, token_account, vault_id, bump, now);
    (vault_address, vault)
}

/// Credits a deposit whose external transfer into custody has succeeded:
/// rejects a zero amount, rejects an amount that would push the total past
/// the representable maximum, and otherwise grows both the total and the
/// available balance by exactly `amount`. Nothing but the ledger balances
/// ever changes, and on any failure nothing changes at all.
pub fn deposit(accounts: &mut Deposit, vault_id: u8, amount: u64) -> (r: Result<
    DepositEvent,
    ErrorCode,
>)
    requires
        old(accounts).vault.wf(),
        deposit_access_ok(*old(accounts), vault_id),
    ensures
        final(accounts).signer == old(accounts).signer,
        final(accounts).vault_address == old(accounts).vault_address,
        final(accounts).vault_token_account == old(accounts).vault_token_account,
        amount == 0 ==> {
            &&& r == Err::<DepositEvent, ErrorCode>(ErrorCode::InvalidAmount)
            &&& final(accounts).vault == old(accounts).vault
        },
        amount > 0 && old(accounts).vault.total_balance + amount > u64::MAX ==> {
            &&& r == Err::<DepositEvent, ErrorCode>(ErrorCode::MathError)
            &&& final(accounts).vault == old(accounts).vault
        },
        amount > 0 && old(accounts).vault.total_balance + amount <= u64::MAX ==> {
            &&& final(accounts).vault == old(accounts).vault.with_balances(
                (old(accounts).vault.total_balance + amount) as u64,
                (old(accounts).vault.available_balance + amount) as u64,
                old(accounts).vault.locked_balance,
            )
            &&& r == Ok::<DepositEvent, ErrorCode>(
                DepositEvent {
                    user: old(accounts).vault.owner,
                    amount,
                    new_balance: (old(accounts).vault.total_balance + amount) as u64,
                },
            )
        },
        final(accounts).vault.wf(),
        deposit_access_ok(*final(accounts), vault_id),
{
    if amount == 0 {
        return Err(ErrorCode::InvalidAmount);
    }
    match accounts.vault.credit_deposit(amount) {
        Ok(new_total) => Ok(
            DepositEvent { user: accounts.vault.owner, amount, new_balance: new_total },
        ),
        Err(e) => Err(e),
    }
}

/// Reclassifies `amount` from available to locked on the presented ledger:
/// rejects a request for more than the available balance, and otherwise
/// moves exactly `amount` between the two components while the total
/// balance stays put. On failure nothing changes.
pub fn lock_collateral(accounts: &mut LockCollateral, vault_id: u8, amount: u64) -> (r: Result<
    LockEvent,
    ErrorCode,
>)
    requires
        old(accounts).vault.wf(),
        lock_access_ok(*old(accounts), vault_id),
    ensures
        final(accounts).signer == old(accounts).signer,
        final(accounts).vault_address == old(accounts).vault_address,
        amount > old(accounts).vault.available_balance ==> {
            &&& r == Err::<LockEvent, ErrorCode>(ErrorCode::InsufficientAvailableCollateral)
            &&& final(accounts).vault == old(accounts).vault
        },
        amount <= old(accounts).vault.available_balance ==> {
            &&& final(accounts).vault == old(accounts).vault.with_balances(
                old(accounts).vault.total_balance,
                (old(accounts).vault.available_balance - amount) as u64,
                (old(accounts).vault.locked_balance + amount) as u64,
            )
            &&& r == Ok::<LockEvent, ErrorCode>(
                LockEvent {
                    user: old(accounts).vault.owner,
                    amount,
                    locked_balance: (old(accounts).vault.locked_balance + amount) as u64,
                },
            )
        },
        final(accounts).vault.wf(),
        lock_access_ok(*final(accounts), vault_id),
{
    match accounts.vault.lock(amount) {
        Ok(new_locked) => Ok(
            LockEvent { user: accounts.vault.owner, amount, locked_balance: new_locked },
        ),
        Err(e) => Err(e),
    }
}

/// Law: ledgers of one owner with different indices never affect each
/// other. An operation writes its result back at the address derived for
/// its own `(owner, index)` pair; because derivation is injective, that
/// write leaves the record stored at any other pair's address exactly as
/// it was.
pub proof fn lemma_distinct_vaults_independent(
    ledgers: Map<Address, CollateralVault>,
    owner: AccountKey,
    i: u8,
    j: u8,
    updated: CollateralVault,
)
    requires
        i != j,
        ledgers.dom().contains(spec_vault_address(owner, j)),
    ensures
        ledgers.insert(spec_vault_address(owner, i), updated)[spec_vault_address(owner, j)]
            == ledgers[spec_vault_address(owner, j)],
{
    crate::address::lemma_distinct_indices_distinct_addresses(owner, i, j);
}

} // verus!
