use collateral_vault::address::{
    derive_token_account_address, derive_vault_address, AccountKey, Address, DomainTag,
    DERIVATION_NONCE,
};
use collateral_vault::errors::ErrorCode;
use collateral_vault::events::{DepositEvent, LockEvent};
use collateral_vault::ops::{
    deposit, initialize_vault, lock_collateral, validate_deposit, validate_lock,
    validate_vault_access, Deposit, InitializeVault, LockCollateral,
};
use collateral_vault::vault::CollateralVault;

fn owner() -> AccountKey {
    AccountKey { hi: 0x1111_2222_3333_4444, lo: 0x5555_6666_7777_8888 }
}

fn other_owner() -> AccountKey {
    AccountKey { hi: 0x9999_0000_aaaa_bbbb, lo: 0xcccc_dddd_eeee_ffff }
}

fn fresh_vault(signer: AccountKey, vault_id: u8) -> (Address, CollateralVault) {
    initialize_vault(&InitializeVault { signer }, vault_id, 1_700_000_000)
}

fn deposit_accounts(signer: AccountKey, vault_id: u8) -> Deposit {
    let (vault_address, vault) = fresh_vault(signer, vault_id);
    Deposit { signer, vault_address, vault, vault_token_account: vault.token_account }
}

#[test]
fn initialize_binds_owner_and_zeroes_balances() {
    let (vault_address, vault) = fresh_vault(owner(), 0);
    assert_eq!(vault.owner, owner());
    assert_eq!(vault.vault_id, 0);
    assert_eq!(vault.total_balance, 0);
    assert_eq!(vault.available_balance, 0);
    assert_eq!(vault.locked_balance, 0);
    assert_eq!(vault.total_deposited, 0);
    assert_eq!(vault.total_withdrawn, 0);
    assert_eq!(vault.created_at, 1_700_000_000);
    assert_eq!(vault.bump, DERIVATION_NONCE);
    assert_eq!(vault.token_account, derive_token_account_address(&vault_address));
    assert!(validate_vault_access(&owner(), &vault_address, &vault, 0));
}

#[test]
fn deposit_zero_amount_fails_invalid_amount() {
    let mut accounts = deposit_accounts(owner(), 0);
    let before = accounts.vault;
    let r = deposit(&mut accounts, 0, 0);
    assert_eq!(r, Err(ErrorCode::InvalidAmount));
    assert_eq!(accounts.vault, before);
}

#[test]
fn deposit_credits_total_and_available_only() {
    let mut accounts = deposit_accounts(owner(), 0);
    let r = deposit(&mut accounts, 0, 100);
    assert_eq!(r, Ok(DepositEvent { user: owner(), amount: 100, new_balance: 100 }));
    assert_eq!(accounts.vault.total_balance, 100);
    assert_eq!(accounts.vault.available_balance, 100);
    assert_eq!(accounts.vault.locked_balance, 0);

    let r = deposit(&mut accounts, 0, 25);
    assert_eq!(r, Ok(DepositEvent { user: owner(), amount: 25, new_balance: 125 }));
    assert_eq!(accounts.vault.total_balance, 125);
    assert_eq!(accounts.vault.available_balance, 125);
    assert_eq!(accounts.vault.locked_balance, 0);
}

#[test]
fn deposit_overflow_fails_math_error_and_leaves_state() {
    let mut accounts = deposit_accounts(owner(), 0);
    accounts.vault.total_balance = u64::MAX - 10;
    accounts.vault.available_balance = u64::MAX - 10;
    let before = accounts.vault;
    let r = deposit(&mut accounts, 0, 11);
    assert_eq!(r, Err(ErrorCode::MathError));
    assert_eq!(accounts.vault, before);

    let r = deposit(&mut accounts, 0, 10);
    assert_eq!(
        r,
        Ok(DepositEvent { user: owner(), amount: 10, new_balance: u64::MAX })
    );
    assert_eq!(accounts.vault.total_balance, u64::MAX);
}

#[test]
fn lock_more_than_available_fails_and_leaves_state() {
    let mut accounts = deposit_accounts(owner(), 0);
    deposit(&mut accounts, 0, 50).unwrap();
    let mut lock_accounts = LockCollateral {
        signer: accounts.signer,
        vault_address: accounts.vault_address,
        vault: accounts.vault,
    };
    let before = lock_accounts.vault;
    let r = lock_collateral(&mut lock_accounts, 0, 51);
    assert_eq!(r, Err(ErrorCode::InsufficientAvailableCollateral));
    assert_eq!(lock_accounts.vault, before);
}

#[test]
fn lock_moves_exactly_amount_and_keeps_total() {
    let mut accounts = deposit_accounts(owner(), 0);
    deposit(&mut accounts, 0, 100).unwrap();
    let mut lock_accounts = LockCollateral {
        signer: accounts.signer,
        vault_address: accounts.vault_address,
        vault: accounts.vault,
    };
    let r = lock_collateral(&mut lock_accounts, 0, 40);
    assert_eq!(r, Ok(LockEvent { user: owner(), amount: 40, locked_balance: 40 }));
    assert_eq!(lock_accounts.vault.total_balance, 100);
    assert_eq!(lock_accounts.vault.available_balance, 60);
    assert_eq!(lock_accounts.vault.locked_balance, 40);
}

#[test]
fn conservation_holds_after_every_operation() {
    let mut accounts = deposit_accounts(owner(), 3);
    assert!(accounts.vault.check_invariant());
    deposit(&mut accounts, 3, 700).unwrap();
    assert!(accounts.vault.check_invariant());
    let mut lock_accounts = LockCollateral {
        signer: accounts.signer,
        vault_address: accounts.vault_address,
        vault: accounts.vault,
    };
    lock_collateral(&mut lock_accounts, 3, 699).unwrap();
    assert!(lock_accounts.vault.check_invariant());
    lock_collateral(&mut lock_accounts, 3, 1).unwrap();
    assert!(lock_accounts.vault.check_invariant());
    assert_eq!(lock_accounts.vault.total_balance, 700);
    assert_eq!(lock_accounts.vault.available_balance, 0);
    assert_eq!(lock_accounts.vault.locked_balance, 700);
}

#[test]
fn check_invariant_detects_a_broken_record() {
    let (_, mut vault) = fresh_vault(owner(), 0);
    vault.total_balance = 5;
    assert!(!vault.check_invariant());
    vault.available_balance = 3;
    vault.locked_balance = 2;
    assert!(vault.check_invariant());
}

#[test]
fn distinct_indices_never_share_addresses() {
    let (addr_0, nonce_0) = derive_vault_address(owner(), 0);
    let (addr_1, nonce_1) = derive_vault_address(owner(), 1);
    assert_ne!(addr_0, addr_1);
    assert_eq!(nonce_0, nonce_1);
    assert_ne!(derive_token_account_address(&addr_0), derive_token_account_address(&addr_1));
    // The two families of derived addresses never meet either.
    assert_ne!(addr_0, derive_token_account_address(&addr_0));
    // Distinct owners cannot collide at equal indices.
    let (foreign, _) = derive_vault_address(other_owner(), 0);
    assert_ne!(addr_0, foreign);
    // Derivation is reproducible: re-running it gives the same address.
    assert_eq!(derive_vault_address(owner(), 0), (addr_0, nonce_0));
    assert_eq!(addr_0.tag, DomainTag::Vault);
    assert_eq!(derive_token_account_address(&addr_0).tag, DomainTag::TokenAccount);
}

#[test]
fn vaults_with_distinct_indices_are_independent() {
    let mut first = deposit_accounts(owner(), 0);
    let second = deposit_accounts(owner(), 1);
    let second_before = second.vault;
    deposit(&mut first, 0, 500).unwrap();
    assert_eq!(second.vault, second_before);
    assert_eq!(second.vault.total_balance, 0);
    assert_eq!(first.vault.total_balance, 500);
}

#[test]
fn validation_rejects_a_substituted_custody_account() {
    let mut accounts = deposit_accounts(owner(), 0);
    assert!(validate_deposit(&accounts, 0));
    // Point the deposit at the custody sub-account of another ledger.
    let stranger = deposit_accounts(owner(), 1);
    accounts.vault_token_account = stranger.vault.token_account;
    assert!(!validate_deposit(&accounts, 0));
}

#[test]
fn validation_rejects_a_foreign_signer_or_wrong_index() {
    let (vault_address, vault) = fresh_vault(owner(), 2);
    assert!(validate_vault_access(&owner(), &vault_address, &vault, 2));
    assert!(!validate_vault_access(&other_owner(), &vault_address, &vault, 2));
    assert!(!validate_vault_access(&owner(), &vault_address, &vault, 3));
    let lock_accounts = LockCollateral { signer: other_owner(), vault_address, vault };
    assert!(!validate_lock(&lock_accounts, 2));
}

#[test]
fn full_scenario_initialize_deposit_lock() {
    let (vault_address, vault) = fresh_vault(owner(), 0);
    assert_eq!(
        (vault.total_balance, vault.available_balance, vault.locked_balance),
        (0, 0, 0)
    );

    let mut accounts = Deposit {
        signer: owner(),
        vault_address,
        vault,
        vault_token_account: vault.token_account,
    };
    let event = deposit(&mut accounts, 0, 100).unwrap();
    assert_eq!(event, DepositEvent { user: owner(), amount: 100, new_balance: 100 });
    assert_eq!(
        (
            accounts.vault.total_balance,
            accounts.vault.available_balance,
            accounts.vault.locked_balance
        ),
        (100, 100, 0)
    );

    let mut lock_accounts = LockCollateral { signer: owner(), vault_address, vault: accounts.vault };
    let event = lock_collateral(&mut lock_accounts, 0, 40).unwrap();
    assert_eq!(event, LockEvent { user: owner(), amount: 40, locked_balance: 40 });
    assert_eq!(
        (
            lock_accounts.vault.total_balance,
            lock_accounts.vault.available_balance,
            lock_accounts.vault.locked_balance
        ),
        (100, 60, 40)
    );

    let r = lock_collateral(&mut lock_accounts, 0, 61);
    assert_eq!(r, Err(ErrorCode::InsufficientAvailableCollateral));
    assert_eq!(
        (
            lock_accounts.vault.total_balance,
            lock_accounts.vault.available_balance,
            lock_accounts.vault.locked_balance
        ),
        (100, 60, 40)
    );
}
