use vstd::prelude::*;

verus! {

/// A 32-byte external identity (a public key), held losslessly as two
/// 128-bit halves so that equality in contracts is structural.
#[derive(Clone, Copy, Debug, PartialEq, Eq, Structural)]
pub struct AccountKey {
    pub hi: u128,
    pub lo: u128,
}

/// The domain tag that keeps the two families of derived addresses apart.
#[derive(Clone, Copy, Debug, PartialEq, Eq, Structural)]
pub enum DomainTag {
    /// The address of a ledger record.
    Vault,
    /// The address of the custody sub-account bound to a ledger.
    TokenAccount,
}

/// A derived address: the image of `(domain tag, owner, vault index)` under
/// a pure, injective derivation. Two addresses are equal exactly when all
/// three inputs are equal, so distinct inputs can never collide.
#[derive(Clone, Copy, Debug, PartialEq, Eq, Structural)]
pub struct Address {
    pub tag: DomainTag,
    pub owner: AccountKey,
    pub vault_id: u8,
}

/// The disambiguation value produced by address derivation. A pure
/// derivation succeeds at its first candidate, so the value is this
/// canonical one; it is stored in the ledger record and re-checked on
/// every later access.
pub const DERIVATION_NONCE: u8 = 255;

/// The ledger address that `(owner, vault_id)` derives to.
pub open spec fn spec_vault_address(owner: AccountKey, vault_id: u8) -> Address {
    Address { tag: DomainTag::Vault, owner, vault_id }
}

/// The custody sub-account address derived from a ledger address.
pub open spec fn spec_token_account_address(vault_address: Address) -> Address {
    Address {
        tag: DomainTag::TokenAccount,
        owner: vault_address.owner,
        vault_id: vault_address.vault_id,
    }
}

/// Derives the ledger address for `(owner, vault_id)` together with the
/// disambiguation nonce proving the derivation succeeded. Re-running it on
/// later accesses reproduces the same address, which is how a
/// caller-presented ledger is validated.
pub fn derive_vault_address(owner: AccountKey, vault_id: u8) -> (r: (Address, u8))
    ensures
        r.0 == spec_vault_address(owner, vault_id),
        r.1 == DERIVATION_NONCE,
{
    (Address { tag: DomainTag::Vault, owner, vault_id }, DERIVATION_NONCE)
}

/// Derives the custody sub-account address bound to a ledger address.
pub fn derive_token_account_address(vault_address: &Address) -> (r: Address)
    ensures
        r == spec_token_account_address(*vault_address),
{
    Address {
        tag: DomainTag::TokenAccount,
        owner: vault_address.owner,
        vault_id: vault_address.vault_id,
    }
}

/// Law: address derivation is injective. Two ledgers agree on their address
/// only if they agree on owner and index, so in particular two ledgers of
/// one owner with different indices never share an address.
pub proof fn lemma_vault_address_injective(o1: AccountKey, i1: u8, o2: AccountKey, i2: u8)
    requires
        spec_vault_address(o1, i1) == spec_vault_address(o2, i2),
    ensures
        o1 == o2,
        i1 == i2,
{
}

/// Law: distinct indices of one owner give distinct ledger addresses and
/// distinct custody sub-account addresses.
pub proof fn lemma_distinct_indices_distinct_addresses(owner: AccountKey, i: u8, j: u8)
    requires
        i != j,
    ensures
        spec_vault_address(owner, i) != spec_vault_address(owner, j),
        spec_token_account_address(spec_vault_address(owner, i))
            != spec_token_account_address(spec_vault_address(owner, j)),
{
}

/// Law: no custody sub-account address ever equals a ledger address; the
/// two families of derived addresses live in disjoint domains.
pub proof fn lemma_token_account_address_never_a_vault_address(
    owner: AccountKey,
    vault_id: u8,
    vault_address: Address,
)
    ensures
        spec_token_account_address(vault_address) != spec_vault_address(owner, vault_id),
{
}

} // verus!
