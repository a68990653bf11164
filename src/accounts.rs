//! The records the program keeps, the token accounts it reads, and its errors.

use vstd::prelude::*;

use crate::address::Address;

verus! {

/// Namespace tag of each user's stake record.
pub const USER_SEED: &'static str = "user_state";

/// Namespace tag of the vault's token account.
pub const VAULT_SEED: &'static str = "vault_tokens";

/// Namespace tag of the vault's signing authority.
pub const VAULT_AUTHORITY_SEED: &'static str = "vault_authority";

/// Size in bytes of a stored user record: type tag, owner, balance, bump seed.
pub const USER_STATE_SPACE: usize = 49;

/// Size in bytes of a stored vault authority record: type tag, bump seed.
pub const VAULT_AUTHORITY_SPACE: usize = 9;

/// One user's stake record.
#[derive(Clone, Copy, Debug)]
pub struct UserState {
    /// The user who owns the record and may deposit into and withdraw from it.
    pub authority: Address,
    /// The amount held in the vault on the user's behalf.
    pub staked_amount: u64,
    /// The bump seed of the record's derived address, fixed at creation.
    pub bump: u8,
}

/// The record of the vault's signing authority: a derived address with no
/// private key, which alone may move tokens out of the vault.
#[derive(Clone, Copy, Debug, PartialEq, Eq, Structural)]
pub struct VaultAuthority {
    /// The bump seed of the authority's derived address, fixed at creation.
    pub bump: u8,
}

/// What the program reads of a token account.
#[derive(Clone, Copy, Debug)]
pub struct TokenAccount {
    /// The account's address.
    pub key: Address,
    /// The mint of the tokens it holds.
    pub mint: Address,
    /// Who may move tokens out of it.
    pub owner: Address,
    /// Its balance.
    pub amount: u64,
}

/// Why an operation was refused.
#[derive(Clone, Copy, Debug, PartialEq, Eq, Structural)]
pub enum StakingError {
    /// The record holds less than the amount asked for.
    InsufficientStake,
    /// The new balance would not fit in 64 bits.
    MathOverflow,
    /// The signer is not the record's owner, or not the settlement operator.
    InvalidAuthority,
    /// The user named for a settlement is not the owner of the record given.
    InvalidAuthorityForState,
    /// The amount is zero.
    ZeroAmount,
    /// An account is not at the address derived for it, or holds other tokens.
    AddressMismatch,
    /// The account to create is already populated.
    AlreadyExists,
    /// The token transfer was rejected.
    TransferFailed,
}

/// Who signs a token transfer.
#[derive(Clone, Copy, Debug)]
pub enum TransferSigner {
    /// The user, with their own signature.
    Owner(Address),
    /// The vault authority, by its derived address: the seeds are the vault
    /// authority tag, the mint and the recorded bump seed.
    Vault { authority: Address, mint: Address, bump: u8 },
}

/// A token transfer that the host is to carry out.
#[derive(Clone, Copy, Debug)]
pub struct TokenTransfer {
    pub from: Address,
    pub to: Address,
    pub signer: TransferSigner,
    pub amount: u64,
}

impl UserState {
    /// The size in bytes of a stored user record.
    pub fn space() -> (r: usize)
        ensures
            r == 8 + 32 + 8 + 1,
    {
        USER_STATE_SPACE
    }
}

impl VaultAuthority {
    /// The size in bytes of a stored vault authority record.
    pub fn space() -> (r: usize)
        ensures
            r == 8 + 1,
    {
        VAULT_AUTHORITY_SPACE
    }
}

} // verus!
