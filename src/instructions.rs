//! The five operations: creating a user record, creating the vault, staking,
//! unstaking and settling a bill.
//!
//! Each operation first checks the accounts it was handed: every
//! program-owned account must sit at the address derived for it, and records
//! must carry the bump seed they were created with. The token movement itself
//! is carried out by the host. A stake asks for its transfer first and is
//! committed by `complete_stake` only once the transfer went through. An
//! unstake or a settlement commits the debit and then asks for its transfer;
//! the host aborts the whole operation, debit included, if that transfer fails.

use vstd::prelude::*;

use crate::accounts::{
    StakingError, TokenAccount, TokenTransfer, TransferSigner, UserState, VaultAuthority,
    USER_SEED, VAULT_AUTHORITY_SEED, VAULT_SEED,
};
use crate::address::{
    check_derived, check_derived_with_bump, derive_address, is_derived, is_derived_with_bump,
    program_address, Address,
};

verus! {

/// The accounts for creating a user's stake record.
#[derive(Clone, Copy, Debug)]
pub struct InitializeUser {
    pub program_id: Address,
    /// Where the record is to be created.
    pub user_state_key: Address,
    /// Whether that address is already populated.
    pub user_state_exists: bool,
    /// The user, who pays for and will own the record.
    pub authority: Address,
    pub authority_is_signer: bool,
}

/// The accounts for creating the vault of one mint.
#[derive(Clone, Copy, Debug)]
pub struct InitializeVault {
    pub program_id: Address,
    pub mint: Address,
    pub payer: Address,
    pub payer_is_signer: bool,
    /// Where the vault authority record is to be created.
    pub vault_authority_key: Address,
    pub vault_authority_exists: bool,
    /// Where the vault's token account is to be created.
    pub vault_token_account_key: Address,
    pub vault_token_account_exists: bool,
}

/// A user's side of a stake or an unstake.
#[derive(Clone, Copy, Debug)]
pub struct UserAccounts {
    pub user_state_key: Address,
    pub user_state: UserState,
    /// The user making the call.
    pub authority: Address,
    pub authority_is_signer: bool,
    /// The user's own token account.
    pub user_token_account: TokenAccount,
}

/// The vault's side of an operation.
#[derive(Clone, Copy, Debug)]
pub struct VaultAccounts {
    pub vault_token_account: TokenAccount,
    pub vault_authority_key: Address,
    pub vault_authority: VaultAuthority,
}

/// The accounts for a stake.
#[derive(Clone, Copy, Debug)]
pub struct Stake {
    pub program_id: Address,
    pub mint: Address,
    pub user: UserAccounts,
    pub vault: VaultAccounts,
}

/// The accounts for an unstake.
#[derive(Clone, Copy, Debug)]
pub struct Unstake {
    pub program_id: Address,
    pub mint: Address,
    pub user: UserAccounts,
    pub vault: VaultAccounts,
}

/// The accounts for a settlement.
#[derive(Clone, Copy, Debug)]
pub struct SettleBill {
    pub program_id: Address,
    pub mint: Address,
    pub user_state_key: Address,
    pub user_state: UserState,
    /// The user whose record is debited; they need not sign.
    pub authority: Address,
    pub vault: VaultAccounts,
    /// Where the settled tokens go.
    pub treasury_token_account: TokenAccount,
    /// The signer asking for the settlement.
    pub admin_authority: Address,
    pub admin_is_signer: bool,
    /// The operator recognised as the settlement authority.
    pub settlement_authority: Address,
}

/// The record sits at the address derived from the user tag and `authority`,
/// with the bump seed it records.
pub open spec fn user_record_valid(program_id: Address, key: Address, record: UserState, authority: Address) -> bool {
    is_derived_with_bump(USER_SEED@, authority@, program_id@, key@, record.bump)
}

/// The vault's token account and its authority sit at the addresses derived
/// from their tags and `mint`, the authority with the bump seed it records,
/// and the token account holds tokens of `mint`.
pub open spec fn vault_valid(program_id: Address, mint: Address, vault: VaultAccounts) -> bool {
    &&& is_derived(VAULT_SEED@, mint@, program_id@, vault.vault_token_account.key@)
    &&& vault.vault_token_account.mint@ == mint@
    &&& is_derived_with_bump(
        VAULT_AUTHORITY_SEED@,
        mint@,
        program_id@,
        vault.vault_authority_key@,
        vault.vault_authority.bump,
    )
}

/// The first fault found in a user's accounts, if any.
pub open spec fn user_accounts_error(program_id: Address, mint: Address, user: UserAccounts) -> Option<StakingError> {
    if !user.authority_is_signer {
        Some(StakingError::InvalidAuthority)
    } else if user.user_state.authority@ != user.authority@ {
        Some(StakingError::InvalidAuthority)
    } else if !user_record_valid(program_id, user.user_state_key, user.user_state, user.authority) {
        Some(StakingError::AddressMismatch)
    } else if user.user_token_account.owner@ != user.authority@ {
        Some(StakingError::InvalidAuthority)
    } else if user.user_token_account.mint@ != mint@ {
        Some(StakingError::AddressMismatch)
    } else {
        None
    }
}

/// The first fault found in the accounts of a stake or an unstake, if any.
pub open spec fn accounts_error(program_id: Address, mint: Address, user: UserAccounts, vault: VaultAccounts) -> Option<StakingError> {
    match user_accounts_error(program_id, mint, user) {
        Some(e) => Some(e),
        None => if vault_valid(program_id, mint, vault) {
            None
        } else {
            Some(StakingError::AddressMismatch)
        },
    }
}

/// The first fault found in the accounts of a settlement, if any.
pub open spec fn settle_accounts_error(ctx: SettleBill) -> Option<StakingError> {
    if !ctx.admin_is_signer || ctx.admin_authority@ != ctx.settlement_authority@ {
        Some(StakingError::InvalidAuthority)
    } else if !user_record_valid(ctx.program_id, ctx.user_state_key, ctx.user_state, ctx.authority) {
        Some(StakingError::AddressMismatch)
    } else if ctx.user_state.authority@ != ctx.authority@ {
        Some(StakingError::InvalidAuthorityForState)
    } else if !vault_valid(ctx.program_id, ctx.mint, ctx.vault) {
        Some(StakingError::AddressMismatch)
    } else if ctx.treasury_token_account.mint@ != ctx.mint@ {
        Some(StakingError::AddressMismatch)
    } else {
        None
    }
}

/// The balance after a debit of `amount`, or why the debit is refused.
pub open spec fn debit(staked: u64, amount: u64) -> Result<u64, StakingError> {
    if amount == 0 {
        Err(StakingError::ZeroAmount)
    } else if staked < amount {
        Err(StakingError::InsufficientStake)
    } else {
        Ok((staked - amount) as u64)
    }
}

/// The balance after a deposit of `amount`, or why the deposit is refused.
pub open spec fn credit(staked: u64, amount: u64) -> Result<u64, StakingError> {
    if amount == 0 {
        Err(StakingError::ZeroAmount)
    } else if staked + amount > u64::MAX {
        Err(StakingError::MathOverflow)
    } else {
        Ok((staked + amount) as u64)
    }
}

fn check_vault(program_id: &Address, mint: &Address, vault: &VaultAccounts) -> (r: bool)
    ensures
        r == vault_valid(*program_id, *mint, *vault),
{
    check_derived(VAULT_SEED, mint, program_id, &vault.vault_token_account.key)
        && vault.vault_token_account.mint.same(mint)
        && check_derived_with_bump(
        VAULT_AUTHORITY_SEED,
        mint,
        program_id,
        &vault.vault_authority_key,
        vault.vault_authority.bump,
    )
}

fn check_user_record(program_id: &Address, key: &Address, record: &UserState, authority: &Address) -> (r: bool)
    ensures
        r == user_record_valid(*program_id, *key, *record, *authority),
{
    check_derived_with_bump(USER_SEED, authority, program_id, key, record.bump)
}

fn check_accounts(program_id: &Address, mint: &Address, user: &UserAccounts, vault: &VaultAccounts) -> (r: Option<StakingError>)
    ensures
        r == accounts_error(*program_id, *mint, *user, *vault),
{
    if !user.authority_is_signer {
        Some(StakingError::InvalidAuthority)
    } else if !user.user_state.authority.same(&user.authority) {
        Some(StakingError::InvalidAuthority)
    } else if !check_user_record(program_id, &user.user_state_key, &user.user_state, &user.authority) {
        Some(StakingError::AddressMismatch)
    } else if !user.user_token_account.owner.same(&user.authority) {
        Some(StakingError::InvalidAuthority)
    } else if !user.user_token_account.mint.same(mint) {
        Some(StakingError::AddressMismatch)
    } else if !check_vault(program_id, mint, vault) {
        Some(StakingError::AddressMismatch)
    } else {
        None
    }
}

fn checked_debit(staked: u64, amount: u64) -> (r: Result<u64, StakingError>)
    ensures
        r == debit(staked, amount),
{
    if amount == 0 {
        Err(StakingError::ZeroAmount)
    } else if staked < amount {
        Err(StakingError::InsufficientStake)
    } else {
        match staked.checked_sub(amount) {
            Some(v) => Ok(v),
            None => Err(StakingError::MathOverflow),
        }
    }
}

fn checked_credit(staked: u64, amount: u64) -> (r: Result<u64, StakingError>)
    ensures
        r == credit(staked, amount),
{
    if amount == 0 {
        Err(StakingError::ZeroAmount)
    } else {
        match staked.checked_add(amount) {
            Some(v) => Ok(v),
            None => Err(StakingError::MathOverflow),
        }
    }
}

/// The transfer out of the vault, signed by the vault authority.
pub open spec fn vault_transfer(mint: Address, vault: VaultAccounts, to: Address, amount: u64) -> TokenTransfer {
    TokenTransfer {
        from: vault.vault_token_account.key,
        to,
        signer: TransferSigner::Vault {
            authority: vault.vault_authority_key,
            mint,
            bump: vault.vault_authority.bump,
        },
        amount,
    }
}

/// The outcome of creating a user's stake record from the accounts `ctx`.
pub open spec fn initialize_user_result(ctx: InitializeUser) -> Result<UserState, StakingError> {
    if !ctx.authority_is_signer {
        Err(StakingError::InvalidAuthority)
    } else {
        match program_address(USER_SEED@, ctx.authority@, ctx.program_id@) {
            Some((key, bump)) => if key != ctx.user_state_key@ {
                Err(StakingError::AddressMismatch)
            } else if ctx.user_state_exists {
                Err(StakingError::AlreadyExists)
            } else {
                Ok(UserState { authority: ctx.authority, staked_amount: 0, bump })
            },
            None => Err(StakingError::AddressMismatch),
        }
    }
}

/// Creates the caller's stake record, empty, at the address derived from the
/// user tag and the caller.
pub fn initialize_user(ctx: &InitializeUser) -> (r: Result<UserState, StakingError>)
    ensures
        r == initialize_user_result(*ctx),
        r is Ok <==> ctx.authority_is_signer && is_derived(
            USER_SEED@,
            ctx.authority@,
            ctx.program_id@,
            ctx.user_state_key@,
        ) && !ctx.user_state_exists,
        !ctx.authority_is_signer ==> r == Err::<UserState, StakingError>(StakingError::InvalidAuthority),
        ctx.authority_is_signer && !is_derived(USER_SEED@, ctx.authority@, ctx.program_id@, ctx.user_state_key@)
            ==> r == Err::<UserState, StakingError>(StakingError::AddressMismatch),
        ctx.authority_is_signer && is_derived(USER_SEED@, ctx.authority@, ctx.program_id@, ctx.user_state_key@)
            && ctx.user_state_exists ==> r == Err::<UserState, StakingError>(StakingError::AlreadyExists),
        r matches Ok(s) ==> s.authority == ctx.authority && s.staked_amount == 0
            && user_record_valid(ctx.program_id, ctx.user_state_key, s, ctx.authority),
{
    if !ctx.authority_is_signer {
        return Err(StakingError::InvalidAuthority);
    }
    match derive_address(USER_SEED, &ctx.authority, &ctx.program_id) {
        Some((key, bump)) => {
            if !key.same(&ctx.user_state_key) {
                Err(StakingError::AddressMismatch)
            } else if ctx.user_state_exists {
                Err(StakingError::AlreadyExists)
            } else {
                Ok(UserState { authority: ctx.authority, staked_amount: 0, bump })
            }
        },
        None => Err(StakingError::AddressMismatch),
    }
}

/// Creates the vault authority record of a mint, and describes the vault's
/// token account to be opened: empty, holding that mint, with the vault
/// authority as its owner.
pub fn initialize_vault(ctx: &InitializeVault) -> (r: Result<(VaultAuthority, TokenAccount), StakingError>)
    ensures
        r is Ok <==> ctx.payer_is_signer
            && is_derived(VAULT_AUTHORITY_SEED@, ctx.mint@, ctx.program_id@, ctx.vault_authority_key@)
            && is_derived(VAULT_SEED@, ctx.mint@, ctx.program_id@, ctx.vault_token_account_key@)
            && !ctx.vault_authority_exists && !ctx.vault_token_account_exists,
        !ctx.payer_is_signer ==> r is Err && r->Err_0 == StakingError::InvalidAuthority,
        ctx.payer_is_signer && !(is_derived(VAULT_AUTHORITY_SEED@, ctx.mint@, ctx.program_id@, ctx.vault_authority_key@)
            && is_derived(VAULT_SEED@, ctx.mint@, ctx.program_id@, ctx.vault_token_account_key@))
            ==> r is Err && r->Err_0 == StakingError::AddressMismatch,
        ctx.payer_is_signer
            && is_derived(VAULT_AUTHORITY_SEED@, ctx.mint@, ctx.program_id@, ctx.vault_authority_key@)
            && is_derived(VAULT_SEED@, ctx.mint@, ctx.program_id@, ctx.vault_token_account_key@)
            && (ctx.vault_authority_exists || ctx.vault_token_account_exists)
            ==> r is Err && r->Err_0 == StakingError::AlreadyExists,
        r matches Ok((authority, account)) ==> {
            &&& is_derived_with_bump(
                VAULT_AUTHORITY_SEED@,
                ctx.mint@,
                ctx.program_id@,
                ctx.vault_authority_key@,
                authority.bump,
            )
            &&& account.key == ctx.vault_token_account_key
            &&& account.mint == ctx.mint
            &&& account.owner == ctx.vault_authority_key
            &&& account.amount == 0
        },
{
    if !ctx.payer_is_signer {
        return Err(StakingError::InvalidAuthority);
    }
    let bump = match derive_address(VAULT_AUTHORITY_SEED, &ctx.mint, &ctx.program_id) {
        Some((key, bump)) => {
            if !key.same(&ctx.vault_authority_key) {
                return Err(StakingError::AddressMismatch);
            }
            bump
        },
        None => {
            return Err(StakingError::AddressMismatch);
        },
    };
    if !check_derived(VAULT_SEED, &ctx.mint, &ctx.program_id, &ctx.vault_token_account_key) {
        return Err(StakingError::AddressMismatch);
    }
    if ctx.vault_authority_exists || ctx.vault_token_account_exists {
        return Err(StakingError::AlreadyExists);
    }
    let account = TokenAccount {
        key: ctx.vault_token_account_key,
        mint: ctx.mint,
        owner: ctx.vault_authority_key,
        amount: 0,
    };
    Ok((VaultAuthority { bump }, account))
}

/// Checks a stake of `amount` and returns the transfer from the user's token
/// account into the vault, signed by the user. The record is not touched:
/// `complete_stake` credits it once the transfer went through. A deposit
/// that the balance could not hold is refused before any transfer.
pub fn stake(ctx: &Stake, amount: u64) -> (r: Result<TokenTransfer, StakingError>)
    ensures
        accounts_error(ctx.program_id, ctx.mint, ctx.user, ctx.vault) matches Some(e) ==> r
            == Err::<TokenTransfer, StakingError>(e),
        accounts_error(ctx.program_id, ctx.mint, ctx.user, ctx.vault) is None ==> match credit(
            ctx.user.user_state.staked_amount,
            amount,
        ) {
            Err(e) => r == Err::<TokenTransfer, StakingError>(e),
            Ok(_) => r == Ok::<TokenTransfer, StakingError>(
                (TokenTransfer {
                    from: ctx.user.user_token_account.key,
                    to: ctx.vault.vault_token_account.key,
                    signer: TransferSigner::Owner(ctx.user.authority),
                    amount,
                }),
            ),
        },
{
    if let Some(e) = check_accounts(&ctx.program_id, &ctx.mint, &ctx.user, &ctx.vault) {
        return Err(e);
    }
    match checked_credit(ctx.user.user_state.staked_amount, amount) {
        Err(e) => Err(e),
        Ok(_) => Ok(
            TokenTransfer {
                from: ctx.user.user_token_account.key,
                to: ctx.vault.vault_token_account.key,
                signer: TransferSigner::Owner(ctx.user.authority),
                amount,
            },
        ),
    }
}

/// Credits `amount` to the record once the stake's transfer into the vault is
/// known to have gone through; a failed transfer leaves the record as it was.
pub fn complete_stake(user_state: &mut UserState, amount: u64, transferred: bool) -> (r: Result<(), StakingError>)
    ensures
        !transferred ==> r == Err::<(), StakingError>(StakingError::TransferFailed),
        transferred ==> match credit(old(user_state).staked_amount, amount) {
            Err(e) => r == Err::<(), StakingError>(e),
            Ok(v) => r is Ok && final(user_state).staked_amount == v,
        },
        r is Err ==> *final(user_state) == *old(user_state),
        final(user_state).authority == old(user_state).authority,
        final(user_state).bump == old(user_state).bump,
{
    if !transferred {
        return Err(StakingError::TransferFailed);
    }
    match checked_credit(user_state.staked_amount, amount) {
        Err(e) => Err(e),
        Ok(v) => {
            user_state.staked_amount = v;
            Ok(())
        },
    }
}

/// Debits `amount` from the caller's record and returns the transfer from the
/// vault back to the caller's token account, signed by the vault authority.
pub fn unstake(ctx: &mut Unstake, amount: u64) -> (r: Result<TokenTransfer, StakingError>)
    ensures
        accounts_error(old(ctx).program_id, old(ctx).mint, old(ctx).user, old(ctx).vault) matches Some(e)
            ==> r == Err::<TokenTransfer, StakingError>(e),
        accounts_error(old(ctx).program_id, old(ctx).mint, old(ctx).user, old(ctx).vault) is None ==> match debit(
            old(ctx).user.user_state.staked_amount,
            amount,
        ) {
            Err(e) => r == Err::<TokenTransfer, StakingError>(e),
            Ok(v) => r == Ok::<TokenTransfer, StakingError>(
                vault_transfer(old(ctx).mint, old(ctx).vault, old(ctx).user.user_token_account.key, amount),
            ) && final(ctx).user.user_state.staked_amount == v,
        },
        r is Err ==> *final(ctx) == *old(ctx),
        final(ctx).program_id == old(ctx).program_id,
        final(ctx).mint == old(ctx).mint,
        final(ctx).vault == old(ctx).vault,
        final(ctx).user.user_state_key == old(ctx).user.user_state_key,
        final(ctx).user.authority == old(ctx).user.authority,
        final(ctx).user.authority_is_signer == old(ctx).user.authority_is_signer,
        final(ctx).user.user_token_account == old(ctx).user.user_token_account,
        final(ctx).user.user_state.authority == old(ctx).user.user_state.authority,
        final(ctx).user.user_state.bump == old(ctx).user.user_state.bump,
{
    if let Some(e) = check_accounts(&ctx.program_id, &ctx.mint, &ctx.user, &ctx.vault) {
        return Err(e);
    }
    match checked_debit(ctx.user.user_state.staked_amount, amount) {
        Err(e) => Err(e),
        Ok(v) => {
            ctx.user.user_state.staked_amount = v;
            Ok(
                TokenTransfer {
                    from: ctx.vault.vault_token_account.key,
                    to: ctx.user.user_token_account.key,
                    signer: TransferSigner::Vault {
                        authority: ctx.vault.vault_authority_key,
                        mint: ctx.mint,
                        bump: ctx.vault.vault_authority.bump,
                    },
                    amount,
                },
            )
        },
    }
}

/// Debits `amount` from a user's record on the settlement operator's word and
/// returns the transfer from the vault to the treasury, signed by the vault
/// authority. The user need not sign.
pub fn settle_bill(ctx: &mut SettleBill, amount: u64) -> (r: Result<TokenTransfer, StakingError>)
    ensures
        settle_accounts_error(*old(ctx)) matches Some(e) ==> r == Err::<TokenTransfer, StakingError>(e),
        settle_accounts_error(*old(ctx)) is None ==> match debit(old(ctx).user_state.staked_amount, amount) {
            Err(e) => r == Err::<TokenTransfer, StakingError>(e),
            Ok(v) => r == Ok::<TokenTransfer, StakingError>(
                vault_transfer(old(ctx).mint, old(ctx).vault, old(ctx).treasury_token_account.key, amount),
            ) && final(ctx).user_state.staked_amount == v,
        },
        r is Err ==> *final(ctx) == *old(ctx),
        final(ctx).program_id == old(ctx).program_id,
        final(ctx).mint == old(ctx).mint,
        final(ctx).user_state_key == old(ctx).user_state_key,
        final(ctx).user_state.authority == old(ctx).user_state.authority,
        final(ctx).user_state.bump == old(ctx).user_state.bump,
        final(ctx).authority == old(ctx).authority,
        final(ctx).vault == old(ctx).vault,
        final(ctx).treasury_token_account == old(ctx).treasury_token_account,
        final(ctx).admin_authority == old(ctx).admin_authority,
        final(ctx).admin_is_signer == old(ctx).admin_is_signer,
        final(ctx).settlement_authority == old(ctx).settlement_authority,
{
    if !ctx.admin_is_signer || !ctx.admin_authority.same(&ctx.settlement_authority) {
        return Err(StakingError::InvalidAuthority);
    }
    if !check_user_record(&ctx.program_id, &ctx.user_state_key, &ctx.user_state, &ctx.authority) {
        return Err(StakingError::AddressMismatch);
    }
    if !ctx.user_state.authority.same(&ctx.authority) {
        return Err(StakingError::InvalidAuthorityForState);
    }
    if !check_vault(&ctx.program_id, &ctx.mint, &ctx.vault) {
        return Err(StakingError::AddressMismatch);
    }
    if !ctx.treasury_token_account.mint.same(&ctx.mint) {
        return Err(StakingError::AddressMismatch);
    }
    match checked_debit(ctx.user_state.staked_amount, amount) {
        Err(e) => Err(e),
        Ok(v) => {
            ctx.user_state.staked_amount = v;
            Ok(
                TokenTransfer {
                    from: ctx.vault.vault_token_account.key,
                    to: ctx.treasury_token_account.key,
                    signer: TransferSigner::Vault {
                        authority: ctx.vault.vault_authority_key,
                        mint: ctx.mint,
                        bump: ctx.vault.vault_authority.bump,
                    },
                    amount,
                },
            )
        },
    }
}

} // verus!
