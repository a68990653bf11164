use samachi_staking::accounts::{
    StakingError, TokenAccount, TokenTransfer, TransferSigner, UserState, VaultAuthority,
    USER_SEED, VAULT_AUTHORITY_SEED, VAULT_SEED,
};
use samachi_staking::address::{check_derived, check_derived_with_bump, derive_address, Address};
use samachi_staking::instructions::{
    complete_stake, initialize_user, initialize_vault, settle_bill, stake, unstake, InitializeUser,
    InitializeVault, SettleBill, Stake, Unstake, UserAccounts, VaultAccounts,
};

fn addr(b: u8) -> Address {
    Address { bytes: [b; 32] }
}

fn program() -> Address {
    addr(7)
}

fn mint() -> Address {
    addr(9)
}

fn operator() -> Address {
    addr(200)
}

fn treasury() -> TokenAccount {
    TokenAccount { key: addr(201), mint: mint(), owner: operator(), amount: 0 }
}

fn derived(tag: &str, key: Address) -> (Address, u8) {
    derive_address(tag, &key, &program()).expect("a bump seed exists")
}

fn vault() -> VaultAccounts {
    let (token_key, _) = derived(VAULT_SEED, mint());
    let (authority_key, bump) = derived(VAULT_AUTHORITY_SEED, mint());
    VaultAccounts {
        vault_token_account: TokenAccount { key: token_key, mint: mint(), owner: authority_key, amount: 0 },
        vault_authority_key: authority_key,
        vault_authority: VaultAuthority { bump },
    }
}

fn init_ctx(user: Address) -> InitializeUser {
    let (key, _) = derived(USER_SEED, user);
    InitializeUser { program_id: program(), user_state_key: key, user_state_exists: false, authority: user, authority_is_signer: true }
}

fn new_user(user: Address) -> UserState {
    initialize_user(&init_ctx(user)).expect("record created")
}

fn user_side(user: Address, state: UserState) -> UserAccounts {
    let (key, _) = derived(USER_SEED, state.authority);
    UserAccounts {
        user_state_key: key,
        user_state: state,
        authority: user,
        authority_is_signer: true,
        user_token_account: TokenAccount { key: addr(user.bytes[0].wrapping_add(100)), mint: mint(), owner: user, amount: 1000 },
    }
}

fn stake_ctx(user: Address, state: UserState) -> Stake {
    Stake { program_id: program(), mint: mint(), user: user_side(user, state), vault: vault() }
}

fn unstake_ctx(user: Address, state: UserState) -> Unstake {
    Unstake { program_id: program(), mint: mint(), user: user_side(user, state), vault: vault() }
}

fn settle_ctx(target: Address, state: UserState, admin: Address) -> SettleBill {
    let (key, _) = derived(USER_SEED, target);
    SettleBill {
        program_id: program(),
        mint: mint(),
        user_state_key: key,
        user_state: state,
        authority: target,
        vault: vault(),
        treasury_token_account: treasury(),
        admin_authority: admin,
        admin_is_signer: true,
        settlement_authority: operator(),
    }
}

/// Stakes `amount` as the host would: plan, transfer, commit.
fn do_stake(user: Address, state: &mut UserState, amount: u64) -> Result<TokenTransfer, StakingError> {
    let t = stake(&stake_ctx(user, *state), amount)?;
    complete_stake(state, amount, true)?;
    Ok(t)
}

#[test]
fn derived_addresses_differ_by_tag_and_key() {
    let a = addr(1);
    let (user_key, user_bump) = derived(USER_SEED, a);
    let (vault_key, _) = derived(VAULT_SEED, a);
    let (other_key, _) = derived(USER_SEED, addr(2));
    assert_ne!(user_key.bytes, a.bytes);
    assert_ne!(user_key.bytes, vault_key.bytes);
    assert_ne!(user_key.bytes, other_key.bytes);
    let (again, again_bump) = derived(USER_SEED, a);
    assert_eq!(again.bytes, user_key.bytes);
    assert_eq!(again_bump, user_bump);
    assert!(check_derived(USER_SEED, &a, &program(), &user_key));
    assert!(!check_derived(USER_SEED, &a, &program(), &vault_key));
    assert!(check_derived_with_bump(USER_SEED, &a, &program(), &user_key, user_bump));
    assert!(!check_derived_with_bump(USER_SEED, &a, &program(), &user_key, user_bump.wrapping_sub(1)));
}

#[test]
fn address_same() {
    assert!(addr(3).same(&addr(3)));
    let mut b = addr(3);
    b.bytes[31] = 4;
    assert!(!addr(3).same(&b));
}

#[test]
fn record_sizes() {
    assert_eq!(UserState::space(), 49);
    assert_eq!(VaultAuthority::space(), 9);
}

#[test]
fn initialize_user_creates_empty_record() {
    let a = addr(1);
    let s = new_user(a);
    assert_eq!(s.authority.bytes, a.bytes);
    assert_eq!(s.staked_amount, 0);
    assert_eq!(s.bump, derived(USER_SEED, a).1);
}

#[test]
fn initialize_user_twice_fails() {
    let a = addr(1);
    assert!(initialize_user(&init_ctx(a)).is_ok());
    let mut again = init_ctx(a);
    again.user_state_exists = true;
    assert_eq!(initialize_user(&again).unwrap_err(), StakingError::AlreadyExists);
}

#[test]
fn initialize_user_checks_signer_and_address() {
    let mut ctx = init_ctx(addr(1));
    ctx.authority_is_signer = false;
    assert_eq!(initialize_user(&ctx).unwrap_err(), StakingError::InvalidAuthority);
    let mut ctx = init_ctx(addr(1));
    ctx.user_state_key = addr(55);
    assert_eq!(initialize_user(&ctx).unwrap_err(), StakingError::AddressMismatch);
}

fn vault_ctx() -> InitializeVault {
    let v = vault();
    InitializeVault {
        program_id: program(),
        mint: mint(),
        payer: addr(1),
        payer_is_signer: true,
        vault_authority_key: v.vault_authority_key,
        vault_authority_exists: false,
        vault_token_account_key: v.vault_token_account.key,
        vault_token_account_exists: false,
    }
}

#[test]
fn initialize_vault_sets_authority() {
    let ctx = vault_ctx();
    let (authority, account) = initialize_vault(&ctx).unwrap();
    assert_eq!(authority.bump, vault().vault_authority.bump);
    assert_eq!(account.key.bytes, ctx.vault_token_account_key.bytes);
    assert_eq!(account.owner.bytes, ctx.vault_authority_key.bytes);
    assert_eq!(account.mint.bytes, mint().bytes);
    assert_eq!(account.amount, 0);
}

#[test]
fn initialize_vault_errors() {
    let mut ctx = vault_ctx();
    ctx.vault_authority_exists = true;
    assert_eq!(initialize_vault(&ctx).unwrap_err(), StakingError::AlreadyExists);
    let mut ctx = vault_ctx();
    ctx.vault_token_account_key = ctx.vault_authority_key;
    assert_eq!(initialize_vault(&ctx).unwrap_err(), StakingError::AddressMismatch);
    let mut ctx = vault_ctx();
    ctx.payer_is_signer = false;
    assert_eq!(initialize_vault(&ctx).unwrap_err(), StakingError::InvalidAuthority);
}

#[test]
fn first_stake_sets_balance_and_moves_amount_into_vault() {
    let a = addr(1);
    let mut s = new_user(a);
    let t = do_stake(a, &mut s, 500).unwrap();
    assert_eq!(s.staked_amount, 500);
    assert_eq!(t.amount, 500);
    assert_eq!(t.to.bytes, vault().vault_token_account.key.bytes);
    assert_eq!(t.from.bytes, addr(101).bytes);
    match t.signer {
        TransferSigner::Owner(o) => assert_eq!(o.bytes, a.bytes),
        TransferSigner::Vault { .. } => panic!("a stake is signed by the user"),
    }
}

#[test]
fn zero_amounts_are_refused() {
    let a = addr(1);
    let mut s = new_user(a);
    do_stake(a, &mut s, 10).unwrap();
    assert_eq!(stake(&stake_ctx(a, s), 0).unwrap_err(), StakingError::ZeroAmount);
    let mut u = unstake_ctx(a, s);
    assert_eq!(unstake(&mut u, 0).unwrap_err(), StakingError::ZeroAmount);
    assert_eq!(u.user.user_state.staked_amount, 10);
    let mut c = settle_ctx(a, s, operator());
    assert_eq!(settle_bill(&mut c, 0).unwrap_err(), StakingError::ZeroAmount);
    assert_eq!(c.user_state.staked_amount, 10);
}

#[test]
fn unstake_by_another_user_is_refused() {
    let a = addr(1);
    let b = addr(2);
    let mut s = new_user(a);
    do_stake(a, &mut s, 10).unwrap();
    let mut u = unstake_ctx(b, s);
    assert_eq!(unstake(&mut u, 5).unwrap_err(), StakingError::InvalidAuthority);
    assert_eq!(u.user.user_state.staked_amount, 10);
    let mut u = unstake_ctx(a, s);
    u.user.authority_is_signer = false;
    assert_eq!(unstake(&mut u, 5).unwrap_err(), StakingError::InvalidAuthority);
}

#[test]
fn settle_by_unrecognised_operator_is_refused() {
    let a = addr(1);
    let mut s = new_user(a);
    do_stake(a, &mut s, 10).unwrap();
    let mut c = settle_ctx(a, s, addr(99));
    assert_eq!(settle_bill(&mut c, 5).unwrap_err(), StakingError::InvalidAuthority);
    let mut c = settle_ctx(a, s, operator());
    c.admin_is_signer = false;
    assert_eq!(settle_bill(&mut c, 5).unwrap_err(), StakingError::InvalidAuthority);
    assert_eq!(c.user_state.staked_amount, 10);
}

#[test]
fn settle_for_wrong_user_is_refused() {
    let a = addr(1);
    let b = addr(2);
    let s = new_user(a);
    let mut c = settle_ctx(a, s, operator());
    c.authority = b;
    c.user_state_key = derived(USER_SEED, b).0;
    c.user_state.bump = derived(USER_SEED, b).1;
    assert_eq!(settle_bill(&mut c, 5).unwrap_err(), StakingError::InvalidAuthorityForState);
}

#[test]
fn substituted_vault_is_refused() {
    let a = addr(1);
    let s = new_user(a);
    let mut ctx = stake_ctx(a, s);
    ctx.vault.vault_token_account.key = addr(77);
    assert_eq!(stake(&ctx, 5).unwrap_err(), StakingError::AddressMismatch);
    let mut ctx = stake_ctx(a, s);
    ctx.user.user_state.bump = ctx.user.user_state.bump.wrapping_sub(1);
    assert_eq!(stake(&ctx, 5).unwrap_err(), StakingError::AddressMismatch);
    let mut ctx = stake_ctx(a, s);
    ctx.user.user_token_account.mint = addr(10);
    assert_eq!(stake(&ctx, 5).unwrap_err(), StakingError::AddressMismatch);
}

#[test]
fn stake_overflow_is_refused_before_transfer() {
    let a = addr(1);
    let mut s = new_user(a);
    do_stake(a, &mut s, u64::MAX - 5).unwrap();
    assert_eq!(stake(&stake_ctx(a, s), 6).unwrap_err(), StakingError::MathOverflow);
    assert_eq!(complete_stake(&mut s, 6, true).unwrap_err(), StakingError::MathOverflow);
    assert_eq!(s.staked_amount, u64::MAX - 5);
    assert!(stake(&stake_ctx(a, s), 5).is_ok());
}

#[test]
fn failed_stake_transfer_leaves_record() {
    let a = addr(1);
    let mut s = new_user(a);
    assert!(stake(&stake_ctx(a, s), 5).is_ok());
    assert_eq!(complete_stake(&mut s, 5, false).unwrap_err(), StakingError::TransferFailed);
    assert_eq!(s.staked_amount, 0);
}

#[test]
fn stake_unstake_settle_scenario() {
    let a = addr(1);
    let mut s = new_user(a);
    let mut vault_balance: u64 = 0;
    let mut user_balance: u64 = 1000;
    let mut treasury_balance: u64 = 0;

    for amount in [100u64, 50] {
        let t = do_stake(a, &mut s, amount).unwrap();
        user_balance -= t.amount;
        vault_balance += t.amount;
    }
    assert_eq!(s.staked_amount, 150);

    let mut u = unstake_ctx(a, s);
    let t = unstake(&mut u, 30).unwrap();
    assert_eq!(t.from.bytes, vault().vault_token_account.key.bytes);
    assert_eq!(t.to.bytes, u.user.user_token_account.key.bytes);
    match t.signer {
        TransferSigner::Vault { authority, mint: m, bump } => {
            assert_eq!(authority.bytes, vault().vault_authority_key.bytes);
            assert_eq!(m.bytes, mint().bytes);
            assert_eq!(bump, vault().vault_authority.bump);
        }
        TransferSigner::Owner(_) => panic!("the vault signs an unstake"),
    }
    vault_balance -= t.amount;
    user_balance += t.amount;
    s = u.user.user_state;
    assert_eq!(s.staked_amount, 120);
    assert_eq!(user_balance, 1000 - 150 + 30);

    let mut c = settle_ctx(a, s, operator());
    let t = settle_bill(&mut c, 20).unwrap();
    assert_eq!(t.to.bytes, treasury().key.bytes);
    assert_eq!(t.amount, 20);
    vault_balance -= t.amount;
    treasury_balance += t.amount;
    s = c.user_state;
    assert_eq!(s.staked_amount, 100);
    assert_eq!(treasury_balance, 20);

    let mut u = unstake_ctx(a, s);
    assert_eq!(unstake(&mut u, 150).unwrap_err(), StakingError::InsufficientStake);
    assert_eq!(u.user.user_state.staked_amount, 100);
    assert_eq!(vault_balance, 100);
}

#[test]
fn vault_covers_stakes_of_several_users() {
    let users = [addr(1), addr(2), addr(3)];
    let mut states: Vec<UserState> = users.iter().map(|u| new_user(*u)).collect();
    let mut vault_balance: u64 = 0;
    let steps: [(usize, u8, u64); 8] =
        [(0, 0, 40), (1, 0, 70), (0, 1, 15), (2, 0, 5), (1, 2, 70), (2, 1, 6), (0, 2, 25), (1, 1, 1)];
    for (i, kind, amount) in steps {
        let u = users[i];
        match kind {
            0 => {
                if let Ok(t) = do_stake(u, &mut states[i], amount) {
                    vault_balance += t.amount;
                }
            }
            1 => {
                let mut ctx = unstake_ctx(u, states[i]);
                if let Ok(t) = unstake(&mut ctx, amount) {
                    vault_balance -= t.amount;
                }
                states[i] = ctx.user.user_state;
            }
            _ => {
                let mut ctx = settle_ctx(u, states[i], operator());
                if let Ok(t) = settle_bill(&mut ctx, amount) {
                    vault_balance -= t.amount;
                }
                states[i] = ctx.user_state;
            }
        }
        let total: u64 = states.iter().map(|s| s.staked_amount).sum();
        assert!(total <= vault_balance);
    }
    let balances: Vec<u64> = states.iter().map(|s| s.staked_amount).collect();
    assert_eq!(balances, vec![0, 0, 5]);
    assert_eq!(vault_balance, 5);
}
