//! The ledger as a whole: every user's balance for one mint against what the
//! vault holds, and the laws that relate the operations to it.

use vstd::prelude::*;

use crate::accounts::{StakingError, UserState};
use crate::instructions::{credit, debit, initialize_user_result, InitializeUser};

verus! {

/// One operation on the ledger, with whether the host carried out its
/// transfer. An operation whose transfer failed is aborted as a whole.
pub enum LedgerOp {
    Stake { user: nat, amount: u64, transferred: bool },
    Unstake { user: nat, amount: u64, transferred: bool },
    Settle { user: nat, amount: u64, transferred: bool },
}

/// The sum of all balances.
pub open spec fn total(stakes: Seq<u64>) -> int
    decreases stakes.len(),
{
    if stakes.len() == 0 {
        0
    } else {
        total(stakes.drop_last()) + stakes.last()
    }
}

/// The balances and the vault's holdings after `op`. A stake credits the
/// balance as `complete_stake` does and moves `amount` into the vault; an
/// unstake or a settlement debits it as `unstake` and `settle_bill` do and
/// moves `amount` out of the vault. A refused or aborted operation changes
/// nothing.
pub open spec fn apply(stakes: Seq<u64>, vault: int, op: LedgerOp) -> (Seq<u64>, int) {
    match op {
        LedgerOp::Stake { user, amount, transferred } => if user < stakes.len() && transferred {
            match credit(stakes[user as int], amount) {
                Ok(v) => (stakes.update(user as int, v), vault + amount),
                Err(_) => (stakes, vault),
            }
        } else {
            (stakes, vault)
        },
        LedgerOp::Unstake { user, amount, transferred } | LedgerOp::Settle { user, amount, transferred } =>
            if user < stakes.len() && transferred {
            match debit(stakes[user as int], amount) {
                Ok(v) => (stakes.update(user as int, v), vault - amount),
                Err(_) => (stakes, vault),
            }
        } else {
            (stakes, vault)
        },
    }
}

/// The balances and the vault's holdings after each of `ops` in turn.
pub open spec fn run(stakes: Seq<u64>, vault: int, ops: Seq<LedgerOp>) -> (Seq<u64>, int)
    decreases ops.len(),
{
    if ops.len() == 0 {
        (stakes, vault)
    } else {
        let (s, v) = run(stakes, vault, ops.drop_last());
        apply(s, v, ops.last())
    }
}

proof fn lemma_total_nonnegative(stakes: Seq<u64>)
    ensures
        total(stakes) >= 0,
    decreases stakes.len(),
{
    if stakes.len() > 0 {
        lemma_total_nonnegative(stakes.drop_last());
    }
}

proof fn lemma_total_update(stakes: Seq<u64>, i: int, v: u64)
    requires
        0 <= i < stakes.len(),
    ensures
        total(stakes.update(i, v)) == total(stakes) - stakes[i] + v,
    decreases stakes.len(),
{
    let u = stakes.update(i, v);
    if i == stakes.len() - 1 {
        assert(u.drop_last() =~= stakes.drop_last());
    } else {
        assert(u.drop_last() =~= stakes.drop_last().update(i, v));
        lemma_total_update(stakes.drop_last(), i, v);
    }
}

/// Conservation: whatever operations run, in whatever order and on whichever
/// users, the sum of all balances never exceeds what the vault holds, and
/// never goes below zero.
pub proof fn lemma_vault_covers_stakes(stakes: Seq<u64>, vault: int, ops: Seq<LedgerOp>)
    requires
        total(stakes) <= vault,
    ensures
        0 <= total(run(stakes, vault, ops).0),
        total(run(stakes, vault, ops).0) <= run(stakes, vault, ops).1,
    decreases ops.len(),
{
    let (s1, v1) = run(stakes, vault, ops);
    lemma_total_nonnegative(s1);
    if ops.len() > 0 {
        lemma_vault_covers_stakes(stakes, vault, ops.drop_last());
        let (s, v) = run(stakes, vault, ops.drop_last());
        match ops.last() {
            LedgerOp::Stake { user, amount, transferred } => {
                if user < s.len() && transferred {
                    if let Ok(n) = credit(s[user as int], amount) {
                        lemma_total_update(s, user as int, n);
                    }
                }
            },
            LedgerOp::Unstake { user, amount, transferred } | LedgerOp::Settle { user, amount, transferred } => {
                if user < s.len() && transferred {
                    if let Ok(n) = debit(s[user as int], amount) {
                        lemma_total_update(s, user as int, n);
                    }
                }
            },
        }
    }
}

/// A record just created holds nothing, and a first stake of `amount > 0`
/// whose transfer went through leaves it holding exactly `amount`, with the
/// vault holding exactly `amount` more.
pub proof fn lemma_first_stake(ctx: InitializeUser, stakes: Seq<u64>, vault: int, user: nat, amount: u64)
    requires
        initialize_user_result(ctx) is Ok,
        user < stakes.len(),
        stakes[user as int] == initialize_user_result(ctx)->Ok_0.staked_amount,
        amount > 0,
    ensures
        apply(stakes, vault, LedgerOp::Stake { user, amount, transferred: true }) == (
            stakes.update(user as int, amount),
            vault + amount,
        ),
{
}

/// Creating a user's record a second time, once the first has created it,
/// fails with `AlreadyExists`.
pub proof fn lemma_initialize_once(ctx: InitializeUser)
    requires
        initialize_user_result(ctx) is Ok,
    ensures
        initialize_user_result(InitializeUser { user_state_exists: true, ..ctx }) == Err::<UserState, StakingError>(
            StakingError::AlreadyExists,
        ),
{
}

} // verus!
