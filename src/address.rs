//! Account addresses and program-derived addresses.

use vstd::prelude::*;

verus! {

/// A 32-byte account address.
#[derive(Clone, Copy, Debug)]
pub struct Address {
    pub bytes: [u8; 32],
}

impl View for Address {
    type V = Seq<u8>;

    open spec fn view(&self) -> Seq<u8> {
        self.bytes@
    }
}

impl Address {
    /// True exactly when both addresses hold the same bytes.
    pub fn same(&self, other: &Address) -> (r: bool)
        ensures
            r == (self@ == other@),
    {
        let mut i: usize = 0;
        while i < 32
            invariant
                i <= 32,
                self.bytes@.len() == 32,
                other.bytes@.len() == 32,
                forall|j: int| 0 <= j < i ==> self.bytes@[j] == other.bytes@[j],
            decreases 32 - i,
        {
            if self.bytes[i] != other.bytes[i] {
                return false;
            }
            i = i + 1;
        }
        assert(self@ =~= other@);
        true
    }
}

/// The address and bump seed found by searching for a program-derived address
/// from the seeds `[tag, key]` under `program_id`, or `None` when no bump seed
/// gives an address off the curve.
pub uninterp spec fn program_address(tag: Seq<char>, key: Seq<u8>, program_id: Seq<u8>) -> Option<(Seq<u8>, u8)>;

/// Relies on `Pubkey::try_find_program_address` from solana-program: off-chain
/// it hashes the seeds, the bump seed and the program id, searching bump seeds
/// from 255 down, and returns the first address that is off the curve, or
/// `None`. Its result depends on the seeds and the program id alone.
#[verifier::external_body]
fn find_program_address(tag: &str, key: &Address, program_id: &Address) -> (r: Option<(Address, u8)>)
    ensures
        match r {
            Some((a, b)) => program_address(tag@, key@, program_id@) == Some((a@, b)),
            None => program_address(tag@, key@, program_id@) is None,
        },
{
    let program = anchor_lang::prelude::Pubkey::new_from_array(program_id.bytes);
    anchor_lang::prelude::Pubkey::try_find_program_address(&[tag.as_bytes(), &key.bytes], &program)
        .map(|(a, b)| (Address { bytes: a.to_bytes() }, b))
}

/// True exactly when `account` is the program-derived address of `[tag, key]`
/// under `program_id`.
pub open spec fn is_derived(tag: Seq<char>, key: Seq<u8>, program_id: Seq<u8>, account: Seq<u8>) -> bool {
    match program_address(tag, key, program_id) {
        Some((a, _)) => a == account,
        None => false,
    }
}

/// True exactly when `account` is the program-derived address of `[tag, key]`
/// under `program_id` and `bump` is its bump seed.
pub open spec fn is_derived_with_bump(
    tag: Seq<char>,
    key: Seq<u8>,
    program_id: Seq<u8>,
    account: Seq<u8>,
    bump: u8,
) -> bool {
    program_address(tag, key, program_id) == Some((account, bump))
}

/// Recomputes the program-derived address of `[tag, key]` and tells whether it
/// is `account`.
pub fn check_derived(tag: &str, key: &Address, program_id: &Address, account: &Address) -> (r: bool)
    ensures
        r == is_derived(tag@, key@, program_id@, account@),
{
    match find_program_address(tag, key, program_id) {
        Some((a, _)) => a.same(account),
        None => false,
    }
}

/// Recomputes the program-derived address of `[tag, key]` and tells whether it
/// is `account` with the recorded bump seed `bump`.
pub fn check_derived_with_bump(tag: &str, key: &Address, program_id: &Address, account: &Address, bump: u8) -> (r: bool)
    ensures
        r == is_derived_with_bump(tag@, key@, program_id@, account@, bump),
{
    match find_program_address(tag, key, program_id) {
        Some((a, b)) => a.same(account) && b == bump,
        None => false,
    }
}

/// Derives the address and bump seed of `[tag, key]` under `program_id`.
pub fn derive_address(tag: &str, key: &Address, program_id: &Address) -> (r: Option<(Address, u8)>)
    ensures
        match r {
            Some((a, b)) => program_address(tag@, key@, program_id@) == Some((a@, b)),
            None => program_address(tag@, key@, program_id@) is None,
        },
{
    find_program_address(tag, key, program_id)
}

} // verus!
