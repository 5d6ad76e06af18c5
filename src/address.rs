//! Derivation of a record's address from its authority.
use vstd::prelude::*;

verus! {

/// The address and bump that `try_find_program_address` derives from a seed,
/// an authority and a program identity; `None` where no bump gives an address.
pub uninterp spec fn program_address_of(seed: Seq<u8>, authority: Seq<u8>, program_id: Seq<u8>) -> Option<([u8; 32], u8)>;

/// Relies on `Pubkey::try_find_program_address` of anchor_lang (solana-program):
/// the address and bump are a function of the seeds and the program identity,
/// and a failed search returns `None` instead of panicking.
#[verifier::external_body]
fn try_find_program_address(seed: &[u8], authority: &[u8; 32], program_id: &[u8; 32]) -> (r: Option<([u8; 32], u8)>)
    ensures
        r == program_address_of(seed@, authority@, program_id@),
{
    let program = anchor_lang::prelude::Pubkey::new_from_array(*program_id);
    anchor_lang::prelude::Pubkey::try_find_program_address(&[seed, &authority[..]], &program)
        .map(|(address, bump)| (address.to_bytes(), bump))
}

/// The domain tag of a record's address: the bytes of "user-account".
pub open spec fn user_account_seed() -> Seq<u8> {
    seq![117u8, 115u8, 101u8, 114u8, 45u8, 97u8, 99u8, 99u8, 111u8, 117u8, 110u8, 116u8]
}

fn user_account_seed_bytes() -> (r: [u8; 12])
    ensures
        r@ == user_account_seed(),
{
    let r: [u8; 12] = [117, 115, 101, 114, 45, 97, 99, 99, 111, 117, 110, 116];
    assert(r@ =~= user_account_seed());
    r
}

/// Where the record of `authority` lives, with its bump, if an address exists.
pub open spec fn user_account_address(authority: Seq<u8>, program_id: Seq<u8>) -> Option<([u8; 32], u8)> {
    program_address_of(user_account_seed(), authority, program_id)
}

/// `key` is the address derived for `authority`.
pub open spec fn is_user_account_address(key: Seq<u8>, authority: Seq<u8>, program_id: Seq<u8>) -> bool {
    match user_account_address(authority, program_id) {
        Some(p) => p.0@ == key,
        None => false,
    }
}

/// Derives the address of the record that belongs to `authority`.
pub fn find_user_account_address(authority: &[u8; 32], program_id: &[u8; 32]) -> (r: Option<([u8; 32], u8)>)
    ensures
        r == user_account_address(authority@, program_id@),
{
    let seed = user_account_seed_bytes();
    try_find_program_address(seed.as_slice(), authority, program_id)
}

/// Whether two identities are the same bytes.
pub fn same_key(a: &[u8; 32], b: &[u8; 32]) -> (r: bool)
    ensures
        r == (a@ == b@),
{
    let mut i: usize = 0;
    while i < 32
        invariant
            0 <= i <= 32,
            a@.len() == 32,
            b@.len() == 32,
            forall|j: int| 0 <= j < i ==> a@[j] == b@[j],
        decreases 32 - i,
    {
        if a[i] != b[i] {
            assert(a@[i as int] != b@[i as int]);
            return false;
        }
        i = i + 1;
    }
    assert(a@ =~= b@);
    true
}

/// Whether `key` is the address derived for `authority`: the check that
/// stands in for an ownership test on every operation.
pub fn check_user_account_address(key: &[u8; 32], authority: &[u8; 32], program_id: &[u8; 32]) -> (r: bool)
    ensures
        r == is_user_account_address(key@, authority@, program_id@),
{
    match find_user_account_address(authority, program_id) {
        Some(p) => same_key(&p.0, key),
        None => false,
    }
}

} // verus!
