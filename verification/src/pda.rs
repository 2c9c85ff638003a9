//! Seeds of the programs' derived addresses, and the check that an account
//! sits at the address derived from its seeds.

use anchor_lang::solana_program::pubkey::Pubkey;
use vstd::prelude::*;

use crate::bytes::{key_to_vec, le_bytes, u64_le_bytes, Key};
use crate::errors::ConstraintError;

verus! {

/// The address and bump seed that `Pubkey::try_find_program_address` finds for
/// `seeds` under `program_id`, or `None` when it finds none.
pub uninterp spec fn program_address(seeds: Seq<Seq<u8>>, program_id: Seq<u8>) -> Option<(Seq<u8>, u8)>;

/// Calls `Pubkey::try_find_program_address`, which tries the bump seeds from 255
/// down and returns the first address (hash of the seeds, the bump, the program
/// id and a marker) that is off the ed25519 curve, or `None`. The result depends
/// on the seeds and the program id alone and is only named here.
#[verifier::external_body]
fn find_program_address(seeds: &Vec<Vec<u8>>, program_id: &Key) -> (r: Option<(Key, u8)>)
    ensures
        match r {
            Some((k, b)) => program_address(seed_bytes(seeds@), program_id@) == Some((k@, b)),
            None => program_address(seed_bytes(seeds@), program_id@) is None,
        },
{
    let seeds: Vec<&[u8]> = seeds.iter().map(|s| s.as_slice()).collect();
    Pubkey::try_find_program_address(&seeds, &Pubkey::new_from_array(*program_id)).map(|(k, b)| (k.to_bytes(), b))
}

/// The byte strings of a list of seeds.
pub open spec fn seed_bytes(seeds: Seq<Vec<u8>>) -> Seq<Seq<u8>> {
    Seq::new(seeds.len(), |i: int| seeds[i]@)
}

/// The outcome of a seeds constraint: the bump when the derived address is `key`.
pub open spec fn seeds_outcome(found: Option<(Seq<u8>, u8)>, key: Seq<u8>) -> Result<u8, ConstraintError> {
    match found {
        Some((k, b)) => if k == key { Ok(b) } else { Err(ConstraintError::ConstraintSeeds) },
        None => Err(ConstraintError::ConstraintSeeds),
    }
}

/// Checks a derived address that was found against the account's key.
pub fn check_seeds(found: Option<(Key, u8)>, key: &Key) -> (r: Result<u8, ConstraintError>)
    ensures
        r == seeds_outcome(
            match found { Some((k, b)) => Some((k@, b)), None => None },
            key@,
        ),
{
    match found {
        Some((k, b)) => {
            if crate::bytes::keys_equal(&k, key) {
                Ok(b)
            } else {
                Err(ConstraintError::ConstraintSeeds)
            }
        },
        None => Err(ConstraintError::ConstraintSeeds),
    }
}

/// Derives the address of `seeds` under `program_id` and checks that `key` is it;
/// gives the bump seed.
pub fn verify_derived_address(seeds: &Vec<Vec<u8>>, program_id: &Key, key: &Key) -> (r: Result<u8, ConstraintError>)
    ensures
        r == seeds_outcome(program_address(seed_bytes(seeds@), program_id@), key@),
{
    let found = find_program_address(seeds, program_id);
    check_seeds(found, key)
}

/// ASCII `vault`.
pub open spec fn vault_tag() -> Seq<u8> {
    seq![118u8, 97u8, 117u8, 108u8, 116u8]
}

/// ASCII `vault_treasury`.
pub open spec fn treasury_tag() -> Seq<u8> {
    seq![118u8, 97u8, 117u8, 108u8, 116u8, 95u8, 116u8, 114u8, 101u8, 97u8, 115u8, 117u8, 114u8, 121u8]
}

/// ASCII `user_vault`.
pub open spec fn user_vault_tag() -> Seq<u8> {
    seq![117u8, 115u8, 101u8, 114u8, 95u8, 118u8, 97u8, 117u8, 108u8, 116u8]
}

/// Seeds `["vault", user]`.
pub open spec fn user_vault_authority_seed_list(user: Seq<u8>) -> Seq<Seq<u8>> {
    seq![vault_tag(), user]
}

/// Seeds `["vault", user, vault_id as little-endian bytes]`.
pub open spec fn owned_vault_seed_list(user: Seq<u8>, vault_id: u64) -> Seq<Seq<u8>> {
    seq![vault_tag(), user, le_bytes(vault_id)]
}

/// Seeds `["vault", vault_id as little-endian bytes]`.
pub open spec fn vault_seed_list(vault_id: u64) -> Seq<Seq<u8>> {
    seq![vault_tag(), le_bytes(vault_id)]
}

/// Seeds `["vault_treasury", vault_id as little-endian bytes]`.
pub open spec fn treasury_seed_list(vault_id: u64) -> Seq<Seq<u8>> {
    seq![treasury_tag(), le_bytes(vault_id)]
}

/// Seeds `["user_vault", user, vault]`.
pub open spec fn user_vault_seed_list(user: Seq<u8>, vault: Seq<u8>) -> Seq<Seq<u8>> {
    seq![user_vault_tag(), user, vault]
}

fn vault_tag_bytes() -> (r: Vec<u8>)
    ensures
        r@ == vault_tag(),
{
    let r: Vec<u8> = vec![118u8, 97u8, 117u8, 108u8, 116u8];
    assert(r@ =~= vault_tag());
    r
}

fn treasury_tag_bytes() -> (r: Vec<u8>)
    ensures
        r@ == treasury_tag(),
{
    let r: Vec<u8> = vec![118u8, 97u8, 117u8, 108u8, 116u8, 95u8, 116u8, 114u8, 101u8, 97u8, 115u8, 117u8, 114u8, 121u8];
    assert(r@ =~= treasury_tag());
    r
}

fn user_vault_tag_bytes() -> (r: Vec<u8>)
    ensures
        r@ == user_vault_tag(),
{
    let r: Vec<u8> = vec![117u8, 115u8, 101u8, 114u8, 95u8, 118u8, 97u8, 117u8, 108u8, 116u8];
    assert(r@ =~= user_vault_tag());
    r
}

/// Seeds `["vault", user]` of the USDC vault's authority.
pub fn user_vault_authority_seeds(user: &Key) -> (r: Vec<Vec<u8>>)
    ensures
        seed_bytes(r@) == user_vault_authority_seed_list(user@),
{
    let mut r: Vec<Vec<u8>> = Vec::new();
    r.push(vault_tag_bytes());
    r.push(key_to_vec(user));
    assert(seed_bytes(r@) =~= user_vault_authority_seed_list(user@));
    r
}

/// Seeds `["vault", user, vault_id]` of an owned SOL vault.
pub fn owned_vault_seeds(user: &Key, vault_id: u64) -> (r: Vec<Vec<u8>>)
    ensures
        seed_bytes(r@) == owned_vault_seed_list(user@, vault_id),
{
    let mut r: Vec<Vec<u8>> = Vec::new();
    r.push(vault_tag_bytes());
    r.push(key_to_vec(user));
    r.push(u64_le_bytes(vault_id));
    assert(seed_bytes(r@) =~= owned_vault_seed_list(user@, vault_id));
    r
}

/// Seeds `["vault", vault_id]` of a shared vault.
pub fn vault_seeds(vault_id: u64) -> (r: Vec<Vec<u8>>)
    ensures
        seed_bytes(r@) == vault_seed_list(vault_id),
{
    let mut r: Vec<Vec<u8>> = Vec::new();
    r.push(vault_tag_bytes());
    r.push(u64_le_bytes(vault_id));
    assert(seed_bytes(r@) =~= vault_seed_list(vault_id));
    r
}

/// Seeds `["vault_treasury", vault_id]` of a shared vault's treasury.
pub fn treasury_seeds(vault_id: u64) -> (r: Vec<Vec<u8>>)
    ensures
        seed_bytes(r@) == treasury_seed_list(vault_id),
{
    let mut r: Vec<Vec<u8>> = Vec::new();
    r.push(treasury_tag_bytes());
    r.push(u64_le_bytes(vault_id));
    assert(seed_bytes(r@) =~= treasury_seed_list(vault_id));
    r
}

/// Seeds `["user_vault", user, vault]` of a user's balance in a shared vault.
pub fn user_vault_seeds(user: &Key, vault: &Key) -> (r: Vec<Vec<u8>>)
    ensures
        seed_bytes(r@) == user_vault_seed_list(user@, vault@),
{
    let mut r: Vec<Vec<u8>> = Vec::new();
    r.push(user_vault_tag_bytes());
    r.push(key_to_vec(user));
    r.push(key_to_vec(vault));
    assert(seed_bytes(r@) =~= user_vault_seed_list(user@, vault@));
    r
}

/// The seeds with the bump seed appended, as a derived address signs with them.
pub fn with_bump(seeds: Vec<Vec<u8>>, bump: u8) -> (r: Vec<Vec<u8>>)
    ensures
        seed_bytes(r@) == seed_bytes(seeds@).push(seq![bump]),
{
    let mut r: Vec<Vec<u8>> = seeds;
    let b: Vec<u8> = vec![bump];
    assert(b@ =~= seq![bump]);
    r.push(b);
    assert(seed_bytes(r@) =~= seed_bytes(seeds@).push(seq![bump]));
    r
}

} // verus!

verus! {

/// Different vault ids give different vault seeds and different treasury
/// seeds, and a vault's seeds never equal a treasury's.
pub proof fn shared_vault_seeds_distinct(a: u64, b: u64)
    requires
        a != b,
    ensures
        vault_seed_list(a) != vault_seed_list(b),
        treasury_seed_list(a) != treasury_seed_list(b),
        vault_seed_list(a) != treasury_seed_list(b),
{
    if vault_seed_list(a) == vault_seed_list(b) {
        assert(vault_seed_list(a)[1] == vault_seed_list(b)[1]);
        crate::bytes::le_bytes_injective(a, b);
    }
    if treasury_seed_list(a) == treasury_seed_list(b) {
        assert(treasury_seed_list(a)[1] == treasury_seed_list(b)[1]);
        crate::bytes::le_bytes_injective(a, b);
    }
    assert(vault_seed_list(a)[0].len() != treasury_seed_list(b)[0].len());
}

/// Different (user, vault) pairs give different balance-account seeds.
pub proof fn user_vault_seeds_distinct(u1: Seq<u8>, v1: Seq<u8>, u2: Seq<u8>, v2: Seq<u8>)
    requires
        u1 != u2 || v1 != v2,
    ensures
        user_vault_seed_list(u1, v1) != user_vault_seed_list(u2, v2),
{
    if user_vault_seed_list(u1, v1) == user_vault_seed_list(u2, v2) {
        assert(user_vault_seed_list(u1, v1)[1] == user_vault_seed_list(u2, v2)[1]);
        assert(user_vault_seed_list(u1, v1)[2] == user_vault_seed_list(u2, v2)[2]);
    }
}

/// Different (owner, vault id) pairs give different owned-vault seeds.
pub proof fn owned_vault_seeds_distinct(u1: Seq<u8>, id1: u64, u2: Seq<u8>, id2: u64)
    requires
        u1 != u2 || id1 != id2,
    ensures
        owned_vault_seed_list(u1, id1) != owned_vault_seed_list(u2, id2),
{
    if owned_vault_seed_list(u1, id1) == owned_vault_seed_list(u2, id2) {
        assert(owned_vault_seed_list(u1, id1)[1] == owned_vault_seed_list(u2, id2)[1]);
        assert(owned_vault_seed_list(u1, id1)[2] == owned_vault_seed_list(u2, id2)[2]);
        crate::bytes::le_bytes_injective(id1, id2);
    }
}

/// A seeds constraint accepts an account only at the address found for the
/// seeds, and then gives the bump seed found with it.
pub proof fn seeds_accept_only_derived_address(found: Option<(Seq<u8>, u8)>, key: Seq<u8>, bump: u8)
    ensures
        seeds_outcome(found, key) == Ok::<u8, ConstraintError>(bump) <==> found == Some((key, bump)),
{
}

} // verus!
