//! Derived addresses.
//!
//! Every record of this program lives at an address computed from a list of
//! seeds and the program's identity. The computation itself belongs to the
//! ledger's runtime; this module fixes which seeds locate which record.

use crate::pubkey::Pubkey;
use vstd::prelude::*;
use vstd::string::StringSliceAdditionalSpecFns;
use vstd::string::StrSliceExecFns;

verus! {

/// Longest seed, in bytes, for which an address can be derived.
pub const MAX_SEED_LEN: usize = 32;

/// The bytes of this program's identity, which enters every derivation.
pub const ID_BYTES: [u8; 32] = [
    44, 229, 164, 222, 176, 163, 0, 94, 184, 188, 100, 237, 245, 171, 155, 137,
    45, 180, 252, 238, 16, 50, 37, 186, 209, 227, 249, 187, 60, 234, 2, 173,
];

/// The address and the canonical bump seed that the runtime derives from
/// `seeds` for the program `program_id`, or `None` where it derives none.
pub uninterp spec fn program_address(seeds: Seq<Seq<u8>>, program_id: Seq<u8>) -> Option<(Seq<u8>, u8)>;

/// The seeds as sequences of bytes.
pub open spec fn seed_bytes(seeds: Seq<Vec<u8>>) -> Seq<Seq<u8>> {
    Seq::new(seeds.len(), |i: int| seeds[i]@)
}

/// A derived address and its bump seed as plain values.
pub open spec fn derived_view(found: Option<(Pubkey, u8)>) -> Option<(Seq<u8>, u8)> {
    match found {
        Some((address, bump)) => Some((address@, bump)),
        None => None,
    }
}

/// Seeds that locate the list `name` of `authority`.
pub open spec fn whitelist_seeds(authority: Seq<u8>, name: Seq<u8>) -> Seq<Seq<u8>> {
    seq![authority, name]
}

/// Seeds that locate the entry of `member` in the list stored at `whitelist`.
pub open spec fn entry_seeds(member: Seq<u8>, whitelist: Seq<u8>) -> Seq<Seq<u8>> {
    seq![member, whitelist]
}

/// Where the list `name` of `authority` is stored, with the bump seed.
pub open spec fn whitelist_address(authority: Seq<u8>, name: Seq<u8>) -> Option<(Seq<u8>, u8)> {
    program_address(whitelist_seeds(authority, name), ID_BYTES@)
}

/// Where the entry of `member` in the list stored at `whitelist` is stored,
/// with the bump seed.
pub open spec fn entry_address(member: Seq<u8>, whitelist: Seq<u8>) -> Option<(Seq<u8>, u8)> {
    program_address(entry_seeds(member, whitelist), ID_BYTES@)
}

/// This program's identity.
pub fn id() -> (key: Pubkey)
    ensures
        key@ == ID_BYTES@,
{
    Pubkey::new_from_array(ID_BYTES)
}

/// Calls `Pubkey::try_find_program_address` of `anchor_lang`, which hashes the
/// seeds, one candidate bump seed and the program's identity, from the largest
/// bump seed down, and returns the first hash that is no point of the curve,
/// with that bump seed. The result depends on the arguments alone and is
/// named `program_address`. The function derives nothing where a seed is
/// longer than 32 bytes.
#[verifier::external_body]
fn try_find_program_address(seeds: &Vec<Vec<u8>>, program_id: &Pubkey) -> (found: Option<(Pubkey, u8)>)
    ensures
        derived_view(found) == program_address(seed_bytes(seeds@), program_id@),
        found is Some ==> forall|i: int| 0 <= i < seeds@.len() ==> seeds@[i]@.len() <= MAX_SEED_LEN,
{
    let slices: Vec<&[u8]> = seeds.iter().map(|seed| seed.as_slice()).collect();
    let program = anchor_lang::prelude::Pubkey::new_from_array(program_id.bytes);
    match anchor_lang::prelude::Pubkey::try_find_program_address(&slices, &program) {
        Some((address, bump)) => Some((Pubkey { bytes: address.to_bytes() }, bump)),
        None => None,
    }
}

/// Derives the address of the list `name` of `authority`, and its bump seed.
///
/// The result is a function of `authority` and `name` alone: the same pair
/// yields the same address on every call. No address is derived for a name
/// longer than 32 bytes.
pub fn find_whitelist_address(authority: &Pubkey, name: &str) -> (found: Option<(Pubkey, u8)>)
    ensures
        derived_view(found) == whitelist_address(authority@, name.spec_bytes()),
        name.spec_bytes().len() > MAX_SEED_LEN ==> found is None,
{
    let mut seeds: Vec<Vec<u8>> = Vec::new();
    seeds.push(authority.to_vec());
    seeds.push(name.as_bytes_vec());
    assert(seed_bytes(seeds@) =~= whitelist_seeds(authority@, name.spec_bytes()));
    let found = try_find_program_address(&seeds, &id());
    assert(found is Some ==> seeds@[1]@.len() <= MAX_SEED_LEN);
    found
}

/// Derives the address of the entry of `member` in the list stored at
/// `whitelist`, and its bump seed.
///
/// The result is a function of `member` and `whitelist` alone.
pub fn find_entry_address(member: &Pubkey, whitelist: &Pubkey) -> (found: Option<(Pubkey, u8)>)
    ensures
        derived_view(found) == entry_address(member@, whitelist@),
{
    let mut seeds: Vec<Vec<u8>> = Vec::new();
    seeds.push(member.to_vec());
    seeds.push(whitelist.to_vec());
    assert(seed_bytes(seeds@) =~= entry_seeds(member@, whitelist@));
    try_find_program_address(&seeds, &id())
}

} // verus!
