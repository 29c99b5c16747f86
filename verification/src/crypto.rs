//! The cryptographic primitives the core consumes: the SHA-256 digest
//! behind the binding hash, and program-derived-address computation.
//!
//! Both come from the platform SDK and are taken on trust: each result is
//! a function of the arguments alone, so it only gets a name here, and the
//! library's own contracts speak of that name.

use vstd::prelude::*;

verus! {

/// The SHA-256 digest of a byte string (32 bytes).
pub uninterp spec fn sha256_of(data: Seq<u8>) -> Seq<u8>;

/// Relies on the SDK's sha256 `hash`: the digest is 32 bytes and depends
/// on the input bytes alone.
#[verifier::external_body]
pub fn sha256(data: &Vec<u8>) -> (r: Vec<u8>)
    ensures
        r@ == sha256_of(data@),
        r@.len() == 32,
{
    solana_program::hash::hash(data.as_slice()).to_bytes().to_vec()
}

/// The program-derived address (32 bytes) and bump for a seed list under
/// a program id (32 bytes), or nothing in the statistically improbable
/// event that no bump works; a function of seeds and program id alone.
pub uninterp spec fn pda_of(seeds: Seq<Seq<u8>>, program_id: Seq<u8>) -> Option<(Seq<u8>, u8)>;

/// The view under which a derived address is compared with [`pda_of`].
pub open spec fn pda_view(r: Option<(Vec<u8>, u8)>) -> Option<(Seq<u8>, u8)> {
    match r {
        Some((key, bump)) => Some((key@, bump)),
        None => None,
    }
}

/// Relies on `Pubkey::try_find_program_address`: the derived address and
/// bump seed are a function of the seeds and the program id alone, and
/// the address is 32 bytes.
#[verifier::external_body]
pub fn try_find_program_address(seeds: &Vec<Vec<u8>>, program_id: &Vec<u8>) -> (r: Option<
    (Vec<u8>, u8),
>)
    requires
        program_id@.len() == 32,
    ensures
        pda_view(r) == pda_of(seeds.deep_view(), program_id@),
        r matches Some(p) ==> p.0@.len() == 32,
{
    let mut pid_bytes = [0u8; 32];
    pid_bytes.copy_from_slice(program_id.as_slice());
    let pid = solana_program::pubkey::Pubkey::new_from_array(pid_bytes);
    let seed_refs: Vec<&[u8]> = seeds.iter().map(|s| s.as_slice()).collect();
    solana_program::pubkey::Pubkey::try_find_program_address(&seed_refs, &pid)
        .map(|(key, bump)| (key.to_bytes().to_vec(), bump))
}

/// The program address (32 bytes) for a full seed list (bump included)
/// under a program id, or nothing where the seeds are out of range or the
/// result leaves the usable address space; a function of the arguments
/// alone.
pub uninterp spec fn cpa_of(seeds: Seq<Seq<u8>>, program_id: Seq<u8>) -> Option<Seq<u8>>;

/// The view under which a created address is compared with [`cpa_of`].
pub open spec fn cpa_view(r: Option<Vec<u8>>) -> Option<Seq<u8>> {
    match r {
        Some(key) => Some(key@),
        None => None,
    }
}

/// Relies on `Pubkey::create_program_address`: the address is a function
/// of the seeds and the program id alone and is 32 bytes; every error
/// case (seed list or seed too long, address on the curve) comes back as
/// `None`.
#[verifier::external_body]
pub fn create_program_address(seeds: &Vec<Vec<u8>>, program_id: &Vec<u8>) -> (r: Option<Vec<u8>>)
    requires
        program_id@.len() == 32,
    ensures
        cpa_view(r) == cpa_of(seeds.deep_view(), program_id@),
        r matches Some(key) ==> key@.len() == 32,
{
    let mut pid_bytes = [0u8; 32];
    pid_bytes.copy_from_slice(program_id.as_slice());
    let pid = solana_program::pubkey::Pubkey::new_from_array(pid_bytes);
    let seed_refs: Vec<&[u8]> = seeds.iter().map(|s| s.as_slice()).collect();
    solana_program::pubkey::Pubkey::create_program_address(&seed_refs, &pid).ok().map(|key| {
        key.to_bytes().to_vec()
    })
}

} // verus!
