//! Where a record lives.
//!
//! The address of a record is derived from two seeds and the identity of the
//! program that owns the records. A registry is found from its authority and
//! its name; an entry from the registered account and the registry. Nobody
//! holds a private key for such an address, and anybody can compute it again.

use vstd::prelude::*;
use vstd::utf8::encode_utf8;
use crate::pubkey::Pubkey;

verus! {

/// The program address that belongs to a list of seeds under a program,
/// with the bump that was found for it; `None` where there is none.
pub uninterp spec fn program_address(seeds: Seq<Seq<u8>>, program_id: Seq<u8>) -> Option<
    (Seq<u8>, u8),
>;

/// What a derivation gave, with the address as its bytes.
pub open spec fn derived_view(derived: Option<(Pubkey, u8)>) -> Option<(Seq<u8>, u8)> {
    match derived {
        Some((address, bump)) => Some((address@, bump)),
        None => None,
    }
}

/// The address and bump of the entry of `target` under `registry`.
pub open spec fn entry_address(target: Seq<u8>, registry: Seq<u8>, program_id: Seq<u8>) -> Option<
    (Seq<u8>, u8),
> {
    program_address(seq![target, registry], program_id)
}

/// The address and bump of the registry that `authority` owns under `name`.
pub open spec fn registry_address(
    authority: Seq<u8>,
    name: Seq<char>,
    program_id: Seq<u8>,
) -> Option<(Seq<u8>, u8)> {
    program_address(seq![authority, encode_utf8(name)], program_id)
}

/// Calls `Pubkey::try_find_program_address` of `anchor_lang` (that of
/// `solana_pubkey`) on the two seeds and the program's key.
///
/// The outside function hashes the seeds, a bump and the program's key, for
/// the bumps from 255 downwards, and gives the first hash that is no point of
/// the curve, with its bump. Nothing is claimed here of that hash but that it
/// depends on the seeds and the program's key alone: the result is
/// `program_address` of them.
#[verifier::external_body]
fn try_find_program_address(first: &[u8], second: &[u8], program_id: &Pubkey) -> (derived: Option<
    (Pubkey, u8),
>)
    ensures
        derived_view(derived) == program_address(seq![first@, second@], program_id@),
{
    let id = anchor_lang::prelude::Pubkey::new_from_array(program_id.bytes);
    match anchor_lang::prelude::Pubkey::try_find_program_address(&[first, second], &id) {
        Some((address, bump)) => Some((Pubkey { bytes: address.to_bytes() }, bump)),
        None => None,
    }
}

/// Derives the address of the entry of `target` under `registry`.
///
/// The same three keys give the same address and bump every time.
pub fn find_entry_address(target: &Pubkey, registry: &Pubkey, program_id: &Pubkey) -> (derived:
    Option<(Pubkey, u8)>)
    ensures
        derived_view(derived) == entry_address(target@, registry@, program_id@),
{
    try_find_program_address(target.bytes.as_slice(), registry.bytes.as_slice(), program_id)
}

/// Derives the address of the registry that `authority` owns under `name`.
pub fn find_registry_address(authority: &Pubkey, name: &str, program_id: &Pubkey) -> (derived:
    Option<(Pubkey, u8)>)
    ensures
        derived_view(derived) == registry_address(authority@, name@, program_id@),
{
    try_find_program_address(authority.bytes.as_slice(), name.as_bytes(), program_id)
}

} // verus!
