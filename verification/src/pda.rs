//! The boundary to the ledger's address derivation.
//!
//! Nothing here is proved. The two wrappers call the ledger's own functions,
//! and their contracts only give names to what those functions return.

use crate::address::Address;
use anchor_lang::prelude::Pubkey;
use vstd::prelude::*;

verus! {

/// What `Pubkey::create_program_address` yields for a list of seeds and a
/// program id: the derived address, or `None` where it reports an error
/// (a seed too long, too many seeds, or a hash that lies on the curve).
pub uninterp spec fn program_address(seeds: Seq<Seq<u8>>, program_id: Seq<u8>) -> Option<Seq<u8>>;

/// What `Pubkey::try_find_program_address` yields for a list of seeds and a
/// program id: the address derived under the largest bump seed that gives
/// one, with that bump seed, or `None` where no bump seed gives one.
pub uninterp spec fn canonical_program_address(seeds: Seq<Seq<u8>>, program_id: Seq<u8>) -> Option<
    (Seq<u8>, u8),
>;

/// The model of a list of seeds: the bytes of each, in order.
pub open spec fn seeds_model(seeds: Seq<Vec<u8>>) -> Seq<Seq<u8>> {
    seeds.map_values(|seed: Vec<u8>| seed@)
}

/// The model of an optional address.
pub open spec fn address_model(a: Option<Address>) -> Option<Seq<u8>> {
    match a {
        Some(a) => Some(a@),
        None => None,
    }
}

/// The model of an optional address with its bump seed.
pub open spec fn bumped_address_model(a: Option<(Address, u8)>) -> Option<(Seq<u8>, u8)> {
    match a {
        Some((a, bump)) => Some((a@, bump)),
        None => None,
    }
}

/// Calls `Pubkey::create_program_address` on the seeds and the program id.
///
/// Trusted: the result is a function of the seeds' bytes and the program
/// id's bytes alone, here named `program_address`; an error of the outside
/// function comes back as `None`.
#[verifier::external_body]
pub(crate) fn create_program_address(seeds: &Vec<Vec<u8>>, program_id: &Address) -> (derived:
    Option<Address>)
    ensures
        address_model(derived) == program_address(seeds_model(seeds@), program_id@),
{
    let parts: Vec<&[u8]> = seeds.iter().map(|seed| seed.as_slice()).collect();
    let program = Pubkey::new_from_array(program_id.to_bytes());
    Pubkey::create_program_address(&parts, &program).ok().map(
        |key| Address::new_from_array(key.to_bytes()),
    )
}

/// Calls `Pubkey::try_find_program_address` on the seeds and the program id.
///
/// Trusted: the result is a function of the seeds' bytes and the program
/// id's bytes alone, here named `canonical_program_address`; and an address
/// that it finds is the one that `Pubkey::create_program_address` derives
/// from the same seeds followed by the one-byte seed holding the bump.
#[verifier::external_body]
pub(crate) fn try_find_program_address(seeds: &Vec<Vec<u8>>, program_id: &Address) -> (found:
    Option<(Address, u8)>)
    ensures
        bumped_address_model(found) == canonical_program_address(seeds_model(seeds@), program_id@),
        found matches Some((address, bump)) ==> program_address(
            seeds_model(seeds@).push(seq![bump]),
            program_id@,
        ) == Some(address@),
{
    let parts: Vec<&[u8]> = seeds.iter().map(|seed| seed.as_slice()).collect();
    let program = Pubkey::new_from_array(program_id.to_bytes());
    Pubkey::try_find_program_address(&parts, &program).map(
        |(key, bump)| (Address::new_from_array(key.to_bytes()), bump),
    )
}

} // verus!
