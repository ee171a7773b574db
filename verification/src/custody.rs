//! The address of a deal's custody account: which seeds it derives from,
//! and how an account is checked against the record it stores.

use crate::address::Address;
use crate::pda::{
    address_model, bumped_address_model, canonical_program_address, create_program_address,
    program_address, seeds_model, try_find_program_address,
};
use crate::state::{Escrow, EscrowAccount};
use vstd::prelude::*;
use vstd::slice::slice_to_vec;
use vstd::string::StringSliceAdditionalSpecFns;
use vstd::utf8::encode_utf8;

verus! {

/// The seeds a custody address derives from: the bytes of the word
/// `escrow`, the renter, the operator and the robot id, in this order.
pub open spec fn escrow_seeds(renter: Seq<u8>, operator: Seq<u8>, robot_id: Seq<u8>) -> Seq<
    Seq<u8>,
> {
    seq![encode_utf8("escrow"@), renter, operator, robot_id]
}

/// The custody address of a deal under a given bump seed, where there is one.
pub open spec fn escrow_address(
    program_id: Seq<u8>,
    renter: Seq<u8>,
    operator: Seq<u8>,
    robot_id: Seq<u8>,
    bump: u8,
) -> Option<Seq<u8>> {
    program_address(escrow_seeds(renter, operator, robot_id).push(seq![bump]), program_id)
}

/// The custody address of a deal and the bump seed that gives it, where
/// there is one.
pub open spec fn canonical_escrow_address(
    program_id: Seq<u8>,
    renter: Seq<u8>,
    operator: Seq<u8>,
    robot_id: Seq<u8>,
) -> Option<(Seq<u8>, u8)> {
    canonical_program_address(escrow_seeds(renter, operator, robot_id), program_id)
}

fn seed_list(renter: &Address, operator: &Address, robot_id: &str) -> (seeds: Vec<Vec<u8>>)
    ensures
        seeds_model(seeds@) == escrow_seeds(renter@, operator@, robot_id.spec_bytes()),
{
    let mut seeds: Vec<Vec<u8>> = Vec::new();
    seeds.push(slice_to_vec("escrow".as_bytes()));
    seeds.push(renter.to_vec());
    seeds.push(operator.to_vec());
    seeds.push(slice_to_vec(robot_id.as_bytes()));
    assert(seeds_model(seeds@) =~= escrow_seeds(renter@, operator@, robot_id.spec_bytes()));
    seeds
}

/// Finds the custody address of a deal and its bump seed.
///
/// The address found is the one that the deal re-derives to under that bump
/// seed.
pub fn find_escrow_address(
    program_id: &Address,
    renter: &Address,
    operator: &Address,
    robot_id: &str,
) -> (found: Option<(Address, u8)>)
    ensures
        bumped_address_model(found) == canonical_escrow_address(
            program_id@,
            renter@,
            operator@,
            robot_id.spec_bytes(),
        ),
        found matches Some((address, bump)) ==> escrow_address(
            program_id@,
            renter@,
            operator@,
            robot_id.spec_bytes(),
            bump,
        ) == Some(address@),
{
    let seeds = seed_list(renter, operator, robot_id);
    try_find_program_address(&seeds, program_id)
}

/// Derives the custody address of a deal under a given bump seed.
pub fn derive_escrow_address(
    program_id: &Address,
    renter: &Address,
    operator: &Address,
    robot_id: &str,
    bump: u8,
) -> (derived: Option<Address>)
    ensures
        address_model(derived) == escrow_address(
            program_id@,
            renter@,
            operator@,
            robot_id.spec_bytes(),
            bump,
        ),
{
    let mut seeds = seed_list(renter, operator, robot_id);
    let mut last: Vec<u8> = Vec::new();
    last.push(bump);
    seeds.push(last);
    assert(seeds_model(seeds@) =~= escrow_seeds(
        renter@,
        operator@,
        robot_id.spec_bytes(),
    ).push(seq![bump]));
    create_program_address(&seeds, program_id)
}

impl Escrow {
    /// The address the record re-derives to, where there is one.
    pub open spec fn derived_address(&self, program_id: Seq<u8>) -> Option<Seq<u8>> {
        escrow_address(
            program_id,
            self.renter@,
            self.operator@,
            self.robot_id_bytes(),
            self.bump,
        )
    }

    /// Re-derives the custody address from the record's own fields.
    pub fn rederive(&self, program_id: &Address) -> (derived: Option<Address>)
        ensures
            address_model(derived) == self.derived_address(program_id@),
    {
        derive_escrow_address(
            program_id,
            &self.renter,
            &self.operator,
            self.robot_id.as_str(),
            self.bump,
        )
    }
}

impl EscrowAccount {
    /// Whether the account sits at the given derived address.
    pub open spec fn sits_at(&self, derived: Option<Seq<u8>>) -> bool {
        derived == Some(self.key@)
    }

    /// Compares the account's address with a derived one.
    pub fn is_at(&self, derived: &Option<Address>) -> (b: bool)
        ensures
            b == self.sits_at(address_model(*derived)),
    {
        match derived {
            Some(address) => *address == self.key,
            None => false,
        }
    }

    /// Whether the account is the custody account of the record it stores:
    /// the record re-derives to the account's address. An account that fails
    /// this was put in the place of another and must not be operated on.
    pub fn is_genuine(&self, program_id: &Address) -> (b: bool)
        ensures
            b == self.sits_at(self.data.derived_address(program_id@)),
    {
        let derived = self.data.rederive(program_id);
        self.is_at(&derived)
    }
}

} // verus!
