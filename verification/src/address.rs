//! Ledger addresses.

use vstd::prelude::*;
use vstd::std_specs::cmp::PartialEqSpecImpl;

verus! {

/// A 32-byte ledger address: the identity of a party, of a program, or of a
/// custody account.
///
/// Its model is the sequence of its bytes. Two addresses are equal exactly
/// when their bytes are.
#[derive(Clone, Copy, Debug, Eq)]
pub struct Address {
    pub bytes: [u8; 32],
}

impl View for Address {
    type V = Seq<u8>;

    open spec fn view(&self) -> Seq<u8> {
        self.bytes@
    }
}

impl PartialEq for Address {
    /// Compares byte by byte; what it returns is stated by `eq_spec` below.
    fn eq(&self, other: &Address) -> (same: bool) {
        let mut i: usize = 0;
        while i < 32
            invariant
                i <= 32,
                forall|j: int| 0 <= j < i ==> self.bytes[j] == other.bytes[j],
            decreases 32 - i,
        {
            if self.bytes[i] != other.bytes[i] {
                return false;
            }
            i += 1;
        }
        assert(self.bytes@ =~= other.bytes@);
        true
    }
}

impl PartialEqSpecImpl for Address {
    open spec fn obeys_eq_spec() -> bool {
        true
    }

    open spec fn eq_spec(&self, other: &Address) -> bool {
        self@ == other@
    }
}

impl Address {
    /// The address with the given bytes.
    pub fn new_from_array(bytes: [u8; 32]) -> (a: Address)
        ensures
            a.bytes == bytes,
    {
        Address { bytes }
    }

    /// The bytes of the address.
    pub fn to_bytes(&self) -> (bytes: [u8; 32])
        ensures
            bytes == self.bytes,
    {
        self.bytes
    }

    /// The bytes as a vector, in order.
    pub fn to_vec(&self) -> (v: Vec<u8>)
        ensures
            v@ == self@,
    {
        let mut v: Vec<u8> = Vec::new();
        let mut i: usize = 0;
        while i < 32
            invariant
                i <= 32,
                v@.len() == i,
                forall|j: int| 0 <= j < i ==> v@[j] == self.bytes[j],
            decreases 32 - i,
        {
            v.push(self.bytes[i]);
            i += 1;
        }
        assert(v@ =~= self@);
        v
    }
}

} // verus!
