//! The account address: a fixed-length byte identifier derived from a
//! public key. Equality and serialization are byte-exact.

use vstd::prelude::*;

verus! {

pub const DB3_ADDRESS_LENGTH: usize = 20;

#[derive(Debug)]
pub struct DB3Address {
    bytes: Vec<u8>,
}

impl View for DB3Address {
    type V = Seq<u8>;

    closed spec fn view(&self) -> Seq<u8> {
        self.bytes@
    }
}

impl DB3Address {
    /// A well-formed address holds exactly `DB3_ADDRESS_LENGTH` bytes.
    pub open spec fn wf(&self) -> bool {
        self@.len() == DB3_ADDRESS_LENGTH
    }

    pub(crate) fn from_vec(bytes: Vec<u8>) -> (a: DB3Address)
        requires
            bytes@.len() == DB3_ADDRESS_LENGTH,
        ensures
            a@ == bytes@,
            a.wf(),
    {
        DB3Address { bytes }
    }

    /// The address's byte encoding.
    pub fn as_bytes(&self) -> (r: &Vec<u8>)
        ensures
            r@ == self@,
    {
        &self.bytes
    }
}

impl PartialEq for DB3Address {
    fn eq(&self, other: &Self) -> (r: bool) {
        crate::bytes::bytes_eq(self.bytes.as_slice(), other.bytes.as_slice())
    }
}

impl vstd::std_specs::cmp::PartialEqSpecImpl for DB3Address {
    open spec fn obeys_eq_spec() -> bool {
        true
    }

    open spec fn eq_spec(&self, other: &Self) -> bool {
        self@ == other@
    }
}

} // verus!
