//! Object ids.
use vstd::prelude::*;

verus! {

/// The number of bytes in an object id.
pub const OID_RAW_LEN: usize = 20;

/// Unique identity of any object (commit, tree, blob, tag).
#[derive(Clone, Copy, Debug, PartialEq, Eq, Hash)]
pub struct Oid {
    bytes: [u8; 20],
}

impl View for Oid {
    type V = Seq<u8>;

    closed spec fn view(&self) -> Seq<u8> {
        self.bytes@
    }
}

/// An id is zero when every one of its bytes is zero.
pub open spec fn spec_is_zero(id: Seq<u8>) -> bool {
    forall|i: int| 0 <= i < id.len() ==> id[i] == 0u8
}

impl Oid {
    /// Creates an id from its raw bytes.
    pub fn from_raw_bytes(bytes: [u8; 20]) -> (id: Oid)
        ensures
            id@ == bytes@,
    {
        Oid { bytes }
    }

    /// The id whose bytes are all zero.
    pub fn zero() -> (id: Oid)
        ensures
            id@.len() == OID_RAW_LEN,
            spec_is_zero(id@),
    {
        let id = Oid { bytes: [0u8; 20] };
        assert(spec_is_zero(id@));
        id
    }

    /// The raw bytes of this id.
    pub fn as_bytes(&self) -> (b: &[u8])
        ensures
            b@ == self@,
    {
        self.bytes.as_slice()
    }

    /// Tests whether every byte of this id is zero.
    pub fn is_zero(&self) -> (r: bool)
        ensures
            r == spec_is_zero(self@),
    {
        let mut i: usize = 0;
        while i < OID_RAW_LEN
            invariant
                i <= OID_RAW_LEN,
                self@.len() == OID_RAW_LEN,
                forall|j: int| 0 <= j < i ==> self@[j] == 0u8,
            decreases OID_RAW_LEN - i,
        {
            if self.bytes[i] != 0 {
                return false;
            }
            i = i + 1;
        }
        true
    }
}

} // verus!
