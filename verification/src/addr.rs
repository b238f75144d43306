//! Fixed 32-byte opaque account addresses.
//!
//! Addresses are compared and copied byte-for-byte and never interpreted.
//! The host ledger's key type carries exactly these 32 bytes; converting
//! between the two is the caller's concern at the boundary.

use vstd::prelude::*;

verus! {

/// The byte width of every account address.
pub const ADDRESS_LEN: usize = 32;

/// A 32-byte opaque account identifier.
#[derive(Debug)]
pub struct Address {
    pub bytes: Vec<u8>,
}

impl View for Address {
    type V = Seq<u8>;

    open spec fn view(&self) -> Seq<u8> {
        self.bytes@
    }
}

impl Address {
    /// A well-formed address holds exactly 32 bytes.
    pub open spec fn wf(&self) -> bool {
        self@.len() == ADDRESS_LEN
    }

    /// Builds an address from exactly 32 bytes.
    pub fn from_bytes(bytes: Vec<u8>) -> (a: Address)
        requires
            bytes@.len() == ADDRESS_LEN,
        ensures
            a@ == bytes@,
            a.wf(),
    {
        Address { bytes }
    }

    /// Byte-for-byte copy of the address.
    pub fn dup(&self) -> (a: Address)
        ensures
            a@ == self@,
    {
        let mut out: Vec<u8> = Vec::new();
        out.extend_from_slice(self.bytes.as_slice());
        proof {
            assert(out@ =~= self@);
        }
        Address { bytes: out }
    }

    /// Byte-for-byte equality of two addresses.
    pub fn same_as(&self, other: &Address) -> (r: bool)
        ensures
            r == (self@ == other@),
    {
        if self.bytes.len() != other.bytes.len() {
            return false;
        }
        let n: usize = self.bytes.len();
        let mut i: usize = 0;
        while i < n
            invariant
                0 <= i <= n,
                n == self@.len() == other@.len(),
                forall|k: int| 0 <= k < i ==> self@[k] == other@[k],
            decreases n - i,
        {
            if self.bytes[i] != other.bytes[i] {
                return false;
            }
            i = i + 1;
        }
        proof {
            assert(self@ =~= other@);
        }
        true
    }
}

} // verus!
