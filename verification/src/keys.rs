//! Identities: the 32-byte keys that name accounts, owners and assets.

use vstd::prelude::*;

verus! {

/// A 32-byte account key.
#[derive(Clone, Copy, Debug, PartialEq, Eq)]
pub struct Address {
    pub bytes: [u8; 32],
}

impl Address {
    /// The key made of the given bytes.
    pub fn new(bytes: [u8; 32]) -> (r: Address)
        ensures
            r.bytes == bytes,
    {
        Address { bytes }
    }

    /// Whether this is the key of 32 zero bytes. No holder has it: it marks
    /// a record that nobody has taken yet.
    pub open spec fn spec_is_zero(&self) -> bool {
        forall|i: int| 0 <= i < 32 ==> self.bytes[i] == 0
    }

    /// Whether this is the key of 32 zero bytes.
    #[verifier::when_used_as_spec(spec_is_zero)]
    pub fn is_zero(&self) -> (r: bool)
        ensures
            r == self.spec_is_zero(),
    {
        let mut i: usize = 0;
        while i < 32
            invariant
                i <= 32,
                forall|j: int| 0 <= j < i ==> self.bytes[j] == 0,
            decreases 32 - i,
        {
            if self.bytes[i] != 0 {
                return false;
            }
            i += 1;
        }
        true
    }

    /// Whether two keys name the same account: all 32 bytes agree.
    pub fn same(&self, other: &Address) -> (r: bool)
        ensures
            r == (*self == *other),
    {
        let mut i: usize = 0;
        while i < 32
            invariant
                i <= 32,
                forall|j: int| 0 <= j < i ==> self.bytes[j] == other.bytes[j],
            decreases 32 - i,
        {
            if self.bytes[i] != other.bytes[i] {
                return false;
            }
            i += 1;
        }
        assert(self.bytes =~= other.bytes);
        true
    }
}

} // verus!
