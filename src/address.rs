use vstd::prelude::*;

verus! {

/// A 32-byte account address on the host ledger.
#[derive(Clone, Copy, Debug)]
pub struct Address {
    pub bytes: [u8; 32],
}

impl Address {
    /// The address whose bytes are all zero, which the host ledger assigns to
    /// its native-asset system program.
    pub fn zero() -> (r: Address)
        ensures
            forall|i: int| 0 <= i < 32 ==> r.bytes[i] == 0u8,
    {
        Address { bytes: [0u8; 32] }
    }

    /// Byte-wise equality of two addresses.
    pub fn same_as(&self, other: &Address) -> (r: bool)
        ensures
            r == (*self == *other),
    {
        let mut i: usize = 0;
        while i < 32
            invariant
                i <= 32,
                forall|j: int| 0 <= j < i ==> self.bytes[j] == other.bytes[j],
            decreases 32 - i,
        {
            if self.bytes[i] != other.bytes[i] {
                return false;
            }
            i = i + 1;
        }
        assert(self.bytes =~= other.bytes);
        true
    }
}

} // verus!
