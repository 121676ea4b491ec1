use vstd::prelude::*;
use vstd::array::{array_fill_for_copy_types, spec_array_fill_for_copy_type};

verus! {

broadcast use vstd::array::group_array_axioms;

/// A 32-byte account address.
#[derive(Clone, Copy, Debug, PartialEq, Eq)]
pub struct Address {
    pub bytes: [u8; 32],
}

/// The all-zero address.
pub open spec fn zero_address() -> Address {
    Address { bytes: spec_array_fill_for_copy_type::<u8, 32>(0u8) }
}

impl Address {
    /// Whether every byte is zero.
    pub open spec fn is_zero(self) -> bool {
        forall|i: int| 0 <= i < 32 ==> self.bytes[i] == 0u8
    }

    /// The all-zero address.
    pub fn zeroed() -> (a: Address)
        ensures
            a == zero_address(),
            a.is_zero(),
    {
        Address { bytes: array_fill_for_copy_types::<u8, 32>(0u8) }
    }

    /// Whether this is the zero address.
    pub fn is_default(&self) -> (r: bool)
        ensures
            r <==> self.is_zero(),
            r <==> *self == zero_address(),
    {
        let z = Address::zeroed();
        let r = self.same(&z);
        proof {
            if self.is_zero() {
                assert(self.bytes =~= z.bytes);
            }
        }
        r
    }

    /// Byte-wise equality of two addresses.
    pub fn same(&self, other: &Address) -> (r: bool)
        ensures
            r <==> *self == *other,
    {
        let mut i: usize = 0;
        while i < 32
            invariant
                0 <= i <= 32,
                forall|j: int| 0 <= j < i ==> self.bytes[j] == other.bytes[j],
            decreases 32 - i,
        {
            if self.bytes[i] != other.bytes[i] {
                return false;
            }
            i = i + 1;
        }
        assert(self.bytes =~= other.bytes);
        true
    }
}

} // verus!
