use vstd::prelude::*;

verus! {

broadcast use vstd::array::group_array_axioms;

/// Length in bytes of an account address.
pub const ADDRESS_LEN: usize = 32;

/// Identity of an account: a participant or the owner that feeds the oracle.
#[derive(Clone, Copy, Debug)]
pub struct Principal {
    pub bytes: [u8; 32],
}

impl Principal {
    /// Builds a principal from the raw bytes of an account address.
    pub fn new(bytes: [u8; 32]) -> (r: Principal)
        ensures
            r.bytes == bytes,
    {
        Principal { bytes }
    }

    /// Byte-wise comparison of two principals.
    pub fn same_as(&self, other: &Principal) -> (r: bool)
        ensures
            r == (*self == *other),
    {
        let mut k: usize = 0;
        while k < ADDRESS_LEN
            invariant
                0 <= k <= ADDRESS_LEN,
                forall|j: int| 0 <= j < k ==> self.bytes[j] == other.bytes[j],
            decreases ADDRESS_LEN - k,
        {
            if self.bytes[k] != other.bytes[k] {
                return false;
            }
            k = k + 1;
        }
        assert(self.bytes =~= other.bytes);
        true
    }
}

impl PartialEq for Principal {
    fn eq(&self, other: &Principal) -> (r: bool) {
        self.same_as(other)
    }
}

impl vstd::std_specs::cmp::PartialEqSpecImpl for Principal {
    open spec fn obeys_eq_spec() -> bool {
        true
    }

    open spec fn eq_spec(&self, other: &Principal) -> bool {
        *self == *other
    }
}

impl Eq for Principal {
}

} // verus!
