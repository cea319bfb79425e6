//! The address of a Bluetooth device.

use vstd::prelude::*;

verus! {

/// The six bytes that identify a Bluetooth device.
#[derive(Clone, Copy, Debug, Eq, Hash)]
pub struct BDAddr {
    address: [u8; 6],
}

impl View for BDAddr {
    type V = Seq<u8>;

    closed spec fn view(&self) -> Seq<u8> {
        self.address@
    }
}

impl BDAddr {
    /// The bytes of the address.
    pub fn into_inner(self) -> (address: [u8; 6])
        ensures
            address@ == self@,
    {
        self.address
    }

    /// An address is its bytes: two addresses that read alike are one address.
    pub proof fn lemma_equal_bytes(self, other: BDAddr)
        requires
            self@ == other@,
        ensures
            self == other,
    {
        assert(self.address =~= other.address);
    }
}

impl PartialEq for BDAddr {
    fn eq(&self, other: &BDAddr) -> (same: bool) {
        let same: bool = self.address[0] == other.address[0]
            && self.address[1] == other.address[1]
            && self.address[2] == other.address[2]
            && self.address[3] == other.address[3]
            && self.address[4] == other.address[4]
            && self.address[5] == other.address[5];
        proof {
            if same {
                assert(self.address@ =~= other.address@);
                self.lemma_equal_bytes(*other);
            }
        }
        same
    }
}

impl vstd::std_specs::cmp::PartialEqSpecImpl for BDAddr {
    open spec fn obeys_eq_spec() -> bool {
        true
    }

    open spec fn eq_spec(&self, other: &BDAddr) -> bool {
        *self == *other
    }
}

impl From<[u8; 6]> for BDAddr {
    fn from(address: [u8; 6]) -> (device: BDAddr)
        ensures
            device@ == address@,
    {
        BDAddr { address }
    }
}

impl vstd::std_specs::convert::FromSpecImpl<[u8; 6]> for BDAddr {
    open spec fn obeys_from_spec() -> bool {
        true
    }

    closed spec fn from_spec(address: [u8; 6]) -> BDAddr {
        BDAddr { address }
    }
}

} // verus!
