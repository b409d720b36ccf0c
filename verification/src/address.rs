use vstd::prelude::*;

verus! {

/// A fixed-width account identifier: 20 bytes, as the host chain represents
/// external accounts and contracts. The all-zero value is the reserved
/// sentinel meaning "no owner" / "invalid recipient"; it is never a
/// legitimate mint recipient and never a stored owner.
#[derive(Clone, Copy, PartialEq, Eq, Debug, Hash)]
pub struct Address {
    pub bytes: [u8; 20],
}

/// The byte image of the sentinel zero address.
pub open spec fn zero_address_bytes() -> Seq<u8> {
    Seq::new(20, |i: int| 0u8)
}

impl View for Address {
    type V = Seq<u8>;

    open spec fn view(&self) -> Seq<u8> {
        self.bytes@
    }
}

impl Address {
    pub fn from_bytes(bytes: [u8; 20]) -> (a: Address)
        ensures
            a@ == bytes@,
    {
        Address { bytes }
    }

    /// The sentinel zero address.
    pub fn zero() -> (a: Address)
        ensures
            a@ == zero_address_bytes(),
    {
        let a = Address { bytes: [0u8; 20] };
        proof {
            assert(a@ =~= zero_address_bytes());
        }
        a
    }

    /// Whether this address is the sentinel zero address.
    pub fn is_zero(&self) -> (r: bool)
        ensures
            r == (self@ == zero_address_bytes()),
    {
        let mut i: usize = 0;
        while i < 20
            invariant
                i <= 20,
                forall|j: int| 0 <= j < i ==> self.bytes@[j] == 0,
            decreases 20 - i,
        {
            if self.bytes[i] != 0 {
                proof {
                    assert(self@[i as int] != zero_address_bytes()[i as int]);
                }
                return false;
            }
            i += 1;
        }
        proof {
            assert(self@ =~= zero_address_bytes());
        }
        true
    }
}

} // verus!
