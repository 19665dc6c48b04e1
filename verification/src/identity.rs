//! Identities: the accounts that create tasks, submit work and receive
//! payouts, and the token contracts that bounties are held in.
use vstd::prelude::*;

verus! {

/// An opaque 20-byte account identifier.
#[derive(Clone, Copy, Debug, PartialEq, Eq, Hash)]
pub struct Address {
    pub bytes: [u8; 20],
}

impl View for Address {
    type V = Seq<u8>;

    open spec fn view(&self) -> Seq<u8> {
        self.bytes@
    }
}

/// Two identities with the same bytes are the same identity.
pub proof fn lemma_address_ext(a: Address, b: Address)
    requires
        a@ == b@,
    ensures
        a == b,
{
    assert(a.bytes =~= b.bytes);
}

impl Address {
    /// The identity with the given bytes.
    pub fn new(bytes: [u8; 20]) -> (r: Address)
        ensures
            r.bytes == bytes,
    {
        Address { bytes }
    }

    /// The bytes of the identity.
    pub fn to_bytes(&self) -> (r: [u8; 20])
        ensures
            r == self.bytes,
    {
        self.bytes
    }

    /// Whether the two identities are the same one.
    pub fn same(&self, other: &Address) -> (r: bool)
        ensures
            r == (*self == *other),
    {
        let mut i: usize = 0;
        while i < 20
            invariant
                i <= 20,
                forall|j: int| 0 <= j < i ==> self.bytes[j] == other.bytes[j],
            decreases 20 - i,
        {
            if self.bytes[i] != other.bytes[i] {
                return false;
            }
            i += 1;
        }
        proof {
            assert(self@ =~= other@);
            lemma_address_ext(*self, *other);
        }
        true
    }
}

} // verus!
