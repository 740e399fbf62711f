use vstd::prelude::*;

verus! {

/// Number of bytes in an identity.
pub const IDENTITY_BYTES: usize = 32;

/// An identity known to the ledger: thirty-two bytes, compared byte for byte.
///
/// The same shape names signers, mints, holder accounts and the program itself.
#[derive(Clone, Copy, Debug, PartialEq, Eq, Hash)]
pub struct Identity {
    pub bytes: [u8; 32],
}

impl View for Identity {
    type V = Seq<u8>;

    open spec fn view(&self) -> Seq<u8> {
        self.bytes@
    }
}

impl Identity {
    /// The identity made of the given bytes.
    pub fn new(bytes: [u8; 32]) -> (id: Identity)
        ensures
            id.bytes == bytes,
            id@ == bytes@,
    {
        Identity { bytes }
    }

    /// The bytes of this identity.
    pub fn to_bytes(&self) -> (bytes: [u8; 32])
        ensures
            bytes == self.bytes,
    {
        self.bytes
    }

    /// Byte-for-byte comparison: true exactly when the two identities are the same value.
    pub fn same_as(&self, other: &Identity) -> (same: bool)
        ensures
            same == (*self == *other),
            same == (self@ == other@),
    {
        let mut i: usize = 0;
        while i < IDENTITY_BYTES
            invariant
                i <= IDENTITY_BYTES,
                forall|j: int| 0 <= j < i ==> self.bytes[j] == other.bytes[j],
            decreases IDENTITY_BYTES - i,
        {
            if self.bytes[i] != other.bytes[i] {
                proof {
                    lemma_equal_iff_same_bytes(*self, *other);
                }
                return false;
            }
            i += 1;
        }
        proof {
            lemma_equal_iff_same_bytes(*self, *other);
            assert(self.bytes =~= other.bytes);
        }
        true
    }
}

/// Two identities are equal exactly when their views are, and exactly when they agree at every
/// one of the thirty-two positions.
pub proof fn lemma_equal_iff_same_bytes(a: Identity, b: Identity)
    ensures
        (a == b) <==> (a@ == b@),
        (a == b) <==> (forall|i: int| 0 <= i < IDENTITY_BYTES ==> a.bytes[i] == b.bytes[i]),
{
    if a@ == b@ {
        assert forall|i: int| 0 <= i < IDENTITY_BYTES implies a.bytes[i] == b.bytes[i] by {
            assert(a.bytes[i] == a@[i]);
            assert(b.bytes[i] == b@[i]);
        }
    }
    if forall|i: int| 0 <= i < IDENTITY_BYTES ==> a.bytes[i] == b.bytes[i] {
        assert(a.bytes =~= b.bytes);
    }
}

} // verus!
