//! User and account identities: 32-byte public keys.

use vstd::prelude::*;

verus! {

/// A 32-byte account identity. Owners, vault addresses and token holding
/// accounts are all identified by a value of this type.
#[derive(Clone, Copy, Debug)]
#[verifier::ext_equal]
pub struct Pubkey {
    pub bytes: [u8; 32],
}

impl View for Pubkey {
    type V = Seq<u8>;

    open spec fn view(&self) -> Seq<u8> {
        self.bytes@
    }
}

impl Pubkey {
    /// Byte-for-byte equality of two identities.
    pub fn key_eq(&self, other: &Pubkey) -> (r: bool)
        ensures
            r == (self@ == other@),
            r == (*self == *other),
    {
        let mut i: usize = 0;
        while i < 32
            invariant
                i <= 32,
                forall|j: int| 0 <= j < i ==> self.bytes@[j] == other.bytes@[j],
            decreases 32 - i,
        {
            if self.bytes[i] != other.bytes[i] {
                return false;
            }
            i += 1;
        }
        proof {
            assert(self.bytes@ =~= other.bytes@);
            assert(*self =~= *other);
        }
        true
    }
}

} // verus!
