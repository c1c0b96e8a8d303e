use vstd::prelude::*;

verus! {

/// Length in bytes of an account address.
pub const PUBKEY_BYTES: usize = 32;

/// An account address: 32 raw bytes, compared byte by byte.
#[derive(Clone, Copy, Debug, PartialEq, Eq)]
pub struct Pubkey {
    pub bytes: [u8; 32],
}

impl View for Pubkey {
    type V = Seq<u8>;

    open spec fn view(&self) -> Seq<u8> {
        self.bytes@
    }
}

impl Pubkey {
    /// Builds an address from its bytes.
    pub fn new_from_array(bytes: [u8; 32]) -> (k: Pubkey)
        ensures
            k.bytes == bytes,
    {
        Pubkey { bytes }
    }

    /// Whether two addresses are the same account.
    pub fn key_eq(&self, other: &Pubkey) -> (r: bool)
        ensures
            r == (self@ == other@),
            r == (*self == *other),
    {
        let mut i: usize = 0;
        while i < PUBKEY_BYTES
            invariant
                0 <= i <= 32,
                forall|j: int| 0 <= j < i ==> self.bytes[j] == other.bytes[j],
            decreases 32 - i,
        {
            if self.bytes[i] != other.bytes[i] {
                assert(self@[i as int] != other@[i as int]);
                return false;
            }
            i = i + 1;
        }
        assert(self.bytes@ =~= other.bytes@);
        proof {
            vstd::array::axiom_array_ext_equal(self.bytes, other.bytes);
        }
        true
    }
}

} // verus!
