//! Identities of parties, assets and accounts.

use crate::table::Key;
use vstd::prelude::*;

verus! {

/// A 32-byte identity. Two identities are the same when their bytes are.
#[derive(Clone, Copy, Debug, Hash)]
pub struct Pubkey {
    bytes: [u8; 32],
}

impl View for Pubkey {
    type V = Seq<u8>;

    closed spec fn view(&self) -> Seq<u8> {
        self.bytes@
    }
}

impl Pubkey {
    /// The identity with the given bytes.
    pub fn new_from_array(pubkey_array: [u8; 32]) -> (key: Pubkey)
        ensures
            key@ == pubkey_array@,
    {
        Pubkey { bytes: pubkey_array }
    }

    /// The bytes of the identity.
    pub fn to_bytes(&self) -> (bytes: [u8; 32])
        ensures
            bytes@ == self@,
    {
        self.bytes
    }

    /// The identity with the given bytes, where there are 32 of them.
    pub open spec fn with_bytes(bytes: Seq<u8>) -> Pubkey {
        choose|key: Pubkey| key@ == bytes
    }

    /// An identity is the identity with its bytes.
    pub proof fn lemma_with_bytes(self)
        ensures
            Pubkey::with_bytes(self@) == self,
    {
        let found = Pubkey::with_bytes(self@);
        assert(found@ == self@);
        self.lemma_view(found);
    }

    /// An identity has exactly 32 bytes, and is determined by them.
    pub broadcast proof fn lemma_view(self, other: Pubkey)
        ensures
            #![trigger self@, other@]
            self@.len() == 32,
            (self@ == other@) <==> (self == other),
    {
        broadcast use vstd::array::group_array_axioms;
        if self@ == other@ {
            assert(self.bytes =~= other.bytes);
        }
    }
}

impl PartialEq for Pubkey {
    fn eq(&self, other: &Pubkey) -> (same: bool) {
        let mut i: usize = 0;
        while i < 32
            invariant
                i <= 32,
                forall|j: int| 0 <= j < i ==> self.bytes@[j] == other.bytes@[j],
            decreases 32 - i,
        {
            if self.bytes[i] != other.bytes[i] {
                return false;
            }
            i = i + 1;
        }
        proof {
            broadcast use vstd::array::group_array_axioms;
            assert(self.bytes =~= other.bytes);
        }
        true
    }
}

impl Eq for Pubkey {}

impl vstd::std_specs::cmp::PartialEqSpecImpl for Pubkey {
    open spec fn obeys_eq_spec() -> bool {
        true
    }

    open spec fn eq_spec(&self, other: &Pubkey) -> bool {
        *self == *other
    }
}

impl Key for Pubkey {
    fn same(&self, other: &Pubkey) -> (same: bool) {
        *self == *other
    }
}

} // verus!
