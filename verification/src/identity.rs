//! Ledger identities: the 32-byte addresses of accounts, owners and asset types.

use vstd::prelude::*;
use vstd::std_specs::cmp::PartialEqSpecImpl;

verus! {

/// The address of an account on the ledger, or the name of an asset type.
///
/// Two identities are the same exactly when their 32 bytes are.
#[derive(Clone, Copy, Debug, Eq)]
pub struct Identity {
    pub bytes: [u8; 32],
}

impl View for Identity {
    type V = Seq<u8>;

    open spec fn view(&self) -> Seq<u8> {
        self.bytes@
    }
}

impl Identity {
    /// The bytes of the identity that `default` gives: 32 zeros.
    pub open spec fn zero_bytes() -> Seq<u8> {
        Seq::new(32, |i: int| 0u8)
    }

    /// The identity that a sequence of 32 bytes is the view of.
    pub closed spec fn of(bytes: Seq<u8>) -> Identity {
        choose|id: Identity| id@ == bytes
    }

    /// The identity of 32 zero bytes, which names no one.
    pub open spec fn zero() -> Identity {
        Identity::of(Identity::zero_bytes())
    }

    /// Every identity is the one that its own bytes stand for.
    pub proof fn lemma_of_view(id: Identity)
        ensures
            Identity::of(id@) == id,
    {
        Identity::lemma_view_injective(Identity::of(id@), id);
    }

    /// An identity from its bytes.
    pub fn new(bytes: [u8; 32]) -> (id: Identity)
        ensures
            id.bytes == bytes,
            id@ == bytes@,
    {
        Identity { bytes }
    }

    /// The bytes of the identity, as a derivation seed takes them.
    pub fn to_vec(&self) -> (out: Vec<u8>)
        ensures
            out@ == self@,
    {
        let mut out: Vec<u8> = Vec::new();
        let mut i: usize = 0;
        while i < 32
            invariant
                i <= 32,
                out@ == self@.take(i as int),
            decreases 32 - i,
        {
            out.push(self.bytes[i]);
            i += 1;
        }
        out
    }

    /// Identities with the same bytes are the same identity.
    pub proof fn lemma_view_injective(a: Identity, b: Identity)
        ensures
            a@ == b@ <==> a == b,
    {
        if a@ == b@ {
            assert(a.bytes =~= b.bytes);
        }
    }
}

impl Default for Identity {
    /// The identity of 32 zero bytes.
    fn default() -> (id: Identity)
        ensures
            id@ == Identity::zero_bytes(),
            id == Identity::zero(),
    {
        let id = Identity { bytes: [0u8; 32] };
        assert(id@ =~= Identity::zero_bytes());
        proof {
            Identity::lemma_of_view(id);
        }
        id
    }
}

impl PartialEq for Identity {
    fn eq(&self, other: &Identity) -> (r: bool) {
        let mut i: usize = 0;
        while i < 32
            invariant
                i <= 32,
                forall|j: int| 0 <= j < i ==> self.bytes[j] == other.bytes[j],
            decreases 32 - i,
        {
            if self.bytes[i] != other.bytes[i] {
                return false;
            }
            i += 1;
        }
        proof {
            assert(self.bytes =~= other.bytes);
        }
        true
    }
}

impl PartialEqSpecImpl for Identity {
    open spec fn obeys_eq_spec() -> bool {
        true
    }

    open spec fn eq_spec(&self, other: &Identity) -> bool {
        *self == *other
    }
}

} // verus!
