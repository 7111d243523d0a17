//! Identities of ledger accounts.

use vstd::prelude::*;

verus! {

/// Number of bytes in an identity key.
pub const IDENTITY_BYTES: usize = 32;

/// The fixed-size key that names an account on the ledger.
#[derive(Clone, Copy, Debug, Eq)]
pub struct Identity {
    pub bytes: [u8; 32],
}

impl View for Identity {
    type V = Seq<u8>;

    open spec fn view(&self) -> Seq<u8> {
        self.bytes@
    }
}

impl PartialEq for Identity {
    fn eq(&self, other: &Identity) -> (r: bool) {
        let mut i: usize = 0;
        while i < 32
            invariant
                i <= 32,
                forall|j: int| 0 <= j < i ==> self.bytes[j] == other.bytes[j],
            decreases 32 - i,
        {
            if self.bytes[i] != other.bytes[i] {
                return false;
            }
            i += 1;
        }
        proof {
            assert(self.bytes =~= other.bytes);
        }
        true
    }
}

impl vstd::std_specs::cmp::PartialEqSpecImpl for Identity {
    open spec fn obeys_eq_spec() -> bool {
        true
    }

    open spec fn eq_spec(&self, other: &Identity) -> bool {
        *self == *other
    }
}

impl Identity {
    /// The sentinel that a record holds before any owner was set: all bytes zero.
    pub open spec fn spec_unset() -> Identity {
        Identity { bytes: vstd::array::spec_array_fill_for_copy_type::<u8, 32>(0u8) }
    }

    /// The sentinel identity.
    #[verifier::when_used_as_spec(spec_unset)]
    pub fn unset() -> (id: Identity)
        ensures
            id == Self::spec_unset(),
    {
        Identity { bytes: [0u8; 32] }
    }

    /// Whether this is the sentinel: every byte is zero.
    pub fn is_unset(&self) -> (r: bool)
        ensures
            r == (*self == Self::spec_unset()),
            r == (forall|i: int| 0 <= i < 32 ==> self@[i] == 0u8),
    {
        let zero = Identity::unset();
        proof {
            lemma_identity_by_bytes(*self, zero);
            if *self == zero {
                assert forall|i: int| 0 <= i < 32 implies self@[i] == 0u8 by {
                    assert(zero@[i] == 0u8);
                }
            }
            if forall|i: int| 0 <= i < 32 ==> self@[i] == 0u8 {
                assert(self@ =~= zero@);
            }
        }
        *self == zero
    }
}

/// Two identities with the same bytes are the same identity.
pub proof fn lemma_identity_by_bytes(a: Identity, b: Identity)
    ensures
        (a == b) <==> (a@ == b@),
{
    if a@ == b@ {
        assert forall|i: int| 0 <= i < 32 implies a.bytes[i] == b.bytes[i] by {
            assert(a@[i] == b@[i]);
        }
        assert(a.bytes =~= b.bytes);
    }
}

} // verus!
