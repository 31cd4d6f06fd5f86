//! A 32-byte opaque identity value, used for account identities, owners and
//! token mints.

use vstd::prelude::*;

verus! {

/// The number of bytes in a [`Pubkey`].
pub const PUBKEY_BYTES: usize = 32;

/// A fixed 32-byte identity value.
///
/// The view of a `Pubkey` is the sequence of its bytes; the type invariant
/// guarantees that the sequence always has exactly 32 elements.
#[derive(Debug)]
pub struct Pubkey {
    bytes: Vec<u8>,
}

impl Clone for Pubkey {
    fn clone(&self) -> (res: Self)
        ensures
            res@ == self@,
    {
        proof {
            use_type_invariant(self);
        }
        Pubkey { bytes: self.bytes.clone() }
    }
}

impl View for Pubkey {
    type V = Seq<u8>;

    closed spec fn view(&self) -> Seq<u8> {
        self.bytes@
    }
}

impl Pubkey {
    #[verifier::type_invariant]
    spec fn wf(self) -> bool {
        self.bytes@.len() == PUBKEY_BYTES
    }

    /// Builds a key from its 32 bytes.
    pub fn new_from_array(bytes: [u8; 32]) -> (key: Pubkey)
        ensures
            key@ == bytes@,
    {
        let mut v: Vec<u8> = Vec::new();
        let mut i: usize = 0;
        while i < 32
            invariant
                i <= 32,
                v@ == bytes@.subrange(0, i as int),
            decreases 32 - i,
        {
            v.push(bytes[i]);
            i = i + 1;
        }
        proof {
            assert(v@ =~= bytes@);
        }
        Pubkey { bytes: v }
    }

    /// Builds a key from a byte vector that must hold exactly 32 bytes.
    pub fn from_bytes(bytes: Vec<u8>) -> (key: Pubkey)
        requires
            bytes@.len() == PUBKEY_BYTES,
        ensures
            key@ == bytes@,
    {
        Pubkey { bytes }
    }

    /// The all-zero key.
    pub fn zeroed() -> (key: Pubkey)
        ensures
            key@ == Seq::new(PUBKEY_BYTES as nat, |i: int| 0u8),
    {
        let mut v: Vec<u8> = Vec::new();
        let mut i: usize = 0;
        while i < 32
            invariant
                i <= 32,
                v@ == Seq::new(i as nat, |j: int| 0u8),
            decreases 32 - i,
        {
            v.push(0u8);
            i = i + 1;
        }
        proof {
            assert(v@ =~= Seq::new(PUBKEY_BYTES as nat, |i: int| 0u8));
        }
        Pubkey { bytes: v }
    }

    /// The key's bytes as a slice; always 32 bytes long.
    pub fn as_bytes(&self) -> (bytes: &[u8])
        ensures
            bytes@ == self@,
            bytes@.len() == PUBKEY_BYTES,
    {
        proof {
            use_type_invariant(self);
        }
        self.bytes.as_slice()
    }

    /// The key's length in bytes, exposed for callers that reason about
    /// encoded sizes.
    pub fn len(&self) -> (n: usize)
        ensures
            n == PUBKEY_BYTES,
            self@.len() == PUBKEY_BYTES,
    {
        proof {
            use_type_invariant(self);
        }
        self.bytes.len()
    }

    /// Byte-for-byte equality of two keys.
    pub fn eq_bytes(&self, other: &Pubkey) -> (eq: bool)
        ensures
            eq <==> self@ == other@,
    {
        proof {
            use_type_invariant(self);
            use_type_invariant(other);
        }
        let mut i: usize = 0;
        while i < 32
            invariant
                i <= 32,
                self@.len() == 32,
                other@.len() == 32,
                forall|j: int| 0 <= j < i ==> self@[j] == other@[j],
            decreases 32 - i,
        {
            if self.bytes[i] != other.bytes[i] {
                return false;
            }
            i = i + 1;
        }
        proof {
            assert(self@ =~= other@);
        }
        true
    }
}

} // verus!
