//! Account identifiers: 32 raw bytes, compared byte for byte.

use vstd::prelude::*;
use vstd::std_specs::cmp::PartialEqSpecImpl;

verus! {

/// Number of bytes in an account identifier.
pub const PUBKEY_BYTES: usize = 32;

/// A 32-byte account identifier.
///
/// Its view is the sequence of its bytes; two identifiers are equal exactly
/// when their views are.
#[derive(Clone, Copy, Debug, Eq, Hash)]
pub struct Pubkey(pub [u8; 32]);

impl View for Pubkey {
    type V = Seq<u8>;

    open spec fn view(&self) -> Seq<u8> {
        self.0@
    }
}

impl PartialEq for Pubkey {
    fn eq(&self, other: &Pubkey) -> (r: bool) {
        let mut i: usize = 0;
        while i < 32
            invariant
                i <= 32,
                forall|j: int| 0 <= j < i ==> self.0[j] == other.0[j],
            decreases 32 - i,
        {
            if self.0[i] != other.0[i] {
                return false;
            }
            i += 1;
        }
        assert(self.0 =~= other.0);
        true
    }
}

impl PartialEqSpecImpl for Pubkey {
    open spec fn obeys_eq_spec() -> bool {
        true
    }

    open spec fn eq_spec(&self, other: &Pubkey) -> bool {
        *self == *other
    }
}

impl Default for Pubkey {
    fn default() -> (key: Pubkey)
        ensures
            key@ == Seq::new(32, |i: int| 0u8),
    {
        let key = Pubkey([0u8; 32]);
        assert(key@ =~= Seq::new(32, |i: int| 0u8));
        key
    }
}

impl Pubkey {
    /// The identifier whose bytes are the first 32 elements of `s`.
    pub open spec fn spec_new(s: Seq<u8>) -> Pubkey {
        Pubkey(
            [
                s[0], s[1], s[2], s[3], s[4], s[5], s[6], s[7],
                s[8], s[9], s[10], s[11], s[12], s[13], s[14], s[15],
                s[16], s[17], s[18], s[19], s[20], s[21], s[22], s[23],
                s[24], s[25], s[26], s[27], s[28], s[29], s[30], s[31],
            ],
        )
    }

    /// `spec_new` and the view are inverse to each other.
    pub proof fn lemma_spec_new(s: Seq<u8>)
        requires
            s.len() >= 32,
        ensures
            Pubkey::spec_new(s)@ == s.subrange(0, 32),
    {
        assert(Pubkey::spec_new(s)@ =~= s.subrange(0, 32));
    }

    /// An identifier is determined by its bytes.
    pub proof fn lemma_view_injective(a: Pubkey, b: Pubkey)
        ensures
            a@ == b@ <==> a == b,
            a@.len() == 32,
            Pubkey::spec_new(a@) == a,
    {
        if a@ == b@ {
            assert(a.0 =~= b.0);
        }
        assert(Pubkey::spec_new(a@).0 =~= a.0);
    }

    /// Wraps 32 bytes as an identifier.
    pub fn new_from_array(bytes: [u8; 32]) -> (key: Pubkey)
        ensures
            key == Pubkey(bytes),
            key@ == bytes@,
    {
        Pubkey(bytes)
    }

    /// Reads an identifier from a slice of exactly 32 bytes.
    pub fn new(bytes: &[u8]) -> (key: Pubkey)
        requires
            bytes@.len() == 32,
        ensures
            key@ == bytes@,
            key == Pubkey::spec_new(bytes@),
    {
        let mut raw = [0u8; 32];
        let mut i: usize = 0;
        while i < 32
            invariant
                i <= 32,
                bytes@.len() == 32,
                forall|j: int| 0 <= j < i ==> raw[j] == bytes@[j],
            decreases 32 - i,
        {
            raw[i] = bytes[i];
            i += 1;
        }
        let key = Pubkey(raw);
        assert(key@ =~= bytes@);
        assert(key.0 =~= Pubkey::spec_new(bytes@).0);
        key
    }

    /// The 32 bytes of the identifier.
    pub fn to_bytes(&self) -> (bytes: [u8; 32])
        ensures
            bytes == self.0,
            bytes@ == self@,
    {
        self.0
    }
}

} // verus!
