use sha3::Digest;
use vstd::prelude::*;

verus! {

/// Length in bytes of a digest.
pub const HASH_BYTES: usize = 32;

/// A 32-byte digest.
#[derive(Debug, Clone, Copy)]
pub struct Hash(pub [u8; HASH_BYTES]);

impl View for Hash {
    type V = Seq<u8>;

    open spec fn view(&self) -> Seq<u8> {
        self.0@
    }
}

/// The 32 zero bytes.
pub open spec fn zero_hash() -> Seq<u8> {
    Seq::new(32, |i: int| 0u8)
}

/// The contents of a sequence of byte vectors.
pub open spec fn byte_strings(v: Seq<Vec<u8>>) -> Seq<Seq<u8>> {
    v.map_values(|b: Vec<u8>| b@)
}

/// The Keccak-256 digest of a byte string.
pub uninterp spec fn keccak_of(data: Seq<u8>) -> Seq<u8>;

/// Relies on `sha3::Keccak256::digest`: the 32-byte Keccak-256 digest, which
/// depends on the input bytes alone.
#[verifier::external_body]
pub(crate) fn hash_keccak(data: &[u8]) -> (r: Hash)
    ensures
        r@ == keccak_of(data@),
{
    Hash(sha3::Keccak256::digest(data).into())
}

impl Hash {
    /// Whether two digests hold the same bytes.
    pub fn equals(&self, other: &Hash) -> (r: bool)
        ensures
            r == (self@ == other@),
    {
        let mut i: usize = 0;
        while i < HASH_BYTES
            invariant
                i <= 32,
                self@.len() == 32,
                other@.len() == 32,
                forall|j: int| 0 <= j < i ==> self@[j] == other@[j],
            decreases 32 - i,
        {
            if self.0[i] != other.0[i] {
                return false;
            }
            i = i + 1;
        }
        assert(self@ =~= other@);
        true
    }

    /// Whether every byte of the digest is zero.
    pub fn is_zero(&self) -> (r: bool)
        ensures
            r == (self@ == zero_hash()),
    {
        let mut i: usize = 0;
        while i < HASH_BYTES
            invariant
                i <= 32,
                self@.len() == 32,
                forall|j: int| 0 <= j < i ==> self@[j] == 0u8,
            decreases 32 - i,
        {
            if self.0[i] != 0 {
                assert(self@[i as int] != zero_hash()[i as int]);
                return false;
            }
            i = i + 1;
        }
        assert(self@ =~= zero_hash());
        true
    }

    /// The digest's bytes in a vector.
    pub fn to_vec(&self) -> (r: Vec<u8>)
        ensures
            r@ == self@,
    {
        let mut out: Vec<u8> = Vec::new();
        append_bytes(&mut out, self.0.as_slice());
        out
    }
}

/// Whether two byte strings are equal.
pub fn bytes_equal(a: &[u8], b: &[u8]) -> (r: bool)
    ensures
        r == (a@ == b@),
{
    if a.len() != b.len() {
        return false;
    }
    let mut i: usize = 0;
    while i < a.len()
        invariant
            i <= a@.len(),
            a@.len() == b@.len(),
            forall|j: int| 0 <= j < i ==> a@[j] == b@[j],
        decreases a@.len() - i,
    {
        if a[i] != b[i] {
            return false;
        }
        i = i + 1;
    }
    assert(a@ =~= b@);
    true
}

/// Appends `tail` to `v`.
pub fn append_bytes(v: &mut Vec<u8>, tail: &[u8])
    ensures
        final(v)@ == old(v)@ + tail@,
{
    let ghost start = v@;
    let mut i: usize = 0;
    while i < tail.len()
        invariant
            i <= tail@.len(),
            v@ == start + tail@.subrange(0, i as int),
        decreases tail@.len() - i,
    {
        v.push(tail[i]);
        i = i + 1;
        assert(tail@.subrange(0, i as int) == tail@.subrange(0, i - 1 as int).push(tail@[i - 1]));
    }
    assert(tail@.subrange(0, tail@.len() as int) == tail@);
}

/// The concatenation of two byte strings.
pub fn concat(a: &[u8], b: &[u8]) -> (r: Vec<u8>)
    ensures
        r@ == a@ + b@,
{
    let mut out: Vec<u8> = Vec::new();
    append_bytes(&mut out, a);
    append_bytes(&mut out, b);
    assert(Seq::<u8>::empty() + a@ == a@);
    out
}

} // verus!
