//! Hashes.
use vstd::prelude::*;

verus! {

/// A 32-byte hash.
#[derive(Clone, Copy, Debug, PartialEq, Eq, Hash)]
pub struct Hash(pub [u8; 32]);

impl Hash {
    /// The bytes of the hash.
    pub fn to_vec(&self) -> (r: Vec<u8>)
        ensures
            r@ == self.0@,
    {
        let mut r: Vec<u8> = Vec::new();
        let mut i: usize = 0;
        while i < 32
            invariant
                i <= 32,
                r@ == self.0@.subrange(0, i as int),
            decreases 32 - i,
        {
            r.push(self.0[i]);
            i += 1;
            assert(r@ =~= self.0@.subrange(0, i as int));
        }
        assert(r@ =~= self.0@);
        r
    }
}

/// Copies a slice of exactly `N` bytes into an array.
pub fn copy_u8_array<const N: usize>(slice: &[u8]) -> (r: [u8; N])
    requires
        slice@.len() == N,
    ensures
        r@ == slice@,
{
    let mut r: [u8; N] = [0u8; N];
    let mut i: usize = 0;
    while i < N
        invariant
            slice@.len() == N,
            i <= N,
            forall|j: int| 0 <= j < i ==> r@[j] == slice@[j],
        decreases N - i,
    {
        r[i] = slice[i];
        i += 1;
    }
    assert(r@ =~= slice@);
    r
}

} // verus!
