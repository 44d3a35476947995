//! Fixed-size identifiers: account keys and operation hashes.

use vstd::prelude::*;

verus! {

/// An identifier that can be compared exactly in executable code.
pub trait Key: Sized + Copy {
    /// Whether the two identifiers are the same value.
    fn same(&self, other: &Self) -> (r: bool)
        ensures
            r == (*self == *other),
    ;
}

/// Byte-wise comparison of two 32-byte arrays.
pub fn bytes_equal(a: &[u8; 32], b: &[u8; 32]) -> (r: bool)
    ensures
        r == (*a == *b),
{
    let mut i: usize = 0;
    while i < 32
        invariant
            i <= 32,
            forall|j: int| 0 <= j < i ==> a[j] == b[j],
        decreases 32 - i,
    {
        if a[i] != b[i] {
            return false;
        }
        i += 1;
    }
    proof {
        assert(*a =~= *b);
    }
    true
}

/// The public key that identifies an account or a role holder.
#[derive(Clone, Copy, Debug, PartialEq, Eq, Hash)]
pub struct PublicKey {
    pub bytes: [u8; 32],
}

/// The hash that identifies one operation.
#[derive(Clone, Copy, Debug, PartialEq, Eq, Hash)]
pub struct TxHash {
    pub bytes: [u8; 32],
}

impl PublicKey {
    /// A key made of the given bytes.
    pub fn new(bytes: [u8; 32]) -> (r: PublicKey)
        ensures
            r.bytes == bytes,
    {
        PublicKey { bytes }
    }
}

impl TxHash {
    /// A hash made of the given bytes.
    pub fn new(bytes: [u8; 32]) -> (r: TxHash)
        ensures
            r.bytes == bytes,
    {
        TxHash { bytes }
    }
}

impl Key for PublicKey {
    fn same(&self, other: &Self) -> (r: bool) {
        bytes_equal(&self.bytes, &other.bytes)
    }
}

impl Key for TxHash {
    fn same(&self, other: &Self) -> (r: bool) {
        bytes_equal(&self.bytes, &other.bytes)
    }
}

} // verus!
