//! Small byte-array helpers shared by the codec, the envelope and the engine.
use vstd::array::*;
use vstd::prelude::*;

verus! {

/// Copies exactly `N` bytes into an array.
pub fn vec_to_array<const N: usize>(v: &Vec<u8>) -> (r: [u8; N])
    requires
        v@.len() == N,
    ensures
        r@ == v@,
{
    let mut a: [u8; N] = array_fill_for_copy_types(0u8);
    let mut i: usize = 0;
    while i < N
        invariant
            v@.len() == N,
            a@.len() == N,
            i <= N,
            forall|j: int| 0 <= j < i ==> a@[j] == v@[j],
        decreases N - i,
    {
        a[i] = v[i];
        i = i + 1;
    }
    assert(a@ =~= v@);
    a
}

/// Whether two byte slices hold the same bytes.
pub fn bytes_equal(a: &[u8], b: &[u8]) -> (r: bool)
    ensures
        r == (a@ == b@),
{
    if a.len() != b.len() {
        return false;
    }
    let mut i: usize = 0;
    while i < a.len()
        invariant
            a@.len() == b@.len(),
            i <= a@.len(),
            forall|j: int| 0 <= j < i ==> a@[j] == b@[j],
        decreases a@.len() - i,
    {
        if a[i] != b[i] {
            return false;
        }
        i = i + 1;
    }
    assert(a@ =~= b@);
    true
}

/// A copy of the bytes of `v`.
pub fn copy_bytes(v: &[u8]) -> (r: Vec<u8>)
    ensures
        r@ == v@,
{
    vstd::slice::slice_to_vec(v)
}

/// Copies a slice of exactly `N` bytes into an array.
pub fn slice_to_array<const N: usize>(v: &[u8]) -> (r: [u8; N])
    requires
        v@.len() == N,
    ensures
        r@ == v@,
{
    let mut a: [u8; N] = array_fill_for_copy_types(0u8);
    let mut i: usize = 0;
    while i < N
        invariant
            v@.len() == N,
            a@.len() == N,
            i <= N,
            forall|j: int| 0 <= j < i ==> a@[j] == v@[j],
        decreases N - i,
    {
        a[i] = v[i];
        i = i + 1;
    }
    assert(a@ =~= v@);
    a
}

} // verus!
