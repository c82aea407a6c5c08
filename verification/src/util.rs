//! Byte-range and text helpers used by the header decoder.

use vstd::prelude::*;

verus! {

/// Copies the byte range `vec[start .. start + N]` into `arr`.
///
/// The caller must guarantee that the whole range lies inside `vec`; the
/// function then fills `arr` with exactly those bytes, in order.
pub fn get_subarray_of_vector<const N: usize>(arr: &mut [u8; N], vec: &Vec<u8>, start: usize)
    requires
        start + N <= vec@.len(),
    ensures
        final(arr)@ == vec@.subrange(start as int, start as int + N as int),
{
    let len = vec.len();
    let mut i: usize = 0;
    while i < N
        invariant
            i <= N,
            len == vec@.len(),
            start + N <= len,
            forall|j: int| 0 <= j < i ==> arr@[j] == vec@[start + j],
        decreases N - i,
    {
        arr[i] = vec[start + i];
        i += 1;
    }
    assert(arr@ =~= vec@.subrange(start as int, start as int + N as int));
}

/// Interprets the given bytes as UTF-8 encoded text.
///
/// Relies on `core::str::from_utf8`: it returns `Ok` exactly when the bytes
/// form a valid UTF-8 encoding, and the resulting string is their decoding.
#[verifier::external_body]
pub fn bytes_to_string(bytes: &[u8]) -> (r: Option<String>)
    ensures
        r is Some <==> vstd::utf8::valid_utf8(bytes@),
        r matches Some(s) ==> s@ == vstd::utf8::decode_utf8(bytes@),
{
    match core::str::from_utf8(bytes) {
        Ok(s) => Some(s.to_owned()),
        Err(_) => None,
    }
}

} // verus!
