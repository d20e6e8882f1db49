//! Byte-to-text conversion for the driver's diagnostic logs.

use vstd::prelude::*;

verus! {

/// The text that lossy UTF-8 decoding yields for the given bytes.  The
/// decoding depends on the bytes alone; valid UTF-8 decodes to itself,
/// with invalid sequences replaced, so the result is never longer than
/// the input.
pub uninterp spec fn lossy_utf8(bytes: Seq<u8>) -> Seq<char>;

/// Takes a `&[u8]`, returns a `String`.  The conversion may be lossy.
///
/// Relies on `String::from_utf8_lossy` of std: the decoding is a pure
/// function of the bytes, replacing invalid sequences; it yields no more
/// characters than there were bytes, and none for no bytes.
#[verifier::external_body]
pub fn slice_to_string(slice: &[u8]) -> (r: String)
    ensures
        r@ == lossy_utf8(slice@),
        r@.len() <= slice@.len(),
        slice@.len() == 0 ==> r@.len() == 0,
{
    String::from_utf8_lossy(slice).into_owned()
}

/// Takes a `Vec<u8>`, returns a `String`.  The conversion may be lossy.
/// Always shorten the vector to exclude a trailing null byte before
/// converting.
pub fn vec_to_string(vec: Vec<u8>) -> (r: String)
    ensures
        r@ == lossy_utf8(vec@),
        r@.len() <= vec@.len(),
        vec@.len() == 0 ==> r@.len() == 0,
{
    slice_to_string(vec.as_slice())
}

} // verus!
