//! Decoding the script's captured byte streams as text.
//!
//! The two functions here are the library's only trusted items: thin
//! wrappers over std's UTF-8 decoders, with contracts stated against
//! vstd's model of UTF-8.

use vstd::prelude::*;
use vstd::utf8::decode_utf8;
use vstd::utf8::valid_utf8;

verus! {

/// What `String::from_utf8_lossy` yields on the given bytes; the result
/// depends on the bytes alone.
pub uninterp spec fn lossy_decode(b: Seq<u8>) -> Seq<char>;

/// Relies on `String::from_utf8`: `Some` exactly when the bytes are valid
/// UTF-8, and then the string is their decoding.
#[verifier::external_body]
pub(crate) fn utf8_to_string(b: Vec<u8>) -> (r: Option<String>)
    ensures
        r is Some <==> valid_utf8(b@),
        r matches Some(s) ==> s@ == decode_utf8(b@),
{
    String::from_utf8(b).ok()
}

/// Relies on `String::from_utf8_lossy`: the result depends on the bytes
/// alone, and valid UTF-8 passes through unchanged.
#[verifier::external_body]
pub(crate) fn utf8_to_string_lossy(b: &Vec<u8>) -> (r: String)
    ensures
        r@ == lossy_decode(b@),
        valid_utf8(b@) ==> r@ == decode_utf8(b@),
{
    String::from_utf8_lossy(b.as_slice()).into_owned()
}

} // verus!
