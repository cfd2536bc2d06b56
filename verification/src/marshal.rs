//! Marshaling of host-supplied byte buffers into in-process text.
//!
//! The host passes null-terminated buffers across the boundary. The caller
//! in the host shim reads each buffer up to its terminator and hands the
//! bytes in as `Option<&Vec<u8>>`: `None` stands for a null pointer. Text
//! is decoded lossily, so invalid encodings are repaired rather than
//! rejected.

use vstd::prelude::*;

verus! {

/// The characters that lossy UTF-8 decoding yields for the given bytes.
/// The decoding is a function of the bytes alone.
pub uninterp spec fn lossy_of(bytes: Seq<u8>) -> Seq<char>;

/// Holds when every byte is an ASCII code point.
pub open spec fn all_ascii(bytes: Seq<u8>) -> bool {
    forall|i: int| 0 <= i < bytes.len() ==> bytes[i] < 128
}

/// Relies on `String::from_utf8_lossy`: decodes the bytes as UTF-8 and
/// substitutes U+FFFD for each invalid sequence; valid UTF-8 (ASCII in
/// particular) decodes to itself, and no bytes decode to the empty string.
#[verifier::external_body]
fn lossy_string(bytes: &Vec<u8>) -> (r: String)
    ensures
        r@ == lossy_of(bytes@),
        bytes@.len() == 0 ==> r@.len() == 0,
        all_ascii(bytes@) ==> r@ == bytes@.map(|i: int, b: u8| b as char),
{
    String::from_utf8_lossy(bytes).into_owned()
}

/// Turns a host buffer into text: a null pointer (`None`) is rejected,
/// anything else is decoded lossily.
pub fn marshal_text(bytes: Option<&Vec<u8>>) -> (r: Option<String>)
    ensures
        r is Some <==> bytes is Some,
        bytes matches Some(b) ==> r matches Some(s) && s@ == lossy_of(b@),
{
    match bytes {
        None => None,
        Some(b) => Some(lossy_string(b)),
    }
}

} // verus!
