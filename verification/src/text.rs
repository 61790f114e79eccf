//! Distinguishing text from binary: a byte string is exposed as text exactly
//! when its bytes are valid UTF-8.

use vstd::prelude::*;

verus! {

/// What `str::from_utf8` returns on the given bytes: the decoded text when
/// the bytes are valid UTF-8, nothing otherwise. A function of the bytes
/// alone.
pub uninterp spec fn utf8_decode(bytes: Seq<u8>) -> Option<Seq<char>>;

/// Relies on core::str::from_utf8 (and str::to_owned, which copies the text):
/// whether a byte string is valid UTF-8, and the text it decodes to, depend
/// on the bytes alone.
#[verifier::external_body]
pub(crate) fn utf8_to_text(bytes: &Vec<u8>) -> (r: Option<String>)
    ensures
        r matches Some(s) ==> utf8_decode(bytes@) == Some(s@),
        r is None ==> utf8_decode(bytes@) is None,
{
    match core::str::from_utf8(bytes.as_slice()) {
        Ok(s) => Some(s.to_owned()),
        Err(_) => None,
    }
}

} // verus!
