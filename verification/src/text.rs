//! ASCII byte/character conversions used for host names and error
//! messages.

use vstd::prelude::*;

verus! {

/// The characters of a byte sequence, each byte read as the character
/// with the same code.  Meaningful for ASCII bytes.
pub open spec fn spec_ascii_chars(b: Seq<u8>) -> Seq<char> {
    Seq::new(b.len(), |i: int| b[i] as char)
}

/// Relies on `String::from_utf8` of std: ASCII bytes are valid UTF-8,
/// and each decodes to the character with the same code, so the call
/// cannot fail and returns exactly those characters.
#[verifier::external_body]
pub(crate) fn ascii_to_string(bytes: Vec<u8>) -> (s: String)
    requires
        forall|i: int| 0 <= i < bytes@.len() ==> bytes@[i] < 128,
    ensures
        s@ == spec_ascii_chars(bytes@),
{
    String::from_utf8(bytes).unwrap()
}

} // verus!
