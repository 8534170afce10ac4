use vstd::prelude::*;

verus! {

/// The text that lossy UTF-8 decoding yields for a byte sequence. The result
/// depends on the bytes alone; invalid sequences become replacement
/// characters.
pub uninterp spec fn lossy_utf8(bytes: Seq<u8>) -> Seq<char>;

/// Relies on `String::from_utf8_lossy`: decodes the bytes as UTF-8, replacing
/// invalid sequences with U+FFFD; the result is a function of the bytes alone,
/// and empty input decodes to the empty string.
#[verifier::external_body]
pub fn lossy_string(bytes: &Vec<u8>) -> (r: String)
    ensures
        r@ == lossy_utf8(bytes@),
        bytes@.len() == 0 ==> r@.len() == 0,
{
    String::from_utf8_lossy(bytes).into_owned()
}

} // verus!
