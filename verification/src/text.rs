//! Turning the bytes of a closed buffer into text.

use vstd::prelude::*;
use vstd::utf8::{decode_utf8, valid_utf8};

verus! {

/// The text that lossy UTF-8 decoding makes of `bytes`: every well-formed
/// sequence becomes its character, and ill-formed input is replaced by
/// U+FFFD as the standard library does it.
pub uninterp spec fn utf8_lossy(bytes: Seq<u8>) -> Seq<char>;

/// `String::from_utf8_lossy`, with the result moved into a `String` of its
/// own. The result depends on the bytes alone. Of bytes that are valid UTF-8
/// it is the string that they encode; what replaces ill-formed input is not
/// stated here.
#[verifier::external_body]
pub(crate) fn from_utf8_lossy(bytes: &[u8]) -> (text: String)
    ensures
        text@ == utf8_lossy(bytes@),
        valid_utf8(bytes@) ==> text@ == decode_utf8(bytes@),
{
    String::from_utf8_lossy(bytes).into_owned()
}

} // verus!
