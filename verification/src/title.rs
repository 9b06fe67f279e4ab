//! The title reader's decision: the window system hands back a buffer of
//! UTF-16 code units (already truncated to the fixed capacity of the
//! read); a read of zero length means no title, anything else is decoded
//! lossily into text.

use vstd::prelude::*;

verus! {

/// The text that the lossy UTF-16 decoding yields for the given code
/// units; it depends on the code units alone.
pub uninterp spec fn utf16_lossy(units: Seq<u16>) -> Seq<char>;

/// Relies on `String::from_utf16_lossy`: decodes UTF-16 code units into
/// text, substituting the replacement character for invalid data; the
/// result is a function of the code units alone.
#[verifier::external_body]
fn decode_utf16_lossy(units: &[u16]) -> (r: String)
    ensures
        r@ == utf16_lossy(units@),
{
    String::from_utf16_lossy(units)
}

/// The title carried by the code units of one read: none when the read
/// was empty, the lossily decoded text otherwise.
pub fn read_title(units: &[u16]) -> (r: Option<String>)
    ensures
        (r is Some) == (units@.len() > 0),
        r matches Some(t) ==> t@ == utf16_lossy(units@),
{
    if units.len() == 0 {
        None
    } else {
        Some(decode_utf16_lossy(units))
    }
}

} // verus!
