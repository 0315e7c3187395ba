use vstd::prelude::*;
use vstd::string::StringSliceAdditionalSpecFns;
use vstd::utf8::*;

verus! {

/// Calls `core::str::from_utf8`: trusted to succeed exactly on the byte
/// strings that are valid UTF-8 (vstd's `valid_utf8`) and, when it does, to
/// hand back a string whose UTF-8 encoding is those very bytes.
#[verifier::external_body]
pub(crate) fn str_from_utf8(bytes: &[u8]) -> (r: Option<&str>)
    ensures
        r is Some <==> valid_utf8(bytes@),
        r matches Some(s) ==> s.spec_bytes() == bytes@,
{
    core::str::from_utf8(bytes).ok()
}

/// The text of a byte string when it is valid UTF-8.
pub open spec fn utf8_text(bytes: Seq<u8>) -> Option<Seq<char>> {
    if valid_utf8(bytes) {
        Some(decode_utf8(bytes))
    } else {
        None
    }
}

/// Decodes `bytes` as UTF-8, or gives `None` where they are not valid UTF-8.
pub(crate) fn decode(bytes: &[u8]) -> (r: Option<&str>)
    ensures
        r is Some <==> utf8_text(bytes@) is Some,
        r matches Some(s) ==> s@ == utf8_text(bytes@)->0,
{
    let r = str_from_utf8(bytes);
    proof {
        if let Some(s) = r {
            encode_utf8_decode_utf8(s@);
        }
    }
    r
}

} // verus!
