//! Small text primitives of std that vstd does not specify.
use vstd::prelude::*;
use vstd::utf8::*;

verus! {

/// Appends one character to a string.
///
/// Trusted: calls `String::push`, whose documentation says it appends the
/// given `char` to the end of the `String`; the contract claims exactly that.
#[verifier::external_body]
pub(crate) fn push_char(s: &mut String, c: char)
    ensures
        final(s)@ == old(s)@.push(c),
{
    s.push(c);
}

/// Decodes bytes as UTF-8.
///
/// Trusted: calls `std::str::from_utf8`, whose documentation says it returns
/// `Ok` exactly when the bytes are valid UTF-8, and then the string slice
/// that they encode. The contract states this with vstd's model of UTF-8
/// (`valid_utf8`, `decode_utf8`).
#[verifier::external_body]
pub(crate) fn utf8_decode(bytes: &[u8]) -> (r: Option<&str>)
    ensures
        r is Some <==> valid_utf8(bytes@),
        r matches Some(s) ==> s@ == decode_utf8(bytes@),
{
    std::str::from_utf8(bytes).ok()
}

} // verus!
