//! Hex-encoded resource paths: an exact description of hex decoding, and a
//! best-effort view of the decoded bytes as text.

use vstd::prelude::*;

verus! {

/// A hexadecimal digit, either case.
pub open spec fn is_hex_digit_char(c: char) -> bool {
    ('0' <= c && c <= '9') || ('a' <= c && c <= 'f') || ('A' <= c && c <= 'F')
}

/// The value of a hexadecimal digit.
pub open spec fn hex_digit_val(c: char) -> u8
    recommends
        is_hex_digit_char(c),
{
    if '0' <= c && c <= '9' {
        (c as u8 - 48) as u8
    } else if 'a' <= c && c <= 'f' {
        (c as u8 - 87) as u8
    } else {
        (c as u8 - 55) as u8
    }
}

/// Well-formed hex: an even number of characters, every one a hex digit.
pub open spec fn is_hex_seq(s: Seq<char>) -> bool {
    s.len() % 2 == 0 && (forall|i: int| 0 <= i < s.len() ==> is_hex_digit_char(#[trigger] s[i]))
}

/// The bytes a well-formed hex string stands for: each pair of digits is one
/// byte, high digit first.
pub open spec fn hex_bytes_of(s: Seq<char>) -> Seq<u8> {
    Seq::new(s.len() / 2, |i: int| (16 * hex_digit_val(s[2 * i]) + hex_digit_val(
        s[2 * i + 1],
    )) as u8)
}

#[verifier::external_type_specification]
#[verifier::external_body]
pub struct ExFromHexError(hex::FromHexError);

/// Relies on `hex::decode`: it succeeds exactly on a well-formed hex string
/// (even length, hex digits only), and then returns the digit pairs' bytes.
#[verifier::external_body]
pub(crate) fn hex_decode(s: &str) -> (r: Result<Vec<u8>, hex::FromHexError>)
    ensures
        r is Ok <==> is_hex_seq(s@),
        r matches Ok(v) ==> v@ == hex_bytes_of(s@),
{
    hex::decode(s)
}

/// What lossy UTF-8 decoding makes of a byte sequence; a function of the
/// bytes alone.
pub uninterp spec fn utf8_lossy_of(bytes: Seq<u8>) -> Seq<char>;

/// Relies on `String::from_utf8_lossy`: the result depends on the bytes
/// alone (well-formed UTF-8 decodes to its text, malformed sequences become
/// replacement characters).
#[verifier::external_body]
pub(crate) fn utf8_lossy_to_string(v: &Vec<u8>) -> (r: String)
    ensures
        r@ == utf8_lossy_of(v@),
{
    String::from_utf8_lossy(v.as_slice()).into_owned()
}

} // verus!
