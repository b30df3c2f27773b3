//! Decimal rendering of unsigned integers, verified down to the exact
//! character sequence.
//!
//! The height metadata attached to a query call is a decimal string; this
//! module gives that string a precise mathematical description and an
//! implementation proved against it.

use vstd::prelude::*;

verus! {

/// The ASCII byte of the decimal digit `d`.
pub open spec fn dec_digit_byte(d: nat) -> u8
    recommends
        d < 10,
{
    (48 + d) as u8
}

/// The ASCII bytes of `n` written in decimal, most significant digit first,
/// with no leading zeros (zero itself is a single `'0'`).
pub open spec fn dec_bytes_of(n: nat) -> Seq<u8>
    decreases n,
{
    if n < 10 {
        seq![dec_digit_byte(n)]
    } else {
        dec_bytes_of(n / 10).push(dec_digit_byte(n % 10))
    }
}

/// The characters of `n` written in decimal.
pub open spec fn dec_chars_of(n: nat) -> Seq<char> {
    dec_bytes_of(n).map_values(|b: u8| b as char)
}

/// Every byte of a decimal rendering is an ASCII digit.
pub proof fn lemma_dec_bytes_are_digits(n: nat)
    ensures
        forall|i: int|
            0 <= i < dec_bytes_of(n).len() ==> 48 <= #[trigger] dec_bytes_of(n)[i] <= 57,
    decreases n,
{
    if n >= 10 {
        lemma_dec_bytes_are_digits(n / 10);
        assert(forall|i: int|
            0 <= i < dec_bytes_of(n).len() - 1 ==> dec_bytes_of(n)[i] == dec_bytes_of(n / 10)[i]);
    }
}

/// Relies on `String::from_utf8`: a buffer of ASCII bytes decodes to exactly
/// those bytes as characters (ASCII is valid UTF-8, one byte per character).
#[verifier::external_body]
pub(crate) fn ascii_bytes_to_string(v: Vec<u8>) -> (r: String)
    requires
        forall|i: int| 0 <= i < v@.len() ==> v@[i] < 128,
    ensures
        r@ == v@.map_values(|b: u8| b as char),
{
    String::from_utf8(v).unwrap_or_default()
}

/// The decimal digits of `n`, least significant last, as ASCII bytes.
pub(crate) fn u64_dec_bytes(n: u64) -> (v: Vec<u8>)
    ensures
        v@ == dec_bytes_of(n as nat),
    decreases n,
{
    if n < 10 {
        let mut v: Vec<u8> = Vec::new();
        v.push(48 + n as u8);
        assert(v@ =~= dec_bytes_of(n as nat));
        v
    } else {
        let mut v = u64_dec_bytes(n / 10);
        v.push(48 + (n % 10) as u8);
        v
    }
}

/// Renders `n` in decimal.
pub fn u64_to_dec_string(n: u64) -> (r: String)
    ensures
        r@ == dec_chars_of(n as nat),
{
    let v = u64_dec_bytes(n);
    proof {
        lemma_dec_bytes_are_digits(n as nat);
    }
    ascii_bytes_to_string(v)
}

} // verus!
