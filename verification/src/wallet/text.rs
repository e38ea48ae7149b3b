//! Hexadecimal text fields, as the text layout carries them.

use vstd::prelude::*;

verus! {

/// The value of a hexadecimal digit, of either case; `None` for any other
/// byte.
pub open spec fn hex_digit_value(b: u8) -> Option<int> {
    if 0x30 <= b <= 0x39 {
        Some(b - 0x30)
    } else if 0x61 <= b <= 0x66 {
        Some(b - 0x61 + 10)
    } else if 0x41 <= b <= 0x46 {
        Some(b - 0x41 + 10)
    } else {
        None
    }
}

/// An even number of hexadecimal digits.
pub open spec fn is_hex_text(t: Seq<u8>) -> bool {
    &&& t.len() % 2 == 0
    &&& forall|i: int| 0 <= i < t.len() ==> hex_digit_value(#[trigger] t[i]) is Some
}

/// The bytes that pairs of digits stand for, the high digit first.
pub open spec fn hex_bytes(t: Seq<u8>) -> Seq<u8> {
    Seq::new(
        t.len() / 2,
        |i: int| (16 * hex_digit_value(t[2 * i]).unwrap() + hex_digit_value(t[2 * i + 1]).unwrap()) as u8,
    )
}

/// What a text decodes to: its bytes where it is hexadecimal, else nothing.
pub open spec fn hex_decoding(t: Seq<u8>) -> Option<Seq<u8>> {
    if is_hex_text(t) {
        Some(hex_bytes(t))
    } else {
        None
    }
}

/// A text without the white space at its two ends, as `str::trim` cuts it.
pub uninterp spec fn trimmed(text: Seq<char>) -> Seq<char>;

/// Runs `str::trim`, which returns the text between the leading and the
/// trailing white space. What counts as white space is Unicode's business:
/// the result is named, and nothing else is claimed of it.
#[verifier::external_body]
fn trim_text(text: &str) -> (out: &str)
    ensures
        out@ == trimmed(text@),
{
    text.trim()
}

/// Runs `hex::decode`, which takes an even number of the digits `0-9`, `a-f`
/// and `A-F` and nothing else, and gives one byte for each pair of digits,
/// the high digit first.
#[verifier::external_body]
fn hex_decode(digits: &[u8]) -> (r: Option<Vec<u8>>)
    ensures
        r is Some <==> is_hex_text(digits@),
        r matches Some(bytes) ==> bytes@ == hex_bytes(digits@),
{
    hex::decode(digits).ok()
}

/// Decodes hexadecimal digits into bytes.
pub fn decode_hex(digits: &[u8]) -> (r: Option<Vec<u8>>)
    ensures
        match r {
            Some(bytes) => hex_decoding(digits@) == Some(bytes@),
            None => hex_decoding(digits@) is None,
        },
{
    hex_decode(digits)
}

/// What a text field holds: the decoding of its text without the white
/// space at its two ends.
pub open spec fn field_decoding(field: Seq<char>) -> Option<Seq<u8>> {
    hex_decoding(vstd::utf8::encode_utf8(trimmed(field)))
}

/// Decodes a hexadecimal text field, white space at its ends set aside.
pub fn decode_hex_field(field: &str) -> (r: Option<Vec<u8>>)
    ensures
        match r {
            Some(bytes) => field_decoding(field@) == Some(bytes@),
            None => field_decoding(field@) is None,
        },
{
    let inner: &str = trim_text(field);
    decode_hex(inner.as_bytes())
}

} // verus!
