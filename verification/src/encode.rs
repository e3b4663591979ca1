//! Percent-encoding of a text for use as one segment of a URL path.

use vstd::prelude::*;
use vstd::utf8::encode_utf8;

verus! {

/// Whether `byte` is an ASCII letter or an ASCII digit.
pub open spec fn is_alphanumeric(byte: u8) -> bool {
    ||| 0x30 <= byte <= 0x39
    ||| 0x41 <= byte <= 0x5a
    ||| 0x61 <= byte <= 0x7a
}

/// The upper-case hexadecimal digit that stands for `v`, for `v` below
/// sixteen.
pub open spec fn hex_digit(v: nat) -> char {
    if v == 0 {
        '0'
    } else if v == 1 {
        '1'
    } else if v == 2 {
        '2'
    } else if v == 3 {
        '3'
    } else if v == 4 {
        '4'
    } else if v == 5 {
        '5'
    } else if v == 6 {
        '6'
    } else if v == 7 {
        '7'
    } else if v == 8 {
        '8'
    } else if v == 9 {
        '9'
    } else if v == 10 {
        'A'
    } else if v == 11 {
        'B'
    } else if v == 12 {
        'C'
    } else if v == 13 {
        'D'
    } else if v == 14 {
        'E'
    } else {
        'F'
    }
}

/// How one byte is written: an ASCII letter or digit as itself, any other
/// byte as `%` and its value in two upper-case hexadecimal digits.
pub open spec fn escaped_byte(byte: u8) -> Seq<char> {
    if is_alphanumeric(byte) {
        seq![byte as char]
    } else {
        seq!['%', hex_digit((byte / 16) as nat), hex_digit((byte % 16) as nat)]
    }
}

/// The bytes of `bytes`, each written as `escaped_byte` says, in order.
pub open spec fn escaped_bytes(bytes: Seq<u8>) -> Seq<char>
    decreases bytes.len(),
{
    if bytes.len() == 0 {
        Seq::empty()
    } else {
        escaped_bytes(bytes.drop_last()) + escaped_byte(bytes.last())
    }
}

/// The percent-encoding of `text`: its UTF-8 bytes, of which only ASCII
/// letters and digits are left as they are.
pub open spec fn percent_encoded(text: Seq<char>) -> Seq<char> {
    escaped_bytes(encode_utf8(text))
}

/// Trusted: calls `percent_encoding::utf8_percent_encode` with the set
/// `NON_ALPHANUMERIC` and collects what it yields. The contract claims that
/// the outcome is `percent_encoded` of the argument: that crate walks the
/// UTF-8 bytes of the text, keeps a byte as it is if it is ASCII and not in
/// the set, and writes every other byte as `%XX` in upper-case hexadecimal;
/// the set holds every ASCII byte that is neither a letter nor a digit.
#[verifier::external_body]
pub(crate) fn percent_encode(text: &str) -> (encoded: String)
    ensures
        encoded@ == percent_encoded(text@),
{
    percent_encoding::utf8_percent_encode(text, percent_encoding::NON_ALPHANUMERIC).to_string()
}

} // verus!
