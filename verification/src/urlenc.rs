//! Percent-encoding of the query values this service puts into redirect
//! URLs, with an exact byte-level spec for the outside encoder.

use vstd::prelude::*;
use vstd::string::StringSliceAdditionalSpecFns;

verus! {

/// The uppercase hex digit character for a value in `0..16`, as a percent
/// escape uses it.
pub open spec fn upper_hex_digit_char(d: int) -> char {
    if d == 0 {
        '0'
    } else if d == 1 {
        '1'
    } else if d == 2 {
        '2'
    } else if d == 3 {
        '3'
    } else if d == 4 {
        '4'
    } else if d == 5 {
        '5'
    } else if d == 6 {
        '6'
    } else if d == 7 {
        '7'
    } else if d == 8 {
        '8'
    } else if d == 9 {
        '9'
    } else if d == 10 {
        'A'
    } else if d == 11 {
        'B'
    } else if d == 12 {
        'C'
    } else if d == 13 {
        'D'
    } else if d == 14 {
        'E'
    } else {
        'F'
    }
}

/// A byte that percent-encoding leaves as it is: an ASCII alphanumeric or
/// one of `-`, `.`, `_`, `~`.
pub open spec fn is_url_safe_byte(b: u8) -> bool {
    ||| 0x30 <= b <= 0x39  // '0'..='9'
    ||| 0x41 <= b <= 0x5a  // 'A'..='Z'
    ||| 0x61 <= b <= 0x7a  // 'a'..='z'
    ||| b == 0x2d  // '-'
    ||| b == 0x2e  // '.'
    ||| b == 0x5f  // '_'
    ||| b == 0x7e  // '~'
}

/// Percent-encoding of a byte string: safe bytes stand as themselves, every
/// other byte as `%XX` with uppercase hex digits.
pub open spec fn spec_url_encode_bytes(bytes: Seq<u8>) -> Seq<char>
    decreases bytes.len(),
{
    if bytes.len() == 0 {
        Seq::<char>::empty()
    } else {
        spec_url_encode_bytes(bytes.drop_last()) + (if is_url_safe_byte(bytes.last()) {
            seq![(bytes.last() as u32) as char]
        } else {
            seq![
                '%',
                upper_hex_digit_char(bytes.last() as int / 16),
                upper_hex_digit_char(bytes.last() as int % 16),
            ]
        })
    }
}

/// Relies on `urlencoding::encode`: percent-encodes every byte of the
/// string's UTF-8 form except ASCII alphanumerics and `-`, `.`, `_`, `~`,
/// writing `%XX` escapes with uppercase hex digits.
#[verifier::external_body]
pub fn url_encode(s: &str) -> (r: String)
    ensures
        r@ == spec_url_encode_bytes(s.spec_bytes()),
{
    urlencoding::encode(s).into_owned()
}

} // verus!
