//! Signature primitives of the session codec: HMAC-SHA256 under the
//! deployment's signing key, rendered as a lowercase hex string.
//!
//! The tag itself is computed by an outside crate and is only named here
//! (`hmac_sha256_of`); the hex rendering has an exact spec (`spec_hex_lower`).

use vstd::prelude::*;

verus! {

/// The lowercase hex digit character for a value in `0..16`.
pub open spec fn hex_digit_char(d: int) -> char {
    if d == 0 {
        '0'
    } else if d == 1 {
        '1'
    } else if d == 2 {
        '2'
    } else if d == 3 {
        '3'
    } else if d == 4 {
        '4'
    } else if d == 5 {
        '5'
    } else if d == 6 {
        '6'
    } else if d == 7 {
        '7'
    } else if d == 8 {
        '8'
    } else if d == 9 {
        '9'
    } else if d == 10 {
        'a'
    } else if d == 11 {
        'b'
    } else if d == 12 {
        'c'
    } else if d == 13 {
        'd'
    } else if d == 14 {
        'e'
    } else {
        'f'
    }
}

pub open spec fn is_hex_char(c: char) -> bool {
    exists|d: int| 0 <= d < 16 && c == hex_digit_char(d)
}

/// The lowercase hex rendering of a byte string: two digits per byte, high
/// nibble first.
pub open spec fn spec_hex_lower(bytes: Seq<u8>) -> Seq<char>
    decreases bytes.len(),
{
    if bytes.len() == 0 {
        Seq::<char>::empty()
    } else {
        spec_hex_lower(bytes.drop_last()) + seq![
            hex_digit_char(bytes.last() as int / 16),
            hex_digit_char(bytes.last() as int % 16),
        ]
    }
}

pub proof fn lemma_hex_lower_len(bytes: Seq<u8>)
    ensures
        spec_hex_lower(bytes).len() == 2 * bytes.len(),
    decreases bytes.len(),
{
    if bytes.len() > 0 {
        lemma_hex_lower_len(bytes.drop_last());
    }
}

/// Every character of a hex rendering is a lowercase hex digit; none is a
/// `.`, so a credential's separator cannot occur inside its signature part.
pub proof fn lemma_hex_lower_chars(bytes: Seq<u8>)
    ensures
        forall|i: int|
            0 <= i < spec_hex_lower(bytes).len() ==> is_hex_char(#[trigger] spec_hex_lower(bytes)[i]),
    decreases bytes.len(),
{
    if bytes.len() > 0 {
        lemma_hex_lower_chars(bytes.drop_last());
        let lo = bytes.last() as int % 16;
        let hi = bytes.last() as int / 16;
        assert(0 <= hi < 16 && 0 <= lo < 16);
        assert(is_hex_char(hex_digit_char(hi)));
        assert(is_hex_char(hex_digit_char(lo)));
        let s = spec_hex_lower(bytes);
        let p = spec_hex_lower(bytes.drop_last());
        assert forall|i: int| 0 <= i < s.len() implies is_hex_char(#[trigger] s[i]) by {
            if i < p.len() {
                assert(s[i] == p[i]);
            } else if i == p.len() {
                assert(s[i] == hex_digit_char(hi));
            } else {
                assert(s[i] == hex_digit_char(lo));
            }
        }
    }
}

/// The HMAC-SHA256 tag of a message under a key, both given as strings and
/// hashed over their UTF-8 bytes.  A function of its two arguments alone.
pub uninterp spec fn hmac_sha256_of(key: Seq<char>, msg: Seq<char>) -> Seq<u8>;

/// Relies on `hmac_sha256::HMAC::mac`: the 32-byte HMAC-SHA256 tag of the
/// message under the key, determined by those two arguments alone.
#[verifier::external_body]
fn hmac_sha256_sign(key: &str, msg: &str) -> (r: Vec<u8>)
    ensures
        r@ == hmac_sha256_of(key@, msg@),
        r@.len() == 32,
{
    hmac_sha256::HMAC::mac(msg.as_bytes(), key.as_bytes()).to_vec()
}

/// Relies on `hex::encode`: two lowercase hex digits per byte, high nibble
/// first, in byte order.
#[verifier::external_body]
fn hex_encode(bytes: &Vec<u8>) -> (r: String)
    ensures
        r@ == spec_hex_lower(bytes@),
{
    hex::encode(bytes)
}

/// The signature a credential carries for a given user id string.
pub open spec fn spec_signature(key: Seq<char>, user_id: Seq<char>) -> Seq<char> {
    spec_hex_lower(hmac_sha256_of(key, user_id))
}

/// Signs a user id string under the signing key: the lowercase hex rendering
/// of its HMAC-SHA256 tag, 64 characters long.
pub fn create_signature(user_id: &String, signature_key: &str) -> (r: String)
    ensures
        r@ == spec_signature(signature_key@, user_id@),
        r@.len() == 64,
{
    let tag = hmac_sha256_sign(signature_key, user_id.as_str());
    let r = hex_encode(&tag);
    proof {
        lemma_hex_lower_len(tag@);
    }
    r
}

/// Recomputes the signature of a user id string and compares it, byte for
/// byte, with a provided one.
pub fn verify_signature(user_id: String, provided_signature: String, signature_key: &str) -> (r:
    bool)
    ensures
        r == (provided_signature@ == spec_signature(signature_key@, user_id@)),
{
    let expected = create_signature(&user_id, signature_key);
    expected == provided_signature
}

} // verus!
