//! The session codec: issuing and verifying the signed `user_id.signature`
//! credential that a cookie carries.
//!
//! A credential is the decimal user id, one `.` separator, and the lowercase
//! hex HMAC-SHA256 signature of the id string under the signing key.
//! Verification splits on the single separator, recomputes the signature,
//! compares it, and only then parses the id.  `lemma_issue_verify_round_trip`
//! proves that every issued credential verifies back to its user id, and
//! `lemma_verify_rejects_tampering` that altering the separator or any
//! character of the signature part makes verification fail.

use vstd::prelude::*;
use vstd::string::StringExecFns;
use vstd::string::StrSliceExecFns;

use crate::crypto::hmac_sha256_of;
use crate::crypto::is_hex_char;
use crate::crypto::lemma_hex_lower_chars;
use crate::crypto::spec_signature;
use crate::crypto::create_signature;
use crate::crypto::verify_signature;
use crate::digits::all_digits;
use crate::digits::decimal_value;
use crate::digits::is_digit_char;
use crate::digits::lemma_decimal_round_trip;
use crate::digits::lemma_spec_decimal_digits;
use crate::digits::spec_decimal;
use crate::digits::format_user_id;
use crate::digits::parse_user_id;

verus! {

/// `i` is the position of the one and only `.` in `s`.
pub open spec fn is_sep_index(s: Seq<char>, i: int) -> bool {
    &&& 0 <= i < s.len()
    &&& s[i] == '.'
    &&& forall|j: int| 0 <= j < s.len() && j != i ==> s[j] != '.'
}

pub open spec fn has_single_sep(s: Seq<char>) -> bool {
    exists|i: int| is_sep_index(s, i)
}

pub open spec fn sep_index(s: Seq<char>) -> int {
    choose|i: int| is_sep_index(s, i)
}

pub proof fn lemma_sep_index_unique(s: Seq<char>, i: int)
    requires
        is_sep_index(s, i),
    ensures
        has_single_sep(s),
        sep_index(s) == i,
{
    assert(has_single_sep(s));
    let c = sep_index(s);
    if c != i {
        assert(s[c] != '.');
    }
}

/// The credential issued for a user id under a signing key.
pub open spec fn spec_credential(u: int, key: Seq<char>) -> Seq<char> {
    spec_decimal(u) + seq!['.'] + spec_signature(key, spec_decimal(u))
}

/// What verification accepts: a string with exactly one `.`, whose second
/// part is the signature of the first and whose first part is a decimal user
/// id that fits in an `i32`.
pub open spec fn spec_verify(s: Seq<char>, key: Seq<char>) -> Option<int> {
    if has_single_sep(s) {
        let i = sep_index(s);
        let id_part = s.subrange(0, i);
        let sig_part = s.subrange(i + 1, s.len() as int);
        if sig_part == spec_signature(key, id_part) && id_part.len() > 0 && all_digits(id_part)
            && decimal_value(id_part) <= i32::MAX {
            Some(decimal_value(id_part))
        } else {
            None
        }
    } else {
        None
    }
}

/// Issues the session credential for a user id: `{id}.{hex_signature}`.
pub fn issue_credential(user_id: i32, signature_key: &str) -> (r: String)
    requires
        user_id >= 0,
    ensures
        r@ == spec_credential(user_id as int, signature_key@),
{
    let id_str = format_user_id(user_id);
    let sig = create_signature(&id_str, signature_key);
    let mut r = id_str;
    r.append(".");
    r.append(sig.as_str());
    proof {
        reveal_strlit(".");
        assert(r@ =~= spec_credential(user_id as int, signature_key@));
    }
    r
}

/// Verifies a session credential: splits it on its single `.`, recomputes
/// the signature of the first part under the key, compares, and parses the
/// first part as the user id.  Returns the id exactly when all of that
/// succeeds.
pub fn verify_credential(credential: &str, signature_key: &str) -> (r: Option<i32>)
    ensures
        r is Some <==> spec_verify(credential@, signature_key@) is Some,
        r is Some ==> Some(r->Some_0 as int) == spec_verify(credential@, signature_key@),
{
    let s = credential;
    let len = s.unicode_len();
    let mut first_dot: usize = 0;
    let mut found = false;
    let mut second = false;
    let mut i: usize = 0;
    while i < len
        invariant
            0 <= i <= len == s@.len(),
            found ==> first_dot < i && s@[first_dot as int] == '.' && (forall|j: int|
                0 <= j < first_dot ==> s@[j] != '.'),
            !found ==> forall|j: int| 0 <= j < i ==> s@[j] != '.',
            second ==> found && exists|j: int| first_dot < j < i && s@[j] == '.',
            found && !second ==> forall|j: int| first_dot < j < i ==> s@[j] != '.',
        decreases len - i,
    {
        let c = s.get_char(i);
        if c == '.' {
            if !found {
                found = true;
                first_dot = i;
            } else {
                second = true;
            }
        }
        i += 1;
    }
    if !found {
        proof {
            assert forall|k: int| !is_sep_index(s@, k) by {
                if 0 <= k < s@.len() {
                    assert(s@[k] != '.');
                }
            }
        }
        return None;
    }
    if second {
        proof {
            let w = choose|j: int| first_dot < j < len && s@[j] == '.';
            assert forall|k: int| !is_sep_index(s@, k) by {
                if is_sep_index(s@, k) {
                    if k == first_dot {
                        assert(s@[w] != '.');
                    } else {
                        assert(s@[first_dot as int] != '.');
                    }
                }
            }
        }
        return None;
    }
    proof {
        assert(is_sep_index(s@, first_dot as int));
        lemma_sep_index_unique(s@, first_dot as int);
    }
    let id_str = s.substring_char(0, first_dot);
    let sig_str = s.substring_char(first_dot + 1, len);
    let ok = verify_signature(id_str.to_owned(), sig_str.to_owned(), signature_key);
    if !ok {
        return None;
    }
    parse_user_id(id_str)
}

/// The `Set-Cookie` value carried by a successful sign-in: the credential
/// under the cookie name `id`, valid for 24 hours, HTTP-only, secure, and
/// strictly same-site.
pub open spec fn spec_session_cookie(u: int, key: Seq<char>) -> Seq<char> {
    "id="@ + spec_credential(u, key)
        + "; HttpOnly=true; Max-Age=86400; Path=/; SameSite=Strict; Secure=true;"@
}

/// Builds the `Set-Cookie` value of a fresh session for a user id.
pub fn session_cookie_value(user_id: i32, signature_key: &str) -> (r: String)
    requires
        user_id >= 0,
    ensures
        r@ == spec_session_cookie(user_id as int, signature_key@),
{
    let mut r = "id=".to_owned();
    let cred = issue_credential(user_id, signature_key);
    r.append(cred.as_str());
    r.append("; HttpOnly=true; Max-Age=86400; Path=/; SameSite=Strict; Secure=true;");
    proof {
        assert(r@ =~= spec_session_cookie(user_id as int, signature_key@));
    }
    r
}

/// Round trip of the codec: a credential issued for any user id under a key
/// verifies back to exactly that user id under the same key.
pub proof fn lemma_issue_verify_round_trip(u: int, key: Seq<char>)
    requires
        0 <= u <= i32::MAX,
    ensures
        spec_verify(spec_credential(u, key), key) == Some(u),
{
    let id = spec_decimal(u);
    let sig = spec_signature(key, id);
    let s = spec_credential(u, key);
    let fd = id.len() as int;
    lemma_spec_decimal_digits(u);
    lemma_hex_lower_chars(hmac_sha256_of(key, id));
    assert forall|j: int| 0 <= j < s.len() && j != fd implies s[j] != '.' by {
        if j < fd {
            assert(s[j] == id[j]);
            assert(is_digit_char(id[j]));
        } else {
            assert(s[j] == sig[j - fd - 1]);
            assert(is_hex_char(sig[j - fd - 1]));
        }
    }
    assert(is_sep_index(s, fd));
    lemma_sep_index_unique(s, fd);
    assert(s.subrange(0, fd) =~= id);
    assert(s.subrange(fd + 1, s.len() as int) =~= sig);
    lemma_decimal_round_trip(u);
}

/// What an accepted credential must look like: exactly one `.` separator,
/// a non-empty all-digit first segment whose value fits the id type, and a
/// second segment equal to the recomputed signature of the first.  A
/// string without exactly one separator, with a wrong signature, or with a
/// non-numeric first segment is therefore rejected, and the guard turns
/// the request away.
pub proof fn lemma_verify_accepts_only_well_formed(s: Seq<char>, key: Seq<char>)
    requires
        spec_verify(s, key) is Some,
    ensures
        has_single_sep(s),
        ({
            let i = sep_index(s);
            let id_part = s.subrange(0, i);
            let sig_part = s.subrange(i + 1, s.len() as int);
            &&& id_part.len() > 0
            &&& all_digits(id_part)
            &&& decimal_value(id_part) <= i32::MAX
            &&& sig_part == spec_signature(key, id_part)
            &&& spec_verify(s, key) == Some(decimal_value(id_part))
        }),
{
}

/// Tamper evidence of the codec: altering an issued credential at any one
/// position of its separator or of its signature part makes verification
/// fail, and so does an alteration inside the id digits that leaves a
/// non-digit.  (The one remaining case, a digit of the id turned into
/// another digit, is caught by the signature comparison at run time; that
/// this comparison cannot be fooled is the collision resistance of
/// HMAC-SHA256, which is assumed of the outside implementation, not proved
/// here.)
pub proof fn lemma_verify_rejects_tampering(u: int, key: Seq<char>, t: Seq<char>, p: int)
    requires
        0 <= u <= i32::MAX,
        t.len() == spec_credential(u, key).len(),
        0 <= p < t.len(),
        p < spec_decimal(u).len() ==> !is_digit_char(t[p]),
        t[p] != spec_credential(u, key)[p],
        forall|j: int| 0 <= j < t.len() && j != p ==> t[j] == spec_credential(u, key)[j],
    ensures
        spec_verify(t, key) is None,
{
    let id = spec_decimal(u);
    let sig = spec_signature(key, id);
    let s = spec_credential(u, key);
    let fd = id.len() as int;
    lemma_spec_decimal_digits(u);
    lemma_hex_lower_chars(hmac_sha256_of(key, id));
    assert forall|j: int| 0 <= j < s.len() && j != fd implies s[j] != '.' by {
        if j < fd {
            assert(s[j] == id[j]);
            assert(is_digit_char(id[j]));
        } else {
            assert(s[j] == sig[j - fd - 1]);
            assert(is_hex_char(sig[j - fd - 1]));
        }
    }
    if p < fd {
        if t[p] == '.' {
            // The alteration forged a second separator in front of the
            // original one.
            assert(t[fd] == '.');
            assert forall|k: int| !is_sep_index(t, k) by {
                if is_sep_index(t, k) {
                    if k == fd {
                        assert(t[p] != '.');
                    } else {
                        assert(t[fd] != '.');
                    }
                }
            }
            assert(!has_single_sep(t));
        } else {
            // The separator is intact and unique, but the id part now holds
            // a character that is no digit.
            assert forall|j: int| 0 <= j < t.len() && j != fd implies t[j] != '.' by {
                if j != p {
                    assert(t[j] == s[j]);
                }
            }
            assert(is_sep_index(t, fd));
            lemma_sep_index_unique(t, fd);
            let id_part = t.subrange(0, fd);
            assert(id_part[p] == t[p]);
            assert(!all_digits(id_part));
        }
    } else if p == fd {
        // The separator itself was altered: no position of `t` holds a `.`.
        assert forall|k: int| !is_sep_index(t, k) by {
            if 0 <= k < t.len() {
                if k == fd {
                    assert(t[k] != '.');
                } else {
                    assert(t[k] == s[k]);
                }
            }
        }
        assert(!has_single_sep(t));
    } else if t[p] == '.' {
        // The alteration introduced a second separator beside the original.
        assert(t[fd] == '.');
        assert forall|k: int| !is_sep_index(t, k) by {
            if is_sep_index(t, k) {
                if k == fd {
                    assert(t[p] != '.');
                } else {
                    assert(t[fd] != '.');
                }
            }
        }
        assert(!has_single_sep(t));
    } else {
        // The separator is intact and unique; the signature part no longer
        // matches the recomputed signature of the unchanged id part.
        assert forall|j: int| 0 <= j < t.len() && j != fd implies t[j] != '.' by {
            if j == p {
                assert(t[p] != '.');
            } else {
                assert(t[j] == s[j]);
            }
        }
        assert(is_sep_index(t, fd));
        lemma_sep_index_unique(t, fd);
        let id_part = t.subrange(0, fd);
        let sig_part = t.subrange(fd + 1, t.len() as int);
        assert(id_part =~= id);
        assert(sig_part[p - fd - 1] == t[p]);
        assert(s[p] == sig[p - fd - 1]);
        assert(sig_part != spec_signature(key, id_part));
    }
}

} // verus!
