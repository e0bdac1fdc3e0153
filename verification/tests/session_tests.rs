use backend::crypto::create_signature;
use backend::crypto::verify_signature;
use backend::digits::format_i32;
use backend::digits::format_u64;
use backend::digits::parse_user_id;
use backend::responses::authenticate;
use backend::session::issue_credential;
use backend::session::session_cookie_value;
use backend::session::verify_credential;

const KEY: &str = "test-signing-key";

#[test]
fn issue_verify_round_trip() {
    for user_id in [0, 1, 7, 42, 1000, i32::MAX] {
        let credential = issue_credential(user_id, KEY);
        assert_eq!(verify_credential(&credential, KEY), Some(user_id));
    }
}

#[test]
fn issued_credential_shape() {
    let credential = issue_credential(42, KEY);
    let (id_part, sig_part) = credential.split_once('.').unwrap();
    assert_eq!(id_part, "42");
    assert_eq!(sig_part.len(), 64);
    assert!(sig_part.chars().all(|c| c.is_ascii_hexdigit() && !c.is_ascii_uppercase()));
}

#[test]
fn signature_matches_direct_hmac_hex() {
    let signature = create_signature(&"42".to_string(), KEY);
    let expected = hex::encode(hmac_sha256::HMAC::mac("42".as_bytes(), KEY.as_bytes()));
    assert_eq!(signature, expected);
}

#[test]
fn verify_signature_accepts_and_rejects() {
    let signature = create_signature(&"7".to_string(), KEY);
    assert!(verify_signature("7".to_string(), signature.clone(), KEY));
    assert!(!verify_signature("8".to_string(), signature.clone(), KEY));
    assert!(!verify_signature("7".to_string(), signature, "other-key"));
}

#[test]
fn verify_rejects_every_single_bit_flip() {
    let credential = issue_credential(42, KEY);
    let bytes = credential.as_bytes();
    for position in 0..bytes.len() {
        for bit in 0..8 {
            let mut mutated = bytes.to_vec();
            mutated[position] ^= 1u8 << bit;
            match String::from_utf8(mutated) {
                Ok(s) => assert_ne!(
                    verify_credential(&s, KEY),
                    Some(42),
                    "flip at byte {position} bit {bit} still verified"
                ),
                Err(_) => {}
            }
        }
    }
}

#[test]
fn verify_rejects_malformed_credentials() {
    assert_eq!(verify_credential("", KEY), None);
    assert_eq!(verify_credential("42", KEY), None);
    assert_eq!(verify_credential("1.2.3", KEY), None);
    assert_eq!(verify_credential("42.deadbeef", KEY), None);
    let signature = create_signature(&"abc".to_string(), KEY);
    let non_numeric = format!("abc.{signature}");
    assert_eq!(verify_credential(&non_numeric, KEY), None);
}

#[test]
fn verify_rejects_wrong_key() {
    let credential = issue_credential(5, KEY);
    assert_eq!(verify_credential(&credential, "rotated-key"), None);
}

#[test]
fn authenticate_accepts_valid_cookie() {
    let credential = issue_credential(9, KEY);
    let user = authenticate(Some(credential.as_str()), KEY).unwrap();
    assert_eq!(user.user_id, 9);
}

#[test]
fn authenticate_rejects_missing_and_invalid_cookies() {
    for cookie in [None, Some("no-separator"), Some("1.2.3"), Some("9.0000"), Some("x.y")] {
        let err = match authenticate(cookie, KEY) {
            Ok(_) => panic!("cookie {cookie:?} should have been rejected"),
            Err(e) => e,
        };
        assert_eq!(err.status.code(), 401);
        assert_eq!(err.body.error, "Not authenticated");
        assert!(!err.body.success);
    }
}

#[test]
fn session_cookie_value_shape() {
    let cookie = session_cookie_value(42, KEY);
    let credential = issue_credential(42, KEY);
    assert_eq!(
        cookie,
        format!("id={credential}; HttpOnly=true; Max-Age=86400; Path=/; SameSite=Strict; Secure=true;")
    );
}

#[test]
fn parse_user_id_cases() {
    assert_eq!(parse_user_id("42"), Some(42));
    assert_eq!(parse_user_id("0"), Some(0));
    assert_eq!(parse_user_id("007"), Some(7));
    assert_eq!(parse_user_id("2147483647"), Some(i32::MAX));
    assert_eq!(parse_user_id("2147483648"), None);
    assert_eq!(parse_user_id("99999999999999999999"), None);
    assert_eq!(parse_user_id(""), None);
    assert_eq!(parse_user_id("12a"), None);
    assert_eq!(parse_user_id("-5"), None);
    assert_eq!(parse_user_id("+5"), None);
}

#[test]
fn format_numbers() {
    assert_eq!(format_u64(0), "0");
    assert_eq!(format_u64(907), "907");
    assert_eq!(format_i32(-5), "-5");
    assert_eq!(format_i32(i32::MIN), "-2147483648");
    assert_eq!(format_i32(i32::MAX), "2147483647");
}
