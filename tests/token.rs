use qa_auth::account::{AccountId, Session};
use qa_auth::error::Error;
use qa_auth::token::{
    claims_payload, decode_claims, is_token_shaped, issue_token, issue_token_at, verify_token,
    verify_token_at, TokenKey, TOKEN_LIFETIME,
};

fn key() -> TokenKey {
    TokenKey::from_bytes((0u8..32).collect()).unwrap()
}

const NOW: i64 = 1_700_000_000;

#[test]
fn key_needs_exactly_32_bytes() {
    assert!(TokenKey::from_bytes(vec![0u8; 32]).is_some());
    assert!(TokenKey::from_bytes(vec![0u8; 31]).is_none());
    assert!(TokenKey::from_bytes(vec![0u8; 33]).is_none());
}

#[test]
fn claims_text_is_fixed_width_hex() {
    let s = Session { exp: 86400, account_id: AccountId(1), nbf: 0 };
    assert_eq!(claims_payload(&s), "8000000180000000000000008000000000015180");
    let neg = Session { exp: -1, account_id: AccountId(-1), nbf: i64::MIN };
    assert_eq!(claims_payload(&neg), "7fffffff00000000000000007fffffffffffffff");
}

#[test]
fn claims_read_back() {
    let s = Session { exp: NOW + TOKEN_LIFETIME, account_id: AccountId(42), nbf: NOW };
    assert_eq!(decode_claims(&claims_payload(&s)), Some(s));
    assert_eq!(decode_claims("80000001800000000000000080000000000151"), None);
    assert_eq!(decode_claims("7fffffff00000000000000007fffffffffffffff"), Some(Session { exp: -1, account_id: AccountId(-1), nbf: i64::MIN }));
    assert_eq!(decode_claims("7FFFFFFF00000000000000007FFFFFFFFFFFFFFF"), None);
    assert_eq!(decode_claims("800000018000000000000000800000000001518g"), None);
}

#[test]
fn issued_token_verifies_inside_its_window() {
    let k = key();
    let t = issue_token_at(AccountId(5), &k, NOW).unwrap();
    let expected = Session { exp: NOW + TOKEN_LIFETIME, account_id: AccountId(5), nbf: NOW };
    assert_eq!(verify_token_at(&t, &k, NOW), Ok(expected));
    assert_eq!(verify_token_at(&t, &k, NOW + 3600), Ok(expected));
    assert_eq!(verify_token_at(&t, &k, NOW + TOKEN_LIFETIME - 1), Ok(expected));
}

#[test]
fn issued_token_is_refused_outside_its_window() {
    let k = key();
    let t = issue_token_at(AccountId(5), &k, NOW).unwrap();
    assert_eq!(verify_token_at(&t, &k, NOW - 1), Err(Error::CannotDecryptToken));
    assert_eq!(verify_token_at(&t, &k, NOW + TOKEN_LIFETIME), Err(Error::CannotDecryptToken));
    assert_eq!(verify_token_at(&t, &k, NOW + 10 * TOKEN_LIFETIME), Err(Error::CannotDecryptToken));
}

#[test]
fn flipping_any_byte_of_a_token_breaks_it() {
    let k = key();
    let t = issue_token_at(AccountId(9), &k, NOW).unwrap();
    let bytes = t.as_bytes().to_vec();
    for i in 0..bytes.len() {
        let mut b = bytes.clone();
        b[i] = if b[i] == b'A' { b'B' } else { b'A' };
        let forged = String::from_utf8(b).unwrap();
        assert_eq!(verify_token_at(&forged, &k, NOW), Err(Error::CannotDecryptToken), "position {}", i);
    }
}

#[test]
fn token_under_another_key_is_refused() {
    let t = issue_token_at(AccountId(9), &key(), NOW).unwrap();
    let other = TokenKey::from_bytes(vec![0u8; 32]).unwrap();
    assert_eq!(verify_token_at(&t, &other, NOW), Err(Error::CannotDecryptToken));
}

#[test]
fn token_has_the_v2_local_shape() {
    let t = issue_token_at(AccountId(9), &key(), NOW).unwrap();
    assert!(t.starts_with("v2.local."));
    assert!(is_token_shaped(&t));
    assert!(!is_token_shaped("v2.local.short"));
    assert!(!is_token_shaped("v1.local.AAAAAAAAAAAAAAAAAAAAAAAAAAAAAAAAAAAAAAAA"));
    assert!(!is_token_shaped("v2.local.AAAAAAAAAAAAAAA.AAAAAAAAAAAAAAAAAAAAAAAA"));
}

#[test]
fn malformed_tokens_are_refused() {
    let k = key();
    assert_eq!(verify_token_at("", &k, NOW), Err(Error::CannotDecryptToken));
    assert_eq!(verify_token_at("v2.local.", &k, NOW), Err(Error::CannotDecryptToken));
    let junk = format!("v2.local.{}", "A".repeat(60));
    assert_eq!(verify_token_at(&junk, &k, NOW), Err(Error::CannotDecryptToken));
}

#[test]
fn token_issued_now_verifies_now() {
    let k = key();
    let t = issue_token(AccountId(77), &k).unwrap();
    let s = verify_token(&t, &k).unwrap();
    assert_eq!(s.account_id, AccountId(77));
    assert_eq!(s.exp - s.nbf, TOKEN_LIFETIME);
}

#[test]
fn padded_short_bodies_are_refused_without_decrypting() {
    let k = key();
    let two = format!("v2.local.{}==", "A".repeat(30));
    let one = format!("v2.local.{}=", "A".repeat(31));
    assert!(!is_token_shaped(&two));
    assert!(!is_token_shaped(&one));
    assert_eq!(verify_token_at(&two, &k, NOW), Err(Error::CannotDecryptToken));
    assert_eq!(verify_token_at(&one, &k, NOW), Err(Error::CannotDecryptToken));
}
