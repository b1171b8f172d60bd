use qa_auth::account::{AccountId, Session};
use qa_auth::error::Error;
use qa_auth::guard::{auth, auth_at, check_owner};
use qa_auth::rejection::{return_error, Rejection};
use qa_auth::token::{issue_token, issue_token_at, TokenKey, TOKEN_LIFETIME};

fn key() -> TokenKey {
    TokenKey::from_bytes(vec![3u8; 32]).unwrap()
}

const NOW: i64 = 1_700_000_000;

#[test]
fn guard_yields_the_session_of_a_valid_token() {
    let k = key();
    let t = issue_token_at(AccountId(1), &k, NOW).unwrap();
    let s = auth_at(Some(&t), &k, NOW + 10).unwrap();
    assert_eq!(s, Session { exp: NOW + TOKEN_LIFETIME, account_id: AccountId(1), nbf: NOW });
}

#[test]
fn missing_malformed_and_expired_look_alike() {
    let k = key();
    let t = issue_token_at(AccountId(1), &k, NOW).unwrap();
    let missing = auth_at(None, &k, NOW);
    let empty = auth_at(Some(""), &k, NOW);
    let malformed = auth_at(Some("Bearer nonsense"), &k, NOW);
    let expired = auth_at(Some(&t), &k, NOW + TOKEN_LIFETIME);
    assert_eq!(missing, Err(Error::CannotDecryptToken));
    assert_eq!(empty, missing);
    assert_eq!(malformed, missing);
    assert_eq!(expired, missing);
    let r = return_error(&Rejection::Custom(missing.unwrap_err()));
    let r2 = return_error(&Rejection::Custom(expired.unwrap_err()));
    assert_eq!(r, r2);
    assert_eq!(r.status, 416);
    assert_eq!(r.body, "Cannot decrypt token");
}

#[test]
fn guard_against_the_clock() {
    let k = key();
    let t = issue_token(AccountId(4), &k).unwrap();
    assert_eq!(auth(Some(&t), &k).unwrap().account_id, AccountId(4));
    assert_eq!(auth(None, &k), Err(Error::CannotDecryptToken));
}

#[test]
fn only_the_owner_passes() {
    let s = Session { exp: 10, account_id: AccountId(2), nbf: 0 };
    assert_eq!(check_owner(&s, AccountId(2)), Ok(()));
    assert_eq!(check_owner(&s, AccountId(3)), Err(Error::Unauthorized));
    let r = return_error(&Rejection::Custom(Error::Unauthorized));
    assert_eq!(r.status, 403);
}
