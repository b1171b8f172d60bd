//! Accounts and the sessions that tokens carry.
use vstd::prelude::*;
use vstd::utf8::encode_utf8;
use crate::credential::{
    encoded_hash, hash_of_profile, hash_password, password_check, verify_password,
    MAX_PASSWORD_LEN, SALT_LEN,
};
use crate::error::Error;
use crate::token::{issue_token, issue_token_at, token_issued, TokenKey, TOKEN_LIFETIME};

verus! {

/// The numeric identity that persistence assigns to an account.
#[derive(Debug, Clone, Copy, PartialEq, Eq, Structural)]
pub struct AccountId(pub i32);

/// An account: its identity (absent until stored), e-mail and password.
/// The password is plaintext on the way in and an encoded hash at rest.
#[derive(Debug, Clone, PartialEq, Eq)]
pub struct Account {
    pub id: Option<AccountId>,
    pub email: String,
    pub password: String,
}

/// The verified identity of one request and its validity window, in whole
/// seconds since the Unix epoch: valid from `nbf` (inclusive) to `exp`
/// (exclusive).
#[derive(Debug, Clone, Copy, PartialEq, Eq, Structural)]
pub struct Session {
    pub exp: i64,
    pub account_id: AccountId,
    pub nbf: i64,
}

/// Turns a registration into the record to store: the same id and e-mail,
/// the plaintext password replaced by its encoded hash.
pub fn register(account: Account) -> (r: Result<Account, Error>)
    ensures
        encode_utf8(account.password@).len() > MAX_PASSWORD_LEN ==> r == Err::<Account, Error>(
            Error::PasswordTooLong,
        ),
        encode_utf8(account.password@).len() <= MAX_PASSWORD_LEN ==> r is Ok,
        r matches Ok(a) ==> a.id == account.id && a.email == account.email,
        r matches Ok(a) ==> exists|salt: Seq<u8>|
            salt.len() == SALT_LEN && a.password@ == encoded_hash(
                encode_utf8(account.password@),
                salt,
            ),
        r matches Ok(a) ==> hash_of_profile(a.password@, encode_utf8(account.password@)),
{
    let hashed = match hash_password(account.password.as_str().as_bytes()) {
        Ok(h) => h,
        Err(e) => return Err(e),
    };
    Ok(Account { id: account.id, email: account.email, password: hashed })
}

/// Checks a login's password against the stored account of the same
/// e-mail and gives the account's id where it matches.
pub fn authenticate(stored: &Account, attempt: &Account) -> (r: Result<AccountId, Error>)
    requires
        stored.id is Some,
    ensures
        match password_check(stored.password@, encode_utf8(attempt.password@)) {
            Ok(true) => r == Ok::<AccountId, Error>(stored.id->0),
            Ok(false) => r == Err::<AccountId, Error>(Error::WrongPasswordError),
            Err(m) => r matches Err(Error::ArgonLibraryError(t)) && t@ == m,
        },
{
    match verify_password(stored.password.as_str(), attempt.password.as_str().as_bytes()) {
        Ok(true) => Ok(stored.id.unwrap()),
        Ok(false) => Err(Error::WrongPasswordError),
        Err(e) => Err(e),
    }
}

/// Logs in at time `now`: checks the password, then issues a token for the
/// stored account.
pub fn login_at(stored: &Account, attempt: &Account, key: &TokenKey, now: i64) -> (r: Result<
    String,
    Error,
>)
    requires
        stored.id is Some,
        now <= i64::MAX - TOKEN_LIFETIME,
    ensures
        match password_check(stored.password@, encode_utf8(attempt.password@)) {
            Ok(true) => match r {
                Ok(t) => token_issued(key@, t@, stored.id->0, now),
                Err(e) => e == Error::CannotIssueToken,
            },
            Ok(false) => r == Err::<String, Error>(Error::WrongPasswordError),
            Err(m) => r matches Err(Error::ArgonLibraryError(t)) && t@ == m,
        },
{
    let id = match authenticate(stored, attempt) {
        Ok(id) => id,
        Err(e) => return Err(e),
    };
    issue_token_at(id, key, now)
}

/// Logs in now: checks the password, then issues a token for the stored
/// account, valid for one day.
pub fn login(stored: &Account, attempt: &Account, key: &TokenKey) -> (r: Result<String, Error>)
    requires
        stored.id is Some,
    ensures
        match password_check(stored.password@, encode_utf8(attempt.password@)) {
            Ok(true) => match r {
                Ok(t) => exists|at: i64|
                    at <= i64::MAX - TOKEN_LIFETIME && token_issued(key@, t@, stored.id->0, at),
                Err(e) => e == Error::CannotIssueToken,
            },
            Ok(false) => r == Err::<String, Error>(Error::WrongPasswordError),
            Err(m) => r matches Err(Error::ArgonLibraryError(t)) && t@ == m,
        },
{
    let id = match authenticate(stored, attempt) {
        Ok(id) => id,
        Err(e) => return Err(e),
    };
    issue_token(id, key)
}

} // verus!
