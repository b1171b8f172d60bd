//! The authorization guard in front of protected routes, and the ownership
//! check that handlers make with the session it yields.
use vstd::prelude::*;
use crate::account::{AccountId, Session};
use crate::error::Error;
use crate::rejection::{body_of, level_of, status_of, Rejection, Severity};
use crate::token::{now_timestamp, token_session, verify_token_at, TokenKey};

verus! {

/// The outcome of the guard for a request whose authorization header is
/// `header` (absent: `None`), at time `now`. A missing header is refused
/// with the same error as a bad token: the client cannot tell them apart.
pub open spec fn auth_spec(key: Seq<u8>, header: Option<Seq<char>>, now: i64) -> Result<
    Session,
    Error,
> {
    match header {
        None => Err(Error::CannotDecryptToken),
        Some(h) => token_session(key, h, now),
    }
}

pub open spec fn header_view(header: Option<&str>) -> Option<Seq<char>> {
    match header {
        Some(h) => Some(h@),
        None => None,
    }
}

/// Runs the guard at time `now`.
pub fn auth_at(header: Option<&str>, key: &TokenKey, now: i64) -> (r: Result<Session, Error>)
    ensures
        r == auth_spec(key@, header_view(header), now),
{
    match header {
        None => Err(Error::CannotDecryptToken),
        Some(h) => verify_token_at(h, key, now),
    }
}

/// Runs the guard against the current time.
pub fn auth(header: Option<&str>, key: &TokenKey) -> (r: Result<Session, Error>)
    ensures
        exists|now: i64| r == auth_spec(key@, header_view(header), now),
{
    let now = now_timestamp();
    auth_at(header, key, now)
}

/// Lets a session act on a resource only where its account owns it.
pub fn check_owner(session: &Session, owner: AccountId) -> (r: Result<(), Error>)
    ensures
        r == if session.account_id == owner {
            Ok::<(), Error>(())
        } else {
            Err::<(), Error>(Error::Unauthorized)
        },
{
    if session.account_id == owner {
        Ok(())
    } else {
        Err(Error::Unauthorized)
    }
}

/// Every request that the guard refuses (header missing, token malformed,
/// tampered with, under another key, not yet valid or expired) gets one and
/// the same error, and so one and the same response.
pub proof fn lemma_guard_refusals_alike(key: Seq<u8>, header: Option<Seq<char>>, now: i64)
    requires
        auth_spec(key, header, now) is Err,
    ensures
        auth_spec(key, header, now) == Err::<Session, Error>(Error::CannotDecryptToken),
        status_of(Rejection::Custom(auth_spec(key, header, now)->Err_0)) == 416,
        body_of(Rejection::Custom(auth_spec(key, header, now)->Err_0)) == "Cannot decrypt token"@,
        level_of(Rejection::Custom(auth_spec(key, header, now)->Err_0)) == Severity::Warn,
{
}

} // verus!
