//! Authentication and failure handling of a question-and-answer service.
//!
//! - `credential`: salted Argon2 password hashes and their verification.
//! - `token`: session tokens sealed with PASETO v2 local under a 256-bit key
//!   that configuration supplies at start-up (rotating it is not handled),
//!   valid for one day from issue.
//! - `guard`: the stage in front of protected routes. A missing header and
//!   every kind of bad token are refused alike, with `CannotDecryptToken`
//!   (status 416); a caller that does not own a resource gets `Unauthorized`
//!   (status 403).
//! - `account`: registration and login on top of the two above.
//! - `error` and `rejection`: the closed set of failures and the one place
//!   where each becomes a status, a client-safe body and a log event.
//! - `pagination`, `question`: the listing's paging and its records.
//! - `digits`, `text`: the character-level helpers they share.
pub mod account;
pub mod credential;
pub mod digits;
pub mod error;
pub mod guard;
pub mod pagination;
pub mod question;
pub mod rejection;
pub mod text;
pub mod token;
