//! Password hashing: a fresh random salt per hash, Argon2 with the
//! library's default cost profile, and a self-describing encoded result.
use vstd::prelude::*;
use rand::Rng;
use crate::error::Error;

verus! {

/// The largest password, in bytes, that is hashed (1 MiB).
pub const MAX_PASSWORD_LEN: usize = 1048576;

/// The length of every salt drawn for a new hash, in bytes.
pub const SALT_LEN: usize = 32;

/// The encoded Argon2 hash, default profile, of `password` under `salt`.
pub uninterp spec fn encoded_hash(password: Seq<u8>, salt: Seq<u8>) -> Seq<char>;

/// The outcome of checking `password` against the encoded hash `encoded`:
/// whether it matches, or the text of the error where `encoded` cannot be
/// decoded or holds refused parameters.
pub uninterp spec fn password_check(encoded: Seq<char>, password: Seq<u8>) -> Result<
    bool,
    Seq<char>,
>;

/// How every encoded hash of the default profile begins: variant, version
/// and costs, then the salt and the hash in unpadded base64.
pub open spec fn hash_prefix() -> Seq<char> {
    "$argon2i$v=19$m=4096,t=3,p=1$"@
}

/// `h` is an encoded hash of the default profile made from `password`: it
/// begins with the profile's parameters, verifies against `password`, and
/// decodes for every password that Argon2 accepts.
pub open spec fn hash_of_profile(h: Seq<char>, password: Seq<u8>) -> bool {
    &&& h.len() > hash_prefix().len()
    &&& h.subrange(0, hash_prefix().len() as int) == hash_prefix()
    &&& password_check(h, password) == Ok::<bool, Seq<char>>(true)
    &&& forall|q: Seq<u8>| q.len() <= u32::MAX ==> (#[trigger] password_check(h, q)) is Ok
}

/// Relies on `argon2::hash_encoded` with `Config::default()` (Argon2i,
/// version 0x13, m=4096, t=3, p=1, 32-byte output): the result depends on
/// the arguments alone; it is refused only for salts under 8 bytes and for
/// passwords or salts over 2^32-1 bytes; `encode_string` writes it as
/// `$argon2i$v=19$m=4096,t=3,p=1$`, then salt and hash in base64; and
/// `argon2::verify_encoded` on it decodes those parameters and that salt, so
/// it returns `Ok` for every password of at most 2^32-1 bytes, and with the
/// same password recomputes the same hash and returns `Ok(true)`.
#[verifier::external_body]
fn argon2_hash(password: &[u8], salt: &[u8]) -> (r: Option<String>)
    requires
        8 <= salt@.len() <= u32::MAX,
        password@.len() <= u32::MAX,
    ensures
        r is Some,
        r matches Some(h) ==> h@ == encoded_hash(password@, salt@) && hash_of_profile(
            h@,
            password@,
        ),
{
    argon2::hash_encoded(password, salt, &argon2::Config::default()).ok()
}

/// Relies on `argon2::verify_encoded`: it decodes parameters, salt and hash
/// from `encoded`, recomputes and compares in constant time; the outcome
/// depends on the arguments alone, and is an error where `encoded` cannot be
/// decoded or its parameters are refused (its text is the error's display).
/// It spends the work and memory that the costs named in `encoded` ask for,
/// so a stored hash with very large costs is expensive to check.
#[verifier::external_body]
fn argon2_verify(encoded: &str, password: &[u8]) -> (r: Result<bool, String>)
    ensures
        match r {
            Ok(b) => password_check(encoded@, password@) == Ok::<bool, Seq<char>>(b),
            Err(m) => password_check(encoded@, password@) == Err::<bool, Seq<char>>(m@),
        },
{
    argon2::verify_encoded(encoded, password).map_err(|e| e.to_string())
}

/// Relies on `rand::thread_rng`, a cryptographically secure generator:
/// 32 bytes of which nothing else is known.
#[verifier::external_body]
fn fresh_salt() -> (r: Vec<u8>)
    ensures
        r@.len() == SALT_LEN,
{
    rand::thread_rng().gen::<[u8; 32]>().to_vec()
}

/// Hashes `password` under the given salt.
pub fn hash_password_with_salt(password: &[u8], salt: &[u8]) -> (r: Result<String, Error>)
    requires
        salt@.len() == SALT_LEN,
    ensures
        password@.len() > MAX_PASSWORD_LEN ==> r == Err::<String, Error>(Error::PasswordTooLong),
        password@.len() <= MAX_PASSWORD_LEN ==> r is Ok,
        r matches Ok(h) ==> h@ == encoded_hash(password@, salt@),
        r matches Ok(h) ==> hash_of_profile(h@, password@),
{
    if password.len() > MAX_PASSWORD_LEN {
        return Err(Error::PasswordTooLong);
    }
    Ok(argon2_hash(password, salt).unwrap())
}

/// Hashes `password` under a freshly drawn salt. The result verifies
/// against the same password.
pub fn hash_password(password: &[u8]) -> (r: Result<String, Error>)
    ensures
        password@.len() > MAX_PASSWORD_LEN ==> r == Err::<String, Error>(Error::PasswordTooLong),
        password@.len() <= MAX_PASSWORD_LEN ==> r is Ok,
        r matches Ok(h) ==> exists|salt: Seq<u8>|
            salt.len() == SALT_LEN && h@ == encoded_hash(password@, salt),
        r matches Ok(h) ==> hash_of_profile(h@, password@),
{
    let salt = fresh_salt();
    hash_password_with_salt(password, salt.as_slice())
}

/// Checks `password` against the encoded hash `hash`: `Ok(false)` for a
/// password that does not match, an error only where the hash is malformed.
pub fn verify_password(hash: &str, password: &[u8]) -> (r: Result<bool, Error>)
    ensures
        match password_check(hash@, password@) {
            Ok(b) => r == Ok::<bool, Error>(b),
            Err(m) => r matches Err(Error::ArgonLibraryError(t)) && t@ == m,
        },
{
    match argon2_verify(hash, password) {
        Ok(b) => Ok(b),
        Err(e) => Err(Error::ArgonLibraryError(e)),
    }
}

} // verus!
