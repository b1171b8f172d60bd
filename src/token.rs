//! Session tokens: the claims of a session sealed with authenticated
//! encryption (PASETO v2 local) under a 256-bit key, and opened again only
//! inside their validity window.
use vstd::prelude::*;
use crate::account::{AccountId, Session};
use crate::digits::{
    fixed_hex, hex_digit_value, hex_value, lemma_hex_round_trip, pow16, push_hex,
};
use crate::error::Error;

verus! {

/// How long an issued token stays valid, in seconds (one day).
pub const TOKEN_LIFETIME: i64 = 86400;

/// The symmetric key that seals and opens tokens. It is handed in from
/// configuration when the service starts and never changes afterwards.
pub struct TokenKey {
    bytes: Vec<u8>,
}

impl View for TokenKey {
    type V = Seq<u8>;

    closed spec fn view(&self) -> Seq<u8> {
        self.bytes@
    }
}

impl TokenKey {
    #[verifier::type_invariant]
    spec fn inv(&self) -> bool {
        self.bytes@.len() == 32
    }

    /// A key from exactly 32 bytes; `None` for any other length.
    pub fn from_bytes(bytes: Vec<u8>) -> (r: Option<TokenKey>)
        ensures
            r is Some <==> bytes@.len() == 32,
            r matches Some(k) ==> k@ == bytes@,
    {
        if bytes.len() == 32 {
            Some(TokenKey { bytes })
        } else {
            None
        }
    }

    pub fn as_bytes(&self) -> (r: &[u8])
        ensures
            r@ == self@,
            r@.len() == 32,
    {
        proof {
            use_type_invariant(self);
        }
        self.bytes.as_slice()
    }
}

pub open spec fn bias32(x: i32) -> nat {
    (x + 0x8000_0000) as nat
}

pub open spec fn bias64(x: i64) -> nat {
    (x + 0x8000_0000_0000_0000) as nat
}

/// The sealed claims of a session: account id, not-before and expiry, each
/// shifted to be non-negative and written as fixed-width lowercase hex
/// (8, 16 and 16 digits).
pub open spec fn claims_text(s: Session) -> Seq<char> {
    fixed_hex(bias32(s.account_id.0), 8) + fixed_hex(bias64(s.nbf), 16) + fixed_hex(
        bias64(s.exp),
        16,
    )
}

/// The session that a claims text stands for, if it is one.
pub open spec fn claims_of(p: Seq<char>) -> Option<Session> {
    if p.len() != 40 {
        None
    } else {
        match (
            hex_value(p.subrange(0, 8)),
            hex_value(p.subrange(8, 24)),
            hex_value(p.subrange(24, 40)),
        ) {
            (Some(a), Some(n), Some(e)) => Some(
                Session {
                    exp: (e - 0x8000_0000_0000_0000) as i64,
                    account_id: AccountId((a - 0x8000_0000) as i32),
                    nbf: (n - 0x8000_0000_0000_0000) as i64,
                },
            ),
            _ => None,
        }
    }
}

proof fn lemma_pow16_values()
    ensures
        pow16(8) == 0x1_0000_0000,
        pow16(16) == 0x1_0000_0000_0000_0000,
{
    reveal_with_fuel(pow16, 17);
}

/// Reading a claims text back gives the session it was written from.
pub proof fn lemma_claims_round_trip(s: Session)
    ensures
        claims_of(claims_text(s)) == Some(s),
{
    lemma_pow16_values();
    lemma_hex_round_trip(bias32(s.account_id.0), 8);
    lemma_hex_round_trip(bias64(s.nbf), 16);
    lemma_hex_round_trip(bias64(s.exp), 16);
    let p = claims_text(s);
    assert(p.subrange(0, 8) =~= fixed_hex(bias32(s.account_id.0), 8));
    assert(p.subrange(8, 24) =~= fixed_hex(bias64(s.nbf), 16));
    assert(p.subrange(24, 40) =~= fixed_hex(bias64(s.exp), 16));
}

/// The first characters of every v2 local token.
pub open spec fn token_header() -> Seq<char> {
    seq!['v', '2', '.', 'l', 'o', 'c', 'a', 'l', '.']
}

/// What a token must look like before it is handed to the decryptor: the
/// v2 local header, then at least 32 characters that are neither `.` nor the
/// base64 padding `=`, so that its body decodes to at least 24 bytes or not
/// at all.
pub open spec fn token_shaped(t: Seq<char>) -> bool {
    &&& t.len() >= 41
    &&& t.subrange(0, 9) == token_header()
    &&& forall|i: int| 9 <= i < 41 ==> t[i] != '.' && t[i] != '='
}

/// What the encryptor produces: the header, then unpadded URL-safe base64
/// (which holds neither `.` nor `=`) of at least 24 bytes.
pub open spec fn sealed_shape(t: Seq<char>) -> bool {
    &&& t.len() >= 41
    &&& t.subrange(0, 9) == token_header()
    &&& forall|i: int| 9 <= i < t.len() ==> t[i] != '.' && t[i] != '='
}

/// The text that opening `token` under `key` yields, or `None` where it
/// does not open (wrong key, altered or malformed bytes).
pub uninterp spec fn opened_payload(key: Seq<u8>, token: Seq<char>) -> Option<Seq<char>>;

/// Relies on `paseto::v2::local::local_paseto` with no footer: it returns
/// `v2.local.` and URL-safe unpadded base64 of nonce, ciphertext and tag,
/// and opening that token with the same key gives back `payload`. It fails
/// only where the system's random source fails.
#[verifier::external_body]
fn seal(payload: &str, key: &[u8]) -> (r: Option<String>)
    requires
        key@.len() == 32,
    ensures
        r matches Some(t) ==> sealed_shape(t@) && opened_payload(key@, t@) == Some(payload@),
{
    paseto::v2::local::local_paseto(payload, None, key).ok()
}

/// Relies on `paseto::v2::local::decrypt_paseto` with no footer: a
/// deterministic check and decryption of the token under the key. Its body
/// segment must decode to at least 24 bytes, else the library panics; base64
/// accepts `=` padding there, so the shape asks for 32 characters that are
/// neither `.` nor `=`.
#[verifier::external_body]
fn open(token: &str, key: &[u8]) -> (r: Option<String>)
    requires
        key@.len() == 32,
        token_shaped(token@),
    ensures
        match r {
            Some(p) => opened_payload(key@, token@) == Some(p@),
            None => opened_payload(key@, token@) is None,
        },
{
    paseto::v2::local::decrypt_paseto(token, None, key).ok()
}

/// Relies on `chrono::Utc::now`: the current time in whole seconds since
/// the Unix epoch. Nothing is known of the value.
#[verifier::external_body]
pub(crate) fn now_timestamp() -> i64 {
    chrono::Utc::now().timestamp()
}

proof fn lemma_pow16_monotone(a: nat, b: nat)
    requires
        a <= b,
    ensures
        pow16(a) <= pow16(b),
    decreases b,
{
    if a < b {
        lemma_pow16_monotone(a, (b - 1) as nat);
    }
}

proof fn lemma_hex_failure_extends(s: Seq<char>, k: nat, m: nat)
    requires
        k <= m <= s.len(),
        hex_value(s.subrange(0, k as int)) is None,
    ensures
        hex_value(s.subrange(0, m as int)) is None,
    decreases m - k,
{
    if k < m {
        lemma_hex_failure_extends(s, k, (m - 1) as nat);
        assert(s.subrange(0, m as int).drop_last() =~= s.subrange(0, m - 1));
    }
}

fn biased(x: i64) -> (r: u64)
    ensures
        r as nat == bias64(x),
{
    if x >= 0 {
        (x as u64) + 0x8000_0000_0000_0000
    } else {
        (x + 0x7FFF_FFFF_FFFF_FFFF + 1) as u64
    }
}

fn unbiased(v: u64) -> (r: i64)
    ensures
        r == (v - 0x8000_0000_0000_0000) as i64,
{
    if v >= 0x8000_0000_0000_0000 {
        (v - 0x8000_0000_0000_0000) as i64
    } else {
        (v as i64) - 0x7FFF_FFFF_FFFF_FFFF - 1
    }
}

/// Writes the claims text of a session.
pub fn claims_payload(s: &Session) -> (r: String)
    ensures
        r@ == claims_text(*s),
{
    let mut out = String::new();
    let a = (s.account_id.0 as i64 + 0x8000_0000) as u64;
    push_hex(&mut out, a, 8);
    push_hex(&mut out, biased(s.nbf), 16);
    push_hex(&mut out, biased(s.exp), 16);
    assert(out@ =~= claims_text(*s));
    out
}

/// Reads `w` lowercase hex digits of `t` from position `start`.
fn read_hex(t: &str, start: usize, w: usize) -> (r: Option<u64>)
    requires
        start + w <= t@.len(),
        start + w <= usize::MAX,
        w <= 16,
    ensures
        match r {
            Some(v) => hex_value(t@.subrange(start as int, start + w)) == Some(v as nat) && v
                < pow16(w as nat),
            None => hex_value(t@.subrange(start as int, start + w)) is None,
        },
{
    let ghost s = t@.subrange(start as int, start + w);
    let mut acc: u64 = 0;
    let mut i: usize = 0;
    proof {
        lemma_pow16_values();
        assert(s.subrange(0, 0) =~= Seq::<char>::empty());
    }
    while i < w
        invariant
            i <= w <= 16,
            start + w <= t@.len(),
            start + w <= usize::MAX,
            s == t@.subrange(start as int, start + w),
            hex_value(s.subrange(0, i as int)) == Some(acc as nat),
            acc < pow16(i as nat),
            pow16(16) == 0x1_0000_0000_0000_0000,
        decreases w - i,
    {
        let c = t.get_char(start + i);
        assert(s[i as int] == c);
        assert(s.subrange(0, i + 1).drop_last() =~= s.subrange(0, i as int));
        let d: u64;
        if '0' <= c && c <= '9' {
            d = (c as u32 - 48) as u64;
        } else if 'a' <= c && c <= 'f' {
            d = (c as u32 - 87) as u64;
        } else {
            proof {
                assert(hex_digit_value(c) is None);
                lemma_hex_failure_extends(s, (i + 1) as nat, w as nat);
                assert(s.subrange(0, w as int) =~= s);
            }
            return None;
        }
        assert(hex_digit_value(c) == Some(d as nat));
        proof {
            lemma_pow16_monotone((i + 1) as nat, 16);
            assert(acc * 16 + d < pow16((i + 1) as nat)) by (nonlinear_arith)
                requires
                    acc < pow16(i as nat),
                    d < 16,
                    pow16((i + 1) as nat) == 16 * pow16(i as nat),
            ;
        }
        acc = acc * 16 + d;
        i = i + 1;
    }
    assert(s.subrange(0, w as int) =~= s);
    Some(acc)
}

/// Reads a claims text back into the session it stands for.
pub fn decode_claims(p: &str) -> (r: Option<Session>)
    ensures
        r == claims_of(p@),
{
    if p.unicode_len() != 40 {
        return None;
    }
    let a = match read_hex(p, 0, 8) {
        Some(v) => v,
        None => return None,
    };
    let n = match read_hex(p, 8, 16) {
        Some(v) => v,
        None => return None,
    };
    let e = match read_hex(p, 24, 16) {
        Some(v) => v,
        None => return None,
    };
    proof {
        lemma_pow16_values();
    }
    Some(
        Session {
            exp: unbiased(e),
            account_id: AccountId((a as i64 - 0x8000_0000) as i32),
            nbf: unbiased(n),
        },
    )
}

/// Whether `t` has the shape that the decryptor needs.
pub fn is_token_shaped(t: &str) -> (r: bool)
    ensures
        r == token_shaped(t@),
{
    let n = t.unicode_len();
    if n < 41 {
        return false;
    }
    let header = "v2.local.";
    proof {
        reveal_strlit("v2.local.");
    }
    assert(header@ =~= token_header());
    let mut i: usize = 0;
    while i < 9
        invariant
            i <= 9,
            n == t@.len(),
            n >= 41,
            header@ == token_header(),
            forall|j: int| 0 <= j < i ==> t@[j] == token_header()[j],
        decreases 9 - i,
    {
        if t.get_char(i) != header.get_char(i) {
            assert(t@.subrange(0, 9)[i as int] != token_header()[i as int]);
            return false;
        }
        i = i + 1;
    }
    assert(t@.subrange(0, 9) =~= token_header());
    while i < 41
        invariant
            9 <= i <= 41,
            n == t@.len(),
            n >= 41,
            forall|j: int| 9 <= j < i ==> t@[j] != '.' && t@[j] != '=',
        decreases 41 - i,
    {
        let c = t.get_char(i);
        if c == '.' || c == '=' {
            return false;
        }
        i = i + 1;
    }
    true
}

/// The session that a token issued at `at` for `id` carries.
pub open spec fn issued_session(id: AccountId, at: i64) -> Session {
    Session { exp: (at + TOKEN_LIFETIME) as i64, account_id: id, nbf: at }
}

/// `t` was sealed under `key` from the claims of a session for `id` issued
/// at `at`.
pub open spec fn token_issued(key: Seq<u8>, t: Seq<char>, id: AccountId, at: i64) -> bool {
    sealed_shape(t) && opened_payload(key, t) == Some(claims_text(issued_session(id, at)))
}

/// The outcome of checking token `t` under `key` at time `now`. Every way
/// to fail (shape, key, tampering, claims, window) gives the same error.
pub open spec fn token_session(key: Seq<u8>, t: Seq<char>, now: i64) -> Result<Session, Error> {
    if !token_shaped(t) {
        Err(Error::CannotDecryptToken)
    } else {
        match opened_payload(key, t) {
            None => Err(Error::CannotDecryptToken),
            Some(p) => match claims_of(p) {
                None => Err(Error::CannotDecryptToken),
                Some(s) => if s.nbf <= now && now < s.exp {
                    Ok(s)
                } else {
                    Err(Error::CannotDecryptToken)
                },
            },
        }
    }
}

/// Issues a token for `account_id` at time `now`, valid for one day from
/// then. It fails only where the encryptor's random source fails.
pub fn issue_token_at(account_id: AccountId, key: &TokenKey, now: i64) -> (r: Result<
    String,
    Error,
>)
    requires
        now <= i64::MAX - TOKEN_LIFETIME,
    ensures
        match r {
            Ok(t) => token_issued(key@, t@, account_id, now),
            Err(e) => e == Error::CannotIssueToken,
        },
{
    let session = Session { exp: now + TOKEN_LIFETIME, account_id, nbf: now };
    let payload = claims_payload(&session);
    match seal(payload.as_str(), key.as_bytes()) {
        Some(t) => Ok(t),
        None => Err(Error::CannotIssueToken),
    }
}

/// Issues a token for `account_id`, valid for one day from now.
pub fn issue_token(account_id: AccountId, key: &TokenKey) -> (r: Result<String, Error>)
    ensures
        match r {
            Ok(t) => exists|at: i64|
                at <= i64::MAX - TOKEN_LIFETIME && token_issued(key@, t@, account_id, at),
            Err(e) => e == Error::CannotIssueToken,
        },
{
    let now = now_timestamp();
    if now > i64::MAX - TOKEN_LIFETIME {
        return Err(Error::CannotIssueToken);
    }
    issue_token_at(account_id, key, now)
}

/// Checks a token at time `now` and returns the session it carries.
pub fn verify_token_at(token: &str, key: &TokenKey, now: i64) -> (r: Result<Session, Error>)
    ensures
        r == token_session(key@, token@, now),
{
    if !is_token_shaped(token) {
        return Err(Error::CannotDecryptToken);
    }
    let payload = match open(token, key.as_bytes()) {
        Some(p) => p,
        None => return Err(Error::CannotDecryptToken),
    };
    match decode_claims(payload.as_str()) {
        None => Err(Error::CannotDecryptToken),
        Some(s) => if s.nbf <= now && now < s.exp {
            Ok(s)
        } else {
            Err(Error::CannotDecryptToken)
        },
    }
}

/// Checks a token against the current time.
pub fn verify_token(token: &str, key: &TokenKey) -> (r: Result<Session, Error>)
    ensures
        exists|now: i64| r == token_session(key@, token@, now),
{
    let now = now_timestamp();
    verify_token_at(token, key, now)
}

/// A token issued at `at` opens, at every moment of its window
/// `[at, at + TOKEN_LIFETIME)`, to the session it was issued for.
pub proof fn lemma_issued_token_verifies(
    key: Seq<u8>,
    t: Seq<char>,
    id: AccountId,
    at: i64,
    now: i64,
)
    requires
        token_issued(key, t, id, at),
        at <= i64::MAX - TOKEN_LIFETIME,
        at <= now < at + TOKEN_LIFETIME,
    ensures
        token_session(key, t, now) == Ok::<Session, Error>(issued_session(id, at)),
{
    lemma_claims_round_trip(issued_session(id, at));
}

/// Before its window opens, or from its expiry on, a token issued at `at`
/// is refused with the one token error.
pub proof fn lemma_issued_token_expires(
    key: Seq<u8>,
    t: Seq<char>,
    id: AccountId,
    at: i64,
    now: i64,
)
    requires
        token_issued(key, t, id, at),
        at <= i64::MAX - TOKEN_LIFETIME,
        now < at || now >= at + TOKEN_LIFETIME,
    ensures
        token_session(key, t, now) == Err::<Session, Error>(Error::CannotDecryptToken),
{
    lemma_claims_round_trip(issued_session(id, at));
}

} // verus!
