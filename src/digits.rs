//! Digit-level text: fixed-width hexadecimal fields, decimal rendering and
//! the decimal `u32` reading used for query parameters.
use vstd::prelude::*;

verus! {

/// The character of digit `d` (`0`-`9`, then `a`-`f`).
pub open spec fn digit_char(d: nat) -> char {
    if d < 10 {
        ((d + 48) as u8) as char
    } else {
        ((d + 87) as u8) as char
    }
}

/// The value of a lowercase hexadecimal digit, if `c` is one.
pub open spec fn hex_digit_value(c: char) -> Option<nat> {
    if '0' <= c && c <= '9' {
        Some((c as nat - 48) as nat)
    } else if 'a' <= c && c <= 'f' {
        Some((c as nat - 87) as nat)
    } else {
        None
    }
}

/// `v` written in `w` hexadecimal digits, most significant first (higher
/// digits beyond `w` are dropped).
pub open spec fn fixed_hex(v: nat, w: nat) -> Seq<char>
    decreases w,
{
    if w == 0 {
        Seq::empty()
    } else {
        fixed_hex(v / 16, (w - 1) as nat).push(digit_char(v % 16))
    }
}

/// The value of a run of lowercase hexadecimal digits.
pub open spec fn hex_value(s: Seq<char>) -> Option<nat>
    decreases s.len(),
{
    if s.len() == 0 {
        Some(0)
    } else {
        match (hex_value(s.drop_last()), hex_digit_value(s.last())) {
            (Some(high), Some(low)) => Some(high * 16 + low),
            _ => None,
        }
    }
}

pub open spec fn pow16(w: nat) -> nat
    decreases w,
{
    if w == 0 {
        1
    } else {
        16 * pow16((w - 1) as nat)
    }
}

proof fn lemma_digit_char_round_trip(d: nat)
    requires
        d < 16,
    ensures
        hex_digit_value(digit_char(d)) == Some(d),
{
}

/// Reading back a fixed-width field gives the value it was written from.
pub proof fn lemma_hex_round_trip(v: nat, w: nat)
    requires
        v < pow16(w),
    ensures
        hex_value(fixed_hex(v, w)) == Some(v),
        fixed_hex(v, w).len() == w,
    decreases w,
{
    if w > 0 {
        let w1 = (w - 1) as nat;
        assert(v / 16 < pow16(w1)) by (nonlinear_arith)
            requires
                v < 16 * pow16(w1),
        ;
        lemma_hex_round_trip(v / 16, w1);
        lemma_digit_char_round_trip(v % 16);
        let s = fixed_hex(v, w);
        assert(s.drop_last() =~= fixed_hex(v / 16, w1));
        assert(v == (v / 16) * 16 + v % 16) by (nonlinear_arith);
    }
}

/// `v` in decimal, without leading zeros.
pub open spec fn decimal(v: nat) -> Seq<char>
    decreases v,
{
    if v < 10 {
        seq![digit_char(v)]
    } else {
        decimal(v / 10).push(digit_char(v % 10))
    }
}

/// The one-character text of digit `d`.
pub fn digit_text(d: u64) -> (r: &'static str)
    requires
        d < 16,
    ensures
        r@ == seq![digit_char(d as nat)],
{
    proof {
        reveal_strlit("0");
        reveal_strlit("1");
        reveal_strlit("2");
        reveal_strlit("3");
        reveal_strlit("4");
        reveal_strlit("5");
        reveal_strlit("6");
        reveal_strlit("7");
        reveal_strlit("8");
        reveal_strlit("9");
        reveal_strlit("a");
        reveal_strlit("b");
        reveal_strlit("c");
        reveal_strlit("d");
        reveal_strlit("e");
        reveal_strlit("f");
    }
    let r = match d {
        0 => "0",
        1 => "1",
        2 => "2",
        3 => "3",
        4 => "4",
        5 => "5",
        6 => "6",
        7 => "7",
        8 => "8",
        9 => "9",
        10 => "a",
        11 => "b",
        12 => "c",
        13 => "d",
        14 => "e",
        _ => "f",
    };
    assert(r@ =~= seq![digit_char(d as nat)]);
    r
}

/// Appends `v` in `w` hexadecimal digits.
pub fn push_hex(out: &mut String, v: u64, w: usize)
    ensures
        final(out)@ == old(out)@ + fixed_hex(v as nat, w as nat),
    decreases w,
{
    if w > 0 {
        push_hex(out, v / 16, w - 1);
        out.append(digit_text(v % 16));
        assert(fixed_hex(v as nat, w as nat) =~= fixed_hex((v / 16) as nat, (w - 1) as nat).push(
            digit_char((v % 16) as nat),
        ));
    } else {
        assert(old(out)@ + fixed_hex(v as nat, w as nat) =~= old(out)@);
    }
}

/// Appends `v` in decimal.
pub fn push_decimal(out: &mut String, v: u64)
    ensures
        final(out)@ == old(out)@ + decimal(v as nat),
    decreases v,
{
    if v < 10 {
        out.append(digit_text(v));
    } else {
        push_decimal(out, v / 10);
        out.append(digit_text(v % 10));
        assert(decimal(v as nat) == decimal((v / 10) as nat).push(digit_char((v % 10) as nat)));
    }
}

/// Why a decimal `u32` could not be read.
#[derive(Debug, Clone, Copy, PartialEq, Eq, Structural)]
pub enum ParseIntFailure {
    Empty,
    InvalidDigit,
    PosOverflow,
}

impl ParseIntFailure {
    /// The reader's own wording of the failure.
    pub fn message(&self) -> (r: String)
        ensures
            r@ == parse_failure_text(*self),
    {
        match self {
            ParseIntFailure::Empty => String::from_str("cannot parse integer from empty string"),
            ParseIntFailure::InvalidDigit => String::from_str("invalid digit found in string"),
            ParseIntFailure::PosOverflow => String::from_str("number too large to fit in target type"),
        }
    }
}

pub open spec fn parse_failure_text(f: ParseIntFailure) -> Seq<char> {
    match f {
        ParseIntFailure::Empty => "cannot parse integer from empty string"@,
        ParseIntFailure::InvalidDigit => "invalid digit found in string"@,
        ParseIntFailure::PosOverflow => "number too large to fit in target type"@,
    }
}

pub open spec fn decimal_digit_value(c: char) -> Option<nat> {
    if '0' <= c && c <= '9' {
        Some((c as nat - 48) as nat)
    } else {
        None
    }
}

/// The outcome of reading the first `n` characters of `d` as decimal digits
/// of a `u32`, left to right, stopping at the first bad digit or overflow.
pub open spec fn scan_u32(d: Seq<char>, n: nat) -> Result<nat, ParseIntFailure>
    decreases n,
{
    if n == 0 {
        Ok(0)
    } else {
        match scan_u32(d, (n - 1) as nat) {
            Err(e) => Err(e),
            Ok(v) => match decimal_digit_value(d[n - 1]) {
                None => Err(ParseIntFailure::InvalidDigit),
                Some(x) => if v * 10 + x > u32::MAX {
                    Err(ParseIntFailure::PosOverflow)
                } else {
                    Ok(v * 10 + x)
                },
            },
        }
    }
}

/// A decimal `u32`: an optional `+` followed by digits, as std reads it.
pub open spec fn parse_u32_spec(s: Seq<char>) -> Result<u32, ParseIntFailure> {
    if s.len() == 0 {
        Err(ParseIntFailure::Empty)
    } else if s.len() == 1 && (s[0] == '+' || s[0] == '-') {
        Err(ParseIntFailure::InvalidDigit)
    } else {
        let d = if s[0] == '+' {
            s.drop_first()
        } else {
            s
        };
        match scan_u32(d, d.len()) {
            Ok(v) => Ok(v as u32),
            Err(e) => Err(e),
        }
    }
}

proof fn lemma_scan_bounded(d: Seq<char>, n: nat)
    ensures
        scan_u32(d, n) is Ok ==> scan_u32(d, n)->Ok_0 <= u32::MAX,
    decreases n,
{
    if n > 0 {
        lemma_scan_bounded(d, (n - 1) as nat);
    }
}

proof fn lemma_scan_error_sticks(d: Seq<char>, n: nat, m: nat)
    requires
        n <= m,
        scan_u32(d, n) is Err,
    ensures
        scan_u32(d, m) == scan_u32(d, n),
    decreases m - n,
{
    if n < m {
        lemma_scan_error_sticks(d, n, (m - 1) as nat);
    }
}

/// Reads a decimal `u32` the way `str::parse::<u32>` does.
pub fn parse_u32(s: &str) -> (r: Result<u32, ParseIntFailure>)
    ensures
        r == parse_u32_spec(s@),
{
    let n = s.unicode_len();
    if n == 0 {
        return Err(ParseIntFailure::Empty);
    }
    let first = s.get_char(0);
    if n == 1 && (first == '+' || first == '-') {
        return Err(ParseIntFailure::InvalidDigit);
    }
    let start: usize = if first == '+' {
        1
    } else {
        0
    };
    let ghost d = if first == '+' {
        s@.drop_first()
    } else {
        s@
    };
    assert(d =~= s@.subrange(start as int, n as int));
    assert(parse_u32_spec(s@) == match scan_u32(d, d.len()) {
        Ok(v) => Ok(v as u32),
        Err(e) => Err(e),
    });
    let mut acc: u64 = 0;
    let mut i: usize = start;
    while i < n
        invariant
            start <= i <= n,
            n == s@.len(),
            d =~= s@.subrange(start as int, n as int),
            scan_u32(d, (i - start) as nat) == Ok::<nat, ParseIntFailure>(acc as nat),
            acc <= u32::MAX,
            parse_u32_spec(s@) == match scan_u32(d, d.len()) {
                Ok(v) => Ok(v as u32),
                Err(e) => Err(e),
            },
        decreases n - i,
    {
        let c = s.get_char(i);
        let ghost k = (i - start) as nat;
        assert(d[k as int] == c);
        if c < '0' || c > '9' {
            proof {
                assert(scan_u32(d, k + 1) == Err::<nat, ParseIntFailure>(ParseIntFailure::InvalidDigit));
                lemma_scan_error_sticks(d, k + 1, d.len());
            }
            return Err(ParseIntFailure::InvalidDigit);
        }
        let x = (c as u32 - 48) as u64;
        let next = acc * 10 + x;
        if next > 0xFFFF_FFFF {
            proof {
                assert(scan_u32(d, k + 1) == Err::<nat, ParseIntFailure>(ParseIntFailure::PosOverflow));
                lemma_scan_error_sticks(d, k + 1, d.len());
            }
            return Err(ParseIntFailure::PosOverflow);
        }
        acc = next;
        i = i + 1;
    }
    assert((n - start) as nat == d.len());
    Ok(acc as u32)
}

} // verus!
