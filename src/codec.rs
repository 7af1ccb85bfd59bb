//! Text encodings used by the webhook signature scheme: decimal rendering of
//! integers, decimal and hexadecimal literals as the standard parsers read them.

use std::num::ParseIntError;

use vstd::prelude::*;
use vstd::string::*;

verus! {

/// The standard library's error for a failed integer parse, carried as it is.
#[verifier::external_type_specification]
#[verifier::external_body]
pub struct ExParseIntError(ParseIntError);

/// The ASCII code of the decimal digit `d` (`0 <= d < 10`).
pub open spec fn ascii_digit(d: nat) -> u8 {
    (48 + d) as u8
}

/// Decimal digits of `n`, most significant first, with no leading zero.
pub open spec fn decimal_digits(n: nat) -> Seq<u8>
    decreases n,
{
    if n < 10 {
        seq![ascii_digit(n)]
    } else {
        decimal_digits(n / 10).push(ascii_digit(n % 10))
    }
}

/// Decimal rendering of `n` as ASCII bytes: a `-` before the digits of a
/// negative number, nothing before the others.
pub open spec fn decimal(n: int) -> Seq<u8> {
    if n < 0 {
        seq![45u8] + decimal_digits((-n) as nat)
    } else {
        decimal_digits(n as nat)
    }
}

fn push_digits(out: &mut Vec<u8>, n: u64)
    ensures
        final(out)@ == old(out)@ + decimal_digits(n as nat),
    decreases n,
{
    if n >= 10 {
        push_digits(out, n / 10);
    }
    out.push((48 + n % 10) as u8);
    assert(final(out)@ =~= old(out)@ + decimal_digits(n as nat));
}

/// Appends the decimal rendering of `n` to `out`.
pub fn push_decimal(out: &mut Vec<u8>, n: i64)
    ensures
        final(out)@ == old(out)@ + decimal(n as int),
{
    if n < 0 {
        out.push(45u8);
        let magnitude: u64 = (-(n as i128)) as u64;
        push_digits(out, magnitude);
        assert(final(out)@ =~= old(out)@ + decimal(n as int));
    } else {
        push_digits(out, n as u64);
    }
}

/// Whether `c` is one of the ASCII digits `0` to `9`.
pub open spec fn is_decimal_digit(c: char) -> bool {
    48 <= (c as u32) && (c as u32) <= 57
}

/// Whether every character of `d` is a decimal digit.
pub open spec fn all_decimal_digits(d: Seq<char>) -> bool {
    forall|i: int| 0 <= i < d.len() ==> is_decimal_digit(#[trigger] d[i])
}

/// The number that the decimal digits `d` spell, most significant first.
pub open spec fn digits_value(d: Seq<char>) -> int
    decreases d.len(),
{
    if d.len() == 0 {
        0
    } else {
        10 * digits_value(d.drop_last()) + ((d.last() as u32) - 48)
    }
}

/// The value of a decimal integer literal: an optional `+` or `-` sign
/// followed by one or more decimal digits, and nothing else.
pub open spec fn integer_literal(s: Seq<char>) -> Option<int> {
    if s.len() > 1 && (s[0] == '+' || s[0] == '-') && all_decimal_digits(s.skip(1)) {
        if s[0] == '-' {
            Some(-digits_value(s.skip(1)))
        } else {
            Some(digits_value(s.skip(1)))
        }
    } else if s.len() > 0 && all_decimal_digits(s) {
        Some(digits_value(s))
    } else {
        None
    }
}

/// The value of a decimal literal that fits in an `i64`.
pub open spec fn i64_literal(s: Seq<char>) -> Option<i64> {
    match integer_literal(s) {
        Some(v) => if i64::MIN <= v && v <= i64::MAX {
            Some(v as i64)
        } else {
            None
        },
        None => None,
    }
}

/// The value of a hexadecimal digit, in either case.
pub open spec fn hex_digit_value(c: char) -> Option<int> {
    let u = c as u32;
    if 48 <= u && u <= 57 {
        Some(u - 48)
    } else if 97 <= u && u <= 102 {
        Some(u - 87)
    } else if 65 <= u && u <= 70 {
        Some(u - 55)
    } else {
        None
    }
}

/// The byte that the hex digits `a` (high) and `b` (low) spell.
pub open spec fn hex_pair_value(a: char, b: char) -> Option<u8> {
    match (hex_digit_value(a), hex_digit_value(b)) {
        (Some(x), Some(y)) => Some((16 * x + y) as u8),
        _ => None,
    }
}

/// The byte spelled by the `i`-th pair of characters of `s`.
pub open spec fn pair_value(s: Seq<char>, i: int) -> Option<u8> {
    hex_pair_value(s[2 * i], s[2 * i + 1])
}

/// Whether `s` is hex text: an even number of hex digits, with no sign or
/// any other character.
pub open spec fn is_hex_string(s: Seq<char>) -> bool {
    &&& s.len() % 2 == 0
    &&& forall|i: int| 0 <= i < s.len() ==> (#[trigger] hex_digit_value(s[i])) is Some
}

/// The bytes spelled by the pairs of characters of a hex string.
pub open spec fn hex_bytes(s: Seq<char>) -> Seq<u8> {
    Seq::new(s.len() / 2, |i: int| pair_value(s, i)->0)
}

/// Relies on the standard `FromStr` for `i64`, which reads an optional sign
/// and decimal digits and fails on anything else or on overflow.
#[verifier::external_body]
pub(crate) fn parse_i64(s: &str) -> (r: Result<i64, ParseIntError>)
    ensures
        r is Ok <==> i64_literal(s@) is Some,
        r matches Ok(v) ==> i64_literal(s@) == Some(v),
{
    s.parse::<i64>()
}

/// Relies on `u8::from_str_radix` in base 16 on at most one character: it
/// reads a hex digit of either case, and refuses the empty string, a lone
/// sign and any other character.
#[verifier::external_body]
fn parse_hex_digit(s: &str) -> (r: Result<u8, ParseIntError>)
    requires
        s@.len() <= 1,
    ensures
        r is Ok <==> (s@.len() == 1 && hex_digit_value(s@[0]) is Some),
        r matches Ok(v) ==> v as int == hex_digit_value(s@[0])->0,
{
    u8::from_str_radix(s, 16)
}

/// Decodes hex text, two digits to a byte. The first character that is not
/// a hex digit, or the missing low digit at the end of text of odd length,
/// gives the error.
pub fn decode_hex(s: &str) -> (r: Result<Vec<u8>, ParseIntError>)
    ensures
        r is Ok <==> is_hex_string(s@),
        r matches Ok(b) ==> b@ == hex_bytes(s@),
{
    let n = s.unicode_len();
    let mut out: Vec<u8> = Vec::new();
    let mut i: usize = 0;
    while i < n
        invariant
            n == s@.len(),
            i <= n,
            i % 2 == 0,
            out@.len() == i / 2,
            forall|j: int| 0 <= j < i ==> (#[trigger] hex_digit_value(s@[j])) is Some,
            forall|k: int| 0 <= k < i / 2 ==> pair_value(s@, k) == Some(#[trigger] out@[k]),
        decreases n - i,
    {
        let high = match parse_hex_digit(s.substring_char(i, i + 1)) {
            Ok(d) => d,
            Err(e) => {
                assert(hex_digit_value(s@[i as int]) is None);
                return Err(e);
            },
        };
        // At the end of text of odd length the low digit is the empty string,
        // which the parser refuses.
        let end = if i + 1 < n {
            i + 2
        } else {
            n
        };
        let low = match parse_hex_digit(s.substring_char(i + 1, end)) {
            Ok(d) => d,
            Err(e) => {
                assert(!is_hex_string(s@)) by {
                    if end == i + 2 {
                        assert(hex_digit_value(s@[i + 1]) is None);
                    }
                }
                return Err(e);
            },
        };
        out.push(high * 16 + low);
        assert(pair_value(s@, (i / 2) as int) == Some(out@[(i / 2) as int]));
        i = i + 2;
    }
    assert(out@ =~= hex_bytes(s@));
    Ok(out)
}

/// Decimal rendering of `n` as characters.
pub open spec fn decimal_text(n: int) -> Seq<char> {
    decimal(n).map_values(|b: u8| b as char)
}

proof fn lemma_decimal_digits(n: nat)
    ensures
        decimal_digits(n).map_values(|b: u8| b as char).len() > 0,
        all_decimal_digits(decimal_digits(n).map_values(|b: u8| b as char)),
        digits_value(decimal_digits(n).map_values(|b: u8| b as char)) == n,
    decreases n,
{
    let t = decimal_digits(n).map_values(|b: u8| b as char);
    if n < 10 {
        assert(decimal_digits(n) == seq![ascii_digit(n)]);
        assert(t.len() == 1);
        assert(t[0] == ((48 + n) as u8) as char);
        assert(t.drop_last() =~= Seq::<char>::empty());
        assert(digits_value(t) == 10 * digits_value(t.drop_last()) + ((t.last() as u32) - 48));
    } else {
        lemma_decimal_digits(n / 10);
        let p = decimal_digits(n / 10).map_values(|b: u8| b as char);
        assert(decimal_digits(n) == decimal_digits(n / 10).push(ascii_digit(n % 10)));
        assert(t.drop_last() =~= p);
        assert(t.last() == ((48 + n % 10) as u8) as char);
        assert(digits_value(t) == 10 * digits_value(t.drop_last()) + ((t.last() as u32) - 48));
        assert forall|i: int| 0 <= i < t.len() implies is_decimal_digit(#[trigger] t[i]) by {
            if i < t.len() - 1 {
                assert(t[i] == p[i]);
            }
        }
    }
}

/// A decimal rendering reads back, as a literal, as the number it renders;
/// it holds only digits and perhaps a leading minus sign.
pub proof fn lemma_decimal_literal(n: i64)
    ensures
        i64_literal(decimal_text(n as int)) == Some(n),
        forall|i: int|
            0 <= i < decimal_text(n as int).len() ==> is_decimal_digit(#[trigger] decimal_text(n as int)[i])
                || decimal_text(n as int)[i] == '-',
{
    let t = decimal_text(n as int);
    if n < 0 {
        let m = (-n) as nat;
        lemma_decimal_digits(m);
        let d = decimal_digits(m).map_values(|b: u8| b as char);
        assert(t =~= seq!['-'] + d);
        assert(t.skip(1) =~= d);
    } else {
        lemma_decimal_digits(n as nat);
    }
}

/// The lower-case hex digit of `d` (`0 <= d < 16`).
pub open spec fn hex_digit_char(d: int) -> char {
    if d < 10 {
        ((48 + d) as u8) as char
    } else {
        ((87 + d) as u8) as char
    }
}

/// The lower-case hex text of `b`, two digits per byte.
pub open spec fn hex_text(b: Seq<u8>) -> Seq<char>
    decreases b.len(),
{
    if b.len() == 0 {
        Seq::empty()
    } else {
        hex_text(b.drop_last()) + seq![
            hex_digit_char(b.last() as int / 16),
            hex_digit_char(b.last() as int % 16),
        ]
    }
}

proof fn lemma_hex_text(b: Seq<u8>)
    ensures
        hex_text(b).len() == 2 * b.len(),
        forall|i: int|
            0 <= i < b.len() ==> hex_text(b)[2 * i] == hex_digit_char(b[i] as int / 16) && hex_text(b)[2
                * i + 1] == hex_digit_char(#[trigger] b[i] as int % 16),
    decreases b.len(),
{
    if b.len() > 0 {
        lemma_hex_text(b.drop_last());
        assert forall|i: int| 0 <= i < b.len() - 1 implies hex_text(b)[2 * i] == hex_digit_char(
            b[i] as int / 16,
        ) && hex_text(b)[2 * i + 1] == hex_digit_char(#[trigger] b[i] as int % 16) by {
            assert(b.drop_last()[i] == b[i]);
        }
    }
}

proof fn lemma_hex_digit_char(d: int)
    requires
        0 <= d < 16,
    ensures
        hex_digit_value(hex_digit_char(d)) == Some(d),
        is_decimal_digit(hex_digit_char(d)) || (97 <= (hex_digit_char(d) as u32) <= 102),
{
}

/// Hex text reads back as the bytes it was written from; it holds only
/// digits and the letters `a` to `f`.
pub proof fn lemma_hex_round_trip(b: Seq<u8>)
    ensures
        is_hex_string(hex_text(b)),
        hex_bytes(hex_text(b)) == b,
        forall|i: int|
            0 <= i < hex_text(b).len() ==> is_decimal_digit(#[trigger] hex_text(b)[i]) || (97 <= (
            hex_text(b)[i] as u32) <= 102),
{
    lemma_hex_text(b);
    let t = hex_text(b);
    assert forall|i: int| 0 <= i < b.len() implies #[trigger] pair_value(t, i) == Some(b[i]) by {
        let x = b[i] as int;
        lemma_hex_digit_char(x / 16);
        lemma_hex_digit_char(x % 16);
        assert(16 * (x / 16) + x % 16 == x);
    }
    assert forall|i: int|
        0 <= i < t.len() implies (is_decimal_digit(#[trigger] t[i]) || (97 <= (t[i] as u32) <= 102))
        && hex_digit_value(t[i]) is Some by {
        let j = i / 2;
        assert(i == 2 * j || i == 2 * j + 1);
        lemma_hex_digit_char(b[j] as int / 16);
        lemma_hex_digit_char(b[j] as int % 16);
    }
    assert(hex_bytes(t) =~= b);
}

} // verus!
