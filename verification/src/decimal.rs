//! Lossless base-10 text codec for 64-bit values.
//!
//! The human-readable path of the numeric codec renders a value as its
//! canonical decimal string and parses such a string back exactly; both
//! directions are verified against the spec-level rendering [`dec_str`]
//! and parser [`spec_parse_u64`].

use vstd::prelude::*;
use vstd::string::*;

use crate::error::CodecError;
use crate::error::to_custom_error;

verus! {

/// The character for one decimal digit value.
pub open spec fn dec_digit_char(d: int) -> char {
    if d == 0 {
        '0'
    } else if d == 1 {
        '1'
    } else if d == 2 {
        '2'
    } else if d == 3 {
        '3'
    } else if d == 4 {
        '4'
    } else if d == 5 {
        '5'
    } else if d == 6 {
        '6'
    } else if d == 7 {
        '7'
    } else if d == 8 {
        '8'
    } else {
        '9'
    }
}

/// The value of one decimal digit character, or -1 if the character is not
/// a decimal digit.
pub open spec fn dec_digit_val(c: char) -> int {
    if c == '0' {
        0
    } else if c == '1' {
        1
    } else if c == '2' {
        2
    } else if c == '3' {
        3
    } else if c == '4' {
        4
    } else if c == '5' {
        5
    } else if c == '6' {
        6
    } else if c == '7' {
        7
    } else if c == '8' {
        8
    } else if c == '9' {
        9
    } else {
        -1
    }
}

pub open spec fn is_dec_digit(c: char) -> bool {
    dec_digit_val(c) >= 0
}

pub open spec fn all_dec_digits(s: Seq<char>) -> bool {
    forall|i: int| 0 <= i < s.len() ==> is_dec_digit(#[trigger] s[i])
}

/// The numeric value of a digit string, read most-significant digit first.
pub open spec fn dec_val(s: Seq<char>) -> int
    decreases s.len(),
{
    if s.len() == 0 {
        0
    } else {
        dec_val(s.drop_last()) * 10 + dec_digit_val(s.last())
    }
}

/// The canonical base-10 rendering of a number: no sign, no leading zeros.
pub open spec fn dec_str(n: nat) -> Seq<char>
    decreases n,
{
    if n < 10 {
        seq![dec_digit_char(n as int)]
    } else {
        dec_str(n / 10).push(dec_digit_char((n % 10) as int))
    }
}

/// The digit part of a decimal literal: an optional leading plus sign is
/// allowed, as the standard unsigned parser accepts one.
pub open spec fn dec_literal_digits(s: Seq<char>) -> Seq<char> {
    if s.len() > 0 && s[0] == '+' {
        s.skip(1)
    } else {
        s
    }
}

/// What parsing a decimal literal as a 64-bit value yields: the digits'
/// value if the literal is well-formed and in range, nothing otherwise.
pub open spec fn spec_parse_u64(s: Seq<char>) -> Option<u64> {
    let d = dec_literal_digits(s);
    if d.len() > 0 && all_dec_digits(d) && dec_val(d) <= u64::MAX {
        Some(dec_val(d) as u64)
    } else {
        None
    }
}

/// The canonical rendering consists of decimal digits alone and reads back
/// as the rendered number.
pub proof fn lemma_dec_str_correct(n: nat)
    ensures
        dec_str(n).len() >= 1,
        all_dec_digits(dec_str(n)),
        dec_val(dec_str(n)) == n,
    decreases n,
{
    if n < 10 {
        let s = dec_str(n);
        assert(s == seq![dec_digit_char(n as int)]);
        assert(s.drop_last() =~= Seq::<char>::empty());
        assert(s.last() == dec_digit_char(n as int));
        assert(dec_val(Seq::<char>::empty()) == 0);
        assert(dec_val(s) == dec_digit_val(dec_digit_char(n as int)));
    } else {
        lemma_dec_str_correct(n / 10);
        let p = dec_str(n / 10);
        let c = dec_digit_char((n % 10) as int);
        let s = dec_str(n);
        assert(s == p.push(c));
        assert(s.drop_last() =~= p);
        assert(s.last() == c);
        assert(dec_val(s) == dec_val(p) * 10 + dec_digit_val(c));
        assert(dec_digit_val(c) == n % 10);
        assert(dec_val(p) * 10 + n % 10 == n) by {
            assert(n / 10 * 10 + n % 10 == n) by (nonlinear_arith);
        }
        assert forall|i: int| 0 <= i < s.len() implies is_dec_digit(#[trigger] s[i]) by {
            if i < p.len() {
                assert(s[i] == p[i]);
            } else {
                assert(s[i] == c);
            }
        }
    }
}

/// The value of a digit string never shrinks as digits are appended.
pub proof fn lemma_dec_val_prefix(s: Seq<char>, j: int)
    requires
        all_dec_digits(s),
        0 <= j <= s.len(),
    ensures
        0 <= dec_val(s.take(j)) <= dec_val(s),
    decreases s.len() - j,
{
    if j == s.len() {
        assert(s.take(j) =~= s);
        lemma_dec_val_nonneg(s);
    } else {
        lemma_dec_val_prefix(s, j + 1);
        let t = s.take(j + 1);
        assert(t.drop_last() =~= s.take(j));
        assert(t.last() == s[j]);
        assert(dec_val(t) == dec_val(s.take(j)) * 10 + dec_digit_val(s[j]));
        lemma_dec_val_nonneg(s.take(j));
        assert(dec_val(s.take(j)) <= dec_val(s.take(j)) * 10) by (nonlinear_arith)
            requires
                dec_val(s.take(j)) >= 0,
        ;
    }
}

/// The value of a digit string is never negative.
pub proof fn lemma_dec_val_nonneg(s: Seq<char>)
    requires
        all_dec_digits(s),
    ensures
        dec_val(s) >= 0,
    decreases s.len(),
{
    if s.len() > 0 {
        assert(is_dec_digit(s.last()));
        assert(all_dec_digits(s.drop_last())) by {
            assert(forall|i: int|
                0 <= i < s.drop_last().len() ==> #[trigger] s.drop_last()[i] == s[i]);
        }
        lemma_dec_val_nonneg(s.drop_last());
        assert(dec_val(s.drop_last()) * 10 >= 0) by (nonlinear_arith)
            requires
                dec_val(s.drop_last()) >= 0,
        ;
    }
}

/// The one-character string for a decimal digit value.
fn dec_digit_piece(d: u64) -> (r: &'static str)
    requires
        d < 10,
    ensures
        r@ == seq![dec_digit_char(d as int)],
{
    let r: &'static str = if d == 0 {
        "0"
    } else if d == 1 {
        "1"
    } else if d == 2 {
        "2"
    } else if d == 3 {
        "3"
    } else if d == 4 {
        "4"
    } else if d == 5 {
        "5"
    } else if d == 6 {
        "6"
    } else if d == 7 {
        "7"
    } else if d == 8 {
        "8"
    } else {
        "9"
    };
    proof {
        reveal_strlit("0");
        reveal_strlit("1");
        reveal_strlit("2");
        reveal_strlit("3");
        reveal_strlit("4");
        reveal_strlit("5");
        reveal_strlit("6");
        reveal_strlit("7");
        reveal_strlit("8");
        reveal_strlit("9");
        assert(r@ =~= seq![dec_digit_char(d as int)]);
    }
    r
}

/// Renders a 64-bit value as its canonical base-10 string.
pub fn u64_to_dec_string(n: u64) -> (r: String)
    ensures
        r@ == dec_str(n as nat),
{
    if n == 0 {
        let z = String::from_str(dec_digit_piece(0));
        assert(z@ =~= dec_str(0));
        return z;
    }
    let mut acc = String::new();
    let mut m: u64 = n;
    while m > 0
        invariant
            n > 0,
            m > 0 ==> dec_str(n as nat) == dec_str(m as nat) + acc@,
            m == 0 ==> acc@ == dec_str(n as nat),
        decreases m,
    {
        let ghost m0 = m as nat;
        let d = m % 10;
        let piece = dec_digit_piece(d);
        acc = String::from_str(piece).concat(acc.as_str());
        m = m / 10;
        proof {
            if m > 0 {
                assert(dec_str(m0) == dec_str(m0 / 10).push(dec_digit_char((m0 % 10) as int)));
                assert(dec_str(m0 / 10).push(dec_digit_char((m0 % 10) as int)) =~= dec_str(
                    m0 / 10,
                ) + seq![dec_digit_char((m0 % 10) as int)]);
                assert(dec_str(n as nat) =~= dec_str(m as nat) + acc@);
            } else {
                assert(m0 < 10);
                assert(dec_str(m0) == seq![dec_digit_char(m0 as int)]);
                assert(acc@ =~= dec_str(n as nat));
            }
        }
    }
    acc
}

/// The decimal digit value of a character, if it is a digit.
fn dec_digit_of(c: char) -> (r: Option<u64>)
    ensures
        match r {
            Some(d) => d < 10 && dec_digit_val(c) == d as int,
            None => !is_dec_digit(c),
        },
{
    if c == '0' {
        Some(0)
    } else if c == '1' {
        Some(1)
    } else if c == '2' {
        Some(2)
    } else if c == '3' {
        Some(3)
    } else if c == '4' {
        Some(4)
    } else if c == '5' {
        Some(5)
    } else if c == '6' {
        Some(6)
    } else if c == '7' {
        Some(7)
    } else if c == '8' {
        Some(8)
    } else if c == '9' {
        Some(9)
    } else {
        None
    }
}

/// Parses a base-10 literal back into a 64-bit value, exactly as the
/// spec-level parser reads it: an optional plus sign, then one or more
/// decimal digits whose value fits in 64 bits.
pub fn parse_u64_dec(s: &str) -> (r: Result<u64, CodecError>)
    ensures
        match r {
            Ok(v) => spec_parse_u64(s@) == Some(v),
            Err(_) => spec_parse_u64(s@) is None,
        },
{
    let n = s.unicode_len();
    let start: usize = if n > 0 && s.get_char(0) == '+' {
        1
    } else {
        0
    };
    let ghost digits = dec_literal_digits(s@);
    proof {
        assert(digits =~= s@.skip(start as int));
    }
    if n == start {
        return Err(to_custom_error("empty decimal literal"));
    }
    let mut val: u64 = 0;
    let mut i: usize = start;
    while i < n
        invariant
            start <= i <= n,
            n == s@.len(),
            digits == s@.skip(start as int),
            digits == dec_literal_digits(s@),
            n > start,
            forall|j: int| start <= j < i ==> is_dec_digit(#[trigger] s@[j]),
            val == dec_val(s@.subrange(start as int, i as int)),
        decreases n - i,
    {
        let c = s.get_char(i);
        let ghost pre = s@.subrange(start as int, i as int);
        let ghost cur = s@.subrange(start as int, i + 1);
        proof {
            assert(cur.drop_last() =~= pre);
            assert(cur.last() == s@[i as int]);
        }
        let d = match dec_digit_of(c) {
            Some(d) => d,
            None => {
                proof {
                    assert(digits[i - start] == s@[i as int]);
                    assert(!all_dec_digits(digits));
                }
                return Err(to_custom_error("invalid decimal digit"));
            },
        };
        if val > u64::MAX / 10 || (val == u64::MAX / 10 && d > u64::MAX % 10) {
            proof {
                assert(dec_val(cur) == val * 10 + d);
                assert(val * 10 + d > u64::MAX);
                assert(all_dec_digits(digits) ==> dec_val(digits) > u64::MAX) by {
                    if all_dec_digits(digits) {
                        assert(digits.take(i + 1 - start) =~= cur);
                        lemma_dec_val_prefix(digits, i + 1 - start);
                    }
                }
            }
            return Err(to_custom_error("decimal literal out of range"));
        }
        proof {
            assert(val * 10 + d <= u64::MAX);
        }
        val = val * 10 + d;
        i = i + 1;
    }
    proof {
        assert(s@.subrange(start as int, n as int) =~= digits);
        assert(all_dec_digits(digits));
        assert(spec_parse_u64(s@) == Some(val));
    }
    Ok(val)
}

/// Parsing the canonical rendering of a value yields the value back.
pub proof fn lemma_dec_round_trip(n: u64)
    ensures
        spec_parse_u64(dec_str(n as nat)) == Some(n),
{
    lemma_dec_str_correct(n as nat);
    let s = dec_str(n as nat);
    assert(s[0] != '+') by {
        assert(is_dec_digit(s[0]));
    }
    assert(dec_literal_digits(s) == s);
}

} // verus!
