//! Verified hexadecimal text codec for byte strings.
//!
//! Encoding renders each byte as two lowercase hex characters; decoding
//! accepts both lowercase and uppercase digits. Both directions are
//! verified against the spec-level forms [`hex_of`] and [`hex_bytes`].

use vstd::prelude::*;
use vstd::string::*;

verus! {

/// The lowercase character for one hex digit value.
pub open spec fn hex_digit_char(d: int) -> char {
    if d == 0 {
        '0'
    } else if d == 1 {
        '1'
    } else if d == 2 {
        '2'
    } else if d == 3 {
        '3'
    } else if d == 4 {
        '4'
    } else if d == 5 {
        '5'
    } else if d == 6 {
        '6'
    } else if d == 7 {
        '7'
    } else if d == 8 {
        '8'
    } else if d == 9 {
        '9'
    } else if d == 10 {
        'a'
    } else if d == 11 {
        'b'
    } else if d == 12 {
        'c'
    } else if d == 13 {
        'd'
    } else if d == 14 {
        'e'
    } else {
        'f'
    }
}

/// The value of one hex digit character, in either case, or -1 if the
/// character is not a hex digit.
pub open spec fn hex_digit_val(c: char) -> int {
    if c == '0' {
        0
    } else if c == '1' {
        1
    } else if c == '2' {
        2
    } else if c == '3' {
        3
    } else if c == '4' {
        4
    } else if c == '5' {
        5
    } else if c == '6' {
        6
    } else if c == '7' {
        7
    } else if c == '8' {
        8
    } else if c == '9' {
        9
    } else if c == 'a' || c == 'A' {
        10
    } else if c == 'b' || c == 'B' {
        11
    } else if c == 'c' || c == 'C' {
        12
    } else if c == 'd' || c == 'D' {
        13
    } else if c == 'e' || c == 'E' {
        14
    } else if c == 'f' || c == 'F' {
        15
    } else {
        -1
    }
}

pub open spec fn is_hex_digit(c: char) -> bool {
    hex_digit_val(c) >= 0
}

pub open spec fn all_hex_digits(s: Seq<char>) -> bool {
    forall|i: int| 0 <= i < s.len() ==> is_hex_digit(#[trigger] s[i])
}

/// The lowercase hex rendering of a byte string: two characters per byte.
pub open spec fn hex_of(bytes: Seq<u8>) -> Seq<char>
    decreases bytes.len(),
{
    if bytes.len() == 0 {
        Seq::empty()
    } else {
        hex_of(bytes.drop_last()) + seq![
            hex_digit_char(bytes.last() as int / 16),
            hex_digit_char(bytes.last() as int % 16),
        ]
    }
}

/// The bytes denoted by an even-length string of hex digits, one byte per
/// character pair.
pub open spec fn hex_bytes(s: Seq<char>) -> Seq<u8>
    decreases s.len(),
{
    if s.len() < 2 {
        Seq::empty()
    } else {
        hex_bytes(s.take(s.len() - 2)).push(
            (hex_digit_val(s[s.len() - 2]) * 16 + hex_digit_val(s[s.len() - 1])) as u8,
        )
    }
}

/// The hex rendering of a byte string consists of hex digits alone, is
/// twice as long as the bytes, and reads back as the same bytes.
pub proof fn lemma_hex_round_trip(bytes: Seq<u8>)
    ensures
        hex_of(bytes).len() == 2 * bytes.len(),
        all_hex_digits(hex_of(bytes)),
        hex_bytes(hex_of(bytes)) == bytes,
    decreases bytes.len(),
{
    if bytes.len() == 0 {
        assert(hex_bytes(hex_of(bytes)) =~= bytes);
    } else {
        lemma_hex_round_trip(bytes.drop_last());
        let p = hex_of(bytes.drop_last());
        let b = bytes.last() as int;
        let s = hex_of(bytes);
        let hi = hex_digit_char(b / 16);
        let lo = hex_digit_char(b % 16);
        assert(s == p + seq![hi, lo]);
        assert forall|i: int| 0 <= i < s.len() implies is_hex_digit(#[trigger] s[i]) by {
            if i < p.len() {
                assert(s[i] == p[i]);
            } else if i == p.len() {
                assert(s[i] == hi);
            } else {
                assert(s[i] == lo);
            }
        }
        assert(s.take(s.len() - 2) =~= p);
        assert(s[s.len() - 2] == hi && s[s.len() - 1] == lo);
        assert(hex_digit_val(hi) == b / 16 && hex_digit_val(lo) == b % 16);
        assert(b / 16 * 16 + b % 16 == b) by (nonlinear_arith)
            requires
                0 <= b < 256,
        ;
        assert(hex_bytes(s) == hex_bytes(p).push(bytes.last()));
        assert(hex_bytes(s) =~= bytes);
    }
}

/// The one-character string for a hex digit value, lowercase.
fn hex_digit_piece(d: u8) -> (r: &'static str)
    requires
        d < 16,
    ensures
        r@ == seq![hex_digit_char(d as int)],
{
    let r: &'static str = if d == 0 {
        "0"
    } else if d == 1 {
        "1"
    } else if d == 2 {
        "2"
    } else if d == 3 {
        "3"
    } else if d == 4 {
        "4"
    } else if d == 5 {
        "5"
    } else if d == 6 {
        "6"
    } else if d == 7 {
        "7"
    } else if d == 8 {
        "8"
    } else if d == 9 {
        "9"
    } else if d == 10 {
        "a"
    } else if d == 11 {
        "b"
    } else if d == 12 {
        "c"
    } else if d == 13 {
        "d"
    } else if d == 14 {
        "e"
    } else {
        "f"
    };
    proof {
        reveal_strlit("0");
        reveal_strlit("1");
        reveal_strlit("2");
        reveal_strlit("3");
        reveal_strlit("4");
        reveal_strlit("5");
        reveal_strlit("6");
        reveal_strlit("7");
        reveal_strlit("8");
        reveal_strlit("9");
        reveal_strlit("a");
        reveal_strlit("b");
        reveal_strlit("c");
        reveal_strlit("d");
        reveal_strlit("e");
        reveal_strlit("f");
        assert(r@ =~= seq![hex_digit_char(d as int)]);
    }
    r
}

/// Appends the lowercase hex rendering of the bytes to the given string.
pub fn append_hex(acc: &mut String, bytes: &Vec<u8>)
    ensures
        final(acc)@ == old(acc)@ + hex_of(bytes@),
{
    let ghost base = acc@;
    let mut i: usize = 0;
    while i < bytes.len()
        invariant
            i <= bytes@.len(),
            acc@ == base + hex_of(bytes@.take(i as int)),
        decreases bytes@.len() - i,
    {
        let b = bytes[i];
        let ghost cur = bytes@.take(i + 1);
        acc.append(hex_digit_piece(b / 16));
        acc.append(hex_digit_piece(b % 16));
        proof {
            assert(cur.drop_last() =~= bytes@.take(i as int));
            assert(cur.last() == b);
            assert(hex_of(cur) == hex_of(bytes@.take(i as int)) + seq![
                hex_digit_char(b as int / 16),
                hex_digit_char(b as int % 16),
            ]);
            assert(acc@ =~= base + hex_of(cur));
        }
        i = i + 1;
    }
    proof {
        assert(bytes@.take(bytes@.len() as int) =~= bytes@);
    }
}

/// The hex digit value of a character, in either case, if it is one.
fn hex_digit_of(c: char) -> (r: Option<u8>)
    ensures
        match r {
            Some(d) => d < 16 && hex_digit_val(c) == d as int,
            None => !is_hex_digit(c),
        },
{
    if c == '0' {
        Some(0)
    } else if c == '1' {
        Some(1)
    } else if c == '2' {
        Some(2)
    } else if c == '3' {
        Some(3)
    } else if c == '4' {
        Some(4)
    } else if c == '5' {
        Some(5)
    } else if c == '6' {
        Some(6)
    } else if c == '7' {
        Some(7)
    } else if c == '8' {
        Some(8)
    } else if c == '9' {
        Some(9)
    } else if c == 'a' || c == 'A' {
        Some(10)
    } else if c == 'b' || c == 'B' {
        Some(11)
    } else if c == 'c' || c == 'C' {
        Some(12)
    } else if c == 'd' || c == 'D' {
        Some(13)
    } else if c == 'e' || c == 'E' {
        Some(14)
    } else if c == 'f' || c == 'F' {
        Some(15)
    } else {
        None
    }
}

/// Decodes the hex digits of `s` between `from` and `to` (an even count of
/// characters), appending one byte per pair to `out`; reports whether a
/// non-hex character was found instead.
pub fn append_hex_bytes(out: &mut Vec<u8>, s: &str, from: usize, to: usize) -> (r: bool)
    requires
        from <= to <= s@.len(),
        (to - from) % 2 == 0,
    ensures
        r ==> all_hex_digits(s@.subrange(from as int, to as int)) && final(out)@ == old(out)@
            + hex_bytes(s@.subrange(from as int, to as int)),
        !r ==> !all_hex_digits(s@.subrange(from as int, to as int)),
{
    let ghost base = out@;
    let ghost digits = s@.subrange(from as int, to as int);
    let mut i: usize = from;
    while i < to
        invariant
            from <= i <= to <= s@.len(),
            (to - from) % 2 == 0,
            (i - from) % 2 == 0,
            digits == s@.subrange(from as int, to as int),
            forall|j: int| from <= j < i ==> is_hex_digit(#[trigger] s@[j]),
            out@ == base + hex_bytes(s@.subrange(from as int, i as int)),
        decreases to - i,
    {
        let hi = match hex_digit_of(s.get_char(i)) {
            Some(d) => d,
            None => {
                proof {
                    assert(digits[i - from] == s@[i as int]);
                    assert(!all_hex_digits(digits));
                }
                return false;
            },
        };
        let lo = match hex_digit_of(s.get_char(i + 1)) {
            Some(d) => d,
            None => {
                proof {
                    assert(digits[i + 1 - from] == s@[i + 1]);
                    assert(!all_hex_digits(digits));
                }
                return false;
            },
        };
        let ghost pre = s@.subrange(from as int, i as int);
        let ghost cur = s@.subrange(from as int, i + 2);
        out.push(hi * 16 + lo);
        proof {
            assert(cur.take(cur.len() - 2) =~= pre);
            assert(cur[cur.len() - 2] == s@[i as int]);
            assert(cur[cur.len() - 1] == s@[i + 1]);
            assert(hex_bytes(cur) == hex_bytes(pre).push((hex_digit_val(s@[i as int]) * 16
                + hex_digit_val(s@[i + 1])) as u8));
            assert(out@ =~= base + hex_bytes(cur));
        }
        i = i + 2;
    }
    proof {
        assert(s@.subrange(from as int, i as int) =~= digits);
    }
    true
}

} // verus!
