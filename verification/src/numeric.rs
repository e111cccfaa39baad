//! Decimal text and integers: the parsing rules of `str::parse` for the
//! integer types the handlers read (`u64`, `u32`, `i32`) and the decimal
//! rendering of integers that the handlers write into text.

use vstd::prelude::*;
use crate::text::{chars_of, push_char, string_of};

verus! {

/// `c` is one of the ASCII digits `0`..`9`.
pub open spec fn is_digit(c: char) -> bool {
    48 <= (c as u32) <= 57
}

/// The value of an ASCII digit.
pub open spec fn digit_value(c: char) -> nat {
    ((c as u32) - 48) as nat
}

/// Every character of `s` is an ASCII digit.
pub open spec fn all_digits(s: Seq<char>) -> bool {
    forall|i: int| 0 <= i < s.len() ==> is_digit(s[i])
}

/// The value of a string of decimal digits, most significant first.
pub open spec fn digits_value(s: Seq<char>) -> nat
    decreases s.len(),
{
    if s.len() == 0 {
        0
    } else {
        digits_value(s.drop_last()) * 10 + digit_value(s.last())
    }
}

/// The text after an optional leading `+`.
pub open spec fn unsigned_body(s: Seq<char>) -> Seq<char> {
    if s.len() > 0 && s[0] == '+' {
        s.drop_first()
    } else {
        s
    }
}

/// The value `str::parse` gives for an unsigned type whose largest value is
/// `max`: an optional `+`, then at least one digit and nothing else, with
/// the value at most `max`.
pub open spec fn parse_unsigned_spec(s: Seq<char>, max: nat) -> Option<nat> {
    let b = unsigned_body(s);
    if b.len() > 0 && all_digits(b) && digits_value(b) <= max {
        Some(digits_value(b))
    } else {
        None
    }
}

/// The value `str::parse::<i32>` gives: an optional sign, then at least one
/// digit and nothing else, with the value in the range of `i32`.
pub open spec fn parse_i32_spec(s: Seq<char>) -> Option<int> {
    if s.len() > 0 && s[0] == '-' {
        let b = s.drop_first();
        if b.len() > 0 && all_digits(b) && digits_value(b) <= 0x8000_0000 {
            Some(-(digits_value(b) as int))
        } else {
            None
        }
    } else {
        match parse_unsigned_spec(s, 0x7fff_ffff) {
            Some(v) => Some(v as int),
            None => None,
        }
    }
}

proof fn lemma_digits_value_monotone(s: Seq<char>, j: int, k: int)
    requires
        0 <= j <= k <= s.len(),
        all_digits(s),
    ensures
        digits_value(s.subrange(0, j)) <= digits_value(s.subrange(0, k)),
    decreases k - j,
{
    if j < k {
        lemma_digits_value_monotone(s, j, k - 1);
        let t = s.subrange(0, k);
        assert(t.drop_last() =~= s.subrange(0, k - 1));
    }
}

/// Reads the digits of `cs` from position `start` on; `None` when a
/// non-digit occurs, when there are no digits, or when the value exceeds
/// `max`.
fn parse_digits(cs: &Vec<char>, start: usize, max: u64) -> (r: Option<u64>)
    requires
        start <= cs.len(),
        max >= 9,
    ensures
        ({
            let b = cs@.subrange(start as int, cs@.len() as int);
            match r {
                Some(v) => b.len() > 0 && all_digits(b) && digits_value(b) <= max && v
                    == digits_value(b),
                None => !(b.len() > 0 && all_digits(b) && digits_value(b) <= max),
            }
        }),
{
    let ghost b = cs@.subrange(start as int, cs@.len() as int);
    if start == cs.len() {
        return None;
    }
    let mut v: u64 = 0;
    let mut i: usize = start;
    while i < cs.len()
        invariant
            start <= i <= cs.len(),
            b == cs@.subrange(start as int, cs@.len() as int),
            all_digits(cs@.subrange(start as int, i as int)),
            v as nat == digits_value(cs@.subrange(start as int, i as int)),
            v <= max,
            max >= 9,
        decreases cs.len() - i,
    {
        let c = cs[i];
        let u = c as u32;
        let ghost pre = cs@.subrange(start as int, i as int);
        let ghost nxt = cs@.subrange(start as int, i + 1);
        assert(nxt.drop_last() =~= pre);
        if u < 48 || u > 57 {
            assert(b[i - start] == c);
            return None;
        }
        let d = (u - 48) as u64;
        assert(all_digits(nxt));
        assert(digits_value(nxt) == digits_value(pre) * 10 + d);
        if v > (max - d) / 10 {
            proof {
                assert(v * 10 + d > max) by (nonlinear_arith)
                    requires
                        v > (max - d) / 10,
                        d <= 9,
                        d <= max,
                ;
            }
            // the value only grows with more digits
            proof {
                if all_digits(b) {
                    assert(b.subrange(0, i + 1 - start) =~= nxt);
                    lemma_digits_value_monotone(b, i + 1 - start, b.len() as int);
                    assert(b.subrange(0, b.len() as int) =~= b);
                }
            }
            return None;
        }
        assert(v * 10 + d <= max) by (nonlinear_arith)
            requires
                v <= (max - d) / 10,
                d <= max,
        ;
        v = v * 10 + d;
        i = i + 1;
    }
    assert(cs@.subrange(start as int, i as int) =~= b);
    Some(v)
}

/// `str::parse::<u64>`.
pub fn parse_u64(s: &str) -> (r: Option<u64>)
    ensures
        r matches Some(v) ==> parse_unsigned_spec(s@, 0xffff_ffff_ffff_ffff) == Some(v as nat),
        r is None ==> parse_unsigned_spec(s@, 0xffff_ffff_ffff_ffff) is None,
{
    let cs = chars_of(s);
    let start: usize = if cs.len() > 0 && cs[0] == '+' {
        1
    } else {
        0
    };
    proof {
        assert(unsigned_body(s@) =~= cs@.subrange(start as int, cs@.len() as int));
    }
    parse_digits(&cs, start, 0xffff_ffff_ffff_ffff)
}

/// `str::parse::<u32>`.
pub fn parse_u32(s: &str) -> (r: Option<u32>)
    ensures
        r matches Some(v) ==> parse_unsigned_spec(s@, 0xffff_ffff) == Some(v as nat),
        r is None ==> parse_unsigned_spec(s@, 0xffff_ffff) is None,
{
    let cs = chars_of(s);
    let start: usize = if cs.len() > 0 && cs[0] == '+' {
        1
    } else {
        0
    };
    proof {
        assert(unsigned_body(s@) =~= cs@.subrange(start as int, cs@.len() as int));
    }
    match parse_digits(&cs, start, 0xffff_ffff) {
        Some(v) => Some(v as u32),
        None => None,
    }
}

/// `str::parse::<i32>`.
pub fn parse_i32(s: &str) -> (r: Option<i32>)
    ensures
        r matches Some(v) ==> parse_i32_spec(s@) == Some(v as int),
        r is None ==> parse_i32_spec(s@) is None,
{
    let cs = chars_of(s);
    if cs.len() > 0 && cs[0] == '-' {
        proof {
            assert(s@.drop_first() =~= cs@.subrange(1, cs@.len() as int));
        }
        match parse_digits(&cs, 1, 0x8000_0000) {
            Some(v) => {
                let w: i64 = -(v as i64);
                Some(w as i32)
            },
            None => None,
        }
    } else {
        let start: usize = if cs.len() > 0 && cs[0] == '+' {
            1
        } else {
            0
        };
        proof {
            assert(unsigned_body(s@) =~= cs@.subrange(start as int, cs@.len() as int));
        }
        match parse_digits(&cs, start, 0x7fff_ffff) {
            Some(v) => Some(v as i32),
            None => None,
        }
    }
}

// ---------------------------------------------------------------------------
// Rendering integers in decimal
// ---------------------------------------------------------------------------

/// The ASCII digit for `d` (for `d` below ten).
pub open spec fn digit_char(d: nat) -> char {
    if d == 0 {
        '0'
    } else if d == 1 {
        '1'
    } else if d == 2 {
        '2'
    } else if d == 3 {
        '3'
    } else if d == 4 {
        '4'
    } else if d == 5 {
        '5'
    } else if d == 6 {
        '6'
    } else if d == 7 {
        '7'
    } else if d == 8 {
        '8'
    } else {
        '9'
    }
}

/// The decimal text of `n`, without leading zeros.
pub open spec fn decimal(n: nat) -> Seq<char>
    decreases n,
{
    if n < 10 {
        seq![digit_char(n)]
    } else {
        decimal(n / 10).push(digit_char(n % 10))
    }
}

/// The decimal text of an integer, with a leading `-` when it is negative
/// (as `{}` renders an integer).
pub open spec fn decimal_int(n: int) -> Seq<char> {
    if n < 0 {
        seq!['-'] + decimal((-n) as nat)
    } else {
        decimal(n as nat)
    }
}

fn digit_to_char(d: u64) -> (c: char)
    requires
        d < 10,
    ensures
        c == digit_char(d as nat),
{
    if d == 0 {
        '0'
    } else if d == 1 {
        '1'
    } else if d == 2 {
        '2'
    } else if d == 3 {
        '3'
    } else if d == 4 {
        '4'
    } else if d == 5 {
        '5'
    } else if d == 6 {
        '6'
    } else if d == 7 {
        '7'
    } else if d == 8 {
        '8'
    } else {
        '9'
    }
}

fn decimal_chars(n: u64) -> (v: Vec<char>)
    ensures
        v@ == decimal(n as nat),
    decreases n,
{
    if n < 10 {
        let mut v: Vec<char> = Vec::new();
        v.push(digit_to_char(n));
        assert(v@ =~= decimal(n as nat));
        v
    } else {
        let mut v = decimal_chars(n / 10);
        v.push(digit_to_char(n % 10));
        v
    }
}

/// The decimal text of `n` (as `format!("{}", n)`).
pub fn format_u64(n: u64) -> (s: String)
    ensures
        s@ == decimal(n as nat),
{
    let v = decimal_chars(n);
    string_of(&v)
}

/// The decimal text of `n`, with `-` for negative values (as `format!("{}", n)`).
pub fn format_i64(n: i64) -> (s: String)
    ensures
        s@ == decimal_int(n as int),
{
    if n < 0 {
        let m: u64 = if n == i64::MIN {
            0x8000_0000_0000_0000
        } else {
            (-n) as u64
        };
        let v = decimal_chars(m);
        let mut s = String::new();
        push_char(&mut s, '-');
        let mut i: usize = 0;
        while i < v.len()
            invariant
                i <= v.len(),
                s@ == seq!['-'] + v@.subrange(0, i as int),
            decreases v.len() - i,
        {
            push_char(&mut s, v[i]);
            proof {
                assert(v@.subrange(0, i + 1) =~= v@.subrange(0, i as int).push(v@[i as int]));
            }
            i = i + 1;
        }
        assert(v@.subrange(0, v.len() as int) =~= v@);
        s
    } else {
        format_u64(n as u64)
    }
}

/// The decimal text of `n` (as `format!("{}", n)`).
pub fn format_i32(n: i32) -> (s: String)
    ensures
        s@ == decimal_int(n as int),
{
    format_i64(n as i64)
}

// ---------------------------------------------------------------------------
// Facts about decimal text
// ---------------------------------------------------------------------------

proof fn lemma_digit_char(d: nat)
    requires
        d < 10,
    ensures
        is_digit(digit_char(d)),
        digit_value(digit_char(d)) == d,
        digit_char(d) != '+',
        digit_char(d) != '-',
{
}

/// The decimal text of `n` is a non-empty string of digits whose value is `n`.
pub proof fn lemma_decimal(n: nat)
    ensures
        decimal(n).len() > 0,
        all_digits(decimal(n)),
        digits_value(decimal(n)) == n,
        decimal(n)[0] != '+',
        decimal(n)[0] != '-',
    decreases n,
{
    if n < 10 {
        lemma_digit_char(n);
        let s = decimal(n);
        assert(s.drop_last().len() == 0);
        assert(digits_value(s.drop_last()) == 0);
    } else {
        lemma_decimal(n / 10);
        lemma_digit_char(n % 10);
        let s = decimal(n);
        assert(s.drop_last() =~= decimal(n / 10));
        assert(s.last() == digit_char(n % 10));
        assert(digits_value(s) == digits_value(decimal(n / 10)) * 10 + digit_value(s.last()));
        assert(n == (n / 10) * 10 + n % 10);
        assert(digits_value(decimal(n / 10)) * 10 == (n / 10) * 10);
        assert(digits_value(s) == (n / 10) * 10 + n % 10);
        assert forall|i: int| 0 <= i < s.len() implies is_digit(s[i]) by {
            if i < s.len() - 1 {
                assert(s[i] == decimal(n / 10)[i]);
            }
        }
    }
}

/// Rendering a natural number in decimal and parsing it back gives the
/// number again, for every unsigned bound that holds it.
pub proof fn lemma_parse_unsigned_decimal(n: nat, max: nat)
    requires
        n <= max,
    ensures
        parse_unsigned_spec(decimal(n), max) == Some(n),
{
    lemma_decimal(n);
}

/// Rendering an `i32` in decimal and parsing it back with `str::parse::<i32>`
/// gives the same number.
pub proof fn lemma_parse_i32_decimal(n: i32)
    ensures
        parse_i32_spec(decimal_int(n as int)) == Some(n as int),
{
    if n < 0 {
        let m: nat = (-(n as int)) as nat;
        lemma_decimal(m);
        let s = decimal_int(n as int);
        assert(s.drop_first() =~= decimal(m));
    } else {
        lemma_decimal(n as nat);
    }
}

/// The decimal text of an integer holds only digits and a leading minus.
pub proof fn lemma_decimal_int_symbols(n: int)
    ensures
        forall|i: int|
            0 <= i < decimal_int(n).len() ==> (#[trigger] decimal_int(n)[i] == '-' || is_digit(
                decimal_int(n)[i],
            )),
{
    if n < 0 {
        let m: nat = (-n) as nat;
        lemma_decimal(m);
        let s = decimal_int(n);
        assert forall|i: int| 0 <= i < s.len() implies (#[trigger] s[i] == '-' || is_digit(s[i])) by {
            if i > 0 {
                assert(s[i] == decimal(m)[i - 1]);
            }
        }
    } else {
        lemma_decimal(n as nat);
    }
}

} // verus!
