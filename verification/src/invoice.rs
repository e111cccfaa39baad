//! Invoice numbers: `777` followed by the invoice counter, zero-padded to
//! six places.

use vstd::prelude::*;
use vstd::utf8::{encode_scalar, encode_utf8};
use vstd::utf8::{is_ascii_chars, is_ascii_chars_encode_utf8};
use crate::numeric::{all_digits, decimal, decimal_int, digits_value, format_i32, is_digit, lemma_decimal, parse_unsigned_spec};
use crate::response::{reply, answers, ApiResponse};
use crate::text::{push_char, string_from};

verus! {

/// The length of `s` in UTF-8 bytes (what `str::len` counts).
pub open spec fn byte_len(s: Seq<char>) -> nat {
    encode_utf8(s).len()
}

/// `n` copies of the character `0`.
pub open spec fn zeros(n: nat) -> Seq<char> {
    Seq::new(n, |i: int| '0')
}

/// `s` left-padded with `0`s until it is `width` bytes long; unchanged when
/// it is already that long.
pub open spec fn zero_padded(s: Seq<char>, width: nat) -> Seq<char> {
    if byte_len(s) >= width {
        s
    } else {
        zeros((width - byte_len(s)) as nat) + s
    }
}

/// `original` left-padded with `0`s up to `desired_length` bytes.
pub fn prefix_zeros(original: &str, desired_length: usize) -> (r: String)
    ensures
        r@ == zero_padded(original@, desired_length as nat),
{
    let len = original.as_bytes().len();
    if len >= desired_length {
        return string_from(original);
    }
    let zeros_needed = desired_length - len;
    let mut r = String::new();
    let mut i: usize = 0;
    while i < zeros_needed
        invariant
            i <= zeros_needed,
            r@ == zeros(i as nat),
        decreases zeros_needed - i,
    {
        push_char(&mut r, '0');
        assert(r@ =~= zeros((i + 1) as nat));
        i = i + 1;
    }
    r.append(original);
    r
}

/// The decimal text of an integer is ASCII, one byte per character, and at
/// most eleven characters long for an `i32`.
pub proof fn lemma_decimal_int_ascii(n: int)
    ensures
        is_ascii_chars(decimal_int(n)),
        byte_len(decimal_int(n)) == decimal_int(n).len(),
        -0x8000_0000 <= n <= 0x7fff_ffff ==> decimal_int(n).len() <= 11,
{
    let s = decimal_int(n);
    if n < 0 {
        lemma_decimal_shape((-n) as nat);
        assert forall|i: int| 0 <= i < s.len() implies '\0' <= #[trigger] s[i] <= '\u{7f}' by {
            if i > 0 {
                assert(s[i] == decimal((-n) as nat)[i - 1]);
            }
        }
    } else {
        lemma_decimal_shape(n as nat);
    }
    is_ascii_chars_encode_utf8(s);
}

/// The decimal text of `n` is made of digits and has at most `k` of them
/// when `n < 10^k`.
pub proof fn lemma_decimal_shape(n: nat)
    ensures
        is_ascii_chars(decimal(n)),
        n < 10 ==> decimal(n).len() == 1,
        n < 100 ==> decimal(n).len() <= 2,
        n < 1000 ==> decimal(n).len() <= 3,
        n < 10000 ==> decimal(n).len() <= 4,
        n < 100000 ==> decimal(n).len() <= 5,
        n < 1000000 ==> decimal(n).len() <= 6,
        n < 10000000 ==> decimal(n).len() <= 7,
        n < 100000000 ==> decimal(n).len() <= 8,
        n < 1000000000 ==> decimal(n).len() <= 9,
        n < 10000000000 ==> decimal(n).len() <= 10,
    decreases n,
{
    lemma_decimal(n);
    if n >= 10 {
        lemma_decimal_shape(n / 10);
    }
    let s = decimal(n);
    assert forall|i: int| 0 <= i < s.len() implies '\0' <= #[trigger] s[i] <= '\u{7f}' by {
        assert(is_digit(s[i]));
    }
}

/// The invoice number made from counter value `n`.
pub open spec fn invoice_number(n: int) -> Seq<char> {
    "777"@ + zero_padded(decimal_int(n), 6)
}

/// The invoice number for counter value `n` (`777` and `n` padded to six
/// places).
pub fn invoice_id(n: i32) -> (r: String)
    ensures
        r@ == invoice_number(n as int),
{
    let digits = format_i32(n);
    proof {
        lemma_decimal_int_ascii(n as int);
    }
    let padded = prefix_zeros(digits.as_str(), 6);
    let mut r = string_from("777");
    r.append(padded.as_str());
    r
}

} // verus!

verus! {

proof fn lemma_zeros_value(k: nat)
    ensures
        all_digits(zeros(k)),
        digits_value(zeros(k)) == 0,
    decreases k,
{
    if k > 0 {
        lemma_zeros_value((k - 1) as nat);
        assert(zeros(k).drop_last() =~= zeros((k - 1) as nat));
    }
}

proof fn lemma_zeros_prefix_value(k: nat, s: Seq<char>)
    requires
        all_digits(s),
    ensures
        all_digits(zeros(k) + s),
        digits_value(zeros(k) + s) == digits_value(s),
    decreases s.len(),
{
    lemma_zeros_value(k);
    if s.len() == 0 {
        assert(zeros(k) + s =~= zeros(k));
    } else {
        lemma_zeros_prefix_value(k, s.drop_last());
        assert((zeros(k) + s).drop_last() =~= zeros(k) + s.drop_last());
        assert((zeros(k) + s).last() == s.last());
    }
    assert forall|i: int| 0 <= i < (zeros(k) + s).len() implies is_digit((zeros(k) + s)[i]) by {
        if i >= k {
            assert((zeros(k) + s)[i] == s[i - k]);
        }
    }
}

/// For counter values below a million, the invoice number is `777`
/// followed by exactly six digits whose value is the counter.
pub proof fn law_invoice_number_encodes_counter(n: int)
    requires
        0 <= n < 1000000,
    ensures
        invoice_number(n).len() == 9,
        invoice_number(n).subrange(0, 3) == "777"@,
        all_digits(invoice_number(n).subrange(3, 9)),
        digits_value(invoice_number(n).subrange(3, 9)) == n,
{
    reveal_strlit("777");
    lemma_decimal_int_ascii(n);
    lemma_decimal_shape(n as nat);
    lemma_decimal(n as nat);
    let d = decimal_int(n);
    assert(d == decimal(n as nat));
    let p = zero_padded(d, 6);
    if d.len() < 6 {
        lemma_zeros_prefix_value((6 - d.len()) as nat, d);
        assert(p.len() == 6);
    } else {
        assert(p == d);
    }
    let inv = invoice_number(n);
    assert(inv.subrange(0, 3) =~= "777"@);
    assert(inv.subrange(3, 9) =~= p);
}

/// After the `777`, the invoice number of a counter value that is not
/// negative is all digits, and they read back as the counter value.
proof fn lemma_invoice_digits(n: int)
    requires
        0 <= n,
    ensures
        invoice_number(n).len() >= 3,
        invoice_number(n).subrange(0, 3) == "777"@,
        all_digits(invoice_number(n).subrange(3, invoice_number(n).len() as int)),
        digits_value(invoice_number(n).subrange(3, invoice_number(n).len() as int)) == n,
{
    reveal_strlit("777");
    lemma_decimal(n as nat);
    let d = decimal_int(n);
    assert(d == decimal(n as nat));
    let p = zero_padded(d, 6);
    if byte_len(d) < 6 {
        lemma_zeros_prefix_value((6 - byte_len(d)) as nat, d);
    }
    let inv = invoice_number(n);
    assert(inv.subrange(0, 3) =~= "777"@);
    assert(inv.subrange(3, inv.len() as int) =~= p);
}

/// Different counter values (not negative) give different invoice numbers.
pub proof fn law_invoice_numbers_distinct(n: int, m: int)
    requires
        0 <= n,
        0 <= m,
        n != m,
    ensures
        invoice_number(n) != invoice_number(m),
{
    lemma_invoice_digits(n);
    lemma_invoice_digits(m);
}

/// UTF-8 encoding distributes over concatenation.
proof fn lemma_encode_concat(a: Seq<char>, b: Seq<char>)
    ensures
        encode_utf8(a + b) == encode_utf8(a) + encode_utf8(b),
    decreases a.len(),
{
    if a.len() == 0 {
        assert(a + b =~= b);
        assert(encode_utf8(a) =~= Seq::<u8>::empty());
        assert(encode_utf8(a) + encode_utf8(b) =~= encode_utf8(b));
    } else {
        lemma_encode_concat(a.drop_first(), b);
        assert((a + b)[0] == a[0]);
        assert((a + b).drop_first() =~= a.drop_first() + b);
        assert(encode_scalar(a[0] as u32) + (encode_utf8(a.drop_first()) + encode_utf8(b)) =~= (
        encode_scalar(a[0] as u32) + encode_utf8(a.drop_first())) + encode_utf8(b));
    }
}

/// Each `0` takes one byte.
proof fn lemma_zeros_bytes(k: nat)
    ensures
        byte_len(zeros(k)) == k,
{
    assert(is_ascii_chars(zeros(k)));
    is_ascii_chars_encode_utf8(zeros(k));
}

/// Padding gives a text of exactly the asked width when the original is
/// shorter, and the original itself otherwise; the original always stands
/// at the end.
pub proof fn law_zero_padding_width(s: Seq<char>, width: nat)
    ensures
        byte_len(zero_padded(s, width)) == if byte_len(s) >= width {
            byte_len(s)
        } else {
            width
        },
        zero_padded(s, width).len() >= s.len(),
        zero_padded(s, width).subrange(zero_padded(s, width).len() - s.len(), zero_padded(s, width).len() as int) == s,
{
    let p = zero_padded(s, width);
    if byte_len(s) >= width {
        assert(p.subrange(0, p.len() as int) =~= s);
    } else {
        let k = (width - byte_len(s)) as nat;
        lemma_encode_concat(zeros(k), s);
        lemma_zeros_bytes(k);
        assert(p.subrange(k as int, p.len() as int) =~= s);
    }
}

/// Padding a text of decimal digits with zeros keeps what it reads as: the
/// padded text is still all digits with the same value, so parsing it as
/// any unsigned type gives what parsing the original gives.
pub proof fn law_zero_padding_keeps_value(s: Seq<char>, width: nat, max: nat)
    requires
        s.len() > 0,
        all_digits(s),
    ensures
        all_digits(zero_padded(s, width)),
        digits_value(zero_padded(s, width)) == digits_value(s),
        parse_unsigned_spec(zero_padded(s, width), max) == parse_unsigned_spec(s, max),
{
    let p = zero_padded(s, width);
    if byte_len(s) < width {
        lemma_zeros_prefix_value((width - byte_len(s)) as nat, s);
    }
    assert(p.len() > 0 && p[0] != '+') by {
        if byte_len(s) < width {
            assert(p[0] == '0');
        } else {
            assert(is_digit(s[0]));
        }
    }
    assert(s[0] != '+') by {
        assert(is_digit(s[0]));
    }
}

/// The invoice number handed out once the counter row has been advanced:
/// the number made from the advanced counter, or, where there is no such
/// row (the statement gave no counter), `500 Invoice ID generation failed!`.
pub fn issue_invoice_id(advanced_counter: Option<i32>) -> (r: Result<String, ApiResponse>)
    ensures
        match advanced_counter {
            Some(n) => (r matches Ok(id) && id@ == invoice_number(n as int)),
            None => (r matches Err(e) && answers(e, 500, "Invoice ID generation failed!"@)),
        },
{
    match advanced_counter {
        Some(n) => Ok(invoice_id(n)),
        None => Err(reply(500, "Invoice ID generation failed!")),
    }
}

/// The counter row is advanced by one on each issue, so a row holding `c`
/// hands out the number of `c + 1`, the next issue the number of `c + 2`,
/// and so on: as long as the counter is not negative, no two issues hand
/// out the same number.
pub proof fn law_successive_invoice_ids_differ(c: int, k: nat, l: nat)
    requires
        0 <= c,
        k != l,
    ensures
        invoice_number(c + 1 + k) != invoice_number(c + 1 + l),
{
    law_invoice_numbers_distinct(c + 1 + k, c + 1 + l);
}

} // verus!
