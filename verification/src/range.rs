//! The `Range` request header of the video streaming endpoint.

use vstd::prelude::*;
use crate::numeric::{decimal, is_digit, lemma_decimal, lemma_parse_unsigned_decimal, parse_u64, parse_unsigned_spec};
use crate::text::{chars_of, has_prefix, lemma_pieces_single, lemma_pieces_two, pieces, split_char, starts_with, string_of, texts};

verus! {

/// `s` with every leading copy of `p` removed (as `str::trim_start_matches`
/// with a string pattern).
pub open spec fn strip_prefixes(s: Seq<char>, p: Seq<char>) -> Seq<char>
    decreases s.len(),
{
    if p.len() > 0 && has_prefix(s, p) {
        strip_prefixes(s.subrange(p.len() as int, s.len() as int), p)
    } else {
        s
    }
}

/// The largest `u64`.
pub open spec fn u64_max() -> nat {
    0xffff_ffff_ffff_ffff
}

/// The byte range a `Range` header asks for, given the size of the file:
/// the header must start with `bytes=`; after every leading `bytes=` is
/// removed, the text is split at `-`; the first piece must be a `u64` (the
/// start); the end is the second piece when there is one that is a `u64`,
/// and the last byte of the file otherwise.
pub open spec fn requested_range(header: Seq<char>, file_size: nat) -> Option<(nat, nat)> {
    if !has_prefix(header, "bytes="@) {
        None
    } else {
        let parts = pieces(strip_prefixes(header, "bytes="@), '-');
        match parse_unsigned_spec(parts[0], u64_max()) {
            None => None,
            Some(start) => {
                let end = if parts.len() > 1 && parse_unsigned_spec(parts[1], u64_max()) is Some {
                    parse_unsigned_spec(parts[1], u64_max())->0
                } else {
                    (file_size - 1) as nat
                };
                Some((start, end))
            },
        }
    }
}

/// The start byte a `Range` header asks for: present when the header starts
/// with `bytes=` and the text up to the first `-` (after every leading
/// `bytes=` is removed) is a `u64`.
pub open spec fn range_start(header: Seq<char>) -> Option<nat> {
    if !has_prefix(header, "bytes="@) {
        None
    } else {
        parse_unsigned_spec(pieces(strip_prefixes(header, "bytes="@), '-')[0], u64_max())
    }
}

/// The characters of `v` from position `from` on.
fn skip_chars(v: &Vec<char>, from: usize) -> (r: Vec<char>)
    requires
        from <= v.len(),
    ensures
        r@ == v@.subrange(from as int, v@.len() as int),
{
    let mut r: Vec<char> = Vec::new();
    let mut i: usize = from;
    while i < v.len()
        invariant
            from <= i <= v.len(),
            r@ == v@.subrange(from as int, i as int),
        decreases v.len() - i,
    {
        r.push(v[i]);
        assert(v@.subrange(from as int, i + 1) =~= v@.subrange(from as int, i as int).push(
            v@[i as int],
        ));
        i = i + 1;
    }
    r
}

/// The start and end byte a `Range` header asks for (`None` when the header
/// is not understood). Once the start is read, the last byte of the file is
/// the default end, so a header whose start reads needs a file that is not
/// empty.
pub fn parse_range(range: &str, file_size: u64) -> (r: Option<(u64, u64)>)
    requires
        range_start(range@) is Some ==> file_size >= 1,
    ensures
        match requested_range(range@, file_size as nat) {
            None => r is None,
            Some((start, end)) => r matches Some((s, e)) && s == start && e == end,
        },
{
    proof {
        reveal_strlit("bytes=");
    }
    let cs = chars_of(range);
    if !starts_with(&cs, "bytes=") {
        return None;
    }
    let prefix = chars_of("bytes=");
    let mut rest = cs;
    while prefix.len() > 0 && starts_with(&rest, "bytes=")
        invariant
            prefix@ == "bytes="@,
            strip_prefixes(rest@, "bytes="@) == strip_prefixes(range@, "bytes="@),
        decreases rest.len(),
    {
        rest = skip_chars(&rest, prefix.len());
    }
    assert(rest@ == strip_prefixes(range@, "bytes="@));
    let rest_text = string_of(&rest);
    let parts = split_char(rest_text.as_str(), '-');
    proof {
        assert(texts(parts@).len() == parts@.len());
        assert(texts(parts@)[0] == parts@[0]@);
    }
    let start = match parse_u64(parts[0].as_str()) {
        Some(v) => v,
        None => return None,
    };
    let mut end: u64 = file_size - 1;
    if parts.len() > 1 {
        proof {
            assert(texts(parts@)[1] == parts@[1]@);
        }
        match parse_u64(parts[1].as_str()) {
            Some(v) => {
                end = v;
            },
            None => {},
        }
    }
    Some((start, end))
}

/// `bytes=` followed by text that does not itself start with `bytes=`
/// leaves that text once the prefixes are stripped.
proof fn lemma_strip_bytes_prefix(rest: Seq<char>)
    requires
        rest.len() > 0,
        is_digit(rest[0]),
    ensures
        has_prefix("bytes="@ + rest, "bytes="@),
        strip_prefixes("bytes="@ + rest, "bytes="@) == rest,
{
    reveal_strlit("bytes=");
    let h = "bytes="@ + rest;
    assert(h.subrange(0, 6) =~= "bytes="@);
    assert(h.subrange(6, h.len() as int) =~= rest);
    assert(!has_prefix(rest, "bytes="@)) by {
        if has_prefix(rest, "bytes="@) {
            assert(rest[0] == rest.subrange(0, 6)[0]);
        }
    }
    reveal_with_fuel(strip_prefixes, 2);
}

/// A header `bytes=<start>-<end>` asks for exactly that range, and
/// `bytes=<start>-` or `bytes=<start>` for the range from the start to the
/// last byte of the file.
pub proof fn law_range_header_round_trip(start: u64, end: u64, file_size: nat)
    requires
        file_size >= 1,
    ensures
        requested_range("bytes="@ + decimal(start as nat) + "-"@ + decimal(end as nat), file_size)
            == Some((start as nat, end as nat)),
        requested_range("bytes="@ + decimal(start as nat) + "-"@, file_size) == Some(
            (start as nat, (file_size - 1) as nat),
        ),
        requested_range("bytes="@ + decimal(start as nat), file_size) == Some(
            (start as nat, (file_size - 1) as nat),
        ),
{
    reveal_strlit("-");
    let a = decimal(start as nat);
    let b = decimal(end as nat);
    let e = Seq::<char>::empty();
    lemma_decimal(start as nat);
    lemma_decimal(end as nat);
    lemma_parse_unsigned_decimal(start as nat, u64_max());
    lemma_parse_unsigned_decimal(end as nat, u64_max());
    assert forall|i: int| 0 <= i < a.len() implies #[trigger] a[i] != '-' by {
        assert(is_digit(a[i]));
    }
    assert forall|i: int| 0 <= i < b.len() implies #[trigger] b[i] != '-' by {
        assert(is_digit(b[i]));
    }
    // start and end
    let r1 = a + "-"@ + b;
    assert(r1 =~= a.push('-') + b);
    assert(r1[0] == a[0]);
    lemma_strip_bytes_prefix(r1);
    assert("bytes="@ + a + "-"@ + b =~= "bytes="@ + r1);
    lemma_pieces_two(a, b, '-');
    // start only, with the dash
    let r2 = a + "-"@;
    assert(r2 =~= a.push('-') + e);
    assert(r2[0] == a[0]);
    lemma_strip_bytes_prefix(r2);
    assert("bytes="@ + a + "-"@ =~= "bytes="@ + r2);
    lemma_pieces_two(a, e, '-');
    assert(parse_unsigned_spec(e, u64_max()) is None);
    // start only
    assert(a[0] == a[0]);
    lemma_strip_bytes_prefix(a);
    lemma_pieces_single(a, '-');
}

} // verus!
