//! Character-level text primitives with their specifications: conversions
//! between strings and character vectors, equality, prefixes, substring
//! search, and the two splitting rules the handlers rely on
//! (splitting on whitespace and splitting on a separator character).

use vstd::prelude::*;

verus! {

/// `String::push`: appends one character at the end of the string.
#[verifier::external_body]
pub(crate) fn push_char(s: &mut String, c: char)
    ensures
        final(s)@ == old(s)@.push(c),
{
    s.push(c);
}

/// The characters of `s`, in order.
pub fn chars_of(s: &str) -> (v: Vec<char>)
    ensures
        v@ == s@,
{
    let n = s.unicode_len();
    let mut v: Vec<char> = Vec::new();
    let mut i: usize = 0;
    while i < n
        invariant
            n == s@.len(),
            i <= n,
            v@ == s@.subrange(0, i as int),
        decreases n - i,
    {
        let c = s.get_char(i);
        v.push(c);
        i = i + 1;
    }
    v
}

/// A string holding exactly the characters of `v`.
pub fn string_of(v: &Vec<char>) -> (s: String)
    ensures
        s@ == v@,
{
    let mut s = String::new();
    let mut i: usize = 0;
    while i < v.len()
        invariant
            i <= v.len(),
            s@ == v@.subrange(0, i as int),
        decreases v.len() - i,
    {
        push_char(&mut s, v[i]);
        i = i + 1;
    }
    s
}

/// A fresh string equal to `s`.
pub fn string_from(s: &str) -> (r: String)
    ensures
        r@ == s@,
{
    let v = chars_of(s);
    string_of(&v)
}

/// `r` is `a` followed by `b`.
pub fn concat(a: &str, b: &str) -> (r: String)
    ensures
        r@ == a@ + b@,
{
    let mut r = string_from(a);
    r.append(b);
    r
}

/// Character-wise equality of two strings.
pub fn text_eq(a: &str, b: &str) -> (r: bool)
    ensures
        r == (a@ == b@),
{
    let n = a.unicode_len();
    let m = b.unicode_len();
    if n != m {
        return false;
    }
    let mut i: usize = 0;
    while i < n
        invariant
            n == a@.len(),
            m == b@.len(),
            n == m,
            i <= n,
            forall|j: int| 0 <= j < i ==> a@[j] == b@[j],
        decreases n - i,
    {
        if a.get_char(i) != b.get_char(i) {
            return false;
        }
        i = i + 1;
    }
    assert(a@ =~= b@);
    true
}

/// Whether the text is one of the given alternatives.
pub open spec fn one_of(s: Seq<char>, options: Seq<Seq<char>>) -> bool {
    exists|i: int| 0 <= i < options.len() && options[i] == s
}

/// `p` is a prefix of `s`.
pub open spec fn has_prefix(s: Seq<char>, p: Seq<char>) -> bool {
    p.len() <= s.len() && s.subrange(0, p.len() as int) == p
}

/// Whether `s` starts with `p`.
pub fn starts_with(s: &Vec<char>, p: &str) -> (r: bool)
    ensures
        r == has_prefix(s@, p@),
{
    let pv = chars_of(p);
    if pv.len() > s.len() {
        return false;
    }
    let mut i: usize = 0;
    while i < pv.len()
        invariant
            pv@ == p@,
            pv.len() <= s.len(),
            i <= pv.len(),
            forall|j: int| 0 <= j < i ==> s@[j] == pv@[j],
        decreases pv.len() - i,
    {
        if s[i] != pv[i] {
            assert(s@.subrange(0, pv@.len() as int)[i as int] != p@[i as int]);
            return false;
        }
        i = i + 1;
    }
    assert(s@.subrange(0, pv@.len() as int) =~= p@);
    true
}

/// `n` occurs in `h` starting at position `i`.
pub open spec fn occurs_at(h: Seq<char>, n: Seq<char>, i: int) -> bool {
    0 <= i && i + n.len() <= h.len() && h.subrange(i, i + n.len()) == n
}

/// `n` occurs somewhere in `h`.
pub open spec fn contains_text(h: Seq<char>, n: Seq<char>) -> bool {
    exists|i: int| occurs_at(h, n, i)
}

fn occurs_at_exec(h: &Vec<char>, n: &Vec<char>, i: usize) -> (r: bool)
    requires
        i + n.len() <= h.len(),
    ensures
        r == occurs_at(h@, n@, i as int),
{
    let mut k: usize = 0;
    while k < n.len()
        invariant
            i + n.len() <= h.len(),
            k <= n.len(),
            forall|j: int| 0 <= j < k ==> h@[i + j] == n@[j],
        decreases n.len() - k,
    {
        if h[i + k] != n[k] {
            assert(h@.subrange(i as int, i + n.len())[k as int] != n@[k as int]);
            return false;
        }
        k = k + 1;
    }
    assert(h@.subrange(i as int, i + n.len()) =~= n@);
    true
}

/// Whether `needle` occurs in `hay` (as `str::contains` with a string pattern).
pub fn contains(hay: &str, needle: &str) -> (r: bool)
    ensures
        r == contains_text(hay@, needle@),
{
    let h = chars_of(hay);
    let n = chars_of(needle);
    if n.len() > h.len() {
        return false;
    }
    let last = h.len() - n.len();
    let mut i: usize = 0;
    loop
        invariant_except_break
            i <= last,
            forall|j: int| 0 <= j < i ==> !occurs_at(h@, n@, j),
        invariant
            h@ == hay@,
            n@ == needle@,
            last + n.len() == h.len(),
        ensures
            forall|j: int| 0 <= j <= last ==> !occurs_at(h@, n@, j),
        decreases last - i,
    {
        if occurs_at_exec(&h, &n, i) {
            return true;
        }
        if i == last {
            break;
        }
        i = i + 1;
    }
    assert forall|j: int| !occurs_at(h@, n@, j) by {
        if 0 <= j && j + n@.len() <= h@.len() {
            assert(j <= last);
        }
    }
    false
}

// ---------------------------------------------------------------------------
// Whitespace splitting
// ---------------------------------------------------------------------------

/// Unicode `White_Space` characters (the set `char::is_whitespace` accepts).
pub open spec fn is_ws(c: char) -> bool {
    let u = c as u32;
    ||| 9 <= u <= 13
    ||| u == 32
    ||| u == 0x85
    ||| u == 0xA0
    ||| u == 0x1680
    ||| 0x2000 <= u <= 0x200A
    ||| u == 0x2028
    ||| u == 0x2029
    ||| u == 0x202F
    ||| u == 0x205F
    ||| u == 0x3000
}

/// Whether `c` is a Unicode whitespace character.
pub fn is_whitespace(c: char) -> (r: bool)
    ensures
        r == is_ws(c),
{
    let u = c as u32;
    (9 <= u && u <= 13) || u == 32 || u == 0x85 || u == 0xA0 || u == 0x1680 || (0x2000 <= u
        && u <= 0x200A) || u == 0x2028 || u == 0x2029 || u == 0x202F || u == 0x205F || u
        == 0x3000
}

/// The maximal runs of non-whitespace characters of `s`, in order
/// (what `str::split_whitespace` yields).
pub open spec fn words(s: Seq<char>) -> Seq<Seq<char>>
    decreases s.len(),
{
    if s.len() == 0 {
        seq![]
    } else {
        let prev = words(s.drop_last());
        let c = s.last();
        if is_ws(c) {
            prev
        } else if s.len() >= 2 && !is_ws(s[s.len() - 2]) {
            prev.update(prev.len() - 1, prev.last().push(c))
        } else {
            prev.push(seq![c])
        }
    }
}

/// A word appended after whitespace (or at the start) becomes one more word.
pub proof fn lemma_words_append_word(p: Seq<char>, w: Seq<char>)
    requires
        w.len() > 0,
        forall|i: int| 0 <= i < w.len() ==> !is_ws(w[i]),
        p.len() == 0 || is_ws(p.last()),
    ensures
        words(p + w) == words(p).push(w),
    decreases w.len(),
{
    let s = p + w;
    if w.len() == 1 {
        assert(s.drop_last() =~= p);
        assert(s.last() == w[0]);
        if s.len() >= 2 {
            assert(s[s.len() - 2] == p.last());
        }
        assert(seq![w[0]] =~= w);
    } else {
        let w0 = w.drop_last();
        lemma_words_append_word(p, w0);
        assert(s.drop_last() =~= p + w0);
        assert(s.last() == w.last());
        assert(s[s.len() - 2] == w0.last());
        let prev = words(p).push(w0);
        assert(w0.push(w.last()) =~= w);
        assert(prev.update(prev.len() - 1, prev.last().push(w.last())) =~= words(p).push(w));
    }
}

/// Whitespace appended adds no word.
pub proof fn lemma_words_append_ws(p: Seq<char>, c: char)
    requires
        is_ws(c),
    ensures
        words(p.push(c)) == words(p),
{
    assert(p.push(c).drop_last() =~= p);
}

/// The view of a vector of strings as a sequence of character sequences.
pub open spec fn texts(v: Seq<String>) -> Seq<Seq<char>> {
    v.map_values(|x: String| x@)
}

/// The whitespace-separated words of `s` (as `str::split_whitespace`).
pub fn split_whitespace(s: &str) -> (r: Vec<String>)
    ensures
        texts(r@) == words(s@),
{
    let cs = chars_of(s);
    let mut done: Vec<String> = Vec::new();
    let mut cur: Vec<char> = Vec::new();
    let mut i: usize = 0;
    while i < cs.len()
        invariant
            cs@ == s@,
            i <= cs.len(),
            cur@.len() > 0 <==> (i > 0 && !is_ws(cs@[i - 1])),
            cur@.len() > 0 ==> words(cs@.subrange(0, i as int)) == texts(done@).push(cur@),
            cur@.len() == 0 ==> words(cs@.subrange(0, i as int)) == texts(done@),
        decreases cs.len() - i,
    {
        let c = cs[i];
        let ghost pre = cs@.subrange(0, i as int);
        let ghost nxt = cs@.subrange(0, i + 1);
        assert(nxt.drop_last() =~= pre);
        assert(nxt.last() == c);
        if is_whitespace(c) {
            if cur.len() > 0 {
                let w = string_of(&cur);
                done.push(w);
                cur = Vec::new();
                assert(texts(done@) =~= words(pre));
            }
        } else {
            if cur.len() > 0 {
                assert(nxt[nxt.len() - 2] == cs@[i - 1]);
                cur.push(c);
                assert(words(nxt) =~= texts(done@).push(cur@));
            } else {
                if i > 0 {
                    assert(nxt[nxt.len() - 2] == cs@[i - 1]);
                }
                cur.push(c);
                assert(cur@ =~= seq![c]);
                assert(words(nxt) =~= texts(done@).push(cur@));
            }
        }
        i = i + 1;
    }
    assert(cs@.subrange(0, cs.len() as int) =~= cs@);
    if cur.len() > 0 {
        let w = string_of(&cur);
        done.push(w);
    }
    assert(texts(done@) =~= words(s@));
    done
}

// ---------------------------------------------------------------------------
// Splitting on a separator character
// ---------------------------------------------------------------------------

/// The pieces of `s` between occurrences of `sep` (what `str::split(sep)`
/// yields for a character pattern); there is always at least one piece.
pub open spec fn pieces(s: Seq<char>, sep: char) -> Seq<Seq<char>>
    decreases s.len(),
{
    if s.len() == 0 {
        seq![seq![]]
    } else {
        let prev = pieces(s.drop_last(), sep);
        if s.last() == sep {
            prev.push(seq![])
        } else {
            prev.update(prev.len() - 1, prev.last().push(s.last()))
        }
    }
}

/// `pieces` never yields an empty list.
pub proof fn lemma_pieces_nonempty(s: Seq<char>, sep: char)
    ensures
        pieces(s, sep).len() >= 1,
    decreases s.len(),
{
    if s.len() > 0 {
        lemma_pieces_nonempty(s.drop_last(), sep);
    }
}

/// Text free of `sep` appended to `p` lengthens the last piece of `p`.
pub proof fn lemma_pieces_extend(p: Seq<char>, w: Seq<char>, sep: char)
    requires
        forall|i: int| 0 <= i < w.len() ==> w[i] != sep,
    ensures
        pieces(p + w, sep) == pieces(p, sep).update(
            pieces(p, sep).len() - 1,
            pieces(p, sep).last() + w,
        ),
    decreases w.len(),
{
    lemma_pieces_nonempty(p, sep);
    let q = pieces(p, sep);
    if w.len() == 0 {
        assert(p + w =~= p);
        assert(q.last() + w =~= q.last());
        assert(q.update(q.len() - 1, q.last() + w) =~= q);
    } else {
        let w0 = w.drop_last();
        lemma_pieces_extend(p, w0, sep);
        assert((p + w).drop_last() =~= p + w0);
        assert((p + w).last() == w.last());
        assert((q.last() + w0).push(w.last()) =~= q.last() + w);
        let prev = q.update(q.len() - 1, q.last() + w0);
        assert(prev.update(prev.len() - 1, prev.last().push(w.last())) =~= q.update(
            q.len() - 1,
            q.last() + w,
        ));
    }
}

/// A separator appended to `p` opens a new, empty piece.
pub proof fn lemma_pieces_sep(p: Seq<char>, sep: char)
    ensures
        pieces(p.push(sep), sep) == pieces(p, sep).push(seq![]),
{
    assert(p.push(sep).drop_last() =~= p);
}

/// Text free of `sep` is a single piece.
pub proof fn lemma_pieces_single(w: Seq<char>, sep: char)
    requires
        forall|i: int| 0 <= i < w.len() ==> w[i] != sep,
    ensures
        pieces(w, sep) == seq![w],
{
    let e = Seq::<char>::empty();
    lemma_pieces_extend(e, w, sep);
    assert(e + w =~= w);
    assert(pieces(e, sep) =~= seq![e]);
    assert(seq![e].update(0, e + w) =~= seq![w]);
}

/// Texts free of `sep`, joined by one `sep`, split back into themselves.
pub proof fn lemma_pieces_two(a: Seq<char>, b: Seq<char>, sep: char)
    requires
        forall|i: int| 0 <= i < a.len() ==> a[i] != sep,
        forall|i: int| 0 <= i < b.len() ==> b[i] != sep,
    ensures
        pieces(a.push(sep) + b, sep) == seq![a, b],
{
    lemma_pieces_single(a, sep);
    lemma_pieces_sep(a, sep);
    lemma_pieces_extend(a.push(sep), b, sep);
    assert(seq![a].push(Seq::<char>::empty()) =~= seq![a, Seq::<char>::empty()]);
    assert(Seq::<char>::empty() + b =~= b);
    assert(seq![a, Seq::<char>::empty()].update(1, Seq::<char>::empty() + b) =~= seq![a, b]);
}

/// Three texts free of `sep`, joined by `sep`, split back into themselves.
pub proof fn lemma_pieces_three(a: Seq<char>, b: Seq<char>, c: Seq<char>, sep: char)
    requires
        forall|i: int| 0 <= i < a.len() ==> a[i] != sep,
        forall|i: int| 0 <= i < b.len() ==> b[i] != sep,
        forall|i: int| 0 <= i < c.len() ==> c[i] != sep,
    ensures
        pieces((a.push(sep) + b).push(sep) + c, sep) == seq![a, b, c],
{
    let ab = a.push(sep) + b;
    lemma_pieces_two(a, b, sep);
    lemma_pieces_sep(ab, sep);
    lemma_pieces_extend(ab.push(sep), c, sep);
    assert(seq![a, b].push(Seq::<char>::empty()) =~= seq![a, b, Seq::<char>::empty()]);
    assert(Seq::<char>::empty() + c =~= c);
    assert(seq![a, b, Seq::<char>::empty()].update(2, Seq::<char>::empty() + c) =~= seq![a, b, c]);
}

/// The pieces of `s` between occurrences of `sep` (as `str::split(sep)`).
pub fn split_char(s: &str, sep: char) -> (r: Vec<String>)
    ensures
        texts(r@) == pieces(s@, sep),
        r@.len() >= 1,
{
    let cs = chars_of(s);
    let mut done: Vec<String> = Vec::new();
    let mut cur: Vec<char> = Vec::new();
    let mut i: usize = 0;
    assert(cs@.subrange(0, 0) =~= Seq::<char>::empty());
    assert(texts(done@).push(cur@) =~= seq![Seq::<char>::empty()]);
    while i < cs.len()
        invariant
            cs@ == s@,
            i <= cs.len(),
            pieces(cs@.subrange(0, i as int), sep) == texts(done@).push(cur@),
        decreases cs.len() - i,
    {
        let c = cs[i];
        let ghost pre = cs@.subrange(0, i as int);
        let ghost nxt = cs@.subrange(0, i + 1);
        assert(nxt.drop_last() =~= pre);
        assert(nxt.last() == c);
        if c == sep {
            let w = string_of(&cur);
            done.push(w);
            cur = Vec::new();
            assert(pieces(nxt, sep) =~= texts(done@).push(cur@));
        } else {
            cur.push(c);
            assert(pieces(nxt, sep) =~= texts(done@).push(cur@));
        }
        i = i + 1;
    }
    assert(cs@.subrange(0, cs.len() as int) =~= cs@);
    let w = string_of(&cur);
    done.push(w);
    assert(texts(done@) =~= pieces(s@, sep));
    done
}

/// The parts in order, with `sep` between each two of them.
pub open spec fn join_with(parts: Seq<Seq<char>>, sep: Seq<char>) -> Seq<char>
    decreases parts.len(),
{
    if parts.len() == 0 {
        seq![]
    } else if parts.len() == 1 {
        parts[0]
    } else {
        join_with(parts.drop_last(), sep) + sep + parts.last()
    }
}

/// Joins the texts with the separator in between (as `[..].join(sep)`).
pub fn join(parts: &Vec<String>, sep: &str) -> (r: String)
    ensures
        r@ == join_with(texts(parts@), sep@),
{
    let mut r = String::new();
    let mut i: usize = 0;
    while i < parts.len()
        invariant
            i <= parts.len(),
            r@ == join_with(texts(parts@.subrange(0, i as int)), sep@),
        decreases parts.len() - i,
    {
        let ghost pre = texts(parts@.subrange(0, i as int));
        let ghost nxt = texts(parts@.subrange(0, i + 1));
        assert(nxt.drop_last() =~= pre);
        assert(nxt.last() == parts@[i as int]@);
        if i > 0 {
            r.append(sep);
        } else {
            assert(r@ =~= Seq::<char>::empty());
        }
        r.append(parts[i].as_str());
        assert(r@ =~= join_with(nxt, sep@));
        i = i + 1;
    }
    assert(parts@.subrange(0, parts.len() as int) =~= parts@);
    r
}

} // verus!

verus! {

/// `c` with ASCII upper-case letters mapped to lower case.
pub open spec fn ascii_lower_char(c: char) -> char {
    if 65 <= (c as u32) <= 90 {
        ((c as u32) + 32) as char
    } else {
        c
    }
}

/// `s` with ASCII upper-case letters mapped to lower case (for ASCII text
/// this is what `str::to_lowercase` gives).
pub open spec fn ascii_lower(s: Seq<char>) -> Seq<char> {
    s.map_values(|c: char| ascii_lower_char(c))
}

/// `s` with ASCII upper-case letters mapped to lower case.
pub fn to_ascii_lower(s: &str) -> (r: String)
    ensures
        r@ == ascii_lower(s@),
{
    let cs = chars_of(s);
    let mut r = String::new();
    let mut i: usize = 0;
    while i < cs.len()
        invariant
            cs@ == s@,
            i <= cs.len(),
            r@ == ascii_lower(cs@.subrange(0, i as int)),
        decreases cs.len() - i,
    {
        let c = cs[i];
        let u = c as u32;
        let l: char = if 65 <= u && u <= 90 {
            let b = (u + 32) as u8;
            b as char
        } else {
            c
        };
        assert(l == ascii_lower_char(c));
        push_char(&mut r, l);
        assert(r@ =~= ascii_lower(cs@.subrange(0, i + 1)));
        i = i + 1;
    }
    assert(cs@.subrange(0, cs.len() as int) =~= cs@);
    r
}

} // verus!

verus! {

/// `s` with every occurrence of the non-empty pattern `p` replaced by `t`,
/// scanning from the left and not rescanning replaced text (what
/// `str::replace` gives).
pub open spec fn replaced(s: Seq<char>, p: Seq<char>, t: Seq<char>) -> Seq<char>
    decreases s.len(),
{
    if p.len() == 0 || s.len() < p.len() {
        s
    } else if s.subrange(0, p.len() as int) == p {
        t + replaced(s.subrange(p.len() as int, s.len() as int), p, t)
    } else {
        seq![s[0]] + replaced(s.drop_first(), p, t)
    }
}

/// `s` with every occurrence of `p` replaced by `t` (as `str::replace`).
pub fn replace_all(s: &str, p: &str, t: &str) -> (r: String)
    requires
        p@.len() > 0,
    ensures
        r@ == replaced(s@, p@, t@),
{
    let cs = chars_of(s);
    let ps = chars_of(p);
    let n = cs.len();
    let m = ps.len();
    let mut r = String::new();
    let mut i: usize = 0;
    assert(cs@.subrange(0, n as int) =~= s@);
    assert(r@ + replaced(s@, p@, t@) =~= replaced(s@, p@, t@));
    while i < n
        invariant
            cs@ == s@,
            ps@ == p@,
            n == cs.len(),
            m == ps.len(),
            m > 0,
            i <= n,
            replaced(s@, p@, t@) == r@ + replaced(cs@.subrange(i as int, n as int), p@, t@),
        decreases n - i,
    {
        let ghost rest = cs@.subrange(i as int, n as int);
        if n - i >= m && occurs_at_exec(&cs, &ps, i) {
            assert(rest.subrange(0, m as int) =~= cs@.subrange(i as int, i + m));
            assert(rest.subrange(m as int, rest.len() as int) =~= cs@.subrange(i + m, n as int));
            let ghost before = r@;
            r.append(t);
            assert(before + replaced(rest, p@, t@) =~= r@ + replaced(
                cs@.subrange(i + m, n as int),
                p@,
                t@,
            ));
            i = i + m;
        } else {
            if n - i >= m {
                assert(rest.subrange(0, m as int) =~= cs@.subrange(i as int, i + m));
            }
            assert(rest.drop_first() =~= cs@.subrange(i + 1, n as int));
            let c = cs[i];
            let ghost before = r@;
            push_char(&mut r, c);
            assert(before + replaced(rest, p@, t@) =~= r@ + replaced(
                cs@.subrange(i + 1, n as int),
                p@,
                t@,
            ));
            i = i + 1;
        }
    }
    assert(cs@.subrange(n as int, n as int) =~= Seq::<char>::empty());
    r
}

} // verus!
