//! Small verified helpers over `&str` / `String`, plus the few trusted
//! wrappers around std string operations that Verus gives no meaning to.

use vstd::prelude::*;
use vstd::string::StrSliceExecFns;

verus! {

/// Character-for-character equality of two string slices.
pub fn str_eq(a: &str, b: &str) -> (r: bool)
    ensures
        r == (a@ == b@),
{
    let na = a.unicode_len();
    let nb = b.unicode_len();
    if na != nb {
        assert(a@ != b@) by {
            assert(a@.len() != b@.len());
        }
        return false;
    }
    let mut i: usize = 0;
    while i < na
        invariant
            na == a@.len(),
            na == b@.len(),
            0 <= i <= na,
            forall|k: int| 0 <= k < i ==> a@[k] == b@[k],
        decreases na - i,
    {
        if a.get_char(i) != b.get_char(i) {
            assert(a@ != b@) by {
                assert(a@[i as int] != b@[i as int]);
            }
            return false;
        }
        i = i + 1;
    }
    assert(a@ =~= b@);
    true
}

/// `needle` occurs contiguously somewhere in `hay`.
pub open spec fn is_substring(hay: Seq<char>, needle: Seq<char>) -> bool {
    exists|i: int|
        0 <= i <= hay.len() - needle.len() && #[trigger] hay.subrange(i, i + needle.len())
            == needle
}

/// Whether `needle` matches `hay` exactly at position `at`.
fn matches_at(hay: &str, needle: &str, at: usize) -> (r: bool)
    requires
        at + needle@.len() <= hay@.len(),
    ensures
        r == (hay@.subrange(at as int, at + needle@.len()) == needle@),
{
    let nh = hay.unicode_len();
    let nn = needle.unicode_len();
    let mut j: usize = 0;
    while j < nn
        invariant
            nh == hay@.len(),
            nn == needle@.len(),
            at + nn <= nh,
            0 <= j <= nn,
            forall|t: int| 0 <= t < j ==> hay@[at + t] == needle@[t],
        decreases nn - j,
    {
        if hay.get_char(at + j) != needle.get_char(j) {
            assert(hay@.subrange(at as int, at + nn) != needle@) by {
                assert(hay@.subrange(at as int, at + nn as int)[j as int] != needle@[j as int]);
            }
            return false;
        }
        j = j + 1;
    }
    assert(hay@.subrange(at as int, at + nn) =~= needle@);
    true
}

/// Substring search, specified by [`is_substring`].
pub fn str_contains(hay: &str, needle: &str) -> (r: bool)
    ensures
        r == is_substring(hay@, needle@),
{
    let nh = hay.unicode_len();
    let nn = needle.unicode_len();
    if nn > nh {
        return false;
    }
    if nn == 0 {
        assert(is_substring(hay@, needle@)) by {
            assert(hay@.subrange(0, 0 + needle@.len() as int) =~= needle@);
        }
        return true;
    }
    let bound = nh - nn;
    let mut i: usize = 0;
    while i <= bound
        invariant
            nh == hay@.len(),
            nn == needle@.len(),
            1 <= nn <= nh,
            bound == nh - nn,
            0 <= i <= bound + 1,
            forall|k: int|
                0 <= k < i ==> #[trigger] hay@.subrange(k, k + needle@.len()) != needle@,
        decreases bound + 1 - i,
    {
        if matches_at(hay, needle, i) {
            assert(is_substring(hay@, needle@)) by {
                assert(hay@.subrange(i as int, i + needle@.len()) == needle@);
            }
            return true;
        }
        i = i + 1;
    }
    false
}

/// What `str::to_lowercase` returns: a pure function of the characters.
pub uninterp spec fn lower_of(s: Seq<char>) -> Seq<char>;

/// Relies on `str::to_lowercase`: the lowercase equivalent of the slice,
/// a function of the characters alone. An empty input stays empty.
#[verifier::external_body]
pub fn lowercase(s: &str) -> (r: String)
    ensures
        r@ == lower_of(s@),
        s@.len() == 0 ==> r@.len() == 0,
{
    s.to_lowercase()
}

/// What `str::trim` returns: a pure function of the characters.
pub uninterp spec fn trim_of(s: Seq<char>) -> Seq<char>;

/// Relies on `str::trim`: the slice with leading and trailing whitespace
/// removed, a function of the characters alone. An empty input stays empty.
#[verifier::external_body]
pub fn trim(s: &str) -> (r: &str)
    ensures
        r@ == trim_of(s@),
        s@.len() == 0 ==> r@.len() == 0,
{
    s.trim()
}

/// Relies on `String::push`: appends the given character.
#[verifier::external_body]
pub fn push_char(s: &mut String, c: char)
    ensures
        final(s)@ == old(s)@.push(c),
{
    s.push(c)
}

/// The characters of a string slice, as a vector.
pub fn chars_of(s: &str) -> (r: Vec<char>)
    ensures
        r@ == s@,
{
    let n = s.unicode_len();
    let mut r: Vec<char> = Vec::new();
    let mut i: usize = 0;
    while i < n
        invariant
            n == s@.len(),
            0 <= i <= n,
            r@ =~= s@.subrange(0, i as int),
        decreases n - i,
    {
        r.push(s.get_char(i));
        assert(r@ =~= s@.subrange(0, i + 1));
        i = i + 1;
    }
    assert(r@ =~= s@);
    r
}

/// A `String` holding exactly the given characters.
pub fn string_from_chars(v: &Vec<char>) -> (r: String)
    ensures
        r@ == v@,
{
    let mut r = String::new();
    let mut i: usize = 0;
    while i < v.len()
        invariant
            0 <= i <= v@.len(),
            r@ =~= v@.subrange(0, i as int),
        decreases v@.len() - i,
    {
        push_char(&mut r, v[i]);
        assert(r@ =~= v@.subrange(0, i + 1));
        i = i + 1;
    }
    assert(r@ =~= v@);
    r
}

/// The position of the first newline in `s`, or `s.len()` if there is none.
pub open spec fn first_newline(s: Seq<char>) -> nat
    decreases s.len(),
{
    if s.len() == 0 {
        0
    } else if s[0] == '\n' {
        0
    } else {
        1 + first_newline(s.drop_first())
    }
}

/// `s` split on newlines: always at least one piece, none containing a
/// newline, and as many pieces as newlines plus one.
pub open spec fn split_lines_of(s: Seq<char>) -> Seq<Seq<char>>
    decreases s.len(),
{
    let i = first_newline(s);
    if i >= s.len() {
        seq![s]
    } else {
        seq![s.take(i as int)] + split_lines_of(s.skip(i as int + 1))
    }
}

/// `lines` with `p` glued onto the front of its first piece.
spec fn prepend_first(p: Seq<char>, lines: Seq<Seq<char>>) -> Seq<Seq<char>> {
    seq![p + lines[0]] + lines.drop_first()
}

proof fn lemma_split_lines_len(s: Seq<char>)
    ensures
        split_lines_of(s).len() >= 1,
    decreases s.len(),
{
}

proof fn lemma_prepend_empty(lines: Seq<Seq<char>>)
    requires
        lines.len() >= 1,
    ensures
        prepend_first(Seq::<char>::empty(), lines) == lines,
{
    assert(Seq::<char>::empty() + lines[0] =~= lines[0]);
    assert(prepend_first(Seq::<char>::empty(), lines) =~= lines);
}

proof fn lemma_split_step_char(t: Seq<char>)
    requires
        t.len() > 0,
        t[0] != '\n',
    ensures
        split_lines_of(t) == prepend_first(seq![t[0]], split_lines_of(t.drop_first())),
    decreases t.len(),
{
    let rest = t.drop_first();
    let nl = first_newline(rest);
    lemma_split_lines_len(rest);
    assert(first_newline(t) == 1 + nl);
    if nl >= rest.len() {
        assert(split_lines_of(t) =~= seq![t]);
        assert(split_lines_of(rest) =~= seq![rest]);
        assert(seq![t[0]] + rest =~= t);
        assert(prepend_first(seq![t[0]], split_lines_of(rest)) =~= seq![t]);
    } else {
        assert(t.take(first_newline(t) as int) =~= seq![t[0]] + rest.take(nl as int));
        assert(t.skip(first_newline(t) as int + 1) =~= rest.skip(nl as int + 1));
        assert(split_lines_of(t) =~= prepend_first(seq![t[0]], split_lines_of(rest)));
    }
}

proof fn lemma_split_step_newline(t: Seq<char>)
    requires
        t.len() > 0,
        t[0] == '\n',
    ensures
        split_lines_of(t) == seq![Seq::<char>::empty()] + split_lines_of(t.drop_first()),
{
    assert(first_newline(t) == 0);
    assert(t.take(0) =~= Seq::<char>::empty());
    assert(t.skip(1) =~= t.drop_first());
}

/// Split a string into the pieces between its newlines.
pub fn split_lines(s: &str) -> (r: Vec<String>)
    ensures
        r.deep_view() == split_lines_of(s@),
{
    let chars = chars_of(s);
    let full: Ghost<Seq<char>> = Ghost(s@);
    let n = chars.len();
    let mut r: Vec<String> = Vec::new();
    let mut cur: Vec<char> = Vec::new();
    proof {
        lemma_split_lines_len(full@);
        lemma_prepend_empty(split_lines_of(full@));
        assert(full@.skip(0) =~= full@);
    }
    let mut i: usize = 0;
    while i < n
        invariant
            n == full@.len(),
            chars@ == full@,
            0 <= i <= n,
            split_lines_of(full@.skip(i as int)).len() >= 1,
            r.deep_view() + prepend_first(cur@, split_lines_of(full@.skip(i as int)))
                == split_lines_of(full@),
        decreases n - i,
    {
        let ghost t = full@.skip(i as int);
        let c = chars[i];
        assert(t[0] == c);
        assert(t.drop_first() =~= full@.skip(i + 1));
        proof {
            lemma_split_lines_len(full@.skip(i + 1));
        }
        if c == '\n' {
            let ghost r0 = r.deep_view();
            let line = string_from_chars(&cur);
            r.push(line);
            cur = Vec::new();
            proof {
                lemma_split_step_newline(t);
                lemma_prepend_empty(split_lines_of(full@.skip(i + 1)));
                assert(r.deep_view() =~= r0.push(line@));
                assert(r0 + prepend_first(line@, split_lines_of(t)) =~= r.deep_view()
                    + prepend_first(Seq::<char>::empty(), split_lines_of(full@.skip(i + 1))))
                    by {
                    assert(prepend_first(line@, split_lines_of(t)) =~= seq![line@]
                        + split_lines_of(full@.skip(i + 1)));
                    assert(r0 + (seq![line@] + split_lines_of(full@.skip(i + 1))) =~= r0.push(
                        line@,
                    ) + split_lines_of(full@.skip(i + 1)));
                }
            }
        } else {
            let ghost cur0 = cur@;
            cur.push(c);
            proof {
                lemma_split_step_char(t);
                assert(prepend_first(cur@, split_lines_of(full@.skip(i + 1))) =~= prepend_first(
                    cur0,
                    prepend_first(seq![c], split_lines_of(full@.skip(i + 1))),
                )) by {
                    let inner = split_lines_of(full@.skip(i + 1));
                    assert(cur0 + (seq![c] + inner[0]) =~= cur@ + inner[0]);
                    assert(prepend_first(
                        cur0,
                        prepend_first(seq![c], inner),
                    ) =~= seq![cur0 + (seq![c] + inner[0])] + inner.drop_first());
                    assert(prepend_first(cur@, inner) =~= seq![cur@ + inner[0]]
                        + inner.drop_first());
                }
            }
        }
        i = i + 1;
    }
    let ghost r0 = r.deep_view();
    let last = string_from_chars(&cur);
    r.push(last);
    proof {
        assert(full@.skip(n as int) =~= Seq::<char>::empty());
        assert(first_newline(Seq::<char>::empty()) == 0);
        assert(split_lines_of(Seq::<char>::empty()) =~= seq![Seq::<char>::empty()]);
        assert(prepend_first(cur@, seq![Seq::<char>::empty()]) =~= seq![cur@]) by {
            assert(cur@ + Seq::<char>::empty() =~= cur@);
        }
        assert(r.deep_view() =~= r0.push(last@));
        assert(r0 + seq![cur@] =~= r0.push(cur@));
        assert(r.deep_view() =~= split_lines_of(full@));
    }
    r
}

/// Lexicographic order on character sequences, by scalar value; a prefix
/// comes before every extension of it.
pub open spec fn lex_le(a: Seq<char>, b: Seq<char>) -> bool
    decreases a.len(),
{
    if a.len() == 0 {
        true
    } else if b.len() == 0 {
        false
    } else if (a[0] as u32) < (b[0] as u32) {
        true
    } else if (a[0] as u32) > (b[0] as u32) {
        false
    } else {
        lex_le(a.drop_first(), b.drop_first())
    }
}

/// Any two character sequences are comparable under [`lex_le`].
pub proof fn lemma_lex_le_total(a: Seq<char>, b: Seq<char>)
    ensures
        lex_le(a, b) || lex_le(b, a),
    decreases a.len(),
{
    if a.len() == 0 {
    } else if b.len() == 0 {
    } else if (a[0] as u32) == (b[0] as u32) {
        lemma_lex_le_total(a.drop_first(), b.drop_first());
    }
}

/// [`lex_le`] is transitive.
pub proof fn lemma_lex_le_trans(a: Seq<char>, b: Seq<char>, c: Seq<char>)
    requires
        lex_le(a, b),
        lex_le(b, c),
    ensures
        lex_le(a, c),
    decreases a.len(),
{
    if a.len() == 0 {
    } else if b.len() == 0 {
    } else if c.len() == 0 {
    } else {
        if (a[0] as u32) == (b[0] as u32) && (b[0] as u32) == (c[0] as u32) {
            lemma_lex_le_trans(a.drop_first(), b.drop_first(), c.drop_first());
        }
    }
}

/// Dropping an equal prefix does not change the comparison.
proof fn lemma_lex_le_skip(a: Seq<char>, b: Seq<char>, i: int)
    requires
        0 <= i <= a.len(),
        i <= b.len(),
        forall|k: int| 0 <= k < i ==> a[k] == b[k],
    ensures
        lex_le(a, b) == lex_le(a.skip(i), b.skip(i)),
    decreases i,
{
    if i == 0 {
        assert(a.skip(0) =~= a);
        assert(b.skip(0) =~= b);
    } else {
        assert(a[0] == b[0]);
        assert(forall|k: int|
            0 <= k < i - 1 ==> #[trigger] a.drop_first()[k] == b.drop_first()[k]) by {
            assert(forall|k: int|
                0 <= k < i - 1 ==> a.drop_first()[k] == a[k + 1] && b.drop_first()[k] == b[k + 1]);
        }
        lemma_lex_le_skip(a.drop_first(), b.drop_first(), i - 1);
        assert(a.drop_first().skip(i - 1) =~= a.skip(i));
        assert(b.drop_first().skip(i - 1) =~= b.skip(i));
    }
}

/// Lexicographic comparison of two string slices, specified by [`lex_le`].
pub fn lex_le_exec(a: &str, b: &str) -> (r: bool)
    ensures
        r == lex_le(a@, b@),
    decreases a@.len(),
{
    let na = a.unicode_len();
    let nb = b.unicode_len();
    let mut i: usize = 0;
    loop
        invariant
            na == a@.len(),
            nb == b@.len(),
            0 <= i <= na,
            i <= nb,
            forall|k: int| 0 <= k < i ==> a@[k] == b@[k],
        decreases na - i,
    {
        proof {
            lemma_lex_le_skip(a@, b@, i as int);
        }
        if i == na {
            assert(a@.skip(i as int).len() == 0);
            return true;
        }
        if i == nb {
            assert(b@.skip(i as int).len() == 0);
            assert(a@.skip(i as int).len() > 0);
            return false;
        }
        let ca = a.get_char(i);
        let cb = b.get_char(i);
        assert(a@.skip(i as int)[0] == ca);
        assert(b@.skip(i as int)[0] == cb);
        if (ca as u32) < (cb as u32) {
            return true;
        }
        if (ca as u32) > (cb as u32) {
            return false;
        }
        assert(ca == cb);
        i = i + 1;
    }
}

} // verus!
