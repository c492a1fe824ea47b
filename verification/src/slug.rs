//! Names reduced to small letters, digits and single dashes between them.
use crate::text::{is_ascii_alnum, is_ascii_digit, is_ascii_lower, is_ascii_space, lower, lower_char, to_chars};
use vstd::prelude::*;

verus! {

broadcast use vstd::seq::group_seq_axioms;

/// A character that separates words: a dash, an underscore, ASCII white space, and a colon where
/// colons separate too.
pub open spec fn separates(c: char, colons: bool) -> bool {
    c == '_' || c == '-' || is_ascii_space(c) || (colons && c == ':')
}

/// A separator was met since the last letter or digit.
pub open spec fn open_gap(s: Seq<char>, colons: bool) -> bool
    decreases s.len(),
{
    if s.len() == 0 || is_ascii_alnum(s.last()) {
        false
    } else {
        separates(s.last(), colons) || open_gap(s.drop_last(), colons)
    }
}

/// The name reduced: its ASCII letters and digits, the letters small, with one dash wherever
/// separators stand between two of them. Every other character is dropped.
pub open spec fn slug(s: Seq<char>, colons: bool) -> Seq<char>
    decreases s.len(),
{
    if s.len() == 0 {
        s
    } else if is_ascii_alnum(s.last()) {
        let before = slug(s.drop_last(), colons);
        if before.len() > 0 && open_gap(s.drop_last(), colons) {
            before.push('-').push(lower(s.last()))
        } else {
            before.push(lower(s.last()))
        }
    } else {
        slug(s.drop_last(), colons)
    }
}

/// A small ASCII letter or a digit.
pub open spec fn is_slug_char(c: char) -> bool {
    is_ascii_lower(c) || is_ascii_digit(c)
}

/// Small letters, digits and dashes, with no dash first and no two in a row.
pub open spec fn dashed(s: Seq<char>) -> bool {
    &&& forall|i: int| 0 <= i < s.len() ==> is_slug_char(#[trigger] s[i]) || s[i] == '-'
    &&& forall|i: int| 0 <= i < s.len() && #[trigger] s[i] == '-' ==> 0 < i && is_slug_char(s[i - 1])
}

/// Small letters, digits and single dashes between them.
pub open spec fn is_slug(s: Seq<char>) -> bool {
    dashed(s) && (s.len() > 0 ==> is_slug_char(s.last()))
}

/// Whether a character is an ASCII letter or digit.
fn alnum(c: char) -> (r: bool)
    ensures
        r == is_ascii_alnum(c),
{
    ('0' <= c && c <= '9') || ('A' <= c && c <= 'Z') || ('a' <= c && c <= 'z')
}

/// Whether a character separates words.
fn separator(c: char, colons: bool) -> (r: bool)
    ensures
        r == separates(c, colons),
{
    c == '_' || c == '-' || c == ' ' || c == '\t' || c == '\n' || c == '\x0C' || c == '\r' || (colons
        && c == ':')
}

/// The name reduced to small letters, digits and single dashes.
pub fn slug_of(value: &str, colons: bool) -> (r: String)
    ensures
        r@ == slug(value@, colons),
        is_slug(r@),
{
    let chars = to_chars(value);
    let mut out = String::new();
    let mut pending = false;
    let mut i: usize = 0;
    while i < chars.len()
        invariant
            i <= chars@.len(),
            chars@ == value@,
            out@ == slug(chars@.take(i as int), colons),
            pending == open_gap(chars@.take(i as int), colons),
        decreases chars@.len() - i,
    {
        let c: char = chars[i];
        proof {
            let t = chars@.take(i + 1);
            assert(t.drop_last() =~= chars@.take(i as int));
            assert(t.last() == c);
        }
        if alnum(c) {
            if pending && !out.as_str().is_empty() {
                out.push('-');
            }
            out.push(lower_char(c));
            pending = false;
        } else if separator(c, colons) {
            pending = true;
        }
        i = i + 1;
    }
    assert(chars@.take(i as int) =~= value@);
    proof {
        law_slug_shape(value@, colons);
    }
    out
}

/// A reduced name has small letters, digits and single dashes between them, and no other
/// character.
pub proof fn law_slug_shape(s: Seq<char>, colons: bool)
    ensures
        is_slug(slug(s, colons)),
    decreases s.len(),
{
    if s.len() > 0 {
        law_slug_shape(s.drop_last(), colons);
        if is_ascii_alnum(s.last()) {
            let before = slug(s.drop_last(), colons);
            let c = lower(s.last());
            assert(is_slug_char(c));
            let now = slug(s, colons);
            assert forall|i: int| 0 <= i < now.len() && #[trigger] now[i] == '-' implies 0 < i && is_slug_char(now[i - 1]) by {
                if i < before.len() {
                    assert(before[i] == '-');
                }
            }
            assert forall|i: int| 0 <= i < now.len() implies is_slug_char(#[trigger] now[i]) || now[i] == '-' by {
                if i < before.len() {
                    assert(now[i] == before[i]);
                }
            }
        }
    }
}

proof fn lemma_slug_of_dashed(s: Seq<char>, colons: bool)
    requires
        dashed(s),
    ensures
        open_gap(s, colons) == (s.len() > 0 && s.last() == '-'),
        slug(s, colons) == (if s.len() > 0 && s.last() == '-' {
            s.drop_last()
        } else {
            s
        }),
    decreases s.len(),
{
    if s.len() > 0 {
        let d = s.drop_last();
        assert forall|i: int| 0 <= i < d.len() implies is_slug_char(#[trigger] d[i]) || d[i] == '-' by {
            assert(d[i] == s[i]);
        }
        assert forall|i: int| 0 <= i < d.len() && #[trigger] d[i] == '-' implies 0 < i && is_slug_char(d[i - 1]) by {
            assert(d[i] == s[i]);
            assert(d[i - 1] == s[i - 1]);
        }
        lemma_slug_of_dashed(d, colons);
        let last = s[s.len() - 1];
        if last == '-' {
            assert(is_slug_char(s[s.len() - 2]));
        } else {
            assert(is_slug_char(last));
            assert(lower(last) == last);
            if d.len() > 0 && d.last() == '-' {
                assert(d[d.len() - 1] == '-');
                assert(s =~= d.drop_last().push('-').push(last));
            } else {
                assert(s =~= d.push(last));
            }
        }
    }
}

/// Reducing a reduced name changes nothing.
pub proof fn law_slug_is_idempotent(s: Seq<char>, colons: bool)
    ensures
        slug(slug(s, colons), colons) == slug(s, colons),
{
    law_slug_shape(s, colons);
    lemma_slug_of_dashed(slug(s, colons), colons);
}

/// The case of ASCII letters makes no difference to a reduced name.
pub proof fn law_slug_ignores_case(s: Seq<char>, colons: bool)
    ensures
        slug(crate::text::lowered(s), colons) == slug(s, colons),
        open_gap(crate::text::lowered(s), colons) == open_gap(s, colons),
    decreases s.len(),
{
    if s.len() > 0 {
        let l = crate::text::lowered(s);
        assert(l.drop_last() =~= crate::text::lowered(s.drop_last()));
        law_slug_ignores_case(s.drop_last(), colons);
    } else {
        assert(crate::text::lowered(s) =~= s);
    }
}

/// The letters and digits of a text, in their order, the letters small.
pub open spec fn letters_of(s: Seq<char>) -> Seq<char>
    decreases s.len(),
{
    if s.len() == 0 {
        s
    } else if is_ascii_alnum(s.last()) {
        letters_of(s.drop_last()).push(lower(s.last()))
    } else {
        letters_of(s.drop_last())
    }
}

/// A reduced name has all letters and digits of the name, in their order and no others.
pub proof fn law_slug_keeps_letters(s: Seq<char>, colons: bool)
    ensures
        letters_of(slug(s, colons)) == letters_of(s),
    decreases s.len(),
{
    if s.len() > 0 {
        let d = s.drop_last();
        law_slug_keeps_letters(d, colons);
        if is_ascii_alnum(s.last()) {
            reveal_with_fuel(letters_of, 3);
            let c = lower(s.last());
            let b = slug(d, colons);
            assert(lower(c) == c && is_ascii_alnum(c));
            assert(b.push('-').drop_last() =~= b);
            assert(slug(s, colons).drop_last() =~= (if b.len() > 0 && open_gap(d, colons) {
                b.push('-')
            } else {
                b
            }));
        }
    }
}

/// A name of small letters and digits with single dashes between them is reduced to itself.
pub proof fn law_reduced_names_stay(value: &str, colons: bool, r: String)
    requires
        call_ensures(slug_of, (value, colons), r),
        forall|i: int|
            0 <= i < value@.len() ==> ('a' <= #[trigger] value@[i] <= 'z') || ('0' <= value@[i] <= '9') || (
            value@[i] == '-' && 0 < i < value@.len() - 1 && value@[i - 1] != '-'),
    ensures
        r@ == value@,
{
    let s = value@;
    assert forall|i: int| 0 <= i < s.len() && #[trigger] s[i] == '-' implies 0 < i && is_slug_char(s[i - 1]) by {
        assert(s[i - 1] != '-');
    }
    if s.len() > 0 {
        assert(s[s.len() - 1] != '-');
    }
    lemma_slug_of_dashed(s, colons);
}

/// A separator between two reduced names gives a dash between them.
pub proof fn law_separators_become_dashes(a: Seq<char>, c: char, b: Seq<char>, colons: bool)
    requires
        a.len() > 0,
        b.len() > 0,
        forall|i: int| 0 <= i < a.len() ==> ('a' <= #[trigger] a[i] <= 'z') || ('0' <= a[i] <= '9'),
        forall|i: int| 0 <= i < b.len() ==> ('a' <= #[trigger] b[i] <= 'z') || ('0' <= b[i] <= '9'),
        c == ' ' || c == '_' || c == '-' || c == '\t' || (c == ':' && colons),
    ensures
        slug(a.push(c) + b, colons) == a.push('-') + b,
    decreases b.len(),
{
    let s = a.push(c) + b;
    assert(s.last() == b[b.len() - 1]);
    assert(lower(b.last()) == b.last());
    if b.len() == 1 {
        reveal_with_fuel(slug, 3);
        reveal_with_fuel(open_gap, 3);
        assert(s.drop_last() =~= a.push(c));
        assert(a.push(c).drop_last() =~= a);
        assert(dashed(a)) by {
            assert forall|i: int| 0 <= i < a.len() implies is_slug_char(#[trigger] a[i]) by {}
        }
        assert(a.last() == a[a.len() - 1]);
        lemma_slug_of_dashed(a, colons);
        assert(slug(s, colons) =~= a.push('-') + b);
    } else {
        let d = b.drop_last();
        assert forall|i: int| 0 <= i < d.len() implies ('a' <= #[trigger] d[i] <= 'z') || ('0' <= d[i] <= '9') by {
            assert(d[i] == b[i]);
        }
        law_separators_become_dashes(a, c, d, colons);
        assert(s.drop_last() =~= a.push(c) + d);
        assert((a.push(c) + d).last() == b[b.len() - 2]);
        assert(slug(s, colons) =~= a.push('-') + b);
    }
}

} // verus!
