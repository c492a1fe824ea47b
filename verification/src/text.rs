//! Text as a sequence of characters: trimming, splitting, joining, folding and numbers.
use vstd::prelude::*;

verus! {

broadcast use vstd::seq::group_seq_axioms;

/// `String::push` puts one character behind the text.
pub assume_specification[ String::push ](s: &mut String, ch: char)
    ensures
        final(s)@ == old(s)@.push(ch),
;

/// Whether two texts are the same, as `==` on `str` decides it: same characters in the same
/// order.
#[verifier::external_body]
pub(crate) fn same(a: &str, b: &str) -> (r: bool)
    ensures
        r == (a@ == b@),
{
    a == b
}

// ---------------------------------------------------------------------------------------------
// Models
// ---------------------------------------------------------------------------------------------
/// The text of an optional string.
pub open spec fn opt_text(value: Option<String>) -> Option<Seq<char>> {
    match value {
        Some(text) => Some(text@),
        None => None,
    }
}

/// The texts of a vector of strings.
pub open spec fn texts(values: Seq<String>) -> Seq<Seq<char>> {
    Seq::new(values.len(), |i: int| values[i]@)
}

/// The code points with the Unicode property `White_Space`.
pub open spec fn is_white_space(c: char) -> bool {
    ||| 0x9 <= c as u32 <= 0xd
    ||| c as u32 == 0x20
    ||| c as u32 == 0x85
    ||| c as u32 == 0xa0
    ||| c as u32 == 0x1680
    ||| 0x2000 <= c as u32 <= 0x200a
    ||| c as u32 == 0x2028
    ||| c as u32 == 0x2029
    ||| c as u32 == 0x202f
    ||| c as u32 == 0x205f
    ||| c as u32 == 0x3000
}

/// The text without its leading characters that satisfy `p`.
pub open spec fn trim_left(s: Seq<char>, p: spec_fn(char) -> bool) -> Seq<char>
    decreases s.len(),
{
    if s.len() > 0 && p(s[0]) {
        trim_left(s.skip(1), p)
    } else {
        s
    }
}

/// The text without its trailing characters that satisfy `p`.
pub open spec fn trim_right(s: Seq<char>, p: spec_fn(char) -> bool) -> Seq<char>
    decreases s.len(),
{
    if s.len() > 0 && p(s.last()) {
        trim_right(s.drop_last(), p)
    } else {
        s
    }
}

/// The text without the characters that satisfy `p` at its two ends.
pub open spec fn trim_both(s: Seq<char>, p: spec_fn(char) -> bool) -> Seq<char> {
    trim_right(trim_left(s, p), p)
}

/// The text without white space at its two ends.
pub open spec fn trimmed(s: Seq<char>) -> Seq<char> {
    trim_both(s, |c: char| is_white_space(c))
}

/// The text without the character `ch` at its two ends.
pub open spec fn trimmed_of(s: Seq<char>, ch: char) -> Seq<char> {
    trim_both(s, equals(ch))
}

/// The test for one character.
pub open spec fn equals(ch: char) -> spec_fn(char) -> bool {
    |c: char| c == ch
}

/// The trimmed text, unless nothing is left of it.
pub open spec fn kept(s: Seq<char>) -> Option<Seq<char>> {
    if trimmed(s).len() == 0 {
        None
    } else {
        Some(trimmed(s))
    }
}

/// The trimmed text of an optional string, unless nothing is left of it.
pub open spec fn kept_opt(value: Option<Seq<char>>) -> Option<Seq<char>> {
    match value {
        Some(s) => kept(s),
        None => None,
    }
}

/// The first of two optional texts that is there.
pub open spec fn first_of(a: Option<Seq<char>>, b: Option<Seq<char>>) -> Option<Seq<char>> {
    if a is Some {
        a
    } else {
        b
    }
}

/// The value of an option, or a default.
pub open spec fn text_or(a: Option<Seq<char>>, b: Seq<char>) -> Seq<char> {
    match a {
        Some(s) => s,
        None => b,
    }
}

pub open spec fn is_ascii_digit(c: char) -> bool {
    '0' <= c <= '9'
}

pub open spec fn is_ascii_upper(c: char) -> bool {
    'A' <= c <= 'Z'
}

pub open spec fn is_ascii_lower(c: char) -> bool {
    'a' <= c <= 'z'
}

pub open spec fn is_ascii_alnum(c: char) -> bool {
    is_ascii_digit(c) || is_ascii_upper(c) || is_ascii_lower(c)
}

/// ASCII white space: space, tab, line feed, form feed and carriage return.
pub open spec fn is_ascii_space(c: char) -> bool {
    c == ' ' || c == '\t' || c == '\n' || c == '\x0C' || c == '\r'
}

/// The character with an ASCII capital letter folded to its small one.
pub open spec fn lower(c: char) -> char {
    if is_ascii_upper(c) {
        (c as u32 + 32) as char
    } else {
        c
    }
}

/// The text with every ASCII capital letter folded.
pub open spec fn lowered(s: Seq<char>) -> Seq<char> {
    Seq::new(s.len(), |i: int| lower(s[i]))
}

/// Where `ch` first stands in the text; the length where it does not.
pub open spec fn find(s: Seq<char>, ch: char) -> int
    decreases s.len(),
{
    if s.len() == 0 || s[0] == ch {
        0
    } else {
        1 + find(s.skip(1), ch)
    }
}

/// The parts of a text between the occurrences of `ch`.
pub open spec fn split(s: Seq<char>, ch: char) -> Seq<Seq<char>>
    decreases s.len(),
{
    if find(s, ch) < s.len() && find(s, ch) >= 0 {
        seq![s.take(find(s, ch))] + split(s.skip(find(s, ch) + 1), ch)
    } else {
        seq![s]
    }
}

/// The parts one after the other, with `sep` between them.
pub open spec fn joined(parts: Seq<Seq<char>>, sep: Seq<char>) -> Seq<char>
    decreases parts.len(),
{
    if parts.len() == 0 {
        Seq::empty()
    } else if parts.len() == 1 {
        parts[0]
    } else {
        joined(parts.drop_last(), sep) + sep + parts.last()
    }
}

pub open spec fn has_prefix(s: Seq<char>, p: Seq<char>) -> bool {
    p.len() <= s.len() && s.take(p.len() as int) == p
}

/// The text occurs somewhere inside.
pub open spec fn has_part(s: Seq<char>, p: Seq<char>) -> bool {
    exists|i: int| 0 <= i <= s.len() - p.len() && #[trigger] s.skip(i).take(p.len() as int) == p
}

/// The text behind the prefix, where it has the prefix.
pub open spec fn after_prefix(s: Seq<char>, p: Seq<char>) -> Option<Seq<char>> {
    if has_prefix(s, p) {
        Some(s.skip(p.len() as int))
    } else {
        None
    }
}

/// Order of texts by code point, a prefix first.
pub open spec fn before(a: Seq<char>, b: Seq<char>) -> bool
    decreases a.len(),
{
    if b.len() == 0 {
        false
    } else if a.len() == 0 {
        true
    } else if a[0] == b[0] {
        before(a.skip(1), b.skip(1))
    } else {
        a[0] < b[0]
    }
}

/// A digit's character.
pub open spec fn digit(d: nat) -> char {
    (('0' as u32) + d) as char
}

/// The decimal digits of a number, without leading zeros.
pub open spec fn decimal(n: nat) -> Seq<char>
    decreases n,
{
    if n < 10 {
        seq![digit(n)]
    } else {
        decimal(n / 10).push(digit(n % 10))
    }
}

/// The decimal text of an integer.
pub open spec fn decimal_int(n: int) -> Seq<char> {
    if n < 0 {
        seq!['-'] + decimal((-n) as nat)
    } else {
        decimal(n as nat)
    }
}

/// The value of a run of decimal digits.
pub open spec fn digits_value(s: Seq<char>) -> nat
    decreases s.len(),
{
    if s.len() == 0 {
        0
    } else {
        digits_value(s.drop_last()) * 10 + (s.last() as u32 - '0' as u32) as nat
    }
}

/// Every character is a decimal digit.
pub open spec fn all_digits(s: Seq<char>) -> bool {
    forall|i: int| 0 <= i < s.len() ==> is_ascii_digit(#[trigger] s[i])
}

/// The text without one leading plus sign.
pub open spec fn without_plus(s: Seq<char>) -> Seq<char> {
    if s.len() > 0 && s[0] == '+' {
        s.skip(1)
    } else {
        s
    }
}

/// The number that a text of decimal digits denotes, a leading plus sign allowed; nothing where
/// the text is no such number or the number is above `max`.
pub open spec fn parsed_number(s: Seq<char>, max: nat) -> Option<nat> {
    if without_plus(s).len() > 0 && all_digits(without_plus(s)) && digits_value(without_plus(s))
        <= max {
        Some(digits_value(without_plus(s)))
    } else {
        None
    }
}

// ---------------------------------------------------------------------------------------------
// Characters and strings
// ---------------------------------------------------------------------------------------------
/// The characters of a text.
pub fn to_chars(s: &str) -> (r: Vec<char>)
    ensures
        r@ == s@,
{
    let mut out: Vec<char> = Vec::new();
    for c in it: s.chars()
        invariant
            it.seq() == s@,
            out@ == s@.take(it.index() as int),
    {
        out.push(c);
    }
    assert(s@.take(s@.len() as int) =~= s@);
    out
}

/// The text of a run of characters.
pub fn from_chars(chars: &[char]) -> (r: String)
    ensures
        r@ == chars@,
{
    let mut out = String::new();
    let mut i: usize = 0;
    while i < chars.len()
        invariant
            i <= chars.len(),
            out@ == chars@.take(i as int),
        decreases chars.len() - i,
    {
        out.push(chars[i]);
        i = i + 1;
        assert(chars@.take(i as int) =~= chars@.take(i - 1).push(chars@[i - 1]));
    }
    assert(chars@.take(i as int) =~= chars@);
    out
}

/// The text of the characters from `from` up to `to`.
pub fn from_range(chars: &Vec<char>, from: usize, to: usize) -> (r: String)
    requires
        from <= to <= chars@.len(),
    ensures
        r@ == chars@.subrange(from as int, to as int),
{
    let mut out = String::new();
    let mut i: usize = from;
    while i < to
        invariant
            from <= i <= to <= chars@.len(),
            out@ == chars@.subrange(from as int, i as int),
        decreases to - i,
    {
        out.push(chars[i]);
        i = i + 1;
        assert(chars@.subrange(from as int, i as int) =~= chars@.subrange(from as int, i - 1).push(
            chars@[i - 1],
        ));
    }
    out
}

/// Whether a character has the Unicode property `White_Space`.
pub fn white_space(c: char) -> (r: bool)
    ensures
        r == is_white_space(c),
{
    let u: u32 = c as u32;
    (0x9 <= u && u <= 0xd) || u == 0x20 || u == 0x85 || u == 0xa0 || u == 0x1680 || (0x2000 <= u
        && u <= 0x200a) || u == 0x2028 || u == 0x2029 || u == 0x202f || u == 0x205f || u == 0x3000
}

proof fn lemma_trim_left_range(s: Seq<char>, p: spec_fn(char) -> bool, i: int)
    requires
        0 <= i <= s.len(),
        forall|k: int| 0 <= k < i ==> p(#[trigger] s[k]),
        i < s.len() ==> !p(s[i]),
    ensures
        trim_left(s, p) == s.skip(i),
    decreases i,
{
    if i > 0 {
        assert(p(s[0]));
        assert forall|k: int| 0 <= k < i - 1 implies p(#[trigger] s.skip(1)[k]) by {
            assert(s.skip(1)[k] == s[k + 1]);
        }
        lemma_trim_left_range(s.skip(1), p, i - 1);
        assert(s.skip(1).skip(i - 1) =~= s.skip(i));
    } else {
        assert(s.skip(0) =~= s);
    }
}

proof fn lemma_trim_right_range(s: Seq<char>, p: spec_fn(char) -> bool, j: int)
    requires
        0 <= j <= s.len(),
        forall|k: int| j <= k < s.len() ==> p(#[trigger] s[k]),
        j > 0 ==> !p(s[j - 1]),
    ensures
        trim_right(s, p) == s.take(j),
    decreases s.len(),
{
    if j < s.len() {
        assert(p(s[s.len() - 1]));
        lemma_trim_right_range(s.drop_last(), p, j);
        assert(s.drop_last().take(j) =~= s.take(j));
    } else {
        assert(s.take(j) =~= s);
    }
}

/// The text between the first and the last character that do not satisfy `p`.
proof fn lemma_trim_both_range(s: Seq<char>, p: spec_fn(char) -> bool, i: int, j: int)
    requires
        0 <= i <= j <= s.len(),
        forall|k: int| 0 <= k < i ==> p(#[trigger] s[k]),
        forall|k: int| j <= k < s.len() ==> p(#[trigger] s[k]),
        i < j ==> !p(s[i]) && !p(s[j - 1]),
        i == j ==> i == s.len(),
    ensures
        trim_both(s, p) == s.subrange(i, j),
{
    lemma_trim_left_range(s, p, i);
    let t = s.skip(i);
    assert forall|k: int| j - i <= k < t.len() implies p(#[trigger] t[k]) by {
        assert(t[k] == s[k + i]);
    }
    lemma_trim_right_range(t, p, j - i);
    assert(t.take(j - i) =~= s.subrange(i, j));
}

/// The text without white space at its two ends.
pub fn trim(s: &str) -> (r: String)
    ensures
        r@ == trimmed(s@),
{
    let chars = to_chars(s);
    let n: usize = chars.len();
    let mut i: usize = 0;
    while i < n && white_space(chars[i])
        invariant
            i <= n,
            n == chars@.len(),
            forall|k: int| 0 <= k < i ==> is_white_space(#[trigger] chars@[k]),
        decreases n - i,
    {
        i = i + 1;
    }
    let mut j: usize = n;
    while i < j && white_space(chars[j - 1])
        invariant
            i <= j <= n,
            n == chars@.len(),
            i < n ==> !is_white_space(chars@[i as int]),
            forall|k: int| j <= k < n ==> is_white_space(#[trigger] chars@[k]),
        decreases j,
    {
        j = j - 1;
    }
    proof {
        lemma_trim_both_range(chars@, |c: char| is_white_space(c), i as int, j as int);
    }
    from_range(&chars, i, j)
}

/// The text without the character `ch` at its two ends.
pub fn trim_char(s: &str, ch: char) -> (r: String)
    ensures
        r@ == trimmed_of(s@, ch),
{
    let chars = to_chars(s);
    let n: usize = chars.len();
    let mut i: usize = 0;
    while i < n && chars[i] == ch
        invariant
            i <= n,
            n == chars@.len(),
            forall|k: int| 0 <= k < i ==> #[trigger] chars@[k] == ch,
        decreases n - i,
    {
        i = i + 1;
    }
    let mut j: usize = n;
    while i < j && chars[j - 1] == ch
        invariant
            i <= j <= n,
            n == chars@.len(),
            i < n ==> chars@[i as int] != ch,
            forall|k: int| j <= k < n ==> #[trigger] chars@[k] == ch,
        decreases j,
    {
        j = j - 1;
    }
    proof {
        lemma_trim_both_range(chars@, equals(ch), i as int, j as int);
    }
    from_range(&chars, i, j)
}

/// The text without the character `ch` at its end.
pub fn trim_trailing(s: &str, ch: char) -> (r: String)
    ensures
        r@ == trim_right(s@, equals(ch)),
{
    let chars = to_chars(s);
    let n: usize = chars.len();
    let mut j: usize = n;
    while 0 < j && chars[j - 1] == ch
        invariant
            j <= n,
            n == chars@.len(),
            forall|k: int| j <= k < n ==> #[trigger] chars@[k] == ch,
        decreases j,
    {
        j = j - 1;
    }
    proof {
        lemma_trim_right_range(chars@, equals(ch), j as int);
        assert(chars@.subrange(0, j as int) =~= chars@.take(j as int));
    }
    from_range(&chars, 0, j)
}

/// What is left of a text by trimming its end is a beginning of it that ends otherwise.
pub proof fn lemma_trim_right_shape(s: Seq<char>, p: spec_fn(char) -> bool)
    ensures
        trim_right(s, p).len() <= s.len(),
        trim_right(s, p) == s.take(trim_right(s, p).len() as int),
        trim_right(s, p).len() > 0 ==> !p(trim_right(s, p).last()),
    decreases s.len(),
{
    if s.len() > 0 && p(s.last()) {
        lemma_trim_right_shape(s.drop_last(), p);
        assert(s.drop_last().take(trim_right(s, p).len() as int) =~= s.take(
            trim_right(s, p).len() as int,
        ));
    } else {
        assert(s.take(s.len() as int) =~= s);
    }
}

/// What is left of a text by trimming its beginning is an end of it that begins otherwise.
pub proof fn lemma_trim_left_shape(s: Seq<char>, p: spec_fn(char) -> bool)
    ensures
        trim_left(s, p).len() <= s.len(),
        trim_left(s, p) == s.skip(s.len() - trim_left(s, p).len()),
        trim_left(s, p).len() > 0 ==> !p(trim_left(s, p)[0]),
    decreases s.len(),
{
    if s.len() > 0 && p(s[0]) {
        lemma_trim_left_shape(s.skip(1), p);
        let n = trim_left(s, p).len();
        assert(s.skip(1).skip(s.len() - 1 - n) =~= s.skip(s.len() - n));
    } else {
        assert(s.skip(0) =~= s);
    }
}

/// A trimmed text has nothing to trim at its ends.
pub proof fn lemma_trim_both_shape(s: Seq<char>, p: spec_fn(char) -> bool)
    ensures
        trim_both(s, p).len() <= s.len(),
        trim_both(s, p).len() > 0 ==> !p(trim_both(s, p)[0]) && !p(trim_both(s, p).last()),
        forall|c: char| #[trigger] trim_both(s, p).contains(c) ==> s.contains(c),
{
    lemma_trim_left_shape(s, p);
    lemma_trim_right_shape(trim_left(s, p), p);
    let t = trim_both(s, p);
    let l = trim_left(s, p);
    if t.len() > 0 {
        assert(t[0] == l[0]);
    }
    assert forall|c: char| #[trigger] t.contains(c) implies s.contains(c) by {
        let i = choose|i: int| 0 <= i < t.len() && t[i] == c;
        assert(l[i] == c);
        assert(s[s.len() - l.len() + i] == c);
    }
}

/// A text with nothing to trim at its ends stays as it is.
pub proof fn lemma_trim_both_fixed(s: Seq<char>, p: spec_fn(char) -> bool)
    requires
        s.len() > 0 ==> !p(s[0]) && !p(s.last()),
    ensures
        trim_both(s, p) == s,
{
}

/// Trimming a trimmed text changes nothing.
pub proof fn law_trim_is_idempotent(s: Seq<char>)
    ensures
        trimmed(trimmed(s)) == trimmed(s),
        kept_opt(kept(s)) == kept(s),
{
    lemma_trim_both_shape(s, |c: char| is_white_space(c));
    lemma_trim_both_fixed(trimmed(s), |c: char| is_white_space(c));
}

/// The trimmed text, unless nothing is left of it.
pub fn trim_non_empty(value: &str) -> (r: Option<String>)
    ensures
        opt_text(r) == kept(value@),
{
    let t = trim(value);
    if t.as_str().is_empty() {
        None
    } else {
        Some(t)
    }
}

/// The trimmed text of an optional string, unless nothing is left of it.
pub fn trim_non_empty_opt(value: &Option<String>) -> (r: Option<String>)
    ensures
        opt_text(r) == kept_opt(opt_text(*value)),
{
    match value {
        Some(text) => trim_non_empty(text.as_str()),
        None => None,
    }
}

/// Whether a text holds a character.
pub fn contains_char(s: &str, ch: char) -> (r: bool)
    ensures
        r == s@.contains(ch),
{
    let chars = to_chars(s);
    let mut i: usize = 0;
    while i < chars.len()
        invariant
            i <= chars@.len(),
            chars@ == s@,
            forall|k: int| 0 <= k < i ==> chars@[k] != ch,
        decreases chars@.len() - i,
    {
        if chars[i] == ch {
            assert(s@[i as int] == ch);
            return true;
        }
        i = i + 1;
    }
    false
}

/// Nothing is left of the empty text.
pub proof fn lemma_empty_is_blank()
    ensures
        kept(Seq::<char>::empty()) is None,
{
    lemma_trim_both_fixed(Seq::<char>::empty(), |c: char| is_white_space(c));
}

/// The first of two optional texts that is there.
pub fn either(a: Option<String>, b: Option<String>) -> (r: Option<String>)
    ensures
        opt_text(r) == first_of(opt_text(a), opt_text(b)),
{
    if a.is_some() {
        a
    } else {
        b
    }
}

/// The value of an option, or a default.
pub fn or_text(a: Option<String>, b: &str) -> (r: String)
    ensures
        r@ == text_or(opt_text(a), b@),
{
    match a {
        Some(s) => s,
        None => b.to_owned(),
    }
}

/// One text behind the other.
pub fn cat(a: &str, b: &str) -> (r: String)
    ensures
        r@ == a@ + b@,
{
    let mut out = a.to_owned();
    out.append(b);
    out
}

/// Three texts in a row.
pub fn cat3(a: &str, b: &str, c: &str) -> (r: String)
    ensures
        r@ == a@ + b@ + c@,
{
    let mut out = cat(a, b);
    out.append(c);
    out
}

/// Four texts in a row.
pub fn cat4(a: &str, b: &str, c: &str, d: &str) -> (r: String)
    ensures
        r@ == a@ + b@ + c@ + d@,
{
    let mut out = cat3(a, b, c);
    out.append(d);
    out
}

/// Five texts in a row.
pub fn cat5(a: &str, b: &str, c: &str, d: &str, e: &str) -> (r: String)
    ensures
        r@ == a@ + b@ + c@ + d@ + e@,
{
    let mut out = cat4(a, b, c, d);
    out.append(e);
    out
}

/// Whether the text starts with the other.
pub fn starts_with(s: &str, p: &str) -> (r: bool)
    ensures
        r == has_prefix(s@, p@),
{
    let a = to_chars(s);
    let b = to_chars(p);
    assert(s@.skip(0) =~= s@);
    stands_at(&a, &b, 0)
}

/// Whether `part` stands in `whole` from `at` on.
fn stands_at(whole: &Vec<char>, part: &Vec<char>, at: usize) -> (r: bool)
    requires
        at <= whole@.len(),
    ensures
        r == has_prefix(whole@.skip(at as int), part@),
{
    if part.len() > whole.len() - at {
        return false;
    }
    let total: usize = whole.len();
    let mut i: usize = 0;
    while i < part.len()
        invariant
            total == whole@.len(),
            i <= part@.len() <= whole@.len() - at,
            at <= whole@.len(),
            forall|k: int| 0 <= k < i ==> #[trigger] part@[k] == whole@[at + k],
        decreases part@.len() - i,
    {
        if part[i] != whole[at + i] {
            proof {
                let t = whole@.skip(at as int).take(part@.len() as int);
                assert(t[i as int] == whole@[at + i]);
            }
            return false;
        }
        i = i + 1;
    }
    assert(whole@.skip(at as int).take(part@.len() as int) =~= part@);
    true
}

/// The text behind the prefix, where it has the prefix.
pub fn strip_prefix(s: &str, p: &str) -> (r: Option<String>)
    ensures
        opt_text(r) == after_prefix(s@, p@),
{
    let a = to_chars(s);
    let b = to_chars(p);
    assert(s@.skip(0) =~= s@);
    if stands_at(&a, &b, 0) {
        let rest = from_range(&a, b.len(), a.len());
        assert(rest@ =~= s@.skip(p@.len() as int));
        Some(rest)
    } else {
        None
    }
}

/// Whether the other text occurs somewhere inside.
pub fn contains(s: &str, p: &str) -> (r: bool)
    ensures
        r == has_part(s@, p@),
{
    let a = to_chars(s);
    let b = to_chars(p);
    if b.len() > a.len() {
        return false;
    }
    let last: usize = a.len() - b.len();
    let mut i: usize = 0;
    loop
        invariant
            a@ == s@,
            b@ == p@,
            b@.len() <= a@.len(),
            last == a@.len() - b@.len(),
            i <= last,
            forall|k: int| 0 <= k < i ==> #[trigger] a@.skip(k).take(b@.len() as int) != b@,
        decreases last - i,
    {
        if stands_at(&a, &b, i) {
            assert(a@.skip(i as int).take(b@.len() as int) == b@);
            return true;
        }
        assert(a@.skip(i as int).take(b@.len() as int) != b@);
        if i == last {
            return false;
        }
        i = i + 1;
    }
}

/// The character with an ASCII capital letter folded to its small one.
pub fn lower_char(c: char) -> (r: char)
    ensures
        r == lower(c),
{
    if 'A' <= c && c <= 'Z' {
        let u: u8 = c as u8;
        (u + 32) as char
    } else {
        c
    }
}

/// The text with every ASCII capital letter folded.
pub fn to_lower(s: &str) -> (r: String)
    ensures
        r@ == lowered(s@),
{
    let chars = to_chars(s);
    let mut out = String::new();
    let mut i: usize = 0;
    while i < chars.len()
        invariant
            i <= chars@.len(),
            out@ == lowered(chars@.take(i as int)),
        decreases chars@.len() - i,
    {
        out.push(lower_char(chars[i]));
        i = i + 1;
        assert(lowered(chars@.take(i as int)) =~= lowered(chars@.take(i - 1)).push(
            lower(chars@[i - 1]),
        ));
    }
    assert(chars@.take(i as int) =~= s@);
    out
}

/// Whether two texts are the same but for the case of ASCII letters.
pub fn same_ignoring_case(a: &str, b: &str) -> (r: bool)
    ensures
        r == (lowered(a@) == lowered(b@)),
{
    let x = to_lower(a);
    let y = to_lower(b);
    same(x.as_str(), y.as_str())
}

pub proof fn lemma_find(s: Seq<char>, ch: char)
    ensures
        0 <= find(s, ch) <= s.len(),
        forall|k: int| 0 <= k < find(s, ch) ==> #[trigger] s[k] != ch,
        find(s, ch) < s.len() ==> s[find(s, ch)] == ch,
    decreases s.len(),
{
    if s.len() > 0 && s[0] != ch {
        lemma_find(s.skip(1), ch);
        assert forall|k: int| 0 <= k < find(s, ch) implies #[trigger] s[k] != ch by {
            if k > 0 {
                assert(s.skip(1)[k - 1] == s[k]);
            }
        }
    }
}

proof fn lemma_find_is(s: Seq<char>, ch: char, i: int)
    requires
        0 <= i <= s.len(),
        forall|k: int| 0 <= k < i ==> #[trigger] s[k] != ch,
        i < s.len() ==> s[i] == ch,
    ensures
        find(s, ch) == i,
{
    lemma_find(s, ch);
    if find(s, ch) < i {
        assert(s[find(s, ch)] != ch);
    }
}

/// Where `ch` first stands from `at` on; the length where it does not.
pub fn find_from(chars: &Vec<char>, at: usize, ch: char) -> (r: usize)
    requires
        at <= chars@.len(),
    ensures
        at <= r <= chars@.len(),
        r - at == find(chars@.skip(at as int), ch),
        forall|k: int| at <= k < r ==> #[trigger] chars@[k] != ch,
        r < chars@.len() ==> chars@[r as int] == ch,
{
    let mut i: usize = at;
    while i < chars.len() && chars[i] != ch
        invariant
            at <= i <= chars@.len(),
            forall|k: int| at <= k < i ==> #[trigger] chars@[k] != ch,
        decreases chars@.len() - i,
    {
        i = i + 1;
    }
    proof {
        let t = chars@.skip(at as int);
        assert forall|k: int| 0 <= k < i - at implies #[trigger] t[k] != ch by {
            assert(t[k] == chars@[at + k]);
        }
        lemma_find_is(t, ch, i - at);
    }
    i
}

/// The parts of a text between the occurrences of `ch`.
pub fn split_at_char(s: &str, ch: char) -> (r: Vec<String>)
    ensures
        texts(r@) == split(s@, ch),
{
    let chars = to_chars(s);
    let mut out: Vec<String> = Vec::new();
    let mut at: usize = 0;
    assert(chars@.skip(0) =~= s@);
    assert(texts(out@) + split(chars@.skip(0), ch) =~= split(s@, ch));
    loop
        invariant
            chars@ == s@,
            at <= chars@.len(),
            texts(out@) + split(chars@.skip(at as int), ch) == split(s@, ch),
        decreases chars@.len() - at,
    {
        let end: usize = find_from(&chars, at, ch);
        let ghost rest = chars@.skip(at as int);
        let part = from_range(&chars, at, end);
        let ghost before_push = out@;
        out.push(part);
        assert(texts(out@) =~= texts(before_push).push(part@));
        if end == chars.len() {
            assert(part@ =~= rest);
            assert(split(rest, ch) == seq![rest]);
            assert(texts(out@) =~= texts(before_push) + split(rest, ch));
            return out;
        }
        assert(part@ =~= rest.take(end - at));
        assert(rest.skip(end - at + 1) =~= chars@.skip(end + 1));
        assert(split(rest, ch) == seq![part@] + split(chars@.skip(end + 1), ch));
        assert(texts(out@) + split(chars@.skip(end + 1), ch) =~= texts(before_push) + split(
            rest,
            ch,
        ));
        at = end + 1;
    }
}

/// The parts one after the other, with `sep` between them.
pub fn join(parts: &Vec<String>, sep: &str) -> (r: String)
    ensures
        r@ == joined(texts(parts@), sep@),
{
    let mut out = String::new();
    let mut i: usize = 0;
    while i < parts.len()
        invariant
            i <= parts@.len(),
            out@ == joined(texts(parts@).take(i as int), sep@),
        decreases parts@.len() - i,
    {
        if i > 0 {
            out.append(sep);
        }
        out.append(parts[i].as_str());
        i = i + 1;
        proof {
            let t = texts(parts@).take(i as int);
            assert(t.drop_last() =~= texts(parts@).take(i - 1));
            assert(t.last() == parts@[i - 1]@);
            if i == 1 {
                assert(out@ =~= parts@[0]@);
            }
        }
    }
    assert(texts(parts@).take(i as int) =~= texts(parts@));
    out
}

/// The decimal text of a number.
pub fn decimal_text(n: u64) -> (r: String)
    ensures
        r@ == decimal(n as nat),
    decreases n,
{
    let last: u64 = n % 10;
    let c: char = (48u8 + last as u8) as char;
    assert(c == digit((n % 10) as nat));
    let mut out = if n < 10 {
        String::new()
    } else {
        decimal_text(n / 10)
    };
    out.push(c);
    assert(n < 10 ==> out@ =~= seq![c]);
    out
}

/// The decimal text of a signed number.
pub fn decimal_text_signed(n: i64) -> (r: String)
    ensures
        r@ == decimal_int(n as int),
{
    if n >= 0 {
        decimal_text(n as u64)
    } else {
        let magnitude: u64 = (-(n as i128)) as u64;
        let digits = decimal_text(magnitude);
        let mut out = String::new();
        out.push('-');
        out.append(digits.as_str());
        assert(out@ =~= seq!['-'] + decimal(magnitude as nat));
        out
    }
}

proof fn lemma_digits_value_grows(s: Seq<char>, n: int)
    requires
        0 <= n <= s.len(),
        all_digits(s),
    ensures
        digits_value(s.take(n)) <= digits_value(s),
    decreases s.len() - n,
{
    if n < s.len() {
        let longer = s.take(n + 1);
        assert(longer.drop_last() =~= s.take(n));
        assert(is_ascii_digit(s[n]));
        lemma_digits_value_grows(s, n + 1);
    } else {
        assert(s.take(n) =~= s);
    }
}

/// The number that a text of decimal digits denotes, a leading plus sign allowed.
pub fn parse_number(s: &str, max: u64) -> (r: Option<u64>)
    ensures
        match (r, parsed_number(s@, max as nat)) {
            (Some(n), Some(m)) => n == m,
            (None, None) => true,
            _ => false,
        },
{
    let chars = to_chars(s);
    let mut i: usize = 0;
    if chars.len() > 0 && chars[0] == '+' {
        i = 1;
    }
    let ghost digits = without_plus(s@);
    let start: usize = i;
    assert(digits =~= chars@.skip(start as int));
    if start == chars.len() {
        return None;
    }
    let mut value: u64 = 0;
    while i < chars.len()
        invariant
            chars@ == s@,
            start <= i <= chars@.len(),
            start < chars@.len(),
            digits == chars@.skip(start as int),
            digits == without_plus(s@),
            value == digits_value(digits.take(i - start)),
            value <= max,
            forall|k: int| 0 <= k < i - start ==> is_ascii_digit(#[trigger] digits[k]),
        decreases chars@.len() - i,
    {
        let c: char = chars[i];
        assert(digits[i - start] == c);
        if c < '0' || c > '9' {
            assert(!is_ascii_digit(digits[i - start]));
            return None;
        }
        let d: u64 = (c as u32 - 48) as u64;
        let next: u128 = (value as u128) * 10 + d as u128;
        proof {
            let longer = digits.take(i - start + 1);
            assert(longer.drop_last() =~= digits.take(i - start));
            assert(digits_value(longer) == value * 10 + d);
            if all_digits(digits) {
                lemma_digits_value_grows(digits, i - start + 1);
            }
        }
        if next > max as u128 {
            return None;
        }
        value = next as u64;
        i = i + 1;
    }
    assert(digits.take(i - start) =~= digits);
    Some(value)
}

/// Whether the first text comes before the second, by code point.
pub fn precedes(a: &str, b: &str) -> (r: bool)
    ensures
        r == before(a@, b@),
{
    let x = to_chars(a);
    let y = to_chars(b);
    let mut i: usize = 0;
    assert(x@.skip(0) =~= a@ && y@.skip(0) =~= b@);
    loop
        invariant
            x@ == a@,
            y@ == b@,
            i <= x@.len(),
            i <= y@.len(),
            before(a@, b@) == before(x@.skip(i as int), y@.skip(i as int)),
        decreases x@.len() - i,
    {
        if i == y.len() {
            return false;
        }
        if i == x.len() {
            return true;
        }
        if x[i] != y[i] {
            return x[i] < y[i];
        }
        assert(x@.skip(i as int).skip(1) =~= x@.skip(i + 1));
        assert(y@.skip(i as int).skip(1) =~= y@.skip(i + 1));
        i = i + 1;
    }
}

/// No text comes before itself.
pub proof fn lemma_before_irreflexive(a: Seq<char>)
    ensures
        !before(a, a),
    decreases a.len(),
{
    if a.len() > 0 {
        lemma_before_irreflexive(a.skip(1));
    }
}

/// Of two different texts one comes before the other, and only one.
pub proof fn lemma_before_total(a: Seq<char>, b: Seq<char>)
    ensures
        before(a, b) || before(b, a) || a == b,
        !(before(a, b) && before(b, a)),
    decreases a.len(),
{
    if a.len() > 0 && b.len() > 0 {
        if a[0] == b[0] {
            lemma_before_total(a.skip(1), b.skip(1));
            if a.skip(1) == b.skip(1) {
                assert(a =~= seq![a[0]] + a.skip(1));
                assert(b =~= seq![b[0]] + b.skip(1));
            }
        }
    } else if a.len() == 0 && b.len() == 0 {
        assert(a =~= b);
    }
}

/// The order of texts is transitive.
pub proof fn lemma_before_transitive(a: Seq<char>, b: Seq<char>, c: Seq<char>)
    requires
        before(a, b),
        before(b, c),
    ensures
        before(a, c),
    decreases a.len(),
{
    if a.len() > 0 && b.len() > 0 && c.len() > 0 {
        if a[0] == b[0] && b[0] == c[0] {
            lemma_before_transitive(a.skip(1), b.skip(1), c.skip(1));
        }
    }
}

// ---------------------------------------------------------------------------------------------
// Laws
// ---------------------------------------------------------------------------------------------
/// Of the ASCII characters, the space and those from the tab to the carriage return are white
/// space. No character behind U+3000 is, and of the others the wide spaces and separators are.
pub proof fn law_white_space(c: char, r: bool)
    requires
        call_ensures(white_space, (c,), r),
    ensures
        c as u32 <= 0x7f ==> (r <==> c as u32 == 0x20 || 0x9 <= c as u32 <= 0xd),
        c as u32 > 0x3000 ==> !r,
        c as u32 == 0xa0 || c as u32 == 0x85 || c as u32 == 0x2028 || c as u32 == 0x3000 ==> r,
        r == is_white_space(c),
{
}

/// A trimmed text is the part of the text between its white space: what was cut off is white
/// space, and what is left neither begins nor ends with it.
pub proof fn law_trim_cuts_white_space(s: &str, r: String)
    requires
        call_ensures(trim, (s,), r),
    ensures
        exists|a: int, b: int|
            #![trigger s@.subrange(a, b)]
            0 <= a <= b <= s@.len() && r@ == s@.subrange(a, b) && (forall|k: int|
                0 <= k < a ==> is_white_space(#[trigger] s@[k])) && (forall|k: int|
                b <= k < s@.len() ==> is_white_space(#[trigger] s@[k])) && (a < b ==> !is_white_space(
                s@[a],
            ) && !is_white_space(s@[b - 1])),
{
    lemma_trimmed_range(s@);
}

/// Where the trimmed text stands in the text.
pub proof fn lemma_trimmed_range(s: Seq<char>)
    ensures
        exists|a: int, b: int|
            #![trigger s.subrange(a, b)]
            0 <= a <= b <= s.len() && trimmed(s) == s.subrange(a, b) && (forall|k: int|
                0 <= k < a ==> is_white_space(#[trigger] s[k])) && (forall|k: int|
                b <= k < s.len() ==> is_white_space(#[trigger] s[k])) && (a < b ==> !is_white_space(
                s[a],
            ) && !is_white_space(s[b - 1])),
{
    let p = |c: char| is_white_space(c);
    let l = trim_left(s, p);
    let a = s.len() - l.len();
    lemma_trim_left_shape(s, p);
    lemma_trim_right_shape(l, p);
    lemma_trim_left_cut(s, p);
    lemma_trim_right_cut(l, p);
    let b = a + trimmed(s).len();
    assert(trimmed(s) =~= s.subrange(a, b));
    assert forall|k: int| b <= k < s.len() implies is_white_space(#[trigger] s[k]) by {
        assert(l[k - a] == s[k]);
        assert(p(l[k - a]));
    }
    assert forall|k: int| 0 <= k < a implies is_white_space(#[trigger] s[k]) by {
        assert(p(s[k]));
    }
    if a < b {
        assert(l[0] == s[a]);
        assert(trimmed(s).last() == s[b - 1]);
    }
}

proof fn lemma_trim_left_cut(s: Seq<char>, p: spec_fn(char) -> bool)
    ensures
        forall|k: int| 0 <= k < s.len() - trim_left(s, p).len() ==> p(#[trigger] s[k]),
    decreases s.len(),
{
    if s.len() > 0 && p(s[0]) {
        lemma_trim_left_cut(s.skip(1), p);
        assert forall|k: int| 0 <= k < s.len() - trim_left(s, p).len() implies p(#[trigger] s[k]) by {
            if k > 0 {
                assert(s.skip(1)[k - 1] == s[k]);
            }
        }
    }
}

proof fn lemma_trim_right_cut(s: Seq<char>, p: spec_fn(char) -> bool)
    ensures
        forall|k: int| trim_right(s, p).len() <= k < s.len() ==> p(#[trigger] s[k]),
    decreases s.len(),
{
    if s.len() > 0 && p(s.last()) {
        lemma_trim_right_cut(s.drop_last(), p);
        assert forall|k: int| trim_right(s, p).len() <= k < s.len() implies p(#[trigger] s[k]) by {
            if k < s.len() - 1 {
                assert(s.drop_last()[k] == s[k]);
            }
        }
    }
}

/// The text has a character that is no white space.
pub open spec fn not_blank(s: Seq<char>) -> bool {
    exists|k: int| 0 <= k < s.len() && !is_white_space(#[trigger] s[k])
}

/// A text is kept exactly where it is not blank.
pub proof fn lemma_kept(s: Seq<char>)
    ensures
        kept(s) is Some <==> not_blank(s),
        kept(s) is Some ==> kept(s)->0 == trimmed(s),
{
    lemma_trimmed_range(s);
    let (a, b) = choose|a: int, b: int|
        #![trigger s.subrange(a, b)]
        0 <= a <= b <= s.len() && trimmed(s) == s.subrange(a, b) && (forall|k: int|
            0 <= k < a ==> is_white_space(#[trigger] s[k])) && (forall|k: int|
            b <= k < s.len() ==> is_white_space(#[trigger] s[k])) && (a < b ==> !is_white_space(s[a])
            && !is_white_space(s[b - 1]));
    if a < b {
        assert(!is_white_space(s[a]));
    }
}

/// A text is kept exactly where it has a character that is no white space; it is the trimmed text
/// then.
pub proof fn law_blank_texts_are_dropped(value: &str, r: Option<String>)
    requires
        call_ensures(trim_non_empty, (value,), r),
    ensures
        r is Some <==> exists|k: int| 0 <= k < value@.len() && !is_white_space(#[trigger] value@[k]),
        r is Some ==> r->0@ == trimmed(value@),
{
    lemma_kept(value@);
}

/// Folding leaves the length and every character but the capital letters, which become the small
/// letters thirty-two code points on.
pub proof fn law_lower_folds_capitals(s: &str, r: String, i: int)
    requires
        call_ensures(to_lower, (s,), r),
        0 <= i < s@.len(),
    ensures
        r@.len() == s@.len(),
        'A' <= s@[i] <= 'Z' ==> r@[i] as u32 == s@[i] as u32 + 32,
        !('A' <= s@[i] <= 'Z') ==> r@[i] == s@[i],
{
}

/// A text begins with another exactly where something put behind the other gives it; that is what
/// stripping leaves.
pub proof fn law_prefixes_are_stripped(s: &str, p: &str, begins: bool, rest: Option<String>)
    requires
        call_ensures(starts_with, (s, p), begins),
        call_ensures(strip_prefix, (s, p), rest),
    ensures
        begins <==> exists|t: Seq<char>| s@ == #[trigger] (p@ + t),
        rest is Some <==> begins,
        rest is Some ==> s@ == p@ + rest->0@,
{
    if has_prefix(s@, p@) {
        assert(s@ =~= p@ + s@.skip(p@.len() as int));
    }
    if exists|t: Seq<char>| s@ == #[trigger] (p@ + t) {
        let t = choose|t: Seq<char>| s@ == #[trigger] (p@ + t);
        assert(s@.take(p@.len() as int) =~= p@);
    }
}

/// A text holds another exactly where it is the other with something before and behind it.
pub proof fn law_parts_are_found(s: &str, p: &str, r: bool)
    requires
        call_ensures(contains, (s, p), r),
    ensures
        r <==> exists|a: Seq<char>, b: Seq<char>| s@ == #[trigger] (a + p@ + b),
{
    if has_part(s@, p@) {
        let i = choose|i: int|
            0 <= i <= s@.len() - p@.len() && #[trigger] s@.skip(i).take(p@.len() as int) == p@;
        let a = s@.take(i);
        let b = s@.skip(i + p@.len());
        assert(s@ =~= a + p@ + b) by {
            assert forall|k: int| i <= k < i + p@.len() implies s@[k] == p@[k - i] by {
                assert(s@.skip(i).take(p@.len() as int)[k - i] == s@[k]);
            }
        }
    }
    if exists|a: Seq<char>, b: Seq<char>| s@ == #[trigger] (a + p@ + b) {
        let (a, b) = choose|a: Seq<char>, b: Seq<char>| s@ == #[trigger] (a + p@ + b);
        assert(s@.skip(a.len() as int).take(p@.len() as int) =~= p@);
    }
}

/// The parts of a text, joined with the character at which it was split, are the text again, and
/// no part holds that character.
pub proof fn law_split_and_join(s: Seq<char>, ch: char)
    ensures
        joined(split(s, ch), seq![ch]) == s,
        split(s, ch).len() >= 1,
        forall|i: int| 0 <= i < split(s, ch).len() ==> !(#[trigger] split(s, ch)[i]).contains(ch),
    decreases s.len(),
{
    lemma_find(s, ch);
    let at = find(s, ch);
    if at < s.len() {
        let head = s.take(at);
        let rest = split(s.skip(at + 1), ch);
        law_split_and_join(s.skip(at + 1), ch);
        law_join_puts_between(head, rest, seq![ch]);
        assert(s =~= head + seq![ch] + s.skip(at + 1));
        assert forall|i: int| 0 <= i < split(s, ch).len() implies !(#[trigger] split(s, ch)[i]).contains(ch) by {
            if i > 0 {
                assert(split(s, ch)[i] == rest[i - 1]);
            }
        }
    } else {
        assert(split(s, ch)[0] == s);
    }
}

/// Joining nothing gives nothing, and one part itself; a part before others is followed by the
/// separator and then by the others joined.
pub proof fn law_join_puts_between(first: Seq<char>, rest: Seq<Seq<char>>, sep: Seq<char>)
    ensures
        joined(Seq::<Seq<char>>::empty(), sep) == Seq::<char>::empty(),
        joined(seq![first], sep) == first,
        rest.len() > 0 ==> joined(seq![first] + rest, sep) == first + sep + joined(rest, sep),
    decreases rest.len(),
{
    let all = seq![first] + rest;
    if rest.len() == 1 {
        assert(all.drop_last() =~= seq![first]);
        assert(joined(all.drop_last(), sep) == first);
        assert(all.last() == rest[0]);
        assert(joined(all, sep) =~= first + sep + rest[0]);
    } else if rest.len() > 1 {
        law_join_puts_between(first, rest.drop_last(), sep);
        assert(all.drop_last() =~= seq![first] + rest.drop_last());
        assert(joined(all, sep) =~= first + sep + joined(rest, sep));
    }
}

/// Each part stands in what is joined.
pub proof fn law_joined_parts_are_found(parts: Seq<Seq<char>>, sep: Seq<char>, i: int)
    requires
        0 <= i < parts.len(),
    ensures
        exists|a: Seq<char>, b: Seq<char>| joined(parts, sep) == #[trigger] (a + parts[i] + b),
    decreases parts.len(),
{
    let none = Seq::<char>::empty();
    if parts.len() == 1 {
        assert(joined(parts, sep) =~= none + parts[i] + none);
    } else if i == parts.len() - 1 {
        assert(joined(parts, sep) =~= (joined(parts.drop_last(), sep) + sep) + parts[i] + none);
    } else {
        let earlier = parts.drop_last();
        law_joined_parts_are_found(earlier, sep, i);
        let (a, b) = choose|a: Seq<char>, b: Seq<char>| joined(earlier, sep) == #[trigger] (a + earlier[i] + b);
        assert(joined(parts, sep) =~= a + parts[i] + (b + sep + parts.last()));
    }
}

/// The parts stand in what is joined in their order.
pub proof fn law_joined_parts_keep_order(parts: Seq<Seq<char>>, sep: Seq<char>, i: int, j: int)
    requires
        0 <= i < j < parts.len(),
    ensures
        exists|a: Seq<char>, b: Seq<char>, c: Seq<char>|
            joined(parts, sep) == #[trigger] (a + parts[i] + b + parts[j] + c),
    decreases parts.len(),
{
    let earlier = parts.drop_last();
    if j == parts.len() - 1 {
        law_joined_parts_are_found(earlier, sep, i);
        let (a, b) = choose|a: Seq<char>, b: Seq<char>| joined(earlier, sep) == #[trigger] (a + earlier[i] + b);
        let none = Seq::<char>::empty();
        assert(joined(parts, sep) =~= a + parts[i] + (b + sep) + parts[j] + none);
    } else {
        law_joined_parts_keep_order(earlier, sep, i, j);
        let (a, b, c) = choose|a: Seq<char>, b: Seq<char>, c: Seq<char>|
            joined(earlier, sep) == #[trigger] (a + earlier[i] + b + earlier[j] + c);
        assert(joined(parts, sep) =~= a + parts[i] + b + parts[j] + (c + sep + parts.last()));
    }
}

/// The decimal text of a number ends with its last digit; before it stands the text of the number
/// without that digit, and nothing where no other digit is left.
pub proof fn law_decimal_digits(n: nat, d: nat)
    requires
        d < 10,
    ensures
        decimal(d).len() == 1,
        decimal(d)[0] as u32 == '0' as u32 + d,
        n > 0 ==> decimal(n * 10 + d) == decimal(n) + decimal(d),
{
    if n > 0 {
        assert((n * 10 + d) / 10 == n && (n * 10 + d) % 10 == d);
        assert(decimal(n * 10 + d) =~= decimal(n) + decimal(d));
    }
}

/// The number that is read from the decimal text of a number is that number, unless it is too
/// large.
pub proof fn law_decimal_is_read_back(n: nat, max: nat)
    ensures
        parsed_number(decimal(n), max) == (if n <= max {
            Some(n)
        } else {
            None
        }),
        decimal(n).len() > 0,
        all_digits(decimal(n)),
{
    lemma_decimal_value(n);
    assert(is_ascii_digit(decimal(n)[0]));
    assert(without_plus(decimal(n)) == decimal(n));
}

proof fn lemma_decimal_value(n: nat)
    ensures
        decimal(n).len() > 0,
        all_digits(decimal(n)),
        digits_value(decimal(n)) == n,
    decreases n,
{
    let s = decimal(n);
    if n >= 10 {
        lemma_decimal_value(n / 10);
        assert(s.drop_last() =~= decimal(n / 10));
        assert forall|i: int| 0 <= i < s.len() implies is_ascii_digit(#[trigger] s[i]) by {
            if i < s.len() - 1 {
                assert(s[i] == decimal(n / 10)[i]);
            }
        }
    } else {
        assert(s.drop_last() =~= Seq::<char>::empty());
        assert(digits_value(s.drop_last()) == 0);
    }
}

/// One text comes before another exactly where, behind what they begin with together, it ends or
/// has the smaller character.
pub proof fn law_order_of_texts(a: Seq<char>, b: Seq<char>)
    ensures
        before(a, b) <==> exists|k: int|
            #![trigger a.take(k)]
            0 <= k <= a.len() && k < b.len() && a.take(k) == b.take(k) && (k == a.len() || a[k] < b[k]),
    decreases a.len(),
{
    if b.len() == 0 {
    } else if a.len() == 0 {
        assert(a.take(0) =~= b.take(0));
    } else if a[0] != b[0] {
        if a[0] < b[0] {
            assert(a.take(0) =~= b.take(0));
        } else if exists|k: int|
            #![trigger a.take(k)]
            0 <= k <= a.len() && k < b.len() && a.take(k) == b.take(k) && (k == a.len() || a[k] < b[k]) {
            let k = choose|k: int|
                #![trigger a.take(k)]
                0 <= k <= a.len() && k < b.len() && a.take(k) == b.take(k) && (k == a.len() || a[k] < b[k]);
            if k > 0 {
                assert(a.take(k)[0] == a[0] && b.take(k)[0] == b[0]);
            }
        }
    } else {
        let x = a.skip(1);
        let y = b.skip(1);
        law_order_of_texts(x, y);
        if before(x, y) {
            let k = choose|k: int|
                #![trigger x.take(k)]
                0 <= k <= x.len() && k < y.len() && x.take(k) == y.take(k) && (k == x.len() || x[k] < y[k]);
            assert(a.take(k + 1) =~= seq![a[0]] + x.take(k));
            assert(b.take(k + 1) =~= seq![b[0]] + y.take(k));
        } else if exists|k: int|
            #![trigger a.take(k)]
            0 <= k <= a.len() && k < b.len() && a.take(k) == b.take(k) && (k == a.len() || a[k] < b[k]) {
            let k = choose|k: int|
                #![trigger a.take(k)]
                0 <= k <= a.len() && k < b.len() && a.take(k) == b.take(k) && (k == a.len() || a[k] < b[k]);
            assert(k > 0);
            assert(x.take(k - 1) =~= a.take(k).skip(1));
            assert(y.take(k - 1) =~= b.take(k).skip(1));
            assert(before(x, y));
        }
    }
}

/// A separator parts a text in two: the parts of the whole are the parts of what stands before it
/// and then the parts of what stands behind it. A text without it is its only part.
pub proof fn law_split_at_a_separator(a: Seq<char>, b: Seq<char>, ch: char)
    ensures
        split(a + seq![ch] + b, ch) == split(a, ch) + split(b, ch),
        !a.contains(ch) ==> split(a, ch) == seq![a],
    decreases a.len(),
{
    lemma_find(a, ch);
    let at = find(a, ch);
    let s = a + seq![ch] + b;
    if at < a.len() {
        let rest = a.skip(at + 1);
        law_split_at_a_separator(rest, b, ch);
        lemma_find_is(s, ch, at);
        assert(s.take(at) =~= a.take(at));
        assert(s.skip(at + 1) =~= rest + seq![ch] + b);
        assert(a.contains(a[at]));
        assert(split(s, ch) =~= split(a, ch) + split(b, ch));
    } else {
        lemma_find_is(s, ch, a.len() as int);
        assert(s.take(a.len() as int) =~= a);
        assert(s.skip(a.len() as int + 1) =~= b);
        assert(a.take(a.len() as int) =~= a);
        assert(split(a, ch) =~= seq![a]);
        assert(split(s, ch) =~= split(a, ch) + split(b, ch));
    }
}

/// The first place of a character is where it stands behind a text without it.
pub proof fn law_first_place(a: Seq<char>, b: Seq<char>, ch: char)
    requires
        !a.contains(ch),
    ensures
        find(a, ch) == a.len(),
        find(a + seq![ch] + b, ch) == a.len(),
        (a + seq![ch] + b).take(a.len() as int) == a,
        (a + seq![ch] + b).skip(a.len() as int + 1) == b,
{
    assert forall|k: int| 0 <= k < a.len() implies a[k] != ch by {
        assert(a.contains(a[k]));
    }
    lemma_find_is(a, ch, a.len() as int);
    lemma_find_is(a + seq![ch] + b, ch, a.len() as int);
    assert((a + seq![ch] + b).take(a.len() as int) =~= a);
    assert((a + seq![ch] + b).skip(a.len() as int + 1) =~= b);
}

/// What surrounds a text is cut off where the text itself neither begins nor ends with it.
pub proof fn law_trim_between(before: Seq<char>, s: Seq<char>, after: Seq<char>, p: spec_fn(char) -> bool)
    requires
        forall|k: int| 0 <= k < before.len() ==> p(#[trigger] before[k]),
        forall|k: int| 0 <= k < after.len() ==> p(#[trigger] after[k]),
        s.len() > 0 && !p(s[0]) && !p(s.last()),
    ensures
        trim_both(before + s + after, p) == s,
{
    let w = before + s + after;
    let i = before.len() as int;
    let j = i + s.len();
    assert forall|k: int| 0 <= k < i implies p(#[trigger] w[k]) by {
        assert(w[k] == before[k]);
    }
    assert forall|k: int| j <= k < w.len() implies p(#[trigger] w[k]) by {
        assert(w[k] == after[k - j]);
    }
    assert(w[i] == s[0] && w[j - 1] == s.last());
    lemma_trim_both_range(w, p, i, j);
    assert(w.subrange(i, j) =~= s);
}

/// Parts without the separator are found again, in their order, in what was joined from them.
pub proof fn law_joined_parts_are_split_again(parts: Seq<Seq<char>>, ch: char)
    requires
        parts.len() > 0,
        forall|i: int| 0 <= i < parts.len() ==> !(#[trigger] parts[i]).contains(ch),
    ensures
        split(joined(parts, seq![ch]), ch) == parts,
    decreases parts.len(),
{
    if parts.len() == 1 {
        assert(joined(parts, seq![ch]) =~= parts[0]);
        law_split_at_a_separator(parts[0], parts[0], ch);
        assert(parts =~= seq![parts[0]]);
    } else {
        let earlier = parts.drop_last();
        assert forall|i: int| 0 <= i < earlier.len() implies !(#[trigger] earlier[i]).contains(ch) by {
            assert(earlier[i] == parts[i]);
        }
        law_joined_parts_are_split_again(earlier, ch);
        law_split_at_a_separator(joined(earlier, seq![ch]), parts.last(), ch);
        law_split_at_a_separator(parts.last(), parts.last(), ch);
        assert(joined(parts, seq![ch]) =~= joined(earlier, seq![ch]) + seq![ch] + parts.last());
        assert(parts =~= earlier + seq![parts.last()]);
    }
}

} // verus!
