//! Paths of files as texts: their parts, what they are within, and what they normalize to.
use crate::text::{
    cat, cat3, find, from_range, join, joined, opt_text, same, split, split_at_char, texts, to_chars,
};
use vstd::prelude::*;

verus! {

broadcast use vstd::seq::group_seq_axioms;

pub open spec fn absolute(path: Seq<char>) -> bool {
    path.len() > 0 && path[0] == '/'
}

/// A path within another; an absolute one stands for itself.
pub open spec fn joined_path(base: Seq<char>, path: Seq<char>) -> Seq<char> {
    if absolute(path) {
        path
    } else if base.len() > 0 && base.last() != '/' {
        base + "/"@ + path
    } else {
        base + path
    }
}

/// A part of a path that names something: not empty, and not the current directory.
pub open spec fn names(part: Seq<char>) -> bool {
    part.len() > 0 && part != "."@
}

/// The parts that name something.
pub open spec fn named(parts: Seq<Seq<char>>) -> Seq<Seq<char>>
    decreases parts.len(),
{
    if parts.len() == 0 {
        parts
    } else if names(parts.last()) {
        named(parts.drop_last()).push(parts.last())
    } else {
        named(parts.drop_last())
    }
}

/// The parts of a path.
pub open spec fn parts_of(path: Seq<char>) -> Seq<Seq<char>> {
    named(split(path, '/'))
}

/// The name of the file that a path leads to.
pub open spec fn file_name_of(path: Seq<char>) -> Option<Seq<char>> {
    let parts = parts_of(path);
    if parts.len() > 0 && parts.last() != ".."@ {
        Some(parts.last())
    } else {
        None
    }
}

/// Where the last dot stands; -1 where there is none.
pub open spec fn last_index(s: Seq<char>, ch: char) -> int
    decreases s.len(),
{
    if s.len() == 0 {
        -1
    } else if s.last() == ch {
        s.len() - 1
    } else {
        last_index(s.drop_last(), ch)
    }
}

/// What stands behind the last dot of a file's name, where the dot does not begin it.
pub open spec fn extension_of(path: Seq<char>) -> Option<Seq<char>> {
    match file_name_of(path) {
        None => None,
        Some(name) => if last_index(name, '.') > 0 {
            Some(name.skip(last_index(name, '.') + 1))
        } else {
            None
        },
    }
}

/// The path without separators and current-directory parts at its end.
pub open spec fn without_tail(s: Seq<char>) -> Seq<char>
    decreases s.len(),
{
    if s.len() > 1 && s.last() == '/' {
        without_tail(s.drop_last())
    } else if s.len() > 1 && s.last() == '.' && s[s.len() - 2] == '/' {
        without_tail(s.drop_last())
    } else {
        s
    }
}

/// The path of the directory that a path is in.
pub open spec fn parent_of(path: Seq<char>) -> Option<Seq<char>> {
    let t = without_tail(path);
    if t.len() == 0 || t == seq!['/'] {
        None
    } else {
        Some(without_tail(t.take(last_index(t, '/') + 1)))
    }
}

/// The parts of a path with every step up taken as far as it goes.
pub open spec fn resolved(parts: Seq<Seq<char>>) -> Seq<Seq<char>>
    decreases parts.len(),
{
    if parts.len() == 0 {
        parts
    } else if parts.last() == ".."@ && resolved(parts.drop_last()).len() > 0 {
        resolved(parts.drop_last()).drop_last()
    } else {
        resolved(parts.drop_last()).push(parts.last())
    }
}

/// A path by its parts.
pub struct LexicalPath {
    pub absolute: bool,
    pub parts: Vec<String>,
}

/// What a path by its parts is.
#[verifier::ext_equal]
pub struct PathModel {
    pub absolute: bool,
    pub parts: Seq<Seq<char>>,
}

/// What a path normalizes to.
pub open spec fn normalized(path: Seq<char>) -> PathModel {
    PathModel { absolute: absolute(path), parts: resolved(parts_of(path)) }
}

impl PathModel {
    /// The text of the path.
    pub open spec fn text(self) -> Seq<char> {
        if self.absolute {
            "/"@ + joined(self.parts, "/"@)
        } else {
            joined(self.parts, "/"@)
        }
    }

    /// The path is the other, or lies within it.
    pub open spec fn within(self, base: PathModel) -> bool {
        ||| !base.absolute && base.parts.len() == 0
        ||| self.absolute == base.absolute && base.parts.len() <= self.parts.len()
            && self.parts.take(base.parts.len() as int) == base.parts
    }
}

impl LexicalPath {
    /// What the path is.
    pub open spec fn view(&self) -> PathModel {
        PathModel { absolute: self.absolute, parts: texts(self.parts@) }
    }

    /// The text of the path.
    pub fn to_text(&self) -> (r: String)
        ensures
            r@ == self@.text(),
    {
        let body = join(&self.parts, "/");
        if self.absolute {
            cat("/", body.as_str())
        } else {
            body
        }
    }

    /// Whether the path is the other, or lies within it.
    pub fn is_within(&self, base: &LexicalPath) -> (r: bool)
        ensures
            r == self@.within(base@),
    {
        if !base.absolute && base.parts.len() == 0 {
            return true;
        }
        if self.absolute != base.absolute || self.parts.len() < base.parts.len() {
            return false;
        }
        let mut i: usize = 0;
        while i < base.parts.len()
            invariant
                i <= base.parts@.len() <= self.parts@.len(),
                forall|k: int| 0 <= k < i ==> #[trigger] self.parts@[k]@ == base.parts@[k]@,
            decreases base.parts@.len() - i,
        {
            if !same(self.parts[i].as_str(), base.parts[i].as_str()) {
                assert(texts(self.parts@).take(base.parts@.len() as int)[i as int]
                    != texts(base.parts@)[i as int]);
                return false;
            }
            i = i + 1;
        }
        assert(texts(self.parts@).take(base.parts@.len() as int) =~= texts(base.parts@));
        true
    }
}

/// Whether a path is absolute.
pub fn is_absolute(path: &str) -> (r: bool)
    ensures
        r == absolute(path@),
{
    let chars = to_chars(path);
    chars.len() > 0 && chars[0] == '/'
}

/// A path within another; an absolute one stands for itself.
pub fn join_path(base: &str, path: &str) -> (r: String)
    ensures
        r@ == joined_path(base@, path@),
{
    if is_absolute(path) {
        return path.to_owned();
    }
    let chars = to_chars(base);
    if chars.len() > 0 && chars[chars.len() - 1] != '/' {
        cat3(base, "/", path)
    } else {
        cat(base, path)
    }
}

/// The parts of a path.
pub fn path_parts(path: &str) -> (r: Vec<String>)
    ensures
        texts(r@) == parts_of(path@),
{
    let raw = split_at_char(path, '/');
    let mut out: Vec<String> = Vec::new();
    let mut i: usize = 0;
    assert(texts(raw@).take(0) =~= Seq::<Seq<char>>::empty());
    assert(texts(out@) =~= Seq::<Seq<char>>::empty());
    while i < raw.len()
        invariant
            i <= raw@.len(),
            texts(out@) == named(texts(raw@).take(i as int)),
        decreases raw@.len() - i,
    {
        let part = &raw[i];
        let ghost kept_parts = out@;
        if !part.as_str().is_empty() && !same(part.as_str(), ".") {
            out.push(part.clone());
            assert(texts(out@) =~= texts(kept_parts).push(raw@[i as int]@));
        }
        i = i + 1;
        proof {
            let t = texts(raw@).take(i as int);
            assert(t.drop_last() =~= texts(raw@).take(i - 1));
            assert(t.last() == raw@[i - 1]@);
        }
    }
    assert(texts(raw@).take(i as int) =~= texts(raw@));
    out
}

/// The name of the file that a path leads to.
pub fn file_name(path: &str) -> (r: Option<String>)
    ensures
        opt_text(r) == file_name_of(path@),
{
    let parts = path_parts(path);
    assert(texts(parts@).len() == parts@.len());
    if parts.len() > 0 {
        let last = &parts[parts.len() - 1];
        assert(texts(parts@).last() == last@);
        if !same(last.as_str(), "..") {
            return Some(last.clone());
        }
    }
    None
}

/// How many characters there are up to and with the last `ch`; zero where there is none.
fn through_last(chars: &Vec<char>, ch: char) -> (r: usize)
    ensures
        r == last_index(chars@, ch) + 1,
        r <= chars@.len(),
{
    let mut i: usize = chars.len();
    assert(chars@.take(i as int) =~= chars@);
    while i > 0 && chars[i - 1] != ch
        invariant
            i <= chars@.len(),
            last_index(chars@, ch) == last_index(chars@.take(i as int), ch),
        decreases i,
    {
        assert(chars@.take(i as int).drop_last() =~= chars@.take(i - 1));
        i = i - 1;
    }
    i
}

/// What stands behind the last dot of a file's name, where the dot does not begin it.
pub fn extension(path: &str) -> (r: Option<String>)
    ensures
        opt_text(r) == extension_of(path@),
{
    match file_name(path) {
        None => None,
        Some(name) => {
            let chars = to_chars(name.as_str());
            let at: usize = through_last(&chars, '.');
            if at > 1 {
                let rest = from_range(&chars, at, chars.len());
                assert(rest@ =~= name@.skip(at as int));
                Some(rest)
            } else {
                None
            }
        },
    }
}

fn tail_end(chars: &Vec<char>, end: usize) -> (r: usize)
    requires
        end <= chars@.len(),
    ensures
        r <= end,
        chars@.take(r as int) == without_tail(chars@.take(end as int)),
{
    let mut n: usize = end;
    while n > 1 && (chars[n - 1] == '/' || (chars[n - 1] == '.' && chars[n - 2] == '/'))
        invariant
            n <= end <= chars@.len(),
            without_tail(chars@.take(n as int)) == without_tail(chars@.take(end as int)),
        decreases n,
    {
        assert(chars@.take(n as int).drop_last() =~= chars@.take(n - 1));
        n = n - 1;
    }
    n
}

/// The path of the directory that a path is in.
pub fn parent(path: &str) -> (r: Option<String>)
    ensures
        opt_text(r) == parent_of(path@),
{
    let chars = to_chars(path);
    assert(chars@.take(chars@.len() as int) =~= chars@);
    let n: usize = tail_end(&chars, chars.len());
    if n == 0 {
        return None;
    }
    if n == 1 && chars[0] == '/' {
        assert(chars@.take(1) =~= seq!['/']);
        return None;
    }
    let mut i: usize = n;
    let ghost t = chars@.take(n as int);
    assert(t.take(n as int) =~= t);
    while i > 0 && chars[i - 1] != '/'
        invariant
            i <= n <= chars@.len(),
            t == chars@.take(n as int),
            last_index(t, '/') == last_index(t.take(i as int), '/'),
        decreases i,
    {
        assert(t.take(i as int).drop_last() =~= t.take(i - 1));
        i = i - 1;
    }
    proof {
        assert(t.take(i as int) =~= chars@.take(i as int));
        assert(i == last_index(t, '/') + 1);
        assert(n == 1 ==> t =~= seq![chars@[0]]);
        assert(t != seq!['/']) by {
            if n != 1 {
                assert(t.len() == n);
            } else {
                assert(t[0] == chars@[0]);
            }
        }
    }
    let end: usize = tail_end(&chars, i);
    let out = from_range(&chars, 0, end);
    assert(out@ =~= chars@.take(end as int));
    Some(out)
}

/// The path with every step up taken as far as it goes.
pub fn normalize_lexical_path(path: &str) -> (r: LexicalPath)
    ensures
        r@ == normalized(path@),
{
    let raw = path_parts(path);
    let mut out: Vec<String> = Vec::new();
    let mut i: usize = 0;
    assert(texts(raw@).take(0) =~= Seq::<Seq<char>>::empty());
    assert(texts(out@) =~= Seq::<Seq<char>>::empty());
    while i < raw.len()
        invariant
            i <= raw@.len(),
            texts(out@) == resolved(texts(raw@).take(i as int)),
        decreases raw@.len() - i,
    {
        let part = &raw[i];
        let ghost so_far = out@;
        assert(texts(so_far).len() == so_far.len());
        if same(part.as_str(), "..") && out.len() > 0 {
            let _ = out.pop();
            assert(texts(out@) =~= texts(so_far).drop_last());
        } else {
            out.push(part.clone());
            assert(texts(out@) =~= texts(so_far).push(raw@[i as int]@));
        }
        i = i + 1;
        proof {
            let t = texts(raw@).take(i as int);
            assert(t.drop_last() =~= texts(raw@).take(i - 1));
            assert(t.last() == raw@[i - 1]@);
        }
    }
    assert(texts(raw@).take(i as int) =~= texts(raw@));
    LexicalPath { absolute: is_absolute(path), parts: out }
}

/// The path by its parts, as it stands.
pub fn lexical_path(path: &str) -> (r: LexicalPath)
    ensures
        r@ == (PathModel { absolute: absolute(path@), parts: parts_of(path@) }),
{
    LexicalPath { absolute: is_absolute(path), parts: path_parts(path) }
}

/// The path that a relative one means in a directory; itself where there is no directory.
pub open spec fn absolutized(path: Seq<char>, cwd: Option<Seq<char>>) -> Seq<char> {
    if absolute(path) || cwd is None {
        path
    } else {
        joined_path(cwd->0, path)
    }
}

/// The path that a relative one means in a directory.
pub fn absolutize_path(path: &str, cwd: Option<&str>) -> (r: String)
    ensures
        r@ == absolutized(
            path@,
            match cwd {
                Some(c) => Some(c@),
                None => None,
            },
        ),
{
    if is_absolute(path) {
        return path.to_owned();
    }
    match cwd {
        Some(cwd) => join_path(cwd, path),
        None => path.to_owned(),
    }
}

// ---------------------------------------------------------------------------------------------
// Laws
// ---------------------------------------------------------------------------------------------
/// Parts of a path: each names something, and none holds a separator.
pub open spec fn clean(parts: Seq<Seq<char>>) -> bool {
    forall|i: int| #![trigger parts[i]] 0 <= i < parts.len() ==> names(parts[i]) && !parts[i].contains('/')
}

pub proof fn lemma_split_has_no_separator(s: Seq<char>, ch: char)
    ensures
        forall|i: int| #![trigger split(s, ch)[i]] 0 <= i < split(s, ch).len() ==> !split(s, ch)[i].contains(ch),
    decreases s.len(),
{
    crate::text::lemma_find(s, ch);
    let f = find(s, ch);
    if f < s.len() {
        lemma_split_has_no_separator(s.skip(f + 1), ch);
        let rest = split(s.skip(f + 1), ch);
        let all = split(s, ch);
        assert(all == seq![s.take(f)] + rest);
        assert forall|i: int| #![trigger all[i]] 0 <= i < all.len() implies !all[i].contains(ch) by {
            if i == 0 {
                assert(all[0] == s.take(f));
                if s.take(f).contains(ch) {
                    let k = choose|k: int| 0 <= k < f && s.take(f)[k] == ch;
                    assert(s[k] == ch);
                }
            } else {
                assert(all[i] == rest[i - 1]);
            }
        }
    } else {
        let all = split(s, ch);
        assert(all =~= seq![s]);
        if s.contains(ch) {
            let k = choose|k: int| 0 <= k < s.len() && s[k] == ch;
            assert(s[k] != ch);
        }
        assert forall|i: int| #![trigger all[i]] 0 <= i < all.len() implies !all[i].contains(ch) by {
            assert(all[i] == s);
        }
    }
}

proof fn lemma_named_is_clean(parts: Seq<Seq<char>>)
    requires
        forall|i: int| #![trigger parts[i]] 0 <= i < parts.len() ==> !parts[i].contains('/'),
    ensures
        clean(named(parts)),
    decreases parts.len(),
{
    if parts.len() > 0 {
        let shorter = parts.drop_last();
        assert forall|i: int| #![trigger shorter[i]] 0 <= i < shorter.len() implies !shorter[i].contains('/') by {
            assert(shorter[i] == parts[i]);
        }
        lemma_named_is_clean(shorter);
        assert(!parts[parts.len() - 1].contains('/'));
    }
}

/// The parts of a path are clean.
pub proof fn lemma_parts_are_clean(path: Seq<char>)
    ensures
        clean(parts_of(path)),
{
    lemma_split_has_no_separator(path, '/');
    lemma_named_is_clean(split(path, '/'));
}

proof fn lemma_resolved_is_clean(parts: Seq<Seq<char>>)
    requires
        clean(parts),
    ensures
        clean(resolved(parts)),
        forall|i: int| #![trigger resolved(parts)[i]] 1 <= i < resolved(parts).len() ==> resolved(parts)[i] != ".."@,
    decreases parts.len(),
{
    if parts.len() > 0 {
        let shorter = parts.drop_last();
        assert forall|i: int| #![trigger shorter[i]] 0 <= i < shorter.len() implies names(shorter[i]) && !shorter[i].contains('/') by {
            assert(shorter[i] == parts[i]);
        }
        lemma_resolved_is_clean(shorter);
        assert(names(parts[parts.len() - 1]));
        let r = resolved(shorter);
        if parts.last() == ".."@ && r.len() > 0 {
            let d = r.drop_last();
            assert forall|i: int| #![trigger d[i]] 0 <= i < d.len() implies names(d[i]) && !d[i].contains('/') by {
                assert(d[i] == r[i]);
            }
        }
    }
}

/// Parts with a step up at most in front resolve to themselves.
proof fn lemma_resolved_fixed(parts: Seq<Seq<char>>)
    requires
        forall|i: int| #![trigger parts[i]] 1 <= i < parts.len() ==> parts[i] != ".."@,
    ensures
        resolved(parts) == parts,
    decreases parts.len(),
{
    if parts.len() > 0 {
        let shorter = parts.drop_last();
        assert forall|i: int| #![trigger shorter[i]] 1 <= i < shorter.len() implies shorter[i] != ".."@ by {
            assert(shorter[i] == parts[i]);
        }
        lemma_resolved_fixed(shorter);
        assert(parts[parts.len() - 1] == parts.last());
        assert(shorter.push(parts.last()) =~= parts);
    }
}

proof fn lemma_find_in(s: Seq<char>, ch: char, n: int)
    requires
        0 <= n <= s.len(),
        !s.take(n).contains(ch),
        n < s.len() ==> s[n] == ch,
    ensures
        find(s, ch) == n,
{
    crate::text::lemma_find(s, ch);
    let f = find(s, ch);
    if f < n {
        assert(s.take(n)[f] == ch);
        assert(s.take(n).contains(ch));
    } else if n < f {
        assert(s[n] != ch);
    }
}

/// Texts that hold no separator come apart again as they were put together.
pub proof fn lemma_split_joined(parts: Seq<Seq<char>>)
    requires
        parts.len() > 0,
        forall|i: int| #![trigger parts[i]] 0 <= i < parts.len() ==> !parts[i].contains('/'),
    ensures
        split(joined(parts, "/"@), '/') == parts,
    decreases parts.len(),
{
    reveal_strlit("/");
    assert("/"@ =~= seq!['/']);
    if parts.len() == 1 {
        let s = parts[0];
        assert(s.take(s.len() as int) =~= s);
        lemma_find_in(s, '/', s.len() as int);
        assert(split(s, '/') =~= parts);
    } else {
        lemma_joined_first(parts);
        let first = parts[0];
        let rest = parts.skip(1);
        assert forall|i: int| #![trigger rest[i]] 0 <= i < rest.len() implies !rest[i].contains('/') by {
            assert(rest[i] == parts[i + 1]);
        }
        lemma_split_joined(rest);
        let s = joined(parts, "/"@);
        let n = first.len() as int;
        assert(s.take(n) =~= first);
        assert(s[n] == '/');
        lemma_find_in(s, '/', n);
        assert(s.skip(n + 1) =~= joined(rest, "/"@));
        assert(split(s, '/') =~= seq![first] + rest);
        assert(seq![first] + rest =~= parts);
    }
}

/// A joined text begins with its first part.
proof fn lemma_joined_first(parts: Seq<Seq<char>>)
    requires
        parts.len() > 1,
    ensures
        joined(parts, "/"@) == parts[0] + "/"@ + joined(parts.skip(1), "/"@),
    decreases parts.len(),
{
    let sep = "/"@;
    let shorter = parts.drop_last();
    let rest = parts.skip(1);
    if parts.len() == 2 {
        assert(shorter.len() == 1);
        assert(joined(shorter, sep) == parts[0]);
        assert(joined(rest, sep) == parts[1]);
    } else {
        lemma_joined_first(shorter);
        assert(shorter.skip(1) =~= rest.drop_last());
        assert(joined(rest, sep) == joined(rest.drop_last(), sep) + sep + rest.last());
        assert(joined(parts, sep) =~= parts[0] + sep + joined(rest, sep));
    }
}

proof fn lemma_named_fixed(parts: Seq<Seq<char>>)
    requires
        clean(parts),
    ensures
        named(parts) == parts,
    decreases parts.len(),
{
    if parts.len() > 0 {
        let shorter = parts.drop_last();
        assert forall|i: int| #![trigger shorter[i]] 0 <= i < shorter.len() implies names(shorter[i]) && !shorter[i].contains('/') by {
            assert(shorter[i] == parts[i]);
        }
        lemma_named_fixed(shorter);
        assert(names(parts[parts.len() - 1]));
        assert(shorter.push(parts.last()) =~= parts);
    }
}

/// The text of clean parts has those parts.
pub proof fn lemma_parts_of_text(path: PathModel)
    requires
        clean(path.parts),
    ensures
        parts_of(path.text()) == path.parts,
        absolute(path.text()) == path.absolute,
{
    reveal_strlit("/");
    let body = joined(path.parts, "/"@);
    if path.parts.len() == 0 {
        lemma_find_in(Seq::<char>::empty(), '/', 0);
        assert(split(Seq::<char>::empty(), '/') =~= seq![Seq::<char>::empty()]);
        let one = seq![Seq::<char>::empty()];
        assert(one.drop_last() =~= Seq::<Seq<char>>::empty());
        assert(named(one.drop_last()) =~= one.drop_last());
        assert(one.last().len() == 0);
        assert(named(one) =~= Seq::<Seq<char>>::empty());
        if path.absolute {
            let s = path.text();
            assert(s =~= seq!['/']);
            assert(s.take(0) =~= Seq::<char>::empty());
            lemma_find_in(s, '/', 0);
            assert(s.skip(1) =~= Seq::<char>::empty());
            let two = split(s, '/');
            assert(two =~= seq![Seq::<char>::empty(), Seq::<char>::empty()]);
            assert(two.drop_last() =~= one);
            assert(named(two) =~= Seq::<Seq<char>>::empty());
        } else {
            assert(path.text() =~= Seq::<char>::empty());
        }
    } else {
        assert forall|i: int| #![trigger path.parts[i]] 0 <= i < path.parts.len() implies !path.parts[i].contains('/') by {
        }
        lemma_split_joined(path.parts);
        lemma_named_fixed(path.parts);
        lemma_joined_starts(path.parts);
        if path.absolute {
            let s = path.text();
            assert(s =~= seq!['/'] + body);
            assert(s.take(0) =~= Seq::<char>::empty());
            lemma_find_in(s, '/', 0);
            assert(s.skip(1) =~= body);
            assert(split(s, '/') =~= seq![Seq::<char>::empty()] + path.parts);
            lemma_named_of_blank_first(path.parts);
        }
    }
}

proof fn lemma_joined_starts(parts: Seq<Seq<char>>)
    requires
        parts.len() > 0,
        clean(parts),
    ensures
        joined(parts, "/"@).len() > 0,
        joined(parts, "/"@)[0] != '/',
{
    assert(names(parts[0]) && !parts[0].contains('/'));
    assert(parts[0][0] != '/') by {
        if parts[0][0] == '/' {
            assert(parts[0].contains('/'));
        }
    }
    if parts.len() > 1 {
        lemma_joined_first(parts);
    }
}

/// A text joined of parts that are not empty and hold no separator has none at its ends.
pub proof fn lemma_joined_ends(parts: Seq<Seq<char>>)
    requires
        parts.len() > 0,
        forall|i: int| #![trigger parts[i]] 0 <= i < parts.len() ==> crate::text::kept(parts[i]) is Some && !parts[i].contains('/'),
    ensures
        joined(parts, "/"@).len() > 0,
        joined(parts, "/"@)[0] != '/',
        joined(parts, "/"@).last() != '/',
{
    let first = parts[0];
    let last = parts[parts.len() - 1];
    assert(crate::text::kept(first) is Some && crate::text::kept(last) is Some);
    crate::text::lemma_trim_both_shape(first, |c: char| crate::text::is_white_space(c));
    crate::text::lemma_trim_both_shape(last, |c: char| crate::text::is_white_space(c));
    assert(first[0] != '/') by {
        if first[0] == '/' {
            assert(first.contains('/'));
        }
    }
    assert(last[last.len() - 1] != '/') by {
        if last[last.len() - 1] == '/' {
            assert(last.contains('/'));
        }
    }
    if parts.len() > 1 {
        lemma_joined_first(parts);
    }
}

proof fn lemma_named_of_blank_first(parts: Seq<Seq<char>>)
    ensures
        named(seq![Seq::<char>::empty()] + parts) == named(parts),
    decreases parts.len(),
{
    let all = seq![Seq::<char>::empty()] + parts;
    if parts.len() == 0 {
        assert(all.drop_last() =~= Seq::<Seq<char>>::empty());
        assert(all.last().len() == 0);
        assert(named(all.drop_last()) =~= all.drop_last());
        assert(named(parts) =~= Seq::<Seq<char>>::empty());
        assert(named(all) =~= Seq::<Seq<char>>::empty());
    } else {
        assert(all.drop_last() =~= seq![Seq::<char>::empty()] + parts.drop_last());
        lemma_named_of_blank_first(parts.drop_last());
    }
}

/// Normalizing the text of a normalized path changes nothing.
pub proof fn law_normalize_is_idempotent(path: Seq<char>)
    ensures
        normalized(normalized(path).text()) == normalized(path),
{
    let n = normalized(path);
    lemma_parts_are_clean(path);
    lemma_resolved_is_clean(parts_of(path));
    lemma_parts_of_text(n);
    lemma_resolved_fixed(n.parts);
}

/// A relative path within a directory is the directory, a slash and the path, with one slash where the
/// directory ends in one; an absolute path stays.
pub proof fn law_joining_paths(base: &str, path: &str, r: String)
    requires
        call_ensures(join_path, (base, path), r),
    ensures
        path@.len() > 0 && path@[0] == '/' ==> r@ == path@,
        !(path@.len() > 0 && path@[0] == '/') && base@.len() > 0 && base@.last() != '/' ==> r@ == base@
            + seq!['/'] + path@,
        !(path@.len() > 0 && path@[0] == '/') && base@.len() > 0 && base@.last() == '/' ==> r@ == base@
            + path@,
{
    reveal_strlit("/");
    assert("/"@ =~= seq!['/']);
}

/// A path lies within another exactly where it has the same beginning: both are absolute or both are
/// not, and each part of the other is its part at the same place. Everything lies within the empty
/// relative path.
pub proof fn law_lying_within(path: &LexicalPath, base: &LexicalPath, r: bool)
    requires
        call_ensures(LexicalPath::is_within, (path, base), r),
    ensures
        !base.absolute && base.parts@.len() == 0 ==> r,
        base.absolute || base.parts@.len() > 0 ==> (r <==> path.absolute == base.absolute
            && base.parts@.len() <= path.parts@.len() && forall|i: int|
            0 <= i < base.parts@.len() ==> (#[trigger] path.parts@[i])@ == base.parts@[i]@),
{
    let p = texts(path.parts@);
    let b = texts(base.parts@);
    if r && (base.absolute || base.parts@.len() > 0) {
        assert forall|i: int| 0 <= i < base.parts@.len() implies (#[trigger] path.parts@[i])@ == base.parts@[i]@ by {
            assert(p.take(b.len() as int)[i] == b[i]);
        }
    }
    if base.parts@.len() <= path.parts@.len() && forall|i: int|
        0 <= i < base.parts@.len() ==> (#[trigger] path.parts@[i])@ == base.parts@[i]@ {
        assert(p.take(b.len() as int) =~= b);
    }
}

/// A step up takes the name before it back; any other name is a step down and stays.
pub proof fn law_steps_up(parts: Seq<Seq<char>>, name: Seq<char>)
    requires
        name != ".."@,
    ensures
        resolved(parts.push(name)) == resolved(parts).push(name),
        resolved(parts.push(name).push(".."@)) == resolved(parts),
{
    let down = parts.push(name);
    assert(down.drop_last() =~= parts);
    let up = down.push(".."@);
    assert(up.drop_last() =~= down);
    assert(resolved(parts).push(name).drop_last() =~= resolved(parts));
}

/// A normalized path has no step up behind a name, and no part that is empty, names the current
/// directory or holds a slash.
pub proof fn law_normalized_paths(path: &str, r: LexicalPath, i: int)
    requires
        call_ensures(normalize_lexical_path, (path,), r),
        0 <= i < r.parts@.len(),
    ensures
        i > 0 ==> r.parts@[i]@ != ".."@,
        r.parts@[i]@.len() > 0,
        r.parts@[i]@ != "."@,
        !r.parts@[i]@.contains('/'),
        r.absolute == (path@.len() > 0 && path@[0] == '/'),
{
    lemma_parts_are_clean(path@);
    lemma_resolved_is_clean(parts_of(path@));
    lemma_steps_up_are_first(parts_of(path@));
    assert(texts(r.parts@)[i] == r.parts@[i]@);
    assert(resolved(parts_of(path@))[i] == r.parts@[i]@);
}

proof fn lemma_steps_up_are_first(parts: Seq<Seq<char>>)
    ensures
        forall|i: int| 0 < i < resolved(parts).len() ==> #[trigger] resolved(parts)[i] != ".."@,
    decreases parts.len(),
{
    if parts.len() > 0 {
        let earlier = resolved(parts.drop_last());
        lemma_steps_up_are_first(parts.drop_last());
        assert forall|i: int| 0 < i < resolved(parts).len() implies #[trigger] resolved(parts)[i] != ".."@ by {
            if i < earlier.len() {
                assert(resolved(parts)[i] == earlier[i]);
            }
        }
    }
}

/// The text of a list of clean names, joined with slashes, has those names as its parts.
pub proof fn law_parts_of_joined_names(parts: Seq<Seq<char>>, absolute: bool)
    requires
        forall|i: int|
            0 <= i < parts.len() ==> (#[trigger] parts[i]).len() > 0 && parts[i] != "."@
                && !parts[i].contains('/'),
    ensures
        parts_of((PathModel { absolute, parts }).text()) == parts,
{
    lemma_parts_of_text(PathModel { absolute, parts });
}

proof fn lemma_split_behind(a: Seq<char>, ch: char, b: Seq<char>)
    ensures
        split(a + seq![ch] + b, ch) == split(a, ch) + split(b, ch),
    decreases a.len(),
{
    let s = a + seq![ch] + b;
    crate::text::lemma_find(a, ch);
    crate::text::lemma_find(s, ch);
    let f = find(a, ch);
    assert forall|k: int| 0 <= k < f implies #[trigger] s[k] != ch by {
        assert(s[k] == a[k]);
    }
    if f < a.len() {
        assert(s[f] == ch);
        assert(find(s, ch) == f);
        assert(s.take(f) =~= a.take(f));
        let rest = a.skip(f + 1);
        lemma_split_behind(rest, ch, b);
        assert(s.skip(f + 1) =~= rest + seq![ch] + b);
        assert(split(s, ch) =~= split(a, ch) + split(b, ch));
    } else {
        assert(s[a.len() as int] == ch);
        assert(find(s, ch) == a.len());
        assert(s.take(a.len() as int) =~= a);
        assert(s.skip(a.len() as int + 1) =~= b);
        assert(split(s, ch) =~= split(a, ch) + split(b, ch));
    }
}

proof fn lemma_last_part(dir: Seq<char>, name: Seq<char>)
    requires
        names(name),
        !name.contains('/'),
    ensures
        parts_of(dir + seq!['/'] + name) == parts_of(dir).push(name),
        parts_of(name) == seq![name],
{
    lemma_split_behind(dir, '/', name);
    crate::text::lemma_find(name, '/');
    if find(name, '/') < name.len() {
        assert(name.contains('/'));
    }
    assert(split(name, '/') == seq![name]);
    let all = split(dir, '/') + seq![name];
    assert(all.drop_last() =~= split(dir, '/'));
    assert(all.last() == name);
    assert(seq![name].drop_last() =~= Seq::<Seq<char>>::empty());
    assert(named(Seq::<Seq<char>>::empty()) =~= Seq::<Seq<char>>::empty());
    assert(seq![name].last() == name);
    assert(named(seq![name]) =~= seq![name]);
}

/// The name of the file behind the last slash of a path is what stands there, and its extension what
/// stands behind the last dot of the name.
pub proof fn law_names_of_files(
    path: &str,
    found: Option<String>,
    found_extension: Option<String>,
    dir: Seq<char>,
    stem: Seq<char>,
    ending: Seq<char>,
)
    requires
        call_ensures(file_name, (path,), found),
        call_ensures(extension, (path,), found_extension),
        path@ == dir + seq!['/'] + (stem + seq!['.'] + ending) || path@ == stem + seq!['.'] + ending,
        stem.len() > 0,
        ending.len() > 0,
        !stem.contains('/'),
        !ending.contains('/'),
        !ending.contains('.'),
    ensures
        found is Some && found->0@ == stem + seq!['.'] + ending,
        found_extension is Some && found_extension->0@ == ending,
{
    let name = stem + seq!['.'] + ending;
    assert forall|k: int| 0 <= k < name.len() implies #[trigger] name[k] != '/' by {
        if k < stem.len() {
            assert(stem.contains(stem[k]));
        } else if k > stem.len() {
            assert(ending.contains(ending[k - stem.len() - 1]));
        }
    }
    reveal_strlit(".");
    reveal_strlit("..");
    assert(name.len() >= 3);
    lemma_last_part(dir, name);
    assert(parts_of(dir).push(name).last() == name);
    assert(seq![name].last() == name);
    lemma_last_index(stem, '.', ending);
    assert(name.skip(stem.len() as int + 1) =~= ending);
}

proof fn lemma_last_index(a: Seq<char>, ch: char, b: Seq<char>)
    requires
        !b.contains(ch),
    ensures
        last_index(a + seq![ch] + b, ch) == a.len(),
    decreases b.len(),
{
    let s = a + seq![ch] + b;
    if b.len() == 0 {
        assert(s.last() == ch);
    } else {
        assert(b.contains(b[b.len() - 1]));
        let d = b.drop_last();
        if d.contains(ch) {
            let k = choose|k: int| 0 <= k < d.len() && d[k] == ch;
            assert(b[k] == ch);
        }
        lemma_last_index(a, ch, d);
        assert(s.drop_last() =~= a + seq![ch] + d);
    }
}

/// The directory of a file is what stands before the last slash of its path.
pub proof fn law_directories_of_files(path: &str, r: Option<String>, dir: Seq<char>, name: Seq<char>)
    requires
        call_ensures(parent, (path,), r),
        path@ == dir + seq!['/'] + name,
        dir.len() > 0,
        dir.last() != '/' && dir.last() != '.',
        name.len() > 0,
        name.last() != '.',
        !name.contains('/'),
    ensures
        r is Some && r->0@ == dir,
{
    let s = dir + seq!['/'] + name;
    assert(name.contains(name[name.len() - 1]));
    assert(s.last() == name.last());
    assert(without_tail(s) == s);
    lemma_last_index(dir, '/', name);
    assert(s.take(dir.len() as int + 1) =~= dir + seq!['/']);
    let d = dir + seq!['/'];
    assert(d.drop_last() =~= dir);
    assert(without_tail(dir) == dir);
    reveal_with_fuel(without_tail, 3);
    assert(without_tail(d) == dir);
    assert(s != seq!['/']) by {
        assert(s.len() > 1);
    }
}

} // verus!
