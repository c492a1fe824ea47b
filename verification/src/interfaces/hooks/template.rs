//! Templates of hooks: texts with places that the request fills.
use crate::json::{fields, get_field, json_text_of, lemma_models, member, Json, JsonModel};
use crate::sorted_map::SortedMap;
use crate::text::{after_prefix, decimal, find, has_prefix, is_ascii_digit, is_white_space, law_decimal_is_read_back, lemma_trim_both_fixed, lemma_trimmed_range, find_from, from_range, kept, lemma_find, parse_number, parsed_number, same, split, split_at_char, strip_prefix, texts, to_chars, trim, trim_non_empty, trimmed};
use vstd::prelude::*;

verus! {

broadcast use vstd::seq::group_seq_axioms;

/// What a template can refer to.
pub struct HookTemplateContext<'a> {
    pub payload: &'a SortedMap<Json>,
    pub headers: &'a SortedMap<Json>,
    pub path: &'a str,
    pub query: &'a SortedMap<Json>,
    pub url: &'a str,
}

/// What a template can refer to.
pub struct ContextModel {
    pub payload: Map<Seq<char>, JsonModel>,
    pub headers: Map<Seq<char>, JsonModel>,
    pub path: Seq<char>,
    pub query: Map<Seq<char>, JsonModel>,
    pub url: Seq<char>,
}

impl<'a> HookTemplateContext<'a> {
    /// What the template can refer to.
    pub open spec fn view(&self) -> ContextModel {
        ContextModel {
            payload: fields(*self.payload),
            headers: fields(*self.headers),
            path: self.path@,
            query: fields(*self.query),
            url: self.url@,
        }
    }
}

/// A step into a value: to a member, or to an item.
pub enum TemplateSegment {
    Key(String),
    Index(usize),
}

/// A step into a value.
pub enum SegmentModel {
    Key(Seq<char>),
    Index(nat),
}

impl TemplateSegment {
    /// The step.
    pub open spec fn view(&self) -> SegmentModel {
        match self {
            TemplateSegment::Key(key) => SegmentModel::Key(key@),
            TemplateSegment::Index(index) => SegmentModel::Index(*index as nat),
        }
    }
}

/// The steps.
pub open spec fn segment_models(segments: Seq<TemplateSegment>) -> Seq<SegmentModel> {
    Seq::new(segments.len(), |i: int| segments[i]@)
}

/// A step to the member of that name, where the name is not blank.
pub open spec fn key_step(name: Seq<char>) -> Seq<SegmentModel> {
    match kept(name) {
        Some(key) => seq![SegmentModel::Key(key)],
        None => Seq::empty(),
    }
}

/// A step to the item of that number, where it is one.
pub open spec fn index_step(number: Seq<char>) -> Seq<SegmentModel> {
    match parsed_number(trimmed(number), usize::MAX as nat) {
        Some(index) => seq![SegmentModel::Index(index)],
        None => Seq::empty(),
    }
}

/// The steps of a part between dots: a name, and numbers in brackets behind it.
pub open spec fn part_steps(part: Seq<char>) -> Seq<SegmentModel>
    decreases part.len(),
    when true
    via part_steps_decreases
{
    let open = find(part, '[');
    if part.len() == 0 {
        Seq::empty()
    } else if open >= part.len() {
        seq![SegmentModel::Key(part)]
    } else {
        let inner = part.skip(open + 1);
        let close = find(inner, ']');
        if close >= inner.len() {
            key_step(part.take(open))
        } else {
            key_step(part.take(open)) + index_step(inner.take(close)) + part_steps(
                inner.skip(close + 1),
            )
        }
    }
}

#[via_fn]
proof fn part_steps_decreases(part: Seq<char>) {
    lemma_find(part, '[');
    let open = find(part, '[');
    if 0 <= open < part.len() {
        lemma_find(part.skip(open + 1), ']');
    }
}

/// The steps of the parts between dots that are not blank.
pub open spec fn steps_of(parts: Seq<Seq<char>>) -> Seq<SegmentModel>
    decreases parts.len(),
{
    if parts.len() == 0 {
        Seq::empty()
    } else {
        steps_of(parts.drop_last()) + part_steps(trimmed(parts.last()))
    }
}

/// The steps that a path means.
pub open spec fn path_steps(path: Seq<char>) -> Seq<SegmentModel> {
    steps_of(split(path, '.'))
}

/// Where a step leads.
pub open spec fn step(value: JsonModel, segment: SegmentModel) -> Option<JsonModel> {
    match segment {
        SegmentModel::Key(key) => member(value, key),
        SegmentModel::Index(index) => match value {
            JsonModel::Array(items) => if index < items.len() {
                Some(items[index as int])
            } else {
                None
            },
            _ => None,
        },
    }
}

/// Where steps lead, one after the other.
pub open spec fn walk(value: JsonModel, segments: Seq<SegmentModel>) -> Option<JsonModel>
    decreases segments.len(),
{
    if segments.len() == 0 {
        Some(value)
    } else {
        match step(value, segments[0]) {
            Some(next) => walk(next, segments.skip(1)),
            None => None,
        }
    }
}

/// A value in a text: a text as it is, anything else as JSON, nothing as nothing.
pub open spec fn shown(value: Option<JsonModel>) -> Seq<char> {
    match value {
        None => Seq::empty(),
        Some(JsonModel::Text(s)) => s,
        Some(other) => json_text_of(other),
    }
}

/// Where an expression looks, and what it looks for there.
pub open spec fn expression_source(context: ContextModel, expr: Seq<char>) -> (
    Map<Seq<char>, JsonModel>,
    Seq<char>,
) {
    match after_prefix(expr, "payload."@) {
        Some(rest) => (context.payload, rest),
        None => match after_prefix(expr, "headers."@) {
            Some(rest) => (context.headers, rest),
            None => match after_prefix(expr, "query."@) {
                Some(rest) => (context.query, rest),
                None => (context.payload, expr),
            },
        },
    }
}

/// What an expression stands for.
pub open spec fn expression_text(context: ContextModel, expr: Seq<char>) -> Seq<char> {
    if expr == "path"@ {
        context.path
    } else {
        let (source, rest) = expression_source(context, expr);
        let steps = path_steps(rest);
        if steps.len() == 0 {
            Seq::empty()
        } else {
            shown(walk(JsonModel::Object(source), steps))
        }
    }
}

/// Where the character first stands twice in a row; the length where it does not.
pub open spec fn find_pair(s: Seq<char>, ch: char) -> int
    decreases s.len(),
{
    if s.len() < 2 {
        s.len() as int
    } else if s[0] == ch && s[1] == ch {
        0
    } else {
        1 + find_pair(s.skip(1), ch)
    }
}

/// The template with its places filled. A place that is not closed stays as it is.
pub open spec fn rendered(template: Seq<char>, context: ContextModel) -> Seq<char>
    decreases template.len(),
    when true
    via rendered_decreases
{
    let open = find_pair(template, '{');
    if open >= template.len() {
        template
    } else {
        let inner = template.skip(open + 2);
        let close = find_pair(inner, '}');
        if close >= inner.len() {
            template
        } else {
            template.take(open) + expression_text(context, trimmed(inner.take(close))) + rendered(
                inner.skip(close + 2),
                context,
            )
        }
    }
}

#[via_fn]
proof fn rendered_decreases(template: Seq<char>, context: ContextModel) {
    lemma_find_pair(template, '{');
    let open = find_pair(template, '{');
    if 0 <= open < template.len() {
        lemma_find_pair(template.skip(open + 2), '}');
    }
}

pub proof fn lemma_find_pair(s: Seq<char>, ch: char)
    ensures
        0 <= find_pair(s, ch) <= s.len(),
        find_pair(s, ch) < s.len() ==> find_pair(s, ch) + 1 < s.len() && s[find_pair(s, ch)] == ch
            && s[find_pair(s, ch) + 1] == ch,
        forall|k: int| 0 <= k < find_pair(s, ch) && k + 1 < s.len() ==> !(#[trigger] s[k] == ch && s[k + 1] == ch),
    decreases s.len(),
{
    if s.len() >= 2 && !(s[0] == ch && s[1] == ch) {
        lemma_find_pair(s.skip(1), ch);
        assert forall|k: int| 0 <= k < find_pair(s, ch) && k + 1 < s.len() implies !(#[trigger] s[k] == ch && s[k + 1] == ch) by {
            if k > 0 {
                assert(s.skip(1)[k - 1] == s[k]);
                assert(s.skip(1)[k] == s[k + 1]);
            }
        }
    }
}

proof fn lemma_find_pair_is(s: Seq<char>, ch: char, i: int)
    requires
        0 <= i <= s.len(),
        forall|k: int| 0 <= k < i && k + 1 < s.len() ==> !(#[trigger] s[k] == ch && s[k + 1] == ch),
        i < s.len() ==> i + 1 < s.len() && s[i] == ch && s[i + 1] == ch,
    ensures
        find_pair(s, ch) == i,
{
    lemma_find_pair(s, ch);
    let f = find_pair(s, ch);
    if f < i {
        assert(!(s[f] == ch && s[f + 1] == ch));
    } else if i < f {
        assert(!(s[i] == ch && s[i + 1] == ch));
    }
}

/// Where the character first stands twice in a row from `at` on; the length where it does not.
fn find_pair_from(chars: &Vec<char>, at: usize, ch: char) -> (r: usize)
    requires
        at <= chars@.len(),
    ensures
        at <= r <= chars@.len(),
        r - at == find_pair(chars@.skip(at as int), ch),
        r < chars@.len() ==> r + 1 < chars@.len(),
{
    let n: usize = chars.len();
    let ghost t = chars@.skip(at as int);
    let mut i: usize = at;
    while i < n
        invariant
            n == chars@.len(),
            at <= i <= n,
            t == chars@.skip(at as int),
            forall|k: int| 0 <= k < i - at && k + 1 < t.len() ==> !(#[trigger] t[k] == ch && t[k + 1] == ch),
        decreases n - i,
    {
        if i + 1 < n && chars[i] == ch && chars[i + 1] == ch {
            proof {
                assert(t[i - at] == ch && t[i - at + 1] == ch);
                lemma_find_pair_is(t, ch, i - at);
            }
            return i;
        }
        proof {
            if i + 1 < n {
                assert(t[i - at] == chars@[i as int] && t[i - at + 1] == chars@[i + 1]);
            }
        }
        i = i + 1;
    }
    proof {
        lemma_find_pair_is(t, ch, t.len() as int);
    }
    n
}

/// The steps that a path means.
pub fn parse_template_segments(path: &str) -> (r: Vec<TemplateSegment>)
    ensures
        segment_models(r@) == path_steps(path@),
{
    let parts = split_at_char(path, '.');
    let mut out: Vec<TemplateSegment> = Vec::new();
    let mut i: usize = 0;
    assert(segment_models(out@) =~= steps_of(texts(parts@).take(0)));
    while i < parts.len()
        invariant
            i <= parts@.len(),
            segment_models(out@) == steps_of(texts(parts@).take(i as int)),
        decreases parts@.len() - i,
    {
        let part = trim(parts[i].as_str());
        let ghost so_far = segment_models(out@);
        part_segments(part.as_str(), &mut out);
        i = i + 1;
        proof {
            let t = texts(parts@).take(i as int);
            assert(t.drop_last() =~= texts(parts@).take(i - 1));
            assert(t.last() == parts@[i - 1]@);
        }
    }
    assert(texts(parts@).take(i as int) =~= texts(parts@));
    out
}

/// Adds the steps of a part between dots.
fn part_segments(part: &str, out: &mut Vec<TemplateSegment>)
    ensures
        segment_models(final(out)@) == segment_models(old(out)@) + part_steps(part@),
{
    let chars = to_chars(part);
    let n: usize = chars.len();
    let ghost start = segment_models(out@);
    let mut at: usize = 0;
    proof {
        assert(chars@.skip(0) =~= part@);
        assert(start + part_steps(part@) =~= segment_models(out@) + part_steps(chars@.skip(0)));
    }
    while at < n
        invariant
            n == chars@.len(),
            at <= n,
            start == segment_models(old(out)@),
            chars@ == part@,
            segment_models(out@) + part_steps(chars@.skip(at as int)) == start + part_steps(part@),
        decreases n - at,
    {
        let ghost rest = chars@.skip(at as int);
        let ghost so_far = segment_models(out@);
        let ghost all = out@;
        let open: usize = find_from(&chars, at, '[');
        if open == n {
            let key = from_range(&chars, at, n);
            assert(key@ =~= rest);
            out.push(TemplateSegment::Key(key));
            proof {
                assert(segment_models(out@) =~= so_far.push(SegmentModel::Key(rest)));
                assert(part_steps(rest) == seq![SegmentModel::Key(rest)]);
                assert(segment_models(out@) =~= so_far + part_steps(rest));
            }
            return ;
        }
        let name = from_range(&chars, at, open);
        let ghost inner = rest.skip(open - at + 1);
        proof {
            assert(name@ =~= rest.take(open - at));
            assert(inner =~= chars@.skip(open + 1));
        }
        if let Some(key) = trim_non_empty(name.as_str()) {
            out.push(TemplateSegment::Key(key));
            assert(segment_models(out@) =~= so_far + key_step(name@));
        } else {
            assert(segment_models(out@) =~= so_far + key_step(name@));
        }
        let ghost with_key = segment_models(out@);
        let close: usize = find_from(&chars, open + 1, ']');
        if close == n {
            assert(part_steps(rest) == key_step(name@));
            return ;
        }
        let raw = from_range(&chars, open + 1, close);
        let ghost with_key_all = out@;
        assert(raw@ =~= inner.take(close - open - 1));
        let number = trim(raw.as_str());
        match parse_number(number.as_str(), usize::MAX as u64) {
            Some(index) => {
                out.push(TemplateSegment::Index(index as usize));
                assert(segment_models(out@) =~= with_key + index_step(raw@));
            },
            None => {
                assert(segment_models(out@) =~= with_key + index_step(raw@));
            },
        }
        proof {
            let tail = inner.skip(close - open - 1 + 1);
            assert(tail =~= chars@.skip(close + 1));
            assert(part_steps(rest) == key_step(name@) + index_step(raw@) + part_steps(tail));
            assert(segment_models(out@) + part_steps(tail) =~= so_far + part_steps(rest));
        }
        at = close + 1;
    }
    proof {
        assert(chars@.skip(at as int) =~= Seq::<char>::empty());
        assert(part_steps(Seq::<char>::empty()) =~= Seq::<SegmentModel>::empty());
        assert(segment_models(out@) =~= start + part_steps(part@));
    }
}

/// A step into a value.
fn take_step<'a>(value: &'a Json, segment: &TemplateSegment) -> (r: Option<&'a Json>)
    ensures
        match r {
            Some(v) => step(value@, segment@) == Some(v@),
            None => step(value@, segment@) is None,
        },
{
    match segment {
        TemplateSegment::Key(key) => value.get(key.as_str()),
        TemplateSegment::Index(index) => match value.as_array() {
            Some(items) => {
                proof {
                    lemma_models(items@);
                }
                if *index < items.len() {
                    Some(&items[*index])
                } else {
                    None
                }
            },
            None => None,
        },
    }
}

/// What an expression stands for.
pub fn resolve_template_expr(context: &HookTemplateContext, expr: &str) -> (r: String)
    ensures
        r@ == expression_text(context@, expr@),
{
    if same(expr, "path") {
        return context.path.to_owned();
    }
    let (source, rest) = match strip_prefix(expr, "payload.") {
        Some(rest) => (context.payload, rest),
        None => match strip_prefix(expr, "headers.") {
            Some(rest) => (context.headers, rest),
            None => match strip_prefix(expr, "query.") {
                Some(rest) => (context.query, rest),
                None => (context.payload, expr.to_owned()),
            },
        },
    };
    let segments = parse_template_segments(rest.as_str());
    let ghost steps = path_steps(rest@);
    assert(segment_models(segments@).len() == segments@.len());
    assert((fields(*source), rest@) == expression_source(context@, expr@));
    if segments.len() == 0 {
        return String::new();
    }
    let ghost whole = JsonModel::Object(fields(*source));
    let mut cursor: &Json = match &segments[0] {
        TemplateSegment::Key(key) => match get_field(source, key.as_str()) {
            Some(value) => value,
            None => {
                assert(segment_models(segments@)[0] == SegmentModel::Key(key@));
                assert(walk(whole, steps) is None);
                return String::new();
            },
        },
        TemplateSegment::Index(index) => {
            assert(segment_models(segments@)[0] == SegmentModel::Index(*index as nat));
            assert(walk(whole, steps) is None);
            return String::new();
        },
    };
    let mut i: usize = 1;
    proof {
        assert(segment_models(segments@)[0] == segments@[0]@);
        assert(walk(whole, steps) == walk(cursor@, steps.skip(1)));
    }
    while i < segments.len()
        invariant
            1 <= i <= segments@.len(),
            steps == segment_models(segments@),
            steps == path_steps(rest@),
            expr@ != "path"@,
            (fields(*source), rest@) == expression_source(context@, expr@),
            whole == JsonModel::Object(fields(*source)),
            walk(whole, steps) == walk(cursor@, steps.skip(i as int)),
        decreases segments@.len() - i,
    {
        proof {
            assert(steps.skip(i as int)[0] == segments@[i as int]@);
            assert(steps.skip(i as int).skip(1) =~= steps.skip(i + 1));
        }
        match take_step(cursor, &segments[i]) {
            Some(value) => {
                cursor = value;
            },
            None => {
                assert(walk(whole, steps) is None);
                return String::new();
            },
        }
        i = i + 1;
    }
    assert(steps.skip(i as int) =~= Seq::<SegmentModel>::empty());
    assert(walk(whole, steps) == Some(cursor@));
    match cursor {
        Json::Text(s) => s.clone(),
        _ => cursor.to_text(),
    }
}

/// The template with its places filled.
pub fn render_template(template: &str, context: &HookTemplateContext) -> (r: String)
    ensures
        r@ == rendered(template@, context@),
{
    let chars = to_chars(template);
    let n: usize = chars.len();
    let mut out = String::new();
    let mut at: usize = 0;
    assert(chars@.skip(0) =~= template@);
    assert(out@ + rendered(chars@.skip(0), context@) =~= rendered(template@, context@));
    loop
        invariant
            n == chars@.len(),
            at <= n,
            out@ + rendered(chars@.skip(at as int), context@) == rendered(template@, context@),
        decreases n - at,
    {
        let ghost rest = chars@.skip(at as int);
        let open: usize = find_pair_from(&chars, at, '{');
        if open == n {
            let tail = from_range(&chars, at, n);
            assert(tail@ =~= rest);
            out.append(tail.as_str());
            return out;
        }
        let inner_at: usize = open + 2;
        let ghost inner = rest.skip(open - at + 2);
        assert(inner =~= chars@.skip(inner_at as int));
        let close: usize = find_pair_from(&chars, inner_at, '}');
        if close == n {
            let tail = from_range(&chars, at, n);
            assert(tail@ =~= rest);
            assert(rendered(rest, context@) == rest);
            out.append(tail.as_str());
            return out;
        }
        let head = from_range(&chars, at, open);
        let raw = from_range(&chars, inner_at, close);
        let expr = trim(raw.as_str());
        let value = resolve_template_expr(context, expr.as_str());
        let ghost so_far = out@;
        out.append(head.as_str());
        out.append(value.as_str());
        proof {
            assert(head@ =~= rest.take(open - at));
            assert(raw@ =~= inner.take(close - inner_at));
            let tail = inner.skip(close - inner_at + 2);
            assert(tail =~= chars@.skip(close + 2));
            assert(rendered(rest, context@) == head@ + value@ + rendered(tail, context@));
            assert(out@ + rendered(tail, context@) =~= so_far + rendered(rest, context@));
        }
        at = close + 2;
    }
}

/// A template without places is rendered as it stands.
pub proof fn law_plain_templates_stay(template: Seq<char>, context: ContextModel)
    requires
        forall|i: int| 0 <= i < template.len() - 1 ==> !(#[trigger] template[i] == '{' && template[i + 1] == '{'),
    ensures
        rendered(template, context) == template,
{
    lemma_find_pair(template, '{');
}

/// What stands before the first place and has no place itself is kept, and the place is filled.
pub proof fn law_places_are_filled(
    head: Seq<char>,
    expr: Seq<char>,
    tail: Seq<char>,
    context: ContextModel,
)
    requires
        forall|i: int| 0 <= i < head.len() ==> #[trigger] head[i] != '{',
        forall|i: int| 0 <= i < expr.len() ==> #[trigger] expr[i] != '}',
        expr.len() > 0 ==> expr[0] != '{',
    ensures
        rendered(head + seq!['{', '{'] + expr + seq!['}', '}'] + tail, context) == head
            + expression_text(context, trimmed(expr)) + rendered(tail, context),
{
    let t = head + seq!['{', '{'] + expr + seq!['}', '}'] + tail;
    let h = head.len() as int;
    assert forall|k: int| 0 <= k < h && k + 1 < t.len() implies !(#[trigger] t[k] == '{' && t[k + 1] == '{') by {
        assert(t[k] == head[k]);
    }
    assert(t[h] == '{' && t[h + 1] == '{');
    lemma_find_pair_is(t, '{', h);
    let inner = t.skip(h + 2);
    let e = expr.len() as int;
    assert forall|k: int| 0 <= k < e && k + 1 < inner.len() implies !(#[trigger] inner[k] == '}' && inner[k + 1] == '}') by {
        assert(inner[k] == expr[k]);
    }
    assert(inner[e] == '}' && inner[e + 1] == '}');
    lemma_find_pair_is(inner, '}', e);
    assert(t.take(h) =~= head);
    assert(inner.take(e) =~= expr);
    assert(inner.skip(e + 2) =~= tail);
}

// ---------------------------------------------------------------------------------------------
// What expressions stand for
// ---------------------------------------------------------------------------------------------
/// A name of letters, digits, underscores and dashes.
pub open spec fn is_name(s: Seq<char>) -> bool {
    &&& s.len() > 0
    &&& forall|i: int|
        0 <= i < s.len() ==> ('a' <= #[trigger] s[i] <= 'z') || ('A' <= s[i] <= 'Z') || ('0' <= s[i]
            <= '9') || s[i] == '_' || s[i] == '-'
}

/// The brackets around a number.
pub open spec fn bracketed(i: nat) -> Seq<char> {
    seq!['['] + decimal(i) + seq![']']
}

proof fn lemma_part_of_name(name: Seq<char>)
    requires
        is_name(name),
    ensures
        !name.contains('.'),
        !name.contains('['),
        trimmed(name) == name,
        kept(name) == Some(name),
        part_steps(name) == seq![SegmentModel::Key(name)],
{
    assert(name.last() == name[name.len() - 1]);
    lemma_trim_both_fixed(name, |c: char| is_white_space(c));
    lemma_find(name, '[');
}

proof fn lemma_part_of_item(name: Seq<char>, i: nat)
    requires
        is_name(name),
        i <= usize::MAX,
    ensures
        !(name + bracketed(i)).contains('.'),
        trimmed(name + bracketed(i)) == name + bracketed(i),
        part_steps(name + bracketed(i)) == seq![SegmentModel::Key(name), SegmentModel::Index(i)],
{
    let d = decimal(i);
    let part = name + bracketed(i);
    let n = name.len() as int;
    lemma_part_of_name(name);
    law_decimal_is_read_back(i, usize::MAX as nat);
    assert forall|k: int| 0 <= k < part.len() implies #[trigger] part[k] != '.' by {
        if k < n {
            assert(part[k] == name[k]);
        } else if n < k < n + 1 + d.len() {
            assert(part[k] == d[k - n - 1]);
        }
    }
    assert(part[0] == name[0] && part.last() == ']');
    lemma_trim_both_fixed(part, |c: char| is_white_space(c));
    assert forall|k: int| 0 <= k < n implies #[trigger] part[k] != '[' by {
        assert(part[k] == name[k]);
    }
    assert(part[n] == '[');
    lemma_find(part, '[');
    assert(find(part, '[') == n);
    assert(part.take(n) =~= name);
    let inner = part.skip(n + 1);
    assert(inner =~= d + seq![']']);
    assert forall|k: int| 0 <= k < d.len() implies #[trigger] inner[k] != ']' by {
        assert(inner[k] == d[k]);
        assert(is_ascii_digit(d[k]));
    }
    assert(inner[d.len() as int] == ']');
    lemma_find(inner, ']');
    assert(find(inner, ']') == d.len());
    assert(inner.take(d.len() as int) =~= d);
    assert(inner.skip(d.len() as int + 1) =~= Seq::<char>::empty());
    assert(d.last() == d[d.len() - 1]);
    assert(is_ascii_digit(d[0]) && is_ascii_digit(d[d.len() - 1]));
    lemma_trim_both_fixed(d, |c: char| is_white_space(c));
    assert(part_steps(Seq::<char>::empty()) =~= Seq::<SegmentModel>::empty());
    assert(part_steps(part) =~= seq![SegmentModel::Key(name), SegmentModel::Index(i)]);
}

/// The steps of a path without dots.
proof fn lemma_one_part(part: Seq<char>)
    requires
        !part.contains('.'),
    ensures
        path_steps(part) == part_steps(trimmed(part)),
{
    lemma_find(part, '.');
    if find(part, '.') < part.len() {
        assert(part.contains('.'));
    }
    assert(split(part, '.') == seq![part]);
    assert(seq![part].drop_last() =~= Seq::<Seq<char>>::empty());
    assert(steps_of(Seq::<Seq<char>>::empty()) =~= Seq::<SegmentModel>::empty());
    assert(path_steps(part) =~= part_steps(trimmed(part)));
}

/// The steps of a path behind a first part.
proof fn lemma_more_parts(part: Seq<char>, rest: Seq<char>)
    requires
        !part.contains('.'),
    ensures
        path_steps(part + seq!['.'] + rest) == part_steps(trimmed(part)) + path_steps(rest),
{
    let s = part + seq!['.'] + rest;
    let n = part.len() as int;
    assert forall|k: int| 0 <= k < n implies #[trigger] s[k] != '.' by {
        assert(part[k] == s[k]);
        assert(part.contains(part[k]));
    }
    assert(s[n] == '.');
    lemma_find(s, '.');
    assert(find(s, '.') == n);
    assert(s.take(n) =~= part);
    assert(s.skip(n + 1) =~= rest);
    assert(split(s, '.') == seq![part] + split(rest, '.'));
    lemma_steps_of_first(part, split(rest, '.'));
}

proof fn lemma_steps_of_first(first: Seq<char>, rest: Seq<Seq<char>>)
    ensures
        steps_of(seq![first] + rest) == part_steps(trimmed(first)) + steps_of(rest),
    decreases rest.len(),
{
    let all = seq![first] + rest;
    if rest.len() == 0 {
        assert(all.drop_last() =~= Seq::<Seq<char>>::empty());
        assert(steps_of(all.drop_last()) =~= Seq::<SegmentModel>::empty());
        assert(all.last() == first);
        assert(steps_of(all) =~= part_steps(trimmed(first)) + steps_of(rest));
    } else {
        lemma_steps_of_first(first, rest.drop_last());
        assert(all.drop_last() =~= seq![first] + rest.drop_last());
        assert(all.last() == rest.last());
        assert(steps_of(all) =~= part_steps(trimmed(first)) + steps_of(rest));
    }
}

/// An expression looks into the payload where it does not begin with the name of another place.
proof fn lemma_source(context: ContextModel, first: Seq<char>, tail: Seq<char>)
    requires
        !first.contains('.'),
        tail.len() > 0 ==> tail[0] == '.',
        first != "payload"@ && first != "headers"@ && first != "query"@,
    ensures
        expression_source(context, first + tail) == (context.payload, first + tail),
{
    lemma_words_have_no_dot();
    lemma_not_prefix(first, tail, "payload"@, "payload."@);
    lemma_not_prefix(first, tail, "headers"@, "headers."@);
    lemma_not_prefix(first, tail, "query"@, "query."@);
}

proof fn lemma_not_prefix(first: Seq<char>, tail: Seq<char>, word: Seq<char>, prefix: Seq<char>)
    requires
        !first.contains('.'),
        tail.len() > 0 ==> tail[0] == '.',
        prefix == word.push('.'),
        !word.contains('.'),
        first != word,
    ensures
        !has_prefix(first + tail, prefix),
{
    let e = first + tail;
    if has_prefix(e, prefix) {
        let n = prefix.len() as int;
        assert(e.take(n)[n - 1] == e[n - 1]);
        assert(prefix[n - 1] == '.');
        if first.len() > n - 1 {
            assert(first[n - 1] == e[n - 1]);
            assert(first.contains('.'));
        } else if first.len() < n - 1 {
            assert(e[first.len() as int] == '.');
            assert(e.take(n)[first.len() as int] == word[first.len() as int]);
            assert(word.contains('.'));
        } else {
            assert(first =~= word) by {
                assert forall|k: int| 0 <= k < word.len() implies first[k] == word[k] by {
                    assert(e.take(n)[k] == e[k]);
                }
            }
        }
    }
}

/// The words before a dot have none themselves.
proof fn lemma_words_have_no_dot()
    ensures
        !"payload"@.contains('.'),
        !"headers"@.contains('.'),
        !"query"@.contains('.'),
        "payload."@ == "payload"@.push('.'),
        "headers."@ == "headers"@.push('.'),
        "query."@ == "query"@.push('.'),
{
    reveal_strlit("payload");
    reveal_strlit("headers");
    reveal_strlit("query");
    reveal_strlit("payload.");
    reveal_strlit("headers.");
    reveal_strlit("query.");
    assert("payload."@ =~= "payload"@.push('.'));
    assert("headers."@ =~= "headers"@.push('.'));
    assert("query."@ =~= "query"@.push('.'));
}

/// What is shown of a value: a text as it is, any other value as its JSON.
pub open spec fn shows(text: Seq<char>, value: JsonModel) -> bool {
    text == match value {
        JsonModel::Text(t) => t,
        _ => json_text_of(value),
    }
}

/// An index counts from the front of an array: the expression `name[i]` stands for the item that
/// comes after exactly `i` others, and for nothing where there is no such item.
pub proof fn law_items_count_from_the_front(
    context: &HookTemplateContext,
    expr: &str,
    r: String,
    name: Seq<char>,
    before: Seq<JsonModel>,
    item: JsonModel,
    behind: Seq<JsonModel>,
)
    requires
        call_ensures(resolve_template_expr, (context, expr), r),
        is_name(name),
        before.len() <= usize::MAX,
        expr@ == name + bracketed(before.len()),
        context@.payload.contains_key(name),
    ensures
        context@.payload[name] == JsonModel::Array(before.push(item) + behind) ==> shows(r@, item),
        context@.payload[name] == JsonModel::Array(before) ==> r@.len() == 0,
{
    let i = before.len();
    lemma_part_of_item(name, i);
    lemma_item_source(context@, name, i);
    lemma_one_part(expr@);
    let whole = JsonModel::Object(context@.payload);
    let steps = seq![SegmentModel::Key(name), SegmentModel::Index(i)];
    reveal_with_fuel(walk, 3);
    assert(steps.skip(1) =~= seq![SegmentModel::Index(i)]);
    assert(steps.skip(1).skip(1) =~= Seq::<SegmentModel>::empty());
    assert((before.push(item) + behind)[i as int] == item);
}

proof fn lemma_item_source(context: ContextModel, name: Seq<char>, i: nat)
    requires
        is_name(name),
    ensures
        name + bracketed(i) != "path"@,
        expression_source(context, name + bracketed(i)) == (context.payload, name + bracketed(i)),
{
    let e = name + bracketed(i);
    law_decimal_is_read_back(i, i);
    let d = decimal(i);
    assert(e.last() == ']');
    reveal_strlit("path");
    assert("path"@.last() == 'h');
    assert forall|k: int| 0 <= k < e.len() implies #[trigger] e[k] != '.' by {
        if k < name.len() {
            assert(e[k] == name[k]);
        } else if name.len() < k < name.len() + 1 + d.len() {
            assert(e[k] == d[k - name.len() - 1]);
            assert(is_ascii_digit(d[k - name.len() - 1]));
        }
    }
    reveal_strlit("payload");
    reveal_strlit("headers");
    reveal_strlit("query");
    assert("payload"@.last() == 'd' && "headers"@.last() == 's' && "query"@.last() == 'y');
    lemma_source(context, e, Seq::<char>::empty());
    assert(e + Seq::<char>::empty() =~= e);
}

/// The expression `name` stands for the member of that name of the payload, and `name.other` for
/// the member of the member; for nothing where there is none.
pub proof fn law_names_stand_for_members(
    context: &HookTemplateContext,
    expr: &str,
    r: String,
    name: Seq<char>,
    other: Seq<char>,
)
    requires
        call_ensures(resolve_template_expr, (context, expr), r),
        is_name(name) && is_name(other),
        name != "path"@ && name != "payload"@ && name != "headers"@ && name != "query"@,
    ensures
        expr@ == name && context@.payload.contains_key(name) ==> shows(r@, context@.payload[name]),
        expr@ == name && !context@.payload.contains_key(name) ==> r@.len() == 0,
        expr@ == name + seq!['.'] + other && context@.payload.contains_key(name)
            ==> match context@.payload[name] {
            JsonModel::Object(m) => if m.contains_key(other) {
                shows(r@, m[other])
            } else {
                r@.len() == 0
            },
            _ => r@.len() == 0,
        },
{
    reveal_with_fuel(walk, 3);
    lemma_part_of_name(name);
    lemma_part_of_name(other);
    lemma_one_part(name);
    lemma_one_part(other);
    lemma_more_parts(name, other);
    lemma_source(context@, name, Seq::<char>::empty());
    assert(name + Seq::<char>::empty() =~= name);
    let tail = seq!['.'] + other;
    lemma_source(context@, name, tail);
    let dotted = name + seq!['.'] + other;
    assert(name + tail =~= dotted);
    reveal_strlit("path");
    if dotted == "path"@ {
        assert(dotted[name.len() as int] == '.');
    }
    let one = seq![SegmentModel::Key(name)];
    let two = one + seq![SegmentModel::Key(other)];
    assert(one.skip(1) =~= Seq::<SegmentModel>::empty());
    assert(two.skip(1) =~= seq![SegmentModel::Key(other)]);
    assert(two.skip(1).skip(1) =~= Seq::<SegmentModel>::empty());
}

/// The expressions `payload.name`, `headers.name` and `query.name` stand for the members of that
/// name of the payload, the headers and the query, and `path` for the path.
pub proof fn law_places_of_a_request(
    context: &HookTemplateContext,
    expr: &str,
    r: String,
    name: Seq<char>,
)
    requires
        call_ensures(resolve_template_expr, (context, expr), r),
        is_name(name),
    ensures
        expr@ == "path"@ ==> r@ == context@.path,
        expr@ == "payload."@ + name && context@.payload.contains_key(name) ==> shows(
            r@,
            context@.payload[name],
        ),
        expr@ == "headers."@ + name && context@.headers.contains_key(name) ==> shows(
            r@,
            context@.headers[name],
        ),
        expr@ == "query."@ + name && context@.query.contains_key(name) ==> shows(
            r@,
            context@.query[name],
        ),
{
    reveal_with_fuel(walk, 3);
    lemma_words_have_no_dot();
    lemma_part_of_name(name);
    lemma_one_part(name);
    let one = seq![SegmentModel::Key(name)];
    assert(one.skip(1) =~= Seq::<SegmentModel>::empty());
    reveal_strlit("path");
    reveal_strlit("payload.");
    reveal_strlit("headers.");
    reveal_strlit("query.");
    let p = "payload."@ + name;
    let h = "headers."@ + name;
    let q = "query."@ + name;
    assert(p.take(8) =~= "payload."@ && p.skip(8) =~= name);
    assert(h.take(8) =~= "headers."@ && h.skip(8) =~= name);
    assert(q.take(6) =~= "query."@ && q.skip(6) =~= name);
    assert(p[0] == 'p' && h[0] == 'h' && q[0] == 'q');
    assert(h.take(8)[0] == 'h' && q.take(8)[0] == 'q' || q.len() < 8);
    assert("payload."@[0] == 'p' && "headers."@[0] == 'h');
}

/// A template with one place is the text before it, what its expression stands for, and the text
/// behind it; the white space around the expression makes no difference.
pub proof fn law_one_place(
    template: &str,
    context: &HookTemplateContext,
    r: String,
    head: Seq<char>,
    expr: &str,
    value: String,
    tail: Seq<char>,
)
    requires
        call_ensures(render_template, (template, context), r),
        call_ensures(resolve_template_expr, (context, expr), value),
        template@ == head + seq!['{', '{'] + (seq![' '] + expr@ + seq![' ']) + seq!['}', '}'] + tail
            || template@ == head + seq!['{', '{'] + expr@ + seq!['}', '}'] + tail,
        forall|i: int| 0 <= i < head.len() ==> #[trigger] head[i] != '{',
        forall|i: int| 0 <= i < tail.len() ==> #[trigger] tail[i] != '{',
        forall|i: int| 0 <= i < expr@.len() ==> #[trigger] expr@[i] != '}',
        expr@.len() > 0 && expr@[0] != '{' && !is_white_space(expr@[0]) && !is_white_space(
            expr@.last(),
        ),
    ensures
        r@ == head + value@ + tail,
{
    let spaced = seq![' '] + expr@ + seq![' '];
    assert forall|i: int| 0 <= i < spaced.len() implies #[trigger] spaced[i] != '}' by {
        if 0 < i < spaced.len() - 1 {
            assert(spaced[i] == expr@[i - 1]);
        }
    }
    law_places_are_filled(head, spaced, tail, context@);
    law_places_are_filled(head, expr@, tail, context@);
    law_plain_templates_stay(tail, context@);
    lemma_trim_both_fixed(expr@, |c: char| is_white_space(c));
    lemma_spaced_is_trimmed(expr@);
}

proof fn lemma_spaced_is_trimmed(s: Seq<char>)
    requires
        s.len() > 0 && !is_white_space(s[0]) && !is_white_space(s.last()),
    ensures
        trimmed(seq![' '] + s + seq![' ']) == s,
{
    let t = seq![' '] + s + seq![' '];
    lemma_trimmed_range(t);
    let (a, b) = choose|a: int, b: int|
        #![trigger t.subrange(a, b)]
        0 <= a <= b <= t.len() && trimmed(t) == t.subrange(a, b) && (forall|k: int|
            0 <= k < a ==> is_white_space(#[trigger] t[k])) && (forall|k: int|
            b <= k < t.len() ==> is_white_space(#[trigger] t[k])) && (a < b ==> !is_white_space(t[a])
            && !is_white_space(t[b - 1]));
    let n = s.len() as int;
    assert(t[0] == ' ' && t[1] == s[0] && t[n] == s[n - 1] && t[n + 1] == ' ');
    assert(a <= 1);
    assert(b >= n + 1);
    assert(a != 0 && b != n + 2);
    assert(t.subrange(1, n + 1) =~= s);
}

} // verus!
