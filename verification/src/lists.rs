//! Lists of texts without blanks and repetitions.
use crate::sorted_map::SortedMap;
use crate::text::{before, kept, lemma_before_irreflexive, texts, trim_non_empty};
use crate::rpc::methods::listed;
use vstd::prelude::*;

verus! {

broadcast use vstd::seq::group_seq_axioms;

/// The trimmed texts in their order, without blanks, each once.
pub open spec fn distinct(values: Seq<Seq<char>>) -> Seq<Seq<char>>
    decreases values.len(),
{
    if values.len() == 0 {
        values
    } else {
        let earlier = distinct(values.drop_last());
        match kept(values.last()) {
            Some(t) => if earlier.contains(t) {
                earlier
            } else {
                earlier.push(t)
            },
            None => earlier,
        }
    }
}

/// The text is one of the trimmed values, and not blank.
pub open spec fn kept_from(values: Seq<Seq<char>>, t: Seq<char>) -> bool {
    exists|i: int| 0 <= i < values.len() && kept(#[trigger] values[i]) == Some(t)
}

/// Each text comes before every later one.
pub open spec fn ascending(values: Seq<Seq<char>>) -> bool {
    forall|i: int, j: int|
        #![trigger values[i], values[j]]
        0 <= i < j < values.len() ==> before(values[i], values[j])
}

/// The trimmed texts in the order of texts, without blanks, each once.
pub open spec fn is_sorted_set(list: Seq<Seq<char>>, values: Seq<Seq<char>>) -> bool {
    &&& ascending(list)
    &&& forall|t: Seq<char>| #[trigger] list.contains(t) <==> kept_from(values, t)
}

/// The trimmed texts in the order of texts, without blanks, each once.
pub open spec fn sorted_of(values: Seq<Seq<char>>) -> Seq<Seq<char>> {
    choose|list: Seq<Seq<char>>| is_sorted_set(list, values)
}

/// There is only one such list.
pub proof fn lemma_sorted_of(list: Seq<Seq<char>>, values: Seq<Seq<char>>)
    requires
        is_sorted_set(list, values),
    ensures
        sorted_of(values) == list,
{
    let other = sorted_of(values);
    assert(is_sorted_set(other, values));
    assert forall|t: Seq<char>| #[trigger] list.contains(t) <==> other.contains(t) by {
        assert(other.contains(t) <==> kept_from(values, t));
    }
    law_sorted_set_is_unique(list, other);
}

/// The trimmed texts in their order, without blanks, each once.
pub fn sanitize(values: &Vec<String>) -> (r: Vec<String>)
    ensures
        texts(r@) == distinct(texts(values@)),
{
    let mut out: Vec<String> = Vec::new();
    let mut i: usize = 0;
    assert(texts(out@) =~= distinct(texts(values@).take(0)));
    while i < values.len()
        invariant
            i <= values@.len(),
            texts(out@) == distinct(texts(values@).take(i as int)),
        decreases values@.len() - i,
    {
        proof {
            let t = texts(values@).take(i + 1);
            assert(t.drop_last() =~= texts(values@).take(i as int));
            assert(t.last() == values@[i as int]@);
        }
        if let Some(t) = trim_non_empty(values[i].as_str()) {
            if !listed(t.as_str(), &out) {
                let ghost so_far = out@;
                out.push(t);
                assert(texts(out@) =~= texts(so_far).push(t@));
            }
        }
        i = i + 1;
    }
    assert(texts(values@).take(i as int) =~= texts(values@));
    out
}

/// The trimmed texts in the order of texts, without blanks, each once.
pub fn sorted_set(values: &Vec<String>) -> (r: Vec<String>)
    ensures
        is_sorted_set(texts(r@), texts(values@)),
{
    let mut unique: SortedMap<bool> = SortedMap::new();
    let mut i: usize = 0;
    while i < values.len()
        invariant
            i <= values@.len(),
            forall|t: Seq<char>| #[trigger]
                unique@.contains_key(t) <==> kept_from(texts(values@).take(i as int), t),
        decreases values@.len() - i,
    {
        let ghost before_map = unique@;
        let ghost v = values@[i as int]@;
        if let Some(t) = trim_non_empty(values[i].as_str()) {
            unique.insert(t, true);
        }
        proof {
            let shorter = texts(values@).take(i as int);
            let longer = texts(values@).take(i + 1);
            assert forall|t: Seq<char>| #[trigger] unique@.contains_key(t) <==> kept_from(longer, t) by {
                if kept_from(longer, t) {
                    let k = choose|k: int| 0 <= k < longer.len() && kept(#[trigger] longer[k]) == Some(t);
                    if k < i {
                        assert(shorter[k] == longer[k]);
                        assert(kept_from(shorter, t));
                    }
                }
                if unique@.contains_key(t) {
                    if kept(v) == Some(t) {
                        assert(longer[i as int] == v);
                    } else {
                        assert(before_map.contains_key(t));
                        let k = choose|k: int| 0 <= k < shorter.len() && kept(#[trigger] shorter[k]) == Some(t);
                        assert(longer[k] == shorter[k]);
                    }
                }
            }
        }
        i = i + 1;
    }
    assert(texts(values@).take(i as int) =~= texts(values@));
    keys_of(&unique)
}

/// The keys of a map, in their order.
pub fn keys_of<V>(map: &SortedMap<V>) -> (r: Vec<String>)
    ensures
        texts(r@) == map.keys(),
        ascending(texts(r@)),
        forall|t: Seq<char>| #[trigger] texts(r@).contains(t) <==> map@.contains_key(t),
{
    let n: usize = map.len();
    let mut out: Vec<String> = Vec::new();
    let mut i: usize = 0;
    while i < n
        invariant
            n == map.keys().len(),
            i <= n,
            out@.len() == i,
            forall|k: int| 0 <= k < i ==> #[trigger] out@[k]@ == map.keys()[k],
            forall|k: int| 0 <= k < i ==> map@.contains_key(#[trigger] out@[k]@),
        decreases n - i,
    {
        let (key, _) = map.entry(i);
        out.push(key.clone());
        i = i + 1;
    }
    proof {
        assert(texts(out@) =~= map.keys());
        let list = texts(out@);
        assert forall|a: int, b: int| #![trigger list[a], list[b]] 0 <= a < b < list.len() implies before(list[a], list[b]) by {
            assert(list[a] == map.entries()[a].0@ && list[b] == map.entries()[b].0@);
        }
        assert forall|t: Seq<char>| #[trigger] list.contains(t) <==> map@.contains_key(t) by {
            if list.contains(t) {
                let k = choose|k: int| 0 <= k < list.len() && list[k] == t;
                assert(out@[k]@ == t);
            }
            if map@.contains_key(t) {
                let k = choose|k: int| #![trigger map.keys()[k]] 0 <= k < map.keys().len() && map.keys()[k] == t;
                assert(list[k] == t);
            }
        }
    }
    out
}

/// A list without blanks and repetitions holds each trimmed value once, and nothing else.
pub proof fn law_distinct_keeps_each_once(values: Seq<Seq<char>>)
    ensures
        forall|t: Seq<char>| #[trigger] distinct(values).contains(t) <==> kept_from(values, t),
        distinct(values).no_duplicates(),
    decreases values.len(),
{
    if values.len() > 0 {
        let shorter = values.drop_last();
        law_distinct_keeps_each_once(shorter);
        assert forall|t: Seq<char>| #[trigger] distinct(values).contains(t) <==> kept_from(values, t) by {
            let earlier = distinct(shorter);
            if kept_from(values, t) {
                let k = choose|k: int| 0 <= k < values.len() && kept(#[trigger] values[k]) == Some(t);
                if k < values.len() - 1 {
                    assert(shorter[k] == values[k]);
                    assert(kept_from(shorter, t));
                    assert(earlier.contains(t));
                    let j = choose|j: int| 0 <= j < earlier.len() && earlier[j] == t;
                    assert(distinct(values)[j] == t);
                } else if !earlier.contains(t) {
                    assert(distinct(values)[earlier.len() as int] == t);
                }
            }
            if distinct(values).contains(t) {
                let j = choose|j: int| 0 <= j < distinct(values).len() && distinct(values)[j] == t;
                if j < earlier.len() {
                    assert(earlier[j] == t);
                    assert(earlier.contains(t));
                    let k = choose|k: int| 0 <= k < shorter.len() && kept(#[trigger] shorter[k]) == Some(t);
                    assert(values[k] == shorter[k]);
                } else {
                    assert(values[values.len() - 1] == values.last());
                }
            }
        }
    }
}

/// A list of texts in order, each once, is fixed by what it holds.
pub proof fn law_sorted_set_is_unique(a: Seq<Seq<char>>, b: Seq<Seq<char>>)
    requires
        ascending(a),
        ascending(b),
        forall|t: Seq<char>| #[trigger] a.contains(t) <==> b.contains(t),
    ensures
        a == b,
    decreases a.len(),
{
    if a.len() == 0 {
        if b.len() > 0 {
            assert(b.contains(b[0]));
            assert(a.contains(b[0]));
        }
        assert(a =~= b);
    } else {
        assert(a.contains(a[a.len() - 1]));
        assert(b.contains(a.last()));
        assert(b.contains(b[b.len() - 1]));
        assert(a.contains(b.last()));
        let i = choose|i: int| 0 <= i < b.len() && b[i] == a.last();
        let j = choose|j: int| 0 <= j < a.len() && a[j] == b.last();
        if i < b.len() - 1 {
            assert(before(b[i], b[b.len() - 1]));
            if j < a.len() - 1 {
                assert(before(a[j], a[a.len() - 1]));
                crate::text::lemma_before_total(a.last(), b.last());
            } else {
                lemma_before_irreflexive(a.last());
            }
        }
        assert(a.last() == b.last());
        let x = a.drop_last();
        let y = b.drop_last();
        lemma_before_irreflexive(a.last());
        assert forall|t: Seq<char>| #[trigger] x.contains(t) <==> y.contains(t) by {
            if x.contains(t) {
                let k = choose|k: int| 0 <= k < x.len() && x[k] == t;
                assert(a[k] == t);
                assert(before(a[k], a[a.len() - 1]));
                assert(a.contains(t));
                let m = choose|m: int| 0 <= m < b.len() && b[m] == t;
                assert(m < b.len() - 1);
                assert(y[m] == t);
            }
            if y.contains(t) {
                let k = choose|k: int| 0 <= k < y.len() && y[k] == t;
                assert(b[k] == t);
                assert(before(b[k], b[b.len() - 1]));
                assert(b.contains(t));
                assert(a.contains(t));
                let m = choose|m: int| 0 <= m < a.len() && a[m] == t;
                assert(m < a.len() - 1);
                assert(x[m] == t);
            }
        }
        assert forall|p: int, q: int| #![trigger x[p], x[q]] 0 <= p < q < x.len() implies before(x[p], x[q]) by {
            assert(x[p] == a[p] && x[q] == a[q]);
        }
        assert forall|p: int, q: int| #![trigger y[p], y[q]] 0 <= p < q < y.len() implies before(y[p], y[q]) by {
            assert(y[p] == b[p] && y[q] == b[q]);
        }
        law_sorted_set_is_unique(x, y);
        assert(a =~= x.push(a.last()));
        assert(b =~= y.push(b.last()));
    }
}

/// A list that is tidied holds exactly the values that are not blank, without the white space around
/// them, each once, in the order in which they first came.
pub proof fn law_tidied_lists(values: &Vec<String>, r: Vec<String>, i: int, j: int)
    requires
        call_ensures(sanitize, (values,), r),
    ensures
        forall|k: int|
            0 <= k < values@.len() && crate::text::not_blank((#[trigger] values@[k])@) ==> texts(
                r@,
            ).contains(crate::text::trimmed(values@[k]@)),
        0 <= i < r@.len() ==> exists|k: int|
            0 <= k < values@.len() && crate::text::not_blank((#[trigger] values@[k])@) && r@[i]@
                == crate::text::trimmed(values@[k]@),
        0 <= i < j < r@.len() ==> r@[i]@ != r@[j]@,
{
    let v = texts(values@);
    let out = texts(r@);
    law_distinct_keeps_each_once(v);
    assert forall|k: int| 0 <= k < values@.len() && crate::text::not_blank((#[trigger] values@[k])@) implies out.contains(
        crate::text::trimmed(values@[k]@),
    ) by {
        crate::text::lemma_kept(v[k]);
        assert(kept(v[k]) == Some(crate::text::trimmed(v[k])));
        assert(kept_from(v, crate::text::trimmed(v[k])));
    }
    if 0 <= i < r@.len() {
        assert(out.contains(out[i]));
        assert(kept_from(v, out[i]));
        let k = choose|k: int| 0 <= k < v.len() && kept(#[trigger] v[k]) == Some(out[i]);
        crate::text::lemma_kept(v[k]);
        assert(v[k] == values@[k]@);
    }
    if 0 <= i < j < r@.len() {
        assert(out[i] != out[j]);
    }
}

/// A list that is put in order holds exactly the values that are not blank, without the white space
/// around them, each before the next in the order of texts.
pub proof fn law_ordered_lists(values: &Vec<String>, r: Vec<String>, i: int, j: int)
    requires
        call_ensures(sorted_set, (values,), r),
    ensures
        forall|k: int|
            0 <= k < values@.len() && crate::text::not_blank((#[trigger] values@[k])@) ==> texts(
                r@,
            ).contains(crate::text::trimmed(values@[k]@)),
        0 <= i < r@.len() ==> exists|k: int|
            0 <= k < values@.len() && crate::text::not_blank((#[trigger] values@[k])@) && r@[i]@
                == crate::text::trimmed(values@[k]@),
        0 <= i < j < r@.len() ==> before(r@[i]@, r@[j]@),
{
    let v = texts(values@);
    let out = texts(r@);
    assert forall|k: int| 0 <= k < values@.len() && crate::text::not_blank((#[trigger] values@[k])@) implies out.contains(
        crate::text::trimmed(values@[k]@),
    ) by {
        crate::text::lemma_kept(v[k]);
        assert(kept(v[k]) == Some(crate::text::trimmed(v[k])));
        assert(kept_from(v, crate::text::trimmed(v[k])));
    }
    if 0 <= i < r@.len() {
        assert(out.contains(out[i]));
        assert(kept_from(v, out[i]));
        let k = choose|k: int| 0 <= k < v.len() && kept(#[trigger] v[k]) == Some(out[i]);
        crate::text::lemma_kept(v[k]);
        assert(v[k] == values@[k]@);
    }
    if 0 <= i < j < r@.len() {
        assert(before(out[i], out[j]));
    }
}

} // verus!
