//! The log: its last entries.
use crate::json::{
    lemma_models, lemma_models_push, member, models, no_fields, object, set_field, text_of, Json, JsonModel,
};
use crate::rpc::methods::sessions::limited;
use crate::text::{
    kept_opt, lowered, opt_text, same, same_ignoring_case, trim_non_empty_opt,
};
use vstd::prelude::*;

verus! {

broadcast use vstd::seq::group_seq_axioms;

/// Which entries are asked for.
pub struct LogsTailParams {
    pub limit: Option<usize>,
    pub level: Option<String>,
    pub method: Option<String>,
}

/// How many entries are listed at most: from one to two thousand, and two hundred where nothing is
/// asked for.
pub open spec fn tail_limit(limit: Option<usize>) -> usize {
    match limit {
        None => 200,
        Some(n) => if n < 1 {
            1
        } else if n > 2_000 {
            2_000
        } else {
            n
        },
    }
}

/// How many entries are listed at most, and how many are looked at.
pub fn tail_request(limit: Option<usize>) -> (r: (usize, usize))
    ensures
        r.0 == tail_limit(limit),
        r.1 == tail_limit(limit) * 4,
{
    let limit: usize = match limit {
        None => 200,
        Some(n) => if n < 1 {
            1
        } else if n > 2_000 {
            2_000
        } else {
            n
        },
    };
    (limit, limit * 4)
}

/// An entry has the level that is asked for, in whatever case.
pub open spec fn has_level(value: JsonModel, level: Option<Seq<char>>) -> bool {
    match level {
        None => true,
        Some(expected) => match text_of(member(value, "level"@)) {
            Some(found) => lowered(found) == lowered(expected),
            None => false,
        },
    }
}

/// An entry is of the method that is asked for.
pub open spec fn has_method(value: JsonModel, method: Option<Seq<char>>) -> bool {
    match method {
        None => true,
        Some(expected) => text_of(member(value, "method"@)) == Some(expected),
    }
}

/// Whether an entry has the level that is asked for.
pub fn matches_level(value: &Json, expected: &Option<String>) -> (r: bool)
    ensures
        r == has_level(value@, opt_text(*expected)),
{
    match expected {
        None => true,
        Some(expected) => match value.get_text("level") {
            Some(found) => same_ignoring_case(found.as_str(), expected.as_str()),
            None => false,
        },
    }
}

/// Whether an entry is of the method that is asked for.
pub fn matches_method(value: &Json, expected: &Option<String>) -> (r: bool)
    ensures
        r == has_method(value@, opt_text(*expected)),
{
    match expected {
        None => true,
        Some(expected) => match value.get_text("method") {
            Some(found) => same(found.as_str(), expected.as_str()),
            None => false,
        },
    }
}

/// The entries that are asked for.
pub open spec fn matching(
    entries: Seq<JsonModel>,
    level: Option<Seq<char>>,
    method: Option<Seq<char>>,
) -> Seq<JsonModel>
    decreases entries.len(),
{
    if entries.len() == 0 {
        entries
    } else if has_level(entries.last(), level) && has_method(entries.last(), method) {
        matching(entries.drop_last(), level, method).push(entries.last())
    } else {
        matching(entries.drop_last(), level, method)
    }
}

/// Entries further on add to those that are asked for, and change none.
proof fn lemma_matching_grows(
    entries: Seq<JsonModel>,
    i: int,
    level: Option<Seq<char>>,
    method: Option<Seq<char>>,
)
    requires
        0 <= i <= entries.len(),
    ensures
        matching(entries.take(i), level, method).len() <= matching(entries, level, method).len(),
        matching(entries, level, method).take(
            matching(entries.take(i), level, method).len() as int,
        ) == matching(entries.take(i), level, method),
    decreases entries.len() - i,
{
    let shorter = matching(entries.take(i), level, method);
    let all = matching(entries, level, method);
    if i == entries.len() {
        assert(entries.take(i) =~= entries);
        assert(all.take(all.len() as int) =~= all);
    } else {
        lemma_matching_grows(entries, i + 1, level, method);
        let longer = matching(entries.take(i + 1), level, method);
        assert(entries.take(i + 1).drop_last() =~= entries.take(i));
        assert(longer.take(shorter.len() as int) =~= shorter);
        assert(all.take(shorter.len() as int) =~= all.take(longer.len() as int).take(
            shorter.len() as int,
        ));
    }
}

/// The entries that are asked for, at most as many as are asked for.
pub fn handle_tail(
    entries: &Vec<Json>,
    limit: Option<usize>,
    level: &Option<String>,
    method: &Option<String>,
) -> (r: Json)
    ensures
        r@ == ({
            let out = limited(
                matching(models(entries@), kept_opt(opt_text(*level)), kept_opt(opt_text(*method))),
                Some(tail_limit(limit)),
            );
            JsonModel::Object(
                no_fields()
                    .insert("entries"@, JsonModel::Array(out))
                    .insert("count"@, JsonModel::Unsigned(out.len() as u64)),
            )
        }),
{
    let (limit, _) = tail_request(limit);
    let level = trim_non_empty_opt(level);
    let method = trim_non_empty_opt(method);
    let ghost all = models(entries@);
    let ghost lv = opt_text(level);
    let ghost mt = opt_text(method);
    let mut out: Vec<Json> = Vec::new();
    let n: usize = entries.len();
    let mut i: usize = 0;
    proof {
        lemma_models(entries@);
        lemma_models(out@);
        assert(models(out@) =~= matching(all.take(0), lv, mt));
    }
    while i < n && out.len() < limit
        invariant
            n == entries@.len(),
            i <= n,
            all == models(entries@),
            lv == opt_text(level),
            mt == opt_text(method),
            out@.len() <= limit,
            out@.len() <= i,
            models(out@) == matching(all.take(i as int), lv, mt),
        decreases n - i,
    {
        let ghost so_far = out@;
        proof {
            let t = all.take(i + 1);
            assert(t.drop_last() =~= all.take(i as int));
            assert(t.last() == entries@[i as int]@);
        }
        if matches_level(&entries[i], &level) && matches_method(&entries[i], &method) {
            out.push(entries[i].copy());
            proof {
                lemma_models_push(so_far, out@.last());
            }
        }
        i = i + 1;
    }
    proof {
        lemma_models(out@);
        lemma_matching_grows(all, i as int, lv, mt);
        if i == n {
            assert(all.take(i as int) =~= all);
        }
        assert(models(out@) =~= limited(matching(all, lv, mt), Some(limit)));
    }
    let count: usize = out.len();
    let mut o = object();
    set_field(&mut o, "entries", Json::Array(out));
    set_field(&mut o, "count", Json::Unsigned(count as u64));
    Json::Object(o)
}

/// What is asked of the log is bounded: two hundred entries where nothing is said, at least one and at
/// most two thousand. Four times as many are looked through.
pub proof fn law_bounds_of_the_log(limit: Option<usize>, r: (usize, usize))
    requires
        call_ensures(tail_request, (limit,), r),
    ensures
        1 <= r.0 <= 2000,
        limit is None ==> r.0 == 200,
        limit is Some && 1 <= limit->0 <= 2000 ==> r.0 == limit->0,
        r.1 == 4 * r.0,
{
}

/// The entries that are shown are the first that have the level, in letters of either size, and the
/// method that are asked for.
pub proof fn law_entries_of_the_log(
    entries: &Vec<Json>,
    limit: Option<usize>,
    level: &Option<String>,
    method: &Option<String>,
    i: int,
    bounds: (usize, usize),
    r: Json,
)
    requires
        call_ensures(handle_tail, (entries, limit, level, method), r),
        call_ensures(tail_request, (limit,), bounds),
    ensures
        ({
            let shown = crate::json::member(r@, "entries"@)->0->Array_0;
            &&& crate::json::member(r@, "entries"@) is Some && crate::json::member(r@, "entries"@)->0 is Array
            &&& crate::json::member(r@, "count"@) == Some(JsonModel::Unsigned(shown.len() as u64))
            &&& shown.len() <= bounds.0
            &&& 0 <= i < shown.len() ==> fits(shown[i], *level, *method)
            &&& 0 <= i < entries@.len() && entries@.len() <= bounds.0 && fits(
                entries@[i]@,
                *level,
                *method,
            ) ==> shown.contains(entries@[i]@)
        }),
{
    reveal_strlit("entries");
    reveal_strlit("count");
    assert("entries"@.len() != "count"@.len());
    crate::rpc::methods::agent::lemma_is_given(*level);
    crate::rpc::methods::agent::lemma_is_given(*method);
    lemma_models(entries@);
    let all = models(entries@);
    let wanted = kept_opt(opt_text(*level));
    let asked = kept_opt(opt_text(*method));
    lemma_matching(all, wanted, asked);
    let some = matching(all, wanted, asked);
    if 0 <= i < entries@.len() {
        assert(all[i] == entries@[i]@);
    }
    if 0 <= i < some.len() {
        assert(has_level(some[i], wanted) && has_method(some[i], asked));
    }
}

/// Whether an entry has the level and the method that are asked for.
pub open spec fn fits(entry: JsonModel, level: Option<String>, method: Option<String>) -> bool {
    &&& crate::rpc::methods::agent::is_given(level) ==> (crate::json::member(entry, "level"@) matches Some(JsonModel::Text(found)) && lowered(found)
        == lowered(crate::text::trimmed(level->0@)))
    &&& crate::rpc::methods::agent::is_given(method) ==> crate::json::member(entry, "method"@) == Some(JsonModel::Text(crate::text::trimmed(method->0@)))
}

proof fn lemma_matching(entries: Seq<JsonModel>, level: Option<Seq<char>>, method: Option<Seq<char>>)
    ensures
        matching(entries, level, method).len() <= entries.len(),
        forall|k: int|
            0 <= k < entries.len() && has_level(#[trigger] entries[k], level) && has_method(
                entries[k],
                method,
            ) ==> matching(entries, level, method).contains(entries[k]),
        forall|k: int|
            0 <= k < matching(entries, level, method).len() ==> has_level(
                #[trigger] matching(entries, level, method)[k],
                level,
            ) && has_method(matching(entries, level, method)[k], method),
    decreases entries.len(),
{
    if entries.len() > 0 {
        let shorter = entries.drop_last();
        let earlier = matching(shorter, level, method);
        let some = matching(entries, level, method);
        lemma_matching(shorter, level, method);
        assert forall|k: int|
            0 <= k < entries.len() && has_level(#[trigger] entries[k], level) && has_method(
                entries[k],
                method,
            ) implies some.contains(entries[k]) by {
            if k < entries.len() - 1 {
                assert(shorter[k] == entries[k]);
                assert(earlier.contains(entries[k]));
                let p = choose|p: int| 0 <= p < earlier.len() && earlier[p] == entries[k];
                assert(some[p] == earlier[p]);
            } else {
                assert(some[earlier.len() as int] == entries[k]);
            }
        }
        assert forall|k: int| 0 <= k < some.len() implies has_level(#[trigger] some[k], level) && has_method(
            some[k],
            method,
        ) by {
            if k < earlier.len() {
                assert(some[k] == earlier[k]);
            }
        }
    }
}

} // verus!
