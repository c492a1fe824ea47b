//! The configuration document: read, replaced and patched.
use crate::json::{
    field, fields, lemma_members, member, members, no_fields, object, opt_model, set_field, text, Json,
    JsonModel,
};
use crate::protocol::errors::{invalid, invalid_request, ErrorModel, ErrorShape};
use crate::sorted_map::{entries_map, in_order, lemma_entries_map, SortedMap};
use crate::text::{before, cat5, lemma_before_irreflexive};
use vstd::prelude::*;

verus! {

broadcast use vstd::seq::group_seq_axioms;

/// The value that is given under either of two names.
pub open spec fn given(a: Option<JsonModel>, b: Option<JsonModel>) -> Option<JsonModel> {
    if a is Some {
        a
    } else {
        b
    }
}

/// Why a value cannot be taken: it is not there, or it is no object.
pub open spec fn value_refusal(
    method: Seq<char>,
    what: Seq<char>,
    value: Option<JsonModel>,
) -> Option<ErrorModel> {
    match value {
        None => Some(invalid("invalid "@ + method + " params: "@ + what + " object required"@)),
        Some(JsonModel::Object(_)) => None,
        Some(_) => Some(
            invalid("invalid "@ + method + " params: "@ + what + " must be an object"@),
        ),
    }
}

fn object_of(method: &str, what: &str, a: Option<Json>, b: Option<Json>) -> (r: Result<
    Json,
    ErrorShape,
>)
    ensures
        match value_refusal(method@, what@, given(opt_model(a), opt_model(b))) {
            Some(error) => r is Err && r->Err_0@ == error,
            None => r is Ok && Some(r->Ok_0@) == given(opt_model(a), opt_model(b)),
        },
{
    let value = if a.is_some() {
        a
    } else {
        b
    };
    let value = match value {
        Some(value) => value,
        None => {
            return Err(
                invalid_request(
                    cat5("invalid ", method, " params: ", what, " object required").as_str(),
                ),
            );
        },
    };
    if !value.is_object() {
        return Err(
            invalid_request(
                cat5("invalid ", method, " params: ", what, " must be an object").as_str(),
            ),
        );
    }
    Ok(value)
}

/// The document that is given, or a refusal.
pub fn resolve_config_value(config: Option<Json>, raw: Option<Json>, method: &str) -> (r: Result<
    Json,
    ErrorShape,
>)
    ensures
        match value_refusal(method@, "config"@, given(opt_model(config), opt_model(raw))) {
            Some(error) => r is Err && r->Err_0@ == error,
            None => r is Ok && Some(r->Ok_0@) == given(opt_model(config), opt_model(raw)),
        },
{
    object_of(method, "config", config, raw)
}

/// The patch that is given, or a refusal.
pub fn resolve_patch_value(patch: Option<Json>, raw: Option<Json>) -> (r: Result<Json, ErrorShape>)
    ensures
        match value_refusal("config.patch"@, "patch"@, given(opt_model(patch), opt_model(raw))) {
            Some(error) => r is Err && r->Err_0@ == error,
            None => r is Ok && Some(r->Ok_0@) == given(opt_model(patch), opt_model(raw)),
        },
{
    object_of("config.patch", "patch", patch, raw)
}

/// The members of an object; none of another value.
pub open spec fn fields_of(value: JsonModel) -> Map<Seq<char>, JsonModel> {
    match value {
        JsonModel::Object(m) => m,
        _ => no_fields(),
    }
}

/// A value after a patch. A patch that is no object takes its place. Of an object, a member that is
/// null is taken out, an object goes over the one that is there, and any other value takes its
/// place.
pub open spec fn patched(target: JsonModel, patch: JsonModel) -> JsonModel
    decreases patch,
{
    match patch {
        JsonModel::Object(p) => {
            let t = fields_of(target);
            JsonModel::Object(
                Map::new(
                    |k: Seq<char>|
                        if p.contains_key(k) {
                            !(p[k] is Null)
                        } else {
                            t.contains_key(k)
                        },
                    |k: Seq<char>|
                        if p.contains_key(k) {
                            if p[k] is Object && t.contains_key(k) {
                                patched(t[k], p[k])
                            } else {
                                p[k]
                            }
                        } else {
                            t[k]
                        },
                ),
            )
        },
        _ => patch,
    }
}

/// The members of an object after a patch.
pub open spec fn patched_fields(t: Map<Seq<char>, JsonModel>, p: Map<Seq<char>, JsonModel>) -> Map<
    Seq<char>,
    JsonModel,
> {
    fields_of(patched(JsonModel::Object(t), JsonModel::Object(p)))
}

/// One more member of a patch.
proof fn lemma_patched_insert(
    t: Map<Seq<char>, JsonModel>,
    p: Map<Seq<char>, JsonModel>,
    name: Seq<char>,
    value: JsonModel,
)
    requires
        !p.contains_key(name),
    ensures
        patched_fields(t, p.insert(name, value)) == (if value is Null {
            patched_fields(t, p).remove(name)
        } else if value is Object && t.contains_key(name) {
            patched_fields(t, p).insert(name, patched(t[name], value))
        } else {
            patched_fields(t, p).insert(name, value)
        }),
        patched_fields(t, p).contains_key(name) == t.contains_key(name),
        t.contains_key(name) ==> patched_fields(t, p)[name] == t[name],
{
    let earlier = patched_fields(t, p);
    let after = patched_fields(t, p.insert(name, value));
    if value is Null {
        assert(after =~= earlier.remove(name));
    } else if value is Object && t.contains_key(name) {
        assert(after =~= earlier.insert(name, patched(t[name], value)));
    } else {
        assert(after =~= earlier.insert(name, value));
    }
}

/// A name does not occur before its place.
proof fn lemma_name_is_new(entries: Seq<(String, Json)>, i: int)
    requires
        in_order(entries),
        0 <= i < entries.len(),
    ensures
        !members(entries.take(i)).contains_key(entries[i].0@),
{
    let shorter = entries.take(i);
    let name = entries[i].0@;
    assert forall|a: int, b: int| #![trigger shorter[a], shorter[b]] 0 <= a < b < shorter.len() implies before(
        shorter[a].0@,
        shorter[b].0@,
    ) by {
        assert(shorter[a] == entries[a] && shorter[b] == entries[b]);
    }
    lemma_entries_map(shorter);
    lemma_members(shorter);
    if members(shorter).contains_key(name) {
        assert(members(shorter).dom().contains(name));
        assert(entries_map(shorter).contains_key(name));
        let k = choose|k: int|
            #![trigger shorter[k]]
            0 <= k < shorter.len() && shorter[k].0@ == name;
        assert(entries[k] == shorter[k]);
        assert(before(entries[k].0@, entries[i].0@));
        lemma_before_irreflexive(name);
    }
}

/// Puts a patch on a value.
pub fn merge_patch(target: Json, patch: &Json) -> (r: Json)
    ensures
        r@ == patched(target@, patch@),
    decreases patch,
{
    let p = match patch {
        Json::Object(p) => p,
        other => {
            return other.copy();
        },
    };
    let map = match target {
        Json::Object(map) => map,
        _ => object(),
    };
    let ghost t = fields(map);
    let merged = merge_fields(map, p);
    assert(patched(target@, patch@) =~= JsonModel::Object(patched_fields(t, fields(*p))));
    Json::Object(merged)
}

/// Puts the members of a patch on those of an object.
fn merge_fields(map: SortedMap<Json>, p: &SortedMap<Json>) -> (r: SortedMap<Json>)
    ensures
        fields(r) == patched_fields(fields(map), fields(*p)),
    decreases p,
{
    let mut map = map;
    let ghost t = fields(map);
    let ghost entries = p.entries();
    let n: usize = p.len();
    let mut i: usize = 0;
    proof {
        assert(entries.take(0) =~= Seq::<(String, Json)>::empty());
        assert(patched_fields(t, members(entries.take(0))) =~= t);
    }
    while i < n
        invariant
            n == p.keys().len(),
            n == entries.len(),
            entries == p.entries(),
            in_order(entries),
            i <= n,
            fields(map) == patched_fields(t, members(entries.take(i as int))),
        decreases n - i,
    {
        let (name, value) = p.entry(i);
        let ghost so_far = members(entries.take(i as int));
        proof {
            p.lemma_entries_smaller();
            assert(entries[i as int].1 == *value);
            assert(entries[i as int].0@ == name@);
            let longer = entries.take(i + 1);
            assert(longer.drop_last() =~= entries.take(i as int));
            assert(longer.last() == entries[i as int]);
            lemma_name_is_new(entries, i as int);
            lemma_patched_insert(t, so_far, name@, value@);
            lemma_members(map.entries());
        }
        match value {
            Json::Null => {
                crate::json::remove_field(&mut map, name.as_str());
            },
            Json::Object(_) => {
                let ghost was = fields(map);
                let existing = map.remove(name.as_str());
                proof {
                    lemma_members(map.entries());
                    assert(fields(map) =~= was.remove(name@));
                }
                match existing {
                    Some(existing) => {
                        let next = merge_patch(existing, value);
                        let ghost next_model = next@;
                        set_field(&mut map, name.as_str(), next);
                        assert(fields(map) =~= was.insert(name@, next_model));
                    },
                    None => {
                        set_field(&mut map, name.as_str(), value.copy());
                        assert(fields(map) =~= was.insert(name@, value@));
                    },
                }
            },
            other => {
                set_field(&mut map, name.as_str(), other.copy());
            },
        }
        i = i + 1;
    }
    proof {
        assert(entries.take(n as int) =~= entries);
    }
    map
}

/// What is answered when the document was changed.
pub open spec fn config_answer(path: Seq<char>, config: JsonModel) -> JsonModel {
    JsonModel::Object(
        no_fields()
            .insert("ok"@, JsonModel::Bool(true))
            .insert("path"@, JsonModel::Text(path))
            .insert("config"@, config),
    )
}

/// What is answered when the document was changed.
pub fn config_reply(path: &str, config: &Json) -> (r: Json)
    ensures
        r@ == config_answer(path@, config@),
{
    let mut o = object();
    set_field(&mut o, "ok", Json::Bool(true));
    set_field(&mut o, "path", text(path));
    set_field(&mut o, "config", config.copy());
    Json::Object(o)
}

/// The document to store, and the answer, when it is replaced.
pub fn handle_set(config: Option<Json>, raw: Option<Json>, method: &str, path: &str) -> (r: Result<
    (Json, Json),
    ErrorShape,
>)
    ensures
        match value_refusal(method@, "config"@, given(opt_model(config), opt_model(raw))) {
            Some(error) => r is Err && r->Err_0@ == error,
            None => r is Ok && Some(r->Ok_0.0@) == given(opt_model(config), opt_model(raw))
                && r->Ok_0.1@ == config_answer(path@, r->Ok_0.0@),
        },
{
    let config = resolve_config_value(config, raw, method)?;
    let answer = config_reply(path, &config);
    Ok((config, answer))
}

/// The document to store, and the answer, when it is patched.
pub fn handle_patch(current: Json, patch: &Json, path: &str) -> (r: (Json, Json))
    ensures
        r.0@ == JsonModel::Object(fields_of(patched(current@, patch@))),
        r.1@ == config_answer(path@, r.0@),
{
    let merged = merge_patch(current, patch);
    let config = if merged.is_object() {
        merged
    } else {
        Json::Object(object())
    };
    let answer = config_reply(path, &config);
    (config, answer)
}

/// The schema of the document.
pub fn handle_schema() -> (r: Json)
    ensures
        r@ == JsonModel::Object(
            no_fields()
                .insert("$schema"@, JsonModel::Text("https://json-schema.org/draft/2020-12/schema"@))
                .insert("title"@, JsonModel::Text("Reclaw Config"@))
                .insert("type"@, JsonModel::Text("object"@))
                .insert("additionalProperties"@, JsonModel::Bool(true))
                .insert("description"@, JsonModel::Text("Runtime configuration document persisted in SQLite."@)),
        ),
{
    let mut o = object();
    set_field(&mut o, "$schema", text("https://json-schema.org/draft/2020-12/schema"));
    set_field(&mut o, "title", text("Reclaw Config"));
    set_field(&mut o, "type", text("object"));
    set_field(&mut o, "additionalProperties", Json::Bool(true));
    set_field(&mut o, "description", text("Runtime configuration document persisted in SQLite."));
    Json::Object(o)
}

// ---------------------------------------------------------------------------------------------
// Laws
// ---------------------------------------------------------------------------------------------
/// A patch that is an object leaves an object.
pub proof fn law_patched_documents_are_objects(target: JsonModel, patch: JsonModel)
    requires
        patch is Object,
    ensures
        patched(target, patch) is Object,
{
}

/// A member that is null in a patch is gone afterwards.
pub proof fn law_null_removes(
    t: Map<Seq<char>, JsonModel>,
    p: Map<Seq<char>, JsonModel>,
    name: Seq<char>,
)
    requires
        p.contains_key(name),
        p[name] is Null,
    ensures
        field(patched_fields(t, p), name) is None,
{
}

/// A member that a patch does not name stays as it is.
pub proof fn law_unnamed_members_stay(
    t: Map<Seq<char>, JsonModel>,
    p: Map<Seq<char>, JsonModel>,
    name: Seq<char>,
)
    requires
        !p.contains_key(name),
    ensures
        field(patched_fields(t, p), name) == field(t, name),
{
}

/// A patch without members changes no object.
pub proof fn law_empty_patch_changes_nothing(t: Map<Seq<char>, JsonModel>)
    ensures
        patched(JsonModel::Object(t), JsonModel::Object(no_fields())) == JsonModel::Object(t),
{
    assert(patched_fields(t, no_fields()) =~= t);
}

/// Each member of a patched document is what the patch says of it: gone where the patch says null,
/// patched itself where both sides are objects, and else what the patch gives. What it does not
/// name stays.
pub proof fn law_patching(target: Json, patch: &Json, name: Seq<char>, r: Json)
    requires
        call_ensures(merge_patch, (target, patch), r),
    ensures
        !(patch@ is Object) ==> r@ == patch@,
        patch@ is Object ==> {
            let said = member(patch@, name);
            let before = member(target@, name);
            &&& r@ is Object
            &&& said is None ==> member(r@, name) == before
            &&& said == Some(JsonModel::Null) ==> member(r@, name) is None
            &&& said is Some && !(said->0 is Null) && !(said->0 is Object) ==> member(r@, name) == said
            &&& said is Some && said->0 is Object && before is None ==> member(r@, name) == said
            &&& said is Some && said->0 is Object && before is Some ==> member(r@, name) == Some(
                patched(before->0, said->0),
            )
        },
{
}

/// A member of a member is patched as a member is.
pub proof fn law_patching_goes_deep(
    target: Json,
    patch: &Json,
    outer: Seq<char>,
    name: Seq<char>,
    value: JsonModel,
    r: Json,
)
    requires
        call_ensures(merge_patch, (target, patch), r),
        member(patch@, outer) is Some && member(patch@, outer)->0 is Object,
        member(target@, outer) is Some && member(target@, outer)->0 is Object,
    ensures
        member(r@, outer) is Some && member(r@, outer)->0 is Object,
        member(member(patch@, outer)->0, name) is None ==> member(member(r@, outer)->0, name)
            == member(member(target@, outer)->0, name),
        member(member(patch@, outer)->0, name) == Some(JsonModel::Null) ==> member(
            member(r@, outer)->0,
            name,
        ) is None,
        member(member(patch@, outer)->0, name) == Some(value) && !(value is Null) && !(value is Object)
            ==> member(member(r@, outer)->0, name) == Some(value),
{
    reveal_with_fuel(patched, 3);
}

/// Of the two places of a document the first counts where it is given. It must be an object, and is
/// stored and shown as it stands.
pub proof fn law_setting(
    config: Option<Json>,
    raw: Option<Json>,
    method: &str,
    path: &str,
    r: Result<(Json, Json), ErrorShape>,
)
    requires
        call_ensures(handle_set, (config, raw, method, path), r),
    ensures
        ({
            let value = if config is Some {
                config
            } else {
                raw
            };
            &&& r is Ok <==> value is Some && value->0@ is Object
            &&& r is Err ==> r->Err_0.code@ == "INVALID_REQUEST"@
            &&& r is Ok ==> r->Ok_0.0@ == value->0@ && member(r->Ok_0.1@, "config"@) == Some(
                value->0@,
            ) && member(r->Ok_0.1@, "path"@) == Some(JsonModel::Text(path@)) && member(
                r->Ok_0.1@,
                "ok"@,
            ) == Some(JsonModel::Bool(true))
        }),
{
    reveal_strlit("ok");
    reveal_strlit("path");
    reveal_strlit("config");
    assert("ok"@.len() != "path"@.len());
    assert("ok"@.len() != "config"@.len());
    assert("path"@.len() != "config"@.len());
}

/// A patch of the document stores what merging gives, and shows it.
pub proof fn law_storing_a_patch(current: Json, patch: &Json, path: &str, merged: Json, r: (Json, Json))
    requires
        call_ensures(handle_patch, (current, patch, path), r),
        call_ensures(merge_patch, (current, patch), merged),
        patch@ is Object,
    ensures
        r.0@ == merged@,
        member(r.1@, "config"@) == Some(merged@),
        member(r.1@, "path"@) == Some(JsonModel::Text(path@)),
{
    reveal_strlit("ok");
    reveal_strlit("path");
    reveal_strlit("config");
    assert("ok"@.len() != "path"@.len());
    assert("ok"@.len() != "config"@.len());
    assert("path"@.len() != "config"@.len());
}

} // verus!
