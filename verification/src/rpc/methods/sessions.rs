//! Sessions: listed, looked into, changed and removed.
use crate::application::state::copy_texts;
use crate::domain::models::{session_record_json, ChatMessage, SessionRecord};
use crate::json::{
    lemma_models, member, models, no_fields, object, set_field, text, Json, JsonModel,
};
use crate::lists::{distinct, sanitize};
use crate::protocol::errors::{invalid, invalid_request, ErrorShape};
use crate::interfaces::discord::said;
use crate::text::{cat, first_of, from_range, kept, kept_opt, lemma_kept, not_blank, opt_text, or_text, text_or, texts, to_chars, trim_non_empty, trim_non_empty_opt, trimmed};
use vstd::prelude::*;

verus! {

broadcast use vstd::seq::group_seq_axioms;

/// Sessions as JSON.
pub open spec fn sessions_json(items: Seq<SessionRecord>) -> Seq<JsonModel> {
    items.map_values(|item: SessionRecord| session_record_json(item))
}

/// Sessions as JSON.
pub fn sessions_to_json(items: &Vec<SessionRecord>) -> (r: Json)
    ensures
        r@ == JsonModel::Array(sessions_json(items@)),
{
    let mut out: Vec<Json> = Vec::new();
    let mut i: usize = 0;
    while i < items.len()
        invariant
            i <= items@.len(),
            out@.len() == i,
            forall|k: int| 0 <= k < i ==> (#[trigger] out@[k])@ == session_record_json(items@[k]),
        decreases items@.len() - i,
    {
        out.push(items[i].to_json());
        i = i + 1;
    }
    proof {
        crate::json::lemma_models(out@);
        assert(crate::json::models(out@) =~= sessions_json(items@));
    }
    Json::Array(out)
}

/// The first of the items, at most as many as the limit says.
pub open spec fn limited<V>(items: Seq<V>, limit: Option<usize>) -> Seq<V> {
    match limit {
        Some(n) => if n < items.len() {
            items.take(n as int)
        } else {
            items
        },
        None => items,
    }
}

/// The first of the items, at most as many as the limit says.
pub fn limit_items<V>(items: Vec<V>, limit: Option<usize>) -> (r: Vec<V>)
    ensures
        r@ == limited(items@, limit),
{
    let mut items = items;
    if let Some(n) = limit {
        if n < items.len() {
            items.truncate(n);
        }
    }
    items
}

/// The sessions.
pub fn handle_list(sessions: Vec<SessionRecord>, limit: Option<usize>, now: u64) -> (r: Json)
    ensures
        r@ == JsonModel::Object(
            no_fields()
                .insert("ts"@, JsonModel::Unsigned(now))
                .insert("sessions"@, JsonModel::Array(sessions_json(limited(sessions@, limit)))),
        ),
{
    let some = limit_items(sessions, limit);
    let mut o = object();
    set_field(&mut o, "ts", Json::Unsigned(now));
    set_field(&mut o, "sessions", sessions_to_json(&some));
    Json::Object(o)
}

// ---------------------------------------------------------------------------------------------
// The method `sessions.preview`
// ---------------------------------------------------------------------------------------------
/// The trimmed keys that are not blank.
pub open spec fn named_keys(keys: Seq<Seq<char>>) -> Seq<Seq<char>>
    decreases keys.len(),
{
    if keys.len() == 0 {
        keys
    } else {
        match kept(keys.last()) {
            Some(key) => named_keys(keys.drop_last()).push(key),
            None => named_keys(keys.drop_last()),
        }
    }
}

/// The keys that are looked into: 64 at most.
pub open spec fn looked_into(keys: Seq<Seq<char>>) -> Seq<Seq<char>> {
    if named_keys(keys).len() > 64 {
        named_keys(keys).take(64)
    } else {
        named_keys(keys)
    }
}

/// What is looked into.
pub struct PreviewRequest {
    pub keys: Vec<String>,
    pub limit: usize,
    pub max_chars: usize,
}

/// A number within bounds; a default where there is none.
pub open spec fn clamped(value: Option<usize>, default: usize, low: usize, high: usize) -> usize {
    match value {
        None => default,
        Some(n) => if n < low {
            low
        } else if n > high {
            high
        } else {
            n
        },
    }
}

fn clamp_or(value: Option<usize>, default: usize, low: usize, high: usize) -> (r: usize)
    ensures
        r == clamped(value, default, low, high),
{
    match value {
        None => default,
        Some(n) => if n < low {
            low
        } else if n > high {
            high
        } else {
            n
        },
    }
}

/// What is looked into: which sessions, how many messages of each, and how much of each message.
pub fn preview_request(keys: &Vec<String>, limit: Option<usize>, max_chars: Option<usize>) -> (r:
    PreviewRequest)
    ensures
        texts(r.keys@) == looked_into(texts(keys@)),
        r.limit == clamped(limit, 12, 1, 200),
        r.max_chars == clamped(max_chars, 240, 20, 4_096),
{
    let mut named: Vec<String> = Vec::new();
    let mut i: usize = 0;
    assert(texts(named@) =~= named_keys(texts(keys@).take(0)));
    while i < keys.len()
        invariant
            i <= keys@.len(),
            texts(named@) == named_keys(texts(keys@).take(i as int)),
        decreases keys@.len() - i,
    {
        let ghost so_far = named@;
        proof {
            let t = texts(keys@).take(i + 1);
            assert(t.drop_last() =~= texts(keys@).take(i as int));
            assert(t.last() == keys@[i as int]@);
        }
        if let Some(key) = trim_non_empty(keys[i].as_str()) {
            named.push(key);
            assert(texts(named@) =~= texts(so_far).push(key@));
        }
        i = i + 1;
    }
    assert(texts(keys@).take(i as int) =~= texts(keys@));
    let ghost all = named@;
    assert(texts(all).len() == all.len());
    if named.len() > 64 {
        named.truncate(64);
        assert(texts(named@) =~= texts(all).take(64));
    }
    PreviewRequest {
        keys: named,
        limit: clamp_or(limit, 12, 1, 200),
        max_chars: clamp_or(max_chars, 240, 20, 4_096),
    }
}

/// The beginning of a text: as many characters as are allowed.
pub open spec fn shortened(s: Seq<char>, max_chars: usize) -> Seq<char> {
    if s.len() > max_chars {
        s.take(max_chars as int)
    } else {
        s
    }
}

/// What is shown of a message.
pub open spec fn preview_item(m: ChatMessage, max_chars: usize) -> JsonModel {
    JsonModel::Object(
        no_fields()
            .insert("id"@, JsonModel::Text(m.id@))
            .insert("role"@, JsonModel::Text(m.role@))
            .insert("text"@, JsonModel::Text(shortened(m.text@, max_chars)))
            .insert("status"@, JsonModel::Text(m.status@))
            .insert("ts"@, JsonModel::Unsigned(m.ts)),
    )
}

/// What is shown of a session: whether it is there, and its messages.
pub open spec fn session_preview(key: Seq<char>, known: bool, messages: Seq<ChatMessage>, max_chars: usize) -> JsonModel {
    JsonModel::Object(
        no_fields()
            .insert("key"@, JsonModel::Text(key))
            .insert("status"@, JsonModel::Text(if !known { "missing"@ } else if messages.len() == 0 { "empty"@ } else { "ok"@ }))
            .insert("items"@, JsonModel::Array(messages.map_values(|m: ChatMessage| preview_item(m, max_chars)))),
    )
}

/// What is shown of a session.
pub fn preview_session(key: &str, known: bool, messages: &Vec<ChatMessage>, max_chars: usize) -> (r: Json)
    ensures
        r@ == session_preview(key@, known, messages@, max_chars),
{
    let mut out: Vec<Json> = Vec::new();
    let mut i: usize = 0;
    while i < messages.len()
        invariant
            i <= messages@.len(),
            out@.len() == i,
            forall|k: int|
                0 <= k < i ==> (#[trigger] out@[k])@ == preview_item(messages@[k], max_chars),
        decreases messages@.len() - i,
    {
        let m = &messages[i];
        let chars = to_chars(m.text.as_str());
        let body = if chars.len() > max_chars {
            from_range(&chars, 0, max_chars)
        } else {
            m.text.clone()
        };
        assert(body@ =~= shortened(m.text@, max_chars));
        let mut o = object();
        set_field(&mut o, "id", text(m.id.as_str()));
        set_field(&mut o, "role", text(m.role.as_str()));
        set_field(&mut o, "text", text(body.as_str()));
        set_field(&mut o, "status", text(m.status.as_str()));
        set_field(&mut o, "ts", Json::Unsigned(m.ts));
        out.push(Json::Object(o));
        i = i + 1;
    }
    proof {
        lemma_models(out@);
        assert(models(out@) =~= messages@.map_values(|m: ChatMessage| preview_item(m, max_chars)));
    }
    let status = if !known {
        "missing"
    } else if messages.len() == 0 {
        "empty"
    } else {
        "ok"
    };
    let mut o = object();
    set_field(&mut o, "key", text(key));
    set_field(&mut o, "status", text(status));
    set_field(&mut o, "items", Json::Array(out));
    Json::Object(o)
}

/// What is shown of all sessions that are looked into.
pub fn handle_preview(previews: Vec<Json>, now: u64) -> (r: Json)
    ensures
        r@ == JsonModel::Object(
            no_fields()
                .insert("ts"@, JsonModel::Unsigned(now))
                .insert("previews"@, JsonModel::Array(models(previews@))),
        ),
{
    let mut o = object();
    set_field(&mut o, "ts", Json::Unsigned(now));
    set_field(&mut o, "previews", Json::Array(previews));
    Json::Object(o)
}

// ---------------------------------------------------------------------------------------------
// The method `sessions.patch`
// ---------------------------------------------------------------------------------------------
/// What is changed of a session.
pub struct SessionsPatchParams {
    pub id: Option<String>,
    pub key: Option<String>,
    pub title: Option<String>,
    pub tags: Option<Vec<String>>,
    pub metadata: Option<Json>,
}

/// The session that is named, by its id or its key.
pub fn resolve_session_id(id: &Option<String>, key: &Option<String>) -> (r: Result<String, ErrorShape>)
    ensures
        match kept_opt(first_of(opt_text(*id), opt_text(*key))) {
            Some(s) => r is Ok && r->Ok_0@ == s,
            None => r is Err && r->Err_0@ == invalid(
                "invalid sessions params: id or key is required"@,
            ),
        },
{
    let named = if id.is_some() {
        trim_non_empty_opt(id)
    } else {
        trim_non_empty_opt(key)
    };
    match named {
        Some(s) => Ok(s),
        None => Err(invalid_request("invalid sessions params: id or key is required")),
    }
}

/// The tags of a session: trimmed, without blanks, each once.
pub fn sanitize_tags(tags: &Vec<String>) -> (r: Vec<String>)
    ensures
        texts(r@) == distinct(texts(tags@)),
{
    sanitize(tags)
}

/// A session after a change: what is not changed stays, and a new one has defaults.
pub open spec fn is_patched(
    new: SessionRecord,
    existing: Option<SessionRecord>,
    params: SessionsPatchParams,
    id: Seq<char>,
    now: u64,
) -> bool {
    &&& new.id@ == id
    &&& new.title@ == text_or(
        first_of(
            kept_opt(opt_text(params.title)),
            match existing {
                Some(s) => Some(s.title@),
                None => None,
            },
        ),
        "Session "@ + id,
    )
    &&& texts(new.tags@) == (match (params.tags, existing) {
        (Some(tags), _) => distinct(texts(tags@)),
        (None, Some(s)) => texts(s.tags@),
        (None, None) => Seq::empty(),
    })
    &&& new.metadata@ == (match (params.metadata, existing) {
        (Some(value), _) => value@,
        (None, Some(s)) => s.metadata@,
        (None, None) => JsonModel::Object(no_fields()),
    })
    &&& new.created_at_ms == (match existing {
        Some(s) => s.created_at_ms,
        None => now,
    })
    &&& new.updated_at_ms == now
}

/// A session after a change, and what is answered.
pub fn handle_patch(
    params: SessionsPatchParams,
    id: &str,
    existing: Option<SessionRecord>,
    now: u64,
) -> (r: Result<(SessionRecord, Json), ErrorShape>)
    ensures
        if params.metadata is Some && !(params.metadata->0@ is Object) {
            r is Err && r->Err_0@ == invalid(
                "invalid sessions.patch params: metadata must be an object"@,
            )
        } else {
            &&& r is Ok
            &&& is_patched(r->Ok_0.0, existing, params, id@, now)
            &&& r->Ok_0.1@ == JsonModel::Object(
                no_fields()
                    .insert("ok"@, JsonModel::Bool(true))
                    .insert("key"@, JsonModel::Text(id@))
                    .insert("entry"@, session_record_json(r->Ok_0.0)),
            )
        },
{
    let created: u64 = match &existing {
        Some(s) => s.created_at_ms,
        None => now,
    };
    let fallback = match &existing {
        Some(s) => s.title.clone(),
        None => cat("Session ", id),
    };
    let title = or_text(trim_non_empty_opt(&params.title), fallback.as_str());
    let tags = match (&params.tags, &existing) {
        (Some(tags), _) => sanitize_tags(tags),
        (None, Some(s)) => copy_texts(&s.tags),
        (None, None) => {
            let none: Vec<String> = Vec::new();
            assert(texts(none@) =~= Seq::<Seq<char>>::empty());
            none
        },
    };
    let metadata = match (params.metadata, existing) {
        (Some(value), _) => {
            if !value.is_object() {
                return Err(
                    invalid_request("invalid sessions.patch params: metadata must be an object"),
                );
            }
            value
        },
        (None, Some(s)) => s.metadata,
        (None, None) => Json::Object(object()),
    };
    let next = SessionRecord {
        id: id.to_owned(),
        title,
        tags,
        metadata,
        created_at_ms: created,
        updated_at_ms: now,
    };
    let mut o = object();
    set_field(&mut o, "ok", Json::Bool(true));
    set_field(&mut o, "key", text(id));
    set_field(&mut o, "entry", next.to_json());
    Ok((next, Json::Object(o)))
}

// ---------------------------------------------------------------------------------------------
// Removing
// ---------------------------------------------------------------------------------------------
/// What is answered when all sessions were removed.
pub fn handle_reset(removed: u64) -> (r: Json)
    ensures
        r@ == JsonModel::Object(
            no_fields()
                .insert("ok"@, JsonModel::Bool(true))
                .insert("removed"@, JsonModel::Unsigned(removed)),
        ),
{
    let mut o = object();
    set_field(&mut o, "ok", Json::Bool(true));
    set_field(&mut o, "removed", Json::Unsigned(removed));
    Json::Object(o)
}

/// What is answered when a session was to be removed.
pub fn handle_delete(id: &str, deleted: bool) -> (r: Json)
    ensures
        r@ == JsonModel::Object(
            no_fields()
                .insert("ok"@, JsonModel::Bool(true))
                .insert("key"@, JsonModel::Text(id@))
                .insert("deleted"@, JsonModel::Bool(deleted)),
        ),
{
    let mut o = object();
    set_field(&mut o, "ok", Json::Bool(true));
    set_field(&mut o, "key", text(id));
    set_field(&mut o, "deleted", Json::Bool(deleted));
    Json::Object(o)
}

/// How old a session may get: as old as is asked for, and a week where nothing is.
pub fn compact_age(max_age_ms: Option<u64>) -> (r: u64)
    ensures
        r == (match max_age_ms {
            Some(ms) => ms,
            None => 604_800_000,
        }),
{
    match max_age_ms {
        Some(ms) => ms,
        None => 604_800_000,
    }
}

/// What is answered when old sessions were removed.
pub fn handle_compact(removed: u64, max_age_ms: u64) -> (r: Json)
    ensures
        r@ == JsonModel::Object(
            no_fields()
                .insert("ok"@, JsonModel::Bool(true))
                .insert("removed"@, JsonModel::Unsigned(removed))
                .insert("maxAgeMs"@, JsonModel::Unsigned(max_age_ms)),
        ),
{
    let mut o = object();
    set_field(&mut o, "ok", Json::Bool(true));
    set_field(&mut o, "removed", Json::Unsigned(removed));
    set_field(&mut o, "maxAgeMs", Json::Unsigned(max_age_ms));
    Json::Object(o)
}

// ---------------------------------------------------------------------------------------------
// Laws
// ---------------------------------------------------------------------------------------------
/// A change that names nothing keeps all of a session but the time of its last change.
pub proof fn law_empty_patch_keeps_the_session(
    new: SessionRecord,
    old: SessionRecord,
    params: SessionsPatchParams,
    now: u64,
)
    requires
        params.title is None,
        params.tags is None,
        params.metadata is None,
        is_patched(new, Some(old), params, old.id@, now),
    ensures
        session_record_json(new) == session_record_json(
            (SessionRecord { updated_at_ms: now, ..old }),
        ),
{
}

/// What is shown of a message is never longer than is allowed, and is a beginning of it.
pub proof fn law_previews_are_short(s: Seq<char>, max_chars: usize)
    ensures
        shortened(s, max_chars).len() <= max_chars,
        shortened(s, max_chars) == s.take(shortened(s, max_chars).len() as int),
{
    assert(s.take(s.len() as int) =~= s);
}

/// The sessions that are listed are the first ones, in their order: as many as are asked for, or all
/// where there are no more.
pub proof fn law_sessions_are_listed(
    sessions: Vec<SessionRecord>,
    limit: Option<usize>,
    now: u64,
    i: int,
    one: Json,
    r: Json,
)
    requires
        call_ensures(handle_list, (sessions, limit, now), r),
        0 <= i < sessions@.len(),
        limit is Some ==> i < limit->0,
        call_ensures(SessionRecord::to_json, (&sessions@[i],), one),
    ensures
        member(r@, "ts"@) == Some(JsonModel::Unsigned(now)),
        ({
            let listed = member(r@, "sessions"@)->0->Array_0;
            &&& member(r@, "sessions"@) is Some && member(r@, "sessions"@)->0 is Array
            &&& listed.len() == (if limit is Some && limit->0 < sessions@.len() {
                limit->0 as nat
            } else {
                sessions@.len()
            })
            &&& listed[i] == one@
        }),
{
    reveal_strlit("ts");
    reveal_strlit("sessions");
    assert("ts"@.len() != "sessions"@.len());
}

/// Of the keys that are asked for, those that are not blank are looked into, trimmed and in their
/// order, up to sixty-four of them. How many messages and how many characters are shown is bounded.
pub proof fn law_what_is_looked_into(
    keys: &Vec<String>,
    limit: Option<usize>,
    max_chars: Option<usize>,
    i: int,
    r: PreviewRequest,
)
    requires
        call_ensures(preview_request, (keys, limit, max_chars), r),
    ensures
        r.keys@.len() <= 64,
        keys@.len() <= 64 && 0 <= i < keys@.len() && not_blank(keys@[i]@) ==> texts(r.keys@).contains(
            trimmed(keys@[i]@),
        ),
        0 <= i < r.keys@.len() ==> exists|k: int|
            0 <= k < keys@.len() && not_blank((#[trigger] keys@[k])@) && r.keys@[i]@ == trimmed(
                keys@[k]@,
            ),
        limit is None ==> r.limit == 12,
        limit is Some ==> 1 <= r.limit <= 200,
        limit is Some && 1 <= limit->0 <= 200 ==> r.limit == limit->0,
        max_chars is None ==> r.max_chars == 240,
        max_chars is Some ==> 20 <= r.max_chars <= 4096,
        max_chars is Some && 20 <= max_chars->0 <= 4096 ==> r.max_chars == max_chars->0,
{
    let all = texts(keys@);
    let out = texts(r.keys@);
    assert(out.len() == r.keys@.len());
    lemma_named_keys(all, i);
    if 0 <= i < keys@.len() {
        assert(all[i] == keys@[i]@);
        lemma_kept(keys@[i]@);
    }
    if 0 <= i < r.keys@.len() {
        assert(out[i] == r.keys@[i]@);
        assert(out[i] == named_keys(all)[i]);
        let k = choose|k: int| 0 <= k < all.len() && kept(#[trigger] all[k]) == Some(named_keys(all)[i]);
        assert(all[k] == keys@[k]@);
        lemma_kept(keys@[k]@);
    }
}

proof fn lemma_named_keys(keys: Seq<Seq<char>>, i: int)
    ensures
        named_keys(keys).len() <= keys.len(),
        0 <= i < keys.len() && kept(keys[i]) is Some ==> named_keys(keys).contains(kept(keys[i])->0),
        0 <= i < named_keys(keys).len() ==> exists|k: int|
            0 <= k < keys.len() && kept(#[trigger] keys[k]) == Some(named_keys(keys)[i]),
    decreases keys.len(),
{
    if keys.len() > 0 {
        let shorter = keys.drop_last();
        let earlier = named_keys(shorter);
        lemma_named_keys(shorter, i);
        if 0 <= i < keys.len() && kept(keys[i]) is Some {
            if i < keys.len() - 1 {
                assert(shorter[i] == keys[i]);
                let j = choose|j: int| 0 <= j < earlier.len() && earlier[j] == kept(keys[i])->0;
                assert(named_keys(keys)[j] == kept(keys[i])->0);
            } else {
                assert(named_keys(keys)[earlier.len() as int] == kept(keys[i])->0);
            }
        }
        if 0 <= i < named_keys(keys).len() {
            if i < earlier.len() {
                assert(named_keys(keys)[i] == earlier[i]);
                let k = choose|k: int| 0 <= k < shorter.len() && kept(#[trigger] shorter[k]) == Some(earlier[i]);
                assert(keys[k] == shorter[k]);
            } else {
                assert(kept(keys[keys.len() - 1]) == Some(named_keys(keys)[i]));
            }
        }
    }
}

/// A session that is looked into is shown with its messages in their order, each with the beginning
/// of its words, and one that is not known is shown as missing.
pub proof fn law_sessions_are_shown(
    key: &str,
    known: bool,
    messages: &Vec<ChatMessage>,
    max_chars: usize,
    i: int,
    r: Json,
)
    requires
        call_ensures(preview_session, (key, known, messages, max_chars), r),
    ensures
        member(r@, "key"@) == Some(JsonModel::Text(key@)),
        member(r@, "status"@) == Some(
            JsonModel::Text(
                if !known {
                    "missing"@
                } else if messages@.len() == 0 {
                    "empty"@
                } else {
                    "ok"@
                },
            ),
        ),
        ({
            let shown = member(r@, "items"@)->0->Array_0;
            &&& member(r@, "items"@) is Some && member(r@, "items"@)->0 is Array
            &&& shown.len() == messages@.len()
            &&& 0 <= i < messages@.len() ==> {
                let words = said(shown[i], "text"@);
                &&& member(shown[i], "id"@) == Some(JsonModel::Text(messages@[i].id@))
                &&& member(shown[i], "role"@) == Some(JsonModel::Text(messages@[i].role@))
                &&& member(shown[i], "text"@) == Some(JsonModel::Text(words))
                &&& words.len() <= max_chars
                &&& words.is_prefix_of(messages@[i].text@)
                &&& words.len() == max_chars || words == messages@[i].text@
            }
        }),
{
    reveal_strlit("key");
    reveal_strlit("status");
    reveal_strlit("items");
    reveal_strlit("id");
    reveal_strlit("role");
    reveal_strlit("text");
    reveal_strlit("ts");
    assert("key"@.len() != "status"@.len());
    assert("key"@.len() != "items"@.len());
    assert("key"@.len() != "id"@.len());
    assert("key"@.len() != "role"@.len());
    assert("key"@.len() != "text"@.len());
    assert("key"@.len() != "ts"@.len());
    assert("status"@.len() != "items"@.len());
    assert("status"@.len() != "id"@.len());
    assert("status"@.len() != "role"@.len());
    assert("status"@.len() != "text"@.len());
    assert("status"@.len() != "ts"@.len());
    assert("items"@.len() != "id"@.len());
    assert("items"@.len() != "role"@.len());
    assert("items"@.len() != "text"@.len());
    assert("items"@.len() != "ts"@.len());
    assert("id"@.len() != "role"@.len());
    assert("id"@.len() != "text"@.len());
    assert("id"@[0] != "ts"@[0]);
    assert("role"@[0] != "text"@[0]);
    assert("role"@.len() != "ts"@.len());
    assert("text"@.len() != "ts"@.len());
}

/// What a patch says of a session takes the place of what was there, what it does not say stays, and
/// a session that is not there is made. Metadata that are no object are refused.
pub proof fn law_patches_of_sessions(
    params: SessionsPatchParams,
    id: &str,
    existing: Option<SessionRecord>,
    now: u64,
    tidy: Vec<String>,
    r: Result<(SessionRecord, Json), ErrorShape>,
)
    requires
        call_ensures(handle_patch, (params, id, existing, now), r),
        params.tags is Some ==> call_ensures(sanitize_tags, (&params.tags->0,), tidy),
    ensures
        r is Ok <==> (params.metadata is Some ==> params.metadata->0@ is Object),
        r is Ok ==> {
            let new = r->Ok_0.0;
            &&& new.id@ == id@
            &&& new.title@ == (if params.title is Some && not_blank(params.title->0@) {
                trimmed(params.title->0@)
            } else if existing is Some {
                existing->0.title@
            } else {
                "Session "@ + id@
            })
            &&& params.tags is Some ==> texts(new.tags@) == texts(tidy@)
            &&& params.tags is None && existing is Some ==> texts(new.tags@) == texts(existing->0.tags@)
            &&& params.tags is None && existing is None ==> new.tags@.len() == 0
            &&& params.metadata is Some ==> new.metadata@ == params.metadata->0@
            &&& params.metadata is None && existing is Some ==> new.metadata@ == existing->0.metadata@
            &&& new.created_at_ms == (if existing is Some {
                existing->0.created_at_ms
            } else {
                now
            })
            &&& new.updated_at_ms == now
            &&& member(r->Ok_0.1@, "key"@) == Some(JsonModel::Text(id@))
        },
{
    if params.title is Some {
        lemma_kept(params.title->0@);
    }
    if r is Ok {
        assert(texts(r->Ok_0.0.tags@).len() == r->Ok_0.0.tags@.len());
    }
    reveal_strlit("ok");
    reveal_strlit("key");
    reveal_strlit("entry");
    assert("ok"@.len() != "key"@.len());
    assert("ok"@.len() != "entry"@.len());
    assert("key"@.len() != "entry"@.len());
}

/// A session is named by its id or else by its key, and must be named.
pub proof fn law_names_of_sessions(id: &Option<String>, key: &Option<String>, r: Result<String, ErrorShape>)
    requires
        call_ensures(resolve_session_id, (id, key), r),
    ensures
        ({
            let name = if *id is Some {
                *id
            } else {
                *key
            };
            &&& r is Ok <==> name is Some && not_blank(name->0@)
            &&& r is Ok ==> r->Ok_0@ == trimmed(name->0@)
        }),
{
    if *id is Some {
        lemma_kept(id->0@);
    }
    if *key is Some {
        lemma_kept(key->0@);
    }
}

/// Sessions are cleared away after the time that is said, or else after a week.
pub proof fn law_age_of_sessions(max_age_ms: Option<u64>, r: u64)
    requires
        call_ensures(compact_age, (max_age_ms,), r),
    ensures
        max_age_ms is Some ==> r == max_age_ms->0,
        max_age_ms is None ==> r == 7 * 24 * 60 * 60 * 1000,
{
}

} // verus!
