//! Heartbeats, presence and events of the system.
use crate::ids::{is_uuid_text, new_id};
use crate::json::{
    no_fields, object, opt_json, opt_model, set_field, text, value_or_null, Json, JsonModel,
};
use crate::protocol::errors::{invalid, invalid_request, ErrorShape};
use crate::protocol::frames::{presence_list, presence_to_json, version_json, Snapshot};
use crate::rpc::methods::{field_missing, required_text};
use crate::rpc::SessionContext;
use crate::text::{
    cat4, decimal, decimal_text, kept, kept_opt, opt_text, or_text, text_or, trim_non_empty_opt,
};
use vstd::prelude::*;

verus! {

broadcast use vstd::seq::group_seq_axioms;

pub const LAST_HEARTBEAT_KEY: &'static str = "system/last-heartbeat";

pub const HEARTBEATS_KEY: &'static str = "system/heartbeats";

/// The last heartbeat, or that there was none.
pub fn handle_last_heartbeat(stored: Option<Json>) -> (r: Json)
    ensures
        r@ == match opt_model(stored) {
            Some(value) => value,
            None => JsonModel::Object(
                no_fields()
                    .insert("ts"@, JsonModel::Unsigned(0))
                    .insert("status"@, JsonModel::Text("none"@)),
            ),
        },
{
    match stored {
        Some(value) => value,
        None => {
            let mut o = object();
            set_field(&mut o, "ts", Json::Unsigned(0));
            set_field(&mut o, "status", text("none"));
            Json::Object(o)
        },
    }
}

/// The heartbeats to store, and the answer.
pub fn handle_set_heartbeats(heartbeats: Option<Json>) -> (r: Result<(Json, Json), ErrorShape>)
    ensures
        match opt_model(heartbeats) {
            None => r is Err && r->Err_0@ == invalid(
                "invalid set-heartbeats params: heartbeats is required"@,
            ),
            Some(value) => r is Ok && r->Ok_0.0@ == value && r->Ok_0.1@ == JsonModel::Object(
                no_fields()
                    .insert("ok"@, JsonModel::Bool(true))
                    .insert("heartbeats"@, value),
            ),
        },
{
    let heartbeats = match heartbeats {
        Some(value) => value,
        None => {
            return Err(invalid_request("invalid set-heartbeats params: heartbeats is required"));
        },
    };
    let mut o = object();
    set_field(&mut o, "ok", Json::Bool(true));
    set_field(&mut o, "heartbeats", heartbeats.copy());
    Ok((heartbeats, Json::Object(o)))
}

/// A heartbeat: why and by whom the gateway was woken.
pub open spec fn heartbeat(reason: Option<Seq<char>>, session: SessionContext, now: u64) -> JsonModel {
    JsonModel::Object(
        no_fields()
            .insert("ts"@, JsonModel::Unsigned(now))
            .insert("reason"@, JsonModel::Text(text_or(kept_opt(reason), "manual"@)))
            .insert("by"@, JsonModel::Text(session.client_id@))
            .insert("role"@, JsonModel::Text(session.role@)),
    )
}

/// The heartbeat to store, and the answer, when the gateway is woken.
pub fn handle_wake(reason: &Option<String>, session: &SessionContext, now: u64) -> (r: (Json, Json))
    ensures
        r.0@ == heartbeat(opt_text(*reason), *session, now),
        r.1@ == JsonModel::Object(
            no_fields()
                .insert("ok"@, JsonModel::Bool(true))
                .insert("heartbeat"@, heartbeat(opt_text(*reason), *session, now)),
        ),
{
    let reason = or_text(trim_non_empty_opt(reason), "manual");
    let mut beat = object();
    set_field(&mut beat, "ts", Json::Unsigned(now));
    set_field(&mut beat, "reason", text(reason.as_str()));
    set_field(&mut beat, "by", text(session.client_id.as_str()));
    set_field(&mut beat, "role", text(session.role.as_str()));
    let beat = Json::Object(beat);
    let mut o = object();
    set_field(&mut o, "ok", Json::Bool(true));
    set_field(&mut o, "heartbeat", beat.copy());
    (beat, Json::Object(o))
}

/// Who is present.
pub fn handle_system_presence(snapshot: &Snapshot) -> (r: Json)
    ensures
        r@ == JsonModel::Object(
            no_fields()
                .insert("presence"@, presence_list(snapshot.presence@))
                .insert("stateVersion"@, version_json(snapshot.state_version))
                .insert("uptimeMs"@, JsonModel::Unsigned(snapshot.uptime_ms)),
        ),
{
    let mut o = object();
    set_field(&mut o, "presence", presence_to_json(&snapshot.presence));
    set_field(&mut o, "stateVersion", snapshot.state_version.to_json());
    set_field(&mut o, "uptimeMs", Json::Unsigned(snapshot.uptime_ms));
    Json::Object(o)
}

/// The id of an event.
pub open spec fn event_id(now: u64, id: Seq<char>) -> Seq<char> {
    "system/events/"@ + decimal(now as nat) + "-"@ + id
}

/// What is stored of an event.
pub open spec fn event_entry(event: Seq<char>, payload: Option<JsonModel>, session: SessionContext, now: u64, id: Seq<char>) -> JsonModel {
    JsonModel::Object(
        no_fields()
            .insert("id"@, JsonModel::Text(event_id(now, id)))
            .insert("event"@, JsonModel::Text(event))
            .insert("payload"@, value_or_null(payload))
            .insert("ts"@, JsonModel::Unsigned(now))
            .insert("by"@, JsonModel::Text(session.client_id@)),
    )
}

/// The key and the value to store, and the answer, when an event is told; its id ends in the given
/// one.
pub fn handle_system_event_with(
    event: &str,
    payload: Option<Json>,
    session: &SessionContext,
    now: u64,
    id: &str,
) -> (r: Result<(String, Json, Json), ErrorShape>)
    ensures
        match kept(event@) {
            None => r is Err && r->Err_0@ == field_missing("system-event"@, "event"@),
            Some(name) => {
                let entry = event_entry(name, opt_model(payload), *session, now, id@);
                &&& r is Ok
                &&& r->Ok_0.0@ == event_id(now, id@)
                &&& r->Ok_0.1@ == entry
                &&& r->Ok_0.2@ == JsonModel::Object(
                    no_fields()
                        .insert("ok"@, JsonModel::Bool(true))
                        .insert("entry"@, entry),
                )
            },
        },
{
    let event = required_text("system-event", "event", event)?;
    let key = cat4("system/events/", decimal_text(now).as_str(), "-", id);
    let mut entry = object();
    set_field(&mut entry, "id", text(key.as_str()));
    set_field(&mut entry, "event", text(event.as_str()));
    set_field(&mut entry, "payload", opt_json(payload));
    set_field(&mut entry, "ts", Json::Unsigned(now));
    set_field(&mut entry, "by", text(session.client_id.as_str()));
    let entry = Json::Object(entry);
    let mut o = object();
    set_field(&mut o, "ok", Json::Bool(true));
    set_field(&mut o, "entry", entry.copy());
    Ok((key, entry, Json::Object(o)))
}

/// The key and the value to store, and the answer, when an event is told; its id ends in a fresh
/// one.
pub fn handle_system_event(
    event: &str,
    payload: Option<Json>,
    session: &SessionContext,
    now: u64,
) -> (r: Result<(String, Json, Json), ErrorShape>)
    ensures
        match kept(event@) {
            None => r is Err && r->Err_0@ == field_missing("system-event"@, "event"@),
            Some(name) => exists|id: Seq<char>| #[trigger]
                is_uuid_text(id) && {
                    let entry = event_entry(name, opt_model(payload), *session, now, id);
                    &&& r is Ok
                    &&& r->Ok_0.0@ == event_id(now, id)
                    &&& r->Ok_0.1@ == entry
                    &&& r->Ok_0.2@ == JsonModel::Object(
                        no_fields()
                            .insert("ok"@, JsonModel::Bool(true))
                            .insert("entry"@, entry),
                    )
                },
        },
{
    let id = new_id();
    assert(is_uuid_text(id@));
    handle_system_event_with(event, payload, session, now, id.as_str())
}

/// An event of the system is stored under its time and its id, with its name, what came with it and
/// who sent it, and must have a name.
pub proof fn law_events_of_the_system(
    event: &str,
    payload: Option<Json>,
    session: &SessionContext,
    now: u64,
    id: &str,
    r: Result<(String, Json, Json), ErrorShape>,
)
    requires
        call_ensures(handle_system_event_with, (event, payload, session, now, id), r),
    ensures
        r is Ok <==> crate::text::not_blank(event@),
        r is Ok ==> {
            let entry = r->Ok_0.1@;
            &&& r->Ok_0.0@ == "system/events/"@ + decimal(now as nat) + "-"@ + id@
            &&& crate::json::member(entry, "id"@) == Some(JsonModel::Text(r->Ok_0.0@))
            &&& crate::json::member(entry, "event"@) == Some(JsonModel::Text(crate::text::trimmed(event@)))
            &&& payload is Some ==> crate::json::member(entry, "payload"@) == Some(payload->0@)
            &&& crate::json::member(entry, "ts"@) == Some(JsonModel::Unsigned(now))
            &&& crate::json::member(entry, "by"@) == Some(JsonModel::Text(session.client_id@))
            &&& crate::json::member(r->Ok_0.2@, "entry"@) == Some(entry)
        },
{
    crate::text::lemma_kept(event@);
    reveal_strlit("id");
    reveal_strlit("event");
    reveal_strlit("payload");
    reveal_strlit("ts");
    reveal_strlit("by");
    reveal_strlit("ok");
    reveal_strlit("entry");
    assert("id"@.len() != "event"@.len());
    assert("id"@.len() != "payload"@.len());
    assert("id"@[0] != "ts"@[0]);
    assert("id"@[0] != "by"@[0]);
    assert("id"@[0] != "ok"@[0]);
    assert("id"@.len() != "entry"@.len());
    assert("event"@.len() != "payload"@.len());
    assert("event"@.len() != "ts"@.len());
    assert("event"@.len() != "by"@.len());
    assert("event"@.len() != "ok"@.len());
    assert("event"@[1] != "entry"@[1]);
    assert("payload"@.len() != "ts"@.len());
    assert("payload"@.len() != "by"@.len());
    assert("payload"@.len() != "ok"@.len());
    assert("payload"@.len() != "entry"@.len());
    assert("ts"@[0] != "by"@[0]);
    assert("ts"@[0] != "ok"@[0]);
    assert("ts"@.len() != "entry"@.len());
    assert("by"@[0] != "ok"@[0]);
    assert("by"@.len() != "entry"@.len());
    assert("ok"@.len() != "entry"@.len());
}

/// A heartbeat says when it was, why and whose it was, and what is stored is what is told.
pub proof fn law_heartbeats(reason: &Option<String>, session: &SessionContext, now: u64, r: (Json, Json))
    requires
        call_ensures(handle_wake, (reason, session, now), r),
    ensures
        crate::json::member(r.0@, "ts"@) == Some(JsonModel::Unsigned(now)),
        crate::json::member(r.0@, "reason"@) == Some(
            JsonModel::Text(
                if crate::rpc::methods::agent::is_given(*reason) {
                    crate::text::trimmed(reason->0@)
                } else {
                    "manual"@
                },
            ),
        ),
        crate::json::member(r.0@, "by"@) == Some(JsonModel::Text(session.client_id@)),
        crate::json::member(r.0@, "role"@) == Some(JsonModel::Text(session.role@)),
        crate::json::member(r.1@, "heartbeat"@) == Some(r.0@),
{
    crate::rpc::methods::agent::lemma_is_given(*reason);
    reveal_strlit("ts");
    reveal_strlit("reason");
    reveal_strlit("by");
    reveal_strlit("role");
    reveal_strlit("ok");
    reveal_strlit("heartbeat");
    assert("ts"@.len() != "reason"@.len());
    assert("ts"@[0] != "by"@[0]);
    assert("ts"@.len() != "role"@.len());
    assert("ts"@[0] != "ok"@[0]);
    assert("ts"@.len() != "heartbeat"@.len());
    assert("reason"@.len() != "by"@.len());
    assert("reason"@.len() != "role"@.len());
    assert("reason"@.len() != "ok"@.len());
    assert("reason"@.len() != "heartbeat"@.len());
    assert("by"@.len() != "role"@.len());
    assert("by"@[0] != "ok"@[0]);
    assert("by"@.len() != "heartbeat"@.len());
    assert("role"@.len() != "ok"@.len());
    assert("role"@.len() != "heartbeat"@.len());
    assert("ok"@.len() != "heartbeat"@.len());
}

/// Heartbeats that are set are stored and told as they are given.
pub proof fn law_setting_heartbeats(heartbeats: Option<Json>, r: Result<(Json, Json), ErrorShape>)
    requires
        call_ensures(handle_set_heartbeats, (heartbeats,), r),
    ensures
        r is Ok <==> heartbeats is Some,
        r is Ok ==> r->Ok_0.0@ == heartbeats->0@ && crate::json::member(r->Ok_0.1@, "heartbeats"@) == Some(
            heartbeats->0@,
        ),
{
    reveal_strlit("ok");
    reveal_strlit("heartbeats");
    assert("ok"@.len() != "heartbeats"@.len());
}

/// The last heartbeat is the one that is stored.
pub proof fn law_the_last_heartbeat(stored: Option<Json>, r: Json)
    requires
        call_ensures(handle_last_heartbeat, (stored,), r),
    ensures
        stored is Some ==> r@ == stored->0@,
        stored is None ==> crate::json::member(r@, "status"@) == Some(JsonModel::Text("none"@)) && crate::json::member(r@, "ts"@)
            == Some(JsonModel::Unsigned(0)),
{
    reveal_strlit("ts");
    reveal_strlit("status");
    assert("ts"@.len() != "status"@.len());
}

/// Who is there is told as the state has it.
pub proof fn law_who_is_there(snapshot: &Snapshot, clients: Json, versions: Json, r: Json)
    requires
        call_ensures(handle_system_presence, (snapshot,), r),
        call_ensures(presence_to_json, (&snapshot.presence,), clients),
        call_ensures(crate::protocol::frames::StateVersion::to_json, (&snapshot.state_version,), versions),
    ensures
        crate::json::member(r@, "presence"@) == Some(clients@),
        crate::json::member(r@, "stateVersion"@) == Some(versions@),
        crate::json::member(r@, "uptimeMs"@) == Some(JsonModel::Unsigned(snapshot.uptime_ms)),
{
    reveal_strlit("presence");
    reveal_strlit("stateVersion");
    reveal_strlit("uptimeMs");
    assert("presence"@.len() != "stateVersion"@.len());
    assert("presence"@[0] != "uptimeMs"@[0]);
    assert("stateVersion"@.len() != "uptimeMs"@.len());
}

/// An event that gets its own id is stored as any other.
pub proof fn law_events_get_an_id(
    event: &str,
    payload: Option<Json>,
    session: &SessionContext,
    now: u64,
    r: Result<(String, Json, Json), ErrorShape>,
)
    requires
        call_ensures(handle_system_event, (event, payload, session, now), r),
    ensures
        r is Ok <==> crate::text::not_blank(event@),
        r is Ok ==> crate::json::member(r->Ok_0.1@, "event"@) == Some(JsonModel::Text(crate::text::trimmed(event@))) && crate::json::member(
            r->Ok_0.1@,
            "id"@,
        ) == Some(JsonModel::Text(r->Ok_0.0@)) && crate::json::member(r->Ok_0.1@, "ts"@) == Some(
            JsonModel::Unsigned(now),
        ),
{
    crate::text::lemma_kept(event@);
    reveal_strlit("id");
    reveal_strlit("event");
    reveal_strlit("payload");
    reveal_strlit("ts");
    reveal_strlit("by");
    assert("id"@.len() != "event"@.len());
    assert("id"@.len() != "payload"@.len());
    assert("id"@[0] != "ts"@[0]);
    assert("id"@[0] != "by"@[0]);
    assert("event"@.len() != "payload"@.len());
    assert("event"@.len() != "ts"@.len());
    assert("event"@.len() != "by"@.len());
    assert("payload"@.len() != "ts"@.len());
    assert("payload"@.len() != "by"@.len());
    assert("ts"@[0] != "by"@[0]);
}

} // verus!
