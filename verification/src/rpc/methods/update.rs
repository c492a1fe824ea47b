//! Updates that are asked for.
use crate::ids::{is_uuid_text, new_id};
use crate::json::{no_fields, object, opt_text_json, set_field, text, text_or_null, Json, JsonModel};
use crate::text::{cat, kept_opt, opt_text, or_text, text_or, trim_non_empty_opt};
use vstd::prelude::*;

verus! {

broadcast use vstd::seq::group_seq_axioms;

pub const UPDATE_LAST_RUN_KEY: &'static str = "runtime/update/last-run";

/// What is stored and answered when an update is asked for.
pub open spec fn update_run(mode: Option<Seq<char>>, note: Option<Seq<char>>, client_id: Seq<char>, now: u64, id: Seq<char>) -> JsonModel {
    JsonModel::Object(
        no_fields()
            .insert("id"@, JsonModel::Text("update-"@ + id))
            .insert("mode"@, JsonModel::Text(text_or(kept_opt(mode), "check"@)))
            .insert("note"@, text_or_null(kept_opt(note)))
            .insert("ts"@, JsonModel::Unsigned(now))
            .insert("requestedBy"@, JsonModel::Text(client_id))
            .insert("status"@, JsonModel::Text("completed"@))
            .insert("restartRequired"@, JsonModel::Bool(false)),
    )
}

/// What is stored and answered when an update is asked for; it has the given id.
pub fn handle_run_with(
    mode: &Option<String>,
    note: &Option<String>,
    client_id: &str,
    now: u64,
    id: &str,
) -> (r: Json)
    ensures
        r@ == update_run(opt_text(*mode), opt_text(*note), client_id@, now, id@),
{
    let mode = or_text(trim_non_empty_opt(mode), "check");
    let name = cat("update-", id);
    let mut o = object();
    set_field(&mut o, "id", text(name.as_str()));
    set_field(&mut o, "mode", text(mode.as_str()));
    set_field(&mut o, "note", opt_text_json(&trim_non_empty_opt(note)));
    set_field(&mut o, "ts", Json::Unsigned(now));
    set_field(&mut o, "requestedBy", text(client_id));
    set_field(&mut o, "status", text("completed"));
    set_field(&mut o, "restartRequired", Json::Bool(false));
    Json::Object(o)
}

/// What is stored and answered when an update is asked for; it has a fresh id.
pub fn handle_run(mode: &Option<String>, note: &Option<String>, client_id: &str, now: u64) -> (r: Json)
    ensures
        exists|id: Seq<char>| #[trigger]
            is_uuid_text(id) && r@ == update_run(
                opt_text(*mode),
                opt_text(*note),
                client_id@,
                now,
                id,
            ),
{
    let id = new_id();
    assert(is_uuid_text(id@));
    handle_run_with(mode, note, client_id, now, id.as_str())
}

/// An update says how it was asked for, by whom and when.
pub proof fn law_updates(mode: &Option<String>, note: &Option<String>, client_id: &str, now: u64, id: &str, r: Json)
    requires
        call_ensures(handle_run_with, (mode, note, client_id, now, id), r),
    ensures
        crate::json::member(r@, "id"@) == Some(JsonModel::Text("update-"@ + id@)),
        crate::json::member(r@, "mode"@) == Some(
            JsonModel::Text(
                if crate::rpc::methods::agent::is_given(*mode) {
                    crate::text::trimmed(mode->0@)
                } else {
                    "check"@
                },
            ),
        ),
        crate::json::member(r@, "note"@) == Some(
            if crate::rpc::methods::agent::is_given(*note) {
                JsonModel::Text(crate::text::trimmed(note->0@))
            } else {
                JsonModel::Null
            },
        ),
        crate::json::member(r@, "ts"@) == Some(JsonModel::Unsigned(now)),
        crate::json::member(r@, "requestedBy"@) == Some(JsonModel::Text(client_id@)),
        crate::json::member(r@, "status"@) == Some(JsonModel::Text("completed"@)),
{
    crate::rpc::methods::agent::lemma_is_given(*mode);
    crate::rpc::methods::agent::lemma_is_given(*note);
    reveal_strlit("id");
    reveal_strlit("mode");
    reveal_strlit("note");
    reveal_strlit("ts");
    reveal_strlit("requestedBy");
    reveal_strlit("status");
    reveal_strlit("restartRequired");
    assert("id"@.len() != "mode"@.len());
    assert("id"@.len() != "note"@.len());
    assert("id"@[0] != "ts"@[0]);
    assert("id"@.len() != "requestedBy"@.len());
    assert("id"@.len() != "status"@.len());
    assert("id"@.len() != "restartRequired"@.len());
    assert("mode"@[0] != "note"@[0]);
    assert("mode"@.len() != "ts"@.len());
    assert("mode"@.len() != "requestedBy"@.len());
    assert("mode"@.len() != "status"@.len());
    assert("mode"@.len() != "restartRequired"@.len());
    assert("note"@.len() != "ts"@.len());
    assert("note"@.len() != "requestedBy"@.len());
    assert("note"@.len() != "status"@.len());
    assert("note"@.len() != "restartRequired"@.len());
    assert("ts"@.len() != "requestedBy"@.len());
    assert("ts"@.len() != "status"@.len());
    assert("ts"@.len() != "restartRequired"@.len());
    assert("requestedBy"@.len() != "status"@.len());
    assert("requestedBy"@.len() != "restartRequired"@.len());
    assert("status"@.len() != "restartRequired"@.len());
}

} // verus!
