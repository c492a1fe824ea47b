//! What is known of the memory that the gateway uses.
use crate::json::{no_fields, object, set_field, text, Json, JsonModel};
use vstd::prelude::*;

verus! {

broadcast use vstd::seq::group_seq_axioms;

/// What is known of the memory that the gateway uses.
pub fn handle_memory_status(uptime_ms: u64, connections: usize) -> (r: Json)
    ensures
        r@ == JsonModel::Object(
            no_fields()
                .insert("ok"@, JsonModel::Bool(true))
                .insert("runtime"@, JsonModel::Text("rust"@))
                .insert("uptimeMs"@, JsonModel::Unsigned(uptime_ms))
                .insert("connections"@, JsonModel::Unsigned(connections as u64))
                .insert("heapBytes"@, JsonModel::Unsigned(0))
                .insert("rssBytes"@, JsonModel::Unsigned(0))
                .insert("note"@, JsonModel::Text("portable memory metrics are unavailable in this build"@)),
        ),
{
    let mut o = object();
    set_field(&mut o, "ok", Json::Bool(true));
    set_field(&mut o, "runtime", text("rust"));
    set_field(&mut o, "uptimeMs", Json::Unsigned(uptime_ms));
    set_field(&mut o, "connections", Json::Unsigned(connections as u64));
    set_field(&mut o, "heapBytes", Json::Unsigned(0));
    set_field(&mut o, "rssBytes", Json::Unsigned(0));
    set_field(&mut o, "note", text("portable memory metrics are unavailable in this build"));
    Json::Object(o)
}

/// How long the gateway has been up and how many are connected is told.
pub proof fn law_memory_is_told(uptime_ms: u64, connections: usize, r: Json)
    requires
        call_ensures(handle_memory_status, (uptime_ms, connections), r),
    ensures
        crate::json::member(r@, "ok"@) == Some(JsonModel::Bool(true)),
        crate::json::member(r@, "uptimeMs"@) == Some(JsonModel::Unsigned(uptime_ms)),
        crate::json::member(r@, "connections"@) == Some(JsonModel::Unsigned(connections as u64)),
        crate::json::member(r@, "heapBytes"@) == Some(JsonModel::Unsigned(0)),
        crate::json::member(r@, "rssBytes"@) == Some(JsonModel::Unsigned(0)),
{
    reveal_strlit("ok");
    reveal_strlit("runtime");
    reveal_strlit("uptimeMs");
    reveal_strlit("connections");
    reveal_strlit("heapBytes");
    reveal_strlit("rssBytes");
    reveal_strlit("note");
    assert("ok"@.len() != "runtime"@.len());
    assert("ok"@.len() != "uptimeMs"@.len());
    assert("ok"@.len() != "connections"@.len());
    assert("ok"@.len() != "heapBytes"@.len());
    assert("ok"@.len() != "rssBytes"@.len());
    assert("ok"@.len() != "note"@.len());
    assert("runtime"@.len() != "uptimeMs"@.len());
    assert("runtime"@.len() != "connections"@.len());
    assert("runtime"@.len() != "heapBytes"@.len());
    assert("runtime"@.len() != "rssBytes"@.len());
    assert("runtime"@.len() != "note"@.len());
    assert("uptimeMs"@.len() != "connections"@.len());
    assert("uptimeMs"@.len() != "heapBytes"@.len());
    assert("uptimeMs"@[0] != "rssBytes"@[0]);
    assert("uptimeMs"@.len() != "note"@.len());
    assert("connections"@.len() != "heapBytes"@.len());
    assert("connections"@.len() != "rssBytes"@.len());
    assert("connections"@.len() != "note"@.len());
    assert("heapBytes"@.len() != "rssBytes"@.len());
    assert("heapBytes"@.len() != "note"@.len());
    assert("rssBytes"@.len() != "note"@.len());
}

} // verus!
