//! Whether the gateway is well.
use crate::application::config::RuntimeConfig;
use crate::domain::error::DomainError;
use crate::json::{no_fields, object, set_field, text, Json, JsonModel};
use crate::protocol::errors::{error_fields, unavailable, ErrorShape, ERROR_UNAVAILABLE};
use vstd::prelude::*;

verus! {

broadcast use vstd::seq::group_seq_axioms;

/// Whether the gateway is well, from what was found out.
pub fn handle(found: Result<Json, DomainError>) -> (r: Json)
    ensures
        r@ == match found {
            Ok(payload) => payload@,
            Err(error) => JsonModel::Object(
                no_fields()
                    .insert("ok"@, JsonModel::Bool(false))
                    .insert("error"@, JsonModel::Object(error_fields(unavailable(error.words())))),
            ),
        },
{
    match found {
        Ok(payload) => payload,
        Err(error) => {
            let shape = ErrorShape::new(ERROR_UNAVAILABLE, error.describe().as_str());
            let mut o = object();
            set_field(&mut o, "ok", Json::Bool(false));
            set_field(&mut o, "error", shape.to_json());
            Json::Object(o)
        },
    }
}

/// That the gateway is ready.
pub fn ready_payload(config: &RuntimeConfig, connections: usize) -> (r: Json)
    ensures
        r@ == JsonModel::Object(
            no_fields()
                .insert("ok"@, JsonModel::Bool(true))
                .insert("runtime"@, JsonModel::Text("rust"@))
                .insert("version"@, JsonModel::Text(config.runtime_version@))
                .insert("connections"@, JsonModel::Unsigned(connections as u64)),
        ),
{
    let mut o = object();
    set_field(&mut o, "ok", Json::Bool(true));
    set_field(&mut o, "runtime", text("rust"));
    set_field(&mut o, "version", text(config.runtime_version.as_str()));
    set_field(&mut o, "connections", Json::Unsigned(connections as u64));
    Json::Object(o)
}

/// How the gateway is is told as it is found, and that it is not well where that fails.
pub proof fn law_health(found: Result<Json, DomainError>, r: Json)
    requires
        call_ensures(handle, (found,), r),
    ensures
        found is Ok ==> r@ == found->Ok_0@,
        found is Err ==> crate::json::member(r@, "ok"@) == Some(JsonModel::Bool(false)) && crate::json::member(r@, "error"@) is Some && crate::json::member(
            crate::json::member(r@, "error"@)->0,
            "code"@,
        ) == Some(JsonModel::Text("UNAVAILABLE"@)),
{
    reveal_strlit("ok");
    reveal_strlit("error");
    reveal_strlit("code");
    reveal_strlit("message");
    reveal_strlit("details");
    reveal_strlit("retryable");
    reveal_strlit("retryAfterMs");
    assert("ok"@.len() != "error"@.len());
    assert("ok"@.len() != "code"@.len());
    assert("ok"@.len() != "message"@.len());
    assert("ok"@.len() != "details"@.len());
    assert("ok"@.len() != "retryable"@.len());
    assert("ok"@.len() != "retryAfterMs"@.len());
    assert("error"@.len() != "code"@.len());
    assert("error"@.len() != "message"@.len());
    assert("error"@.len() != "details"@.len());
    assert("error"@.len() != "retryable"@.len());
    assert("error"@.len() != "retryAfterMs"@.len());
    assert("code"@.len() != "message"@.len());
    assert("code"@.len() != "details"@.len());
    assert("code"@.len() != "retryable"@.len());
    assert("code"@.len() != "retryAfterMs"@.len());
    assert("message"@[0] != "details"@[0]);
    assert("message"@.len() != "retryable"@.len());
    assert("message"@.len() != "retryAfterMs"@.len());
    assert("details"@.len() != "retryable"@.len());
    assert("details"@.len() != "retryAfterMs"@.len());
    assert("retryable"@.len() != "retryAfterMs"@.len());
}

/// A gateway that is ready tells its version and how many are connected.
pub proof fn law_readiness(config: &RuntimeConfig, connections: usize, r: Json)
    requires
        call_ensures(ready_payload, (config, connections), r),
    ensures
        crate::json::member(r@, "ok"@) == Some(JsonModel::Bool(true)),
        crate::json::member(r@, "runtime"@) == Some(JsonModel::Text("rust"@)),
        crate::json::member(r@, "version"@) == Some(JsonModel::Text(config.runtime_version@)),
        crate::json::member(r@, "connections"@) == Some(JsonModel::Unsigned(connections as u64)),
{
    reveal_strlit("ok");
    reveal_strlit("runtime");
    reveal_strlit("version");
    reveal_strlit("connections");
    assert("ok"@.len() != "runtime"@.len());
    assert("ok"@.len() != "version"@.len());
    assert("ok"@.len() != "connections"@.len());
    assert("runtime"@[0] != "version"@[0]);
    assert("runtime"@.len() != "connections"@.len());
    assert("version"@.len() != "connections"@.len());
}

} // verus!
