//! How the gateway stands, and what it is.
use crate::application::config::RuntimeConfig;
use crate::json::{no_fields, object, set_field, text, text_array, texts_json, Json, JsonModel};
use crate::protocol::PROTOCOL_VERSION;
use crate::rpc::SessionContext;
use crate::text::texts;
use vstd::prelude::*;

verus! {

broadcast use vstd::seq::group_seq_axioms;

/// How the gateway stands for a session.
pub fn handle(config: &RuntimeConfig, session: &SessionContext, uptime_ms: u64, connections: usize) -> (r:
    Json)
    ensures
        r@ == JsonModel::Object(
            no_fields()
                .insert("ok"@, JsonModel::Bool(true))
                .insert("runtime"@, JsonModel::Text("rust"@))
                .insert("version"@, JsonModel::Text(config.runtime_version@))
                .insert("authMode"@, JsonModel::Text(config.auth_mode.name()))
                .insert("uptimeMs"@, JsonModel::Unsigned(uptime_ms))
                .insert("connections"@, JsonModel::Unsigned(connections as u64))
                .insert("session"@, JsonModel::Object(
                no_fields()
                    .insert("connId"@, JsonModel::Text(session.conn_id@))
                    .insert("role"@, JsonModel::Text(session.role@))
                    .insert("scopes"@, text_array(texts(session.scopes@)))
                    .insert("clientId"@, JsonModel::Text(session.client_id@))
                    .insert("clientMode"@, JsonModel::Text(session.client_mode@)),
            )),
        ),
{
    let mut own = object();
    set_field(&mut own, "connId", text(session.conn_id.as_str()));
    set_field(&mut own, "role", text(session.role.as_str()));
    set_field(&mut own, "scopes", texts_json(&session.scopes));
    set_field(&mut own, "clientId", text(session.client_id.as_str()));
    set_field(&mut own, "clientMode", text(session.client_mode.as_str()));
    let mut o = object();
    set_field(&mut o, "ok", Json::Bool(true));
    set_field(&mut o, "runtime", text("rust"));
    set_field(&mut o, "version", text(config.runtime_version.as_str()));
    set_field(&mut o, "authMode", text(config.auth_mode.label()));
    set_field(&mut o, "uptimeMs", Json::Unsigned(uptime_ms));
    set_field(&mut o, "connections", Json::Unsigned(connections as u64));
    set_field(&mut o, "session", Json::Object(own));
    Json::Object(o)
}

/// What the gateway is.
pub fn info_payload(config: &RuntimeConfig, methods: &Vec<String>, events: &Vec<String>) -> (r: Json)
    ensures
        r@ == JsonModel::Object(
            no_fields()
                .insert("name"@, JsonModel::Text("reclaw-core"@))
                .insert("runtime"@, JsonModel::Text("rust"@))
                .insert("version"@, JsonModel::Text(config.runtime_version@))
                .insert("lineage"@, JsonModel::Object(
                no_fields()
                    .insert("forkedFrom"@, JsonModel::Text("openclaw"@))
                    .insert("upstream"@, JsonModel::Text("https://github.com/openclaw/openclaw"@)),
            ))
                .insert("protocolVersion"@, JsonModel::Unsigned(PROTOCOL_VERSION as u64))
                .insert("authMode"@, JsonModel::Text(config.auth_mode.name()))
                .insert("methods"@, text_array(texts(methods@)))
                .insert("events"@, text_array(texts(events@))),
        ),
{
    let mut lineage = object();
    set_field(&mut lineage, "forkedFrom", text("openclaw"));
    set_field(&mut lineage, "upstream", text("https://github.com/openclaw/openclaw"));
    let mut o = object();
    set_field(&mut o, "name", text("reclaw-core"));
    set_field(&mut o, "runtime", text("rust"));
    set_field(&mut o, "version", text(config.runtime_version.as_str()));
    set_field(&mut o, "lineage", Json::Object(lineage));
    set_field(&mut o, "protocolVersion", Json::Unsigned(PROTOCOL_VERSION as u64));
    set_field(&mut o, "authMode", text(config.auth_mode.label()));
    set_field(&mut o, "methods", texts_json(methods));
    set_field(&mut o, "events", texts_json(events));
    Json::Object(o)
}

/// The gateway tells its version, how long it has been up, how many are connected and who asks.
pub proof fn law_status_is_told(
    config: &RuntimeConfig,
    session: &SessionContext,
    uptime_ms: u64,
    connections: usize,
    r: Json,
)
    requires
        call_ensures(handle, (config, session, uptime_ms, connections), r),
    ensures
        ({
            let who = crate::json::member(r@, "session"@)->0;
            &&& crate::json::member(r@, "version"@) == Some(JsonModel::Text(config.runtime_version@))
            &&& crate::json::member(r@, "uptimeMs"@) == Some(JsonModel::Unsigned(uptime_ms))
            &&& crate::json::member(r@, "connections"@) == Some(JsonModel::Unsigned(connections as u64))
            &&& crate::json::member(r@, "session"@) is Some
            &&& crate::json::member(who, "connId"@) == Some(JsonModel::Text(session.conn_id@))
            &&& crate::json::member(who, "role"@) == Some(JsonModel::Text(session.role@))
            &&& crate::json::member(who, "scopes"@) == Some(text_array(texts(session.scopes@)))
            &&& crate::json::member(who, "clientId"@) == Some(JsonModel::Text(session.client_id@))
            &&& crate::json::member(who, "clientMode"@) == Some(JsonModel::Text(session.client_mode@))
        }),
{
    reveal_strlit("ok");
    reveal_strlit("runtime");
    reveal_strlit("version");
    reveal_strlit("authMode");
    reveal_strlit("uptimeMs");
    reveal_strlit("connections");
    reveal_strlit("session");
    reveal_strlit("connId");
    reveal_strlit("role");
    reveal_strlit("scopes");
    reveal_strlit("clientId");
    reveal_strlit("clientMode");
    assert("ok"@.len() != "runtime"@.len());
    assert("ok"@.len() != "version"@.len());
    assert("ok"@.len() != "authMode"@.len());
    assert("ok"@.len() != "uptimeMs"@.len());
    assert("ok"@.len() != "connections"@.len());
    assert("ok"@.len() != "session"@.len());
    assert("ok"@.len() != "connId"@.len());
    assert("ok"@.len() != "role"@.len());
    assert("ok"@.len() != "scopes"@.len());
    assert("ok"@.len() != "clientId"@.len());
    assert("ok"@.len() != "clientMode"@.len());
    assert("runtime"@[0] != "version"@[0]);
    assert("runtime"@.len() != "authMode"@.len());
    assert("runtime"@.len() != "uptimeMs"@.len());
    assert("runtime"@.len() != "connections"@.len());
    assert("runtime"@[0] != "session"@[0]);
    assert("runtime"@.len() != "connId"@.len());
    assert("runtime"@.len() != "role"@.len());
    assert("runtime"@.len() != "scopes"@.len());
    assert("runtime"@.len() != "clientId"@.len());
    assert("runtime"@.len() != "clientMode"@.len());
    assert("version"@.len() != "authMode"@.len());
    assert("version"@.len() != "uptimeMs"@.len());
    assert("version"@.len() != "connections"@.len());
    assert("version"@[0] != "session"@[0]);
    assert("version"@.len() != "connId"@.len());
    assert("version"@.len() != "role"@.len());
    assert("version"@.len() != "scopes"@.len());
    assert("version"@.len() != "clientId"@.len());
    assert("version"@.len() != "clientMode"@.len());
    assert("authMode"@[0] != "uptimeMs"@[0]);
    assert("authMode"@.len() != "connections"@.len());
    assert("authMode"@.len() != "session"@.len());
    assert("authMode"@.len() != "connId"@.len());
    assert("authMode"@.len() != "role"@.len());
    assert("authMode"@.len() != "scopes"@.len());
    assert("authMode"@[0] != "clientId"@[0]);
    assert("authMode"@.len() != "clientMode"@.len());
    assert("uptimeMs"@.len() != "connections"@.len());
    assert("uptimeMs"@.len() != "session"@.len());
    assert("uptimeMs"@.len() != "connId"@.len());
    assert("uptimeMs"@.len() != "role"@.len());
    assert("uptimeMs"@.len() != "scopes"@.len());
    assert("uptimeMs"@[0] != "clientId"@[0]);
    assert("uptimeMs"@.len() != "clientMode"@.len());
    assert("connections"@.len() != "session"@.len());
    assert("connections"@.len() != "connId"@.len());
    assert("connections"@.len() != "role"@.len());
    assert("connections"@.len() != "scopes"@.len());
    assert("connections"@.len() != "clientId"@.len());
    assert("connections"@.len() != "clientMode"@.len());
    assert("session"@.len() != "connId"@.len());
    assert("session"@.len() != "role"@.len());
    assert("session"@.len() != "scopes"@.len());
    assert("session"@.len() != "clientId"@.len());
    assert("session"@.len() != "clientMode"@.len());
    assert("connId"@.len() != "role"@.len());
    assert("connId"@[0] != "scopes"@[0]);
    assert("connId"@.len() != "clientId"@.len());
    assert("connId"@.len() != "clientMode"@.len());
    assert("role"@.len() != "scopes"@.len());
    assert("role"@.len() != "clientId"@.len());
    assert("role"@.len() != "clientMode"@.len());
    assert("scopes"@.len() != "clientId"@.len());
    assert("scopes"@.len() != "clientMode"@.len());
    assert("clientId"@.len() != "clientMode"@.len());
}

/// What the gateway is is told: its name, its version, its protocol, its methods and its events.
pub proof fn law_what_the_gateway_is(config: &RuntimeConfig, methods: &Vec<String>, events: &Vec<String>, r: Json)
    requires
        call_ensures(info_payload, (config, methods, events), r),
    ensures
        crate::json::member(r@, "name"@) == Some(JsonModel::Text("reclaw-core"@)),
        crate::json::member(r@, "runtime"@) == Some(JsonModel::Text("rust"@)),
        crate::json::member(r@, "version"@) == Some(JsonModel::Text(config.runtime_version@)),
        crate::json::member(r@, "protocolVersion"@) == Some(JsonModel::Unsigned(3)),
        crate::json::member(r@, "methods"@) == Some(text_array(texts(methods@))),
        crate::json::member(r@, "events"@) == Some(text_array(texts(events@))),
        crate::json::member(r@, "lineage"@) is Some && crate::json::member(crate::json::member(r@, "lineage"@)->0, "forkedFrom"@) == Some(
            JsonModel::Text("openclaw"@),
        ),
{
    reveal_strlit("name");
    reveal_strlit("runtime");
    reveal_strlit("version");
    reveal_strlit("lineage");
    reveal_strlit("protocolVersion");
    reveal_strlit("authMode");
    reveal_strlit("methods");
    reveal_strlit("events");
    reveal_strlit("forkedFrom");
    reveal_strlit("upstream");
    assert("name"@.len() != "runtime"@.len());
    assert("name"@.len() != "version"@.len());
    assert("name"@.len() != "lineage"@.len());
    assert("name"@.len() != "protocolVersion"@.len());
    assert("name"@.len() != "authMode"@.len());
    assert("name"@.len() != "methods"@.len());
    assert("name"@.len() != "events"@.len());
    assert("name"@.len() != "forkedFrom"@.len());
    assert("name"@.len() != "upstream"@.len());
    assert("runtime"@[0] != "version"@[0]);
    assert("runtime"@[0] != "lineage"@[0]);
    assert("runtime"@.len() != "protocolVersion"@.len());
    assert("runtime"@.len() != "authMode"@.len());
    assert("runtime"@[0] != "methods"@[0]);
    assert("runtime"@.len() != "events"@.len());
    assert("runtime"@.len() != "forkedFrom"@.len());
    assert("runtime"@.len() != "upstream"@.len());
    assert("version"@[0] != "lineage"@[0]);
    assert("version"@.len() != "protocolVersion"@.len());
    assert("version"@.len() != "authMode"@.len());
    assert("version"@[0] != "methods"@[0]);
    assert("version"@.len() != "events"@.len());
    assert("version"@.len() != "forkedFrom"@.len());
    assert("version"@.len() != "upstream"@.len());
    assert("lineage"@.len() != "protocolVersion"@.len());
    assert("lineage"@.len() != "authMode"@.len());
    assert("lineage"@[0] != "methods"@[0]);
    assert("lineage"@.len() != "events"@.len());
    assert("lineage"@.len() != "forkedFrom"@.len());
    assert("lineage"@.len() != "upstream"@.len());
    assert("protocolVersion"@.len() != "authMode"@.len());
    assert("protocolVersion"@.len() != "methods"@.len());
    assert("protocolVersion"@.len() != "events"@.len());
    assert("protocolVersion"@.len() != "forkedFrom"@.len());
    assert("protocolVersion"@.len() != "upstream"@.len());
    assert("authMode"@.len() != "methods"@.len());
    assert("authMode"@.len() != "events"@.len());
    assert("authMode"@.len() != "forkedFrom"@.len());
    assert("authMode"@[0] != "upstream"@[0]);
    assert("methods"@.len() != "events"@.len());
    assert("methods"@.len() != "forkedFrom"@.len());
    assert("methods"@.len() != "upstream"@.len());
    assert("events"@.len() != "forkedFrom"@.len());
    assert("events"@.len() != "upstream"@.len());
    assert("forkedFrom"@.len() != "upstream"@.len());
}

} // verus!
