//! Frames of the gateway protocol.
use crate::json::{
    fields, lemma_models, models, no_fields, object, opt_model, set_field, text, text_array,
    texts_json, Json, JsonModel,
};
use crate::protocol::errors::{error_fields, ErrorModel, ErrorShape};
use crate::sorted_map::SortedMap;
use crate::text::texts;
use vstd::prelude::*;

verus! {

broadcast use vstd::seq::group_seq_axioms;

/// The secrets that a client presents.
pub struct ConnectAuth {
    pub token: Option<String>,
    pub device_token: Option<String>,
    pub password: Option<String>,
}

/// What a client says of itself.
pub struct ConnectClient {
    pub id: String,
    pub display_name: Option<String>,
    pub version: String,
    pub platform: String,
    pub device_family: Option<String>,
    pub model_identifier: Option<String>,
    pub mode: String,
    pub instance_id: Option<String>,
}

/// What a client asks to be connected with.
pub struct ConnectParams {
    pub min_protocol: u32,
    pub max_protocol: u32,
    pub client: ConnectClient,
    pub role: Option<String>,
    pub scopes: Vec<String>,
    pub auth: Option<ConnectAuth>,
}

/// The versions of what the gateway reports.
#[derive(Debug, Clone, Copy, PartialEq, Eq, Structural)]
pub struct StateVersion {
    pub presence: u64,
    pub health: u64,
}

/// The state of the gateway at one time.
pub struct Snapshot {
    pub presence: Vec<PresenceEntry>,
    pub health: Json,
    pub state_version: StateVersion,
    pub uptime_ms: u64,
    pub config_path: Option<String>,
    pub state_dir: Option<String>,
    pub session_defaults: Option<Json>,
    pub auth_mode: Option<String>,
    pub update_available: Option<Json>,
}

/// A client as others see it.
#[derive(Debug)]
pub struct PresenceEntry {
    pub host: Option<String>,
    pub ip: Option<String>,
    pub version: Option<String>,
    pub platform: Option<String>,
    pub device_family: Option<String>,
    pub model_identifier: Option<String>,
    pub mode: Option<String>,
    pub last_input_seconds: Option<u64>,
    pub reason: Option<String>,
    pub tags: Option<Vec<String>>,
    pub text: Option<String>,
    pub ts: u64,
    pub device_id: Option<String>,
    pub roles: Option<Vec<String>>,
    pub scopes: Option<Vec<String>>,
    pub instance_id: Option<String>,
}

/// The gateway's limits.
#[derive(Debug, Clone, Copy, PartialEq, Eq, Structural)]
pub struct GatewayPolicy {
    pub max_payload: usize,
    pub max_buffered_bytes: usize,
    pub tick_interval_ms: u64,
}

/// The gateway that a client is connected to.
pub struct HelloServer {
    pub version: String,
    pub conn_id: String,
}

/// What the gateway can do.
pub struct HelloFeatures {
    pub methods: Vec<String>,
    pub events: Vec<String>,
}

/// What a client that was let in is told.
pub struct HelloOk {
    pub frame_type: &'static str,
    pub protocol: u32,
    pub server: HelloServer,
    pub features: HelloFeatures,
    pub snapshot: Snapshot,
    pub canvas_host_url: Option<String>,
    pub auth: Option<Json>,
    pub policy: GatewayPolicy,
}

/// A request of a client.
pub struct RequestFrame {
    pub frame_type: String,
    pub id: String,
    pub method: String,
    pub params: Option<Json>,
}

/// The reply to a request.
pub struct ResponseFrame {
    pub frame_type: &'static str,
    pub id: String,
    pub ok: bool,
    pub payload: Option<Json>,
    pub error: Option<ErrorShape>,
}

/// What an optional error says.
pub open spec fn opt_error(value: Option<ErrorShape>) -> Option<ErrorModel> {
    match value {
        Some(e) => Some(e@),
        None => None,
    }
}

impl ResponseFrame {
    /// The reply to the request `id` that carries a payload.
    pub open spec fn carries(&self, id: Seq<char>, payload: JsonModel) -> bool {
        &&& self.frame_type@ == "res"@
        &&& self.id@ == id
        &&& self.ok
        &&& opt_model(self.payload) == Some(payload)
        &&& self.error is None
    }

    /// The reply to the request `id` that carries an error.
    pub open spec fn fails(&self, id: Seq<char>, error: ErrorModel) -> bool {
        &&& self.frame_type@ == "res"@
        &&& self.id@ == id
        &&& !self.ok
        &&& self.payload is None
        &&& opt_error(self.error) == Some(error)
    }
}

// ---------------------------------------------------------------------------------------------
// The JSON of frames
// ---------------------------------------------------------------------------------------------
/// The fields with one more, where there is a value for it.
pub open spec fn with_member(
    m: Map<Seq<char>, JsonModel>,
    name: Seq<char>,
    value: Option<JsonModel>,
) -> Map<Seq<char>, JsonModel> {
    match value {
        Some(v) => m.insert(name, v),
        None => m,
    }
}

/// The value of a text that may be missing.
pub open spec fn text_member(value: Option<String>) -> Option<JsonModel> {
    match value {
        Some(s) => Some(JsonModel::Text(s@)),
        None => None,
    }
}

/// The value of a number that may be missing.
pub open spec fn number_member(value: Option<u64>) -> Option<JsonModel> {
    match value {
        Some(n) => Some(JsonModel::Unsigned(n)),
        None => None,
    }
}

/// The value of a list that may be missing.
pub open spec fn list_member(value: Option<Vec<String>>) -> Option<JsonModel> {
    match value {
        Some(list) => Some(text_array(texts(list@))),
        None => None,
    }
}

fn set_text(o: &mut SortedMap<Json>, name: &str, value: &Option<String>)
    ensures
        fields(*final(o)) == with_member(fields(*old(o)), name@, text_member(*value)),
{
    if let Some(s) = value {
        set_field(o, name, text(s.as_str()));
    }
}

fn set_number(o: &mut SortedMap<Json>, name: &str, value: Option<u64>)
    ensures
        fields(*final(o)) == with_member(fields(*old(o)), name@, number_member(value)),
{
    if let Some(n) = value {
        set_field(o, name, Json::Unsigned(n));
    }
}

fn set_list(o: &mut SortedMap<Json>, name: &str, value: &Option<Vec<String>>)
    ensures
        fields(*final(o)) == with_member(fields(*old(o)), name@, list_member(*value)),
{
    if let Some(list) = value {
        set_field(o, name, texts_json(list));
    }
}

fn set_value(o: &mut SortedMap<Json>, name: &str, value: &Option<Json>)
    ensures
        fields(*final(o)) == with_member(fields(*old(o)), name@, opt_model(*value)),
{
    if let Some(v) = value {
        set_field(o, name, v.copy());
    }
}

/// The JSON of versions.
pub open spec fn version_json(v: StateVersion) -> JsonModel {
    JsonModel::Object(
        no_fields().insert("presence"@, JsonModel::Unsigned(v.presence)).insert(
            "health"@,
            JsonModel::Unsigned(v.health),
        ),
    )
}

impl StateVersion {
    /// The JSON of the versions.
    pub fn to_json(&self) -> (r: Json)
        ensures
            r@ == version_json(*self),
    {
        let mut o = object();
        set_field(&mut o, "presence", Json::Unsigned(self.presence));
        set_field(&mut o, "health", Json::Unsigned(self.health));
        Json::Object(o)
    }
}

/// The JSON of a client as others see it: what is not known is left out.
pub open spec fn presence_json(e: PresenceEntry) -> JsonModel {
    let m = no_fields();
    let m = with_member(m, "host"@, text_member(e.host));
    let m = with_member(m, "ip"@, text_member(e.ip));
    let m = with_member(m, "version"@, text_member(e.version));
    let m = with_member(m, "platform"@, text_member(e.platform));
    let m = with_member(m, "deviceFamily"@, text_member(e.device_family));
    let m = with_member(m, "modelIdentifier"@, text_member(e.model_identifier));
    let m = with_member(m, "mode"@, text_member(e.mode));
    let m = with_member(m, "lastInputSeconds"@, number_member(e.last_input_seconds));
    let m = with_member(m, "reason"@, text_member(e.reason));
    let m = with_member(m, "tags"@, list_member(e.tags));
    let m = with_member(m, "text"@, text_member(e.text));
    let m = m.insert("ts"@, JsonModel::Unsigned(e.ts));
    let m = with_member(m, "deviceId"@, text_member(e.device_id));
    let m = with_member(m, "roles"@, list_member(e.roles));
    let m = with_member(m, "scopes"@, list_member(e.scopes));
    let m = with_member(m, "instanceId"@, text_member(e.instance_id));
    JsonModel::Object(m)
}

impl PresenceEntry {
    /// The JSON of the client as others see it.
    pub fn to_json(&self) -> (r: Json)
        ensures
            r@ == presence_json(*self),
    {
        let mut o = object();
        set_text(&mut o, "host", &self.host);
        set_text(&mut o, "ip", &self.ip);
        set_text(&mut o, "version", &self.version);
        set_text(&mut o, "platform", &self.platform);
        set_text(&mut o, "deviceFamily", &self.device_family);
        set_text(&mut o, "modelIdentifier", &self.model_identifier);
        set_text(&mut o, "mode", &self.mode);
        set_number(&mut o, "lastInputSeconds", self.last_input_seconds);
        set_text(&mut o, "reason", &self.reason);
        set_list(&mut o, "tags", &self.tags);
        set_text(&mut o, "text", &self.text);
        set_field(&mut o, "ts", Json::Unsigned(self.ts));
        set_text(&mut o, "deviceId", &self.device_id);
        set_list(&mut o, "roles", &self.roles);
        set_list(&mut o, "scopes", &self.scopes);
        set_text(&mut o, "instanceId", &self.instance_id);
        Json::Object(o)
    }
}

/// The JSON of clients as others see them.
pub open spec fn presence_list(entries: Seq<PresenceEntry>) -> JsonModel {
    JsonModel::Array(Seq::new(entries.len(), |i: int| presence_json(entries[i])))
}

/// The JSON of clients as others see them.
pub fn presence_to_json(entries: &Vec<PresenceEntry>) -> (r: Json)
    ensures
        r@ == presence_list(entries@),
{
    let mut out: Vec<Json> = Vec::new();
    let mut i: usize = 0;
    while i < entries.len()
        invariant
            i <= entries@.len(),
            out@.len() == i,
            forall|k: int| 0 <= k < i ==> (#[trigger] out@[k])@ == presence_json(entries@[k]),
        decreases entries@.len() - i,
    {
        out.push(entries[i].to_json());
        i = i + 1;
    }
    proof {
        lemma_models(out@);
        assert(models(out@) =~= presence_list(entries@)->Array_0);
    }
    Json::Array(out)
}

/// The JSON of the state of the gateway: what is not known is left out.
pub open spec fn snapshot_json(e: Snapshot) -> JsonModel {
    let m = no_fields().insert("presence"@, presence_list(e.presence@)).insert(
        "health"@,
        e.health@,
    ).insert("stateVersion"@, version_json(e.state_version)).insert(
        "uptimeMs"@,
        JsonModel::Unsigned(e.uptime_ms),
    );
    let m = with_member(m, "configPath"@, text_member(e.config_path));
    let m = with_member(m, "stateDir"@, text_member(e.state_dir));
    let m = with_member(m, "sessionDefaults"@, opt_model(e.session_defaults));
    let m = with_member(m, "authMode"@, text_member(e.auth_mode));
    let m = with_member(m, "updateAvailable"@, opt_model(e.update_available));
    JsonModel::Object(m)
}

impl Snapshot {
    /// The JSON of the state.
    pub fn to_json(&self) -> (r: Json)
        ensures
            r@ == snapshot_json(*self),
    {
        let mut o = object();
        set_field(&mut o, "presence", presence_to_json(&self.presence));
        set_field(&mut o, "health", self.health.copy());
        set_field(&mut o, "stateVersion", self.state_version.to_json());
        set_field(&mut o, "uptimeMs", Json::Unsigned(self.uptime_ms));
        set_text(&mut o, "configPath", &self.config_path);
        set_text(&mut o, "stateDir", &self.state_dir);
        set_value(&mut o, "sessionDefaults", &self.session_defaults);
        set_text(&mut o, "authMode", &self.auth_mode);
        set_value(&mut o, "updateAvailable", &self.update_available);
        Json::Object(o)
    }
}

/// The JSON of the gateway's limits.
pub open spec fn policy_json(p: GatewayPolicy) -> JsonModel {
    JsonModel::Object(
        no_fields().insert("maxPayload"@, JsonModel::Unsigned(p.max_payload as u64)).insert(
            "maxBufferedBytes"@,
            JsonModel::Unsigned(p.max_buffered_bytes as u64),
        ).insert("tickIntervalMs"@, JsonModel::Unsigned(p.tick_interval_ms)),
    )
}

/// The JSON of what a client that was let in is told: what is not known is left out.
pub open spec fn hello_json(e: HelloOk) -> JsonModel {
    let server = JsonModel::Object(
        no_fields().insert("version"@, JsonModel::Text(e.server.version@)).insert(
            "connId"@,
            JsonModel::Text(e.server.conn_id@),
        ),
    );
    let features = JsonModel::Object(
        no_fields().insert("methods"@, text_array(texts(e.features.methods@))).insert(
            "events"@,
            text_array(texts(e.features.events@)),
        ),
    );
    let m = no_fields().insert("type"@, JsonModel::Text(e.frame_type@)).insert(
        "protocol"@,
        JsonModel::Unsigned(e.protocol as u64),
    ).insert("server"@, server).insert("features"@, features).insert(
        "snapshot"@,
        snapshot_json(e.snapshot),
    ).insert("policy"@, policy_json(e.policy));
    let m = with_member(m, "canvasHostUrl"@, text_member(e.canvas_host_url));
    let m = with_member(m, "auth"@, opt_model(e.auth));
    JsonModel::Object(m)
}

impl HelloOk {
    /// The JSON of what the client is told.
    pub fn to_json(&self) -> (r: Json)
        ensures
            r@ == hello_json(*self),
    {
        let mut server = object();
        set_field(&mut server, "version", text(self.server.version.as_str()));
        set_field(&mut server, "connId", text(self.server.conn_id.as_str()));
        let mut features = object();
        set_field(&mut features, "methods", texts_json(&self.features.methods));
        set_field(&mut features, "events", texts_json(&self.features.events));
        let mut policy = object();
        set_field(&mut policy, "maxPayload", Json::Unsigned(self.policy.max_payload as u64));
        set_field(
            &mut policy,
            "maxBufferedBytes",
            Json::Unsigned(self.policy.max_buffered_bytes as u64),
        );
        set_field(&mut policy, "tickIntervalMs", Json::Unsigned(self.policy.tick_interval_ms));
        let mut o = object();
        set_field(&mut o, "type", text(self.frame_type));
        set_field(&mut o, "protocol", Json::Unsigned(self.protocol as u64));
        set_field(&mut o, "server", Json::Object(server));
        set_field(&mut o, "features", Json::Object(features));
        set_field(&mut o, "snapshot", self.snapshot.to_json());
        set_field(&mut o, "policy", Json::Object(policy));
        set_text(&mut o, "canvasHostUrl", &self.canvas_host_url);
        set_value(&mut o, "auth", &self.auth);
        Json::Object(o)
    }
}

/// The value of an error that may be missing.
pub open spec fn error_member(value: Option<ErrorShape>) -> Option<JsonModel> {
    match value {
        Some(e) => Some(JsonModel::Object(error_fields(e@))),
        None => None,
    }
}

/// The JSON of a reply: a payload or an error that is not there is left out.
pub open spec fn response_json(e: ResponseFrame) -> JsonModel {
    let m = no_fields().insert("type"@, JsonModel::Text(e.frame_type@)).insert(
        "id"@,
        JsonModel::Text(e.id@),
    ).insert("ok"@, JsonModel::Bool(e.ok));
    let m = with_member(m, "payload"@, opt_model(e.payload));
    let m = with_member(m, "error"@, error_member(e.error));
    JsonModel::Object(m)
}

impl ResponseFrame {
    /// The JSON of the reply.
    pub fn to_json(&self) -> (r: Json)
        ensures
            r@ == response_json(*self),
    {
        let mut o = object();
        set_field(&mut o, "type", text(self.frame_type));
        set_field(&mut o, "id", text(self.id.as_str()));
        set_field(&mut o, "ok", Json::Bool(self.ok));
        set_value(&mut o, "payload", &self.payload);
        if let Some(error) = &self.error {
            set_field(&mut o, "error", error.to_json());
        }
        Json::Object(o)
    }
}

/// The state that is told has its clients, its health, its versions and its age, and what else is
/// known.
pub proof fn law_json_of_snapshots(record: &Snapshot, versions: Json, clients: Json, r: Json)
    requires
        call_ensures(Snapshot::to_json, (record,), r),
        call_ensures(StateVersion::to_json, (&record.state_version,), versions),
        call_ensures(presence_to_json, (&record.presence,), clients),
    ensures
        crate::json::member(r@, "presence"@) == Some(clients@),
        crate::json::member(r@, "health"@) == Some(record.health@),
        crate::json::member(r@, "stateVersion"@) == Some(versions@),
        crate::json::member(r@, "uptimeMs"@) == Some(JsonModel::Unsigned(record.uptime_ms)),
        crate::json::member(versions@, "presence"@) == Some(JsonModel::Unsigned(record.state_version.presence)),
        crate::json::member(versions@, "health"@) == Some(JsonModel::Unsigned(record.state_version.health)),
        crate::json::member(r@, "configPath"@) == (if record.config_path is Some {
            Some(JsonModel::Text(record.config_path->0@))
        } else {
            None
        }),
        crate::json::member(r@, "stateDir"@) == (if record.state_dir is Some {
            Some(JsonModel::Text(record.state_dir->0@))
        } else {
            None
        }),
        crate::json::member(r@, "sessionDefaults"@) == (if record.session_defaults is Some {
            Some(record.session_defaults->0@)
        } else {
            None
        }),
        crate::json::member(r@, "authMode"@) == (if record.auth_mode is Some {
            Some(JsonModel::Text(record.auth_mode->0@))
        } else {
            None
        }),
        crate::json::member(r@, "updateAvailable"@) == (if record.update_available is Some {
            Some(record.update_available->0@)
        } else {
            None
        }),
{
    reveal_strlit("presence");
    reveal_strlit("health");
    reveal_strlit("stateVersion");
    reveal_strlit("uptimeMs");
    reveal_strlit("configPath");
    reveal_strlit("stateDir");
    reveal_strlit("sessionDefaults");
    reveal_strlit("authMode");
    reveal_strlit("updateAvailable");
    assert("presence"@.len() != "health"@.len());
    assert("presence"@.len() != "stateVersion"@.len());
    assert("presence"@[0] != "uptimeMs"@[0]);
    assert("presence"@.len() != "configPath"@.len());
    assert("presence"@[0] != "stateDir"@[0]);
    assert("presence"@.len() != "sessionDefaults"@.len());
    assert("presence"@[0] != "authMode"@[0]);
    assert("presence"@.len() != "updateAvailable"@.len());
    assert("health"@.len() != "stateVersion"@.len());
    assert("health"@.len() != "uptimeMs"@.len());
    assert("health"@.len() != "configPath"@.len());
    assert("health"@.len() != "stateDir"@.len());
    assert("health"@.len() != "sessionDefaults"@.len());
    assert("health"@.len() != "authMode"@.len());
    assert("health"@.len() != "updateAvailable"@.len());
    assert("stateVersion"@.len() != "uptimeMs"@.len());
    assert("stateVersion"@.len() != "configPath"@.len());
    assert("stateVersion"@.len() != "stateDir"@.len());
    assert("stateVersion"@.len() != "sessionDefaults"@.len());
    assert("stateVersion"@.len() != "authMode"@.len());
    assert("stateVersion"@.len() != "updateAvailable"@.len());
    assert("uptimeMs"@.len() != "configPath"@.len());
    assert("uptimeMs"@[0] != "stateDir"@[0]);
    assert("uptimeMs"@.len() != "sessionDefaults"@.len());
    assert("uptimeMs"@[0] != "authMode"@[0]);
    assert("uptimeMs"@.len() != "updateAvailable"@.len());
    assert("configPath"@.len() != "stateDir"@.len());
    assert("configPath"@.len() != "sessionDefaults"@.len());
    assert("configPath"@.len() != "authMode"@.len());
    assert("configPath"@.len() != "updateAvailable"@.len());
    assert("stateDir"@.len() != "sessionDefaults"@.len());
    assert("stateDir"@[0] != "authMode"@[0]);
    assert("stateDir"@.len() != "updateAvailable"@.len());
    assert("sessionDefaults"@.len() != "authMode"@.len());
    assert("sessionDefaults"@[0] != "updateAvailable"@[0]);
    assert("authMode"@.len() != "updateAvailable"@.len());
}

/// A greeting is told with its type, its protocol, its server, its features, its state and its
/// bounds.
pub proof fn law_json_of_greetings(record: &HelloOk, state: Json, r: Json)
    requires
        call_ensures(HelloOk::to_json, (record,), r),
        call_ensures(Snapshot::to_json, (&record.snapshot,), state),
    ensures
        crate::json::member(r@, "type"@) == Some(JsonModel::Text(record.frame_type@)),
        crate::json::member(r@, "protocol"@) == Some(JsonModel::Unsigned(record.protocol as u64)),
        crate::json::member(r@, "snapshot"@) == Some(state@),
        crate::json::member(r@, "server"@) is Some && crate::json::member(crate::json::member(r@, "server"@)->0, "version"@) == Some(
            JsonModel::Text(record.server.version@),
        ) && crate::json::member(crate::json::member(r@, "server"@)->0, "connId"@) == Some(JsonModel::Text(record.server.conn_id@)),
        crate::json::member(r@, "features"@) is Some && crate::json::member(crate::json::member(r@, "features"@)->0, "methods"@) == Some(
            text_array(texts(record.features.methods@)),
        ) && crate::json::member(crate::json::member(r@, "features"@)->0, "events"@) == Some(
            text_array(texts(record.features.events@)),
        ),
        crate::json::member(r@, "policy"@) is Some && crate::json::member(crate::json::member(r@, "policy"@)->0, "maxPayload"@) == Some(
            JsonModel::Unsigned(record.policy.max_payload as u64),
        ) && crate::json::member(crate::json::member(r@, "policy"@)->0, "maxBufferedBytes"@) == Some(
            JsonModel::Unsigned(record.policy.max_buffered_bytes as u64),
        ) && crate::json::member(crate::json::member(r@, "policy"@)->0, "tickIntervalMs"@) == Some(
            JsonModel::Unsigned(record.policy.tick_interval_ms),
        ),
{
    reveal_strlit("type");
    reveal_strlit("protocol");
    reveal_strlit("server");
    reveal_strlit("features");
    reveal_strlit("snapshot");
    reveal_strlit("policy");
    reveal_strlit("canvasHostUrl");
    reveal_strlit("auth");
    assert("type"@.len() != "protocol"@.len());
    assert("type"@.len() != "server"@.len());
    assert("type"@.len() != "features"@.len());
    assert("type"@.len() != "snapshot"@.len());
    assert("type"@.len() != "policy"@.len());
    assert("type"@.len() != "canvasHostUrl"@.len());
    assert("type"@[0] != "auth"@[0]);
    assert("protocol"@.len() != "server"@.len());
    assert("protocol"@[0] != "features"@[0]);
    assert("protocol"@[0] != "snapshot"@[0]);
    assert("protocol"@.len() != "policy"@.len());
    assert("protocol"@.len() != "canvasHostUrl"@.len());
    assert("protocol"@.len() != "auth"@.len());
    assert("server"@.len() != "features"@.len());
    assert("server"@.len() != "snapshot"@.len());
    assert("server"@[0] != "policy"@[0]);
    assert("server"@.len() != "canvasHostUrl"@.len());
    assert("server"@.len() != "auth"@.len());
    assert("features"@[0] != "snapshot"@[0]);
    assert("features"@.len() != "policy"@.len());
    assert("features"@.len() != "canvasHostUrl"@.len());
    assert("features"@.len() != "auth"@.len());
    assert("snapshot"@.len() != "policy"@.len());
    assert("snapshot"@.len() != "canvasHostUrl"@.len());
    assert("snapshot"@.len() != "auth"@.len());
    assert("policy"@.len() != "canvasHostUrl"@.len());
    assert("policy"@.len() != "auth"@.len());
    assert("canvasHostUrl"@.len() != "auth"@.len());
    reveal_strlit("version");
    reveal_strlit("connId");
    reveal_strlit("methods");
    reveal_strlit("events");
    reveal_strlit("maxPayload");
    reveal_strlit("maxBufferedBytes");
    reveal_strlit("tickIntervalMs");
    assert("version"@.len() != "connId"@.len());
    assert("version"@[0] != "methods"@[0]);
    assert("version"@.len() != "events"@.len());
    assert("version"@.len() != "maxPayload"@.len());
    assert("version"@.len() != "maxBufferedBytes"@.len());
    assert("version"@.len() != "tickIntervalMs"@.len());
    assert("connId"@.len() != "methods"@.len());
    assert("connId"@[0] != "events"@[0]);
    assert("connId"@.len() != "maxPayload"@.len());
    assert("connId"@.len() != "maxBufferedBytes"@.len());
    assert("connId"@.len() != "tickIntervalMs"@.len());
    assert("methods"@.len() != "events"@.len());
    assert("methods"@.len() != "maxPayload"@.len());
    assert("methods"@.len() != "maxBufferedBytes"@.len());
    assert("methods"@.len() != "tickIntervalMs"@.len());
    assert("events"@.len() != "maxPayload"@.len());
    assert("events"@.len() != "maxBufferedBytes"@.len());
    assert("events"@.len() != "tickIntervalMs"@.len());
    assert("maxPayload"@.len() != "maxBufferedBytes"@.len());
    assert("maxPayload"@.len() != "tickIntervalMs"@.len());
    assert("maxBufferedBytes"@.len() != "tickIntervalMs"@.len());
}

/// A reply is told with its type, its id and whether it is well, and with what it carries or what went
/// wrong.
pub proof fn law_json_of_replies(record: &ResponseFrame, r: Json)
    requires
        call_ensures(ResponseFrame::to_json, (record,), r),
    ensures
        crate::json::member(r@, "type"@) == Some(JsonModel::Text(record.frame_type@)),
        crate::json::member(r@, "id"@) == Some(JsonModel::Text(record.id@)),
        crate::json::member(r@, "ok"@) == Some(JsonModel::Bool(record.ok)),
        crate::json::member(r@, "payload"@) == (if record.payload is Some {
            Some(record.payload->0@)
        } else {
            None
        }),
        crate::json::member(r@, "error"@) is Some <==> record.error is Some,
        record.error is Some ==> {
            let told = crate::json::member(r@, "error"@)->0;
            let error = record.error->0;
            &&& crate::json::member(told, "code"@) == Some(JsonModel::Text(error.code@))
            &&& crate::json::member(told, "message"@) == Some(JsonModel::Text(error.message@))
            &&& crate::json::member(told, "details"@) == (if error.details is Some {
                Some(error.details->0@)
            } else {
                None
            })
            &&& crate::json::member(told, "retryable"@) == (if error.retryable is Some {
                Some(JsonModel::Bool(error.retryable->0))
            } else {
                None
            })
            &&& crate::json::member(told, "retryAfterMs"@) == (if error.retry_after_ms is Some {
                Some(JsonModel::Unsigned(error.retry_after_ms->0))
            } else {
                None
            })
        },
{
    reveal_strlit("type");
    reveal_strlit("id");
    reveal_strlit("ok");
    reveal_strlit("payload");
    reveal_strlit("error");
    assert("type"@.len() != "id"@.len());
    assert("type"@.len() != "ok"@.len());
    assert("type"@.len() != "payload"@.len());
    assert("type"@.len() != "error"@.len());
    assert("id"@[0] != "ok"@[0]);
    assert("id"@.len() != "payload"@.len());
    assert("id"@.len() != "error"@.len());
    assert("ok"@.len() != "payload"@.len());
    assert("ok"@.len() != "error"@.len());
    assert("payload"@.len() != "error"@.len());
    reveal_strlit("code");
    reveal_strlit("message");
    reveal_strlit("details");
    reveal_strlit("retryable");
    reveal_strlit("retryAfterMs");
    assert("code"@.len() != "message"@.len());
    assert("code"@.len() != "details"@.len());
    assert("code"@.len() != "retryable"@.len());
    assert("code"@.len() != "retryAfterMs"@.len());
    assert("message"@[0] != "details"@[0]);
    assert("message"@.len() != "retryable"@.len());
    assert("message"@.len() != "retryAfterMs"@.len());
    assert("details"@.len() != "retryable"@.len());
    assert("details"@.len() != "retryAfterMs"@.len());
    assert("retryable"@.len() != "retryAfterMs"@.len());
}

} // verus!
