//! Records of the gateway.
use crate::json::{
    copy_opt, member, no_fields, number_or_null, object, opt_json, opt_model, opt_number_json,
    opt_text_json, set_field, text, text_array, text_or_null, texts_json, value_or_null, Json,
    JsonModel,
};
use crate::text::{opt_text, texts};
use vstd::prelude::*;

verus! {

/// A session of a conversation.
pub struct SessionRecord {
    pub id: String,
    pub title: String,
    pub tags: Vec<String>,
    pub metadata: Json,
    pub created_at_ms: u64,
    pub updated_at_ms: u64,
}

/// The JSON of the record.
pub open spec fn session_record_json(r: SessionRecord) -> JsonModel {
    JsonModel::Object(
        no_fields().insert("id"@, JsonModel::Text(r.id@)).insert("title"@, JsonModel::Text(r.title@)).insert("tags"@, text_array(texts(r.tags@))).insert("metadata"@, r.metadata@).insert("createdAtMs"@, JsonModel::Unsigned(r.created_at_ms)).insert("updatedAtMs"@, JsonModel::Unsigned(r.updated_at_ms)),
    )
}

impl SessionRecord {
    /// The JSON of the record.
    pub fn to_json(&self) -> (r: Json)
        ensures
            r@ == session_record_json(*self),
    {
        let mut o = object();
        set_field(&mut o, "id", text(self.id.as_str()));
        set_field(&mut o, "title", text(self.title.as_str()));
        set_field(&mut o, "tags", texts_json(&self.tags));
        set_field(&mut o, "metadata", self.metadata.copy());
        set_field(&mut o, "createdAtMs", Json::Unsigned(self.created_at_ms));
        set_field(&mut o, "updatedAtMs", Json::Unsigned(self.updated_at_ms));
        Json::Object(o)
    }
}

/// A message of a conversation.
pub struct ChatMessage {
    pub id: String,
    pub role: String,
    pub text: String,
    pub status: String,
    pub ts: u64,
    pub metadata: Json,
}

/// The JSON of the record.
pub open spec fn chat_message_json(r: ChatMessage) -> JsonModel {
    JsonModel::Object(
        no_fields().insert("id"@, JsonModel::Text(r.id@)).insert("role"@, JsonModel::Text(r.role@)).insert("text"@, JsonModel::Text(r.text@)).insert("status"@, JsonModel::Text(r.status@)).insert("ts"@, JsonModel::Unsigned(r.ts)).insert("metadata"@, r.metadata@),
    )
}

impl ChatMessage {
    /// The JSON of the record.
    pub fn to_json(&self) -> (r: Json)
        ensures
            r@ == chat_message_json(*self),
    {
        let mut o = object();
        set_field(&mut o, "id", text(self.id.as_str()));
        set_field(&mut o, "role", text(self.role.as_str()));
        set_field(&mut o, "text", text(self.text.as_str()));
        set_field(&mut o, "status", text(self.status.as_str()));
        set_field(&mut o, "ts", Json::Unsigned(self.ts));
        set_field(&mut o, "metadata", self.metadata.copy());
        Json::Object(o)
    }
}

/// A message with the session that it belongs to.
pub struct ChatHistoryEntry {
    pub session_key: String,
    pub message: ChatMessage,
}

/// A run of an agent.
pub struct AgentRunRecord {
    pub id: String,
    pub agent_id: String,
    pub input: String,
    pub output: String,
    pub status: String,
    pub session_key: Option<String>,
    pub metadata: Json,
    pub created_at_ms: u64,
    pub updated_at_ms: u64,
    pub completed_at_ms: Option<u64>,
}

/// The JSON of the record.
pub open spec fn agent_run_record_json(r: AgentRunRecord) -> JsonModel {
    JsonModel::Object(
        no_fields().insert("id"@, JsonModel::Text(r.id@)).insert("agentId"@, JsonModel::Text(r.agent_id@)).insert("input"@, JsonModel::Text(r.input@)).insert("output"@, JsonModel::Text(r.output@)).insert("status"@, JsonModel::Text(r.status@)).insert("sessionKey"@, text_or_null(opt_text(r.session_key))).insert("metadata"@, r.metadata@).insert("createdAtMs"@, JsonModel::Unsigned(r.created_at_ms)).insert("updatedAtMs"@, JsonModel::Unsigned(r.updated_at_ms)).insert("completedAtMs"@, number_or_null(r.completed_at_ms)),
    )
}

impl AgentRunRecord {
    /// The JSON of the record.
    pub fn to_json(&self) -> (r: Json)
        ensures
            r@ == agent_run_record_json(*self),
    {
        let mut o = object();
        set_field(&mut o, "id", text(self.id.as_str()));
        set_field(&mut o, "agentId", text(self.agent_id.as_str()));
        set_field(&mut o, "input", text(self.input.as_str()));
        set_field(&mut o, "output", text(self.output.as_str()));
        set_field(&mut o, "status", text(self.status.as_str()));
        set_field(&mut o, "sessionKey", opt_text_json(&self.session_key));
        set_field(&mut o, "metadata", self.metadata.copy());
        set_field(&mut o, "createdAtMs", Json::Unsigned(self.created_at_ms));
        set_field(&mut o, "updatedAtMs", Json::Unsigned(self.updated_at_ms));
        set_field(&mut o, "completedAtMs", opt_number_json(self.completed_at_ms));
        Json::Object(o)
    }
}

/// When a job runs.
pub struct CronSchedule {
    pub kind: String,
    pub at: Option<String>,
    pub every_ms: Option<u64>,
    pub anchor_ms: Option<u64>,
    pub expr: Option<String>,
    pub tz: Option<String>,
    pub stagger_ms: Option<u64>,
}

/// The JSON of the record.
pub open spec fn cron_schedule_json(r: CronSchedule) -> JsonModel {
    JsonModel::Object(
        no_fields().insert("kind"@, JsonModel::Text(r.kind@)).insert("at"@, text_or_null(opt_text(r.at))).insert("everyMs"@, number_or_null(r.every_ms)).insert("anchorMs"@, number_or_null(r.anchor_ms)).insert("expr"@, text_or_null(opt_text(r.expr))).insert("tz"@, text_or_null(opt_text(r.tz))).insert("staggerMs"@, number_or_null(r.stagger_ms)),
    )
}

impl CronSchedule {
    /// The JSON of the record.
    pub fn to_json(&self) -> (r: Json)
        ensures
            r@ == cron_schedule_json(*self),
    {
        let mut o = object();
        set_field(&mut o, "kind", text(self.kind.as_str()));
        set_field(&mut o, "at", opt_text_json(&self.at));
        set_field(&mut o, "everyMs", opt_number_json(self.every_ms));
        set_field(&mut o, "anchorMs", opt_number_json(self.anchor_ms));
        set_field(&mut o, "expr", opt_text_json(&self.expr));
        set_field(&mut o, "tz", opt_text_json(&self.tz));
        set_field(&mut o, "staggerMs", opt_number_json(self.stagger_ms));
        Json::Object(o)
    }
}

/// What a job does.
pub struct CronPayload {
    pub kind: String,
    pub text: Option<String>,
    pub message: Option<String>,
    pub model: Option<String>,
    pub thinking: Option<String>,
    pub timeout_seconds: Option<u64>,
}

/// The JSON of the record.
pub open spec fn cron_payload_json(r: CronPayload) -> JsonModel {
    JsonModel::Object(
        no_fields().insert("kind"@, JsonModel::Text(r.kind@)).insert("text"@, text_or_null(opt_text(r.text))).insert("message"@, text_or_null(opt_text(r.message))).insert("model"@, text_or_null(opt_text(r.model))).insert("thinking"@, text_or_null(opt_text(r.thinking))).insert("timeoutSeconds"@, number_or_null(r.timeout_seconds)),
    )
}

impl CronPayload {
    /// The JSON of the record.
    pub fn to_json(&self) -> (r: Json)
        ensures
            r@ == cron_payload_json(*self),
    {
        let mut o = object();
        set_field(&mut o, "kind", text(self.kind.as_str()));
        set_field(&mut o, "text", opt_text_json(&self.text));
        set_field(&mut o, "message", opt_text_json(&self.message));
        set_field(&mut o, "model", opt_text_json(&self.model));
        set_field(&mut o, "thinking", opt_text_json(&self.thinking));
        set_field(&mut o, "timeoutSeconds", opt_number_json(self.timeout_seconds));
        Json::Object(o)
    }
}

/// A scheduled job.
pub struct CronJobRecord {
    pub id: String,
    pub name: String,
    pub enabled: bool,
    pub schedule: CronSchedule,
    pub payload: CronPayload,
    pub metadata: Json,
    pub created_at_ms: u64,
    pub updated_at_ms: u64,
    pub last_run_ms: Option<u64>,
    pub next_run_ms: Option<u64>,
}

/// The JSON of the record.
pub open spec fn cron_job_record_json(r: CronJobRecord) -> JsonModel {
    JsonModel::Object(
        no_fields().insert("id"@, JsonModel::Text(r.id@)).insert("name"@, JsonModel::Text(r.name@)).insert("enabled"@, JsonModel::Bool(r.enabled)).insert("schedule"@, cron_schedule_json(r.schedule)).insert("payload"@, cron_payload_json(r.payload)).insert("metadata"@, r.metadata@).insert("createdAtMs"@, JsonModel::Unsigned(r.created_at_ms)).insert("updatedAtMs"@, JsonModel::Unsigned(r.updated_at_ms)).insert("lastRunMs"@, number_or_null(r.last_run_ms)).insert("nextRunMs"@, number_or_null(r.next_run_ms)),
    )
}

impl CronJobRecord {
    /// The JSON of the record.
    pub fn to_json(&self) -> (r: Json)
        ensures
            r@ == cron_job_record_json(*self),
    {
        let mut o = object();
        set_field(&mut o, "id", text(self.id.as_str()));
        set_field(&mut o, "name", text(self.name.as_str()));
        set_field(&mut o, "enabled", Json::Bool(self.enabled));
        set_field(&mut o, "schedule", self.schedule.to_json());
        set_field(&mut o, "payload", self.payload.to_json());
        set_field(&mut o, "metadata", self.metadata.copy());
        set_field(&mut o, "createdAtMs", Json::Unsigned(self.created_at_ms));
        set_field(&mut o, "updatedAtMs", Json::Unsigned(self.updated_at_ms));
        set_field(&mut o, "lastRunMs", opt_number_json(self.last_run_ms));
        set_field(&mut o, "nextRunMs", opt_number_json(self.next_run_ms));
        Json::Object(o)
    }
}

/// A run of a job.
pub struct CronRunRecord {
    pub id: String,
    pub job_id: String,
    pub status: String,
    pub output: Option<String>,
    pub error: Option<String>,
    pub manual: bool,
    pub started_at_ms: u64,
    pub finished_at_ms: u64,
}

/// The JSON of the record.
pub open spec fn cron_run_record_json(r: CronRunRecord) -> JsonModel {
    JsonModel::Object(
        no_fields().insert("id"@, JsonModel::Text(r.id@)).insert("jobId"@, JsonModel::Text(r.job_id@)).insert("status"@, JsonModel::Text(r.status@)).insert("output"@, text_or_null(opt_text(r.output))).insert("error"@, text_or_null(opt_text(r.error))).insert("manual"@, JsonModel::Bool(r.manual)).insert("startedAtMs"@, JsonModel::Unsigned(r.started_at_ms)).insert("finishedAtMs"@, JsonModel::Unsigned(r.finished_at_ms)),
    )
}

impl CronRunRecord {
    /// The JSON of the record.
    pub fn to_json(&self) -> (r: Json)
        ensures
            r@ == cron_run_record_json(*self),
    {
        let mut o = object();
        set_field(&mut o, "id", text(self.id.as_str()));
        set_field(&mut o, "jobId", text(self.job_id.as_str()));
        set_field(&mut o, "status", text(self.status.as_str()));
        set_field(&mut o, "output", opt_text_json(&self.output));
        set_field(&mut o, "error", opt_text_json(&self.error));
        set_field(&mut o, "manual", Json::Bool(self.manual));
        set_field(&mut o, "startedAtMs", Json::Unsigned(self.started_at_ms));
        set_field(&mut o, "finishedAtMs", Json::Unsigned(self.finished_at_ms));
        Json::Object(o)
    }
}

/// What to change of a job.
pub struct CronJobPatch {
    pub name: Option<String>,
    pub enabled: Option<bool>,
    pub schedule: Option<CronSchedule>,
    pub payload: Option<CronPayload>,
    pub metadata: Option<Json>,
    pub next_run_ms: Option<Option<u64>>,
}

/// A node.
pub struct NodeRecord {
    pub id: String,
    pub display_name: String,
    pub platform: String,
    pub device_family: Option<String>,
    pub commands: Vec<String>,
    pub paired: bool,
    pub status: String,
    pub last_seen_ms: u64,
    pub metadata: Json,
}

/// The JSON of the record.
pub open spec fn node_record_json(r: NodeRecord) -> JsonModel {
    JsonModel::Object(
        no_fields().insert("id"@, JsonModel::Text(r.id@)).insert("displayName"@, JsonModel::Text(r.display_name@)).insert("platform"@, JsonModel::Text(r.platform@)).insert("deviceFamily"@, text_or_null(opt_text(r.device_family))).insert("commands"@, text_array(texts(r.commands@))).insert("paired"@, JsonModel::Bool(r.paired)).insert("status"@, JsonModel::Text(r.status@)).insert("lastSeenMs"@, JsonModel::Unsigned(r.last_seen_ms)).insert("metadata"@, r.metadata@),
    )
}

impl NodeRecord {
    /// The JSON of the record.
    pub fn to_json(&self) -> (r: Json)
        ensures
            r@ == node_record_json(*self),
    {
        let mut o = object();
        set_field(&mut o, "id", text(self.id.as_str()));
        set_field(&mut o, "displayName", text(self.display_name.as_str()));
        set_field(&mut o, "platform", text(self.platform.as_str()));
        set_field(&mut o, "deviceFamily", opt_text_json(&self.device_family));
        set_field(&mut o, "commands", texts_json(&self.commands));
        set_field(&mut o, "paired", Json::Bool(self.paired));
        set_field(&mut o, "status", text(self.status.as_str()));
        set_field(&mut o, "lastSeenMs", Json::Unsigned(self.last_seen_ms));
        set_field(&mut o, "metadata", self.metadata.copy());
        Json::Object(o)
    }
}

/// The request of a node to be paired.
pub struct NodePairRequestRecord {
    pub request_id: String,
    pub node_id: String,
    pub display_name: String,
    pub platform: String,
    pub device_family: Option<String>,
    pub commands: Vec<String>,
    pub public_key: Option<String>,
    pub status: String,
    pub reason: Option<String>,
    pub created_at_ms: u64,
    pub resolved_at_ms: Option<u64>,
}

/// The JSON of the record.
pub open spec fn node_pair_request_record_json(r: NodePairRequestRecord) -> JsonModel {
    JsonModel::Object(
        no_fields().insert("requestId"@, JsonModel::Text(r.request_id@)).insert("nodeId"@, JsonModel::Text(r.node_id@)).insert("displayName"@, JsonModel::Text(r.display_name@)).insert("platform"@, JsonModel::Text(r.platform@)).insert("deviceFamily"@, text_or_null(opt_text(r.device_family))).insert("commands"@, text_array(texts(r.commands@))).insert("publicKey"@, text_or_null(opt_text(r.public_key))).insert("status"@, JsonModel::Text(r.status@)).insert("reason"@, text_or_null(opt_text(r.reason))).insert("createdAtMs"@, JsonModel::Unsigned(r.created_at_ms)).insert("resolvedAtMs"@, number_or_null(r.resolved_at_ms)),
    )
}

impl NodePairRequestRecord {
    /// The JSON of the record.
    pub fn to_json(&self) -> (r: Json)
        ensures
            r@ == node_pair_request_record_json(*self),
    {
        let mut o = object();
        set_field(&mut o, "requestId", text(self.request_id.as_str()));
        set_field(&mut o, "nodeId", text(self.node_id.as_str()));
        set_field(&mut o, "displayName", text(self.display_name.as_str()));
        set_field(&mut o, "platform", text(self.platform.as_str()));
        set_field(&mut o, "deviceFamily", opt_text_json(&self.device_family));
        set_field(&mut o, "commands", texts_json(&self.commands));
        set_field(&mut o, "publicKey", opt_text_json(&self.public_key));
        set_field(&mut o, "status", text(self.status.as_str()));
        set_field(&mut o, "reason", opt_text_json(&self.reason));
        set_field(&mut o, "createdAtMs", Json::Unsigned(self.created_at_ms));
        set_field(&mut o, "resolvedAtMs", opt_number_json(self.resolved_at_ms));
        Json::Object(o)
    }
}

/// A command that a node was asked to run.
pub struct NodeInvokeRecord {
    pub request_id: String,
    pub node_id: String,
    pub command: String,
    pub args: Vec<String>,
    pub input: Option<Json>,
    pub status: String,
    pub result: Option<Json>,
    pub error: Option<String>,
    pub requested_at_ms: u64,
    pub updated_at_ms: u64,
    pub completed_at_ms: Option<u64>,
}

/// The JSON of the record.
pub open spec fn node_invoke_record_json(r: NodeInvokeRecord) -> JsonModel {
    JsonModel::Object(
        no_fields().insert("requestId"@, JsonModel::Text(r.request_id@)).insert("nodeId"@, JsonModel::Text(r.node_id@)).insert("command"@, JsonModel::Text(r.command@)).insert("args"@, text_array(texts(r.args@))).insert("input"@, value_or_null(opt_model(r.input))).insert("status"@, JsonModel::Text(r.status@)).insert("result"@, value_or_null(opt_model(r.result))).insert("error"@, text_or_null(opt_text(r.error))).insert("requestedAtMs"@, JsonModel::Unsigned(r.requested_at_ms)).insert("updatedAtMs"@, JsonModel::Unsigned(r.updated_at_ms)).insert("completedAtMs"@, number_or_null(r.completed_at_ms)),
    )
}

impl NodeInvokeRecord {
    /// The JSON of the record.
    pub fn to_json(&self) -> (r: Json)
        ensures
            r@ == node_invoke_record_json(*self),
    {
        let mut o = object();
        set_field(&mut o, "requestId", text(self.request_id.as_str()));
        set_field(&mut o, "nodeId", text(self.node_id.as_str()));
        set_field(&mut o, "command", text(self.command.as_str()));
        set_field(&mut o, "args", texts_json(&self.args));
        set_field(&mut o, "input", opt_json(copy_opt(&self.input)));
        set_field(&mut o, "status", text(self.status.as_str()));
        set_field(&mut o, "result", opt_json(copy_opt(&self.result)));
        set_field(&mut o, "error", opt_text_json(&self.error));
        set_field(&mut o, "requestedAtMs", Json::Unsigned(self.requested_at_ms));
        set_field(&mut o, "updatedAtMs", Json::Unsigned(self.updated_at_ms));
        set_field(&mut o, "completedAtMs", opt_number_json(self.completed_at_ms));
        Json::Object(o)
    }
}

/// An event that a node reported.
pub struct NodeEventRecord {
    pub id: String,
    pub node_id: String,
    pub event: String,
    pub payload: Option<Json>,
    pub ts: u64,
}

/// The JSON of the record.
pub open spec fn node_event_record_json(r: NodeEventRecord) -> JsonModel {
    JsonModel::Object(
        no_fields().insert("id"@, JsonModel::Text(r.id@)).insert("nodeId"@, JsonModel::Text(r.node_id@)).insert("event"@, JsonModel::Text(r.event@)).insert("payload"@, value_or_null(opt_model(r.payload))).insert("ts"@, JsonModel::Unsigned(r.ts)),
    )
}

impl NodeEventRecord {
    /// The JSON of the record.
    pub fn to_json(&self) -> (r: Json)
        ensures
            r@ == node_event_record_json(*self),
    {
        let mut o = object();
        set_field(&mut o, "id", text(self.id.as_str()));
        set_field(&mut o, "nodeId", text(self.node_id.as_str()));
        set_field(&mut o, "event", text(self.event.as_str()));
        set_field(&mut o, "payload", opt_json(copy_opt(&self.payload)));
        set_field(&mut o, "ts", Json::Unsigned(self.ts));
        Json::Object(o)
    }
}

/// What a node asks to be paired with.
pub struct NodePairRequestInput {
    pub node_id: String,
    pub display_name: String,
    pub platform: String,
    pub device_family: Option<String>,
    pub commands: Vec<String>,
    pub public_key: Option<String>,
}

/// A command for a node.
pub struct NodeInvokeInput {
    pub node_id: String,
    pub command: String,
    pub args: Vec<String>,
    pub input: Option<Json>,
}

/// A stored value under its key.
pub struct ConfigEntry {
    pub key: String,
    pub value: Json,
    pub updated_at_ms: u64,
}

/// Each member of the JSON of a session is what the record holds under that name.
pub proof fn law_json_of_sessions(record: &SessionRecord, r: Json)
    requires
        call_ensures(SessionRecord::to_json, (record,), r),
    ensures
        member(r@, "id"@) == Some(JsonModel::Text(record.id@)),
        member(r@, "title"@) == Some(JsonModel::Text(record.title@)),
        member(r@, "tags"@) == Some(text_array(texts(record.tags@))),
        member(r@, "metadata"@) == Some(record.metadata@),
        member(r@, "createdAtMs"@) == Some(JsonModel::Unsigned(record.created_at_ms)),
        member(r@, "updatedAtMs"@) == Some(JsonModel::Unsigned(record.updated_at_ms)),
{
    reveal_strlit("id");
    reveal_strlit("title");
    reveal_strlit("tags");
    reveal_strlit("metadata");
    reveal_strlit("createdAtMs");
    reveal_strlit("updatedAtMs");
    assert("id"@.len() != "title"@.len());
    assert("id"@.len() != "tags"@.len());
    assert("id"@.len() != "metadata"@.len());
    assert("id"@.len() != "createdAtMs"@.len());
    assert("id"@.len() != "updatedAtMs"@.len());
    assert("title"@.len() != "tags"@.len());
    assert("title"@.len() != "metadata"@.len());
    assert("title"@.len() != "createdAtMs"@.len());
    assert("title"@.len() != "updatedAtMs"@.len());
    assert("tags"@.len() != "metadata"@.len());
    assert("tags"@.len() != "createdAtMs"@.len());
    assert("tags"@.len() != "updatedAtMs"@.len());
    assert("metadata"@.len() != "createdAtMs"@.len());
    assert("metadata"@.len() != "updatedAtMs"@.len());
    assert("createdAtMs"@[0] != "updatedAtMs"@[0]);
}

/// Each member of the JSON of a message is what the record holds under that name.
pub proof fn law_json_of_messages(record: &ChatMessage, r: Json)
    requires
        call_ensures(ChatMessage::to_json, (record,), r),
    ensures
        member(r@, "id"@) == Some(JsonModel::Text(record.id@)),
        member(r@, "role"@) == Some(JsonModel::Text(record.role@)),
        member(r@, "text"@) == Some(JsonModel::Text(record.text@)),
        member(r@, "status"@) == Some(JsonModel::Text(record.status@)),
        member(r@, "ts"@) == Some(JsonModel::Unsigned(record.ts)),
        member(r@, "metadata"@) == Some(record.metadata@),
{
    reveal_strlit("id");
    reveal_strlit("role");
    reveal_strlit("text");
    reveal_strlit("status");
    reveal_strlit("ts");
    reveal_strlit("metadata");
    assert("id"@.len() != "role"@.len());
    assert("id"@.len() != "text"@.len());
    assert("id"@.len() != "status"@.len());
    assert("id"@[0] != "ts"@[0]);
    assert("id"@.len() != "metadata"@.len());
    assert("role"@[0] != "text"@[0]);
    assert("role"@.len() != "status"@.len());
    assert("role"@.len() != "ts"@.len());
    assert("role"@.len() != "metadata"@.len());
    assert("text"@.len() != "status"@.len());
    assert("text"@.len() != "ts"@.len());
    assert("text"@.len() != "metadata"@.len());
    assert("status"@.len() != "ts"@.len());
    assert("status"@.len() != "metadata"@.len());
    assert("ts"@.len() != "metadata"@.len());
}

/// Each member of the JSON of a run is what the record holds under that name.
pub proof fn law_json_of_runs(record: &AgentRunRecord, r: Json)
    requires
        call_ensures(AgentRunRecord::to_json, (record,), r),
    ensures
        member(r@, "id"@) == Some(JsonModel::Text(record.id@)),
        member(r@, "agentId"@) == Some(JsonModel::Text(record.agent_id@)),
        member(r@, "input"@) == Some(JsonModel::Text(record.input@)),
        member(r@, "output"@) == Some(JsonModel::Text(record.output@)),
        member(r@, "status"@) == Some(JsonModel::Text(record.status@)),
        member(r@, "sessionKey"@) == Some(
            if record.session_key is Some {
                JsonModel::Text(record.session_key->0@)
            } else {
                JsonModel::Null
            },
        ),
        member(r@, "metadata"@) == Some(record.metadata@),
        member(r@, "createdAtMs"@) == Some(JsonModel::Unsigned(record.created_at_ms)),
        member(r@, "updatedAtMs"@) == Some(JsonModel::Unsigned(record.updated_at_ms)),
        member(r@, "completedAtMs"@) == Some(
            if record.completed_at_ms is Some {
                JsonModel::Unsigned(record.completed_at_ms->0)
            } else {
                JsonModel::Null
            },
        ),
{
    reveal_strlit("id");
    reveal_strlit("agentId");
    reveal_strlit("input");
    reveal_strlit("output");
    reveal_strlit("status");
    reveal_strlit("sessionKey");
    reveal_strlit("metadata");
    reveal_strlit("createdAtMs");
    reveal_strlit("updatedAtMs");
    reveal_strlit("completedAtMs");
    assert("id"@.len() != "agentId"@.len());
    assert("id"@.len() != "input"@.len());
    assert("id"@.len() != "output"@.len());
    assert("id"@.len() != "status"@.len());
    assert("id"@.len() != "sessionKey"@.len());
    assert("id"@.len() != "metadata"@.len());
    assert("id"@.len() != "createdAtMs"@.len());
    assert("id"@.len() != "updatedAtMs"@.len());
    assert("id"@.len() != "completedAtMs"@.len());
    assert("agentId"@.len() != "input"@.len());
    assert("agentId"@.len() != "output"@.len());
    assert("agentId"@.len() != "status"@.len());
    assert("agentId"@.len() != "sessionKey"@.len());
    assert("agentId"@.len() != "metadata"@.len());
    assert("agentId"@.len() != "createdAtMs"@.len());
    assert("agentId"@.len() != "updatedAtMs"@.len());
    assert("agentId"@.len() != "completedAtMs"@.len());
    assert("input"@.len() != "output"@.len());
    assert("input"@.len() != "status"@.len());
    assert("input"@.len() != "sessionKey"@.len());
    assert("input"@.len() != "metadata"@.len());
    assert("input"@.len() != "createdAtMs"@.len());
    assert("input"@.len() != "updatedAtMs"@.len());
    assert("input"@.len() != "completedAtMs"@.len());
    assert("output"@[0] != "status"@[0]);
    assert("output"@.len() != "sessionKey"@.len());
    assert("output"@.len() != "metadata"@.len());
    assert("output"@.len() != "createdAtMs"@.len());
    assert("output"@.len() != "updatedAtMs"@.len());
    assert("output"@.len() != "completedAtMs"@.len());
    assert("status"@.len() != "sessionKey"@.len());
    assert("status"@.len() != "metadata"@.len());
    assert("status"@.len() != "createdAtMs"@.len());
    assert("status"@.len() != "updatedAtMs"@.len());
    assert("status"@.len() != "completedAtMs"@.len());
    assert("sessionKey"@.len() != "metadata"@.len());
    assert("sessionKey"@.len() != "createdAtMs"@.len());
    assert("sessionKey"@.len() != "updatedAtMs"@.len());
    assert("sessionKey"@.len() != "completedAtMs"@.len());
    assert("metadata"@.len() != "createdAtMs"@.len());
    assert("metadata"@.len() != "updatedAtMs"@.len());
    assert("metadata"@.len() != "completedAtMs"@.len());
    assert("createdAtMs"@[0] != "updatedAtMs"@[0]);
    assert("createdAtMs"@.len() != "completedAtMs"@.len());
    assert("updatedAtMs"@.len() != "completedAtMs"@.len());
}

/// Each member of the JSON of a schedule is what the record holds under that name.
pub proof fn law_json_of_schedules(record: &CronSchedule, r: Json)
    requires
        call_ensures(CronSchedule::to_json, (record,), r),
    ensures
        member(r@, "kind"@) == Some(JsonModel::Text(record.kind@)),
        member(r@, "at"@) == Some(
            if record.at is Some {
                JsonModel::Text(record.at->0@)
            } else {
                JsonModel::Null
            },
        ),
        member(r@, "everyMs"@) == Some(
            if record.every_ms is Some {
                JsonModel::Unsigned(record.every_ms->0)
            } else {
                JsonModel::Null
            },
        ),
        member(r@, "anchorMs"@) == Some(
            if record.anchor_ms is Some {
                JsonModel::Unsigned(record.anchor_ms->0)
            } else {
                JsonModel::Null
            },
        ),
        member(r@, "expr"@) == Some(
            if record.expr is Some {
                JsonModel::Text(record.expr->0@)
            } else {
                JsonModel::Null
            },
        ),
        member(r@, "tz"@) == Some(
            if record.tz is Some {
                JsonModel::Text(record.tz->0@)
            } else {
                JsonModel::Null
            },
        ),
        member(r@, "staggerMs"@) == Some(
            if record.stagger_ms is Some {
                JsonModel::Unsigned(record.stagger_ms->0)
            } else {
                JsonModel::Null
            },
        ),
{
    reveal_strlit("kind");
    reveal_strlit("at");
    reveal_strlit("everyMs");
    reveal_strlit("anchorMs");
    reveal_strlit("expr");
    reveal_strlit("tz");
    reveal_strlit("staggerMs");
    assert("kind"@.len() != "at"@.len());
    assert("kind"@.len() != "everyMs"@.len());
    assert("kind"@.len() != "anchorMs"@.len());
    assert("kind"@[0] != "expr"@[0]);
    assert("kind"@.len() != "tz"@.len());
    assert("kind"@.len() != "staggerMs"@.len());
    assert("at"@.len() != "everyMs"@.len());
    assert("at"@.len() != "anchorMs"@.len());
    assert("at"@.len() != "expr"@.len());
    assert("at"@[0] != "tz"@[0]);
    assert("at"@.len() != "staggerMs"@.len());
    assert("everyMs"@.len() != "anchorMs"@.len());
    assert("everyMs"@.len() != "expr"@.len());
    assert("everyMs"@.len() != "tz"@.len());
    assert("everyMs"@.len() != "staggerMs"@.len());
    assert("anchorMs"@.len() != "expr"@.len());
    assert("anchorMs"@.len() != "tz"@.len());
    assert("anchorMs"@.len() != "staggerMs"@.len());
    assert("expr"@.len() != "tz"@.len());
    assert("expr"@.len() != "staggerMs"@.len());
    assert("tz"@.len() != "staggerMs"@.len());
}

/// Each member of the JSON of what a job does is what the record holds under that name.
pub proof fn law_json_of_tasks(record: &CronPayload, r: Json)
    requires
        call_ensures(CronPayload::to_json, (record,), r),
    ensures
        member(r@, "kind"@) == Some(JsonModel::Text(record.kind@)),
        member(r@, "text"@) == Some(
            if record.text is Some {
                JsonModel::Text(record.text->0@)
            } else {
                JsonModel::Null
            },
        ),
        member(r@, "message"@) == Some(
            if record.message is Some {
                JsonModel::Text(record.message->0@)
            } else {
                JsonModel::Null
            },
        ),
        member(r@, "model"@) == Some(
            if record.model is Some {
                JsonModel::Text(record.model->0@)
            } else {
                JsonModel::Null
            },
        ),
        member(r@, "thinking"@) == Some(
            if record.thinking is Some {
                JsonModel::Text(record.thinking->0@)
            } else {
                JsonModel::Null
            },
        ),
        member(r@, "timeoutSeconds"@) == Some(
            if record.timeout_seconds is Some {
                JsonModel::Unsigned(record.timeout_seconds->0)
            } else {
                JsonModel::Null
            },
        ),
{
    reveal_strlit("kind");
    reveal_strlit("text");
    reveal_strlit("message");
    reveal_strlit("model");
    reveal_strlit("thinking");
    reveal_strlit("timeoutSeconds");
    assert("kind"@[0] != "text"@[0]);
    assert("kind"@.len() != "message"@.len());
    assert("kind"@.len() != "model"@.len());
    assert("kind"@.len() != "thinking"@.len());
    assert("kind"@.len() != "timeoutSeconds"@.len());
    assert("text"@.len() != "message"@.len());
    assert("text"@.len() != "model"@.len());
    assert("text"@.len() != "thinking"@.len());
    assert("text"@.len() != "timeoutSeconds"@.len());
    assert("message"@.len() != "model"@.len());
    assert("message"@.len() != "thinking"@.len());
    assert("message"@.len() != "timeoutSeconds"@.len());
    assert("model"@.len() != "thinking"@.len());
    assert("model"@.len() != "timeoutSeconds"@.len());
    assert("thinking"@.len() != "timeoutSeconds"@.len());
}

/// Each member of the JSON of a job is what the record holds under that name.
pub proof fn law_json_of_jobs(record: &CronJobRecord, r: Json, inner_schedule: Json, inner_payload: Json)
    requires
        call_ensures(CronJobRecord::to_json, (record,), r),
    ensures
        member(r@, "id"@) == Some(JsonModel::Text(record.id@)),
        member(r@, "name"@) == Some(JsonModel::Text(record.name@)),
        member(r@, "enabled"@) == Some(JsonModel::Bool(record.enabled)),
        call_ensures(CronSchedule::to_json, (&record.schedule,), inner_schedule) ==> member(
            r@,
            "schedule"@,
        ) == Some(inner_schedule@),
        call_ensures(CronPayload::to_json, (&record.payload,), inner_payload) ==> member(
            r@,
            "payload"@,
        ) == Some(inner_payload@),
        member(r@, "metadata"@) == Some(record.metadata@),
        member(r@, "createdAtMs"@) == Some(JsonModel::Unsigned(record.created_at_ms)),
        member(r@, "updatedAtMs"@) == Some(JsonModel::Unsigned(record.updated_at_ms)),
        member(r@, "lastRunMs"@) == Some(
            if record.last_run_ms is Some {
                JsonModel::Unsigned(record.last_run_ms->0)
            } else {
                JsonModel::Null
            },
        ),
        member(r@, "nextRunMs"@) == Some(
            if record.next_run_ms is Some {
                JsonModel::Unsigned(record.next_run_ms->0)
            } else {
                JsonModel::Null
            },
        ),
{
    reveal_strlit("id");
    reveal_strlit("name");
    reveal_strlit("enabled");
    reveal_strlit("schedule");
    reveal_strlit("payload");
    reveal_strlit("metadata");
    reveal_strlit("createdAtMs");
    reveal_strlit("updatedAtMs");
    reveal_strlit("lastRunMs");
    reveal_strlit("nextRunMs");
    assert("id"@.len() != "name"@.len());
    assert("id"@.len() != "enabled"@.len());
    assert("id"@.len() != "schedule"@.len());
    assert("id"@.len() != "payload"@.len());
    assert("id"@.len() != "metadata"@.len());
    assert("id"@.len() != "createdAtMs"@.len());
    assert("id"@.len() != "updatedAtMs"@.len());
    assert("id"@.len() != "lastRunMs"@.len());
    assert("id"@.len() != "nextRunMs"@.len());
    assert("name"@.len() != "enabled"@.len());
    assert("name"@.len() != "schedule"@.len());
    assert("name"@.len() != "payload"@.len());
    assert("name"@.len() != "metadata"@.len());
    assert("name"@.len() != "createdAtMs"@.len());
    assert("name"@.len() != "updatedAtMs"@.len());
    assert("name"@.len() != "lastRunMs"@.len());
    assert("name"@.len() != "nextRunMs"@.len());
    assert("enabled"@.len() != "schedule"@.len());
    assert("enabled"@[0] != "payload"@[0]);
    assert("enabled"@.len() != "metadata"@.len());
    assert("enabled"@.len() != "createdAtMs"@.len());
    assert("enabled"@.len() != "updatedAtMs"@.len());
    assert("enabled"@.len() != "lastRunMs"@.len());
    assert("enabled"@.len() != "nextRunMs"@.len());
    assert("schedule"@.len() != "payload"@.len());
    assert("schedule"@[0] != "metadata"@[0]);
    assert("schedule"@.len() != "createdAtMs"@.len());
    assert("schedule"@.len() != "updatedAtMs"@.len());
    assert("schedule"@.len() != "lastRunMs"@.len());
    assert("schedule"@.len() != "nextRunMs"@.len());
    assert("payload"@.len() != "metadata"@.len());
    assert("payload"@.len() != "createdAtMs"@.len());
    assert("payload"@.len() != "updatedAtMs"@.len());
    assert("payload"@.len() != "lastRunMs"@.len());
    assert("payload"@.len() != "nextRunMs"@.len());
    assert("metadata"@.len() != "createdAtMs"@.len());
    assert("metadata"@.len() != "updatedAtMs"@.len());
    assert("metadata"@.len() != "lastRunMs"@.len());
    assert("metadata"@.len() != "nextRunMs"@.len());
    assert("createdAtMs"@[0] != "updatedAtMs"@[0]);
    assert("createdAtMs"@.len() != "lastRunMs"@.len());
    assert("createdAtMs"@.len() != "nextRunMs"@.len());
    assert("updatedAtMs"@.len() != "lastRunMs"@.len());
    assert("updatedAtMs"@.len() != "nextRunMs"@.len());
    assert("lastRunMs"@[0] != "nextRunMs"@[0]);
}

/// Each member of the JSON of a run of a job is what the record holds under that name.
pub proof fn law_json_of_job_runs(record: &CronRunRecord, r: Json)
    requires
        call_ensures(CronRunRecord::to_json, (record,), r),
    ensures
        member(r@, "id"@) == Some(JsonModel::Text(record.id@)),
        member(r@, "jobId"@) == Some(JsonModel::Text(record.job_id@)),
        member(r@, "status"@) == Some(JsonModel::Text(record.status@)),
        member(r@, "output"@) == Some(
            if record.output is Some {
                JsonModel::Text(record.output->0@)
            } else {
                JsonModel::Null
            },
        ),
        member(r@, "error"@) == Some(
            if record.error is Some {
                JsonModel::Text(record.error->0@)
            } else {
                JsonModel::Null
            },
        ),
        member(r@, "manual"@) == Some(JsonModel::Bool(record.manual)),
        member(r@, "startedAtMs"@) == Some(JsonModel::Unsigned(record.started_at_ms)),
        member(r@, "finishedAtMs"@) == Some(JsonModel::Unsigned(record.finished_at_ms)),
{
    reveal_strlit("id");
    reveal_strlit("jobId");
    reveal_strlit("status");
    reveal_strlit("output");
    reveal_strlit("error");
    reveal_strlit("manual");
    reveal_strlit("startedAtMs");
    reveal_strlit("finishedAtMs");
    assert("id"@.len() != "jobId"@.len());
    assert("id"@.len() != "status"@.len());
    assert("id"@.len() != "output"@.len());
    assert("id"@.len() != "error"@.len());
    assert("id"@.len() != "manual"@.len());
    assert("id"@.len() != "startedAtMs"@.len());
    assert("id"@.len() != "finishedAtMs"@.len());
    assert("jobId"@.len() != "status"@.len());
    assert("jobId"@.len() != "output"@.len());
    assert("jobId"@[0] != "error"@[0]);
    assert("jobId"@.len() != "manual"@.len());
    assert("jobId"@.len() != "startedAtMs"@.len());
    assert("jobId"@.len() != "finishedAtMs"@.len());
    assert("status"@[0] != "output"@[0]);
    assert("status"@.len() != "error"@.len());
    assert("status"@[0] != "manual"@[0]);
    assert("status"@.len() != "startedAtMs"@.len());
    assert("status"@.len() != "finishedAtMs"@.len());
    assert("output"@.len() != "error"@.len());
    assert("output"@[0] != "manual"@[0]);
    assert("output"@.len() != "startedAtMs"@.len());
    assert("output"@.len() != "finishedAtMs"@.len());
    assert("error"@.len() != "manual"@.len());
    assert("error"@.len() != "startedAtMs"@.len());
    assert("error"@.len() != "finishedAtMs"@.len());
    assert("manual"@.len() != "startedAtMs"@.len());
    assert("manual"@.len() != "finishedAtMs"@.len());
    assert("startedAtMs"@.len() != "finishedAtMs"@.len());
}

/// Each member of the JSON of a node is what the record holds under that name.
pub proof fn law_json_of_nodes(record: &NodeRecord, r: Json)
    requires
        call_ensures(NodeRecord::to_json, (record,), r),
    ensures
        member(r@, "id"@) == Some(JsonModel::Text(record.id@)),
        member(r@, "displayName"@) == Some(JsonModel::Text(record.display_name@)),
        member(r@, "platform"@) == Some(JsonModel::Text(record.platform@)),
        member(r@, "deviceFamily"@) == Some(
            if record.device_family is Some {
                JsonModel::Text(record.device_family->0@)
            } else {
                JsonModel::Null
            },
        ),
        member(r@, "commands"@) == Some(text_array(texts(record.commands@))),
        member(r@, "paired"@) == Some(JsonModel::Bool(record.paired)),
        member(r@, "status"@) == Some(JsonModel::Text(record.status@)),
        member(r@, "lastSeenMs"@) == Some(JsonModel::Unsigned(record.last_seen_ms)),
        member(r@, "metadata"@) == Some(record.metadata@),
{
    reveal_strlit("id");
    reveal_strlit("displayName");
    reveal_strlit("platform");
    reveal_strlit("deviceFamily");
    reveal_strlit("commands");
    reveal_strlit("paired");
    reveal_strlit("status");
    reveal_strlit("lastSeenMs");
    reveal_strlit("metadata");
    assert("id"@.len() != "displayName"@.len());
    assert("id"@.len() != "platform"@.len());
    assert("id"@.len() != "deviceFamily"@.len());
    assert("id"@.len() != "commands"@.len());
    assert("id"@.len() != "paired"@.len());
    assert("id"@.len() != "status"@.len());
    assert("id"@.len() != "lastSeenMs"@.len());
    assert("id"@.len() != "metadata"@.len());
    assert("displayName"@.len() != "platform"@.len());
    assert("displayName"@.len() != "deviceFamily"@.len());
    assert("displayName"@.len() != "commands"@.len());
    assert("displayName"@.len() != "paired"@.len());
    assert("displayName"@.len() != "status"@.len());
    assert("displayName"@.len() != "lastSeenMs"@.len());
    assert("displayName"@.len() != "metadata"@.len());
    assert("platform"@.len() != "deviceFamily"@.len());
    assert("platform"@[0] != "commands"@[0]);
    assert("platform"@.len() != "paired"@.len());
    assert("platform"@.len() != "status"@.len());
    assert("platform"@.len() != "lastSeenMs"@.len());
    assert("platform"@[0] != "metadata"@[0]);
    assert("deviceFamily"@.len() != "commands"@.len());
    assert("deviceFamily"@.len() != "paired"@.len());
    assert("deviceFamily"@.len() != "status"@.len());
    assert("deviceFamily"@.len() != "lastSeenMs"@.len());
    assert("deviceFamily"@.len() != "metadata"@.len());
    assert("commands"@.len() != "paired"@.len());
    assert("commands"@.len() != "status"@.len());
    assert("commands"@.len() != "lastSeenMs"@.len());
    assert("commands"@[0] != "metadata"@[0]);
    assert("paired"@[0] != "status"@[0]);
    assert("paired"@.len() != "lastSeenMs"@.len());
    assert("paired"@.len() != "metadata"@.len());
    assert("status"@.len() != "lastSeenMs"@.len());
    assert("status"@.len() != "metadata"@.len());
    assert("lastSeenMs"@.len() != "metadata"@.len());
}

/// Each member of the JSON of a request to pair is what the record holds under that name.
pub proof fn law_json_of_pair_requests(record: &NodePairRequestRecord, r: Json)
    requires
        call_ensures(NodePairRequestRecord::to_json, (record,), r),
    ensures
        member(r@, "requestId"@) == Some(JsonModel::Text(record.request_id@)),
        member(r@, "nodeId"@) == Some(JsonModel::Text(record.node_id@)),
        member(r@, "displayName"@) == Some(JsonModel::Text(record.display_name@)),
        member(r@, "platform"@) == Some(JsonModel::Text(record.platform@)),
        member(r@, "deviceFamily"@) == Some(
            if record.device_family is Some {
                JsonModel::Text(record.device_family->0@)
            } else {
                JsonModel::Null
            },
        ),
        member(r@, "commands"@) == Some(text_array(texts(record.commands@))),
        member(r@, "publicKey"@) == Some(
            if record.public_key is Some {
                JsonModel::Text(record.public_key->0@)
            } else {
                JsonModel::Null
            },
        ),
        member(r@, "status"@) == Some(JsonModel::Text(record.status@)),
        member(r@, "reason"@) == Some(
            if record.reason is Some {
                JsonModel::Text(record.reason->0@)
            } else {
                JsonModel::Null
            },
        ),
        member(r@, "createdAtMs"@) == Some(JsonModel::Unsigned(record.created_at_ms)),
        member(r@, "resolvedAtMs"@) == Some(
            if record.resolved_at_ms is Some {
                JsonModel::Unsigned(record.resolved_at_ms->0)
            } else {
                JsonModel::Null
            },
        ),
{
    reveal_strlit("requestId");
    reveal_strlit("nodeId");
    reveal_strlit("displayName");
    reveal_strlit("platform");
    reveal_strlit("deviceFamily");
    reveal_strlit("commands");
    reveal_strlit("publicKey");
    reveal_strlit("status");
    reveal_strlit("reason");
    reveal_strlit("createdAtMs");
    reveal_strlit("resolvedAtMs");
    assert("requestId"@.len() != "nodeId"@.len());
    assert("requestId"@.len() != "displayName"@.len());
    assert("requestId"@.len() != "platform"@.len());
    assert("requestId"@.len() != "deviceFamily"@.len());
    assert("requestId"@.len() != "commands"@.len());
    assert("requestId"@[0] != "publicKey"@[0]);
    assert("requestId"@.len() != "status"@.len());
    assert("requestId"@.len() != "reason"@.len());
    assert("requestId"@.len() != "createdAtMs"@.len());
    assert("requestId"@.len() != "resolvedAtMs"@.len());
    assert("nodeId"@.len() != "displayName"@.len());
    assert("nodeId"@.len() != "platform"@.len());
    assert("nodeId"@.len() != "deviceFamily"@.len());
    assert("nodeId"@.len() != "commands"@.len());
    assert("nodeId"@.len() != "publicKey"@.len());
    assert("nodeId"@[0] != "status"@[0]);
    assert("nodeId"@[0] != "reason"@[0]);
    assert("nodeId"@.len() != "createdAtMs"@.len());
    assert("nodeId"@.len() != "resolvedAtMs"@.len());
    assert("displayName"@.len() != "platform"@.len());
    assert("displayName"@.len() != "deviceFamily"@.len());
    assert("displayName"@.len() != "commands"@.len());
    assert("displayName"@.len() != "publicKey"@.len());
    assert("displayName"@.len() != "status"@.len());
    assert("displayName"@.len() != "reason"@.len());
    assert("displayName"@[0] != "createdAtMs"@[0]);
    assert("displayName"@.len() != "resolvedAtMs"@.len());
    assert("platform"@.len() != "deviceFamily"@.len());
    assert("platform"@[0] != "commands"@[0]);
    assert("platform"@.len() != "publicKey"@.len());
    assert("platform"@.len() != "status"@.len());
    assert("platform"@.len() != "reason"@.len());
    assert("platform"@.len() != "createdAtMs"@.len());
    assert("platform"@.len() != "resolvedAtMs"@.len());
    assert("deviceFamily"@.len() != "commands"@.len());
    assert("deviceFamily"@.len() != "publicKey"@.len());
    assert("deviceFamily"@.len() != "status"@.len());
    assert("deviceFamily"@.len() != "reason"@.len());
    assert("deviceFamily"@.len() != "createdAtMs"@.len());
    assert("deviceFamily"@[0] != "resolvedAtMs"@[0]);
    assert("commands"@.len() != "publicKey"@.len());
    assert("commands"@.len() != "status"@.len());
    assert("commands"@.len() != "reason"@.len());
    assert("commands"@.len() != "createdAtMs"@.len());
    assert("commands"@.len() != "resolvedAtMs"@.len());
    assert("publicKey"@.len() != "status"@.len());
    assert("publicKey"@.len() != "reason"@.len());
    assert("publicKey"@.len() != "createdAtMs"@.len());
    assert("publicKey"@.len() != "resolvedAtMs"@.len());
    assert("status"@[0] != "reason"@[0]);
    assert("status"@.len() != "createdAtMs"@.len());
    assert("status"@.len() != "resolvedAtMs"@.len());
    assert("reason"@.len() != "createdAtMs"@.len());
    assert("reason"@.len() != "resolvedAtMs"@.len());
    assert("createdAtMs"@.len() != "resolvedAtMs"@.len());
}

/// Each member of the JSON of a call of a node is what the record holds under that name.
pub proof fn law_json_of_node_calls(record: &NodeInvokeRecord, r: Json)
    requires
        call_ensures(NodeInvokeRecord::to_json, (record,), r),
    ensures
        member(r@, "requestId"@) == Some(JsonModel::Text(record.request_id@)),
        member(r@, "nodeId"@) == Some(JsonModel::Text(record.node_id@)),
        member(r@, "command"@) == Some(JsonModel::Text(record.command@)),
        member(r@, "args"@) == Some(text_array(texts(record.args@))),
        member(r@, "input"@) == Some(
            if record.input is Some {
                record.input->0@
            } else {
                JsonModel::Null
            },
        ),
        member(r@, "status"@) == Some(JsonModel::Text(record.status@)),
        member(r@, "result"@) == Some(
            if record.result is Some {
                record.result->0@
            } else {
                JsonModel::Null
            },
        ),
        member(r@, "error"@) == Some(
            if record.error is Some {
                JsonModel::Text(record.error->0@)
            } else {
                JsonModel::Null
            },
        ),
        member(r@, "requestedAtMs"@) == Some(JsonModel::Unsigned(record.requested_at_ms)),
        member(r@, "updatedAtMs"@) == Some(JsonModel::Unsigned(record.updated_at_ms)),
        member(r@, "completedAtMs"@) == Some(
            if record.completed_at_ms is Some {
                JsonModel::Unsigned(record.completed_at_ms->0)
            } else {
                JsonModel::Null
            },
        ),
{
    reveal_strlit("requestId");
    reveal_strlit("nodeId");
    reveal_strlit("command");
    reveal_strlit("args");
    reveal_strlit("input");
    reveal_strlit("status");
    reveal_strlit("result");
    reveal_strlit("error");
    reveal_strlit("requestedAtMs");
    reveal_strlit("updatedAtMs");
    reveal_strlit("completedAtMs");
    assert("requestId"@.len() != "nodeId"@.len());
    assert("requestId"@.len() != "command"@.len());
    assert("requestId"@.len() != "args"@.len());
    assert("requestId"@.len() != "input"@.len());
    assert("requestId"@.len() != "status"@.len());
    assert("requestId"@.len() != "result"@.len());
    assert("requestId"@.len() != "error"@.len());
    assert("requestId"@.len() != "requestedAtMs"@.len());
    assert("requestId"@.len() != "updatedAtMs"@.len());
    assert("requestId"@.len() != "completedAtMs"@.len());
    assert("nodeId"@.len() != "command"@.len());
    assert("nodeId"@.len() != "args"@.len());
    assert("nodeId"@.len() != "input"@.len());
    assert("nodeId"@[0] != "status"@[0]);
    assert("nodeId"@[0] != "result"@[0]);
    assert("nodeId"@.len() != "error"@.len());
    assert("nodeId"@.len() != "requestedAtMs"@.len());
    assert("nodeId"@.len() != "updatedAtMs"@.len());
    assert("nodeId"@.len() != "completedAtMs"@.len());
    assert("command"@.len() != "args"@.len());
    assert("command"@.len() != "input"@.len());
    assert("command"@.len() != "status"@.len());
    assert("command"@.len() != "result"@.len());
    assert("command"@.len() != "error"@.len());
    assert("command"@.len() != "requestedAtMs"@.len());
    assert("command"@.len() != "updatedAtMs"@.len());
    assert("command"@.len() != "completedAtMs"@.len());
    assert("args"@.len() != "input"@.len());
    assert("args"@.len() != "status"@.len());
    assert("args"@.len() != "result"@.len());
    assert("args"@.len() != "error"@.len());
    assert("args"@.len() != "requestedAtMs"@.len());
    assert("args"@.len() != "updatedAtMs"@.len());
    assert("args"@.len() != "completedAtMs"@.len());
    assert("input"@.len() != "status"@.len());
    assert("input"@.len() != "result"@.len());
    assert("input"@[0] != "error"@[0]);
    assert("input"@.len() != "requestedAtMs"@.len());
    assert("input"@.len() != "updatedAtMs"@.len());
    assert("input"@.len() != "completedAtMs"@.len());
    assert("status"@[0] != "result"@[0]);
    assert("status"@.len() != "error"@.len());
    assert("status"@.len() != "requestedAtMs"@.len());
    assert("status"@.len() != "updatedAtMs"@.len());
    assert("status"@.len() != "completedAtMs"@.len());
    assert("result"@.len() != "error"@.len());
    assert("result"@.len() != "requestedAtMs"@.len());
    assert("result"@.len() != "updatedAtMs"@.len());
    assert("result"@.len() != "completedAtMs"@.len());
    assert("error"@.len() != "requestedAtMs"@.len());
    assert("error"@.len() != "updatedAtMs"@.len());
    assert("error"@.len() != "completedAtMs"@.len());
    assert("requestedAtMs"@.len() != "updatedAtMs"@.len());
    assert("requestedAtMs"@[0] != "completedAtMs"@[0]);
    assert("updatedAtMs"@.len() != "completedAtMs"@.len());
}

/// Each member of the JSON of an event of a node is what the record holds under that name.
pub proof fn law_json_of_node_events(record: &NodeEventRecord, r: Json)
    requires
        call_ensures(NodeEventRecord::to_json, (record,), r),
    ensures
        member(r@, "id"@) == Some(JsonModel::Text(record.id@)),
        member(r@, "nodeId"@) == Some(JsonModel::Text(record.node_id@)),
        member(r@, "event"@) == Some(JsonModel::Text(record.event@)),
        member(r@, "payload"@) == Some(
            if record.payload is Some {
                record.payload->0@
            } else {
                JsonModel::Null
            },
        ),
        member(r@, "ts"@) == Some(JsonModel::Unsigned(record.ts)),
{
    reveal_strlit("id");
    reveal_strlit("nodeId");
    reveal_strlit("event");
    reveal_strlit("payload");
    reveal_strlit("ts");
    assert("id"@.len() != "nodeId"@.len());
    assert("id"@.len() != "event"@.len());
    assert("id"@.len() != "payload"@.len());
    assert("id"@[0] != "ts"@[0]);
    assert("nodeId"@.len() != "event"@.len());
    assert("nodeId"@.len() != "payload"@.len());
    assert("nodeId"@.len() != "ts"@.len());
    assert("event"@.len() != "payload"@.len());
    assert("event"@.len() != "ts"@.len());
    assert("payload"@.len() != "ts"@.len());
}

} // verus!
