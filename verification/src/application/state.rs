//! The state of the running gateway: its clients, its jobs and what it reports of itself.
use crate::application::cron_schedule::{
    compute_next_run_ms, in_calendar, law_next_run_is_later, next_run_is,
};
use crate::domain::error::DomainError;
use crate::domain::models::{
    cron_job_record_json, cron_run_record_json, CronJobRecord, CronPayload, CronRunRecord,
    NodeRecord,
};
use crate::json::{
    lemma_models, models, no_fields, number_or_null, object, opt_number_json, opt_text_json, set_field,
    text, text_or_null, Json, JsonModel,
};
use crate::lists::{ascending, is_sorted_set, sorted_set};
use crate::application::config::RuntimeConfig;
use crate::paths::{parent, parent_of};
use crate::protocol::frames::{PresenceEntry, Snapshot, StateVersion};
use crate::protocol::PROTOCOL_VERSION;
use crate::sorted_map::{lemma_entry_keys, SortedMap};
use crate::text::{cat, cat4, decimal, decimal_text, opt_text, same, text_or, texts};
use vstd::prelude::*;

verus! {

broadcast use vstd::seq::group_seq_axioms;

/// A client that is connected.
#[derive(Debug)]
pub struct ConnectedClient {
    pub conn_id: String,
    pub client_id: String,
    pub display_name: Option<String>,
    pub client_version: String,
    pub platform: String,
    pub device_family: Option<String>,
    pub model_identifier: Option<String>,
    pub mode: String,
    pub role: String,
    pub scopes: Vec<String>,
    pub instance_id: Option<String>,
    pub remote_ip: Option<String>,
    pub connected_at_ms: u64,
}

/// The id of the node that a client is.
pub open spec fn node_id_of(client: ConnectedClient) -> Seq<char> {
    text_or(opt_text(client.instance_id), client.client_id@)
}

/// The id of the node that a client is.
pub fn runtime_node_id(client: &ConnectedClient) -> (r: String)
    ensures
        r@ == node_id_of(*client),
{
    match &client.instance_id {
        Some(id) => id.clone(),
        None => client.client_id.clone(),
    }
}

/// A copy of an optional text.
pub(crate) fn copy_text(value: &Option<String>) -> (r: Option<String>)
    ensures
        opt_text(r) == opt_text(*value),
{
    match value {
        Some(s) => Some(s.clone()),
        None => None,
    }
}

/// A copy of a list of texts.
pub(crate) fn copy_texts(values: &Vec<String>) -> (r: Vec<String>)
    ensures
        texts(r@) == texts(values@),
{
    let mut out: Vec<String> = Vec::new();
    let mut i: usize = 0;
    while i < values.len()
        invariant
            i <= values@.len(),
            out@.len() == i,
            forall|k: int| 0 <= k < i ==> #[trigger] out@[k]@ == values@[k]@,
        decreases values@.len() - i,
    {
        out.push(values[i].clone());
        i = i + 1;
    }
    assert(texts(out@) =~= texts(values@));
    out
}

/// The record of a node that is connected as the client.
pub open spec fn is_online_node(node: NodeRecord, client: ConnectedClient) -> bool {
    &&& node.id@ == node_id_of(client)
    &&& node.display_name@ == text_or(opt_text(client.display_name), node_id_of(client))
    &&& node.platform@ == client.platform@
    &&& opt_text(node.device_family) == opt_text(client.device_family)
    &&& node.commands@.len() == 0
    &&& node.paired
    &&& node.status@ == "online"@
    &&& node.last_seen_ms == client.connected_at_ms
    &&& node.metadata@ == JsonModel::Object(
        no_fields().insert("remoteIp"@, text_or_null(opt_text(client.remote_ip))).insert(
            "modelIdentifier"@,
            text_or_null(opt_text(client.model_identifier)),
        ).insert("version"@, JsonModel::Text(client.client_version@)),
    )
}

/// The record of a node that is connected as the client.
pub fn online_node(client: &ConnectedClient) -> (r: NodeRecord)
    ensures
        is_online_node(r, *client),
{
    let id = runtime_node_id(client);
    let display_name = match &client.display_name {
        Some(name) => name.clone(),
        None => id.clone(),
    };
    let mut metadata = object();
    set_field(&mut metadata, "remoteIp", opt_text_json(&client.remote_ip));
    set_field(&mut metadata, "modelIdentifier", opt_text_json(&client.model_identifier));
    set_field(&mut metadata, "version", text(client.client_version.as_str()));
    NodeRecord {
        id,
        display_name,
        platform: client.platform.clone(),
        device_family: copy_text(&client.device_family),
        commands: Vec::new(),
        paired: true,
        status: "online".to_owned(),
        last_seen_ms: client.connected_at_ms,
        metadata: Json::Object(metadata),
    }
}

/// The record of a node whose client has gone.
pub fn offline_node(node: NodeRecord, now: u64) -> (r: NodeRecord)
    ensures
        r.status@ == "offline"@,
        r.last_seen_ms == now,
        r == (NodeRecord { status: r.status, last_seen_ms: now, ..node }),
{
    NodeRecord { status: "offline".to_owned(), last_seen_ms: now, ..node }
}

/// The clients that are connected, and a count of the changes among them.
pub struct ClientRegistry {
    clients: SortedMap<ConnectedClient>,
    presence_version: u64,
}

impl ClientRegistry {
    /// The clients by their connections.
    pub closed spec fn view(&self) -> Map<Seq<char>, ConnectedClient> {
        self.clients@
    }

    /// The connections in the order in which they are reported.
    pub closed spec fn connections(&self) -> Seq<Seq<char>> {
        self.clients.keys()
    }

    /// The count of changes.
    pub closed spec fn version(&self) -> u64 {
        self.presence_version
    }

    /// Nobody is connected.
    pub fn new() -> (r: Self)
        ensures
            r@ == Map::<Seq<char>, ConnectedClient>::empty(),
            r.version() == 0,
    {
        ClientRegistry { clients: SortedMap::new(), presence_version: 0 }
    }

    /// The count of changes.
    pub fn presence_version(&self) -> (r: u64)
        ensures
            r == self.version(),
    {
        self.presence_version
    }

    /// Enters a client. Where it is a node, the node's record to store comes back.
    pub fn register_client(&mut self, client: ConnectedClient) -> (r: Option<NodeRecord>)
        ensures
            final(self)@ == old(self)@.insert(client.conn_id@, client),
            final(self).version() == next_version(old(self).version()),
            match r {
                Some(node) => client.role@ == "node"@ && is_online_node(node, client),
                None => client.role@ != "node"@,
            },
    {
        let node = if same(client.role.as_str(), "node") {
            Some(online_node(&client))
        } else {
            None
        };
        self.clients.insert(client.conn_id.clone(), client);
        self.presence_version = self.presence_version.wrapping_add(1);
        node
    }

    /// Takes a client out. Where it was a node, the id of the node comes back.
    pub fn unregister_client(&mut self, conn_id: &str) -> (r: Option<String>)
        ensures
            final(self)@ == old(self)@.remove(conn_id@),
            old(self)@.contains_key(conn_id@) ==> final(self).version() == next_version(
                old(self).version(),
            ),
            !old(self)@.contains_key(conn_id@) ==> final(self).version() == old(self).version(),
            match r {
                Some(id) => old(self)@.contains_key(conn_id@) && old(self)@[conn_id@].role@
                    == "node"@ && id@ == node_id_of(old(self)@[conn_id@]),
                None => old(self)@.contains_key(conn_id@) ==> old(self)@[conn_id@].role@
                    != "node"@,
            },
    {
        match self.clients.remove(conn_id) {
            Some(client) => {
                self.presence_version = self.presence_version.wrapping_add(1);
                if same(client.role.as_str(), "node") {
                    Some(runtime_node_id(&client))
                } else {
                    None
                }
            },
            None => None,
        }
    }

    /// The number of clients.
    pub fn connection_count(&self) -> (r: usize)
        ensures
            r == self@.dom().len(),
            r == self.connections().len(),
            ascending(self.connections()),
            self.connections().no_duplicates(),
            self.connections().to_set() == self@.dom(),
    {
        let count: usize = self.clients.len();
        proof {
            lemma_entry_keys(self.clients.entries());
        }
        count
    }

    /// A client by its place in the order of connections.
    pub fn client(&self, i: usize) -> (r: &ConnectedClient)
        requires
            i < self.connections().len(),
        ensures
            self@.contains_key(self.connections()[i as int]),
            *r == self@[self.connections()[i as int]],
            ascending(self.connections()),
            self.connections().no_duplicates(),
            self.connections().to_set() == self@.dom(),
    {
        let client = self.clients.entry(i).1;
        proof {
            lemma_entry_keys(self.clients.entries());
        }
        client
    }
}

/// The count after one more change.
pub open spec fn next_version(version: u64) -> u64 {
    if version == u64::MAX {
        0
    } else {
        (version + 1) as u64
    }
}

/// A client as others see it.
pub fn presence_entry(client: &ConnectedClient, idle_seconds: u64) -> (r: PresenceEntry)
    ensures
        opt_text(r.host) == Some(text_or(opt_text(client.display_name), client.client_id@)),
        opt_text(r.ip) == opt_text(client.remote_ip),
        opt_text(r.version) == Some(client.client_version@),
        opt_text(r.platform) == Some(client.platform@),
        opt_text(r.device_family) == opt_text(client.device_family),
        opt_text(r.model_identifier) == opt_text(client.model_identifier),
        opt_text(r.mode) == Some(client.mode@),
        r.last_input_seconds == Some(idle_seconds),
        opt_text(r.reason) == Some("connect"@),
        r.tags is None,
        r.text is None,
        r.ts == client.connected_at_ms,
        r.device_id is None,
        r.roles matches Some(roles) && texts(roles@) == seq![client.role@],
        match r.scopes {
            Some(scopes) => client.scopes@.len() > 0 && texts(scopes@) == texts(client.scopes@),
            None => client.scopes@.len() == 0,
        },
        opt_text(r.instance_id) == opt_text(client.instance_id),
{
    let host = match &client.display_name {
        Some(name) => name.clone(),
        None => client.client_id.clone(),
    };
    let mut roles: Vec<String> = Vec::new();
    roles.push(client.role.clone());
    assert(texts(roles@) =~= seq![client.role@]);
    let scopes = if client.scopes.len() == 0 {
        None
    } else {
        Some(copy_texts(&client.scopes))
    };
    PresenceEntry {
        host: Some(host),
        ip: copy_text(&client.remote_ip),
        version: Some(client.client_version.clone()),
        platform: Some(client.platform.clone()),
        device_family: copy_text(&client.device_family),
        model_identifier: copy_text(&client.model_identifier),
        mode: Some(client.mode.clone()),
        last_input_seconds: Some(idle_seconds),
        reason: Some("connect".to_owned()),
        tags: None,
        text: None,
        ts: client.connected_at_ms,
        device_id: None,
        roles: Some(roles),
        scopes,
        instance_id: copy_text(&client.instance_id),
    }
}

// ---------------------------------------------------------------------------------------------
// Reports
// ---------------------------------------------------------------------------------------------
/// The counts that the gateway reports of itself.
#[derive(Debug, Clone, Copy)]
pub struct HealthCounts {
    pub connected_clients: u64,
    pub sessions: u64,
    pub chat_messages: u64,
    pub cron_jobs: u64,
    pub nodes: u64,
}

/// What the gateway reports of its health.
pub open spec fn health_json(
    version: Seq<char>,
    auth_mode: Seq<char>,
    uptime_ms: u64,
    counts: HealthCounts,
    now: u64,
) -> JsonModel {
    JsonModel::Object(
        no_fields().insert("ok"@, JsonModel::Bool(true)).insert("ts"@, JsonModel::Unsigned(now))
            .insert("runtime"@, JsonModel::Text("rust"@)).insert(
            "version"@,
            JsonModel::Text(version),
        ).insert("protocolVersion"@, JsonModel::Unsigned(PROTOCOL_VERSION as u64)).insert(
            "authMode"@,
            JsonModel::Text(auth_mode),
        ).insert("uptimeMs"@, JsonModel::Unsigned(uptime_ms)).insert(
            "connectedClients"@,
            JsonModel::Unsigned(counts.connected_clients),
        ).insert("sessions"@, JsonModel::Unsigned(counts.sessions)).insert(
            "chatMessages"@,
            JsonModel::Unsigned(counts.chat_messages),
        ).insert("cronJobs"@, JsonModel::Unsigned(counts.cron_jobs)).insert(
            "nodes"@,
            JsonModel::Unsigned(counts.nodes),
        ),
    )
}

/// What the gateway reports of its health.
pub fn health_payload(
    version: &str,
    auth_mode: &str,
    uptime_ms: u64,
    counts: HealthCounts,
    now: u64,
) -> (r: Json)
    ensures
        r@ == health_json(version@, auth_mode@, uptime_ms, counts, now),
{
    let mut o = object();
    set_field(&mut o, "ok", Json::Bool(true));
    set_field(&mut o, "ts", Json::Unsigned(now));
    set_field(&mut o, "runtime", text("rust"));
    set_field(&mut o, "version", text(version));
    set_field(&mut o, "protocolVersion", Json::Unsigned(PROTOCOL_VERSION as u64));
    set_field(&mut o, "authMode", text(auth_mode));
    set_field(&mut o, "uptimeMs", Json::Unsigned(uptime_ms));
    set_field(&mut o, "connectedClients", Json::Unsigned(counts.connected_clients));
    set_field(&mut o, "sessions", Json::Unsigned(counts.sessions));
    set_field(&mut o, "chatMessages", Json::Unsigned(counts.chat_messages));
    set_field(&mut o, "cronJobs", Json::Unsigned(counts.cron_jobs));
    set_field(&mut o, "nodes", Json::Unsigned(counts.nodes));
    Json::Object(o)
}

/// The state of the gateway at one time.
pub fn snapshot(
    config: &RuntimeConfig,
    presence: Vec<PresenceEntry>,
    health: Json,
    versions: StateVersion,
    uptime_ms: u64,
) -> (r: Snapshot)
    ensures
        r.presence@ == presence@,
        r.health@ == health@,
        r.state_version == versions,
        r.uptime_ms == uptime_ms,
        opt_text(r.config_path) == Some(config.db_path@),
        opt_text(r.state_dir) == parent_of(config.db_path@),
        r.session_defaults is None,
        opt_text(r.auth_mode) == Some(config.auth_mode.name()),
        r.update_available is None,
{
    Snapshot {
        presence,
        health,
        state_version: versions,
        uptime_ms,
        config_path: Some(config.db_path.clone()),
        state_dir: parent(config.db_path.as_str()),
        session_defaults: None,
        auth_mode: Some(config.auth_mode.label().to_owned()),
        update_available: None,
    }
}

/// An entry of the gateway's log and the key to store it under, made of the time and an id.
pub fn gateway_log_entry(
    level: &str,
    message: &str,
    method: &Option<String>,
    conn_id: &Option<String>,
    ts: u64,
    id: &str,
) -> (r: (String, Json))
    ensures
        r.0@ == "logs/"@ + decimal(ts as nat) + "-"@ + id@,
        r.1@ == JsonModel::Object(
            no_fields().insert("id"@, JsonModel::Text(r.0@)).insert(
                "level"@,
                JsonModel::Text(level@),
            ).insert("message"@, JsonModel::Text(message@)).insert(
                "method"@,
                text_or_null(opt_text(*method)),
            ).insert("connId"@, text_or_null(opt_text(*conn_id))).insert(
                "ts"@,
                JsonModel::Unsigned(ts),
            ),
        ),
{
    let key = cat4("logs/", decimal_text(ts).as_str(), "-", id);
    let mut o = object();
    set_field(&mut o, "id", text(key.as_str()));
    set_field(&mut o, "level", text(level));
    set_field(&mut o, "message", text(message));
    set_field(&mut o, "method", opt_text_json(method));
    set_field(&mut o, "connId", opt_text_json(conn_id));
    set_field(&mut o, "ts", Json::Unsigned(ts));
    (key, Json::Object(o))
}

// ---------------------------------------------------------------------------------------------
// Jobs
// ---------------------------------------------------------------------------------------------
/// The JSON of jobs.
pub open spec fn jobs_json(jobs: Seq<CronJobRecord>) -> Seq<JsonModel> {
    Seq::new(jobs.len(), |i: int| cron_job_record_json(jobs[i]))
}

/// The JSON of runs.
pub open spec fn runs_json(runs: Seq<CronRunRecord>) -> Seq<JsonModel> {
    Seq::new(runs.len(), |i: int| cron_run_record_json(runs[i]))
}

/// The JSON of jobs.
pub fn jobs_to_json(jobs: &Vec<CronJobRecord>) -> (r: Json)
    ensures
        r@ == JsonModel::Array(jobs_json(jobs@)),
{
    let mut items: Vec<Json> = Vec::new();
    let mut i: usize = 0;
    while i < jobs.len()
        invariant
            i <= jobs@.len(),
            items@.len() == i,
            forall|k: int| 0 <= k < i ==> #[trigger] items@[k]@ == cron_job_record_json(jobs@[k]),
        decreases jobs@.len() - i,
    {
        items.push(jobs[i].to_json());
        i = i + 1;
    }
    proof {
        lemma_models(items@);
        assert forall|k: int| 0 <= k < items@.len() implies models(items@)[k] == jobs_json(jobs@)[k] by {
            assert(items@[k]@ == cron_job_record_json(jobs@[k]));
        }
        assert(models(items@) =~= jobs_json(jobs@));
    }
    Json::Array(items)
}

/// The JSON of runs.
pub fn runs_to_json(runs: &Vec<CronRunRecord>) -> (r: Json)
    ensures
        r@ == JsonModel::Array(runs_json(runs@)),
{
    let mut items: Vec<Json> = Vec::new();
    let mut i: usize = 0;
    while i < runs.len()
        invariant
            i <= runs@.len(),
            items@.len() == i,
            forall|k: int| 0 <= k < i ==> #[trigger] items@[k]@ == cron_run_record_json(runs@[k]),
        decreases runs@.len() - i,
    {
        items.push(runs[i].to_json());
        i = i + 1;
    }
    proof {
        lemma_models(items@);
        assert forall|k: int| 0 <= k < items@.len() implies models(items@)[k] == runs_json(runs@)[k] by {
            assert(items@[k]@ == cron_run_record_json(runs@[k]));
        }
        assert(models(items@) =~= runs_json(runs@));
    }
    Json::Array(items)
}

/// What the gateway reports of its jobs.
pub fn cron_status(
    enabled: bool,
    jobs: &Vec<CronJobRecord>,
    runs: &Vec<CronRunRecord>,
    last_tick_ms: Option<u64>,
    poll_interval_ms: u64,
    store_path: &str,
) -> (r: Json)
    ensures
        r@ == JsonModel::Object(
            no_fields().insert("enabled"@, JsonModel::Bool(enabled)).insert(
                "jobs"@,
                JsonModel::Array(jobs_json(jobs@)),
            ).insert("runs"@, JsonModel::Array(runs_json(runs@))).insert(
                "lastTickMs"@,
                number_or_null(last_tick_ms),
            ).insert("pollIntervalMs"@, JsonModel::Unsigned(poll_interval_ms)).insert(
                "storePath"@,
                JsonModel::Text(store_path@),
            ),
        ),
{
    let mut o = object();
    set_field(&mut o, "enabled", Json::Bool(enabled));
    set_field(&mut o, "jobs", jobs_to_json(jobs));
    set_field(&mut o, "runs", runs_to_json(runs));
    set_field(&mut o, "lastTickMs", opt_number_json(last_tick_ms));
    set_field(&mut o, "pollIntervalMs", Json::Unsigned(poll_interval_ms));
    set_field(&mut o, "storePath", text(store_path));
    Json::Object(o)
}

/// The job is to run at `now`.
pub open spec fn is_due(job: CronJobRecord, now: u64) -> bool {
    job.enabled && job.next_run_ms is Some && job.next_run_ms->0 <= now
}

/// The ids of the jobs that are to run at `now`, in the order of the jobs.
pub open spec fn due_ids(jobs: Seq<CronJobRecord>, now: u64) -> Seq<Seq<char>>
    decreases jobs.len(),
{
    if jobs.len() == 0 {
        Seq::empty()
    } else if is_due(jobs.last(), now) {
        due_ids(jobs.drop_last(), now).push(jobs.last().id@)
    } else {
        due_ids(jobs.drop_last(), now)
    }
}

/// The ids of the jobs to run at `now`: none while the schedule is switched off.
pub fn tick_cron_jobs(enabled: bool, jobs: &Vec<CronJobRecord>, now: u64) -> (r: Vec<String>)
    ensures
        texts(r@) == (if enabled {
            due_ids(jobs@, now)
        } else {
            Seq::empty()
        }),
{
    let mut out: Vec<String> = Vec::new();
    assert(texts(out@) =~= Seq::<Seq<char>>::empty());
    if !enabled {
        return out;
    }
    let mut i: usize = 0;
    while i < jobs.len()
        invariant
            i <= jobs@.len(),
            texts(out@) == due_ids(jobs@.take(i as int), now),
        decreases jobs@.len() - i,
    {
        proof {
            let t = jobs@.take(i + 1);
            assert(t.drop_last() =~= jobs@.take(i as int));
            assert(t.last() == jobs@[i as int]);
        }
        let job = &jobs[i];
        let due = match job.next_run_ms {
            Some(next) => job.enabled && next <= now,
            None => false,
        };
        if due {
            let ghost so_far = out@;
            out.push(job.id.clone());
            assert(texts(out@) =~= texts(so_far).push(job.id@));
        }
        i = i + 1;
    }
    assert(jobs@.take(i as int) =~= jobs@);
    out
}

/// What a job's payload gives when it runs at `ts`.
pub open spec fn payload_output(payload: CronPayload, ts: u64) -> Result<Seq<char>, Seq<char>> {
    if payload.kind@ == "systemEvent"@ {
        Ok("systemEvent:"@ + text_or(opt_text(payload.text), ""@) + " @"@ + decimal(ts as nat))
    } else if payload.kind@ == "agentTurn"@ {
        Ok("agentTurn:"@ + text_or(opt_text(payload.message), ""@) + " @"@ + decimal(ts as nat))
    } else {
        Err("unsupported cron payload kind: "@ + payload.kind@)
    }
}

/// Runs a job's payload.
pub fn execute_cron_payload(payload: &CronPayload, ts: u64) -> (r: Result<String, String>)
    ensures
        match payload_output(*payload, ts) {
            Ok(output) => r is Ok && r->Ok_0@ == output,
            Err(error) => r is Err && r->Err_0@ == error,
        },
{
    if same(payload.kind.as_str(), "systemEvent") {
        let body = match &payload.text {
            Some(s) => s.clone(),
            None => "".to_owned(),
        };
        Ok(cat4("systemEvent:", body.as_str(), " @", decimal_text(ts).as_str()))
    } else if same(payload.kind.as_str(), "agentTurn") {
        let body = match &payload.message {
            Some(s) => s.clone(),
            None => "".to_owned(),
        };
        Ok(cat4("agentTurn:", body.as_str(), " @", decimal_text(ts).as_str()))
    } else {
        Err(cat("unsupported cron payload kind: ", payload.kind.as_str()))
    }
}

/// The record of a run of the job.
pub open spec fn is_run_of(
    run: CronRunRecord,
    job: CronJobRecord,
    run_id: Seq<char>,
    manual: bool,
    started: u64,
    finished: u64,
) -> bool {
    &&& run.id@ == "run-"@ + run_id
    &&& run.job_id@ == job.id@
    &&& match payload_output(job.payload, started) {
        Ok(output) => run.status@ == "ok"@ && opt_text(run.output) == Some(output)
            && run.error is None,
        Err(error) => run.status@ == "error"@ && run.output is None && opt_text(run.error) == Some(
            error,
        ),
    }
    &&& run.manual == manual
    &&& run.started_at_ms == started
    &&& run.finished_at_ms == finished
}

/// A run of a job that started and finished at the given times: the job with its next run, and the
/// record of the run. A job whose schedule gives no next time that could be stored fails with
/// what is wrong with the schedule.
pub fn run_cron_job(
    job: CronJobRecord,
    run_id: &str,
    manual: bool,
    started: u64,
    finished: u64,
) -> (r: Result<(CronJobRecord, CronRunRecord), DomainError>)
    requires
        in_calendar(job.schedule, finished),
    ensures
        match r {
            Ok((next, run)) => {
                &&& next_run_is(Ok(next.next_run_ms), job.schedule, finished)
                &&& next == (CronJobRecord {
                    last_run_ms: Some(finished),
                    updated_at_ms: finished,
                    next_run_ms: next.next_run_ms,
                    ..job
                })
                &&& is_run_of(run, job, run_id@, manual, started, finished)
            },
            Err(DomainError::InvalidRequest(message)) => next_run_is(
                Err(message@),
                job.schedule,
                finished,
            ),
            Err(_) => false,
        },
{
    let result = execute_cron_payload(&job.payload, started);
    let (status, output, error) = match result {
        Ok(output) => ("ok".to_owned(), Some(output), None),
        Err(error) => ("error".to_owned(), None, Some(error)),
    };
    let next_run_ms: Option<u64> = match compute_next_run_ms(&job.schedule, finished) {
        Ok(next) => next,
        Err(message) => {
            return Err(DomainError::InvalidRequest(message));
        },
    };
    let run = CronRunRecord {
        id: cat("run-", run_id),
        job_id: job.id.clone(),
        status,
        output,
        error,
        manual,
        started_at_ms: started,
        finished_at_ms: finished,
    };
    let next = CronJobRecord {
        last_run_ms: Some(finished),
        updated_at_ms: finished,
        next_run_ms,
        ..job
    };
    Ok((next, run))
}

/// What is answered where there is no job of an id.
pub fn cron_job_missing(id: &str) -> (r: DomainError)
    ensures
        r matches DomainError::NotFound(message) && message@ == "cron job not found: "@ + id@,
{
    DomainError::NotFound(cat("cron job not found: ", id))
}

/// The scopes of a client: trimmed, without blanks, each once, in the order of texts.
pub fn sanitize_scopes(scopes: &Vec<String>) -> (r: Vec<String>)
    ensures
        is_sorted_set(texts(r@), texts(scopes@)),
{
    sorted_set(scopes)
}

/// Only jobs that are switched on run by themselves, and each only once its time has come.
pub proof fn law_only_due_jobs_run(jobs: Seq<CronJobRecord>, now: u64, id: Seq<char>)
    requires
        due_ids(jobs, now).contains(id),
    ensures
        exists|i: int|
            #![trigger jobs[i]]
            0 <= i < jobs.len() && jobs[i].id@ == id && is_due(jobs[i], now),
    decreases jobs.len(),
{
    if jobs.len() > 0 {
        let earlier = jobs.drop_last();
        let k = choose|k: int| 0 <= k < due_ids(jobs, now).len() && due_ids(jobs, now)[k] == id;
        if k < due_ids(earlier, now).len() {
            assert(due_ids(earlier, now)[k] == id);
            law_only_due_jobs_run(earlier, now, id);
            let i = choose|i: int|
                #![trigger earlier[i]]
                0 <= i < earlier.len() && earlier[i].id@ == id && is_due(earlier[i], now);
            assert(jobs[i] == earlier[i]);
        } else {
            assert(jobs[jobs.len() - 1] == jobs.last());
        }
    }
}

/// Every job that is due is run.
pub proof fn law_every_due_job_runs(jobs: Seq<CronJobRecord>, now: u64, i: int)
    requires
        0 <= i < jobs.len(),
        is_due(jobs[i], now),
    ensures
        due_ids(jobs, now).contains(jobs[i].id@),
    decreases jobs.len(),
{
    let earlier = jobs.drop_last();
    if i < jobs.len() - 1 {
        assert(earlier[i] == jobs[i]);
        law_every_due_job_runs(earlier, now, i);
        let k = choose|k: int|
            0 <= k < due_ids(earlier, now).len() && due_ids(earlier, now)[k] == jobs[i].id@;
        assert(due_ids(jobs, now)[k] == jobs[i].id@);
    } else {
        assert(due_ids(jobs, now)[due_ids(jobs, now).len() - 1] == jobs[i].id@);
    }
}

/// A job runs by itself exactly where the schedule is switched on, the job is switched on, and it has a
/// next time that is not after now; jobs run in the order in which they are stored.
pub proof fn law_jobs_that_run(enabled: bool, jobs: &Vec<CronJobRecord>, now: u64, r: Vec<String>)
    requires
        call_ensures(tick_cron_jobs, (enabled, jobs, now), r),
    ensures
        !enabled ==> r@.len() == 0,
        forall|i: int|
            0 <= i < jobs@.len() && enabled && (#[trigger] jobs@[i]).enabled && jobs@[i].next_run_ms is Some
                && jobs@[i].next_run_ms->0 <= now ==> texts(r@).contains(jobs@[i].id@),
        forall|id: Seq<char>| #[trigger]
            texts(r@).contains(id) ==> exists|i: int|
                0 <= i < jobs@.len() && (#[trigger] jobs@[i]).id@ == id && jobs@[i].enabled
                    && jobs@[i].next_run_ms is Some && jobs@[i].next_run_ms->0 <= now,
{
    assert(texts(r@).len() == r@.len());
    if enabled {
        assert forall|i: int|
            0 <= i < jobs@.len() && (#[trigger] jobs@[i]).enabled && jobs@[i].next_run_ms is Some
                && jobs@[i].next_run_ms->0 <= now implies texts(r@).contains(jobs@[i].id@) by {
            law_every_due_job_runs(jobs@, now, i);
        }
        assert forall|id: Seq<char>| #[trigger] texts(r@).contains(id) implies exists|i: int|
            0 <= i < jobs@.len() && (#[trigger] jobs@[i]).id@ == id && jobs@[i].enabled
                && jobs@[i].next_run_ms is Some && jobs@[i].next_run_ms->0 <= now by {
            law_only_due_jobs_run(jobs@, now, id);
        }
    }
}

/// A run changes of a job only when it last ran, when it was last changed and when it runs next, and
/// that is what its schedule gives for the time at which the run ended. The record of the run names
/// the job, and says that it went well exactly where the payload is one that can be carried out.
pub proof fn law_runs_of_jobs(
    job: CronJobRecord,
    run_id: &str,
    manual: bool,
    started: u64,
    finished: u64,
    r: Result<(CronJobRecord, CronRunRecord), DomainError>,
    next: Result<Option<u64>, String>,
)
    requires
        call_ensures(run_cron_job, (job, run_id, manual, started, finished), r),
        r is Ok,
    ensures
        ({
            let after = r->Ok_0.0;
            let run = r->Ok_0.1;
            &&& after.id == job.id && after.name == job.name && after.enabled == job.enabled
                && after.schedule == job.schedule && after.payload == job.payload && after.metadata
                == job.metadata && after.created_at_ms == job.created_at_ms
            &&& after.last_run_ms == Some(finished) && after.updated_at_ms == finished
            &&& next_run_is(Ok(after.next_run_ms), job.schedule, finished)
            &&& after.next_run_ms is Some && after.next_run_ms->0 < u64::MAX
                ==> after.next_run_ms->0 > finished
            &&& run.job_id@ == job.id@ && run.manual == manual && run.started_at_ms == started
                && run.finished_at_ms == finished
            &&& run.id@ == "run-"@ + run_id@
            &&& job.payload.kind@ == "systemEvent"@ || job.payload.kind@ == "agentTurn"@ <==> run.status@
                == "ok"@
            &&& run.status@ == "ok"@ <==> run.output is Some
            &&& run.status@ == "ok"@ <==> run.error is None
            &&& run.status@ != "ok"@ ==> run.status@ == "error"@
            &&& job.payload.kind@ == "systemEvent"@ && job.payload.text is Some ==> run.output->0@
                == "systemEvent:"@ + job.payload.text->0@ + " @"@ + decimal(started as nat)
            &&& job.payload.kind@ == "agentTurn"@ && job.payload.message is Some ==> run.output->0@
                == "agentTurn:"@ + job.payload.message->0@ + " @"@ + decimal(started as nat)
        }),
{
    reveal_strlit("ok");
    reveal_strlit("error");
    reveal_strlit("systemEvent");
    reveal_strlit("agentTurn");
    assert("ok"@.len() == 2 && "error"@.len() == 5);
    assert("systemEvent"@[0] == 's' && "agentTurn"@[0] == 'a');
    let after = r->Ok_0.0;
    if after.next_run_ms is Some && after.next_run_ms->0 < u64::MAX {
        law_next_run_is_later(job.schedule, finished, after.next_run_ms->0);
    }
}

/// A client that connects is one of those that are connected, the others stay, and one that leaves is
/// none of them any more. A node that connects is online and paired under its instance, or its client
/// id where it has none.
pub proof fn law_clients_come_and_go(client: ConnectedClient, conn_id: &str, node: Option<NodeRecord>, gone: Option<String>)
    ensures
        forall|registry: &mut ClientRegistry| #[trigger]
            call_ensures(ClientRegistry::register_client, (registry, client), node) ==> {
                &&& final(registry)@.contains_key(client.conn_id@)
                &&& final(registry)@[client.conn_id@] == client
                &&& forall|other: Seq<char>|
                    other != client.conn_id@ ==> (#[trigger] final(registry)@.contains_key(other)
                        <==> registry@.contains_key(other)) && (registry@.contains_key(other)
                        ==> final(registry)@[other] == registry@[other])
                &&& node is Some <==> client.role@ == "node"@
                &&& node is Some ==> node->0.status@ == "online"@ && node->0.paired && node->0.id@ == (
                match client.instance_id {
                    Some(id) => id@,
                    None => client.client_id@,
                })
            },
        forall|registry: &mut ClientRegistry| #[trigger]
            call_ensures(ClientRegistry::unregister_client, (registry, conn_id), gone) ==> {
                &&& !final(registry)@.contains_key(conn_id@)
                &&& forall|other: Seq<char>|
                    other != conn_id@ ==> (#[trigger] final(registry)@.contains_key(other)
                        <==> registry@.contains_key(other)) && (registry@.contains_key(other)
                        ==> final(registry)@[other] == registry@[other])
                &&& gone is Some <==> registry@.contains_key(conn_id@) && registry@[conn_id@].role@ == "node"@
            },
{
}

/// The count of changes goes up by one with each client that comes and each that goes, and with
/// nothing else.
pub proof fn law_changes_are_counted(client: ConnectedClient, conn_id: &str, node: Option<NodeRecord>, gone: Option<String>)
    ensures
        forall|registry: &mut ClientRegistry| #[trigger]
            call_ensures(ClientRegistry::register_client, (registry, client), node)
                && registry.version() < u64::MAX ==> final(registry).version() == registry.version() + 1,
        forall|registry: &mut ClientRegistry| #[trigger]
            call_ensures(ClientRegistry::unregister_client, (registry, conn_id), gone)
                && registry.version() < u64::MAX ==> final(registry).version() == registry.version() + (
            if registry@.contains_key(conn_id@) {
                1int
            } else {
                0
            }),
        forall|r: ClientRegistry| #[trigger]
            call_ensures(ClientRegistry::new, (), r) ==> r.version() == 0 && r@ == Map::<
                Seq<char>,
                ConnectedClient,
            >::empty(),
{
}

/// A node that comes online has the name and the marks of its client, and one that goes offline is
/// else as it was.
pub proof fn law_nodes_come_and_go(client: &ConnectedClient, online: NodeRecord, node: NodeRecord, now: u64, offline: NodeRecord)
    requires
        call_ensures(online_node, (client,), online),
        call_ensures(offline_node, (node, now), offline),
    ensures
        ({
            let id = if client.instance_id is Some {
                client.instance_id->0@
            } else {
                client.client_id@
            };
            &&& online.id@ == id
            &&& online.display_name@ == (if client.display_name is Some {
                client.display_name->0@
            } else {
                id
            })
            &&& online.platform@ == client.platform@
            &&& opt_text(online.device_family) == opt_text(client.device_family)
            &&& online.paired && online.status@ == "online"@ && online.commands@.len() == 0
            &&& online.last_seen_ms == client.connected_at_ms
            &&& crate::json::member(online.metadata@, "version"@) == Some(JsonModel::Text(client.client_version@))
            &&& client.remote_ip is Some ==> crate::json::member(online.metadata@, "remoteIp"@) == Some(
                JsonModel::Text(client.remote_ip->0@),
            )
        }),
        offline.status@ == "offline"@ && offline.last_seen_ms == now,
        offline.id == node.id && offline.display_name == node.display_name && offline.paired == node.paired
            && offline.commands == node.commands && offline.metadata == node.metadata && offline.platform
            == node.platform,
{
    reveal_strlit("remoteIp");
    reveal_strlit("modelIdentifier");
    reveal_strlit("version");
    assert("remoteIp"@.len() != "modelIdentifier"@.len());
    assert("remoteIp"@.len() != "version"@.len());
    assert("modelIdentifier"@.len() != "version"@.len());
}

/// A client is shown with its name, its marks, its one role and its scopes.
pub proof fn law_clients_are_shown(client: &ConnectedClient, idle_seconds: u64, r: PresenceEntry)
    requires
        call_ensures(presence_entry, (client, idle_seconds), r),
    ensures
        r.host is Some && r.host->0@ == (if client.display_name is Some {
            client.display_name->0@
        } else {
            client.client_id@
        }),
        opt_text(r.ip) == opt_text(client.remote_ip),
        opt_text(r.version) == Some(client.client_version@) && opt_text(r.platform) == Some(
            client.platform@,
        ) && opt_text(r.mode) == Some(client.mode@),
        r.last_input_seconds == Some(idle_seconds) && r.ts == client.connected_at_ms,
        opt_text(r.reason) == Some("connect"@),
        r.roles is Some && texts(r.roles->0@) == seq![client.role@],
        client.scopes@.len() > 0 ==> r.scopes is Some && texts(r.scopes->0@) == texts(client.scopes@),
        opt_text(r.instance_id) == opt_text(client.instance_id),
{
}

/// How the gateway is is told: its version, how long it has been up, and what it counts.
pub proof fn law_health_is_counted(
    version: &str,
    auth_mode: &str,
    uptime_ms: u64,
    counts: HealthCounts,
    now: u64,
    r: Json,
)
    requires
        call_ensures(health_payload, (version, auth_mode, uptime_ms, counts, now), r),
    ensures
        crate::json::member(r@, "ok"@) == Some(JsonModel::Bool(true)),
        crate::json::member(r@, "ts"@) == Some(JsonModel::Unsigned(now)),
        crate::json::member(r@, "version"@) == Some(JsonModel::Text(version@)),
        crate::json::member(r@, "protocolVersion"@) == Some(JsonModel::Unsigned(3)),
        crate::json::member(r@, "authMode"@) == Some(JsonModel::Text(auth_mode@)),
        crate::json::member(r@, "uptimeMs"@) == Some(JsonModel::Unsigned(uptime_ms)),
        crate::json::member(r@, "connectedClients"@) == Some(JsonModel::Unsigned(counts.connected_clients)),
        crate::json::member(r@, "sessions"@) == Some(JsonModel::Unsigned(counts.sessions)),
        crate::json::member(r@, "chatMessages"@) == Some(JsonModel::Unsigned(counts.chat_messages)),
        crate::json::member(r@, "cronJobs"@) == Some(JsonModel::Unsigned(counts.cron_jobs)),
        crate::json::member(r@, "nodes"@) == Some(JsonModel::Unsigned(counts.nodes)),
{
    reveal_strlit("ok");
    reveal_strlit("ts");
    reveal_strlit("runtime");
    reveal_strlit("version");
    reveal_strlit("protocolVersion");
    reveal_strlit("authMode");
    reveal_strlit("uptimeMs");
    reveal_strlit("connectedClients");
    reveal_strlit("sessions");
    reveal_strlit("chatMessages");
    reveal_strlit("cronJobs");
    reveal_strlit("nodes");
    assert("ok"@[0] != "ts"@[0]);
    assert("ok"@.len() != "runtime"@.len());
    assert("ok"@.len() != "version"@.len());
    assert("ok"@.len() != "protocolVersion"@.len());
    assert("ok"@.len() != "authMode"@.len());
    assert("ok"@.len() != "uptimeMs"@.len());
    assert("ok"@.len() != "connectedClients"@.len());
    assert("ok"@.len() != "sessions"@.len());
    assert("ok"@.len() != "chatMessages"@.len());
    assert("ok"@.len() != "cronJobs"@.len());
    assert("ok"@.len() != "nodes"@.len());
    assert("ts"@.len() != "runtime"@.len());
    assert("ts"@.len() != "version"@.len());
    assert("ts"@.len() != "protocolVersion"@.len());
    assert("ts"@.len() != "authMode"@.len());
    assert("ts"@.len() != "uptimeMs"@.len());
    assert("ts"@.len() != "connectedClients"@.len());
    assert("ts"@.len() != "sessions"@.len());
    assert("ts"@.len() != "chatMessages"@.len());
    assert("ts"@.len() != "cronJobs"@.len());
    assert("ts"@.len() != "nodes"@.len());
    assert("runtime"@[0] != "version"@[0]);
    assert("runtime"@.len() != "protocolVersion"@.len());
    assert("runtime"@.len() != "authMode"@.len());
    assert("runtime"@.len() != "uptimeMs"@.len());
    assert("runtime"@.len() != "connectedClients"@.len());
    assert("runtime"@.len() != "sessions"@.len());
    assert("runtime"@.len() != "chatMessages"@.len());
    assert("runtime"@.len() != "cronJobs"@.len());
    assert("runtime"@.len() != "nodes"@.len());
    assert("version"@.len() != "protocolVersion"@.len());
    assert("version"@.len() != "authMode"@.len());
    assert("version"@.len() != "uptimeMs"@.len());
    assert("version"@.len() != "connectedClients"@.len());
    assert("version"@.len() != "sessions"@.len());
    assert("version"@.len() != "chatMessages"@.len());
    assert("version"@.len() != "cronJobs"@.len());
    assert("version"@.len() != "nodes"@.len());
    assert("protocolVersion"@.len() != "authMode"@.len());
    assert("protocolVersion"@.len() != "uptimeMs"@.len());
    assert("protocolVersion"@.len() != "connectedClients"@.len());
    assert("protocolVersion"@.len() != "sessions"@.len());
    assert("protocolVersion"@.len() != "chatMessages"@.len());
    assert("protocolVersion"@.len() != "cronJobs"@.len());
    assert("protocolVersion"@.len() != "nodes"@.len());
    assert("authMode"@[0] != "uptimeMs"@[0]);
    assert("authMode"@.len() != "connectedClients"@.len());
    assert("authMode"@[0] != "sessions"@[0]);
    assert("authMode"@.len() != "chatMessages"@.len());
    assert("authMode"@[0] != "cronJobs"@[0]);
    assert("authMode"@.len() != "nodes"@.len());
    assert("uptimeMs"@.len() != "connectedClients"@.len());
    assert("uptimeMs"@[0] != "sessions"@[0]);
    assert("uptimeMs"@.len() != "chatMessages"@.len());
    assert("uptimeMs"@[0] != "cronJobs"@[0]);
    assert("uptimeMs"@.len() != "nodes"@.len());
    assert("connectedClients"@.len() != "sessions"@.len());
    assert("connectedClients"@.len() != "chatMessages"@.len());
    assert("connectedClients"@.len() != "cronJobs"@.len());
    assert("connectedClients"@.len() != "nodes"@.len());
    assert("sessions"@.len() != "chatMessages"@.len());
    assert("sessions"@[0] != "cronJobs"@[0]);
    assert("sessions"@.len() != "nodes"@.len());
    assert("chatMessages"@.len() != "cronJobs"@.len());
    assert("chatMessages"@.len() != "nodes"@.len());
    assert("cronJobs"@.len() != "nodes"@.len());
}

/// An entry of the log stands under its time and its id, and holds what was logged.
pub proof fn law_what_is_logged(
    level: &str,
    message: &str,
    method: &Option<String>,
    conn_id: &Option<String>,
    ts: u64,
    id: &str,
    r: (String, Json),
)
    requires
        call_ensures(gateway_log_entry, (level, message, method, conn_id, ts, id), r),
    ensures
        r.0@ == "logs/"@ + decimal(ts as nat) + "-"@ + id@,
        crate::json::member(r.1@, "id"@) == Some(JsonModel::Text(r.0@)),
        crate::json::member(r.1@, "level"@) == Some(JsonModel::Text(level@)),
        crate::json::member(r.1@, "message"@) == Some(JsonModel::Text(message@)),
        crate::json::member(r.1@, "ts"@) == Some(JsonModel::Unsigned(ts)),
        *method is Some ==> crate::json::member(r.1@, "method"@) == Some(JsonModel::Text(method->0@)),
        *conn_id is Some ==> crate::json::member(r.1@, "connId"@) == Some(JsonModel::Text(conn_id->0@)),
{
    reveal_strlit("id");
    reveal_strlit("level");
    reveal_strlit("message");
    reveal_strlit("method");
    reveal_strlit("connId");
    reveal_strlit("ts");
    assert("id"@.len() != "level"@.len());
    assert("id"@.len() != "message"@.len());
    assert("id"@.len() != "method"@.len());
    assert("id"@.len() != "connId"@.len());
    assert("id"@[0] != "ts"@[0]);
    assert("level"@.len() != "message"@.len());
    assert("level"@.len() != "method"@.len());
    assert("level"@.len() != "connId"@.len());
    assert("level"@.len() != "ts"@.len());
    assert("message"@.len() != "method"@.len());
    assert("message"@.len() != "connId"@.len());
    assert("message"@.len() != "ts"@.len());
    assert("method"@[0] != "connId"@[0]);
    assert("method"@.len() != "ts"@.len());
    assert("connId"@.len() != "ts"@.len());
}

/// How the jobs stand is told: whether they run, all of them and their runs, and when they were last
/// looked at.
pub proof fn law_jobs_are_told(
    enabled: bool,
    jobs: &Vec<CronJobRecord>,
    runs: &Vec<CronRunRecord>,
    last_tick_ms: Option<u64>,
    poll_interval_ms: u64,
    store_path: &str,
    all: Json,
    past: Json,
    r: Json,
)
    requires
        call_ensures(cron_status, (enabled, jobs, runs, last_tick_ms, poll_interval_ms, store_path), r),
        call_ensures(jobs_to_json, (jobs,), all),
        call_ensures(runs_to_json, (runs,), past),
    ensures
        crate::json::member(r@, "enabled"@) == Some(JsonModel::Bool(enabled)),
        crate::json::member(r@, "jobs"@) == Some(all@),
        crate::json::member(r@, "runs"@) == Some(past@),
        last_tick_ms is Some ==> crate::json::member(r@, "lastTickMs"@) == Some(JsonModel::Unsigned(last_tick_ms->0)),
        crate::json::member(r@, "pollIntervalMs"@) == Some(JsonModel::Unsigned(poll_interval_ms)),
        crate::json::member(r@, "storePath"@) == Some(JsonModel::Text(store_path@)),
{
    reveal_strlit("enabled");
    reveal_strlit("jobs");
    reveal_strlit("runs");
    reveal_strlit("lastTickMs");
    reveal_strlit("pollIntervalMs");
    reveal_strlit("storePath");
    assert("enabled"@.len() != "jobs"@.len());
    assert("enabled"@.len() != "runs"@.len());
    assert("enabled"@.len() != "lastTickMs"@.len());
    assert("enabled"@.len() != "pollIntervalMs"@.len());
    assert("enabled"@.len() != "storePath"@.len());
    assert("jobs"@[0] != "runs"@[0]);
    assert("jobs"@.len() != "lastTickMs"@.len());
    assert("jobs"@.len() != "pollIntervalMs"@.len());
    assert("jobs"@.len() != "storePath"@.len());
    assert("runs"@.len() != "lastTickMs"@.len());
    assert("runs"@.len() != "pollIntervalMs"@.len());
    assert("runs"@.len() != "storePath"@.len());
    assert("lastTickMs"@.len() != "pollIntervalMs"@.len());
    assert("lastTickMs"@.len() != "storePath"@.len());
    assert("pollIntervalMs"@.len() != "storePath"@.len());
}

/// What a job puts out is its kind, its words and its time. A job of another kind puts out nothing.
pub proof fn law_what_jobs_put_out(payload: &CronPayload, ts: u64, r: Result<String, String>)
    requires
        call_ensures(execute_cron_payload, (payload, ts), r),
    ensures
        r is Ok <==> payload.kind@ == "systemEvent"@ || payload.kind@ == "agentTurn"@,
        payload.kind@ == "systemEvent"@ && payload.text is Some ==> r->Ok_0@ == "systemEvent:"@
            + payload.text->0@ + " @"@ + decimal(ts as nat),
        payload.kind@ == "agentTurn"@ && payload.message is Some ==> r->Ok_0@ == "agentTurn:"@
            + payload.message->0@ + " @"@ + decimal(ts as nat),
        r is Err ==> r->Err_0@ == "unsupported cron payload kind: "@ + payload.kind@,
{
    reveal_strlit("systemEvent");
    reveal_strlit("agentTurn");
    assert("systemEvent"@.len() != "agentTurn"@.len());
}

/// What a client sees of the gateway when it comes is what there is.
pub proof fn law_snapshots(
    config: &RuntimeConfig,
    presence: Vec<PresenceEntry>,
    health: Json,
    versions: StateVersion,
    uptime_ms: u64,
    path: &str,
    dir: Option<String>,
    r: Snapshot,
)
    requires
        call_ensures(snapshot, (config, presence, health, versions, uptime_ms), r),
        path@ == config.db_path@,
        call_ensures(parent, (path,), dir),
    ensures
        r.presence@ == presence@ && r.health@ == health@ && r.state_version == versions && r.uptime_ms
            == uptime_ms,
        r.config_path is Some && r.config_path->0@ == config.db_path@,
        opt_text(r.state_dir) == opt_text(dir),
{
}

} // verus!
