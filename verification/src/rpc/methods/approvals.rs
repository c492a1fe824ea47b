//! Approvals of commands: the stored rules, and requests that someone has to decide.
use crate::domain::error::DomainError;
use crate::hash::{hash_words, lemma_hash_words_are_trimmed, stable_value_hash};
use crate::ids::{is_uuid_text, new_id};
use crate::json::{
    json_text_of, member, no_fields, number_or_null, object, opt_model, opt_number_json, opt_text_json,
    set_field, text, text_or_null, Json, JsonModel,
};
use crate::protocol::errors::{invalid, invalid_request, unavailable, ErrorModel, ErrorShape, ERROR_UNAVAILABLE};
use crate::rpc::dispatcher::{domain_error_model, map_domain_error};
use crate::rpc::methods::agent::{is_given, lemma_is_given};
use crate::text::{
    cat, cat3, kept, kept_opt, lemma_kept, not_blank, opt_text, or_text, same, text_or,
    trim_non_empty, trim_non_empty_opt, trimmed,
};
use vstd::prelude::*;

verus! {

broadcast use vstd::seq::group_seq_axioms;

pub const EXEC_APPROVALS_GLOBAL_KEY: &'static str = "runtime/exec-approvals/global";

// ---------------------------------------------------------------------------------------------
// The stored rules
// ---------------------------------------------------------------------------------------------
/// Under which key the rules of a node are stored, or a refusal.
pub fn node_approvals_key(method: &str, node_id: &str) -> (r: Result<String, ErrorShape>)
    ensures
        match kept(node_id@) {
            Some(id) => r is Ok && r->Ok_0@ == "runtime/exec-approvals/node/"@ + id,
            None => r is Err && r->Err_0@ == invalid(
                "invalid "@ + method@ + " params: nodeId is required"@,
            ),
        },
{
    match trim_non_empty(node_id) {
        Some(id) => Ok(cat("runtime/exec-approvals/node/", id.as_str())),
        None => Err(
            invalid_request(cat3("invalid ", method, " params: nodeId is required").as_str()),
        ),
    }
}

/// What is stored, as it is shown: with a hash by which a change can be told.
pub open spec fn approvals_snapshot(key: Seq<char>, stored: Option<JsonModel>) -> JsonModel {
    JsonModel::Object(
        no_fields()
            .insert("path"@, JsonModel::Text(key))
            .insert("exists"@, JsonModel::Bool(stored is Some))
            .insert("hash"@, text_or_null(match stored { Some(file) => Some(hash_words(json_text_of(file))), None => None }))
            .insert("file"@, match stored { Some(file) => file, None => JsonModel::Object(no_fields()) }),
    )
}

/// What is stored, as it is shown.
pub fn read_approvals_snapshot(key: &str, stored: Option<Json>) -> (r: Json)
    ensures
        r@ == approvals_snapshot(key@, opt_model(stored)),
{
    let present = stored.is_some();
    let (hash, file) = match stored {
        Some(file) => (Some(stable_value_hash(&file)), file),
        None => (None, Json::Object(object())),
    };
    let mut o = object();
    set_field(&mut o, "path", text(key));
    set_field(&mut o, "exists", Json::Bool(present));
    set_field(&mut o, "hash", opt_text_json(&hash));
    set_field(&mut o, "file", file);
    Json::Object(o)
}

/// Why a file cannot be stored in place of another: the one who stores it has to know the hash of
/// what is stored.
pub open spec fn save_refusal(
    method: Seq<char>,
    file: JsonModel,
    base_hash: Option<Seq<char>>,
    stored: Option<JsonModel>,
) -> Option<ErrorModel> {
    if !(file is Object) {
        Some(invalid("invalid "@ + method + " params: file must be an object"@))
    } else {
        match (stored, kept_opt(base_hash)) {
            (None, _) => None,
            (Some(_), None) => Some(
                invalid("exec approvals base hash required; re-run get and retry"@),
            ),
            (Some(current), Some(known)) => if known != hash_words(json_text_of(current)) {
                Some(invalid("exec approvals changed since last load; re-run get and retry"@))
            } else {
                None
            },
        }
    }
}

/// Whether a file can be stored: from what is stored.
pub fn save_approvals_snapshot(
    method: &str,
    file: &Json,
    base_hash: &Option<String>,
    stored: Result<Option<Json>, DomainError>,
) -> (r: Result<(), ErrorShape>)
    ensures
        match stored {
            Err(error) => r is Err && r->Err_0@ == (if file@ is Object {
                domain_error_model(error)
            } else {
                invalid("invalid "@ + method@ + " params: file must be an object"@)
            }),
            Ok(current) => match save_refusal(
                method@,
                file@,
                opt_text(*base_hash),
                opt_model(current),
            ) {
                None => r is Ok,
                Some(error) => r is Err && r->Err_0@ == error,
            },
        },
{
    if !file.is_object() {
        return Err(
            invalid_request(cat3("invalid ", method, " params: file must be an object").as_str()),
        );
    }
    let current = match stored {
        Ok(current) => current,
        Err(error) => {
            return Err(map_domain_error(error));
        },
    };
    if let Some(current) = current {
        let hash = stable_value_hash(&current);
        let known = match trim_non_empty_opt(base_hash) {
            Some(known) => known,
            None => {
                return Err(
                    invalid_request("exec approvals base hash required; re-run get and retry"),
                );
            },
        };
        if !same(known.as_str(), hash.as_str()) {
            return Err(
                invalid_request("exec approvals changed since last load; re-run get and retry"),
            );
        }
    }
    Ok(())
}

// ---------------------------------------------------------------------------------------------
// Requests
// ---------------------------------------------------------------------------------------------
/// What is to be approved.
pub struct ExecApprovalRequest {
    pub command: String,
    pub cwd: Option<String>,
    pub node_id: Option<String>,
    pub host: Option<String>,
    pub security: Option<String>,
    pub ask: Option<String>,
    pub agent_id: Option<String>,
    pub resolved_path: Option<String>,
    pub session_key: Option<String>,
    pub requested_by: Option<String>,
}

/// The JSON of the record.
pub open spec fn exec_approval_request_json(r: ExecApprovalRequest) -> JsonModel {
    JsonModel::Object(
        no_fields().insert("command"@, JsonModel::Text(r.command@)).insert("cwd"@, text_or_null(opt_text(r.cwd))).insert("nodeId"@, text_or_null(opt_text(r.node_id))).insert("host"@, text_or_null(opt_text(r.host))).insert("security"@, text_or_null(opt_text(r.security))).insert("ask"@, text_or_null(opt_text(r.ask))).insert("agentId"@, text_or_null(opt_text(r.agent_id))).insert("resolvedPath"@, text_or_null(opt_text(r.resolved_path))).insert("sessionKey"@, text_or_null(opt_text(r.session_key))).insert("requestedBy"@, text_or_null(opt_text(r.requested_by))),
    )
}

impl ExecApprovalRequest {
    /// The JSON of the record.
    pub fn to_json(&self) -> (r: Json)
        ensures
            r@ == exec_approval_request_json(*self),
    {
        let mut o = object();
        set_field(&mut o, "command", text(self.command.as_str()));
        set_field(&mut o, "cwd", opt_text_json(&self.cwd));
        set_field(&mut o, "nodeId", opt_text_json(&self.node_id));
        set_field(&mut o, "host", opt_text_json(&self.host));
        set_field(&mut o, "security", opt_text_json(&self.security));
        set_field(&mut o, "ask", opt_text_json(&self.ask));
        set_field(&mut o, "agentId", opt_text_json(&self.agent_id));
        set_field(&mut o, "resolvedPath", opt_text_json(&self.resolved_path));
        set_field(&mut o, "sessionKey", opt_text_json(&self.session_key));
        set_field(&mut o, "requestedBy", opt_text_json(&self.requested_by));
        Json::Object(o)
    }
}

/// A request for an approval, and how it stands.
pub struct ExecApprovalRecord {
    pub id: String,
    pub request: ExecApprovalRequest,
    pub status: String,
    pub decision: Option<String>,
    pub created_at_ms: u64,
    pub expires_at_ms: u64,
    pub resolved_at_ms: Option<u64>,
    pub resolved_by: Option<String>,
}

/// The JSON of the record.
pub open spec fn exec_approval_record_json(r: ExecApprovalRecord) -> JsonModel {
    JsonModel::Object(
        no_fields().insert("id"@, JsonModel::Text(r.id@)).insert("request"@, exec_approval_request_json(r.request)).insert("status"@, JsonModel::Text(r.status@)).insert("decision"@, text_or_null(opt_text(r.decision))).insert("createdAtMs"@, JsonModel::Unsigned(r.created_at_ms)).insert("expiresAtMs"@, JsonModel::Unsigned(r.expires_at_ms)).insert("resolvedAtMs"@, number_or_null(r.resolved_at_ms)).insert("resolvedBy"@, text_or_null(opt_text(r.resolved_by))),
    )
}

impl ExecApprovalRecord {
    /// The JSON of the record.
    pub fn to_json(&self) -> (r: Json)
        ensures
            r@ == exec_approval_record_json(*self),
    {
        let mut o = object();
        set_field(&mut o, "id", text(self.id.as_str()));
        set_field(&mut o, "request", self.request.to_json());
        set_field(&mut o, "status", text(self.status.as_str()));
        set_field(&mut o, "decision", opt_text_json(&self.decision));
        set_field(&mut o, "createdAtMs", Json::Unsigned(self.created_at_ms));
        set_field(&mut o, "expiresAtMs", Json::Unsigned(self.expires_at_ms));
        set_field(&mut o, "resolvedAtMs", opt_number_json(self.resolved_at_ms));
        set_field(&mut o, "resolvedBy", opt_text_json(&self.resolved_by));
        Json::Object(o)
    }
}

/// Under which key a request is stored.
pub fn approval_key(id: &str) -> (r: String)
    ensures
        r@ == "runtime/exec-approval/request/"@ + id@,
{
    cat("runtime/exec-approval/request/", id)
}

/// The request, from what was read of the store.
pub fn load_approval_record(stored: Option<Result<ExecApprovalRecord, String>>) -> (r: Result<
    Option<ExecApprovalRecord>,
    ErrorShape,
>)
    ensures
        match stored {
            None => r == Ok::<Option<ExecApprovalRecord>, ErrorShape>(None),
            Some(Ok(record)) => r == Ok::<Option<ExecApprovalRecord>, ErrorShape>(Some(record)),
            Some(Err(error)) => r is Err && r->Err_0@ == unavailable(
                "failed to decode approval record: "@ + error@,
            ),
        },
{
    match stored {
        None => Ok(None),
        Some(Ok(record)) => Ok(Some(record)),
        Some(Err(error)) => Err(
            ErrorShape::new(
                ERROR_UNAVAILABLE,
                cat("failed to decode approval record: ", error.as_str()).as_str(),
            ),
        ),
    }
}

/// What someone wants to have approved.
pub struct ExecApprovalRequestParams {
    pub id: Option<String>,
    pub command: String,
    pub cwd: Option<String>,
    pub node_id: Option<String>,
    pub host: Option<String>,
    pub security: Option<String>,
    pub ask: Option<String>,
    pub agent_id: Option<String>,
    pub resolved_path: Option<String>,
    pub session_key: Option<String>,
    pub timeout_ms: Option<u64>,
    pub two_phase: Option<bool>,
}

/// Why nothing can be approved.
pub open spec fn request_refusal(params: ExecApprovalRequestParams) -> Option<ErrorModel> {
    if kept(params.command@) is None {
        Some(invalid("invalid exec.approval.request params: command is required"@))
    } else if kept_opt(opt_text(params.host)) == Some("node"@) && kept_opt(
        opt_text(params.node_id),
    ) is None {
        Some(invalid("nodeId is required for host=node"@))
    } else {
        None
    }
}

/// The id of what is to be approved, or a refusal; one without a name has the given id.
pub fn approval_id_with(params: &ExecApprovalRequestParams, id: &str) -> (r: Result<
    String,
    ErrorShape,
>)
    ensures
        match request_refusal(*params) {
            Some(error) => r is Err && r->Err_0@ == error,
            None => r is Ok && r->Ok_0@ == text_or(kept_opt(opt_text(params.id)), id@),
        },
{
    if trim_non_empty(params.command.as_str()).is_none() {
        return Err(
            invalid_request("invalid exec.approval.request params: command is required"),
        );
    }
    if let Some(host) = trim_non_empty_opt(&params.host) {
        if same(host.as_str(), "node") && trim_non_empty_opt(&params.node_id).is_none() {
            return Err(invalid_request("nodeId is required for host=node"));
        }
    }
    Ok(or_text(trim_non_empty_opt(&params.id), id))
}

/// The id of what is to be approved, or a refusal; one without a name has a fresh id.
pub fn approval_id(params: &ExecApprovalRequestParams) -> (r: Result<String, ErrorShape>)
    ensures
        match request_refusal(*params) {
            Some(error) => r is Err && r->Err_0@ == error,
            None => exists|id: Seq<char>| #[trigger]
                is_uuid_text(id) && r is Ok && r->Ok_0@ == text_or(
                    kept_opt(opt_text(params.id)),
                    id,
                ),
        },
{
    let id = new_id();
    assert(is_uuid_text(id@));
    approval_id_with(params, id.as_str())
}

/// How long a request stands: as long as is asked for, from a second to five minutes, and half a
/// minute where nothing is.
pub open spec fn approval_limit(timeout_ms: Option<u64>) -> u64 {
    match timeout_ms {
        None => 30_000,
        Some(ms) => if ms < 1_000 {
            1_000
        } else if ms > 300_000 {
            300_000
        } else {
            ms
        },
    }
}

/// A time later by some milliseconds, unless there is none.
pub open spec fn later(now: u64, ms: u64) -> u64 {
    if now + ms > u64::MAX {
        u64::MAX
    } else {
        (now + ms) as u64
    }
}

/// A new request.
pub open spec fn is_requested(
    record: ExecApprovalRecord,
    params: ExecApprovalRequestParams,
    id: Seq<char>,
    client_id: Seq<char>,
    now: u64,
) -> bool {
    &&& record.id@ == id
    &&& Some(record.request.command@) == kept(params.command@)
    &&& opt_text(record.request.cwd) == kept_opt(opt_text(params.cwd))
    &&& opt_text(record.request.node_id) == kept_opt(opt_text(params.node_id))
    &&& opt_text(record.request.host) == kept_opt(opt_text(params.host))
    &&& opt_text(record.request.security) == kept_opt(opt_text(params.security))
    &&& opt_text(record.request.ask) == kept_opt(opt_text(params.ask))
    &&& opt_text(record.request.agent_id) == kept_opt(opt_text(params.agent_id))
    &&& opt_text(record.request.resolved_path) == kept_opt(opt_text(params.resolved_path))
    &&& opt_text(record.request.session_key) == kept_opt(opt_text(params.session_key))
    &&& opt_text(record.request.requested_by) == Some(client_id)
    &&& record.status@ == "pending"@
    &&& record.decision is None
    &&& record.created_at_ms == now
    &&& record.expires_at_ms == later(now, approval_limit(params.timeout_ms))
    &&& record.resolved_at_ms is None
    &&& record.resolved_by is None
}

/// What is said of a request.
pub open spec fn approval_view(record: ExecApprovalRecord, decision: Option<Seq<char>>, status: Seq<char>) -> JsonModel {
    JsonModel::Object(
        no_fields()
            .insert("id"@, JsonModel::Text(record.id@))
            .insert("decision"@, text_or_null(decision))
            .insert("createdAtMs"@, JsonModel::Unsigned(record.created_at_ms))
            .insert("expiresAtMs"@, JsonModel::Unsigned(record.expires_at_ms))
            .insert("status"@, JsonModel::Text(status)),
    )
}

fn approval_json(record: &ExecApprovalRecord, decision: &Option<String>, status: &str) -> (r: Json)
    ensures
        r@ == approval_view(*record, opt_text(*decision), status@),
{
    let mut o = object();
    set_field(&mut o, "id", text(record.id.as_str()));
    set_field(&mut o, "decision", opt_text_json(decision));
    set_field(&mut o, "createdAtMs", Json::Unsigned(record.created_at_ms));
    set_field(&mut o, "expiresAtMs", Json::Unsigned(record.expires_at_ms));
    set_field(&mut o, "status", text(status));
    Json::Object(o)
}

/// What is said of a request that is decided later.
pub open spec fn accepted_view(record: ExecApprovalRecord) -> JsonModel {
    JsonModel::Object(
        no_fields()
            .insert("status"@, JsonModel::Text("accepted"@))
            .insert("id"@, JsonModel::Text(record.id@))
            .insert("createdAtMs"@, JsonModel::Unsigned(record.created_at_ms))
            .insert("expiresAtMs"@, JsonModel::Unsigned(record.expires_at_ms)),
    )
}

/// A new request, and what is answered to it.
pub fn handle_exec_approval_request(
    params: ExecApprovalRequestParams,
    id: String,
    taken: bool,
    client_id: &str,
    now: u64,
) -> (r: Result<(ExecApprovalRecord, Json), ErrorShape>)
    ensures
        if request_refusal(params) is Some {
            r is Err && r->Err_0@ == request_refusal(params)->0
        } else if taken {
            r is Err && r->Err_0@ == invalid("approval id already exists"@)
        } else {
            &&& r is Ok
            &&& is_requested(r->Ok_0.0, params, id@, client_id@, now)
            &&& r->Ok_0.1@ == (if params.two_phase == Some(true) {
                accepted_view(r->Ok_0.0)
            } else {
                approval_view(r->Ok_0.0, None, "pending"@)
            })
        },
{
    match approval_id_with(&params, "") {
        Ok(_) => {},
        Err(error) => return Err(error),
    }
    if taken {
        return Err(invalid_request("approval id already exists"));
    }
    let limit: u64 = match params.timeout_ms {
        None => 30_000,
        Some(ms) => if ms < 1_000 {
            1_000
        } else if ms > 300_000 {
            300_000
        } else {
            ms
        },
    };
    let expires: u64 = now.saturating_add(limit);
    let request = ExecApprovalRequest {
        command: or_text(trim_non_empty(params.command.as_str()), ""),
        cwd: trim_non_empty_opt(&params.cwd),
        node_id: trim_non_empty_opt(&params.node_id),
        host: trim_non_empty_opt(&params.host),
        security: trim_non_empty_opt(&params.security),
        ask: trim_non_empty_opt(&params.ask),
        agent_id: trim_non_empty_opt(&params.agent_id),
        resolved_path: trim_non_empty_opt(&params.resolved_path),
        session_key: trim_non_empty_opt(&params.session_key),
        requested_by: Some(client_id.to_owned()),
    };
    let record = ExecApprovalRecord {
        id,
        request,
        status: "pending".to_owned(),
        decision: None,
        created_at_ms: now,
        expires_at_ms: expires,
        resolved_at_ms: None,
        resolved_by: None,
    };
    let answer = match params.two_phase {
        Some(true) => {
            let mut o = object();
            set_field(&mut o, "status", text("accepted"));
            set_field(&mut o, "id", text(record.id.as_str()));
            set_field(&mut o, "createdAtMs", Json::Unsigned(record.created_at_ms));
            set_field(&mut o, "expiresAtMs", Json::Unsigned(record.expires_at_ms));
            Json::Object(o)
        },
        _ => approval_json(&record, &None, "pending"),
    };
    Ok((record, answer))
}

// ---------------------------------------------------------------------------------------------
// Waiting for a decision
// ---------------------------------------------------------------------------------------------
/// How long a decision is waited for: as long as is asked for, from a millisecond to two minutes,
/// and a quarter of a minute where nothing is.
pub open spec fn decision_limit(timeout_ms: Option<u64>) -> u64 {
    match timeout_ms {
        None => 15_000,
        Some(ms) => if ms < 1 {
            1
        } else if ms > 120_000 {
            120_000
        } else {
            ms
        },
    }
}

/// The request whose decision is waited for, and for how long.
pub fn approval_wait_request(id: &str, timeout_ms: Option<u64>) -> (r: Result<
    (String, u64),
    ErrorShape,
>)
    ensures
        match kept(id@) {
            Some(id) => r is Ok && r->Ok_0.0@ == id && r->Ok_0.1 == decision_limit(timeout_ms),
            None => r is Err && r->Err_0@ == invalid(
                "invalid exec.approval.waitDecision params: id is required"@,
            ),
        },
{
    let id = match trim_non_empty(id) {
        Some(id) => id,
        None => {
            return Err(
                invalid_request("invalid exec.approval.waitDecision params: id is required"),
            );
        },
    };
    let limit: u64 = match timeout_ms {
        None => 15_000,
        Some(ms) => if ms < 1 {
            1
        } else if ms > 120_000 {
            120_000
        } else {
            ms
        },
    };
    Ok((id, limit))
}

/// What is done while a decision is waited for.
pub enum ApprovalWait {
    /// This is answered.
    Answer(Json),
    /// The request is stored, and the answer is given.
    Expire(ExecApprovalRecord, Json),
    /// The request is looked up again in a moment.
    Sleep,
}

/// What is done while a decision is waited for, from the request, the time, and whether the time
/// to wait is up.
pub fn handle_exec_approval_wait_decision(
    found: Option<ExecApprovalRecord>,
    now: u64,
    late: bool,
) -> (r: Result<ApprovalWait, ErrorShape>)
    ensures
        match found {
            None => r is Err && r->Err_0@ == invalid("approval expired or not found"@),
            Some(record) => if record.status@ != "pending"@ || record.decision is Some {
                r matches Ok(ApprovalWait::Answer(answer)) && answer@ == approval_view(
                    record,
                    opt_text(record.decision),
                    record.status@,
                )
            } else if now >= record.expires_at_ms {
                r matches Ok(ApprovalWait::Expire(expired, answer)) && expired == (
                ExecApprovalRecord { status: expired.status, ..record }) && expired.status@
                    == "expired"@ && answer@ == approval_view(record, None, "expired"@)
            } else if late {
                r matches Ok(ApprovalWait::Answer(answer)) && answer@ == approval_view(
                    record,
                    None,
                    "pending"@,
                )
            } else {
                r matches Ok(ApprovalWait::Sleep)
            },
        },
{
    let record = match found {
        Some(record) => record,
        None => {
            return Err(invalid_request("approval expired or not found"));
        },
    };
    if !same(record.status.as_str(), "pending") || record.decision.is_some() {
        return Ok(
            ApprovalWait::Answer(
                approval_json(&record, &record.decision, record.status.as_str()),
            ),
        );
    }
    if now >= record.expires_at_ms {
        let answer = approval_json(&record, &None, "expired");
        let expired = ExecApprovalRecord { status: "expired".to_owned(), ..record };
        return Ok(ApprovalWait::Expire(expired, answer));
    }
    if late {
        return Ok(ApprovalWait::Answer(approval_json(&record, &None, "pending")));
    }
    Ok(ApprovalWait::Sleep)
}

// ---------------------------------------------------------------------------------------------
// Deciding
// ---------------------------------------------------------------------------------------------
/// A decision that can be made.
pub open spec fn is_decision(decision: Seq<char>) -> bool {
    decision == "allow-once"@ || decision == "allow-always"@ || decision == "deny"@
}

/// Why nothing is decided.
pub open spec fn decision_refusal(id: Seq<char>, decision: Seq<char>) -> Option<ErrorModel> {
    if kept(id) is None {
        Some(invalid("invalid exec.approval.resolve params: id is required"@))
    } else if kept(decision) is None {
        Some(invalid("invalid exec.approval.resolve params: decision is required"@))
    } else if !is_decision(kept(decision)->0) {
        Some(invalid("invalid decision"@))
    } else {
        None
    }
}

/// The request that is decided, and how.
pub fn resolve_request(id: &str, decision: &str) -> (r: Result<(String, String), ErrorShape>)
    ensures
        match decision_refusal(id@, decision@) {
            Some(error) => r is Err && r->Err_0@ == error,
            None => r is Ok && Some(r->Ok_0.0@) == kept(id@) && Some(r->Ok_0.1@) == kept(decision@),
        },
{
    let id = match trim_non_empty(id) {
        Some(id) => id,
        None => {
            return Err(invalid_request("invalid exec.approval.resolve params: id is required"));
        },
    };
    let decision = match trim_non_empty(decision) {
        Some(decision) => decision,
        None => {
            return Err(
                invalid_request("invalid exec.approval.resolve params: decision is required"),
            );
        },
    };
    if !(same(decision.as_str(), "allow-once") || same(decision.as_str(), "allow-always") || same(
        decision.as_str(),
        "deny",
    )) {
        return Err(invalid_request("invalid decision"));
    }
    Ok((id, decision))
}

/// A request after it was decided.
pub open spec fn is_resolved(
    new: ExecApprovalRecord,
    old: ExecApprovalRecord,
    decision: Seq<char>,
    client_id: Seq<char>,
    now: u64,
) -> bool {
    &&& new == (ExecApprovalRecord {
        status: new.status,
        decision: new.decision,
        resolved_at_ms: Some(now),
        resolved_by: new.resolved_by,
        ..old
    })
    &&& new.status@ == "resolved"@
    &&& opt_text(new.decision) == Some(decision)
    &&& opt_text(new.resolved_by) == Some(client_id)
}

/// Why a request cannot be decided.
pub open spec fn resolve_refusal(found: Option<ExecApprovalRecord>) -> Option<ErrorModel> {
    match found {
        None => Some(invalid("unknown approval id"@)),
        Some(record) => if record.status@ != "pending"@ {
            Some(invalid("approval is not pending"@))
        } else {
            None
        },
    }
}

/// A request after it was decided, and what is answered.
pub fn handle_exec_approval_resolve(
    decision: String,
    found: Option<ExecApprovalRecord>,
    client_id: &str,
    now: u64,
) -> (r: Result<(ExecApprovalRecord, Json), ErrorShape>)
    ensures
        match resolve_refusal(found) {
            Some(error) => r is Err && r->Err_0@ == error,
            None => {
                &&& r is Ok
                &&& is_resolved(r->Ok_0.0, found->0, decision@, client_id@, now)
                &&& r->Ok_0.1@ == JsonModel::Object(
                    no_fields()
                        .insert("ok"@, JsonModel::Bool(true))
                        .insert("id"@, JsonModel::Text(found->0.id@))
                        .insert("decision"@, JsonModel::Text(decision@)),
                )
            },
        },
{
    let record = match found {
        Some(record) => record,
        None => {
            return Err(invalid_request("unknown approval id"));
        },
    };
    if !same(record.status.as_str(), "pending") {
        return Err(invalid_request("approval is not pending"));
    }
    let mut o = object();
    set_field(&mut o, "ok", Json::Bool(true));
    set_field(&mut o, "id", text(record.id.as_str()));
    set_field(&mut o, "decision", text(decision.as_str()));
    let resolved = ExecApprovalRecord {
        status: "resolved".to_owned(),
        decision: Some(decision),
        resolved_at_ms: Some(now),
        resolved_by: Some(client_id.to_owned()),
        ..record
    };
    Ok((resolved, Json::Object(o)))
}

// ---------------------------------------------------------------------------------------------
// Laws
// ---------------------------------------------------------------------------------------------
/// Who gives the hash that was shown of what is stored can store another file in its place.
pub proof fn law_the_shown_hash_lets_store(
    method: Seq<char>,
    key: Seq<char>,
    file: Map<Seq<char>, JsonModel>,
    current: JsonModel,
)
    ensures
        save_refusal(
            method,
            JsonModel::Object(file),
            crate::json::text_of(
                crate::json::member(approvals_snapshot(key, Some(current)), "hash"@),
            ),
            Some(current),
        ) is None,
{
    lemma_hash_words_are_trimmed(json_text_of(current));
    reveal_strlit("path");
    reveal_strlit("exists");
    reveal_strlit("hash");
    reveal_strlit("file");
    assert("path"@[0] == 'p' && "hash"@[0] == 'h' && "file"@[0] == 'f' && "exists"@[0] == 'e');
    assert(crate::json::member(approvals_snapshot(key, Some(current)), "hash"@) == Some(
        JsonModel::Text(hash_words(json_text_of(current))),
    ));
}

/// A request is decided once: when it was decided or has expired it cannot be decided again.
pub proof fn law_decided_once(new: ExecApprovalRecord, status: Seq<char>)
    requires
        new.status@ == status,
        status == "resolved"@ || status == "expired"@,
    ensures
        resolve_refusal(Some(new)) is Some,
{
    reveal_strlit("resolved");
    reveal_strlit("expired");
    reveal_strlit("pending");
    assert("resolved"@.len() == 8);
    assert("expired"@[0] == 'e' && "pending"@[0] == 'p');
}

/// A new request can be decided until it expires.
pub proof fn law_new_requests_can_be_decided(
    record: ExecApprovalRecord,
    params: ExecApprovalRequestParams,
    id: Seq<char>,
    client_id: Seq<char>,
    now: u64,
)
    requires
        is_requested(record, params, id, client_id, now),
    ensures
        resolve_refusal(Some(record)) is None,
        now < u64::MAX ==> record.expires_at_ms > now,
{
}

/// Each member of the JSON of what is asked for is what the record holds under that name.
pub proof fn law_json_of_approval_requests(record: &ExecApprovalRequest, r: Json)
    requires
        call_ensures(ExecApprovalRequest::to_json, (record,), r),
    ensures
        member(r@, "command"@) == Some(JsonModel::Text(record.command@)),
        member(r@, "cwd"@) == Some(
            if record.cwd is Some {
                JsonModel::Text(record.cwd->0@)
            } else {
                JsonModel::Null
            },
        ),
        member(r@, "nodeId"@) == Some(
            if record.node_id is Some {
                JsonModel::Text(record.node_id->0@)
            } else {
                JsonModel::Null
            },
        ),
        member(r@, "host"@) == Some(
            if record.host is Some {
                JsonModel::Text(record.host->0@)
            } else {
                JsonModel::Null
            },
        ),
        member(r@, "security"@) == Some(
            if record.security is Some {
                JsonModel::Text(record.security->0@)
            } else {
                JsonModel::Null
            },
        ),
        member(r@, "ask"@) == Some(
            if record.ask is Some {
                JsonModel::Text(record.ask->0@)
            } else {
                JsonModel::Null
            },
        ),
        member(r@, "agentId"@) == Some(
            if record.agent_id is Some {
                JsonModel::Text(record.agent_id->0@)
            } else {
                JsonModel::Null
            },
        ),
        member(r@, "resolvedPath"@) == Some(
            if record.resolved_path is Some {
                JsonModel::Text(record.resolved_path->0@)
            } else {
                JsonModel::Null
            },
        ),
        member(r@, "sessionKey"@) == Some(
            if record.session_key is Some {
                JsonModel::Text(record.session_key->0@)
            } else {
                JsonModel::Null
            },
        ),
        member(r@, "requestedBy"@) == Some(
            if record.requested_by is Some {
                JsonModel::Text(record.requested_by->0@)
            } else {
                JsonModel::Null
            },
        ),
{
    reveal_strlit("command");
    reveal_strlit("cwd");
    reveal_strlit("nodeId");
    reveal_strlit("host");
    reveal_strlit("security");
    reveal_strlit("ask");
    reveal_strlit("agentId");
    reveal_strlit("resolvedPath");
    reveal_strlit("sessionKey");
    reveal_strlit("requestedBy");
    assert("command"@.len() != "cwd"@.len());
    assert("command"@.len() != "nodeId"@.len());
    assert("command"@.len() != "host"@.len());
    assert("command"@.len() != "security"@.len());
    assert("command"@.len() != "ask"@.len());
    assert("command"@[0] != "agentId"@[0]);
    assert("command"@.len() != "resolvedPath"@.len());
    assert("command"@.len() != "sessionKey"@.len());
    assert("command"@.len() != "requestedBy"@.len());
    assert("cwd"@.len() != "nodeId"@.len());
    assert("cwd"@.len() != "host"@.len());
    assert("cwd"@.len() != "security"@.len());
    assert("cwd"@[0] != "ask"@[0]);
    assert("cwd"@.len() != "agentId"@.len());
    assert("cwd"@.len() != "resolvedPath"@.len());
    assert("cwd"@.len() != "sessionKey"@.len());
    assert("cwd"@.len() != "requestedBy"@.len());
    assert("nodeId"@.len() != "host"@.len());
    assert("nodeId"@.len() != "security"@.len());
    assert("nodeId"@.len() != "ask"@.len());
    assert("nodeId"@.len() != "agentId"@.len());
    assert("nodeId"@.len() != "resolvedPath"@.len());
    assert("nodeId"@.len() != "sessionKey"@.len());
    assert("nodeId"@.len() != "requestedBy"@.len());
    assert("host"@.len() != "security"@.len());
    assert("host"@.len() != "ask"@.len());
    assert("host"@.len() != "agentId"@.len());
    assert("host"@.len() != "resolvedPath"@.len());
    assert("host"@.len() != "sessionKey"@.len());
    assert("host"@.len() != "requestedBy"@.len());
    assert("security"@.len() != "ask"@.len());
    assert("security"@.len() != "agentId"@.len());
    assert("security"@.len() != "resolvedPath"@.len());
    assert("security"@.len() != "sessionKey"@.len());
    assert("security"@.len() != "requestedBy"@.len());
    assert("ask"@.len() != "agentId"@.len());
    assert("ask"@.len() != "resolvedPath"@.len());
    assert("ask"@.len() != "sessionKey"@.len());
    assert("ask"@.len() != "requestedBy"@.len());
    assert("agentId"@.len() != "resolvedPath"@.len());
    assert("agentId"@.len() != "sessionKey"@.len());
    assert("agentId"@.len() != "requestedBy"@.len());
    assert("resolvedPath"@.len() != "sessionKey"@.len());
    assert("resolvedPath"@.len() != "requestedBy"@.len());
    assert("sessionKey"@.len() != "requestedBy"@.len());
}

/// Each member of the JSON of a request for approval is what the record holds under that name.
pub proof fn law_json_of_approvals(record: &ExecApprovalRecord, r: Json, inner: Json)
    requires
        call_ensures(ExecApprovalRecord::to_json, (record,), r),
    ensures
        member(r@, "id"@) == Some(JsonModel::Text(record.id@)),
        call_ensures(ExecApprovalRequest::to_json, (&record.request,), inner) ==> member(r@, "request"@) == Some(
            inner@,
        ),
        member(r@, "status"@) == Some(JsonModel::Text(record.status@)),
        member(r@, "decision"@) == Some(
            if record.decision is Some {
                JsonModel::Text(record.decision->0@)
            } else {
                JsonModel::Null
            },
        ),
        member(r@, "createdAtMs"@) == Some(JsonModel::Unsigned(record.created_at_ms)),
        member(r@, "expiresAtMs"@) == Some(JsonModel::Unsigned(record.expires_at_ms)),
        member(r@, "resolvedAtMs"@) == Some(
            if record.resolved_at_ms is Some {
                JsonModel::Unsigned(record.resolved_at_ms->0)
            } else {
                JsonModel::Null
            },
        ),
        member(r@, "resolvedBy"@) == Some(
            if record.resolved_by is Some {
                JsonModel::Text(record.resolved_by->0@)
            } else {
                JsonModel::Null
            },
        ),
{
    reveal_strlit("id");
    reveal_strlit("request");
    reveal_strlit("status");
    reveal_strlit("decision");
    reveal_strlit("createdAtMs");
    reveal_strlit("expiresAtMs");
    reveal_strlit("resolvedAtMs");
    reveal_strlit("resolvedBy");
    assert("id"@.len() != "request"@.len());
    assert("id"@.len() != "status"@.len());
    assert("id"@.len() != "decision"@.len());
    assert("id"@.len() != "createdAtMs"@.len());
    assert("id"@.len() != "expiresAtMs"@.len());
    assert("id"@.len() != "resolvedAtMs"@.len());
    assert("id"@.len() != "resolvedBy"@.len());
    assert("request"@.len() != "status"@.len());
    assert("request"@.len() != "decision"@.len());
    assert("request"@.len() != "createdAtMs"@.len());
    assert("request"@.len() != "expiresAtMs"@.len());
    assert("request"@.len() != "resolvedAtMs"@.len());
    assert("request"@.len() != "resolvedBy"@.len());
    assert("status"@.len() != "decision"@.len());
    assert("status"@.len() != "createdAtMs"@.len());
    assert("status"@.len() != "expiresAtMs"@.len());
    assert("status"@.len() != "resolvedAtMs"@.len());
    assert("status"@.len() != "resolvedBy"@.len());
    assert("decision"@.len() != "createdAtMs"@.len());
    assert("decision"@.len() != "expiresAtMs"@.len());
    assert("decision"@.len() != "resolvedAtMs"@.len());
    assert("decision"@.len() != "resolvedBy"@.len());
    assert("createdAtMs"@[0] != "expiresAtMs"@[0]);
    assert("createdAtMs"@.len() != "resolvedAtMs"@.len());
    assert("createdAtMs"@.len() != "resolvedBy"@.len());
    assert("expiresAtMs"@.len() != "resolvedAtMs"@.len());
    assert("expiresAtMs"@.len() != "resolvedBy"@.len());
    assert("resolvedAtMs"@.len() != "resolvedBy"@.len());
}

/// Whether what is given is in the record, trimmed, and nothing where nothing is given.
pub open spec fn holds(recorded: Option<String>, given: Option<String>) -> bool {
    &&& recorded is Some <==> is_given(given)
    &&& is_given(given) ==> recorded->0@ == trimmed(given->0@)
}

/// A new request waits to be decided, holds what was asked and expires after the time that is given,
/// within bounds. It needs a command, a node where it is for one, and an id of its own.
pub proof fn law_new_approvals(
    params: ExecApprovalRequestParams,
    id: String,
    taken: bool,
    client_id: &str,
    now: u64,
    r: Result<(ExecApprovalRecord, Json), ErrorShape>,
)
    requires
        call_ensures(handle_exec_approval_request, (params, id, taken, client_id, now), r),
    ensures
        r is Ok <==> !taken && not_blank(params.command@) && (is_given(params.host) && trimmed(
            params.host->0@,
        ) == "node"@ ==> is_given(params.node_id)),
        r is Ok ==> {
            let record = r->Ok_0.0;
            let answer = r->Ok_0.1@;
            let wait = record.expires_at_ms - now;
            &&& record.id@ == id@
            &&& record.request.command@ == trimmed(params.command@)
            &&& holds(record.request.cwd, params.cwd)
            &&& holds(record.request.node_id, params.node_id)
            &&& holds(record.request.host, params.host)
            &&& holds(record.request.security, params.security)
            &&& holds(record.request.ask, params.ask)
            &&& holds(record.request.agent_id, params.agent_id)
            &&& holds(record.request.resolved_path, params.resolved_path)
            &&& holds(record.request.session_key, params.session_key)
            &&& record.request.requested_by is Some && record.request.requested_by->0@ == client_id@
            &&& record.status@ == "pending"@ && record.decision is None && record.resolved_at_ms is None
            &&& record.created_at_ms == now
            &&& now <= u64::MAX - 300000 ==> 1000 <= wait <= 300000
            &&& now <= u64::MAX - 300000 && params.timeout_ms is None ==> wait == 30000
            &&& now <= u64::MAX - 300000 && params.timeout_ms is Some && 1000 <= params.timeout_ms->0
                <= 300000 ==> wait == params.timeout_ms->0
            &&& member(answer, "id"@) == Some(JsonModel::Text(id@))
            &&& member(answer, "status"@) == Some(
                JsonModel::Text(
                    if params.two_phase == Some(true) {
                        "accepted"@
                    } else {
                        "pending"@
                    },
                ),
            )
            &&& member(answer, "expiresAtMs"@) == Some(JsonModel::Unsigned(record.expires_at_ms))
        },
{
    lemma_kept(params.command@);
    lemma_is_given(params.cwd);
    lemma_is_given(params.node_id);
    lemma_is_given(params.host);
    lemma_is_given(params.security);
    lemma_is_given(params.ask);
    lemma_is_given(params.agent_id);
    lemma_is_given(params.resolved_path);
    lemma_is_given(params.session_key);

    reveal_strlit("id");
    reveal_strlit("decision");
    reveal_strlit("createdAtMs");
    reveal_strlit("expiresAtMs");
    reveal_strlit("status");
    assert("id"@.len() != "decision"@.len());
    assert("id"@.len() != "createdAtMs"@.len());
    assert("id"@.len() != "expiresAtMs"@.len());
    assert("id"@.len() != "status"@.len());
    assert("decision"@.len() != "createdAtMs"@.len());
    assert("decision"@.len() != "expiresAtMs"@.len());
    assert("decision"@.len() != "status"@.len());
    assert("createdAtMs"@[0] != "expiresAtMs"@[0]);
    assert("createdAtMs"@.len() != "status"@.len());
    assert("expiresAtMs"@.len() != "status"@.len());
}

/// A request is decided once, by one of the three decisions, while it waits. Who decided it and when
/// is kept, and nothing else of it changes.
pub proof fn law_deciding(
    decision: String,
    found: Option<ExecApprovalRecord>,
    client_id: &str,
    now: u64,
    r: Result<(ExecApprovalRecord, Json), ErrorShape>,
)
    requires
        call_ensures(handle_exec_approval_resolve, (decision, found, client_id, now), r),
    ensures
        r is Ok <==> found is Some && found->0.status@ == "pending"@,
        r is Ok ==> {
            let new = r->Ok_0.0;
            let old = found->0;
            &&& new.id == old.id && new.request == old.request && new.created_at_ms
                == old.created_at_ms && new.expires_at_ms == old.expires_at_ms
            &&& new.status@ == "resolved"@
            &&& new.decision is Some && new.decision->0@ == decision@
            &&& new.resolved_by is Some && new.resolved_by->0@ == client_id@
            &&& new.resolved_at_ms == Some(now)
            &&& member(r->Ok_0.1@, "decision"@) == Some(JsonModel::Text(decision@))
            &&& member(r->Ok_0.1@, "id"@) == Some(JsonModel::Text(old.id@))
        },
{
    reveal_strlit("ok");
    reveal_strlit("id");
    reveal_strlit("decision");
    assert("ok"@[0] != "id"@[0]);
    assert("ok"@.len() != "decision"@.len());
    assert("id"@.len() != "decision"@.len());
}

/// A decision allows once, allows always or denies, and there is no other.
pub proof fn law_decisions(id: &str, decision: &str, r: Result<(String, String), ErrorShape>)
    requires
        call_ensures(resolve_request, (id, decision), r),
    ensures
        r is Ok <==> not_blank(id@) && (trimmed(decision@) == "allow-once"@ || trimmed(decision@)
            == "allow-always"@ || trimmed(decision@) == "deny"@),
        r is Ok ==> r->Ok_0.0@ == trimmed(id@) && r->Ok_0.1@ == trimmed(decision@),
{
    lemma_kept(id@);
    lemma_kept(decision@);
    reveal_strlit("allow-once");
    reveal_strlit("allow-always");
    reveal_strlit("deny");
}

/// Who waits for a decision is told it once it is there. A request that nobody decided in time is
/// stored as expired, and who has waited long enough is told that it still waits.
pub proof fn law_waiting_for_decisions(
    found: Option<ExecApprovalRecord>,
    now: u64,
    late: bool,
    r: Result<ApprovalWait, ErrorShape>,
)
    requires
        call_ensures(handle_exec_approval_wait_decision, (found, now, late), r),
    ensures
        r is Err <==> found is None,
        r is Ok ==> {
            let record = found->0;
            let open = record.status@ == "pending"@ && record.decision is None;
            &&& r->Ok_0 is Expire <==> open && now >= record.expires_at_ms
            &&& r->Ok_0 is Sleep <==> open && now < record.expires_at_ms && !late
            &&& r->Ok_0 is Answer && !open ==> member(r->Ok_0->Answer_0@, "status"@) == Some(
                JsonModel::Text(record.status@),
            ) && (record.decision is Some ==> member(r->Ok_0->Answer_0@, "decision"@) == Some(
                JsonModel::Text(record.decision->0@),
            ))
            &&& r->Ok_0 is Answer && open ==> member(r->Ok_0->Answer_0@, "status"@) == Some(
                JsonModel::Text("pending"@),
            ) && member(r->Ok_0->Answer_0@, "decision"@) == Some(JsonModel::Null)
            &&& r->Ok_0 is Expire ==> r->Ok_0->Expire_0.status@ == "expired"@ && r->Ok_0->Expire_0.id
                == record.id && r->Ok_0->Expire_0.request == record.request && member(
                r->Ok_0->Expire_1@,
                "status"@,
            ) == Some(JsonModel::Text("expired"@))
        },
{
    reveal_strlit("id");
    reveal_strlit("decision");
    reveal_strlit("createdAtMs");
    reveal_strlit("expiresAtMs");
    reveal_strlit("status");
    assert("id"@.len() != "decision"@.len());
    assert("id"@.len() != "createdAtMs"@.len());
    assert("id"@.len() != "expiresAtMs"@.len());
    assert("id"@.len() != "status"@.len());
    assert("decision"@.len() != "createdAtMs"@.len());
    assert("decision"@.len() != "expiresAtMs"@.len());
    assert("decision"@.len() != "status"@.len());
    assert("createdAtMs"@[0] != "expiresAtMs"@[0]);
    assert("createdAtMs"@.len() != "status"@.len());
    assert("expiresAtMs"@.len() != "status"@.len());
}

/// A decision is waited for a quarter of a minute where nothing is said, as long as is said up to two
/// minutes, and never longer.
pub proof fn law_times_of_decisions(id: &str, timeout_ms: Option<u64>, r: Result<(String, u64), ErrorShape>)
    requires
        call_ensures(approval_wait_request, (id, timeout_ms), r),
    ensures
        r is Ok <==> not_blank(id@),
        r is Ok ==> r->Ok_0.0@ == trimmed(id@) && 1 <= r->Ok_0.1 <= 120000,
        r is Ok && timeout_ms is None ==> r->Ok_0.1 == 15000,
        r is Ok && timeout_ms is Some && 1 <= timeout_ms->0 <= 120000 ==> r->Ok_0.1 == timeout_ms->0,
{
    lemma_kept(id@);
}

/// The stored rules can be replaced by an object, and where there are rules only by who shows the hash
/// of those that are stored.
pub proof fn law_replacing_rules(
    method: &str,
    file: &Json,
    base_hash: &Option<String>,
    current: Option<Json>,
    hash: String,
    r: Result<(), ErrorShape>,
)
    requires
        call_ensures(
            save_approvals_snapshot,
            (method, file, base_hash, Ok::<Option<Json>, DomainError>(current)),
            r,
        ),
        current is Some ==> call_ensures(stable_value_hash, (&current->0,), hash),
    ensures
        r is Ok <==> file@ is Object && (current is Some ==> is_given(*base_hash) && trimmed(
            base_hash->0@,
        ) == hash@),
        r is Err ==> r->Err_0.code@ == "INVALID_REQUEST"@,
{
    lemma_is_given(*base_hash);
}

/// What is stored is shown with its hash, and nothing is shown as an empty object without one.
pub proof fn law_rules_are_shown(key: &str, stored: Option<Json>, hash: String, r: Json)
    requires
        call_ensures(read_approvals_snapshot, (key, stored), r),
        stored is Some ==> call_ensures(stable_value_hash, (&stored->0,), hash),
    ensures
        member(r@, "path"@) == Some(JsonModel::Text(key@)),
        member(r@, "exists"@) == Some(JsonModel::Bool(stored is Some)),
        stored is Some ==> member(r@, "file"@) == Some(stored->0@) && member(r@, "hash"@) == Some(
            JsonModel::Text(hash@),
        ),
        stored is None ==> member(r@, "hash"@) == Some(JsonModel::Null) && member(r@, "file"@) == Some(
            JsonModel::Object(Map::<Seq<char>, JsonModel>::empty()),
        ),
{
    reveal_strlit("path");
    reveal_strlit("exists");
    reveal_strlit("hash");
    reveal_strlit("file");
    assert("path"@.len() != "exists"@.len());
    assert("path"@[0] != "hash"@[0]);
    assert("path"@[0] != "file"@[0]);
    assert("exists"@.len() != "hash"@.len());
    assert("exists"@.len() != "file"@.len());
    assert("hash"@[0] != "file"@[0]);
}

/// The rules of a node have a place of their own.
pub proof fn law_places_of_rules(
    method: &str,
    a: &str,
    b: &str,
    x: Result<String, ErrorShape>,
    y: Result<String, ErrorShape>,
)
    requires
        call_ensures(node_approvals_key, (method, a), x),
        call_ensures(node_approvals_key, (method, b), y),
    ensures
        x is Ok <==> not_blank(a@),
        x is Ok ==> x->Ok_0@ == "runtime/exec-approvals/node/"@ + trimmed(a@),
        x is Ok && y is Ok ==> (x->Ok_0@ == y->Ok_0@ <==> trimmed(a@) == trimmed(b@)),
{
    lemma_kept(a@);
    lemma_kept(b@);
    let n = "runtime/exec-approvals/node/"@.len() as int;
    if x is Ok && y is Ok {
        assert(x->Ok_0@.skip(n) =~= trimmed(a@));
        assert(y->Ok_0@.skip(n) =~= trimmed(b@));
    }
}

/// A request is what is stored under its id, and its id fixes where that is.
pub proof fn law_stored_approvals(
    stored: Option<Result<ExecApprovalRecord, String>>,
    r: Result<Option<ExecApprovalRecord>, ErrorShape>,
    id: &str,
    key: String,
)
    requires
        call_ensures(load_approval_record, (stored,), r),
        call_ensures(approval_key, (id,), key),
    ensures
        r is Err <==> stored is Some && stored->0 is Err,
        stored is None ==> r->Ok_0 is None,
        stored is Some && stored->0 is Ok ==> r->Ok_0 == Some(stored->0->Ok_0),
        key@ == "runtime/exec-approval/request/"@ + id@,
{
}

} // verus!
