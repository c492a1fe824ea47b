//! Nodes: how they are paired, described, called and heard.
use crate::domain::models::{
    node_event_record_json, node_pair_request_record_json, node_record_json, NodeEventRecord,
    NodeInvokeInput, NodeInvokeRecord, NodePairRequestInput, NodePairRequestRecord, NodeRecord,
};
use crate::json::{
    member, no_fields, object, opt_model, opt_text_json, set_field, text, text_array, text_or_null,
    texts_json, value_or_null, Json, JsonModel,
};
use crate::lists::{distinct, sanitize};
use crate::protocol::errors::{invalid, invalid_request, ErrorShape};
use crate::rpc::methods::agent::{is_given, lemma_is_given};
use crate::rpc::methods::{field_missing, required_text};
use crate::rpc::SessionContext;
use crate::text::{
    either, first_of, kept, kept_opt, lemma_kept, not_blank, opt_text, or_text, same, text_or, texts,
    trim_non_empty_opt, trimmed,
};
use vstd::prelude::*;

verus! {

broadcast use vstd::seq::group_seq_axioms;

/// Nodes as JSON.
pub open spec fn nodes_json(items: Seq<NodeRecord>) -> Seq<JsonModel> {
    items.map_values(|item: NodeRecord| node_record_json(item))
}

/// Nodes as JSON.
pub fn nodes_to_json(items: &Vec<NodeRecord>) -> (r: Json)
    ensures
        r@ == JsonModel::Array(nodes_json(items@)),
{
    let mut out: Vec<Json> = Vec::new();
    let mut i: usize = 0;
    while i < items.len()
        invariant
            i <= items@.len(),
            out@.len() == i,
            forall|k: int| 0 <= k < i ==> (#[trigger] out@[k])@ == node_record_json(items@[k]),
        decreases items@.len() - i,
    {
        out.push(items[i].to_json());
        i = i + 1;
    }
    proof {
        crate::json::lemma_models(out@);
        assert(crate::json::models(out@) =~= nodes_json(items@));
    }
    Json::Array(out)
}

/// Requests as JSON.
pub open spec fn requests_json(items: Seq<NodePairRequestRecord>) -> Seq<JsonModel> {
    items.map_values(|item: NodePairRequestRecord| node_pair_request_record_json(item))
}

/// Requests as JSON.
pub fn requests_to_json(items: &Vec<NodePairRequestRecord>) -> (r: Json)
    ensures
        r@ == JsonModel::Array(requests_json(items@)),
{
    let mut out: Vec<Json> = Vec::new();
    let mut i: usize = 0;
    while i < items.len()
        invariant
            i <= items@.len(),
            out@.len() == i,
            forall|k: int| 0 <= k < i ==> (#[trigger] out@[k])@ == node_pair_request_record_json(items@[k]),
        decreases items@.len() - i,
    {
        out.push(items[i].to_json());
        i = i + 1;
    }
    proof {
        crate::json::lemma_models(out@);
        assert(crate::json::models(out@) =~= requests_json(items@));
    }
    Json::Array(out)
}

/// The texts of an optional list.
pub open spec fn texts_or_none(values: Option<Vec<String>>) -> Seq<Seq<char>> {
    match values {
        Some(v) => texts(v@),
        None => Seq::empty(),
    }
}

/// The trimmed texts of a list in their order, without blanks, each once.
pub fn sanitize_items(values: &Option<Vec<String>>) -> (r: Vec<String>)
    ensures
        texts(r@) == distinct(texts_or_none(*values)),
{
    match values {
        Some(v) => sanitize(v),
        None => {
            let none: Vec<String> = Vec::new();
            assert(texts(none@) =~= Seq::<Seq<char>>::empty());
            none
        },
    }
}

/// The node that is named: by its id, under either name.
pub fn resolve_node_id(node_id: Option<String>, id: Option<String>, method: &str) -> (r: Result<
    String,
    ErrorShape,
>)
    ensures
        match kept_opt(first_of(opt_text(node_id), opt_text(id))) {
            Some(s) => r is Ok && r->Ok_0@ == s,
            None => r is Err && r->Err_0@ == field_missing(method@, "nodeId"@),
        },
{
    let named = or_text(either(node_id, id), "");
    proof {
        reveal_strlit("");
        assert(""@ =~= Seq::<char>::empty());
        crate::text::lemma_empty_is_blank();
    }
    required_text(method, "nodeId", named.as_str())
}

// ---------------------------------------------------------------------------------------------
// Pairing
// ---------------------------------------------------------------------------------------------
/// A node that asks to be paired.
pub struct NodePairRequestParams {
    pub node_id: String,
    pub display_name: Option<String>,
    pub platform: Option<String>,
    pub device_family: Option<String>,
    pub commands: Option<Vec<String>>,
    pub public_key: Option<String>,
}

/// The request of a node, as it is stored.
pub fn pair_request_input(params: &NodePairRequestParams) -> (r: Result<
    NodePairRequestInput,
    ErrorShape,
>)
    ensures
        match kept(params.node_id@) {
            None => r is Err && r->Err_0@ == field_missing("node.pair.request"@, "nodeId"@),
            Some(id) => {
                &&& r is Ok
                &&& r->Ok_0.node_id@ == id
                &&& r->Ok_0.display_name@ == text_or(kept_opt(opt_text(params.display_name)), id)
                &&& r->Ok_0.platform@ == text_or(kept_opt(opt_text(params.platform)), "unknown"@)
                &&& opt_text(r->Ok_0.device_family) == kept_opt(opt_text(params.device_family))
                &&& texts(r->Ok_0.commands@) == distinct(texts_or_none(params.commands))
                &&& opt_text(r->Ok_0.public_key) == kept_opt(opt_text(params.public_key))
            },
        },
{
    let node_id = required_text("node.pair.request", "nodeId", params.node_id.as_str())?;
    Ok(
        NodePairRequestInput {
            display_name: or_text(trim_non_empty_opt(&params.display_name), node_id.as_str()),
            platform: or_text(trim_non_empty_opt(&params.platform), "unknown"),
            device_family: trim_non_empty_opt(&params.device_family),
            commands: sanitize_items(&params.commands),
            public_key: trim_non_empty_opt(&params.public_key),
            node_id,
        },
    )
}

/// What is answered to a node that asks to be paired.
pub fn handle_pair_request(request: &NodePairRequestRecord) -> (r: Json)
    ensures
        r@ == JsonModel::Object(
            no_fields()
                .insert("status"@, JsonModel::Text("pending"@))
                .insert("created"@, JsonModel::Bool(true))
                .insert("request"@, node_pair_request_record_json(*request)),
        ),
{
    let mut o = object();
    set_field(&mut o, "status", text("pending"));
    set_field(&mut o, "created", Json::Bool(true));
    set_field(&mut o, "request", request.to_json());
    Json::Object(o)
}

/// The nodes that asked to be paired.
pub fn handle_pair_list(requests: &Vec<NodePairRequestRecord>, now: u64) -> (r: Json)
    ensures
        r@ == JsonModel::Object(
            no_fields()
                .insert("ts"@, JsonModel::Unsigned(now))
                .insert("requests"@, JsonModel::Array(requests_json(requests@))),
        ),
{
    let mut o = object();
    set_field(&mut o, "ts", Json::Unsigned(now));
    set_field(&mut o, "requests", requests_to_json(requests));
    Json::Object(o)
}

/// The request that is approved or rejected, and the reason that is given.
pub fn handle_pair_resolution(method: &str, request_id: &str, reason: &Option<String>) -> (r: Result<
    (String, Option<String>),
    ErrorShape,
>)
    ensures
        match kept(request_id@) {
            None => r is Err && r->Err_0@ == field_missing(method@, "requestId"@),
            Some(id) => r is Ok && r->Ok_0.0@ == id && opt_text(r->Ok_0.1) == kept_opt(
                opt_text(*reason),
            ),
        },
{
    let id = required_text(method, "requestId", request_id)?;
    Ok((id, trim_non_empty_opt(reason)))
}

/// Whether a node is paired, and whether it came with a token then.
pub fn handle_pair_verify(node_id: &str, token: &Option<String>, node: &Option<NodeRecord>) -> (r:
    Json)
    ensures
        r@ == ({
            let paired = match *node {
                Some(n) => n.paired,
                None => false,
            };
            JsonModel::Object(
                no_fields()
                    .insert("ok"@, JsonModel::Bool(true))
                    .insert("nodeId"@, JsonModel::Text(node_id@))
                    .insert("paired"@, JsonModel::Bool(paired))
                    .insert("verified"@, JsonModel::Bool(paired && kept_opt(opt_text(*token)) is Some)),
            )
        }),
{
    let paired: bool = match node {
        Some(n) => n.paired,
        None => false,
    };
    let verified: bool = paired && trim_non_empty_opt(token).is_some();
    let mut o = object();
    set_field(&mut o, "ok", Json::Bool(true));
    set_field(&mut o, "nodeId", text(node_id));
    set_field(&mut o, "paired", Json::Bool(paired));
    set_field(&mut o, "verified", Json::Bool(verified));
    Json::Object(o)
}

// ---------------------------------------------------------------------------------------------
// Describing
// ---------------------------------------------------------------------------------------------
/// The node that gets another name, and the name.
pub fn rename_request(node_id: Option<String>, id: Option<String>, display_name: &str) -> (r: Result<
    (String, String),
    ErrorShape,
>)
    ensures
        match (kept_opt(first_of(opt_text(node_id), opt_text(id))), kept(display_name@)) {
            (None, _) => r is Err && r->Err_0@ == field_missing("node.rename"@, "nodeId"@),
            (Some(_), None) => r is Err && r->Err_0@ == field_missing(
                "node.rename"@,
                "displayName"@,
            ),
            (Some(id), Some(name)) => r is Ok && r->Ok_0.0@ == id && r->Ok_0.1@ == name,
        },
{
    let id = resolve_node_id(node_id, id, "node.rename")?;
    let name = required_text("node.rename", "displayName", display_name)?;
    Ok((id, name))
}

/// What is answered when a node got another name.
pub fn handle_rename(node: &NodeRecord) -> (r: Json)
    ensures
        r@ == JsonModel::Object(
            no_fields()
                .insert("nodeId"@, JsonModel::Text(node.id@))
                .insert("displayName"@, JsonModel::Text(node.display_name@)),
        ),
{
    let mut o = object();
    set_field(&mut o, "nodeId", text(node.id.as_str()));
    set_field(&mut o, "displayName", text(node.display_name.as_str()));
    Json::Object(o)
}

/// The nodes.
pub fn handle_list(nodes: &Vec<NodeRecord>, now: u64) -> (r: Json)
    ensures
        r@ == JsonModel::Object(
            no_fields()
                .insert("ts"@, JsonModel::Unsigned(now))
                .insert("nodes"@, JsonModel::Array(nodes_json(nodes@))),
        ),
{
    let mut o = object();
    set_field(&mut o, "ts", Json::Unsigned(now));
    set_field(&mut o, "nodes", nodes_to_json(nodes));
    Json::Object(o)
}

/// A node, or a refusal where there is none.
pub fn handle_describe(node: &Option<NodeRecord>, now: u64) -> (r: Result<Json, ErrorShape>)
    ensures
        match *node {
            None => r is Err && r->Err_0@ == invalid("unknown nodeId"@),
            Some(n) => r is Ok && r->Ok_0@ == JsonModel::Object(
                no_fields()
                    .insert("ts"@, JsonModel::Unsigned(now))
                    .insert("nodeId"@, JsonModel::Text(n.id@))
                    .insert("displayName"@, JsonModel::Text(n.display_name@))
                    .insert("platform"@, JsonModel::Text(n.platform@))
                    .insert("deviceFamily"@, text_or_null(opt_text(n.device_family)))
                    .insert("commands"@, text_array(texts(n.commands@)))
                    .insert("paired"@, JsonModel::Bool(n.paired))
                    .insert("status"@, JsonModel::Text(n.status@))
                    .insert("lastSeenMs"@, JsonModel::Unsigned(n.last_seen_ms))
                    .insert("metadata"@, n.metadata@),
            ),
        },
{
    let n = match node {
        Some(n) => n,
        None => {
            return Err(invalid_request("unknown nodeId"));
        },
    };
    let mut o = object();
    set_field(&mut o, "ts", Json::Unsigned(now));
    set_field(&mut o, "nodeId", text(n.id.as_str()));
    set_field(&mut o, "displayName", text(n.display_name.as_str()));
    set_field(&mut o, "platform", text(n.platform.as_str()));
    set_field(&mut o, "deviceFamily", opt_text_json(&n.device_family));
    set_field(&mut o, "commands", texts_json(&n.commands));
    set_field(&mut o, "paired", Json::Bool(n.paired));
    set_field(&mut o, "status", text(n.status.as_str()));
    set_field(&mut o, "lastSeenMs", Json::Unsigned(n.last_seen_ms));
    set_field(&mut o, "metadata", n.metadata.copy());
    Ok(Json::Object(o))
}

// ---------------------------------------------------------------------------------------------
// Calling
// ---------------------------------------------------------------------------------------------
/// What a node is to do.
pub struct NodeInvokeParams {
    pub node_id: String,
    pub command: String,
    pub args: Option<Vec<String>>,
    pub input: Option<Json>,
}

/// What a node is to do, as it is stored.
pub fn invoke_input(params: NodeInvokeParams) -> (r: Result<NodeInvokeInput, ErrorShape>)
    ensures
        match (kept(params.node_id@), kept(params.command@)) {
            (None, _) => r is Err && r->Err_0@ == field_missing("node.invoke"@, "nodeId"@),
            (Some(_), None) => r is Err && r->Err_0@ == field_missing(
                "node.invoke"@,
                "command"@,
            ),
            (Some(id), Some(command)) => {
                &&& r is Ok
                &&& r->Ok_0.node_id@ == id
                &&& r->Ok_0.command@ == command
                &&& texts(r->Ok_0.args@) == distinct(texts_or_none(params.args))
                &&& r->Ok_0.input == params.input
            },
        },
{
    let node_id = required_text("node.invoke", "nodeId", params.node_id.as_str())?;
    let command = required_text("node.invoke", "command", params.command.as_str())?;
    Ok(
        NodeInvokeInput {
            node_id,
            command,
            args: sanitize_items(&params.args),
            input: params.input,
        },
    )
}

/// What is answered when a node was given something to do.
pub fn handle_invoke(node_id: &str, command: &str, invoke: NodeInvokeRecord) -> (r: Json)
    ensures
        r@ == JsonModel::Object(
            no_fields()
                .insert("ok"@, JsonModel::Bool(true))
                .insert("nodeId"@, JsonModel::Text(node_id@))
                .insert("command"@, JsonModel::Text(command@))
                .insert("requestId"@, JsonModel::Text(invoke.request_id@))
                .insert("status"@, JsonModel::Text(invoke.status@))
                .insert("payload"@, value_or_null(opt_model(invoke.result))),
        ),
{
    let mut o = object();
    set_field(&mut o, "ok", Json::Bool(true));
    set_field(&mut o, "nodeId", text(node_id));
    set_field(&mut o, "command", text(command));
    set_field(&mut o, "requestId", text(invoke.request_id.as_str()));
    set_field(&mut o, "status", text(invoke.status.as_str()));
    set_field(&mut o, "payload", crate::json::opt_json(invoke.result));
    Json::Object(o)
}

/// What a node answered to: the request, and its status.
pub fn handle_invoke_result(request_id: &str, status: &str) -> (r: Result<
    (String, String),
    ErrorShape,
>)
    ensures
        match (kept(request_id@), kept(status@)) {
            (None, _) => r is Err && r->Err_0@ == field_missing(
                "node.invoke.result"@,
                "requestId"@,
            ),
            (Some(_), None) => r is Err && r->Err_0@ == field_missing(
                "node.invoke.result"@,
                "status"@,
            ),
            (Some(id), Some(s)) => r is Ok && r->Ok_0.0@ == id && r->Ok_0.1@ == s,
        },
{
    let id = required_text("node.invoke.result", "requestId", request_id)?;
    let status = required_text("node.invoke.result", "status", status)?;
    Ok((id, status))
}

/// The node that an event is of: the one that is named, or the one that sends it.
pub open spec fn event_node(node_id: Option<Seq<char>>, session: SessionContext) -> Option<Seq<char>> {
    first_of(
        kept_opt(node_id),
        if session.role@ == "node"@ {
            Some(session.client_id@)
        } else {
            None
        },
    )
}

/// The node that an event is of, and the event.
pub fn event_request(node_id: &Option<String>, event: &str, session: &SessionContext) -> (r: Result<
    (String, String),
    ErrorShape,
>)
    ensures
        match (event_node(opt_text(*node_id), *session), kept(event@)) {
            (None, _) => r is Err && r->Err_0@ == invalid(
                "invalid node.event params: nodeId is required"@,
            ),
            (Some(_), None) => r is Err && r->Err_0@ == field_missing("node.event"@, "event"@),
            (Some(id), Some(e)) => r is Ok && r->Ok_0.0@ == id && r->Ok_0.1@ == e,
        },
{
    let own = if same(session.role.as_str(), "node") {
        Some(session.client_id.clone())
    } else {
        None
    };
    let id = match either(trim_non_empty_opt(node_id), own) {
        Some(id) => id,
        None => {
            return Err(invalid_request("invalid node.event params: nodeId is required"));
        },
    };
    let event = required_text("node.event", "event", event)?;
    Ok((id, event))
}

/// What is answered to an event.
pub fn handle_event(record: &NodeEventRecord) -> (r: Json)
    ensures
        r@ == JsonModel::Object(
            no_fields()
                .insert("ok"@, JsonModel::Bool(true))
                .insert("event"@, node_event_record_json(*record)),
        ),
{
    let mut o = object();
    set_field(&mut o, "ok", Json::Bool(true));
    set_field(&mut o, "event", record.to_json());
    Json::Object(o)
}

/// A node that asks to be paired must be named. What it does not say of itself has its default.
pub proof fn law_pairing_requests(
    params: &NodePairRequestParams,
    tidy: Vec<String>,
    r: Result<NodePairRequestInput, ErrorShape>,
)
    requires
        call_ensures(pair_request_input, (params,), r),
        call_ensures(sanitize_items, (&params.commands,), tidy),
    ensures
        r is Ok <==> not_blank(params.node_id@),
        r is Ok ==> {
            let asked = r->Ok_0;
            &&& asked.node_id@ == trimmed(params.node_id@)
            &&& asked.display_name@ == (if is_given(params.display_name) {
                trimmed(params.display_name->0@)
            } else {
                trimmed(params.node_id@)
            })
            &&& asked.platform@ == (if is_given(params.platform) {
                trimmed(params.platform->0@)
            } else {
                "unknown"@
            })
            &&& asked.device_family is Some <==> is_given(params.device_family)
            &&& asked.device_family is Some ==> asked.device_family->0@ == trimmed(
                params.device_family->0@,
            )
            &&& asked.public_key is Some <==> is_given(params.public_key)
            &&& asked.public_key is Some ==> asked.public_key->0@ == trimmed(params.public_key->0@)
            &&& texts(asked.commands@) == texts(tidy@)
        },
{
    lemma_kept(params.node_id@);
    lemma_is_given(params.display_name);
    lemma_is_given(params.platform);
    lemma_is_given(params.device_family);
    lemma_is_given(params.public_key);
}

/// A node is verified exactly where it is paired and shows a token.
pub proof fn law_verified_nodes(
    node_id: &str,
    token: &Option<String>,
    node: &Option<NodeRecord>,
    r: Json,
)
    requires
        call_ensures(handle_pair_verify, (node_id, token, node), r),
    ensures
        member(r@, "nodeId"@) == Some(JsonModel::Text(node_id@)),
        member(r@, "paired"@) == Some(JsonModel::Bool(*node is Some && node->0.paired)),
        member(r@, "verified"@) == Some(
            JsonModel::Bool(*node is Some && node->0.paired && is_given(*token)),
        ),
{
    lemma_is_given(*token);
    reveal_strlit("ok");
    reveal_strlit("nodeId");
    reveal_strlit("paired");
    reveal_strlit("verified");
    assert("ok"@.len() != "nodeId"@.len());
    assert("ok"@.len() != "paired"@.len());
    assert("ok"@.len() != "verified"@.len());
    assert("nodeId"@[0] != "paired"@[0]);
    assert("nodeId"@.len() != "verified"@.len());
    assert("paired"@.len() != "verified"@.len());
}

/// A request is settled by its id, which must be given.
pub proof fn law_settled_requests(
    method: &str,
    request_id: &str,
    reason: &Option<String>,
    r: Result<(String, Option<String>), ErrorShape>,
)
    requires
        call_ensures(handle_pair_resolution, (method, request_id, reason), r),
    ensures
        r is Ok <==> not_blank(request_id@),
        r is Ok ==> r->Ok_0.0@ == trimmed(request_id@),
        r is Ok ==> (r->Ok_0.1 is Some <==> is_given(*reason)),
        r is Ok && is_given(*reason) ==> r->Ok_0.1->0@ == trimmed(reason->0@),
{
    lemma_kept(request_id@);
    lemma_is_given(*reason);
}

/// A node is renamed where it is named and its new name says something.
pub proof fn law_renaming(
    node_id: Option<String>,
    id: Option<String>,
    display_name: &str,
    r: Result<(String, String), ErrorShape>,
)
    requires
        call_ensures(rename_request, (node_id, id, display_name), r),
    ensures
        ({
            let name = if node_id is Some {
                node_id
            } else {
                id
            };
            &&& r is Ok <==> is_given(name) && not_blank(display_name@)
            &&& r is Ok ==> r->Ok_0.0@ == trimmed(name->0@) && r->Ok_0.1@ == trimmed(display_name@)
        }),
{
    lemma_is_given(node_id);
    lemma_is_given(id);
    lemma_kept(display_name@);
}

/// A node that is known is described as its record is, and one that is not is refused.
pub proof fn law_described_nodes(node: &Option<NodeRecord>, now: u64, r: Result<Json, ErrorShape>)
    requires
        call_ensures(handle_describe, (node, now), r),
    ensures
        r is Ok <==> *node is Some,
        r is Ok ==> {
            let told = r->Ok_0@;
            &&& member(told, "nodeId"@) == Some(JsonModel::Text(node->0.id@))
            &&& member(told, "displayName"@) == Some(JsonModel::Text(node->0.display_name@))
            &&& member(told, "platform"@) == Some(JsonModel::Text(node->0.platform@))
            &&& member(told, "paired"@) == Some(JsonModel::Bool(node->0.paired))
            &&& member(told, "status"@) == Some(JsonModel::Text(node->0.status@))
            &&& member(told, "lastSeenMs"@) == Some(JsonModel::Unsigned(node->0.last_seen_ms))
            &&& member(told, "metadata"@) == Some(node->0.metadata@)
            &&& member(told, "ts"@) == Some(JsonModel::Unsigned(now))
        },
{
    reveal_strlit("ts");
    reveal_strlit("nodeId");
    reveal_strlit("displayName");
    reveal_strlit("platform");
    reveal_strlit("deviceFamily");
    reveal_strlit("commands");
    reveal_strlit("paired");
    reveal_strlit("status");
    reveal_strlit("lastSeenMs");
    reveal_strlit("metadata");
    assert("ts"@.len() != "nodeId"@.len());
    assert("ts"@.len() != "displayName"@.len());
    assert("ts"@.len() != "platform"@.len());
    assert("ts"@.len() != "deviceFamily"@.len());
    assert("ts"@.len() != "commands"@.len());
    assert("ts"@.len() != "paired"@.len());
    assert("ts"@.len() != "status"@.len());
    assert("ts"@.len() != "lastSeenMs"@.len());
    assert("ts"@.len() != "metadata"@.len());
    assert("nodeId"@.len() != "displayName"@.len());
    assert("nodeId"@.len() != "platform"@.len());
    assert("nodeId"@.len() != "deviceFamily"@.len());
    assert("nodeId"@.len() != "commands"@.len());
    assert("nodeId"@[0] != "paired"@[0]);
    assert("nodeId"@[0] != "status"@[0]);
    assert("nodeId"@.len() != "lastSeenMs"@.len());
    assert("nodeId"@.len() != "metadata"@.len());
    assert("displayName"@.len() != "platform"@.len());
    assert("displayName"@.len() != "deviceFamily"@.len());
    assert("displayName"@.len() != "commands"@.len());
    assert("displayName"@.len() != "paired"@.len());
    assert("displayName"@.len() != "status"@.len());
    assert("displayName"@.len() != "lastSeenMs"@.len());
    assert("displayName"@.len() != "metadata"@.len());
    assert("platform"@.len() != "deviceFamily"@.len());
    assert("platform"@[0] != "commands"@[0]);
    assert("platform"@.len() != "paired"@.len());
    assert("platform"@.len() != "status"@.len());
    assert("platform"@.len() != "lastSeenMs"@.len());
    assert("platform"@[0] != "metadata"@[0]);
    assert("deviceFamily"@.len() != "commands"@.len());
    assert("deviceFamily"@.len() != "paired"@.len());
    assert("deviceFamily"@.len() != "status"@.len());
    assert("deviceFamily"@.len() != "lastSeenMs"@.len());
    assert("deviceFamily"@.len() != "metadata"@.len());
    assert("commands"@.len() != "paired"@.len());
    assert("commands"@.len() != "status"@.len());
    assert("commands"@.len() != "lastSeenMs"@.len());
    assert("commands"@[0] != "metadata"@[0]);
    assert("paired"@[0] != "status"@[0]);
    assert("paired"@.len() != "lastSeenMs"@.len());
    assert("paired"@.len() != "metadata"@.len());
    assert("status"@.len() != "lastSeenMs"@.len());
    assert("status"@.len() != "metadata"@.len());
    assert("lastSeenMs"@.len() != "metadata"@.len());
}

/// A command is sent to a node where both are named. It gets what it was given.
pub proof fn law_calls_of_nodes(params: NodeInvokeParams, tidy: Vec<String>, r: Result<NodeInvokeInput, ErrorShape>)
    requires
        call_ensures(invoke_input, (params,), r),
        call_ensures(sanitize_items, (&params.args,), tidy),
    ensures
        r is Ok <==> not_blank(params.node_id@) && not_blank(params.command@),
        r is Ok ==> {
            &&& r->Ok_0.node_id@ == trimmed(params.node_id@)
            &&& r->Ok_0.command@ == trimmed(params.command@)
            &&& texts(r->Ok_0.args@) == texts(tidy@)
            &&& r->Ok_0.input == params.input
        },
{
    lemma_kept(params.node_id@);
    lemma_kept(params.command@);
}

/// What a node answers to a command says for which request it is and how it went.
pub proof fn law_answers_of_nodes(request_id: &str, status: &str, r: Result<(String, String), ErrorShape>)
    requires
        call_ensures(handle_invoke_result, (request_id, status), r),
    ensures
        r is Ok <==> not_blank(request_id@) && not_blank(status@),
        r is Ok ==> r->Ok_0.0@ == trimmed(request_id@) && r->Ok_0.1@ == trimmed(status@),
{
    lemma_kept(request_id@);
    lemma_kept(status@);
}

/// An event is the node's that it names, and else that of the node which sends it.
pub proof fn law_events_of_nodes(
    node_id: &Option<String>,
    event: &str,
    session: &SessionContext,
    r: Result<(String, String), ErrorShape>,
)
    requires
        call_ensures(event_request, (node_id, event, session), r),
    ensures
        r is Ok <==> not_blank(event@) && (is_given(*node_id) || session.role@ == "node"@),
        r is Ok ==> r->Ok_0.1@ == trimmed(event@),
        r is Ok ==> r->Ok_0.0@ == (if is_given(*node_id) {
            trimmed(node_id->0@)
        } else {
            session.client_id@
        }),
{
    lemma_kept(event@);
    lemma_is_given(*node_id);
}

/// Nodes and requests are listed in their order, each as its record is.
pub proof fn law_nodes_are_listed(
    nodes: &Vec<NodeRecord>,
    requests: &Vec<NodePairRequestRecord>,
    now: u64,
    i: int,
    j: int,
    node: Json,
    request: Json,
    r: Json,
    pairs: Json,
)
    requires
        call_ensures(handle_list, (nodes, now), r),
        call_ensures(handle_pair_list, (requests, now), pairs),
        0 <= i < nodes@.len(),
        0 <= j < requests@.len(),
        call_ensures(NodeRecord::to_json, (&nodes@[i],), node),
        call_ensures(NodePairRequestRecord::to_json, (&requests@[j],), request),
    ensures
        member(r@, "nodes"@) matches Some(JsonModel::Array(items)) && items.len() == nodes@.len() && items[i]
            == node@,
        member(pairs@, "requests"@) matches Some(JsonModel::Array(items)) && items.len() == requests@.len()
            && items[j] == request@,
        member(r@, "ts"@) == Some(JsonModel::Unsigned(now)),
{
    reveal_strlit("ts");
    reveal_strlit("nodes");
    reveal_strlit("requests");
    assert("ts"@.len() != "nodes"@.len());
    assert("ts"@.len() != "requests"@.len());
    assert("nodes"@.len() != "requests"@.len());
}

} // verus!
