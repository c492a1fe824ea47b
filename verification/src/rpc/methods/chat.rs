//! Chats: messages that are sent, the history of a session, and runs that are called off.
use crate::domain::models::{chat_message_json, AgentRunRecord, ChatMessage, SessionRecord};
use crate::ids::{is_uuid_text, new_id};
use crate::json::{
    fields, member, models, no_fields, object, set_field, text, text_array, text_of, texts_json,
    Json, JsonModel,
};
use crate::protocol::errors::{invalid, invalid_request, ErrorModel, ErrorShape};
use crate::rpc::methods::agent::{
    are_turns, echo, ensure_session_exists, is_over, is_terminal_status, stores_session, turns,
};
use crate::text::{
    cat, contains_char, either, first_of, kept, kept_opt, lemma_kept, not_blank, opt_text, or_text, same, text_or, texts,
    trim_non_empty, trim_non_empty_opt, trimmed,
};
use vstd::prelude::*;

verus! {

broadcast use vstd::seq::group_seq_axioms;

// ---------------------------------------------------------------------------------------------
// The method `chat.send`
// ---------------------------------------------------------------------------------------------
/// What is sent.
pub struct ChatSendParams {
    pub session_key: Option<String>,
    pub session_id: Option<String>,
    pub message: String,
    pub idempotency_key: Option<String>,
    pub deferred: Option<bool>,
}

/// A message that is sent to a session.
pub struct ChatSendRequest {
    pub session_key: String,
    pub message: String,
    pub run_id: String,
    pub deferred: bool,
}

/// The session that is named: by its key, or by its id.
pub open spec fn named_session(key: Option<Seq<char>>, id: Option<Seq<char>>) -> Option<Seq<char>> {
    kept_opt(first_of(key, id))
}

/// The session that is named, or a refusal.
pub fn resolve_session_key(key: Option<String>, id: Option<String>) -> (r: Result<
    String,
    ErrorShape,
>)
    ensures
        match named_session(opt_text(key), opt_text(id)) {
            Some(s) => r is Ok && r->Ok_0@ == s,
            None => r is Err && r->Err_0@ == invalid(
                "invalid chat params: sessionKey is required"@,
            ),
        },
{
    match trim_non_empty_opt(&either(key, id)) {
        Some(s) => Ok(s),
        None => Err(invalid_request("invalid chat params: sessionKey is required")),
    }
}

/// What is sent of a message, or why nothing is.
pub open spec fn sendable(input: Seq<char>) -> Result<Seq<char>, ErrorModel> {
    if input.contains('\0') {
        Err(invalid("invalid chat.send params: message contains null bytes"@))
    } else {
        match kept(input) {
            Some(message) => Ok(message),
            None => Err(invalid("invalid chat.send params: message or attachment required"@)),
        }
    }
}

/// What is sent of a message.
pub fn sanitize_chat_message(input: &str) -> (r: Result<String, ErrorShape>)
    ensures
        match sendable(input@) {
            Ok(message) => r is Ok && r->Ok_0@ == message,
            Err(error) => r is Err && r->Err_0@ == error,
        },
{
    if contains_char(input, '\0') {
        return Err(
            invalid_request("invalid chat.send params: message contains null bytes"),
        );
    }
    match trim_non_empty(input) {
        Some(message) => Ok(message),
        None => Err(
            invalid_request("invalid chat.send params: message or attachment required"),
        ),
    }
}

/// A message that is sent to a session; a run that is not named has the given id.
pub fn chat_send_request_with(params: ChatSendParams, id: &str) -> (r: Result<
    ChatSendRequest,
    ErrorShape,
>)
    ensures
        sends(r, params, id@),
{
    let session_key = resolve_session_key(params.session_key, params.session_id)?;
    let message = sanitize_chat_message(params.message.as_str())?;
    let deferred: bool = match params.deferred {
        Some(deferred) => deferred,
        None => false,
    };
    let fallback = cat("chat-", id);
    let run_id = or_text(trim_non_empty_opt(&params.idempotency_key), fallback.as_str());
    Ok(ChatSendRequest { session_key, message, run_id, deferred })
}

/// What the parameters of `chat.send` mean.
pub open spec fn sends(
    r: Result<ChatSendRequest, ErrorShape>,
    params: ChatSendParams,
    id: Seq<char>,
) -> bool {
    let session = named_session(opt_text(params.session_key), opt_text(params.session_id));
    match (session, sendable(params.message@)) {
        (None, _) => r is Err && r->Err_0@ == invalid(
            "invalid chat params: sessionKey is required"@,
        ),
        (Some(_), Err(error)) => r is Err && r->Err_0@ == error,
        (Some(key), Ok(message)) => {
            &&& r is Ok
            &&& r->Ok_0.session_key@ == key
            &&& r->Ok_0.message@ == message
            &&& r->Ok_0.run_id@ == text_or(
                kept_opt(opt_text(params.idempotency_key)),
                "chat-"@ + id,
            )
            &&& r->Ok_0.deferred == (params.deferred == Some(true))
        },
    }
}

/// A message that is sent to a session; a run that is not named has a fresh id.
pub fn chat_send_request(params: ChatSendParams) -> (r: Result<ChatSendRequest, ErrorShape>)
    ensures
        exists|id: Seq<char>| #[trigger] is_uuid_text(id) && sends(r, params, id),
{
    let id = new_id();
    assert(is_uuid_text(id@));
    chat_send_request_with(params, id.as_str())
}

/// What is answered to a message that is sent.
pub open spec fn send_answer(
    run_id: Seq<char>,
    status: Seq<char>,
    session_key: Seq<char>,
    message: JsonModel,
) -> JsonModel {
    JsonModel::Object(
        no_fields().insert("runId"@, JsonModel::Text(run_id)).insert(
            "status"@,
            JsonModel::Text(status),
        ).insert("sessionKey"@, JsonModel::Text(session_key)).insert("message"@, message),
    )
}

fn send_reply(run_id: &str, status: &str, session_key: &str, message: Json) -> (r: Json)
    ensures
        r@ == send_answer(run_id@, status@, session_key@, message@),
{
    let mut o = object();
    set_field(&mut o, "runId", text(run_id));
    set_field(&mut o, "status", text(status));
    set_field(&mut o, "sessionKey", text(session_key));
    set_field(&mut o, "message", message);
    Json::Object(o)
}

/// What is answered where there is already a run of the id: a refusal where another method or
/// session has it, and else how it stands.
pub open spec fn existing_chat_answer(existing: AgentRunRecord, session_key: Seq<char>) -> Result<
    JsonModel,
    ErrorModel,
> {
    let source = text_of(member(existing.metadata@, "source"@));
    if source is Some && source->0 != "chat.send"@ {
        Err(
            invalid(
                "invalid chat.send params: idempotency key already used by another method"@,
            ),
        )
    } else if existing.session_key is Some && existing.session_key->0@ != session_key {
        Err(
            invalid(
                "invalid chat.send params: idempotency key already used with a different sessionKey"@,
            ),
        )
    } else {
        Ok(
            send_answer(
                existing.id@,
                existing.status@,
                text_or(opt_text(existing.session_key), session_key),
                if existing.status@ == "completed"@ || existing.status@ == "error"@ {
                    JsonModel::Text(existing.output@)
                } else {
                    JsonModel::Null
                },
            ),
        )
    }
}

/// What is answered where there is already a run of the id.
pub fn resolve_existing_chat_run(existing: AgentRunRecord, session_key: &str) -> (r: Result<
    Json,
    ErrorShape,
>)
    ensures
        match existing_chat_answer(existing, session_key@) {
            Ok(answer) => r is Ok && r->Ok_0@ == answer,
            Err(error) => r is Err && r->Err_0@ == error,
        },
{
    if let Some(source) = existing.metadata.get_text("source") {
        if !same(source.as_str(), "chat.send") {
            return Err(
                invalid_request(
                    "invalid chat.send params: idempotency key already used by another method",
                ),
            );
        }
    }
    if let Some(key) = &existing.session_key {
        if !same(key.as_str(), session_key) {
            return Err(
                invalid_request(
                    "invalid chat.send params: idempotency key already used with a different sessionKey",
                ),
            );
        }
    }
    let message = if same(existing.status.as_str(), "completed") || same(
        existing.status.as_str(),
        "error",
    ) {
        text(existing.output.as_str())
    } else {
        Json::Null
    };
    let key = or_text(existing.session_key, session_key);
    Ok(send_reply(existing.id.as_str(), existing.status.as_str(), key.as_str(), message))
}

/// The data beside the run of a message.
pub open spec fn chat_metadata(deferred: bool, conn_id: Seq<char>) -> JsonModel {
    JsonModel::Object(
        no_fields().insert("source"@, JsonModel::Text("chat.send"@)).insert(
            "deferred"@,
            JsonModel::Bool(deferred),
        ).insert("originConnId"@, JsonModel::Text(conn_id)),
    )
}

/// The run of a message that is sent.
pub open spec fn is_chat_run(
    run: AgentRunRecord,
    request: ChatSendRequest,
    conn_id: Seq<char>,
    now: u64,
) -> bool {
    &&& run.id@ == request.run_id@
    &&& run.agent_id@ == "main"@
    &&& run.input@ == request.message@
    &&& run.output@ == (if request.deferred {
        ""@
    } else {
        echo(request.message@)
    })
    &&& run.status@ == (if request.deferred {
        "queued"@
    } else {
        "completed"@
    })
    &&& opt_text(run.session_key) == Some(request.session_key@)
    &&& run.metadata@ == chat_metadata(request.deferred, conn_id)
    &&& run.created_at_ms == now
    &&& run.updated_at_ms == now
    &&& run.completed_at_ms == (if request.deferred {
        None
    } else {
        Some(now)
    })
}

/// What connections are told when a message was answered.
pub open spec fn chat_final_event(
    run_id: Seq<char>,
    session_key: Seq<char>,
    reply: Seq<char>,
    timestamp: u64,
) -> JsonModel {
    let part = JsonModel::Object(
        no_fields().insert("type"@, JsonModel::Text("text"@)).insert(
            "text"@,
            JsonModel::Text(reply),
        ),
    );
    JsonModel::Object(
        no_fields().insert("runId"@, JsonModel::Text(run_id)).insert(
            "sessionKey"@,
            JsonModel::Text(session_key),
        ).insert("state"@, JsonModel::Text("final"@)).insert("seq"@, JsonModel::Unsigned(1)).insert(
            "message"@,
            JsonModel::Object(
                no_fields().insert("role"@, JsonModel::Text("assistant"@)).insert(
                    "content"@,
                    JsonModel::Array(seq![part]),
                ).insert("timestamp"@, JsonModel::Unsigned(timestamp)),
            ),
        ),
    )
}

/// What connections are told when a message was answered.
pub fn chat_final(run_id: &str, session_key: &str, reply: &str, timestamp: u64) -> (r: Json)
    ensures
        r@ == chat_final_event(run_id@, session_key@, reply@, timestamp),
{
    let mut part = object();
    set_field(&mut part, "type", text("text"));
    set_field(&mut part, "text", text(reply));
    let parts = vec![Json::Object(part)];
    proof {
        crate::json::lemma_models(parts@);
        assert(models(parts@) =~= seq![JsonModel::Object(fields(part))]);
    }
    let mut message = object();
    set_field(&mut message, "role", text("assistant"));
    set_field(&mut message, "content", Json::Array(parts));
    set_field(&mut message, "timestamp", Json::Unsigned(timestamp));
    let mut o = object();
    set_field(&mut o, "runId", text(run_id));
    set_field(&mut o, "sessionKey", text(session_key));
    set_field(&mut o, "state", text("final"));
    set_field(&mut o, "seq", Json::Unsigned(1));
    set_field(&mut o, "message", Json::Object(message));
    Json::Object(o)
}

/// What is stored, told and answered when a message is sent: the session where it is new, the
/// messages, the run, the event for the sender's connection, and the answer, in that order.
pub struct ChatSend {
    pub session: Option<SessionRecord>,
    pub messages: Vec<ChatMessage>,
    pub run: Option<AgentRunRecord>,
    pub event: Option<Json>,
    pub answer: Json,
}

/// What is done for a message whose run is new.
pub open spec fn is_sent(
    send: ChatSend,
    request: ChatSendRequest,
    conn_id: Seq<char>,
    known_session: bool,
    now: u64,
    first_id: Seq<char>,
    second_id: Seq<char>,
) -> bool {
    &&& stores_session(send.session, request.session_key@, known_session, now)
    &&& send.run is Some
    &&& is_chat_run(send.run->0, request, conn_id, now)
    &&& if request.deferred {
        &&& send.messages@.len() == 0
        &&& send.event is None
        &&& send.answer@ == send_answer(
            request.run_id@,
            "queued"@,
            request.session_key@,
            JsonModel::Null,
        )
    } else {
        &&& are_turns(
            send.messages@,
            request.message@,
            now,
            request.run_id@,
            first_id,
            second_id,
        )
        &&& send.event is Some
        &&& send.event->0@ == chat_final_event(
            request.run_id@,
            request.session_key@,
            echo(request.message@),
            now,
        )
        &&& send.answer@ == send_answer(
            request.run_id@,
            "completed"@,
            request.session_key@,
            JsonModel::Text(echo(request.message@)),
        )
    }
}

/// What is done for a message, from the run of its id and whether there is its session.
pub fn handle_send(
    request: ChatSendRequest,
    conn_id: &str,
    existing: Option<AgentRunRecord>,
    known_session: bool,
    now: u64,
    first_id: &str,
    second_id: &str,
) -> (r: Result<ChatSend, ErrorShape>)
    ensures
        match existing {
            Some(run) => match existing_chat_answer(run, request.session_key@) {
                Ok(answer) => {
                    &&& r is Ok
                    &&& r->Ok_0.answer@ == answer
                    &&& r->Ok_0.session is None
                    &&& r->Ok_0.messages@.len() == 0
                    &&& r->Ok_0.run is None
                    &&& r->Ok_0.event is None
                },
                Err(error) => r is Err && r->Err_0@ == error,
            },
            None => r is Ok && is_sent(
                r->Ok_0,
                request,
                conn_id@,
                known_session,
                now,
                first_id@,
                second_id@,
            ),
        },
{
    if let Some(run) = existing {
        return match resolve_existing_chat_run(run, request.session_key.as_str()) {
            Ok(answer) => Ok(
                ChatSend {
                    session: None,
                    messages: Vec::new(),
                    run: None,
                    event: None,
                    answer,
                },
            ),
            Err(error) => Err(error),
        };
    }
    let session = ensure_session_exists(request.session_key.as_str(), known_session, now);
    let mut metadata = object();
    set_field(&mut metadata, "source", text("chat.send"));
    set_field(&mut metadata, "deferred", Json::Bool(request.deferred));
    set_field(&mut metadata, "originConnId", text(conn_id));
    if request.deferred {
        let answer = send_reply(
            request.run_id.as_str(),
            "queued",
            request.session_key.as_str(),
            Json::Null,
        );
        let run = AgentRunRecord {
            id: request.run_id,
            agent_id: "main".to_owned(),
            input: request.message,
            output: "".to_owned(),
            status: "queued".to_owned(),
            session_key: Some(request.session_key),
            metadata: Json::Object(metadata),
            created_at_ms: now,
            updated_at_ms: now,
            completed_at_ms: None,
        };
        return Ok(
            ChatSend { session, messages: Vec::new(), run: Some(run), event: None, answer },
        );
    }
    let reply = cat("Echo: ", request.message.as_str());
    let messages = turns(
        request.message.as_str(),
        now,
        request.run_id.as_str(),
        first_id,
        second_id,
    );
    let event = chat_final(
        request.run_id.as_str(),
        request.session_key.as_str(),
        reply.as_str(),
        now,
    );
    let answer = send_reply(
        request.run_id.as_str(),
        "completed",
        request.session_key.as_str(),
        text(reply.as_str()),
    );
    let run = AgentRunRecord {
        id: request.run_id,
        agent_id: "main".to_owned(),
        input: request.message,
        output: reply,
        status: "completed".to_owned(),
        session_key: Some(request.session_key),
        metadata: Json::Object(metadata),
        created_at_ms: now,
        updated_at_ms: now,
        completed_at_ms: Some(now),
    };
    Ok(ChatSend { session, messages, run: Some(run), event: Some(event), answer })
}

// ---------------------------------------------------------------------------------------------
// The method `chat.history`
// ---------------------------------------------------------------------------------------------
/// Which messages are asked for.
pub struct ChatHistoryParams {
    pub session_key: Option<String>,
    pub session_id: Option<String>,
    pub limit: Option<usize>,
}

/// How many messages are listed at most, where that is limited: from one to a thousand.
pub open spec fn history_limit(limit: Option<usize>) -> Option<usize> {
    match limit {
        None => None,
        Some(n) => Some(
            if n < 1 {
                1
            } else if n > 1_000 {
                1_000
            } else {
                n
            },
        ),
    }
}

/// The session whose messages are asked for, and how many of them at most.
pub fn history_request(params: ChatHistoryParams) -> (r: Result<
    (String, Option<usize>),
    ErrorShape,
>)
    ensures
        match named_session(opt_text(params.session_key), opt_text(params.session_id)) {
            Some(key) => r is Ok && r->Ok_0.0@ == key && r->Ok_0.1 == history_limit(params.limit),
            None => r is Err && r->Err_0@ == invalid(
                "invalid chat params: sessionKey is required"@,
            ),
        },
{
    let key = resolve_session_key(params.session_key, params.session_id)?;
    let limit: Option<usize> = match params.limit {
        None => None,
        Some(n) => Some(
            if n < 1 {
                1
            } else if n > 1_000 {
                1_000
            } else {
                n
            },
        ),
    };
    Ok((key, limit))
}

/// Messages as JSON.
pub open spec fn messages_json(messages: Seq<ChatMessage>) -> Seq<JsonModel> {
    messages.map_values(|m: ChatMessage| chat_message_json(m))
}

/// Messages as JSON.
pub fn messages_to_json(messages: &Vec<ChatMessage>) -> (r: Json)
    ensures
        r@ == JsonModel::Array(messages_json(messages@)),
{
    let mut out: Vec<Json> = Vec::new();
    let mut i: usize = 0;
    while i < messages.len()
        invariant
            i <= messages@.len(),
            out@.len() == i,
            forall|k: int|
                0 <= k < i ==> (#[trigger] out@[k])@ == chat_message_json(messages@[k]),
        decreases messages@.len() - i,
    {
        out.push(messages[i].to_json());
        i = i + 1;
    }
    proof {
        crate::json::lemma_models(out@);
        assert(models(out@) =~= messages_json(messages@));
    }
    Json::Array(out)
}

/// The messages of a session.
pub fn handle_history(session_key: &str, messages: &Vec<ChatMessage>) -> (r: Json)
    ensures
        r@ == JsonModel::Object(
            no_fields().insert("sessionKey"@, JsonModel::Text(session_key@)).insert(
                "sessionId"@,
                JsonModel::Text(session_key@),
            ).insert("messages"@, JsonModel::Array(messages_json(messages@))),
        ),
{
    let mut o = object();
    set_field(&mut o, "sessionKey", text(session_key));
    set_field(&mut o, "sessionId", text(session_key));
    set_field(&mut o, "messages", messages_to_json(messages));
    Json::Object(o)
}

// ---------------------------------------------------------------------------------------------
// The method `chat.abort`
// ---------------------------------------------------------------------------------------------
/// What is called off.
pub struct ChatAbortParams {
    pub session_key: Option<String>,
    pub session_id: Option<String>,
    pub run_id: Option<String>,
}

/// The session of what is called off, and the run, where one is named.
pub fn abort_request(params: ChatAbortParams) -> (r: (String, Option<String>))
    ensures
        r.0@ == text_or(
            named_session(opt_text(params.session_key), opt_text(params.session_id)),
            "agent:main:main"@,
        ),
        opt_text(r.1) == kept_opt(opt_text(params.run_id)),
{
    let run_id = trim_non_empty_opt(&params.run_id);
    let named = trim_non_empty_opt(&either(params.session_key, params.session_id));
    (or_text(named, "agent:main:main"), run_id)
}

/// The data beside a run that was called off.
pub open spec fn aborted_metadata(metadata: JsonModel, now: u64) -> JsonModel {
    match metadata {
        JsonModel::Object(m) => JsonModel::Object(
            m.insert("abortedBy"@, JsonModel::Text("chat.abort"@)).insert(
                "abortedAtMs"@,
                JsonModel::Unsigned(now),
            ),
        ),
        other => other,
    }
}

/// The run after it was called off.
pub open spec fn is_aborted(new: AgentRunRecord, old: AgentRunRecord, now: u64) -> bool {
    &&& new == (AgentRunRecord {
        status: new.status,
        output: new.output,
        metadata: new.metadata,
        updated_at_ms: now,
        completed_at_ms: Some(now),
        ..old
    })
    &&& new.status@ == "aborted"@
    &&& new.output@ == (if kept(old.output@) is None {
        "aborted by chat.abort"@
    } else {
        old.output@
    })
    &&& new.metadata@ == aborted_metadata(old.metadata@, now)
}

/// The run after it was called off.
pub fn abort_run(run: AgentRunRecord, now: u64) -> (r: AgentRunRecord)
    ensures
        is_aborted(r, run, now),
{
    let output = if trim_non_empty(run.output.as_str()).is_none() {
        "aborted by chat.abort".to_owned()
    } else {
        run.output
    };
    let metadata = match run.metadata {
        Json::Object(m) => {
            let mut m = m;
            set_field(&mut m, "abortedBy", text("chat.abort"));
            set_field(&mut m, "abortedAtMs", Json::Unsigned(now));
            Json::Object(m)
        },
        other => other,
    };
    AgentRunRecord {
        id: run.id,
        agent_id: run.agent_id,
        input: run.input,
        output,
        status: "aborted".to_owned(),
        session_key: run.session_key,
        metadata,
        created_at_ms: run.created_at_ms,
        updated_at_ms: now,
        completed_at_ms: Some(now),
    }
}

/// The ids of the runs that are not over.
pub open spec fn open_ids(runs: Seq<AgentRunRecord>) -> Seq<Seq<char>>
    decreases runs.len(),
{
    if runs.len() == 0 {
        Seq::empty()
    } else if is_over(runs.last().status@) {
        open_ids(runs.drop_last())
    } else {
        open_ids(runs.drop_last()).push(runs.last().id@)
    }
}

/// What is answered when runs are called off.
pub open spec fn abort_answer(
    aborted: bool,
    session_key: Seq<char>,
    run_ids: Seq<Seq<char>>,
) -> JsonModel {
    JsonModel::Object(
        no_fields().insert("ok"@, JsonModel::Bool(true)).insert(
            "aborted"@,
            JsonModel::Bool(aborted),
        ).insert("sessionKey"@, JsonModel::Text(session_key)).insert(
            "runIds"@,
            text_array(run_ids),
        ),
    )
}

fn abort_reply(aborted: bool, session_key: &str, run_ids: &Vec<String>) -> (r: Json)
    ensures
        r@ == abort_answer(aborted, session_key@, texts(run_ids@)),
{
    let mut o = object();
    set_field(&mut o, "ok", Json::Bool(true));
    set_field(&mut o, "aborted", Json::Bool(aborted));
    set_field(&mut o, "sessionKey", text(session_key));
    set_field(&mut o, "runIds", texts_json(run_ids));
    Json::Object(o)
}

/// The runs that are not over, in their order, called off.
pub open spec fn are_aborted(
    aborted: Seq<AgentRunRecord>,
    runs: Seq<AgentRunRecord>,
    now: u64,
) -> bool
    decreases runs.len(),
{
    if runs.len() == 0 {
        aborted.len() == 0
    } else if is_over(runs.last().status@) {
        are_aborted(aborted, runs.drop_last(), now)
    } else {
        &&& aborted.len() > 0
        &&& is_aborted(aborted.last(), runs.last(), now)
        &&& are_aborted(aborted.drop_last(), runs.drop_last(), now)
    }
}

/// Calls off all runs of a session that are not over: the runs to store, and the answer.
pub fn abort_session(session_key: &str, runs: Vec<AgentRunRecord>, now: u64) -> (r: (
    Vec<AgentRunRecord>,
    Json,
))
    ensures
        are_aborted(r.0@, runs@, now),
        r.1@ == abort_answer(open_ids(runs@).len() > 0, session_key@, open_ids(runs@)),
{
    let ghost all = runs@;
    let n: usize = runs.len();
    let mut rest = runs;
    let mut back: Vec<AgentRunRecord> = Vec::new();
    let mut i: usize = 0;
    // The runs are taken from the end; a second pass puts them in their order.
    while i < n
        invariant
            i <= n,
            n == all.len(),
            rest@ == all.take(n - i),
            back@ == all.skip(n - i).reverse(),
        decreases n - i,
    {
        match rest.pop() {
            Some(run) => {
                back.push(run);
            },
            None => {},
        }
        i = i + 1;
        assert(rest@ =~= all.take(n - i));
        assert(back@ =~= all.skip(n - i).reverse());
    }
    let mut out: Vec<AgentRunRecord> = Vec::new();
    let mut ids: Vec<String> = Vec::new();
    let mut k: usize = 0;
    assert(back@ =~= all.reverse());
    assert(back@ =~= all.skip(0).reverse());
    assert(texts(ids@) =~= open_ids(all.take(0)));
    while k < n
        invariant
            k <= n,
            n == all.len(),
            back@ == all.skip(k as int).reverse(),
            are_aborted(out@, all.take(k as int), now),
            texts(ids@) == open_ids(all.take(k as int)),
        decreases n - k,
    {
        let ghost before = out@;
        let ghost ids_before = ids@;
        proof {
            let t = all.take(k + 1);
            assert(t.drop_last() =~= all.take(k as int));
            assert(t.last() == all[k as int]);
        }
        match back.pop() {
            Some(run) => {
                assert(run == all[k as int]);
                if !is_terminal_status(run.status.as_str()) {
                    ids.push(run.id.clone());
                    out.push(abort_run(run, now));
                    assert(out@.drop_last() =~= before);
                    assert(texts(ids@) =~= texts(ids_before).push(all[k as int].id@));
                }
            },
            None => {},
        }
        k = k + 1;
        assert(back@ =~= all.skip(k as int).reverse());
    }
    assert(all.take(k as int) =~= all);
    assert(texts(ids@).len() == ids@.len());
    let any: bool = ids.len() > 0;
    let answer = abort_reply(any, session_key, &ids);
    (out, answer)
}

/// Calls off one run, from what is stored under its id: the run to store, and the answer.
pub fn handle_abort(
    session_key: &str,
    run_id: &str,
    found: Option<AgentRunRecord>,
    now: u64,
) -> (r: Result<(Option<AgentRunRecord>, Json), ErrorShape>)
    ensures
        match found {
            Some(run) => if run.session_key is Some && run.session_key->0@ != session_key@ {
                r is Err && r->Err_0@ == invalid(
                    "invalid chat.abort params: runId does not belong to sessionKey"@,
                )
            } else if is_over(run.status@) {
                r is Ok && r->Ok_0.0 is None && r->Ok_0.1@ == abort_answer(
                    false,
                    session_key@,
                    seq![run_id@],
                )
            } else {
                r is Ok && r->Ok_0.0 is Some && is_aborted(r->Ok_0.0->0, run, now) && r->Ok_0.1@
                    == abort_answer(true, session_key@, seq![run_id@])
            },
            None => r is Ok && r->Ok_0.0 is None && r->Ok_0.1@ == abort_answer(
                false,
                session_key@,
                seq![run_id@],
            ),
        },
{
    let ids = vec![run_id.to_owned()];
    assert(texts(ids@) =~= seq![run_id@]);
    let run = match found {
        Some(run) => run,
        None => {
            return Ok((None, abort_reply(false, session_key, &ids)));
        },
    };
    if let Some(key) = &run.session_key {
        if !same(key.as_str(), session_key) {
            return Err(
                invalid_request("invalid chat.abort params: runId does not belong to sessionKey"),
            );
        }
    }
    if is_terminal_status(run.status.as_str()) {
        return Ok((None, abort_reply(false, session_key, &ids)));
    }
    Ok((Some(abort_run(run, now)), abort_reply(true, session_key, &ids)))
}

// ---------------------------------------------------------------------------------------------
// Laws
// ---------------------------------------------------------------------------------------------
/// A message that is sent again under its key gives the answer that it gave at first, and nothing
/// is stored or told again.
pub proof fn law_sending_again_gives_the_same_answer(
    first: ChatSend,
    request: ChatSendRequest,
    conn_id: Seq<char>,
    known_session: bool,
    now: u64,
    first_id: Seq<char>,
    second_id: Seq<char>,
)
    requires
        is_sent(first, request, conn_id, known_session, now, first_id, second_id),
    ensures
        existing_chat_answer(first.run->0, request.session_key@) == Ok::<JsonModel, ErrorModel>(
            first.answer@,
        ),
{
    reveal_strlit("queued");
    reveal_strlit("completed");
    reveal_strlit("error");
    assert("queued"@.len() == 6 && "completed"@.len() == 9 && "error"@.len() == 5);
    reveal_strlit("source");
    reveal_strlit("deferred");
    reveal_strlit("originConnId");
    assert("source"@.len() == 6 && "deferred"@.len() == 8 && "originConnId"@.len() == 12);
    assert(member(chat_metadata(request.deferred, conn_id), "source"@) == Some(
        JsonModel::Text("chat.send"@),
    ));
}

/// A run that was called off is over: calling it off again changes nothing.
pub proof fn law_aborted_runs_are_over(new: AgentRunRecord, old: AgentRunRecord, now: u64)
    requires
        is_aborted(new, old, now),
    ensures
        is_over(new.status@),
{
}

/// A run that was called off keeps what it had put out.
pub proof fn law_aborting_keeps_output(new: AgentRunRecord, old: AgentRunRecord, now: u64)
    requires
        is_aborted(new, old, now),
        kept(old.output@) is Some,
    ensures
        new.output@ == old.output@,
{
}

/// After all runs of a session were called off none of those that are stored is open.
pub proof fn law_aborting_leaves_none_open(
    aborted: Seq<AgentRunRecord>,
    runs: Seq<AgentRunRecord>,
    now: u64,
)
    requires
        are_aborted(aborted, runs, now),
    ensures
        open_ids(aborted).len() == 0,
        aborted.len() == open_ids(runs).len(),
    decreases runs.len(),
{
    if runs.len() > 0 {
        if is_over(runs.last().status@) {
            law_aborting_leaves_none_open(aborted, runs.drop_last(), now);
        } else {
            law_aborting_leaves_none_open(aborted.drop_last(), runs.drop_last(), now);
        }
    }
}

/// A message is sent where a session is named and the message says something and holds no null
/// character. It goes out as it is but for the white space around it, under the key that is
/// given or else a new one.
pub proof fn law_messages_that_are_sent(
    params: ChatSendParams,
    id: &str,
    r: Result<ChatSendRequest, ErrorShape>,
)
    requires
        call_ensures(chat_send_request_with, (params, id), r),
    ensures
        ({
            let session = if params.session_key is Some {
                params.session_key
            } else {
                params.session_id
            };
            &&& r is Ok <==> session is Some && not_blank(session->0@) && not_blank(params.message@)
                && !params.message@.contains('\0')
            &&& r is Err ==> r->Err_0.code@ == "INVALID_REQUEST"@
            &&& r is Ok ==> {
                &&& r->Ok_0.session_key@ == trimmed(session->0@)
                &&& r->Ok_0.message@ == trimmed(params.message@)
                &&& r->Ok_0.deferred <==> params.deferred == Some(true)
                &&& r->Ok_0.run_id@ == (if params.idempotency_key is Some && not_blank(
                    params.idempotency_key->0@,
                ) {
                    trimmed(params.idempotency_key->0@)
                } else {
                    "chat-"@ + id@
                })
            }
        }),
{
    lemma_kept(params.message@);
    if params.session_key is Some {
        lemma_kept(params.session_key->0@);
    }
    if params.session_id is Some {
        lemma_kept(params.session_id->0@);
    }
    if params.idempotency_key is Some {
        lemma_kept(params.idempotency_key->0@);
    }
}

/// A message that is sent at once is stored with its answer behind it, and the answer that comes
/// back is the one that is stored and told. One that is put off leaves only a run that waits.
pub proof fn law_what_sending_leaves(
    request: ChatSendRequest,
    conn_id: &str,
    known_session: bool,
    now: u64,
    first_id: &str,
    second_id: &str,
    r: Result<ChatSend, ErrorShape>,
)
    requires
        call_ensures(
            handle_send,
            (request, conn_id, None, known_session, now, first_id, second_id),
            r,
        ),
    ensures
        ({
            let sent = r->Ok_0;
            let run = sent.run->0;
            let said = "Echo: "@ + request.message@;
            &&& r is Ok && sent.run is Some
            &&& sent.session is Some <==> !known_session
            &&& sent.session is Some ==> sent.session->0.id@ == request.session_key@
            &&& run.id@ == request.run_id@ && run.input@ == request.message@ && run.agent_id@
                == "main"@
            &&& run.session_key is Some && run.session_key->0@ == request.session_key@
            &&& run.created_at_ms == now
            &&& member(run.metadata@, "source"@) == Some(JsonModel::Text("chat.send"@))
            &&& member(run.metadata@, "originConnId"@) == Some(JsonModel::Text(conn_id@))
            &&& member(sent.answer@, "runId"@) == Some(JsonModel::Text(request.run_id@))
            &&& member(sent.answer@, "sessionKey"@) == Some(JsonModel::Text(request.session_key@))
            &&& request.deferred ==> {
                &&& sent.messages@.len() == 0 && sent.event is None
                &&& run.status@ == "queued"@ && run.output@.len() == 0 && run.completed_at_ms is None
                &&& member(sent.answer@, "status"@) == Some(JsonModel::Text("queued"@))
                &&& member(sent.answer@, "message"@) == Some(JsonModel::Null)
            }
            &&& !request.deferred ==> {
                &&& sent.messages@.len() == 2 && sent.event is Some
                &&& sent.messages@[0].role@ == "user"@ && sent.messages@[0].text@ == request.message@
                &&& sent.messages@[1].role@ == "assistant"@ && sent.messages@[1].text@ == said
                &&& sent.messages@[0].ts == now && sent.messages@[1].ts >= now
                &&& run.status@ == "completed"@ && run.output@ == said && run.completed_at_ms == Some(now)
                &&& member(sent.answer@, "status"@) == Some(JsonModel::Text("completed"@))
                &&& member(sent.answer@, "message"@) == Some(JsonModel::Text(said))
                &&& member(sent.event->0@, "runId"@) == Some(JsonModel::Text(request.run_id@))
                &&& member(sent.event->0@, "sessionKey"@) == Some(JsonModel::Text(request.session_key@))
                &&& member(sent.event->0@, "state"@) == Some(JsonModel::Text("final"@))
            }
        }),
{
    reveal_strlit("");
    reveal_strlit("runId");
    reveal_strlit("status");
    reveal_strlit("sessionKey");
    reveal_strlit("message");
    reveal_strlit("source");
    reveal_strlit("deferred");
    reveal_strlit("originConnId");
    reveal_strlit("state");
    reveal_strlit("seq");
    assert("runId"@.len() != "status"@.len());
    assert("runId"@.len() != "sessionKey"@.len());
    assert("runId"@.len() != "message"@.len());
    assert("runId"@.len() != "source"@.len());
    assert("runId"@.len() != "deferred"@.len());
    assert("runId"@.len() != "originConnId"@.len());
    assert("runId"@[0] != "state"@[0]);
    assert("runId"@.len() != "seq"@.len());
    assert("status"@.len() != "sessionKey"@.len());
    assert("status"@.len() != "message"@.len());
    assert("status"@[1] != "source"@[1]);
    assert("status"@.len() != "deferred"@.len());
    assert("status"@.len() != "originConnId"@.len());
    assert("status"@.len() != "state"@.len());
    assert("status"@.len() != "seq"@.len());
    assert("sessionKey"@.len() != "message"@.len());
    assert("sessionKey"@.len() != "source"@.len());
    assert("sessionKey"@.len() != "deferred"@.len());
    assert("sessionKey"@.len() != "originConnId"@.len());
    assert("sessionKey"@.len() != "state"@.len());
    assert("sessionKey"@.len() != "seq"@.len());
    assert("message"@.len() != "source"@.len());
    assert("message"@.len() != "deferred"@.len());
    assert("message"@.len() != "originConnId"@.len());
    assert("message"@.len() != "state"@.len());
    assert("message"@.len() != "seq"@.len());
    assert("source"@.len() != "deferred"@.len());
    assert("source"@.len() != "originConnId"@.len());
    assert("source"@.len() != "state"@.len());
    assert("source"@.len() != "seq"@.len());
    assert("deferred"@.len() != "originConnId"@.len());
    assert("deferred"@.len() != "state"@.len());
    assert("deferred"@.len() != "seq"@.len());
    assert("originConnId"@.len() != "state"@.len());
    assert("originConnId"@.len() != "seq"@.len());
    assert("state"@.len() != "seq"@.len());
}

/// A key that was used before gives the run of then and stores nothing, unless it was used in
/// another session or by another method.
pub proof fn law_keys_are_used_once(
    request: ChatSendRequest,
    conn_id: &str,
    run: AgentRunRecord,
    known_session: bool,
    now: u64,
    first_id: &str,
    second_id: &str,
    r: Result<ChatSend, ErrorShape>,
)
    requires
        call_ensures(
            handle_send,
            (request, conn_id, Some(run), known_session, now, first_id, second_id),
            r,
        ),
    ensures
        ({
            let source = member(run.metadata@, "source"@);
            let foreign = (source matches Some(JsonModel::Text(name)) && name != "chat.send"@) || (
            run.session_key is Some && run.session_key->0@ != request.session_key@);
            &&& r is Err <==> foreign
            &&& r is Err ==> r->Err_0.code@ == "INVALID_REQUEST"@
            &&& r is Ok ==> {
                let sent = r->Ok_0;
                &&& sent.session is None && sent.run is None && sent.event is None
                    && sent.messages@.len() == 0
                &&& member(sent.answer@, "runId"@) == Some(JsonModel::Text(run.id@))
                &&& member(sent.answer@, "status"@) == Some(JsonModel::Text(run.status@))
                &&& member(sent.answer@, "message"@) == Some(
                    if run.status@ == "completed"@ || run.status@ == "error"@ {
                        JsonModel::Text(run.output@)
                    } else {
                        JsonModel::Null
                    },
                )
            }
        }),
{
    reveal_strlit("runId");
    reveal_strlit("status");
    reveal_strlit("sessionKey");
    reveal_strlit("message");
    assert("runId"@.len() != "status"@.len());
    assert("runId"@.len() != "sessionKey"@.len());
    assert("runId"@.len() != "message"@.len());
    assert("status"@.len() != "sessionKey"@.len());
    assert("status"@.len() != "message"@.len());
    assert("sessionKey"@.len() != "message"@.len());
}

/// A run that is called off in its own session is over from then on, if it was not over before. What
/// is called off elsewhere is refused.
pub proof fn law_calling_off_a_run(
    session_key: &str,
    run_id: &str,
    run: AgentRunRecord,
    now: u64,
    r: Result<(Option<AgentRunRecord>, Json), ErrorShape>,
)
    requires
        call_ensures(handle_abort, (session_key, run_id, Some(run), now), r),
    ensures
        r is Err <==> run.session_key is Some && run.session_key->0@ != session_key@,
        r is Ok ==> {
            let over = run.status@ == "completed"@ || run.status@ == "error"@ || run.status@
                == "aborted"@;
            &&& r->Ok_0.0 is None <==> over
            &&& member(r->Ok_0.1@, "aborted"@) == Some(JsonModel::Bool(!over))
            &&& member(r->Ok_0.1@, "sessionKey"@) == Some(JsonModel::Text(session_key@))
            &&& !over ==> {
                let new = r->Ok_0.0->0;
                &&& new.id == run.id && new.input == run.input && new.session_key == run.session_key
                &&& new.status@ == "aborted"@
                &&& new.completed_at_ms == Some(now) && new.updated_at_ms == now
                &&& not_blank(run.output@) ==> new.output@ == run.output@
            }
        },
{
    lemma_kept(run.output@);
    reveal_strlit("ok");
    reveal_strlit("aborted");
    reveal_strlit("sessionKey");
    reveal_strlit("runIds");
    assert("ok"@.len() != "aborted"@.len());
    assert("ok"@.len() != "sessionKey"@.len());
    assert("ok"@.len() != "runIds"@.len());
    assert("aborted"@.len() != "sessionKey"@.len());
    assert("aborted"@.len() != "runIds"@.len());
    assert("sessionKey"@.len() != "runIds"@.len());
}

/// A run that is not known is not called off.
pub proof fn law_unknown_runs_are_not_called_off(
    session_key: &str,
    run_id: &str,
    now: u64,
    r: Result<(Option<AgentRunRecord>, Json), ErrorShape>,
)
    requires
        call_ensures(handle_abort, (session_key, run_id, None, now), r),
    ensures
        r is Ok && r->Ok_0.0 is None && member(r->Ok_0.1@, "aborted"@) == Some(
            JsonModel::Bool(false),
        ),
{
    reveal_strlit("ok");
    reveal_strlit("aborted");
    reveal_strlit("sessionKey");
    reveal_strlit("runIds");
    assert("ok"@.len() != "aborted"@.len());
    assert("ok"@.len() != "sessionKey"@.len());
    assert("ok"@.len() != "runIds"@.len());
    assert("aborted"@.len() != "sessionKey"@.len());
    assert("aborted"@.len() != "runIds"@.len());
    assert("sessionKey"@.len() != "runIds"@.len());
}

/// Calling off a session calls off exactly its open runs: each open run is stored as called off, and
/// none that was over is touched.
pub proof fn law_calling_off_a_session(
    session_key: &str,
    runs: Vec<AgentRunRecord>,
    now: u64,
    i: int,
    r: (Vec<AgentRunRecord>, Json),
)
    requires
        call_ensures(abort_session, (session_key, runs, now), r),
    ensures
        0 <= i < runs@.len() && !(runs@[i].status@ == "completed"@ || runs@[i].status@ == "error"@
            || runs@[i].status@ == "aborted"@) ==> exists|k: int|
            0 <= k < r.0@.len() && (#[trigger] r.0@[k]).id == runs@[i].id && r.0@[k].input
                == runs@[i].input,
        0 <= i < r.0@.len() ==> r.0@[i].status@ == "aborted"@ && r.0@[i].completed_at_ms == Some(now)
            && exists|k: int|
            0 <= k < runs@.len() && (#[trigger] runs@[k]).id == r.0@[i].id && !(runs@[k].status@
                == "completed"@ || runs@[k].status@ == "error"@ || runs@[k].status@ == "aborted"@),
        member(r.1@, "aborted"@) == Some(JsonModel::Bool(r.0@.len() > 0)),
{
    law_aborting_leaves_none_open(r.0@, runs@, now);
    lemma_open_runs_are_aborted(r.0@, runs@, now, i);
    reveal_strlit("ok");
    reveal_strlit("aborted");
    reveal_strlit("sessionKey");
    reveal_strlit("runIds");
    assert("ok"@.len() != "aborted"@.len());
    assert("ok"@.len() != "sessionKey"@.len());
    assert("ok"@.len() != "runIds"@.len());
    assert("aborted"@.len() != "sessionKey"@.len());
    assert("aborted"@.len() != "runIds"@.len());
    assert("sessionKey"@.len() != "runIds"@.len());
}

proof fn lemma_open_runs_are_aborted(
    aborted: Seq<AgentRunRecord>,
    runs: Seq<AgentRunRecord>,
    now: u64,
    i: int,
)
    requires
        are_aborted(aborted, runs, now),
    ensures
        0 <= i < runs.len() && !is_over(runs[i].status@) ==> exists|k: int|
            0 <= k < aborted.len() && (#[trigger] aborted[k]).id == runs[i].id && aborted[k].input
                == runs[i].input,
        0 <= i < aborted.len() ==> aborted[i].status@ == "aborted"@ && aborted[i].completed_at_ms
            == Some(now) && exists|k: int|
            0 <= k < runs.len() && (#[trigger] runs[k]).id == aborted[i].id && !is_over(
                runs[k].status@,
            ),
    decreases runs.len(),
{
    if runs.len() > 0 {
        let shorter = runs.drop_last();
        let over = is_over(runs.last().status@);
        let earlier = if over {
            aborted
        } else {
            aborted.drop_last()
        };
        lemma_open_runs_are_aborted(earlier, shorter, now, i);
        if 0 <= i < runs.len() && !is_over(runs[i].status@) {
            if i < runs.len() - 1 {
                assert(shorter[i] == runs[i]);
                let k = choose|k: int|
                    0 <= k < earlier.len() && (#[trigger] earlier[k]).id == shorter[i].id
                        && earlier[k].input == shorter[i].input;
                assert(aborted[k] == earlier[k]);
            } else {
                let k = aborted.len() - 1;
                assert(aborted[k].id == runs[i].id && aborted[k].input == runs[i].input);
            }
        }
        if 0 <= i < aborted.len() {
            if i < earlier.len() {
                assert(earlier[i] == aborted[i]);
                let k = choose|k: int|
                    0 <= k < shorter.len() && (#[trigger] shorter[k]).id == earlier[i].id && !is_over(
                        shorter[k].status@,
                    );
                assert(runs[k] == shorter[k]);
            } else {
                let k = runs.len() - 1;
                assert(runs[k].id == aborted[i].id && !is_over(runs[k].status@));
            }
        }
    }
}

/// What is asked of the history of a session is bounded: at least one message and at most a
/// thousand, and as many as are asked for in between.
pub proof fn law_histories(
    params: ChatHistoryParams,
    r: Result<(String, Option<usize>), ErrorShape>,
)
    requires
        call_ensures(history_request, (params,), r),
    ensures
        ({
            let session = if params.session_key is Some {
                params.session_key
            } else {
                params.session_id
            };
            &&& r is Ok <==> session is Some && not_blank(session->0@)
            &&& r is Ok ==> {
                &&& r->Ok_0.0@ == trimmed(session->0@)
                &&& r->Ok_0.1 is Some <==> params.limit is Some
                &&& r->Ok_0.1 is Some ==> 1 <= r->Ok_0.1->0 <= 1000
                &&& params.limit is Some && 1 <= params.limit->0 <= 1000 ==> r->Ok_0.1 == params.limit
                &&& params.limit == Some(0usize) ==> r->Ok_0.1 == Some(1usize)
                &&& params.limit is Some && params.limit->0 > 1000 ==> r->Ok_0.1 == Some(1000usize)
            }
        }),
{
    if params.session_key is Some {
        lemma_kept(params.session_key->0@);
    }
    if params.session_id is Some {
        lemma_kept(params.session_id->0@);
    }
}

/// The history that is shown has the messages in their order, each with its role and its words.
pub proof fn law_histories_are_shown(session_key: &str, messages: &Vec<ChatMessage>, i: int, r: Json)
    requires
        call_ensures(handle_history, (session_key, messages), r),
        0 <= i < messages@.len(),
    ensures
        member(r@, "sessionKey"@) == Some(JsonModel::Text(session_key@)),
        ({
            let shown = member(r@, "messages"@)->0->Array_0;
            &&& member(r@, "messages"@) is Some && member(r@, "messages"@)->0 is Array
            &&& shown.len() == messages@.len()
            &&& member(shown[i], "text"@) == Some(JsonModel::Text(messages@[i].text@))
            &&& member(shown[i], "role"@) == Some(JsonModel::Text(messages@[i].role@))
            &&& member(shown[i], "ts"@) == Some(JsonModel::Unsigned(messages@[i].ts))
        }),
{
    reveal_strlit("sessionKey");
    reveal_strlit("sessionId");
    reveal_strlit("messages");
    reveal_strlit("text");
    reveal_strlit("role");
    reveal_strlit("ts");
    reveal_strlit("id");
    reveal_strlit("status");
    reveal_strlit("metadata");
    assert("sessionKey"@.len() != "sessionId"@.len());
    assert("sessionKey"@.len() != "messages"@.len());
    assert("sessionKey"@.len() != "text"@.len());
    assert("sessionKey"@.len() != "role"@.len());
    assert("sessionKey"@.len() != "ts"@.len());
    assert("sessionKey"@.len() != "id"@.len());
    assert("sessionKey"@.len() != "status"@.len());
    assert("sessionKey"@.len() != "metadata"@.len());
    assert("sessionId"@.len() != "messages"@.len());
    assert("sessionId"@.len() != "text"@.len());
    assert("sessionId"@.len() != "role"@.len());
    assert("sessionId"@.len() != "ts"@.len());
    assert("sessionId"@.len() != "id"@.len());
    assert("sessionId"@.len() != "status"@.len());
    assert("sessionId"@.len() != "metadata"@.len());
    assert("messages"@.len() != "text"@.len());
    assert("messages"@.len() != "role"@.len());
    assert("messages"@.len() != "ts"@.len());
    assert("messages"@.len() != "id"@.len());
    assert("messages"@.len() != "status"@.len());
    assert("messages"@[2] != "metadata"@[2]);
    assert("text"@[0] != "role"@[0]);
    assert("text"@.len() != "ts"@.len());
    assert("text"@.len() != "id"@.len());
    assert("text"@.len() != "status"@.len());
    assert("text"@.len() != "metadata"@.len());
    assert("role"@.len() != "ts"@.len());
    assert("role"@.len() != "id"@.len());
    assert("role"@.len() != "status"@.len());
    assert("role"@.len() != "metadata"@.len());
    assert("ts"@[0] != "id"@[0]);
    assert("ts"@.len() != "status"@.len());
    assert("ts"@.len() != "metadata"@.len());
    assert("id"@.len() != "status"@.len());
    assert("id"@.len() != "metadata"@.len());
    assert("status"@.len() != "metadata"@.len());
}

/// A message that gets its own key is sent as any other.
pub proof fn law_messages_get_a_key(params: ChatSendParams, r: Result<ChatSendRequest, ErrorShape>)
    requires
        call_ensures(chat_send_request, (params,), r),
    ensures
        ({
            let session = if params.session_key is Some {
                params.session_key
            } else {
                params.session_id
            };
            &&& r is Ok <==> crate::rpc::methods::agent::is_given(session) && crate::text::not_blank(params.message@) && !params.message@.contains('\0')
            &&& r is Ok ==> r->Ok_0.message@ == crate::text::trimmed(params.message@) && r->Ok_0.session_key@ == crate::text::trimmed(
                session->0@,
            )
            &&& r is Ok && crate::rpc::methods::agent::is_given(params.idempotency_key) ==> r->Ok_0.run_id@ == crate::text::trimmed(
                params.idempotency_key->0@,
            )
        }),
{
    crate::rpc::methods::agent::lemma_is_given(params.session_key);
    crate::rpc::methods::agent::lemma_is_given(params.session_id);
    crate::rpc::methods::agent::lemma_is_given(params.idempotency_key);
    crate::text::lemma_kept(params.message@);
}

/// What is called off is the run that is named, in the session that is named, or else in the main
/// one.
pub proof fn law_what_is_called_off(params: ChatAbortParams, r: (String, Option<String>))
    requires
        call_ensures(abort_request, (params,), r),
    ensures
        ({
            let session = if params.session_key is Some {
                params.session_key
            } else {
                params.session_id
            };
            &&& r.0@ == (if crate::rpc::methods::agent::is_given(session) {
                crate::text::trimmed(session->0@)
            } else {
                "agent:main:main"@
            })
            &&& r.1 is Some <==> crate::rpc::methods::agent::is_given(params.run_id)
            &&& crate::rpc::methods::agent::is_given(params.run_id) ==> r.1->0@ == crate::text::trimmed(params.run_id->0@)
        }),
{
    crate::rpc::methods::agent::lemma_is_given(params.session_key);
    crate::rpc::methods::agent::lemma_is_given(params.session_id);
    crate::rpc::methods::agent::lemma_is_given(params.run_id);
}

/// The end of a run is told with its run, its session and what the assistant said.
pub proof fn law_ends_are_told(run_id: &str, session_key: &str, reply: &str, timestamp: u64, r: Json)
    requires
        call_ensures(chat_final, (run_id, session_key, reply, timestamp), r),
    ensures
        crate::json::member(r@, "runId"@) == Some(JsonModel::Text(run_id@)),
        crate::json::member(r@, "sessionKey"@) == Some(JsonModel::Text(session_key@)),
        crate::json::member(r@, "state"@) == Some(JsonModel::Text("final"@)),
        ({
            let message = crate::json::member(r@, "message"@)->0;
            let content = crate::json::member(message, "content"@)->0->Array_0;
            &&& crate::json::member(r@, "message"@) is Some
            &&& crate::json::member(message, "role"@) == Some(JsonModel::Text("assistant"@))
            &&& crate::json::member(message, "timestamp"@) == Some(JsonModel::Unsigned(timestamp))
            &&& crate::json::member(message, "content"@) is Some && crate::json::member(message, "content"@)->0 is Array && content.len()
                == 1 && crate::json::member(content[0], "text"@) == Some(JsonModel::Text(reply@)) && crate::json::member(
                content[0],
                "type"@,
            ) == Some(JsonModel::Text("text"@))
        }),
{
    reveal_strlit("runId");
    reveal_strlit("sessionKey");
    reveal_strlit("state");
    reveal_strlit("seq");
    reveal_strlit("message");
    reveal_strlit("role");
    reveal_strlit("content");
    reveal_strlit("timestamp");
    reveal_strlit("type");
    reveal_strlit("text");
    assert("runId"@.len() != "sessionKey"@.len());
    assert("runId"@[0] != "state"@[0]);
    assert("runId"@.len() != "seq"@.len());
    assert("runId"@.len() != "message"@.len());
    assert("runId"@.len() != "role"@.len());
    assert("runId"@.len() != "content"@.len());
    assert("runId"@.len() != "timestamp"@.len());
    assert("runId"@.len() != "type"@.len());
    assert("runId"@.len() != "text"@.len());
    assert("sessionKey"@.len() != "state"@.len());
    assert("sessionKey"@.len() != "seq"@.len());
    assert("sessionKey"@.len() != "message"@.len());
    assert("sessionKey"@.len() != "role"@.len());
    assert("sessionKey"@.len() != "content"@.len());
    assert("sessionKey"@.len() != "timestamp"@.len());
    assert("sessionKey"@.len() != "type"@.len());
    assert("sessionKey"@.len() != "text"@.len());
    assert("state"@.len() != "seq"@.len());
    assert("state"@.len() != "message"@.len());
    assert("state"@.len() != "role"@.len());
    assert("state"@.len() != "content"@.len());
    assert("state"@.len() != "timestamp"@.len());
    assert("state"@.len() != "type"@.len());
    assert("state"@.len() != "text"@.len());
    assert("seq"@.len() != "message"@.len());
    assert("seq"@.len() != "role"@.len());
    assert("seq"@.len() != "content"@.len());
    assert("seq"@.len() != "timestamp"@.len());
    assert("seq"@.len() != "type"@.len());
    assert("seq"@.len() != "text"@.len());
    assert("message"@.len() != "role"@.len());
    assert("message"@[0] != "content"@[0]);
    assert("message"@.len() != "timestamp"@.len());
    assert("message"@.len() != "type"@.len());
    assert("message"@.len() != "text"@.len());
    assert("role"@.len() != "content"@.len());
    assert("role"@.len() != "timestamp"@.len());
    assert("role"@[0] != "type"@[0]);
    assert("role"@[0] != "text"@[0]);
    assert("content"@.len() != "timestamp"@.len());
    assert("content"@.len() != "type"@.len());
    assert("content"@.len() != "text"@.len());
    assert("timestamp"@.len() != "type"@.len());
    assert("timestamp"@.len() != "text"@.len());
    assert("type"@[1] != "text"@[1]);
}

} // verus!
