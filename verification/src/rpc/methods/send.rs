//! Messages that a client puts into a session.
use crate::domain::models::{chat_message_json, ChatMessage, SessionRecord};
use crate::ids::{is_uuid_text, new_id};
use crate::json::{no_fields, object, opt_text_json, set_field, text, text_or_null, Json, JsonModel};
use crate::protocol::errors::{invalid, invalid_request, ErrorShape};
use crate::rpc::methods::agent::{ensure_session_exists, stores_session};
use crate::rpc::methods::chat::named_session;
use crate::text::{
    cat, either, first_of, kept_opt, opt_text, or_text, text_or, trim_non_empty_opt,
};
use vstd::prelude::*;

verus! {

broadcast use vstd::seq::group_seq_axioms;

/// What is sent.
pub struct SendParams {
    pub session_key: Option<String>,
    pub session_id: Option<String>,
    pub message: Option<String>,
    pub text: Option<String>,
    pub channel: Option<String>,
}

/// The session that a message goes to.
pub open spec fn send_session(params: SendParams) -> Seq<char> {
    text_or(
        named_session(opt_text(params.session_key), opt_text(params.session_id)),
        "agent:main:main"@,
    )
}

/// The message that is sent.
pub open spec fn send_message(params: SendParams) -> Option<Seq<char>> {
    kept_opt(first_of(opt_text(params.message), opt_text(params.text)))
}

/// The session that a message goes to, or a refusal where there is no message.
pub fn send_target(params: &SendParams) -> (r: Result<String, ErrorShape>)
    ensures
        match send_message(*params) {
            None => r is Err && r->Err_0@ == invalid("invalid send params: message is required"@),
            Some(_) => r is Ok && r->Ok_0@ == send_session(*params),
        },
{
    let named = if params.session_key.is_some() {
        trim_non_empty_opt(&params.session_key)
    } else {
        trim_non_empty_opt(&params.session_id)
    };
    let message = if params.message.is_some() {
        trim_non_empty_opt(&params.message)
    } else {
        trim_non_empty_opt(&params.text)
    };
    if message.is_none() {
        return Err(invalid_request("invalid send params: message is required"));
    }
    Ok(or_text(named, "agent:main:main"))
}

/// The data beside a message that is sent.
pub open spec fn send_metadata(channel: Option<Seq<char>>, client_id: Seq<char>) -> JsonModel {
    JsonModel::Object(
        no_fields()
            .insert("source"@, JsonModel::Text("send"@))
            .insert("channel"@, text_or_null(channel))
            .insert("requestedBy"@, JsonModel::Text(client_id)),
    )
}

/// What is done when a message is sent: the session is stored where it is new, the message is
/// appended, and the answer is given.
pub struct Sent {
    pub session: Option<SessionRecord>,
    pub message: ChatMessage,
    pub answer: Json,
}

/// What is done when a message is sent.
pub open spec fn is_delivered(
    sent: Sent,
    params: SendParams,
    client_id: Seq<char>,
    known_session: bool,
    now: u64,
    id: Seq<char>,
) -> bool {
    &&& stores_session(sent.session, send_session(params), known_session, now)
    &&& sent.message.id@ == "msg-"@ + id
    &&& sent.message.role@ == "assistant"@
    &&& Some(sent.message.text@) == send_message(params)
    &&& sent.message.status@ == "final"@
    &&& sent.message.ts == now
    &&& sent.message.metadata@ == send_metadata(opt_text(params.channel), client_id)
    &&& sent.answer@ == JsonModel::Object(
        no_fields()
            .insert("ok"@, JsonModel::Bool(true))
            .insert("delivered"@, JsonModel::Bool(true))
            .insert("sessionKey"@, JsonModel::Text(send_session(params)))
            .insert("message"@, chat_message_json(sent.message)),
    )
}

/// Sends a message; it has the given id.
pub fn handle_send_with(
    params: SendParams,
    client_id: &str,
    known_session: bool,
    now: u64,
    id: &str,
) -> (r: Result<Sent, ErrorShape>)
    ensures
        match send_message(params) {
            None => r is Err && r->Err_0@ == invalid("invalid send params: message is required"@),
            Some(_) => r is Ok && is_delivered(
                r->Ok_0,
                params,
                client_id@,
                known_session,
                now,
                id@,
            ),
        },
{
    let session_key = send_target(&params)?;
    let mut metadata = object();
    set_field(&mut metadata, "source", text("send"));
    set_field(&mut metadata, "channel", opt_text_json(&params.channel));
    set_field(&mut metadata, "requestedBy", text(client_id));
    let body = or_text(trim_non_empty_opt(&either(params.message, params.text)), "");
    let session = ensure_session_exists(session_key.as_str(), known_session, now);
    let message = ChatMessage {
        id: cat("msg-", id),
        role: "assistant".to_owned(),
        text: body,
        status: "final".to_owned(),
        ts: now,
        metadata: Json::Object(metadata),
    };
    let mut o = object();
    set_field(&mut o, "ok", Json::Bool(true));
    set_field(&mut o, "delivered", Json::Bool(true));
    set_field(&mut o, "sessionKey", text(session_key.as_str()));
    set_field(&mut o, "message", message.to_json());
    Ok(Sent { session, message, answer: Json::Object(o) })
}

/// Sends a message; it has a fresh id.
pub fn handle_send(params: SendParams, client_id: &str, known_session: bool, now: u64) -> (r: Result<
    Sent,
    ErrorShape,
>)
    ensures
        match send_message(params) {
            None => r is Err && r->Err_0@ == invalid("invalid send params: message is required"@),
            Some(_) => exists|id: Seq<char>| #[trigger]
                is_uuid_text(id) && r is Ok && is_delivered(
                    r->Ok_0,
                    params,
                    client_id@,
                    known_session,
                    now,
                    id,
                ),
        },
{
    let id = new_id();
    assert(is_uuid_text(id@));
    handle_send_with(params, client_id, known_session, now, id.as_str())
}

/// A message that says something is stored in the session that is named, or else in the main one, as
/// the assistant's, and is told as it is stored.
pub proof fn law_messages_are_delivered(
    params: SendParams,
    client_id: &str,
    known_session: bool,
    now: u64,
    id: &str,
    r: Result<Sent, ErrorShape>,
)
    requires
        call_ensures(handle_send_with, (params, client_id, known_session, now, id), r),
    ensures
        ({
            let words = if params.message is Some {
                params.message
            } else {
                params.text
            };
            let session = if params.session_key is Some {
                params.session_key
            } else {
                params.session_id
            };
            let key = if crate::rpc::methods::agent::is_given(session) {
                crate::text::trimmed(session->0@)
            } else {
                "agent:main:main"@
            };
            &&& r is Ok <==> crate::rpc::methods::agent::is_given(words)
            &&& r is Ok ==> {
                let sent = r->Ok_0;
                &&& sent.message.text@ == crate::text::trimmed(words->0@)
                &&& sent.message.role@ == "assistant"@
                &&& sent.message.id@ == "msg-"@ + id@
                &&& sent.message.ts == now
                &&& sent.message.status@ == "final"@
                &&& sent.session is Some <==> !known_session
                &&& sent.session is Some ==> sent.session->0.id@ == key
                &&& crate::json::member(sent.answer@, "sessionKey"@) == Some(JsonModel::Text(key))
                &&& crate::json::member(sent.answer@, "delivered"@) == Some(JsonModel::Bool(true))
                &&& crate::json::member(sent.message.metadata@, "requestedBy"@) == Some(JsonModel::Text(client_id@))
                &&& crate::json::member(sent.message.metadata@, "source"@) == Some(JsonModel::Text("send"@))
            }
        }),
{
    crate::rpc::methods::agent::lemma_is_given(params.message);
    crate::rpc::methods::agent::lemma_is_given(params.text);
    crate::rpc::methods::agent::lemma_is_given(params.session_key);
    crate::rpc::methods::agent::lemma_is_given(params.session_id);
    reveal_strlit("ok");
    reveal_strlit("delivered");
    reveal_strlit("sessionKey");
    reveal_strlit("message");
    reveal_strlit("source");
    reveal_strlit("channel");
    reveal_strlit("requestedBy");
    assert("ok"@.len() != "delivered"@.len());
    assert("ok"@.len() != "sessionKey"@.len());
    assert("ok"@.len() != "message"@.len());
    assert("ok"@.len() != "source"@.len());
    assert("ok"@.len() != "channel"@.len());
    assert("ok"@.len() != "requestedBy"@.len());
    assert("delivered"@.len() != "sessionKey"@.len());
    assert("delivered"@.len() != "message"@.len());
    assert("delivered"@.len() != "source"@.len());
    assert("delivered"@.len() != "channel"@.len());
    assert("delivered"@.len() != "requestedBy"@.len());
    assert("sessionKey"@.len() != "message"@.len());
    assert("sessionKey"@.len() != "source"@.len());
    assert("sessionKey"@.len() != "channel"@.len());
    assert("sessionKey"@.len() != "requestedBy"@.len());
    assert("message"@.len() != "source"@.len());
    assert("message"@[0] != "channel"@[0]);
    assert("message"@.len() != "requestedBy"@.len());
    assert("source"@.len() != "channel"@.len());
    assert("source"@.len() != "requestedBy"@.len());
    assert("channel"@.len() != "requestedBy"@.len());
}

/// The session that a message goes to is the one that is named, or else the main one.
pub proof fn law_where_messages_go(params: &SendParams, r: Result<String, ErrorShape>)
    requires
        call_ensures(send_target, (params,), r),
    ensures
        ({
            let words = if params.message is Some {
                params.message
            } else {
                params.text
            };
            let session = if params.session_key is Some {
                params.session_key
            } else {
                params.session_id
            };
            &&& r is Ok <==> crate::rpc::methods::agent::is_given(words)
            &&& r is Ok ==> r->Ok_0@ == (if crate::rpc::methods::agent::is_given(session) {
                crate::text::trimmed(session->0@)
            } else {
                "agent:main:main"@
            })
        }),
{
    crate::rpc::methods::agent::lemma_is_given(params.message);
    crate::rpc::methods::agent::lemma_is_given(params.text);
    crate::rpc::methods::agent::lemma_is_given(params.session_key);
    crate::rpc::methods::agent::lemma_is_given(params.session_id);
}

} // verus!
