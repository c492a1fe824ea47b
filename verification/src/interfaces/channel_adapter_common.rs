//! What the adapters of channels share.
use crate::interfaces::channels::{InboundMessageRequest, InboundProcessResult};
use crate::interfaces::compat::header_text;
use crate::json::{
    no_fields, object, opt_model, opt_text_json, set_field, text, text_or_null, Json, JsonModel,
};
use crate::protocol::errors::{error_fields, ErrorModel, ErrorShape, ERROR_INVALID_REQUEST};
use crate::security::auth::same_secret;
use crate::text::{after_prefix, cat, opt_text, same, strip_prefix};
use vstd::prelude::*;

verus! {

/// The answer to an HTTP request.
pub struct HttpReply {
    pub status: u16,
    pub body: Json,
}

impl HttpReply {
    /// The answer has this status and this body.
    pub open spec fn says(&self, status: u16, body: JsonModel) -> bool {
        self.status == status && self.body@ == body
    }
}

/// A message that a channel delivers.
pub struct ChannelInboundEvent {
    pub channel: &'static str,
    pub conversation_id: String,
    pub text: String,
    pub sender_id: Option<String>,
    pub message_id: Option<String>,
    pub idempotency_key: String,
    pub metadata: Option<Json>,
}

/// The body of a refusal.
pub open spec fn refusal_body(code: Seq<char>, message: Seq<char>) -> JsonModel {
    JsonModel::Object(
        no_fields().insert("ok"@, JsonModel::Bool(false)).insert(
            "error"@,
            JsonModel::Object(
                no_fields().insert("code"@, JsonModel::Text(code)).insert(
                    "message"@,
                    JsonModel::Text(message),
                ),
            ),
        ),
    )
}

/// A refusal.
pub fn error_response(status: u16, code: &str, message: &str) -> (r: HttpReply)
    ensures
        r.says(status, refusal_body(code@, message@)),
{
    let mut error = object();
    set_field(&mut error, "code", text(code));
    set_field(&mut error, "message", text(message));
    let mut body = object();
    set_field(&mut body, "ok", Json::Bool(false));
    set_field(&mut body, "error", Json::Object(error));
    HttpReply { status, body: Json::Object(body) }
}

pub fn unauthorized(message: &str) -> (r: HttpReply)
    ensures
        r.says(401, refusal_body("UNAUTHORIZED"@, message@)),
{
    error_response(401, "UNAUTHORIZED", message)
}

pub fn unavailable(message: &str) -> (r: HttpReply)
    ensures
        r.says(503, refusal_body("UNAVAILABLE"@, message@)),
{
    error_response(503, "UNAVAILABLE", message)
}

pub fn bad_request(message: &str) -> (r: HttpReply)
    ensures
        r.says(400, refusal_body("INVALID_REQUEST"@, message@)),
{
    error_response(400, "INVALID_REQUEST", message)
}

/// The body that says why a message was not taken.
pub open spec fn ignored_body(reason: Seq<char>) -> JsonModel {
    JsonModel::Object(
        no_fields().insert("ok"@, JsonModel::Bool(true)).insert(
            "accepted"@,
            JsonModel::Bool(false),
        ).insert("reason"@, JsonModel::Text(reason)),
    )
}

/// The message was not taken.
pub fn accepted_false(reason: &str) -> (r: HttpReply)
    ensures
        r.says(200, ignored_body(reason@)),
{
    let mut body = object();
    set_field(&mut body, "ok", Json::Bool(true));
    set_field(&mut body, "accepted", Json::Bool(false));
    set_field(&mut body, "reason", text(reason));
    HttpReply { status: 200, body: Json::Object(body) }
}

/// The body that says that a message came before.
pub open spec fn duplicate_body() -> JsonModel {
    JsonModel::Object(
        no_fields().insert("ok"@, JsonModel::Bool(true)).insert(
            "accepted"@,
            JsonModel::Bool(false),
        ).insert("duplicate"@, JsonModel::Bool(true)),
    )
}

/// The message came before.
pub fn duplicate_reply() -> (r: HttpReply)
    ensures
        r.says(200, duplicate_body()),
{
    let mut body = object();
    set_field(&mut body, "ok", Json::Bool(true));
    set_field(&mut body, "accepted", Json::Bool(false));
    set_field(&mut body, "duplicate", Json::Bool(true));
    HttpReply { status: 200, body: Json::Object(body) }
}

/// Whether an event is taken: one that came before is answered and not taken again.
pub fn admit_event(seen: bool) -> (r: Result<(), HttpReply>)
    ensures
        r is Ok <==> !seen,
        seen ==> r is Err && r->Err_0.says(200, duplicate_body()),
{
    if seen {
        Err(duplicate_reply())
    } else {
        Ok(())
    }
}

/// The fields of what a message was answered with.
pub open spec fn taken_fields(result: InboundProcessResult) -> Map<Seq<char>, JsonModel> {
    no_fields().insert("ok"@, JsonModel::Bool(true)).insert(
        "accepted"@,
        JsonModel::Bool(true),
    ).insert("sessionKey"@, JsonModel::Text(result.session_key@)).insert(
        "runId"@,
        text_or_null(opt_text(result.run_id)),
    ).insert("reply"@, text_or_null(opt_text(result.reply)))
}

/// The message was taken.
pub fn accepted_true(result: &InboundProcessResult) -> (r: HttpReply)
    ensures
        r.says(200, JsonModel::Object(taken_fields(*result))),
{
    let mut body = object();
    set_field(&mut body, "ok", Json::Bool(true));
    set_field(&mut body, "accepted", Json::Bool(true));
    set_field(&mut body, "sessionKey", text(result.session_key.as_str()));
    set_field(&mut body, "runId", opt_text_json(&result.run_id));
    set_field(&mut body, "reply", opt_text_json(&result.reply));
    HttpReply { status: 200, body: Json::Object(body) }
}

/// The message was taken, and its reply was sent on or not.
pub fn accepted_true_with_outbound(result: &InboundProcessResult, outbound_sent: bool) -> (r:
    HttpReply)
    ensures
        r.says(
            200,
            JsonModel::Object(
                taken_fields(*result).insert("outboundSent"@, JsonModel::Bool(outbound_sent)),
            ),
        ),
{
    let mut body = object();
    set_field(&mut body, "ok", Json::Bool(true));
    set_field(&mut body, "accepted", Json::Bool(true));
    set_field(&mut body, "sessionKey", text(result.session_key.as_str()));
    set_field(&mut body, "runId", opt_text_json(&result.run_id));
    set_field(&mut body, "reply", opt_text_json(&result.reply));
    set_field(&mut body, "outboundSent", Json::Bool(outbound_sent));
    HttpReply { status: 200, body: Json::Object(body) }
}

/// The status of an error: the client's fault or the service's.
pub open spec fn error_status(code: Seq<char>) -> u16 {
    if code == ERROR_INVALID_REQUEST@ {
        400
    } else {
        503
    }
}

/// The status of an error.
pub fn status_of(error: &ErrorShape) -> (r: u16)
    ensures
        r == error_status(error.code@),
{
    if same(error.code.as_str(), ERROR_INVALID_REQUEST) {
        400
    } else {
        503
    }
}

/// The body that carries an error.
pub open spec fn error_body(error: ErrorModel) -> JsonModel {
    JsonModel::Object(
        no_fields().insert("ok"@, JsonModel::Bool(false)).insert(
            "error"@,
            JsonModel::Object(error_fields(error)),
        ),
    )
}

/// The answer that carries an error.
pub fn map_error_shape(error: &ErrorShape) -> (r: HttpReply)
    ensures
        r.says(error_status(error.code@), error_body(error@)),
{
    let mut body = object();
    set_field(&mut body, "ok", Json::Bool(false));
    set_field(&mut body, "error", error.to_json());
    HttpReply { status: status_of(error), body: Json::Object(body) }
}

/// An authorization header presents the token: behind `Bearer `, and nothing else.
pub open spec fn presents(authorization: Option<Seq<char>>, expected: Seq<char>) -> bool {
    authorization is Some && after_prefix(authorization->0, "Bearer "@) == Some(expected)
}

/// Whether an authorization header presents the token.
pub fn has_bearer_token(authorization: Option<&str>, expected: &str) -> (r: bool)
    ensures
        r == presents(header_text(authorization), expected@),
{
    match authorization {
        None => false,
        Some(header) => match strip_prefix(header, "Bearer ") {
            None => false,
            Some(token) => same_secret(token.as_str(), expected),
        },
    }
}

/// A channel's webhook is closed: no token is set, or another one is presented.
pub open spec fn channel_refusal(
    r: HttpReply,
    authorization: Option<Seq<char>>,
    token: Option<Seq<char>>,
    channel: Seq<char>,
) -> bool {
    match token {
        None => r.says(
            503,
            refusal_body("UNAVAILABLE"@, channel + " webhook token is not configured"@),
        ),
        Some(token) => r.says(
            401,
            refusal_body("UNAUTHORIZED"@, "invalid or missing bearer token"@),
        ),
    }
}

/// A channel's webhook is open to a request.
pub open spec fn channel_open(authorization: Option<Seq<char>>, token: Option<Seq<char>>) -> bool {
    token is Some && presents(authorization, token->0)
}

/// Whether a channel's webhook is open to a request, and the refusal where it is not.
pub fn require_channel_bearer_token(
    authorization: Option<&str>,
    token: &Option<String>,
    channel: &str,
) -> (r: Result<(), HttpReply>)
    ensures
        match r {
            Ok(_) => channel_open(header_text(authorization), opt_text(*token)),
            Err(reply) => !channel_open(header_text(authorization), opt_text(*token))
                && channel_refusal(reply, header_text(authorization), opt_text(*token), channel@),
        },
{
    match token {
        None => Err(unavailable(cat(channel, " webhook token is not configured").as_str())),
        Some(token) => if has_bearer_token(authorization, token.as_str()) {
            Ok(())
        } else {
            Err(unauthorized("invalid or missing bearer token"))
        },
    }
}

/// The request to take a channel's message as: one for the main agent.
pub fn ingest_channel_message(event: ChannelInboundEvent) -> (r: InboundMessageRequest)
    ensures
        r.channel@ == event.channel@,
        r.conversation_id@ == event.conversation_id@,
        r.text@ == event.text@,
        opt_text(r.agent_id) == Some("main"@),
        opt_text(r.sender_id) == opt_text(event.sender_id),
        opt_text(r.message_id) == opt_text(event.message_id),
        opt_text(r.idempotency_key) == Some(event.idempotency_key@),
        opt_model(r.metadata) == opt_model(event.metadata),
{
    InboundMessageRequest {
        channel: event.channel.to_owned(),
        conversation_id: event.conversation_id,
        text: event.text,
        agent_id: Some("main".to_owned()),
        sender_id: event.sender_id,
        message_id: event.message_id,
        idempotency_key: Some(event.idempotency_key),
        metadata: event.metadata,
    }
}

/// What is stored of a message that was taken, so that it is known when it comes again.
pub fn mark_event_processed(
    channel: &str,
    event_id: &str,
    result: &InboundProcessResult,
    now: u64,
) -> (r: Json)
    ensures
        r@ == JsonModel::Object(
            no_fields().insert("processedAtMs"@, JsonModel::Unsigned(now)).insert(
                "channel"@,
                JsonModel::Text(channel@),
            ).insert("eventId"@, JsonModel::Text(event_id@)).insert(
                "sessionKey"@,
                JsonModel::Text(result.session_key@),
            ).insert("runId"@, text_or_null(opt_text(result.run_id))),
        ),
{
    let mut o = object();
    set_field(&mut o, "processedAtMs", Json::Unsigned(now));
    set_field(&mut o, "channel", text(channel));
    set_field(&mut o, "eventId", text(event_id));
    set_field(&mut o, "sessionKey", text(result.session_key.as_str()));
    set_field(&mut o, "runId", opt_text_json(&result.run_id));
    Json::Object(o)
}

/// Where the reply to a channel's message goes, and what it answers.
pub struct OutboundReplyDispatch {
    pub channel: &'static str,
    pub conversation_id: String,
    pub source_sender_id: Option<String>,
    pub source_message_id: Option<String>,
    pub reply: Option<String>,
    pub session_key: String,
    pub run_id: Option<String>,
    pub metadata: Option<Json>,
    pub log_scope: &'static str,
}

/// A channel's webhook is open exactly where a token is set for it and the request bears it as `Bearer `
/// and the token; where none is set it is unavailable, and otherwise the request is unauthorized.
pub proof fn law_webhooks_need_their_token(
    authorization: Option<&str>,
    token: &Option<String>,
    channel: &str,
    r: Result<(), HttpReply>,
)
    requires
        call_ensures(require_channel_bearer_token, (authorization, token, channel), r),
    ensures
        r is Ok <==> *token is Some && authorization is Some && authorization->0@ == "Bearer "@ + token->0@,
        r is Err && *token is None ==> r->Err_0.status == 503,
        r is Err && *token is Some ==> r->Err_0.status == 401,
{
    if authorization is Some && *token is Some {
        let h = authorization->0@;
        let p = "Bearer "@;
        if h == p + token->0@ {
            assert(h.take(p.len() as int) =~= p);
            assert(h.skip(p.len() as int) =~= token->0@);
        }
        if h.len() >= p.len() && h.take(p.len() as int) == p {
            assert(h =~= p + h.skip(p.len() as int));
        }
    }
}

/// An error of a wrong request is answered as one, and any other as unavailable, with the error itself.
pub proof fn law_errors_that_are_answered(error: &ErrorShape, r: HttpReply)
    requires
        call_ensures(map_error_shape, (error,), r),
    ensures
        r.status == (if error.code@ == "INVALID_REQUEST"@ {
            400u16
        } else {
            503u16
        }),
        r.body@ == JsonModel::Object(
            no_fields().insert("ok"@, JsonModel::Bool(false)).insert(
                "error"@,
                JsonModel::Object(error_fields(error@)),
            ),
        ),
{
}

/// An event that was seen before is answered as a duplicate and not taken again.
pub proof fn law_events_are_taken_once(seen: bool, r: Result<(), HttpReply>)
    requires
        call_ensures(admit_event, (seen,), r),
    ensures
        r is Ok <==> !seen,
        r is Err ==> r->Err_0.status == 200 && crate::json::member(r->Err_0.body@, "duplicate"@) == Some(
            JsonModel::Bool(true),
        ) && crate::json::member(r->Err_0.body@, "accepted"@) == Some(JsonModel::Bool(false)) && crate::json::member(
            r->Err_0.body@,
            "ok"@,
        ) == Some(JsonModel::Bool(true)),
{
    reveal_strlit("ok");
    reveal_strlit("accepted");
    reveal_strlit("duplicate");
    assert("ok"@.len() != "accepted"@.len());
    assert("ok"@.len() != "duplicate"@.len());
    assert("accepted"@.len() != "duplicate"@.len());
}

/// A message that is not taken is answered with the reason, and a refusal with its code and its words.
pub proof fn law_what_is_not_taken(
    reason: &str,
    ignored: HttpReply,
    status: u16,
    code: &str,
    message: &str,
    refused: HttpReply,
)
    requires
        call_ensures(accepted_false, (reason,), ignored),
        call_ensures(error_response, (status, code, message), refused),
    ensures
        ignored.status == 200,
        crate::json::member(ignored.body@, "ok"@) == Some(JsonModel::Bool(true)),
        crate::json::member(ignored.body@, "accepted"@) == Some(JsonModel::Bool(false)),
        crate::json::member(ignored.body@, "reason"@) == Some(JsonModel::Text(reason@)),
        refused.status == status,
        crate::json::member(refused.body@, "ok"@) == Some(JsonModel::Bool(false)),
        crate::json::member(refused.body@, "error"@) is Some,
        crate::json::member(crate::json::member(refused.body@, "error"@)->0, "code"@) == Some(JsonModel::Text(code@)),
        crate::json::member(crate::json::member(refused.body@, "error"@)->0, "message"@) == Some(JsonModel::Text(message@)),
{
    reveal_strlit("ok");
    reveal_strlit("accepted");
    reveal_strlit("reason");
    reveal_strlit("error");
    reveal_strlit("code");
    reveal_strlit("message");
    assert("ok"@.len() != "accepted"@.len());
    assert("ok"@.len() != "reason"@.len());
    assert("ok"@.len() != "error"@.len());
    assert("ok"@.len() != "code"@.len());
    assert("ok"@.len() != "message"@.len());
    assert("accepted"@.len() != "reason"@.len());
    assert("accepted"@.len() != "error"@.len());
    assert("accepted"@.len() != "code"@.len());
    assert("accepted"@.len() != "message"@.len());
    assert("reason"@.len() != "error"@.len());
    assert("reason"@.len() != "code"@.len());
    assert("reason"@.len() != "message"@.len());
    assert("error"@.len() != "code"@.len());
    assert("error"@.len() != "message"@.len());
    assert("code"@.len() != "message"@.len());
}

/// A message that is taken is answered with its session, its run and its reply, and whether the reply
/// went out.
pub proof fn law_what_is_taken(
    result: &InboundProcessResult,
    sent: bool,
    plain: HttpReply,
    r: HttpReply,
)
    requires
        call_ensures(accepted_true, (result,), plain),
        call_ensures(accepted_true_with_outbound, (result, sent), r),
    ensures
        plain.status == 200 && r.status == 200,
        crate::json::member(plain.body@, "outboundSent"@) is None,
        crate::json::member(r.body@, "outboundSent"@) == Some(JsonModel::Bool(sent)),
        crate::json::member(plain.body@, "accepted"@) == Some(JsonModel::Bool(true)),
        crate::json::member(r.body@, "accepted"@) == Some(JsonModel::Bool(true)),
        crate::json::member(plain.body@, "sessionKey"@) == Some(JsonModel::Text(result.session_key@)),
        crate::json::member(r.body@, "sessionKey"@) == Some(JsonModel::Text(result.session_key@)),
        result.run_id is Some ==> crate::json::member(r.body@, "runId"@) == Some(JsonModel::Text(result.run_id->0@)),
        result.reply is Some ==> crate::json::member(plain.body@, "reply"@) == Some(JsonModel::Text(result.reply->0@))
            && crate::json::member(r.body@, "reply"@) == Some(JsonModel::Text(result.reply->0@)),
        result.reply is None ==> crate::json::member(plain.body@, "reply"@) == Some(JsonModel::Null),
{
    reveal_strlit("ok");
    reveal_strlit("accepted");
    reveal_strlit("sessionKey");
    reveal_strlit("runId");
    reveal_strlit("reply");
    reveal_strlit("outboundSent");
    assert("ok"@.len() != "accepted"@.len());
    assert("ok"@.len() != "sessionKey"@.len());
    assert("ok"@.len() != "runId"@.len());
    assert("ok"@.len() != "reply"@.len());
    assert("ok"@.len() != "outboundSent"@.len());
    assert("accepted"@.len() != "sessionKey"@.len());
    assert("accepted"@.len() != "runId"@.len());
    assert("accepted"@.len() != "reply"@.len());
    assert("accepted"@.len() != "outboundSent"@.len());
    assert("sessionKey"@.len() != "runId"@.len());
    assert("sessionKey"@.len() != "reply"@.len());
    assert("sessionKey"@.len() != "outboundSent"@.len());
    assert("runId"@[1] != "reply"@[1]);
    assert("runId"@.len() != "outboundSent"@.len());
    assert("reply"@.len() != "outboundSent"@.len());
}

/// What a channel delivers goes on as it came, to the main agent.
pub proof fn law_what_goes_on(event: ChannelInboundEvent, r: InboundMessageRequest)
    requires
        call_ensures(ingest_channel_message, (event,), r),
    ensures
        r.channel@ == event.channel@ && r.conversation_id@ == event.conversation_id@ && r.text@
            == event.text@,
        r.agent_id is Some && r.agent_id->0@ == "main"@,
        r.idempotency_key is Some && r.idempotency_key->0@ == event.idempotency_key@,
        opt_text(r.sender_id) == opt_text(event.sender_id),
        opt_text(r.message_id) == opt_text(event.message_id),
        opt_model(r.metadata) == opt_model(event.metadata),
{
}

/// What is kept of an event is when it came, where, and what became of it.
pub proof fn law_what_is_kept(channel: &str, event_id: &str, result: &InboundProcessResult, now: u64, r: Json)
    requires
        call_ensures(mark_event_processed, (channel, event_id, result, now), r),
    ensures
        crate::json::member(r@, "processedAtMs"@) == Some(JsonModel::Unsigned(now)),
        crate::json::member(r@, "channel"@) == Some(JsonModel::Text(channel@)),
        crate::json::member(r@, "eventId"@) == Some(JsonModel::Text(event_id@)),
        crate::json::member(r@, "sessionKey"@) == Some(JsonModel::Text(result.session_key@)),
        result.run_id is Some ==> crate::json::member(r@, "runId"@) == Some(JsonModel::Text(result.run_id->0@)),
{
    reveal_strlit("processedAtMs");
    reveal_strlit("channel");
    reveal_strlit("eventId");
    reveal_strlit("sessionKey");
    reveal_strlit("runId");
    assert("processedAtMs"@.len() != "channel"@.len());
    assert("processedAtMs"@.len() != "eventId"@.len());
    assert("processedAtMs"@.len() != "sessionKey"@.len());
    assert("processedAtMs"@.len() != "runId"@.len());
    assert("channel"@[0] != "eventId"@[0]);
    assert("channel"@.len() != "sessionKey"@.len());
    assert("channel"@.len() != "runId"@.len());
    assert("eventId"@.len() != "sessionKey"@.len());
    assert("eventId"@.len() != "runId"@.len());
    assert("sessionKey"@.len() != "runId"@.len());
}

} // verus!
