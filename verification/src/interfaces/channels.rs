//! Messages that bridges of channels deliver.
use crate::ids::{is_uuid_text, new_id};
use crate::interfaces::channel_adapter_common::{
    bad_request, error_body, error_status, has_bearer_token, map_error_shape, presents, refusal_body,
    unauthorized, HttpReply,
};
use crate::interfaces::compat::header_text;
use crate::json::{member, no_fields, object, opt_text_json, set_field, text, text_of, text_or_null, value_or_null, Json, JsonModel};
use crate::protocol::errors::ErrorShape;
use crate::rpc::policy::{default_operator_scopes, operator_scopes};
use crate::rpc::SessionContext;
use crate::slug::{slug, slug_of};
use crate::text::{cat, cat4, cat5, opt_text, text_or, texts, trim, trimmed};
use vstd::prelude::*;

verus! {

/// A message of a channel.
pub struct InboundMessageRequest {
    pub channel: String,
    pub conversation_id: String,
    pub text: String,
    pub agent_id: Option<String>,
    pub sender_id: Option<String>,
    pub message_id: Option<String>,
    pub idempotency_key: Option<String>,
    pub metadata: Option<Json>,
}

/// What came of a message.
pub struct InboundProcessResult {
    pub session_key: String,
    pub run_id: Option<String>,
    pub reply: Option<String>,
}

/// A message with the session that it belongs to and the key that tells it from others.
pub struct NormalizedInbound {
    pub channel: String,
    pub text: String,
    pub session_key: String,
    pub idempotency_key: String,
}

/// A name reduced to a segment; nothing where nothing is left of it.
pub open spec fn segment(value: Option<Seq<char>>) -> Option<Seq<char>> {
    match value {
        None => None,
        Some(s) => if slug(s, true).len() == 0 {
            None
        } else {
            Some(slug(s, true))
        },
    }
}

/// Why a message is refused.
pub open spec fn inbound_refusal(input: InboundMessageRequest) -> Option<Seq<char>> {
    if slug(input.channel@, true).len() == 0 {
        Some("channel is required"@)
    } else if slug(input.conversation_id@, true).len() == 0 {
        Some("conversationId is required"@)
    } else if trimmed(input.text@).len() == 0 {
        Some("text is required"@)
    } else {
        None
    }
}

/// The session of a message.
pub open spec fn inbound_session_key(input: InboundMessageRequest) -> Seq<char> {
    "agent:"@ + text_or(segment(opt_text(input.agent_id)), "main"@) + ":"@ + slug(
        input.channel@,
        true,
    ) + ":chat:"@ + slug(input.conversation_id@, true)
}

/// The key that tells a message from others: the one that it came with, or one made of where it
/// came from and its own id, or of a fresh id where it has none.
pub open spec fn inbound_key(input: InboundMessageRequest, id: Seq<char>) -> Seq<char> {
    text_or(
        segment(opt_text(input.idempotency_key)),
        slug(input.channel@, true) + "-"@ + slug(input.conversation_id@, true) + "-"@ + text_or(
            segment(opt_text(input.message_id)),
            id,
        ),
    )
}

/// The message normalized.
pub open spec fn is_normalized(n: NormalizedInbound, input: InboundMessageRequest, id: Seq<char>) -> bool {
    &&& n.channel@ == slug(input.channel@, true)
    &&& n.text@ == trimmed(input.text@)
    &&& n.session_key@ == inbound_session_key(input)
    &&& n.idempotency_key@ == inbound_key(input, id)
}

/// A name reduced to a segment; nothing where nothing is left of it.
fn to_segment(value: &Option<String>) -> (r: Option<String>)
    ensures
        opt_text(r) == segment(opt_text(*value)),
{
    match value {
        None => None,
        Some(s) => {
            let t = slug_of(s.as_str(), true);
            if t.as_str().is_empty() {
                None
            } else {
                Some(t)
            }
        },
    }
}

/// The message with its session and its key, or why it is refused.
pub fn normalize_inbound(input: &InboundMessageRequest) -> (r: Result<NormalizedInbound, String>)
    ensures
        match inbound_refusal(*input) {
            Some(message) => r is Err && r->Err_0@ == message,
            None => r is Ok && exists|id: Seq<char>| #[trigger]
                is_uuid_text(id) && is_normalized(r->Ok_0, *input, id),
        },
{
    let id = new_id();
    let r = normalize_inbound_with(input, id.as_str());
    assert(is_uuid_text(id@));
    r
}

/// The message with its session and its key, made of the given id where it has none of its own.
pub fn normalize_inbound_with(input: &InboundMessageRequest, id: &str) -> (r: Result<
    NormalizedInbound,
    String,
>)
    ensures
        match inbound_refusal(*input) {
            Some(message) => r is Err && r->Err_0@ == message,
            None => r is Ok && is_normalized(r->Ok_0, *input, id@),
        },
{
    let channel = slug_of(input.channel.as_str(), true);
    if channel.as_str().is_empty() {
        return Err("channel is required".to_owned());
    }
    let conversation = slug_of(input.conversation_id.as_str(), true);
    if conversation.as_str().is_empty() {
        return Err("conversationId is required".to_owned());
    }
    let agent_id = match to_segment(&input.agent_id) {
        Some(agent_id) => agent_id,
        None => "main".to_owned(),
    };
    let body = trim(input.text.as_str());
    if body.as_str().is_empty() {
        return Err("text is required".to_owned());
    }
    let message_part = match to_segment(&input.message_id) {
        Some(part) => part,
        None => id.to_owned(),
    };
    let idempotency_key = match to_segment(&input.idempotency_key) {
        Some(key) => key,
        None => cat5(channel.as_str(), "-", conversation.as_str(), "-", message_part.as_str()),
    };
    let head = cat4("agent:", agent_id.as_str(), ":", channel.as_str());
    let tail = cat(":chat:", conversation.as_str());
    let session_key = cat(head.as_str(), tail.as_str());
    assert(session_key@ =~= inbound_session_key(*input));
    Ok(NormalizedInbound { channel, text: body, session_key, idempotency_key })
}

/// The parameters of the chat that a message becomes.
pub open spec fn chat_params(session_key: Seq<char>, message: Seq<char>, key: Seq<char>) -> JsonModel {
    JsonModel::Object(
        no_fields().insert("sessionKey"@, JsonModel::Text(session_key)).insert(
            "message"@,
            JsonModel::Text(message),
        ).insert("idempotencyKey"@, JsonModel::Text(key)),
    )
}

/// The parameters of the chat that a message becomes.
pub fn build_chat_params(session_key: &str, message: &str, key: &str) -> (r: Json)
    ensures
        r@ == chat_params(session_key@, message@, key@),
{
    let mut o = object();
    set_field(&mut o, "sessionKey", text(session_key));
    set_field(&mut o, "message", text(message));
    set_field(&mut o, "idempotencyKey", text(key));
    Json::Object(o)
}

/// The session of an operator behind HTTP.
pub open spec fn is_http_session(
    s: SessionContext,
    conn_id: Seq<char>,
    client_id: Seq<char>,
    client_mode: Seq<char>,
) -> bool {
    &&& s.conn_id@ == conn_id
    &&& s.role@ == "operator"@
    &&& texts(s.scopes@) == operator_scopes()
    &&& s.client_id@ == client_id
    &&& s.client_mode@ == client_mode
}

/// The session of an operator behind HTTP.
pub fn http_session(conn_id: &str, client_id: &str, client_mode: &str) -> (r: SessionContext)
    ensures
        is_http_session(r, conn_id@, client_id@, client_mode@),
{
    SessionContext {
        conn_id: conn_id.to_owned(),
        role: "operator".to_owned(),
        scopes: default_operator_scopes(),
        client_id: client_id.to_owned(),
        client_mode: client_mode.to_owned(),
    }
}

/// The chat that a message becomes.
pub struct InboundPlan {
    pub session: SessionContext,
    pub session_key: String,
    pub params: Json,
}

/// The chat that a message becomes, or the refusal of the request: a token that is asked for must
/// be presented, and the message must be one.
pub fn inbound_handler(
    required_token: &Option<String>,
    authorization: Option<&str>,
    payload: &InboundMessageRequest,
    message_id: &str,
    conn_id: &str,
) -> (r: Result<InboundPlan, HttpReply>)
    ensures
        if required_token is Some && !presents(
            header_text(authorization),
            required_token->0@,
        ) {
            r is Err && r->Err_0.says(
                401,
                refusal_body("UNAUTHORIZED"@, "invalid or missing bearer token"@),
            )
        } else {
            match inbound_refusal(*payload) {
                Some(message) => r is Err && r->Err_0.says(
                    400,
                    refusal_body("INVALID_REQUEST"@, message),
                ),
                None => {
                    &&& r is Ok
                    &&& r->Ok_0.session_key@ == inbound_session_key(*payload)
                    &&& r->Ok_0.params@ == chat_params(
                        inbound_session_key(*payload),
                        trimmed(payload.text@),
                        inbound_key(*payload, message_id@),
                    )
                    &&& is_http_session(
                        r->Ok_0.session,
                        "http-inbound-"@ + conn_id@,
                        slug(payload.channel@, true) + "-bridge"@,
                        "channel-bridge"@,
                    )
                },
            }
        },
{
    if let Some(token) = required_token {
        if !has_bearer_token(authorization, token.as_str()) {
            return Err(unauthorized("invalid or missing bearer token"));
        }
    }
    match normalize_inbound_with(payload, message_id) {
        Err(message) => Err(bad_request(message.as_str())),
        Ok(inbound) => {
            let params = build_chat_params(
                inbound.session_key.as_str(),
                inbound.text.as_str(),
                inbound.idempotency_key.as_str(),
            );
            let conn = cat("http-inbound-", conn_id);
            let client = cat(inbound.channel.as_str(), "-bridge");
            let session = http_session(conn.as_str(), client.as_str(), "channel-bridge");
            Ok(InboundPlan { session, session_key: inbound.session_key, params })
        },
    }
}

/// What came of a message, from what its chat was answered.
pub fn inbound_result(session_key: &str, payload: &Json) -> (r: InboundProcessResult)
    ensures
        r.session_key@ == session_key@,
        opt_text(r.run_id) == text_of(member(payload@, "runId"@)),
        opt_text(r.reply) == text_of(member(payload@, "message"@)),
{
    InboundProcessResult {
        session_key: session_key.to_owned(),
        run_id: payload.get_text("runId"),
        reply: payload.get_text("message"),
    }
}

/// The answer to a message, from what its chat was answered.
pub fn inbound_reply(session_key: &str, result: &Result<Json, ErrorShape>) -> (r: HttpReply)
    ensures
        match result {
            Ok(payload) => r.says(
                200,
                JsonModel::Object(
                    no_fields().insert("ok"@, JsonModel::Bool(true)).insert(
                        "sessionKey"@,
                        JsonModel::Text(session_key@),
                    ).insert("runId"@, value_or_null(member(payload@, "runId"@))).insert(
                        "reply"@,
                        text_or_null(text_of(member(payload@, "message"@))),
                    ),
                ),
            ),
            Err(error) => r.says(error_status(error.code@), error_body(error@)),
        },
{
    match result {
        Ok(payload) => {
            let run_id = match payload.get("runId") {
                Some(value) => value.copy(),
                None => Json::Null,
            };
            let mut body = object();
            set_field(&mut body, "ok", Json::Bool(true));
            set_field(&mut body, "sessionKey", text(session_key));
            set_field(&mut body, "runId", run_id);
            set_field(&mut body, "reply", opt_text_json(&payload.get_text("message")));
            HttpReply { status: 200, body: Json::Object(body) }
        },
        Err(error) => map_error_shape(error),
    }
}

/// A message that comes again with the same key of its own, or the same id, has the same key: the
/// fresh id makes no difference to it.
pub proof fn law_own_ids_fix_the_key(input: InboundMessageRequest, a: Seq<char>, b: Seq<char>)
    requires
        segment(opt_text(input.idempotency_key)) is Some || segment(opt_text(input.message_id))
            is Some,
    ensures
        inbound_key(input, a) == inbound_key(input, b),
{
}

/// The parts of a session's key stand in it one by one: two keys of this form are the same only where
/// all their parts are.
pub proof fn lemma_keys_are_apart(
    a: Seq<char>,
    b: Seq<char>,
    c: Seq<char>,
    x: Seq<char>,
    y: Seq<char>,
    z: Seq<char>,
)
    requires
        !a.contains(':') && !b.contains(':') && !c.contains(':'),
        !x.contains(':') && !y.contains(':') && !z.contains(':'),
        "agent:"@ + a + ":"@ + b + ":chat:"@ + c == "agent:"@ + x + ":"@ + y + ":chat:"@ + z,
    ensures
        a == x && b == y && c == z,
{
    reveal_strlit("agent:");
    reveal_strlit(":");
    reveal_strlit(":chat:");
    let s = "agent:"@ + a + ":"@ + b + ":chat:"@ + c;
    let t = "agent:"@ + x + ":"@ + y + ":chat:"@ + z;
    lemma_same_cut(s.skip(6), a, ":"@ + b + ":chat:"@ + c, x, ":"@ + y + ":chat:"@ + z);
    let s2 = b + (":chat:"@ + c);
    assert(s.skip(6) =~= a + (":"@ + b + ":chat:"@ + c));
    assert(t.skip(6) =~= x + (":"@ + y + ":chat:"@ + z));
    assert((":"@ + b + ":chat:"@ + c).skip(1) =~= s2);
    assert((":"@ + y + ":chat:"@ + z).skip(1) =~= y + (":chat:"@ + z));
    lemma_same_cut(s2, b, ":chat:"@ + c, y, ":chat:"@ + z);
    assert((":chat:"@ + c).skip(6) =~= c);
    assert((":chat:"@ + z).skip(6) =~= z);
}

proof fn lemma_same_cut(s: Seq<char>, a: Seq<char>, rest: Seq<char>, x: Seq<char>, tail: Seq<char>)
    requires
        !a.contains(':') && !x.contains(':'),
        rest.len() > 0 && rest[0] == ':',
        tail.len() > 0 && tail[0] == ':',
    ensures
        a + rest == x + tail ==> a == x && rest == tail,
{
    if a + rest == x + tail {
        let w = a + rest;
        if a.len() < x.len() {
            assert(w[a.len() as int] == ':');
            assert((x + tail)[a.len() as int] == x[a.len() as int]);
            assert(x.contains(':'));
        }
        if x.len() < a.len() {
            assert((x + tail)[x.len() as int] == ':');
            assert(w[x.len() as int] == a[x.len() as int]);
            assert(a.contains(':'));
        }
        assert(a =~= w.take(a.len() as int));
        assert(x =~= (x + tail).take(a.len() as int));
        assert(rest =~= w.skip(a.len() as int));
        assert(tail =~= (x + tail).skip(a.len() as int));
    }
}

proof fn lemma_slug_has_no_colon(s: Seq<char>)
    ensures
        !slug(s, true).contains(':'),
{
    crate::slug::law_slug_shape(s, true);
    if slug(s, true).contains(':') {
        let k = choose|k: int| 0 <= k < slug(s, true).len() && slug(s, true)[k] == ':';
        assert(crate::slug::is_slug_char(slug(s, true)[k]) || slug(s, true)[k] == '-');
    }
}

/// Two messages go to the same session exactly where they are for the same agent, of the same channel
/// and of the same conversation, each by its reduced name; without an agent they are for the main one.
pub proof fn law_messages_share_a_session(
    first: &InboundMessageRequest,
    second: &InboundMessageRequest,
    id: &str,
    a: Result<NormalizedInbound, String>,
    b: Result<NormalizedInbound, String>,
)
    requires
        call_ensures(normalize_inbound_with, (first, id), a),
        call_ensures(normalize_inbound_with, (second, id), b),
        a is Ok && b is Ok,
        first.agent_id is None && second.agent_id is None,
    ensures
        a->Ok_0.session_key@ == b->Ok_0.session_key@ <==> slug(first.channel@, true) == slug(
            second.channel@,
            true,
        ) && slug(first.conversation_id@, true) == slug(second.conversation_id@, true),
        a->Ok_0.session_key@ == "agent:main:"@ + slug(first.channel@, true) + ":chat:"@ + slug(
            first.conversation_id@,
            true,
        ),
{
    reveal_strlit("main");
    assert(!"main"@.contains(':'));
    let (c, v) = (slug(first.channel@, true), slug(first.conversation_id@, true));
    let (y, z) = (slug(second.channel@, true), slug(second.conversation_id@, true));
    lemma_slug_has_no_colon(first.channel@);
    lemma_slug_has_no_colon(second.channel@);
    lemma_slug_has_no_colon(first.conversation_id@);
    lemma_slug_has_no_colon(second.conversation_id@);
    if a->Ok_0.session_key@ == b->Ok_0.session_key@ {
        lemma_keys_are_apart("main"@, c, v, "main"@, y, z);
    }
    reveal_strlit("agent:");
    reveal_strlit(":");
    reveal_strlit("agent:main:");
    assert("agent:"@ + "main"@ + ":"@ =~= "agent:main:"@);
}

/// A message is taken exactly where its channel and its conversation have a letter or a digit in their
/// names, and its text is not blank; the text is taken without the white space around it. The key by
/// which it is told from others is its own where it has one, and otherwise made of channel,
/// conversation and the id of the message.
pub proof fn law_messages_that_are_taken(
    input: &InboundMessageRequest,
    id: &str,
    r: Result<NormalizedInbound, String>,
)
    requires
        call_ensures(normalize_inbound_with, (input, id), r),
    ensures
        r is Ok <==> crate::slug::letters_of(input.channel@).len() > 0 && crate::slug::letters_of(
            input.conversation_id@,
        ).len() > 0 && crate::text::not_blank(input.text@),
        r is Ok ==> r->Ok_0.text@ == trimmed(input.text@),
        r is Ok && input.idempotency_key is Some && crate::slug::letters_of(
            input.idempotency_key->0@,
        ).len() > 0 ==> r->Ok_0.idempotency_key@ == slug(input.idempotency_key->0@, true),
        r is Ok && input.idempotency_key is None && input.message_id is Some && crate::slug::letters_of(
            input.message_id->0@,
        ).len() > 0 ==> r->Ok_0.idempotency_key@ == slug(input.channel@, true) + "-"@ + slug(
            input.conversation_id@,
            true,
        ) + "-"@ + slug(input.message_id->0@, true),
        r is Ok && input.idempotency_key is None && input.message_id is None
            ==> r->Ok_0.idempotency_key@ == slug(input.channel@, true) + "-"@ + slug(
            input.conversation_id@,
            true,
        ) + "-"@ + id@,
{
    lemma_slug_empty(input.channel@);
    lemma_slug_empty(input.conversation_id@);
    if input.idempotency_key is Some {
        lemma_slug_empty(input.idempotency_key->0@);
    }
    if input.message_id is Some {
        lemma_slug_empty(input.message_id->0@);
    }
    crate::text::lemma_kept(input.text@);
}

proof fn lemma_slug_empty(s: Seq<char>)
    ensures
        slug(s, true).len() == 0 <==> crate::slug::letters_of(s).len() == 0,
{
    crate::slug::law_slug_keeps_letters(s, true);
    crate::slug::law_slug_shape(s, true);
    let t = slug(s, true);
    if t.len() > 0 {
        assert(crate::slug::is_slug_char(t.last()));
        assert(crate::slug::letters_of(t).len() > 0);
    }
}

/// What a channel hands over is refused where the gateway asks for a token and the request does not
/// bear it; otherwise it is handed on as a message of a channel's bridge.
pub proof fn law_bridges_need_the_token(
    required_token: &Option<String>,
    authorization: Option<&str>,
    payload: &InboundMessageRequest,
    message_id: &str,
    conn_id: &str,
    r: Result<InboundPlan, HttpReply>,
    n: Result<NormalizedInbound, String>,
)
    requires
        call_ensures(inbound_handler, (required_token, authorization, payload, message_id, conn_id), r),
        call_ensures(normalize_inbound_with, (payload, message_id), n),
    ensures
        ({
            let open = required_token is None || (authorization is Some && authorization->0@ == "Bearer "@
                + required_token->0@);
            &&& r is Ok <==> open && n is Ok
            &&& !open ==> r is Err && r->Err_0.status == 401
            &&& open && n is Err ==> r is Err && r->Err_0.status == 400
            &&& r is Ok ==> r->Ok_0.session_key@ == n->Ok_0.session_key@ && r->Ok_0.params@
                == JsonModel::Object(
                no_fields().insert("sessionKey"@, JsonModel::Text(n->Ok_0.session_key@)).insert(
                    "message"@,
                    JsonModel::Text(n->Ok_0.text@),
                ).insert("idempotencyKey"@, JsonModel::Text(n->Ok_0.idempotency_key@)),
            ) && r->Ok_0.session.role@ == "operator"@
        }),
{
    if authorization is Some && required_token is Some {
        let h = authorization->0@;
        let p = "Bearer "@;
        let t = required_token->0@;
        if h == p + t {
            assert(h.take(p.len() as int) =~= p);
            assert(h.skip(p.len() as int) =~= t);
        }
        if h.len() >= p.len() && h.take(p.len() as int) == p {
            assert(h =~= p + h.skip(p.len() as int));
        }
    }
}

/// What is answered to a message of a channel carries the session, the run and the reply; an error is
/// answered as a wrong request where the request was wrong, and otherwise as unavailable.
pub proof fn law_answers_to_channels(session_key: &str, result: &Result<Json, ErrorShape>, r: HttpReply, done: InboundProcessResult, payload: &Json)
    requires
        call_ensures(inbound_reply, (session_key, result), r),
        call_ensures(inbound_result, (session_key, payload), done),
    ensures
        *result is Ok <==> r.status == 200,
        *result matches Err(e) ==> r.status == (if e.code@ == "INVALID_REQUEST"@ {
            400u16
        } else {
            503u16
        }),
        done.session_key@ == session_key@,
        done.reply is Some <==> member(payload@, "message"@) matches Some(JsonModel::Text(_)),
        member(payload@, "message"@) matches Some(JsonModel::Text(t)) ==> done.reply->0@ == t,
        member(payload@, "runId"@) matches Some(JsonModel::Text(t)) ==> done.run_id is Some && done.run_id->0@ == t,
{
}

} // verus!
