//! The webhook of Signal.
use crate::interfaces::channel_adapter_common::{
    accepted_false, channel_open, channel_refusal, ignored_body, require_channel_bearer_token,
    ChannelInboundEvent, HttpReply,
};
use crate::interfaces::compat::header_text;
use crate::interfaces::discord::{build_source_metadata, lemma_said, member_text, read_string, said, says, source_metadata};
use crate::interfaces::slack::lemma_bears;
use crate::interfaces::webhooks::{answers, EventModel, ReplyRoute, RouteModel, TakeModel, WebhookTake};
use crate::json::{member, Json, JsonModel};
use crate::text::{cat, decimal_int, decimal_text_signed, lemma_kept, opt_text, trim, trimmed};
use vstd::prelude::*;

verus! {

/// The number of a value that is a whole number of 64 bits.
pub open spec fn integer_of(value: Option<JsonModel>) -> Option<int> {
    match value {
        Some(JsonModel::Unsigned(n)) => if n <= i64::MAX {
            Some(n as int)
        } else {
            None
        },
        Some(JsonModel::Negative(n)) => Some(n as int),
        _ => None,
    }
}

/// The text of a message in an envelope.
pub open spec fn signal_text(envelope: JsonModel) -> Seq<char> {
    trimmed(
        match member(envelope, "dataMessage"@) {
            Some(data) => member_text(data, "message"@),
            None => ""@,
        },
    )
}

/// What comes of what Signal sent.
pub open spec fn signal_model(payload: JsonModel) -> Result<TakeModel, (u16, JsonModel)> {
    match member(payload, "envelope"@) {
        None => Err((200, ignored_body("no-envelope"@))),
        Some(envelope) => {
            let source = trimmed(member_text(envelope, "sourceNumber"@));
            if signal_text(envelope).len() == 0 {
                Err((200, ignored_body("no-text"@)))
            } else if source.len() == 0 {
                Err((200, ignored_body("no-source"@)))
            } else {
                match integer_of(member(envelope, "timestamp"@)) {
                    None => Err((200, ignored_body("no-timestamp"@))),
                    Some(n) => {
                        let stamp = decimal_int(n);
                        Ok(
                            TakeModel {
                                dedupe_key: "runtime/signal/event/"@ + stamp,
                                event_id: stamp,
                                event: EventModel {
                                    channel: "signal"@,
                                    conversation_id: source,
                                    text: signal_text(envelope),
                                    sender_id: Some(source),
                                    message_id: Some(stamp),
                                    idempotency_key: "signal-"@ + stamp,
                                    metadata: Some(source_metadata("signal"@)),
                                },
                                route: Some(
                                    RouteModel {
                                        channel: "signal"@,
                                        conversation_id: source,
                                        source_sender_id: Some(source),
                                        source_message_id: Some(stamp),
                                        metadata: Some(source_metadata("signal"@)),
                                        log_scope: "channels.signal.webhook"@,
                                    },
                                ),
                            },
                        )
                    },
                }
            }
        },
    }
}

/// The number of a value that is a whole number of 64 bits.
pub fn as_integer(value: Option<&Json>) -> (r: Option<i64>)
    ensures
        match r {
            Some(n) => value is Some && integer_of(Some(value->0@)) == Some(n as int),
            None => value is None || integer_of(Some(value->0@)) is None,
        },
{
    match value {
        Some(Json::Unsigned(n)) => if *n <= i64::MAX as u64 {
            Some(*n as i64)
        } else {
            None
        },
        Some(Json::Negative(n)) => Some(*n),
        _ => None,
    }
}

/// The message to take of what Signal sent, or the answer where there is none.
pub fn dispatch_webhook(authorization: Option<&str>, token: &Option<String>, payload: &Json) -> (r:
    Result<WebhookTake, HttpReply>)
    ensures
        if !channel_open(header_text(authorization), opt_text(*token)) {
            r is Err && channel_refusal(
                r->Err_0,
                header_text(authorization),
                opt_text(*token),
                "signal"@,
            )
        } else {
            answers(r, signal_model(payload@))
        },
{
    if let Err(reply) = require_channel_bearer_token(authorization, token, "signal") {
        return Err(reply);
    }
    let envelope = match payload.get("envelope") {
        Some(envelope) => envelope,
        None => {
            return Err(accepted_false("no-envelope"));
        },
    };
    let raw = match envelope.get("dataMessage") {
        Some(data) => read_string(data, "message"),
        None => "".to_owned(),
    };
    let body = trim(raw.as_str());
    if body.as_str().is_empty() {
        return Err(accepted_false("no-text"));
    }
    let source = trim(read_string(envelope, "sourceNumber").as_str());
    if source.as_str().is_empty() {
        return Err(accepted_false("no-source"));
    }
    let stamp = match as_integer(envelope.get("timestamp")) {
        Some(n) => decimal_text_signed(n),
        None => {
            return Err(accepted_false("no-timestamp"));
        },
    };
    Ok(
        WebhookTake {
            dedupe_key: cat("runtime/signal/event/", stamp.as_str()),
            event: ChannelInboundEvent {
                channel: "signal",
                conversation_id: source.clone(),
                text: body,
                sender_id: Some(source.clone()),
                message_id: Some(stamp.clone()),
                idempotency_key: cat("signal-", stamp.as_str()),
                metadata: Some(build_source_metadata("signal")),
            },
            route: Some(
                ReplyRoute {
                    channel: "signal",
                    conversation_id: source.clone(),
                    source_sender_id: Some(source),
                    source_message_id: Some(stamp.clone()),
                    metadata: Some(build_source_metadata("signal")),
                    log_scope: "channels.signal.webhook",
                },
            ),
            event_id: stamp,
        },
    )
}

/// What Signal sends is taken where the request bears the token and the envelope holds
/// a text, the number it came from and the whole number of its time. It goes to the
/// conversation with that number, and the answer goes back there. Two deliveries with
/// one time share a key.
pub proof fn law_signal_messages(
    authorization: Option<&str>,
    token: &Option<String>,
    payload: &Json,
    r: Result<WebhookTake, HttpReply>,
)
    requires
        call_ensures(dispatch_webhook, (authorization, token, payload), r),
    ensures
        ({
            let envelope = member(payload@, "envelope"@)->0;
            let data = member(envelope, "dataMessage"@)->0;
            let open = *token is Some && authorization is Some && authorization->0@ == "Bearer "@
                + token->0@;
            let time = member(envelope, "timestamp"@);
            let n: int = match time {
                Some(JsonModel::Unsigned(n)) => n as int,
                Some(JsonModel::Negative(n)) => n as int,
                _ => 0,
            };
            &&& r is Ok <==> open && member(payload@, "envelope"@) is Some && member(
                envelope,
                "dataMessage"@,
            ) is Some && says(data, "message"@) && says(envelope, "sourceNumber"@) && time is Some
                && (time->0 is Unsigned || time->0 is Negative) && n <= 0x7fff_ffff_ffff_ffff
            &&& r is Err ==> r->Err_0.status == (if open {
                200u16
            } else if *token is None {
                503u16
            } else {
                401u16
            })
            &&& r is Ok ==> {
                let take = r->Ok_0;
                let source = trimmed(said(envelope, "sourceNumber"@));
                &&& take.dedupe_key@ == "runtime/signal/event/"@ + decimal_int(n)
                &&& take.event.channel@ == "signal"@
                &&& take.event.conversation_id@ == source
                &&& opt_text(take.event.sender_id) == Some(source)
                &&& take.event.text@ == trimmed(said(data, "message"@))
                &&& take.event.idempotency_key@ == "signal-"@ + decimal_int(n)
                &&& opt_text(take.event.message_id) == Some(decimal_int(n))
                &&& take.route is Some && take.route->0.channel@ == "signal"@
                    && take.route->0.conversation_id@ == source
            }
        }),
{
    lemma_bears(authorization, token);
    if let Some(envelope) = member(payload@, "envelope"@) {
        lemma_said(envelope, "sourceNumber"@);
        if let Some(data) = member(envelope, "dataMessage"@) {
            lemma_said(data, "message"@);
        }
        lemma_kept(""@);
        reveal_strlit("");
    }
}

/// A message of Signal that is left is answered with what is missing.
pub proof fn law_why_signal_messages_are_left(authorization: Option<&str>, token: &Option<String>, payload: &Json, r: Result<WebhookTake, HttpReply>)
    requires
        call_ensures(dispatch_webhook, (authorization, token, payload), r),
        *token is Some && authorization is Some && authorization->0@ == "Bearer "@ + token->0@,
        r is Err,
        member(payload@, "envelope"@) is Some && member(
            member(payload@, "envelope"@)->0,
            "dataMessage"@,
        ) is Some,
    ensures
        crate::json::member(r->Err_0.body@, "accepted"@) == Some(JsonModel::Bool(false)),
        crate::json::member(r->Err_0.body@, "reason"@) == Some(
            JsonModel::Text(
                ({
                    let envelope = member(payload@, "envelope"@)->0;
                    if !says(member(envelope, "dataMessage"@)->0, "message"@) {
                        "no-text"@
                    } else if !says(envelope, "sourceNumber"@) {
                        "no-source"@
                    } else {
                        "no-timestamp"@
                    }
                }),
            ),
        ),
{
    lemma_bears(authorization, token);
    let envelope = member(payload@, "envelope"@)->0;
    lemma_said(envelope, "sourceNumber"@);
    lemma_said(member(envelope, "dataMessage"@)->0, "message"@);
    reveal_strlit("ok");
    reveal_strlit("accepted");
    reveal_strlit("reason");
    assert("ok"@.len() != "accepted"@.len());
    assert("ok"@.len() != "reason"@.len());
    assert("accepted"@.len() != "reason"@.len());
}

} // verus!
