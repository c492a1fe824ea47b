//! The webhook of Slack.
use crate::application::state::copy_text;
use crate::interfaces::channel_adapter_common::{
    accepted_false, bad_request, channel_open, channel_refusal, ignored_body, refusal_body,
    require_channel_bearer_token, ChannelInboundEvent, HttpReply,
};
use crate::interfaces::compat::header_text;
use crate::interfaces::webhooks::{answers, EventModel, ReplyRoute, RouteModel, TakeModel, WebhookTake};
use crate::json::{member, no_fields, object, opt_text_json, set_field, text, text_or_null, Json, JsonModel};
use crate::text::{cat, kept, lemma_kept, not_blank, opt_text, same, text_or, trim, trim_non_empty, trimmed};
use vstd::prelude::*;

verus! {

/// What Slack sends.
pub struct SlackWebhookPayload {
    pub kind: Option<String>,
    pub challenge: Option<String>,
    pub event_id: Option<String>,
    pub event: Option<SlackEvent>,
}

/// An event of Slack.
pub struct SlackEvent {
    pub kind: Option<String>,
    pub channel: Option<String>,
    pub user: Option<String>,
    pub text: Option<String>,
    pub ts: Option<String>,
}

/// The id that an event is known by: its own, or its time.
pub open spec fn slack_id(payload: SlackWebhookPayload) -> Seq<char> {
    match opt_text(payload.event_id) {
        Some(id) => id,
        None => text_or(opt_text(payload.event->0.ts), ""@),
    }
}

/// What comes of what Slack sent.
pub open spec fn slack_model(payload: SlackWebhookPayload) -> Result<TakeModel, (u16, JsonModel)> {
    if opt_text(payload.kind) == Some("url_verification"@) && payload.challenge is Some {
        Err(
            (
                200,
                JsonModel::Object(
                    no_fields().insert("ok"@, JsonModel::Bool(true)).insert(
                        "challenge"@,
                        JsonModel::Text(payload.challenge->0@),
                    ),
                ),
            ),
        )
    } else if payload.event is None {
        Err((200, ignored_body("no-event"@)))
    } else {
        let event = payload.event->0;
        let channel = trimmed(text_or(opt_text(event.channel), ""@));
        let body = trimmed(text_or(opt_text(event.text), ""@));
        let id = slack_id(payload);
        if opt_text(event.kind) != Some("message"@) {
            Err((200, ignored_body("unsupported-event"@)))
        } else if channel.len() == 0 {
            Err((200, ignored_body("no-channel"@)))
        } else if body.len() == 0 {
            Err((200, ignored_body("no-text"@)))
        } else if kept(id) is None {
            Err((200, ignored_body("no-event-id"@)))
        } else {
            Ok(
                TakeModel {
                    dedupe_key: "runtime/slack/event/"@ + id,
                    event_id: id,
                    event: EventModel {
                        channel: "slack"@,
                        conversation_id: channel,
                        text: body,
                        sender_id: opt_text(event.user),
                        message_id: opt_text(event.ts),
                        idempotency_key: "slack-"@ + id,
                        metadata: Some(
                            JsonModel::Object(
                                no_fields().insert(
                                    "eventType"@,
                                    JsonModel::Text("message"@),
                                ).insert("eventTs"@, text_or_null(opt_text(event.ts))),
                            ),
                        ),
                    },
                    route: Some(
                        RouteModel {
                            channel: "slack"@,
                            conversation_id: channel,
                            source_sender_id: None,
                            source_message_id: Some(id),
                            metadata: Some(
                                JsonModel::Object(
                                    no_fields().insert(
                                        "eventType"@,
                                        JsonModel::Text("message"@),
                                    ).insert("eventId"@, JsonModel::Text(id)),
                                ),
                            ),
                            log_scope: "channels.slack.webhook"@,
                        },
                    ),
                },
            )
        }
    }
}

fn text_or_empty(value: &Option<String>) -> (r: String)
    ensures
        r@ == text_or(opt_text(*value), ""@),
{
    match value {
        Some(s) => s.clone(),
        None => "".to_owned(),
    }
}

fn has_kind(value: &Option<String>, kind: &str) -> (r: bool)
    ensures
        r == (opt_text(*value) == Some(kind@)),
{
    match value {
        Some(s) => same(s.as_str(), kind),
        None => false,
    }
}

/// The message to take of what Slack sent, or the answer where there is none.
pub fn dispatch_webhook(
    authorization: Option<&str>,
    token: &Option<String>,
    payload: Result<SlackWebhookPayload, String>,
) -> (r: Result<WebhookTake, HttpReply>)
    ensures
        if !channel_open(header_text(authorization), opt_text(*token)) {
            r is Err && channel_refusal(
                r->Err_0,
                header_text(authorization),
                opt_text(*token),
                "slack"@,
            )
        } else {
            match payload {
                Err(error) => r is Err && r->Err_0.says(
                    400,
                    refusal_body(
                        "INVALID_REQUEST"@,
                        "invalid slack webhook payload: "@ + error@,
                    ),
                ),
                Ok(payload) => answers(r, slack_model(payload)),
            }
        },
{
    if let Err(reply) = require_channel_bearer_token(authorization, token, "slack") {
        return Err(reply);
    }
    let payload = match payload {
        Ok(payload) => payload,
        Err(error) => {
            return Err(
                bad_request(cat("invalid slack webhook payload: ", error.as_str()).as_str()),
            );
        },
    };
    if has_kind(&payload.kind, "url_verification") {
        if let Some(challenge) = &payload.challenge {
            let mut body = object();
            set_field(&mut body, "ok", Json::Bool(true));
            set_field(&mut body, "challenge", text(challenge.as_str()));
            return Err(HttpReply { status: 200, body: Json::Object(body) });
        }
    }
    let event = match &payload.event {
        Some(event) => event,
        None => {
            return Err(accepted_false("no-event"));
        },
    };
    if !has_kind(&event.kind, "message") {
        return Err(accepted_false("unsupported-event"));
    }
    let conversation_id = trim(text_or_empty(&event.channel).as_str());
    if conversation_id.as_str().is_empty() {
        return Err(accepted_false("no-channel"));
    }
    let body = trim(text_or_empty(&event.text).as_str());
    if body.as_str().is_empty() {
        return Err(accepted_false("no-text"));
    }
    let id = match &payload.event_id {
        Some(id) => id.clone(),
        None => text_or_empty(&event.ts),
    };
    if trim_non_empty(id.as_str()).is_none() {
        return Err(accepted_false("no-event-id"));
    }
    let mut metadata = object();
    set_field(&mut metadata, "eventType", text("message"));
    set_field(&mut metadata, "eventTs", opt_text_json(&event.ts));
    let mut reply_metadata = object();
    set_field(&mut reply_metadata, "eventType", text("message"));
    set_field(&mut reply_metadata, "eventId", text(id.as_str()));
    Ok(
        WebhookTake {
            dedupe_key: cat("runtime/slack/event/", id.as_str()),
            event: ChannelInboundEvent {
                channel: "slack",
                conversation_id: conversation_id.clone(),
                text: body,
                sender_id: copy_text(&event.user),
                message_id: copy_text(&event.ts),
                idempotency_key: cat("slack-", id.as_str()),
                metadata: Some(Json::Object(metadata)),
            },
            route: Some(
                ReplyRoute {
                    channel: "slack",
                    conversation_id,
                    source_sender_id: None,
                    source_message_id: Some(id.clone()),
                    metadata: Some(Json::Object(reply_metadata)),
                    log_scope: "channels.slack.webhook",
                },
            ),
            event_id: id,
        },
    )
}

/// A message of Slack is taken exactly where the request bears the token and is an event of the kind
/// `message` with a channel, a text and an id, none of them blank. It is taken once under its id: the
/// event's, or its time where the event has none. The reply goes back to the channel it came from.
pub proof fn law_slack_messages(
    authorization: Option<&str>,
    token: &Option<String>,
    payload: SlackWebhookPayload,
    r: Result<WebhookTake, HttpReply>,
)
    requires
        call_ensures(
            dispatch_webhook,
            (authorization, token, Ok::<SlackWebhookPayload, String>(payload)),
            r,
        ),
        payload.challenge is None,
        payload.event is Some,
    ensures
        ({
            let event = payload.event->0;
            let id = if payload.event_id is Some {
                payload.event_id
            } else {
                event.ts
            };
            let open = *token is Some && authorization is Some && authorization->0@ == "Bearer "@
                + token->0@;
            &&& r is Ok <==> open && event.kind is Some && event.kind->0@ == "message"@ && event.channel is Some
                && not_blank(event.channel->0@) && event.text is Some && not_blank(event.text->0@)
                && id is Some && not_blank(id->0@)
            &&& r is Err ==> r->Err_0.status == (if open {
                200u16
            } else if *token is None {
                503u16
            } else {
                401u16
            })
            &&& r is Ok ==> {
                let take = r->Ok_0;
                &&& take.dedupe_key@ == "runtime/slack/event/"@ + id->0@
                &&& take.event.channel@ == "slack"@
                &&& take.event.conversation_id@ == trimmed(event.channel->0@)
                &&& take.event.text@ == trimmed(event.text->0@)
                &&& take.event.idempotency_key@ == "slack-"@ + id->0@
                &&& opt_text(take.event.sender_id) == opt_text(event.user)
                &&& take.route is Some && take.route->0.channel@ == "slack"@
                    && take.route->0.conversation_id@ == trimmed(event.channel->0@)
            }
        }),
{
    lemma_bears(authorization, token);
    let event = payload.event->0;
    reveal_strlit("");
    assert(trimmed(""@) =~= ""@);
    lemma_kept(""@);
    if event.channel is Some {
        lemma_kept(event.channel->0@);
    }
    if event.text is Some {
        lemma_kept(event.text->0@);
    }
    if payload.event_id is Some {
        lemma_kept(payload.event_id->0@);
    }
    if event.ts is Some {
        lemma_kept(event.ts->0@);
    }
}

/// Slack's question whether the address is right is answered with what it asks to hear.
pub proof fn law_slack_challenges(
    authorization: Option<&str>,
    token: &Option<String>,
    payload: SlackWebhookPayload,
    r: Result<WebhookTake, HttpReply>,
)
    requires
        call_ensures(
            dispatch_webhook,
            (authorization, token, Ok::<SlackWebhookPayload, String>(payload)),
            r,
        ),
        *token is Some && authorization is Some && authorization->0@ == "Bearer "@ + token->0@,
        payload.kind is Some && payload.kind->0@ == "url_verification"@,
        payload.challenge is Some,
    ensures
        r is Err && r->Err_0.status == 200 && member(r->Err_0.body@, "challenge"@) == Some(
            JsonModel::Text(payload.challenge->0@),
        ),
{
    lemma_bears(authorization, token);
}

/// Whether a request bears the token, in the words of the contracts.
pub proof fn lemma_bears(authorization: Option<&str>, token: &Option<String>)
    ensures
        channel_open(header_text(authorization), opt_text(*token)) <==> *token is Some && authorization is Some
            && authorization->0@ == "Bearer "@ + token->0@,
{
    if authorization is Some && *token is Some {
        let h = authorization->0@;
        let p = "Bearer "@;
        if h == p + token->0@ {
            assert(h.take(p.len() as int) =~= p);
            assert(h.skip(p.len() as int) =~= token->0@);
        }
        if h.len() >= p.len() && h.take(p.len() as int) == p {
            assert(h =~= p + h.skip(p.len() as int));
        }
    }
}

} // verus!
