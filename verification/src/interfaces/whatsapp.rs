//! The webhook of WhatsApp.
use crate::interfaces::channel_adapter_common::{
    accepted_false, channel_open, channel_refusal, ignored_body, require_channel_bearer_token,
    ChannelInboundEvent, HttpReply,
};
use crate::interfaces::compat::header_text;
use crate::interfaces::discord::{build_source_metadata, lemma_said, member_text, read_string, said, says, source_metadata};
use crate::interfaces::slack::lemma_bears;
use crate::interfaces::webhooks::{answers, EventModel, ReplyRoute, RouteModel, TakeModel, WebhookTake};
use crate::json::{array_of, lemma_models, member, Json, JsonModel};
use crate::text::{cat, lemma_kept, opt_text, trim, trimmed};
use vstd::prelude::*;

verus! {

/// The first item of a member that is an array.
pub open spec fn first_in(value: Option<JsonModel>, name: Seq<char>) -> Option<JsonModel> {
    match value {
        None => None,
        Some(v) => match array_of(member(v, name)) {
            Some(items) => if items.len() > 0 {
                Some(items[0])
            } else {
                None
            },
            None => None,
        },
    }
}

/// The first message in what WhatsApp sent.
pub open spec fn first_message(payload: JsonModel) -> Option<JsonModel> {
    let change = first_in(first_in(Some(payload), "entry"@), "changes"@);
    match change {
        None => None,
        Some(c) => first_in(member(c, "value"@), "messages"@),
    }
}

/// The text of a message.
pub open spec fn whatsapp_text(message: JsonModel) -> Seq<char> {
    trimmed(
        match member(message, "text"@) {
            Some(body) => member_text(body, "body"@),
            None => ""@,
        },
    )
}

/// What comes of what WhatsApp sent.
pub open spec fn whatsapp_model(payload: JsonModel) -> Result<TakeModel, (u16, JsonModel)> {
    match first_message(payload) {
        None => Err((200, ignored_body("no-message"@))),
        Some(message) => {
            let from = trimmed(member_text(message, "from"@));
            let id = trimmed(member_text(message, "id"@));
            if whatsapp_text(message).len() == 0 {
                Err((200, ignored_body("no-text"@)))
            } else if from.len() == 0 {
                Err((200, ignored_body("no-from"@)))
            } else if id.len() == 0 {
                Err((200, ignored_body("no-message-id"@)))
            } else {
                Ok(
                    TakeModel {
                        dedupe_key: "runtime/whatsapp/event/"@ + id,
                        event_id: id,
                        event: EventModel {
                            channel: "whatsapp"@,
                            conversation_id: from,
                            text: whatsapp_text(message),
                            sender_id: Some(from),
                            message_id: Some(id),
                            idempotency_key: "whatsapp-"@ + id,
                            metadata: Some(source_metadata("whatsapp"@)),
                        },
                        route: Some(
                            RouteModel {
                                channel: "whatsapp"@,
                                conversation_id: from,
                                source_sender_id: Some(from),
                                source_message_id: Some(id),
                                metadata: Some(source_metadata("whatsapp"@)),
                                log_scope: "channels.whatsapp.webhook"@,
                            },
                        ),
                    },
                )
            }
        },
    }
}

/// What an optional value says.
pub open spec fn ref_model(value: Option<&Json>) -> Option<JsonModel> {
    match value {
        Some(v) => Some(v@),
        None => None,
    }
}

/// The first item of a member that is an array.
fn first_of_array<'a>(value: Option<&'a Json>, name: &str) -> (r: Option<&'a Json>)
    ensures
        ref_model(r) == first_in(ref_model(value), name@),
{
    match value {
        None => None,
        Some(v) => match v.get(name) {
            Some(found) => match found.as_array() {
                Some(items) => {
                    proof {
                        lemma_models(items@);
                    }
                    if items.len() > 0 {
                        Some(&items[0])
                    } else {
                        None
                    }
                },
                None => None,
            },
            None => None,
        },
    }
}

/// The first message in what WhatsApp sent.
pub fn first_whatsapp_message(payload: &Json) -> (r: Option<&Json>)
    ensures
        ref_model(r) == first_message(payload@),
{
    let entry = first_of_array(Some(payload), "entry");
    match first_of_array(entry, "changes") {
        None => None,
        Some(change) => first_of_array(change.get("value"), "messages"),
    }
}

/// The message to take of what WhatsApp sent, or the answer where there is none.
pub fn dispatch_webhook(authorization: Option<&str>, token: &Option<String>, payload: &Json) -> (r:
    Result<WebhookTake, HttpReply>)
    ensures
        if !channel_open(header_text(authorization), opt_text(*token)) {
            r is Err && channel_refusal(
                r->Err_0,
                header_text(authorization),
                opt_text(*token),
                "whatsapp"@,
            )
        } else {
            answers(r, whatsapp_model(payload@))
        },
{
    if let Err(reply) = require_channel_bearer_token(authorization, token, "whatsapp") {
        return Err(reply);
    }
    let message = match first_whatsapp_message(payload) {
        Some(message) => message,
        None => {
            return Err(accepted_false("no-message"));
        },
    };
    let raw = match message.get("text") {
        Some(body) => read_string(body, "body"),
        None => "".to_owned(),
    };
    let body = trim(raw.as_str());
    if body.as_str().is_empty() {
        return Err(accepted_false("no-text"));
    }
    let from = trim(read_string(message, "from").as_str());
    if from.as_str().is_empty() {
        return Err(accepted_false("no-from"));
    }
    let id = trim(read_string(message, "id").as_str());
    if id.as_str().is_empty() {
        return Err(accepted_false("no-message-id"));
    }
    Ok(
        WebhookTake {
            dedupe_key: cat("runtime/whatsapp/event/", id.as_str()),
            event: ChannelInboundEvent {
                channel: "whatsapp",
                conversation_id: from.clone(),
                text: body,
                sender_id: Some(from.clone()),
                message_id: Some(id.clone()),
                idempotency_key: cat("whatsapp-", id.as_str()),
                metadata: Some(build_source_metadata("whatsapp")),
            },
            route: Some(
                ReplyRoute {
                    channel: "whatsapp",
                    conversation_id: from.clone(),
                    source_sender_id: Some(from),
                    source_message_id: Some(id.clone()),
                    metadata: Some(build_source_metadata("whatsapp")),
                    log_scope: "channels.whatsapp.webhook",
                },
            ),
            event_id: id,
        },
    )
}

/// What WhatsApp sends is taken where the request bears the token and the first message
/// of the first change of the first entry holds a text, where it came from and what it
/// is called. It goes to the conversation with its sender, and the answer goes back
/// there. Two deliveries of one message share a key.
pub proof fn law_whatsapp_messages(
    authorization: Option<&str>,
    token: &Option<String>,
    payload: &Json,
    entries: Seq<JsonModel>,
    changes: Seq<JsonModel>,
    messages: Seq<JsonModel>,
    r: Result<WebhookTake, HttpReply>,
)
    requires
        call_ensures(dispatch_webhook, (authorization, token, payload), r),
        member(payload@, "entry"@) == Some(JsonModel::Array(entries)) && entries.len() > 0,
        member(entries[0], "changes"@) == Some(JsonModel::Array(changes)) && changes.len() > 0,
        member(changes[0], "value"@) is Some,
        member(member(changes[0], "value"@)->0, "messages"@) == Some(JsonModel::Array(messages)),
        messages.len() > 0,
    ensures
        ({
            let message = messages[0];
            let data = member(message, "text"@)->0;
            let open = *token is Some && authorization is Some && authorization->0@ == "Bearer "@
                + token->0@;
            &&& r is Ok <==> open && member(message, "text"@) is Some && says(data, "body"@) && says(
                message,
                "from"@,
            ) && says(message, "id"@)
            &&& r is Err ==> r->Err_0.status == (if open {
                200u16
            } else if *token is None {
                503u16
            } else {
                401u16
            })
            &&& r is Ok ==> {
                let take = r->Ok_0;
                let from = trimmed(said(message, "from"@));
                let id = trimmed(said(message, "id"@));
                &&& take.dedupe_key@ == "runtime/whatsapp/event/"@ + id
                &&& take.event.channel@ == "whatsapp"@
                &&& take.event.conversation_id@ == from
                &&& opt_text(take.event.sender_id) == Some(from)
                &&& take.event.text@ == trimmed(said(data, "body"@))
                &&& take.event.idempotency_key@ == "whatsapp-"@ + id
                &&& opt_text(take.event.message_id) == Some(id)
                &&& take.route is Some && take.route->0.channel@ == "whatsapp"@
                    && take.route->0.conversation_id@ == from
            }
        }),
{
    lemma_bears(authorization, token);
    let message = messages[0];
    lemma_said(message, "from"@);
    lemma_said(message, "id"@);
    if let Some(data) = member(message, "text"@) {
        lemma_said(data, "body"@);
    }
    lemma_kept(""@);
    reveal_strlit("");
}

/// A message of WhatsApp that is left is answered with what is missing, and what is taken says where it
/// came from.
pub proof fn law_why_whatsapp_messages_are_left(
    authorization: Option<&str>,
    token: &Option<String>,
    payload: &Json,
    entries: Seq<JsonModel>,
    changes: Seq<JsonModel>,
    messages: Seq<JsonModel>,
    r: Result<WebhookTake, HttpReply>,
)
    requires
        call_ensures(dispatch_webhook, (authorization, token, payload), r),
        *token is Some && authorization is Some && authorization->0@ == "Bearer "@ + token->0@,
        member(payload@, "entry"@) == Some(JsonModel::Array(entries)) && entries.len() > 0,
        member(entries[0], "changes"@) == Some(JsonModel::Array(changes)) && changes.len() > 0,
        member(changes[0], "value"@) is Some,
        member(member(changes[0], "value"@)->0, "messages"@) == Some(JsonModel::Array(messages)),
        messages.len() > 0,
        member(messages[0], "text"@) is Some,
        r is Err,
    ensures
        crate::json::member(r->Err_0.body@, "accepted"@) == Some(JsonModel::Bool(false)),
        crate::json::member(r->Err_0.body@, "reason"@) == Some(
            JsonModel::Text(
                if !says(member(messages[0], "text"@)->0, "body"@) {
                    "no-text"@
                } else if !says(messages[0], "from"@) {
                    "no-from"@
                } else {
                    "no-message-id"@
                },
            ),
        ),
{
    lemma_bears(authorization, token);
    lemma_said(messages[0], "from"@);
    lemma_said(messages[0], "id"@);
    lemma_said(member(messages[0], "text"@)->0, "body"@);
    reveal_strlit("ok");
    reveal_strlit("accepted");
    reveal_strlit("reason");
    assert("ok"@.len() != "accepted"@.len());
    assert("ok"@.len() != "reason"@.len());
    assert("accepted"@.len() != "reason"@.len());
}

} // verus!
