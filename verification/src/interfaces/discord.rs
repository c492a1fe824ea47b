//! The webhook of Discord.
use crate::interfaces::channel_adapter_common::{
    accepted_false, channel_open, channel_refusal, ignored_body, require_channel_bearer_token,
    ChannelInboundEvent, HttpReply,
};
use crate::interfaces::compat::header_text;
use crate::interfaces::webhooks::{answers, EventModel, TakeModel, WebhookTake};
use crate::json::{member, no_fields, object, set_field, text, text_of, Json, JsonModel};
use crate::interfaces::slack::lemma_bears;
use crate::text::{cat, kept, lemma_kept, not_blank, opt_text, text_or, trim, trim_non_empty, trimmed};
use vstd::prelude::*;

verus! {

/// The message in what Discord sent: under `d`, or the whole.
pub open spec fn discord_data(payload: JsonModel) -> JsonModel {
    match member(payload, "d"@) {
        Some(d) => d,
        None => payload,
    }
}

/// The text of a member, or nothing.
pub open spec fn member_text(value: JsonModel, name: Seq<char>) -> Seq<char> {
    text_or(text_of(member(value, name)), ""@)
}

/// The metadata that names where a message comes from.
pub open spec fn source_metadata(source: Seq<char>) -> JsonModel {
    JsonModel::Object(no_fields().insert("source"@, JsonModel::Text(source)))
}

/// The metadata that names where a message comes from.
pub fn build_source_metadata(source: &str) -> (r: Json)
    ensures
        r@ == source_metadata(source@),
{
    let mut o = object();
    set_field(&mut o, "source", text(source));
    Json::Object(o)
}

/// What comes of what Discord sent.
pub open spec fn discord_model(payload: JsonModel) -> Result<TakeModel, (u16, JsonModel)> {
    let data = discord_data(payload);
    let channel = member_text(data, "channel_id"@);
    let body = trimmed(member_text(data, "content"@));
    let id = member_text(data, "id"@);
    if kept(channel) is None {
        Err((200, ignored_body("no-channel"@)))
    } else if body.len() == 0 {
        Err((200, ignored_body("no-text"@)))
    } else if kept(id) is None {
        Err((200, ignored_body("no-message-id"@)))
    } else {
        Ok(
            TakeModel {
                dedupe_key: "runtime/discord/event/"@ + id,
                event_id: id,
                event: EventModel {
                    channel: "discord"@,
                    conversation_id: channel,
                    text: body,
                    sender_id: match member(data, "author"@) {
                        Some(author) => text_of(member(author, "id"@)),
                        None => None,
                    },
                    message_id: Some(id),
                    idempotency_key: "discord-"@ + id,
                    metadata: Some(source_metadata("discord"@)),
                },
                route: None,
            },
        )
    }
}

/// The text of a member, or nothing.
pub fn read_string(value: &Json, name: &str) -> (r: String)
    ensures
        r@ == member_text(value@, name@),
{
    match value.get_text(name) {
        Some(s) => s,
        None => "".to_owned(),
    }
}

/// The message to take of what Discord sent, or the answer where there is none.
pub fn dispatch_webhook(authorization: Option<&str>, token: &Option<String>, payload: &Json) -> (r:
    Result<WebhookTake, HttpReply>)
    ensures
        if !channel_open(header_text(authorization), opt_text(*token)) {
            r is Err && channel_refusal(
                r->Err_0,
                header_text(authorization),
                opt_text(*token),
                "discord"@,
            )
        } else {
            answers(r, discord_model(payload@))
        },
{
    if let Err(reply) = require_channel_bearer_token(authorization, token, "discord") {
        return Err(reply);
    }
    let data = match payload.get("d") {
        Some(d) => d,
        None => payload,
    };
    let conversation_id = read_string(data, "channel_id");
    if trim_non_empty(conversation_id.as_str()).is_none() {
        return Err(accepted_false("no-channel"));
    }
    let body = trim(read_string(data, "content").as_str());
    if body.as_str().is_empty() {
        return Err(accepted_false("no-text"));
    }
    let id = read_string(data, "id");
    if trim_non_empty(id.as_str()).is_none() {
        return Err(accepted_false("no-message-id"));
    }
    let sender_id = match data.get("author") {
        Some(author) => author.get_text("id"),
        None => None,
    };
    Ok(
        WebhookTake {
            dedupe_key: cat("runtime/discord/event/", id.as_str()),
            event: ChannelInboundEvent {
                channel: "discord",
                conversation_id,
                text: body,
                sender_id,
                message_id: Some(id.clone()),
                idempotency_key: cat("discord-", id.as_str()),
                metadata: Some(build_source_metadata("discord")),
            },
            route: None,
            event_id: id,
        },
    )
}

/// What Discord sends is taken where the request bears the token and the message says
/// in which channel it stands, what it says and what it is called, be it wrapped in
/// an envelope or not. It goes to its own channel's conversation with its own words,
/// and two deliveries of one message share a key. Everything else is answered: 200
/// where the token is right, 401 where it is wrong and 503 where none is set.
pub proof fn law_discord_messages(
    authorization: Option<&str>,
    token: &Option<String>,
    payload: &Json,
    r: Result<WebhookTake, HttpReply>,
)
    requires
        call_ensures(dispatch_webhook, (authorization, token, payload), r),
    ensures
        ({
            let data = if member(payload@, "d"@) is Some {
                member(payload@, "d"@)->0
            } else {
                payload@
            };
            let open = *token is Some && authorization is Some && authorization->0@ == "Bearer "@
                + token->0@;
            &&& r is Ok <==> open && says(data, "channel_id"@) && says(data, "content"@) && says(
                data,
                "id"@,
            )
            &&& r is Err ==> r->Err_0.status == (if open {
                200u16
            } else if *token is None {
                503u16
            } else {
                401u16
            })
            &&& r is Ok ==> {
                let take = r->Ok_0;
                let id = said(data, "id"@);
                &&& take.dedupe_key@ == "runtime/discord/event/"@ + id
                &&& take.event.channel@ == "discord"@
                &&& take.event.conversation_id@ == said(data, "channel_id"@)
                &&& take.event.text@ == trimmed(said(data, "content"@))
                &&& take.event.idempotency_key@ == "discord-"@ + id
                &&& opt_text(take.event.message_id) == Some(id)
                &&& member(data, "author"@) is Some && (member(
                    member(data, "author"@)->0,
                    "id"@,
                )->0 is Text) && member(member(data, "author"@)->0, "id"@) is Some
                    ==> opt_text(take.event.sender_id) == Some(said(member(data, "author"@)->0, "id"@))
                &&& take.route is None
            }
        }),
{
    lemma_bears(authorization, token);
    let data = discord_data(payload@);
    lemma_said(data, "channel_id"@);
    lemma_said(data, "content"@);
    lemma_said(data, "id"@);
    lemma_kept(member_text(data, "content"@));
}

/// Whether a JSON object has a member that is a text with more than white space in it.
pub open spec fn says(value: JsonModel, name: Seq<char>) -> bool {
    member(value, name) is Some && member(value, name)->0 is Text && not_blank(said(value, name))
}

/// The text that a member of a JSON object is.
pub open spec fn said(value: JsonModel, name: Seq<char>) -> Seq<char> {
    member(value, name)->0->Text_0
}

/// When a member says something, in the words of the contracts.
pub proof fn lemma_said(value: JsonModel, name: Seq<char>)
    ensures
        says(value, name) <==> kept(member_text(value, name)) is Some,
        says(value, name) <==> trimmed(member_text(value, name)).len() > 0,
        says(value, name) ==> member_text(value, name) == said(value, name),
{
    lemma_kept(member_text(value, name));
    lemma_kept(""@);
    reveal_strlit("");
}

/// A message of Discord that is left is answered with what is missing, the channel before the words and
/// the words before the name.
pub proof fn law_why_discord_messages_are_left(authorization: Option<&str>, token: &Option<String>, payload: &Json, r: Result<WebhookTake, HttpReply>)
    requires
        call_ensures(dispatch_webhook, (authorization, token, payload), r),
        *token is Some && authorization is Some && authorization->0@ == "Bearer "@ + token->0@,
        r is Err,
    ensures
        crate::json::member(r->Err_0.body@, "accepted"@) == Some(JsonModel::Bool(false)),
        crate::json::member(r->Err_0.body@, "reason"@) == Some(
            JsonModel::Text(
                ({
                    let data = if member(payload@, "d"@) is Some {
                        member(payload@, "d"@)->0
                    } else {
                        payload@
                    };
                    if !says(data, "channel_id"@) {
                        "no-channel"@
                    } else if !says(data, "content"@) {
                        "no-text"@
                    } else {
                        "no-message-id"@
                    }
                }),
            ),
        ),
{
    lemma_bears(authorization, token);
    let data = discord_data(payload@);
    lemma_said(data, "channel_id"@);
    lemma_said(data, "content"@);
    lemma_said(data, "id"@);
    reveal_strlit("ok");
    reveal_strlit("accepted");
    reveal_strlit("reason");
    assert("ok"@.len() != "accepted"@.len());
    assert("ok"@.len() != "reason"@.len());
    assert("accepted"@.len() != "reason"@.len());
}

} // verus!
