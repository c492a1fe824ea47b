//! The webhook of Telegram and the replies that go back.
use crate::interfaces::channel_adapter_common::{accepted_false, bad_request, ignored_body, refusal_body, unauthorized, unavailable, HttpReply};
use crate::interfaces::channels::{InboundMessageRequest, InboundProcessResult};
use crate::interfaces::compat::header_text;
use crate::json::{
    bool_of, json_text_of, member, no_fields, object, opt_model, opt_text_json, set_field, text,
    text_or_null, Json, JsonModel,
};
use crate::security::auth::same_secret;
use crate::text::{cat, cat4, decimal_int, decimal_text_signed, equals, first_of, kept_opt, lemma_kept, not_blank, opt_text, trim_non_empty_opt, trim_right, trim_trailing, trimmed};
use vstd::prelude::*;

verus! {

/// What Telegram sends.
#[derive(Debug)]
pub struct TelegramWebhookUpdate {
    pub update_id: i64,
    pub message: Option<TelegramMessage>,
    pub edited_message: Option<TelegramMessage>,
}

/// A message of Telegram.
#[derive(Debug)]
pub struct TelegramMessage {
    pub message_id: i64,
    pub chat: TelegramChat,
    pub from: Option<TelegramUser>,
    pub text: Option<String>,
    pub caption: Option<String>,
}

/// A chat of Telegram.
#[derive(Debug)]
pub struct TelegramChat {
    pub id: i64,
}

/// A user of Telegram.
#[derive(Debug)]
pub struct TelegramUser {
    pub id: i64,
}

/// A message to take: the key that it is known by, where it came from, and the message.
pub struct TelegramTake {
    pub dedupe_key: String,
    pub chat_id: i64,
    pub inbound: InboundMessageRequest,
}

/// The message of an update: a new one, or an edited one.
pub open spec fn update_message(update: TelegramWebhookUpdate) -> Option<TelegramMessage> {
    if update.message is Some {
        update.message
    } else {
        update.edited_message
    }
}

/// The text of a message, or the caption of what it shows.
pub open spec fn message_text(message: TelegramMessage) -> Option<Seq<char>> {
    kept_opt(first_of(opt_text(message.text), opt_text(message.caption)))
}

/// The message to take of an update.
pub open spec fn is_take(take: TelegramTake, update: TelegramWebhookUpdate, message: TelegramMessage) -> bool {
    let id = decimal_int(update.update_id as int);
    &&& take.dedupe_key@ == "runtime/telegram/update/"@ + id
    &&& take.chat_id == message.chat.id
    &&& take.inbound.channel@ == "telegram"@
    &&& take.inbound.conversation_id@ == decimal_int(message.chat.id as int)
    &&& Some(take.inbound.text@) == message_text(message)
    &&& opt_text(take.inbound.agent_id) == Some("main"@)
    &&& opt_text(take.inbound.sender_id) == match message.from {
        Some(user) => Some(decimal_int(user.id as int)),
        None => None,
    }
    &&& opt_text(take.inbound.message_id) == Some(decimal_int(message.message_id as int))
    &&& opt_text(take.inbound.idempotency_key) == Some("telegram-"@ + id)
    &&& opt_model(take.inbound.metadata) == Some(
        JsonModel::Object(no_fields().insert("updateId"@, integer_json(update.update_id))),
    )
}

/// The JSON of a signed number.
pub open spec fn integer_json(n: i64) -> JsonModel {
    if n < 0 {
        JsonModel::Negative(n)
    } else {
        JsonModel::Unsigned(n as u64)
    }
}

/// The JSON of a signed number.
pub fn integer_to_json(n: i64) -> (r: Json)
    ensures
        r@ == integer_json(n),
{
    if n < 0 {
        Json::Negative(n)
    } else {
        Json::Unsigned(n as u64)
    }
}

/// Whether the header presents the secret.
pub fn valid_telegram_secret(header: Option<&str>, expected: &str) -> (r: bool)
    ensures
        r == (header_text(header) == Some(expected@)),
{
    match header {
        None => false,
        Some(found) => same_secret(found, expected),
    }
}

/// What is answered to an update that could not be read.
pub fn unreadable_update(error: &str) -> (r: HttpReply)
    ensures
        r.says(
            400,
            refusal_body("INVALID_REQUEST"@, "invalid telegram webhook payload: "@ + error@),
        ),
{
    bad_request(cat("invalid telegram webhook payload: ", error).as_str())
}

/// What comes of an update: the message to take, or the answer where there is none. The secret
/// must be set and presented, and there must be a message with a text.
pub open spec fn handles_update(
    r: Result<TelegramTake, HttpReply>,
    secret: Option<Seq<char>>,
    header: Option<Seq<char>>,
    update: TelegramWebhookUpdate,
) -> bool {
    if secret is None {
        r is Err && r->Err_0.says(
            503,
            refusal_body("UNAVAILABLE"@, "telegram webhook is not configured"@),
        )
    } else if header != secret {
        r is Err && r->Err_0.says(
            401,
            refusal_body("UNAUTHORIZED"@, "invalid telegram webhook secret"@),
        )
    } else {
        match update_message(update) {
            None => r is Err && r->Err_0.says(200, ignored_body("no-message"@)),
            Some(message) => if message_text(message) is None {
                r is Err && r->Err_0.says(200, ignored_body("no-text"@))
            } else {
                r is Ok && is_take(r->Ok_0, update, message)
            },
        }
    }
}

/// What comes of an update: the message to take, or the answer where there is none.
pub fn handle_webhook_update(
    secret: &Option<String>,
    header: Option<&str>,
    update: TelegramWebhookUpdate,
) -> (r: Result<TelegramTake, HttpReply>)
    ensures
        handles_update(r, opt_text(*secret), header_text(header), update),
{
    let secret = match secret {
        Some(secret) => secret,
        None => {
            return Err(unavailable("telegram webhook is not configured"));
        },
    };
    if !valid_telegram_secret(header, secret.as_str()) {
        return Err(unauthorized("invalid telegram webhook secret"));
    }
    let update_id: i64 = update.update_id;
    let ghost whole = update;
    let found = match update.message {
        Some(message) => Some(message),
        None => update.edited_message,
    };
    let message = match found {
        Some(message) => message,
        None => {
            return Err(accepted_false("no-message"));
        },
    };
    assert(update_message(whole) == Some(message));
    let ghost shown = message;
    let raw = match message.text {
        Some(body) => Some(body),
        None => message.caption,
    };
    let body = match trim_non_empty_opt(&raw) {
        Some(body) => body,
        None => {
            return Err(accepted_false("no-text"));
        },
    };
    let id = decimal_text_signed(update_id);
    let mut metadata = object();
    set_field(&mut metadata, "updateId", integer_to_json(update_id));
    let sender_id = match message.from {
        Some(user) => Some(decimal_text_signed(user.id)),
        None => None,
    };
    let take = TelegramTake {
        dedupe_key: cat("runtime/telegram/update/", id.as_str()),
        chat_id: message.chat.id,
        inbound: InboundMessageRequest {
            channel: "telegram".to_owned(),
            conversation_id: decimal_text_signed(message.chat.id),
            text: body,
            agent_id: Some("main".to_owned()),
            sender_id,
            message_id: Some(decimal_text_signed(message.message_id)),
            idempotency_key: Some(cat("telegram-", id.as_str())),
            metadata: Some(Json::Object(metadata)),
        },
    };
    assert(is_take(take, whole, shown));
    Ok(take)
}

/// What is stored of an update that was taken.
pub fn processed_update(result: &InboundProcessResult, now: u64) -> (r: Json)
    ensures
        r@ == JsonModel::Object(
            no_fields().insert("processedAtMs"@, JsonModel::Unsigned(now)).insert(
                "sessionKey"@,
                JsonModel::Text(result.session_key@),
            ).insert("runId"@, text_or_null(opt_text(result.run_id))),
        ),
{
    let mut o = object();
    set_field(&mut o, "processedAtMs", Json::Unsigned(now));
    set_field(&mut o, "sessionKey", text(result.session_key.as_str()));
    set_field(&mut o, "runId", opt_text_json(&result.run_id));
    Json::Object(o)
}

/// The message that goes back to Telegram.
pub struct TelegramSend {
    pub url: String,
    pub body: Json,
}

/// The message that goes back to Telegram: one where a bot may speak and there is a reply.
pub fn telegram_reply(
    api_base_url: &str,
    bot_token: &Option<String>,
    chat_id: i64,
    reply: &Option<String>,
) -> (r: Option<TelegramSend>)
    ensures
        match (opt_text(*bot_token), opt_text(*reply)) {
            (Some(token), Some(body)) => r matches Some(send) && send.url@ == trim_right(
                api_base_url@,
                equals('/'),
            ) + "/bot"@ + token + "/sendMessage"@ && send.body@ == JsonModel::Object(
                no_fields().insert("chat_id"@, integer_json(chat_id)).insert(
                    "text"@,
                    JsonModel::Text(body),
                ),
            ),
            _ => r is None,
        },
{
    match (bot_token, reply) {
        (Some(token), Some(body)) => {
            let base = trim_trailing(api_base_url, '/');
            let url = cat4(base.as_str(), "/bot", token.as_str(), "/sendMessage");
            let mut o = object();
            set_field(&mut o, "chat_id", integer_to_json(chat_id));
            set_field(&mut o, "text", text(body.as_str()));
            Some(TelegramSend { url, body: Json::Object(o) })
        },
        _ => None,
    }
}

/// What Telegram answered to a message: a status that is no success with its text, or a value.
pub enum TelegramAnswer {
    Refused(String, String),
    Undecoded(String),
    Value(Json),
}

/// Why a message did not arrive.
pub open spec fn send_failure(answer: TelegramAnswer) -> Option<Seq<char>> {
    match answer {
        TelegramAnswer::Refused(status, body) => Some(
            "telegram send failed with "@ + status@ + ": "@ + body@,
        ),
        TelegramAnswer::Undecoded(error) => Some(
            "telegram response decode failed: "@ + error@,
        ),
        TelegramAnswer::Value(value) => if bool_of(member(value@, "ok"@)) == Some(true) {
            None
        } else {
            Some("telegram API returned failure payload: "@ + json_text_of(value@))
        },
    }
}

/// Whether a message arrived, and why it did not.
pub fn send_telegram_message(answer: &TelegramAnswer) -> (r: Result<(), String>)
    ensures
        match send_failure(*answer) {
            None => r is Ok,
            Some(message) => r is Err && r->Err_0@ == message,
        },
{
    match answer {
        TelegramAnswer::Refused(status, body) => Err(
            cat4("telegram send failed with ", status.as_str(), ": ", body.as_str()),
        ),
        TelegramAnswer::Undecoded(error) => Err(
            cat("telegram response decode failed: ", error.as_str()),
        ),
        TelegramAnswer::Value(value) => {
            let sent = match value.get("ok") {
                Some(ok) => match ok.as_bool() {
                    Some(b) => b,
                    None => false,
                },
                None => false,
            };
            if sent {
                Ok(())
            } else {
                Err(cat("telegram API returned failure payload: ", value.to_text().as_str()))
            }
        },
    }
}

/// An update of Telegram is taken where the secret of the request is the one that is set and its
/// message, or else its edited message, holds words or a caption. It goes to the conversation
/// of its chat, and two deliveries of one update share a key. Everything else is answered: 200
/// where the secret is right, 401 where it is wrong and 503 where none is set.
pub proof fn law_telegram_updates(
    secret: &Option<String>,
    header: Option<&str>,
    update: TelegramWebhookUpdate,
    r: Result<TelegramTake, HttpReply>,
)
    requires
        call_ensures(handle_webhook_update, (secret, header, update), r),
    ensures
        ({
            let message = if update.message is Some {
                update.message
            } else {
                update.edited_message
            };
            let words = if message->0.text is Some {
                message->0.text
            } else {
                message->0.caption
            };
            let open = *secret is Some && header is Some && header->0@ == secret->0@;
            &&& r is Ok <==> open && message is Some && words is Some && not_blank(words->0@)
            &&& r is Err ==> r->Err_0.status == (if open {
                200u16
            } else if *secret is None {
                503u16
            } else {
                401u16
            })
            &&& r is Ok ==> {
                let take = r->Ok_0;
                &&& take.chat_id == message->0.chat.id
                &&& take.dedupe_key@ == "runtime/telegram/update/"@ + decimal_int(update.update_id as int)
                &&& take.inbound.channel@ == "telegram"@
                &&& take.inbound.conversation_id@ == decimal_int(message->0.chat.id as int)
                &&& take.inbound.text@ == trimmed(words->0@)
                &&& opt_text(take.inbound.message_id) == Some(
                    decimal_int(message->0.message_id as int),
                )
                &&& opt_text(take.inbound.sender_id) == (if message->0.from is Some {
                    Some(decimal_int(message->0.from->0.id as int))
                } else {
                    None
                })
                &&& opt_text(take.inbound.idempotency_key) == Some(
                    "telegram-"@ + decimal_int(update.update_id as int),
                )
            }
        }),
{
    if let Some(message) = update_message(update) {
        if message.text is Some {
            lemma_kept(message.text->0@);
        } else if message.caption is Some {
            lemma_kept(message.caption->0@);
        }
    }
}

/// A reply is sent where there is a bot token and something to say. It goes to the chat it
/// answers, in the words of the reply, and how many slashes end the address makes no difference.
pub proof fn law_telegram_replies(
    api_base_url: &str,
    host: Seq<char>,
    slashes: Seq<char>,
    bot_token: &Option<String>,
    chat_id: i64,
    reply: &Option<String>,
    r: Option<TelegramSend>,
)
    requires
        call_ensures(telegram_reply, (api_base_url, bot_token, chat_id, reply), r),
        api_base_url@ == host + slashes,
        host.len() > 0 ==> host.last() != '/',
        forall|i: int| 0 <= i < slashes.len() ==> slashes[i] == '/',
    ensures
        r is Some <==> *bot_token is Some && *reply is Some,
        r is Some ==> r->0.url@ == host + "/bot"@ + bot_token->0@ + "/sendMessage"@,
        r is Some ==> member(r->0.body@, "text"@) == Some(JsonModel::Text(reply->0@)),
        r is Some && chat_id >= 0 ==> member(r->0.body@, "chat_id"@) == Some(
            JsonModel::Unsigned(chat_id as u64),
        ),
        r is Some && chat_id < 0 ==> member(r->0.body@, "chat_id"@) == Some(
            JsonModel::Negative(chat_id),
        ),
{
    lemma_slashes_are_cut(host, slashes);
    reveal_strlit("chat_id");
    reveal_strlit("text");
    assert("chat_id"@.len() != "text"@.len());
}

proof fn lemma_slashes_are_cut(host: Seq<char>, slashes: Seq<char>)
    requires
        host.len() > 0 ==> host.last() != '/',
        forall|i: int| 0 <= i < slashes.len() ==> slashes[i] == '/',
    ensures
        trim_right(host + slashes, equals('/')) == host,
    decreases slashes.len(),
{
    let s = host + slashes;
    if slashes.len() > 0 {
        assert(s.last() == slashes.last());
        assert(s.drop_last() =~= host + slashes.drop_last());
        lemma_slashes_are_cut(host, slashes.drop_last());
    } else {
        assert(s =~= host);
    }
}

/// A message was sent where Telegram says that it was, and at no other time.
pub proof fn law_telegram_answers(answer: &TelegramAnswer, r: Result<(), String>)
    requires
        call_ensures(send_telegram_message, (answer,), r),
    ensures
        r is Ok <==> *answer is Value && member(answer->Value_0@, "ok"@) == Some(
            JsonModel::Bool(true),
        ),
{
}

} // verus!
