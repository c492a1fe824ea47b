use reclaw_core::application::config::{AuthMode, RuntimeConfig};
use reclaw_core::domain::error::DomainError;
use reclaw_core::interfaces::channel_adapter_common::{
    accepted_true, accepted_true_with_outbound, admit_event, duplicate_reply, has_bearer_token,
    map_error_shape,
    require_channel_bearer_token, HttpReply,
};
use reclaw_core::interfaces::channels::{
    inbound_handler, inbound_reply, inbound_result, normalize_inbound, normalize_inbound_with,
    InboundMessageRequest, InboundProcessResult,
};
use reclaw_core::interfaces::compat::{
    auth_from_headers, authorize_gateway_http, extract_text_content, normalize_segment,
};
use reclaw_core::interfaces::http::{build_routes, healthz, Endpoint};
use reclaw_core::interfaces::openai::{
    build_prompt, chat_completions_handler, completion_response, finish_completion, BadBody,
    resolve_openai_session_key, ChatCompletionsRequest, ChatMessage, CompletionReply,
};
use reclaw_core::interfaces::openresponses::{
    build_response_resource, extract_input_prompt, extract_prompt_from_item,
    resolve_openresponses_session_key, responses_handler, CreateResponseRequest,
};
use reclaw_core::interfaces::telegram::{
    handle_webhook_update, telegram_reply, TelegramChat, TelegramMessage, TelegramUser,
    TelegramWebhookUpdate,
};
use reclaw_core::interfaces::tools_invoke::{finish_invoke, invoke_handler, BadCall, ToolsInvokeRequest};
use reclaw_core::interfaces::webhooks::{
    channel_webhook_handler, default_registry, ChannelDispatch, ChannelWebhookAdapter,
    ChannelWebhookRegistry,
};
use reclaw_core::interfaces::ws::{
    extract_frame_id, hello, hello_failed, message_to_text, perform_handshake, read_request, FirstMessage,
    WsMessage,
};
use reclaw_core::interfaces::{discord, signal, slack, whatsapp};
use reclaw_core::json::Json;
use reclaw_core::protocol::errors::ErrorShape;
use reclaw_core::protocol::frames::{
    ConnectAuth, ConnectClient, ConnectParams, PresenceEntry, RequestFrame, Snapshot, StateVersion,
};
use reclaw_core::protocol::{response_error, response_ok};
use reclaw_core::security::auth::AuthFailureReason;
use reclaw_core::security::rate_limit::AuthRateLimiter;

fn json(raw: &str) -> Json {
    Json::read(raw.as_bytes()).expect("JSON expected")
}

fn same(found: &Json, expected: &str) -> bool {
    let expected: serde_json::Value = serde_json::from_str(expected).expect("JSON expected");
    found.to_value() == expected
}

fn says(reply: &HttpReply, status: u16, body: &str) -> bool {
    reply.status == status && same(&reply.body, body)
}

fn refused<T>(result: Result<T, HttpReply>) -> HttpReply {
    match result {
        Ok(_) => panic!("a refusal was expected"),
        Err(reply) => reply,
    }
}

#[test]
fn normalize_segment_preserves_alphanumeric_shape() {
    assert_eq!(normalize_segment("Telegram Chat 123"), "telegram-chat-123");
    assert_eq!(normalize_segment("###"), "");
}

#[test]
fn normalize_segment_collapses_separators() {
    assert_eq!(normalize_segment("gpt-4o-mini"), "gpt-4o-mini");
    assert_eq!(normalize_segment("User Name 123"), "user-name-123");
}

#[test]
fn extract_text_content_supports_array_payloads() {
    let content = json(
        r#"[
            {"type": "input_text", "text": "first line"},
            {"type": "text", "text": "second line"}
        ]"#,
    );
    assert_eq!(extract_text_content(&content), "first line\nsecond line");
}

#[test]
fn build_prompt_requires_user_message() {
    let messages: Vec<ChatMessage> = Vec::new();
    let prompt = build_prompt(&messages);
    assert!(prompt.is_none());
}

fn said(role: &str, content: &str) -> ChatMessage {
    ChatMessage { role: Some(role.to_owned()), content: Some(Json::Text(content.to_owned())), name: None }
}

#[test]
fn a_user_message_makes_a_prompt() {
    let prompt = build_prompt(&vec![said("user", "hello")]).expect("prompt expected");
    assert!(prompt.contains("hello"));
    assert!(build_prompt(&vec![said("system", "be short")]).is_none());
}

#[test]
fn extract_input_prompt_handles_string_and_array_payloads() {
    assert_eq!(
        extract_input_prompt(Some(&json(r#""hello""#))).as_deref(),
        Some("hello")
    );
    assert_eq!(
        extract_input_prompt(Some(&json(
            r#"[
                {"content": [{"type": "input_text", "text": "first"}]},
                {"text": "second"}
            ]"#
        )))
        .as_deref(),
        Some("first\nsecond")
    );
}

#[test]
fn extract_prompt_from_item_prefers_content() {
    let item = json(
        r#"{
            "content": [{"type": "text", "text": "from content"}],
            "text": "fallback"
        }"#,
    );
    assert_eq!(
        extract_prompt_from_item(&item).as_deref(),
        Some("from content")
    );
}

#[test]
fn registry_resolves_registered_adapters() {
    let mut registry: ChannelWebhookRegistry<u8> = ChannelWebhookRegistry::new();
    registry.register(ChannelWebhookAdapter { channel: "fake", dispatch: 7 });

    assert!(registry.adapter_for("fake").is_some());
    assert!(registry.adapter_for("missing").is_none());
}

#[test]
fn default_registry_includes_telegram() {
    let registry = default_registry();
    assert!(registry.adapter_for("telegram").is_some());
    assert!(registry.adapter_for("discord").is_some());
    assert!(registry.adapter_for("slack").is_some());
    assert!(registry.adapter_for("signal").is_some());
    assert!(registry.adapter_for("whatsapp").is_some());
    assert_eq!(registry.adapter_for("slack"), Some(ChannelDispatch::Slack));
    let reply = refused(channel_webhook_handler(&registry, "fax"));
    assert_eq!(reply.status, 404);
}

#[test]
fn frame_id_parser_handles_missing_values() {
    assert_eq!(extract_frame_id("{}"), None);
    assert_eq!(extract_frame_id(r#"{"id":""}"#), None);
    assert_eq!(extract_frame_id(r#"{"id":"abc"}"#), Some("abc".to_owned()));
}

#[test]
fn messages_are_texts_of_a_certain_length() {
    let long = message_to_text(WsMessage::Text("abcdef".to_owned()), 5);
    match long {
        Err(error) => assert_eq!(error.message, "payload exceeds maxPayload (6 > 5)"),
        Ok(_) => panic!("a refusal was expected"),
    }
    let bytes = message_to_text(WsMessage::Binary(vec![104, 105]), 5);
    assert_eq!(bytes.ok(), Some(Some("hi".to_owned())));
    assert!(message_to_text(WsMessage::Binary(vec![0xff]), 5).is_err());
    assert_eq!(message_to_text(WsMessage::Ping, 5).ok(), Some(None));
}

fn connect(token: Option<&str>) -> ConnectParams {
    ConnectParams {
        min_protocol: 1,
        max_protocol: 3,
        client: ConnectClient {
            id: "cli".to_owned(),
            display_name: None,
            version: "1".to_owned(),
            platform: "linux".to_owned(),
            device_family: None,
            model_identifier: None,
            mode: "cli".to_owned(),
            instance_id: None,
        },
        role: None,
        scopes: Vec::new(),
        auth: token.map(|t| ConnectAuth {
            token: Some(t.to_owned()),
            device_token: None,
            password: None,
        }),
    }
}

fn connect_frame() -> FirstMessage {
    FirstMessage::Text(
        r#"{"type":"req","id":"1","method":"connect"}"#.to_owned(),
        Ok(RequestFrame {
            frame_type: "req".to_owned(),
            id: "1".to_owned(),
            method: "connect".to_owned(),
            params: None,
        }),
    )
}

#[test]
fn a_handshake_lets_in_who_knows_the_secret() {
    let mode = AuthMode::Token("abc".to_owned());
    let mut limiter = AuthRateLimiter::new(3, 1_000);
    let admitted = perform_handshake(
        connect_frame(),
        Ok(connect(Some("abc"))),
        &mode,
        &mut limiter,
        None,
        "conn-1",
        5,
    );
    match admitted {
        Ok(admission) => {
            assert_eq!(admission.request_id, "1");
            assert_eq!(admission.session.role, "operator");
            assert_eq!(admission.client.conn_id, "conn-1");
        }
        Err(_) => panic!("the client is let in"),
    }
    let refused = perform_handshake(
        connect_frame(),
        Ok(connect(Some("zzz"))),
        &mode,
        &mut limiter,
        None,
        "conn-2",
        6,
    );
    assert!(refused.is_err());
}

#[test]
fn the_greeting_tells_the_limits() {
    let config = RuntimeConfig::for_test("127.0.0.1", 18789, ":memory:");
    let snapshot = Snapshot {
        presence: Vec::new(),
        health: Json::Null,
        state_version: StateVersion { presence: 1, health: 2 },
        uptime_ms: 3,
        config_path: None,
        state_dir: None,
        session_defaults: None,
        auth_mode: None,
        update_available: None,
    };
    let greeting = hello(&config, "conn-1", snapshot);
    assert_eq!(greeting.protocol, 3);
    assert_eq!(greeting.server.conn_id, "conn-1");
    assert_eq!(greeting.policy.max_payload, config.max_payload_bytes);
    assert!(greeting.features.methods.contains(&"chat.send".to_owned()));
}

#[test]
fn requests_that_are_none_are_answered() {
    let answer = read_request("{\"id\":\"9\"}", Err("missing field".to_owned()));
    match answer {
        Err(frame) => {
            assert_eq!(frame.id, "9");
            assert!(!frame.ok);
        }
        Ok(_) => panic!("a refusal was expected"),
    }
}

#[test]
fn bearer_tokens_are_read_from_headers() {
    assert!(has_bearer_token(Some("Bearer s3"), "s3"));
    assert!(!has_bearer_token(Some("Bearer s4"), "s3"));
    assert!(!has_bearer_token(None, "s3"));
    let auth = auth_from_headers(Some("Bearer abc")).expect("credentials expected");
    assert_eq!(auth.token.as_deref(), Some("abc"));
    let mode = AuthMode::Token("abc".to_owned());
    assert!(authorize_gateway_http(&mode, Some("Bearer abc")).is_ok());
    assert_eq!(
        authorize_gateway_http(&mode, None),
        Err(AuthFailureReason::MissingCredentials)
    );
    assert_eq!(
        refused(require_channel_bearer_token(None, &None, "slack")).status,
        503
    );
    assert_eq!(
        refused(require_channel_bearer_token(Some("Bearer x"), &Some("y".to_owned()), "slack")).status,
        401
    );
}

fn inbound() -> InboundMessageRequest {
    InboundMessageRequest {
        channel: "Telegram".to_owned(),
        conversation_id: "Chat 1".to_owned(),
        text: " hi ".to_owned(),
        agent_id: None,
        sender_id: None,
        message_id: Some("m1".to_owned()),
        idempotency_key: None,
        metadata: None,
    }
}

#[test]
fn inbound_messages_find_their_session() {
    let normalized = normalize_inbound(&inbound()).expect("message expected");
    assert_eq!(normalized.channel, "telegram");
    assert_eq!(normalized.text, "hi");
    assert!(normalized.session_key.contains("telegram"));
    let again = normalize_inbound_with(&inbound(), "ignored").expect("message expected");
    assert_eq!(again.idempotency_key, normalized.idempotency_key);
    let mut blank = inbound();
    blank.text = "  ".to_owned();
    assert!(normalize_inbound(&blank).is_err());
    let reply = refused(inbound_handler(&Some("t".to_owned()), None, &inbound(), "id", "conn"));
    assert_eq!(reply.status, 401);
    match inbound_handler(&None, None, &inbound(), "id", "conn") {
        Ok(plan) => assert!(plan.params.get_text("message").as_deref() == Some("hi")),
        Err(_) => panic!("the message is taken"),
    }
}

#[test]
fn inbound_replies_tell_the_run() {
    let result = inbound_result("s", &json(r#"{"runId":"r1","message":"Echo: hi"}"#));
    assert_eq!(result.run_id.as_deref(), Some("r1"));
    assert_eq!(result.reply.as_deref(), Some("Echo: hi"));
    let failed = inbound_reply("s", &Err(ErrorShape::new("UNAVAILABLE", "down")));
    assert_eq!(failed.status, 503);
    let refusal = map_error_shape(&ErrorShape::new("INVALID_REQUEST", "no"));
    assert_eq!(refusal.status, 400);
}

#[test]
fn accepted_messages_are_answered() {
    let result = InboundProcessResult {
        session_key: "s".to_owned(),
        run_id: Some("r".to_owned()),
        reply: Some("x".to_owned()),
    };
    let plain = accepted_true(&result);
    assert!(plain.body.get("accepted").is_some());
    let sent = accepted_true_with_outbound(&result, true);
    assert_eq!(sent.body.get("outboundSent").and_then(Json::as_bool), Some(true));
    assert!(duplicate_reply().status == 200);
    assert!(admit_event(false).is_ok());
    let seen = refused(admit_event(true));
    assert!(says(&seen, 200, r#"{"ok":true,"accepted":false,"duplicate":true}"#));
}

#[test]
fn webhooks_of_slack_are_taken() {
    let token = Some("tok".to_owned());
    let event = slack::SlackEvent {
        kind: Some("message".to_owned()),
        channel: Some("C1".to_owned()),
        user: Some("U1".to_owned()),
        text: Some("hello".to_owned()),
        ts: Some("1.2".to_owned()),
    };
    let payload = slack::SlackWebhookPayload {
        kind: Some("event_callback".to_owned()),
        challenge: None,
        event_id: Some("E1".to_owned()),
        event: Some(event),
    };
    match slack::dispatch_webhook(Some("Bearer tok"), &token, Ok(payload)) {
        Ok(take) => {
            assert_eq!(take.event_id, "E1");
            assert_eq!(take.event.text, "hello");
            assert_eq!(take.event.conversation_id, "C1");
        }
        Err(_) => panic!("the message is taken"),
    }
    let challenge = slack::SlackWebhookPayload {
        kind: Some("url_verification".to_owned()),
        challenge: Some("c".to_owned()),
        event_id: None,
        event: None,
    };
    let reply = refused(slack::dispatch_webhook(Some("Bearer tok"), &token, Ok(challenge)));
    assert_eq!(reply.status, 200);
    assert_eq!(reply.body.get_text("challenge").as_deref(), Some("c"));
    assert_eq!(
        refused(slack::dispatch_webhook(None, &token, Err("bad".to_owned()))).status,
        401
    );
}

#[test]
fn webhooks_of_the_other_channels_need_their_token() {
    let token = Some("tok".to_owned());
    let payload = json("{}");
    assert_eq!(refused(discord::dispatch_webhook(None, &token, &payload)).status, 401);
    assert_eq!(refused(signal::dispatch_webhook(None, &token, &payload)).status, 401);
    assert_eq!(refused(whatsapp::dispatch_webhook(None, &token, &payload)).status, 401);
    assert_eq!(refused(discord::dispatch_webhook(None, &None, &payload)).status, 503);
}

fn update(text: Option<&str>) -> TelegramWebhookUpdate {
    TelegramWebhookUpdate {
        update_id: 5,
        message: Some(TelegramMessage {
            message_id: 6,
            chat: TelegramChat { id: -7 },
            from: Some(TelegramUser { id: 8 }),
            text: text.map(|t| t.to_owned()),
            caption: None,
        }),
        edited_message: None,
    }
}

#[test]
fn updates_of_telegram_are_taken() {
    let secret = Some("s".to_owned());
    match handle_webhook_update(&secret, Some("s"), update(Some("hello"))) {
        Ok(take) => {
            assert_eq!(take.chat_id, -7);
            assert_eq!(take.inbound.text, "hello");
            assert_eq!(take.inbound.conversation_id, "-7");
        }
        Err(_) => panic!("the update is taken"),
    }
    assert_eq!(refused(handle_webhook_update(&secret, Some("x"), update(Some("a")))).status, 401);
    assert_eq!(refused(handle_webhook_update(&None, None, update(Some("a")))).status, 503);
    assert_eq!(refused(handle_webhook_update(&secret, Some("s"), update(None))).status, 200);
    let send = telegram_reply("https://api.example/", &Some("bot".to_owned()), -7, &Some("hi".to_owned()))
        .expect("a message expected");
    assert_eq!(send.url, "https://api.example/botbot/sendMessage");
    assert!(telegram_reply("https://api.example", &None, -7, &Some("hi".to_owned())).is_none());
}

fn chat_request(stream: bool) -> ChatCompletionsRequest {
    ChatCompletionsRequest {
        model: None,
        stream,
        messages: vec![said("user", "hello")],
        user: None,
    }
}

#[test]
fn chat_completions_are_answered() {
    let plan = match chat_completions_handler(&AuthMode::NoAuth, None, Ok(chat_request(false)), "c1", "conn") {
        Ok(plan) => plan,
        Err(_) => panic!("the request is taken"),
    };
    let done = finish_completion(&plan, &Ok(json(r#"{"message":"Echo: hello"}"#)), 12_345);
    match done {
        CompletionReply::Whole(reply) => {
            assert_eq!(reply.status, 200);
            assert!(reply.body.to_text().contains("Echo: hello"));
        }
        CompletionReply::Pieces(_) => panic!("one answer was expected"),
    }
    let streamed = match chat_completions_handler(&AuthMode::NoAuth, None, Ok(chat_request(true)), "c1", "conn") {
        Ok(plan) => plan,
        Err(_) => panic!("the request is taken"),
    };
    match finish_completion(&streamed, &Ok(json(r#"{"message":"Echo: hello"}"#)), 1) {
        CompletionReply::Pieces(pieces) => {
            assert_eq!(pieces.last().map(|p| p.as_str()), Some("[DONE]"));
        }
        CompletionReply::Whole(_) => panic!("pieces were expected"),
    }
    let token = AuthMode::Token("t".to_owned());
    assert_eq!(
        refused(chat_completions_handler(&token, None, Ok(chat_request(false)), "c", "conn")).status,
        401
    );
    assert_eq!(
        refused(chat_completions_handler(&AuthMode::NoAuth, None, Err(BadBody::NotJson), "c", "conn")).status,
        400
    );
    let response = completion_response("id", 7, "m", "text");
    assert_eq!(response.get_text("object").as_deref(), Some("chat.completion"));
}

#[test]
fn responses_need_an_input() {
    let empty = CreateResponseRequest { model: None, stream: false, input: None, user: None };
    assert_eq!(
        refused(responses_handler(&AuthMode::NoAuth, None, Ok(empty), "r", "conn")).status,
        400
    );
}

#[test]
fn tools_are_invoked() {
    let call = ToolsInvokeRequest {
        tool: "gateway.request".to_owned(),
        action: Some("health".to_owned()),
        args: None,
        session_key: None,
    };
    let plan = invoke_handler(&AuthMode::NoAuth, None, Ok(call), "req-1", "conn");
    assert!(plan.is_ok());
    assert_eq!(
        refused(invoke_handler(&AuthMode::NoAuth, None, Err(BadCall::NotJson), "r", "c")).status,
        400
    );
    let good = finish_invoke(&response_ok("1", json("{\"a\":1}")));
    assert_eq!(good.status, 200);
    let bad = finish_invoke(&response_error("1", ErrorShape::new("INVALID_REQUEST", "no")));
    assert!(bad.status >= 400);
}

#[test]
fn paths_are_answered_when_switched_on() {
    let mut config = RuntimeConfig::for_test("127.0.0.1", 18789, ":memory:");
    config.hooks_enabled = false;
    config.openresponses_enabled = false;
    config.openai_chat_completions_enabled = true;
    let routes = build_routes(&config);
    assert!(routes.iter().any(|r| r.path == "/v1/chat/completions"));
    assert!(!routes.iter().any(|r| r.path == "/v1/responses"));
    assert!(!routes.iter().any(|r| r.endpoint == Endpoint::HooksRoot));
    config.hooks_enabled = true;
    config.hooks_path = "/in".to_owned();
    let routes = build_routes(&config);
    assert!(routes.iter().any(|r| r.path == "/in/{*subpath}" && r.is_post()));
    assert!(routes.iter().any(|r| r.path == "/ws" && !r.is_post()));
}

#[test]
fn health_is_told_over_http() {
    assert!(says(&healthz(Ok(json("{\"ok\":true}"))), 200, "{\"ok\":true}"));
    assert!(says(
        &healthz(Err(DomainError::Storage("disk".to_owned()))),
        503,
        "{\"ok\":false,\"error\":\"storage error: disk\"}"
    ));
}

#[test]
fn endpoints_name_their_sessions() {
    let user = Some("Ann B".to_owned());
    assert_eq!(resolve_openai_session_key("GPT 4", &user), "agent:gpt-4:openai:chat:ann-b");
    assert_eq!(resolve_openai_session_key("--", &None), "agent:main:openai:chat:default");
    assert_eq!(
        resolve_openresponses_session_key("m", &None),
        "agent:m:openresponses:chat:default"
    );
}

#[test]
fn responses_hold_their_text_under_a_fresh_id() {
    let first = build_response_resource("resp_1", "m", 7, "completed", Some("hi")).to_text();
    let second = build_response_resource("resp_1", "m", 7, "completed", Some("hi")).to_text();
    assert!(first.contains("\"hi\""));
    assert_ne!(first, second);
    let empty = build_response_resource("resp_1", "m", 7, "in_progress", None).to_text();
    assert_eq!(empty, build_response_resource("resp_1", "m", 7, "in_progress", None).to_text());
}

#[test]
fn adapters_of_a_list_are_registered() {
    let registry = ChannelWebhookRegistry::with_adapters(&[
        ChannelWebhookAdapter { channel: "one", dispatch: 1u8 },
        ChannelWebhookAdapter { channel: "two", dispatch: 2u8 },
        ChannelWebhookAdapter { channel: "one", dispatch: 3u8 },
    ]);
    assert_eq!(registry.adapter_for("one"), Some(3));
    assert_eq!(registry.adapter_for("two"), Some(2));
    assert_eq!(registry.adapter_for("three"), None);
}

#[test]
fn failed_greetings_say_why() {
    let frame = hello_failed("r1", "broken");
    assert!(!frame.ok);
    assert_eq!(frame.id, "r1");
    let error = frame.error.expect("an error was expected");
    assert_eq!(error.message, "failed to serialize hello payload: broken");
}

fn present() -> PresenceEntry {
    PresenceEntry {
        host: Some("h".to_owned()),
        ip: None,
        version: Some("1".to_owned()),
        platform: None,
        device_family: None,
        model_identifier: None,
        mode: None,
        last_input_seconds: Some(4),
        reason: Some("connect".to_owned()),
        tags: None,
        text: None,
        ts: 9,
        device_id: None,
        roles: Some(vec!["node".to_owned()]),
        scopes: None,
        instance_id: None,
    }
}

#[test]
fn frames_leave_out_what_is_not_there() {
    let entry = r#"{"host":"h","version":"1","lastInputSeconds":4,"reason":"connect","ts":9,"roles":["node"]}"#;
    assert!(same(&present().to_json(), entry));
    let snapshot = Snapshot {
        presence: vec![present()],
        health: Json::Bool(true),
        state_version: StateVersion { presence: 1, health: 2 },
        uptime_ms: 3,
        config_path: Some("/db".to_owned()),
        state_dir: None,
        session_defaults: None,
        auth_mode: Some("token".to_owned()),
        update_available: None,
    };
    let state = format!(
        r#"{{"presence":[{entry}],"health":true,"stateVersion":{{"presence":1,"health":2}},"uptimeMs":3,"configPath":"/db","authMode":"token"}}"#
    );
    assert!(same(&snapshot.to_json(), &state));
    assert!(same(
        &reclaw_core::rpc::methods::system::handle_system_presence(&snapshot),
        &format!(
            r#"{{"presence":[{entry}],"stateVersion":{{"presence":1,"health":2}},"uptimeMs":3}}"#
        ),
    ));
    let config = RuntimeConfig::for_test("127.0.0.1", 18789, ":memory:");
    let greeting = hello(&config, "conn-1", snapshot).to_json();
    assert_eq!(greeting.get_text("type").as_deref(), Some("hello-ok"));
    assert!(same(greeting.get("snapshot").expect("snapshot expected"), &state));
    assert!(greeting.get("auth").is_none() && greeting.get("canvasHostUrl").is_none());
    assert_eq!(
        greeting.get("server").and_then(|server| server.get_text("connId")).as_deref(),
        Some("conn-1")
    );
    assert!(same(
        &response_ok("1", Json::Null).to_json(),
        r#"{"type":"res","id":"1","ok":true,"payload":null}"#
    ));
    assert!(same(
        &response_error("2", ErrorShape::new("C", "m")).to_json(),
        r#"{"type":"res","id":"2","ok":false,"error":{"code":"C","message":"m"}}"#
    ));
}
