use reclaw_core::application::config::{
    HookMappingAction, HookMappingConfig, HookMappingMatchConfig, RuntimeConfig,
};
use reclaw_core::interfaces::hooks::template::{render_template, HookTemplateContext};
use reclaw_core::interfaces::hooks::transform::{
    build_transform_command, check_real_path, execute_hook_transform, resolve_transform_module_path,
    TransformRun,
};
use reclaw_core::interfaces::hooks::{
    admit_request, agent_accepted, apply_mapping_transform_if_configured, build_mapping_action,
    dispatch_agent, dispatch_wake, extract_hook_token, handle_request, has_token_query,
    mapping_matches, merge_hook_action, normalize_agent_payload, normalize_hook_headers,
    normalize_mapping_path, parse_query_values, resolve_session_key_policy, session_key_with,
    skipped_reply, HookAgentNormalized, HookAgentPayload, HookResolvedAction, HookRoute,
    HookSessionKeySource, HookTransformOverride, HookWakeMode, HookWakeNormalized,
    HOOKS_SESSION_POLICY_ERROR,
};
use reclaw_core::json::{get_field, object, Json};
use reclaw_core::security::rate_limit::AuthRateLimiter;
use reclaw_core::sorted_map::SortedMap;

fn map(raw: &str) -> SortedMap<Json> {
    match Json::read(raw.as_bytes()) {
        Ok(Json::Object(o)) => o,
        _ => panic!("an object was expected"),
    }
}

fn config() -> RuntimeConfig {
    RuntimeConfig::for_test("127.0.0.1", 18789, ":memory:")
}

fn mapping(action: HookMappingAction) -> HookMappingConfig {
    HookMappingConfig {
        id: Some("openclaw-style".to_owned()),
        path: String::new(),
        rule: Some(HookMappingMatchConfig {
            path: Some("github/push".to_owned()),
            source: Some("github".to_owned()),
        }),
        action,
        match_source: None,
        wake_mode: None,
        text: None,
        text_template: None,
        message: Some("ok".to_owned()),
        message_template: None,
        name: None,
        agent_id: None,
        session_key: None,
        transform: None,
    }
}

fn no_change() -> HookTransformOverride {
    HookTransformOverride {
        kind: None,
        text: None,
        mode: None,
        message: None,
        name: None,
        agent_id: None,
        wake_mode: None,
        session_key: None,
    }
}

#[test]
fn token_query_detector_matches_token_field() {
    assert!(has_token_query(Some("token=abc")));
    assert!(!has_token_query(Some("a=1&b=2")));
    assert!(has_token_query(Some("a=1&TOKEN")));
    assert!(!has_token_query(None));
}

#[test]
fn session_policy_blocks_request_session_key_by_default() {
    let result = resolve_session_key_policy(
        &config(),
        &Some("hook:custom".to_owned()),
        HookSessionKeySource::Request,
    );
    assert_eq!(result, Err(HOOKS_SESSION_POLICY_ERROR.to_owned()));
}

#[test]
fn sessions_come_from_mappings_defaults_or_chance() {
    let mut config = config();
    let mapped = session_key_with(&config, &Some("m".to_owned()), HookSessionKeySource::Mapping, "1");
    assert_eq!(mapped, Ok("m".to_owned()));
    assert_eq!(
        session_key_with(&config, &None, HookSessionKeySource::Request, "1"),
        Ok("hook:1".to_owned())
    );
    config.hooks_default_session_key = Some("d".to_owned());
    assert_eq!(
        session_key_with(&config, &None, HookSessionKeySource::Request, "1"),
        Ok("d".to_owned())
    );
    config.hooks_allow_request_session_key = true;
    assert_eq!(
        session_key_with(&config, &Some("r".to_owned()), HookSessionKeySource::Request, "1"),
        Ok("r".to_owned())
    );
}

#[test]
fn normalize_mapping_path_trims_and_collapses_slashes() {
    assert_eq!(normalize_mapping_path("/github/push/"), "github/push");
    assert_eq!(normalize_mapping_path("  github//push  "), "github/push");
}

#[test]
fn mapping_match_supports_openclaw_style_match_fields() {
    let mapping = mapping(HookMappingAction::Agent);
    let payload = map(r#"{"source": "github"}"#);
    assert!(mapping_matches(&mapping, "github/push", &payload));
    assert!(!mapping_matches(&mapping, "github/push", &map("{}")));
    assert!(!mapping_matches(&mapping, "github/pull", &payload));
}

#[test]
fn render_template_resolves_nested_payload_paths() {
    let payload = map(
        r#"{
            "repo": "reclaw",
            "actor": { "name": "jd" },
            "commits": [{ "id": "c1" }]
        }"#,
    );
    let headers = object();
    let query = object();
    let context = HookTemplateContext {
        payload: &payload,
        headers: &headers,
        path: "github/push",
        query: &query,
        url: "/hooks/github/push",
    };
    let rendered = render_template(
        "repo={{repo}} actor={{actor.name}} first={{commits[0].id}}",
        &context,
    );
    assert_eq!(rendered, "repo=reclaw actor=jd first=c1");
}

#[test]
fn render_template_supports_headers_query_and_path_contexts() {
    let payload = object();
    let headers = map(r#"{"user-agent": "reclaw-test"}"#);
    let query = map(r#"{"kind": "push"}"#);
    let context = HookTemplateContext {
        payload: &payload,
        headers: &headers,
        path: "github/template",
        query: &query,
        url: "/hooks/github/template?kind=push",
    };

    let rendered = render_template(
        "ua={{headers.user-agent}} kind={{query.kind}} path={{path}}",
        &context,
    );
    assert_eq!(rendered, "ua=reclaw-test kind=push path=github/template");
}

#[test]
fn templates_leave_what_is_not_closed() {
    let payload = map(r#"{"n": 3, "list": [1, 2]}"#);
    let none = object();
    let context = HookTemplateContext {
        payload: &payload,
        headers: &none,
        path: "p",
        query: &none,
        url: "/p",
    };
    assert_eq!(render_template("a {{n", &context), "a {{n");
    assert_eq!(render_template("{{n}} {{missing}}|{{list}}", &context), "3 |[1,2]");
}

#[test]
fn transform_path_resolution_blocks_parent_traversal() {
    let result = resolve_transform_module_path("/tmp/reclaw-hooks/transforms", "../evil.mjs", None);
    assert!(result.is_err());
    let inside = resolve_transform_module_path("/tmp/reclaw-hooks/transforms", "a/./b.mjs", None);
    assert_eq!(inside, Ok("/tmp/reclaw-hooks/transforms/a/b.mjs".to_owned()));
    assert!(resolve_transform_module_path("/tmp", "  ", None).is_err());
    assert!(check_real_path("/a", "m", Some("/real/a"), Some("/elsewhere/m")).is_err());
    assert!(check_real_path("/a", "m", Some("/real/a"), Some("/real/a/m")).is_ok());
}

#[test]
fn modules_are_called_by_their_kind() {
    let js = build_transform_command("/t/a.MJS", Some("run"));
    assert_eq!(js.program, "node");
    assert_eq!(js.args[3], "/t/a.MJS");
    assert_eq!(js.args[4], "run");
    let own = build_transform_command("/t/a.sh", Some("run"));
    assert_eq!(own.program, "/t/a.sh");
    assert_eq!(own.args, vec!["--export", "run"]);
}

#[test]
fn what_a_module_says_is_read() {
    let ended = TransformRun::Ended(true, Some(0), "{\"text\":\"x\"}".to_owned(), String::new());
    match execute_hook_transform(&ended, "/t/a") {
        Ok(Some(value)) => assert_eq!(value.get_text("text").as_deref(), Some("x")),
        _ => panic!("a value was expected"),
    }
    let nothing = TransformRun::Ended(true, Some(0), "null".to_owned(), String::new());
    assert!(matches!(execute_hook_transform(&nothing, "/t/a"), Ok(None)));
    assert!(execute_hook_transform(&TransformRun::TimedOut, "/t/a").is_err());
    let failed = TransformRun::Ended(false, Some(2), String::new(), " broken ".to_owned());
    assert_eq!(
        execute_hook_transform(&failed, "/t/a").err().as_deref(),
        Some("hook transform failed for /t/a: broken")
    );
}

#[test]
fn tokens_are_found_in_headers() {
    assert_eq!(extract_hook_token(Some("Bearer  a "), None).as_deref(), Some("a"));
    assert_eq!(extract_hook_token(Some("bearer a"), Some("b")).as_deref(), Some("a"));
    assert_eq!(extract_hook_token(Some("Basic a"), Some(" b ")).as_deref(), Some("b"));
    assert_eq!(extract_hook_token(None, Some("  ")), None);
}

#[test]
fn requests_are_let_in_with_the_token() {
    let mut limiter = AuthRateLimiter::new(1, 1_000);
    let token = Some("t".to_owned());
    let mut ask = |post: bool, query: Option<&str>, expected: &Option<String>, auth: Option<&str>| {
        match admit_request(post, query, expected, auth, None, "1.2.3.4", &mut limiter, 10) {
            Ok(()) => 200,
            Err(reply) => reply.status,
        }
    };
    assert_eq!(ask(false, None, &token, Some("Bearer t")), 405);
    assert_eq!(ask(true, Some("token=t"), &token, Some("Bearer t")), 400);
    assert_eq!(ask(true, None, &None, Some("Bearer t")), 503);
    assert_eq!(ask(true, None, &token, Some("Bearer x")), 401);
    assert_eq!(ask(true, None, &token, Some("Bearer x")), 429);
    assert_eq!(ask(true, None, &token, Some("Bearer t")), 200);
    assert_eq!(ask(true, None, &token, Some("Bearer x")), 401);
}

#[test]
fn requests_are_routed() {
    let mappings = vec![mapping(HookMappingAction::Agent)];
    let wake = handle_request(Some(b"{\"text\":\" up \"}"), "/wake/", &mappings);
    assert!(matches!(wake, Ok(HookRoute::Wake(ref w)) if w.text == "up"));
    assert!(matches!(handle_request(Some(b""), "agent", &mappings), Ok(HookRoute::Agent(_))));
    let mapped = handle_request(Some(b"{\"source\":\"github\"}"), "github/push", &mappings);
    assert!(matches!(mapped, Ok(HookRoute::Mapping(0, _))));
    let status = |body: Option<&[u8]>, path: &str| match handle_request(body, path, &mappings) {
        Ok(_) => 200,
        Err(reply) => reply.status,
    };
    assert_eq!(status(None, "wake"), 413);
    assert_eq!(status(Some(b"{"), "wake"), 400);
    assert_eq!(status(Some(b"{}"), "wake"), 400);
    assert_eq!(status(Some(b"{}"), "/"), 404);
    assert_eq!(status(Some(b"{}"), "other"), 404);
}

#[test]
fn queries_and_headers_are_read() {
    let query = parse_query_values(Some("a= 1 &b&=c&a=2"));
    assert_eq!(get_field(&query, "a").and_then(Json::as_str), Some("2"));
    assert_eq!(get_field(&query, "b").and_then(Json::as_str), Some(""));
    assert_eq!(query.len(), 2);
    let headers = normalize_hook_headers(&vec![("X-Kind".to_owned(), "push".to_owned())]);
    assert_eq!(get_field(&headers, "x-kind").and_then(Json::as_str), Some("push"));
}

#[test]
fn agent_payloads_need_a_message() {
    let payload = |message: Option<&str>, model: Option<&str>| HookAgentPayload {
        message: message.map(|m| m.to_owned()),
        name: None,
        agent_id: Some(" a ".to_owned()),
        wake_mode: Some("next-heartbeat".to_owned()),
        session_key: None,
        model: model.map(|m| m.to_owned()),
    };
    match normalize_agent_payload(Ok(payload(Some(" do "), None))) {
        Ok(agent) => {
            assert_eq!(agent.message, "do");
            assert_eq!(agent.name, "Hook");
            assert_eq!(agent.agent_id.as_deref(), Some("a"));
            assert_eq!(agent.wake_mode, HookWakeMode::NextHeartbeat);
        }
        Err(_) => panic!("the payload is taken"),
    }
    assert_eq!(
        normalize_agent_payload(Ok(payload(None, None))).err().as_deref(),
        Some("message required")
    );
    assert_eq!(
        normalize_agent_payload(Ok(payload(Some("x"), Some(" ")))).err().as_deref(),
        Some("model required")
    );
    assert_eq!(
        normalize_agent_payload(Err("e".to_owned())).err().as_deref(),
        Some("invalid agent payload: e")
    );
}

fn base_wake() -> HookResolvedAction {
    HookResolvedAction::Wake(HookWakeNormalized {
        text: "t".to_owned(),
        mode: HookWakeMode::NextHeartbeat,
    })
}

#[test]
fn changes_go_over_what_a_mapping_does() {
    match merge_hook_action(base_wake(), no_change()) {
        Ok(HookResolvedAction::Wake(w)) => {
            assert_eq!(w.text, "t");
            assert_eq!(w.mode, HookWakeMode::NextHeartbeat);
        }
        _ => panic!("a wake was expected"),
    }
    let mut to_agent = no_change();
    to_agent.kind = Some(HookMappingAction::Agent);
    assert_eq!(
        merge_hook_action(base_wake(), to_agent).err().as_deref(),
        Some("hook mapping requires message")
    );
    let mut text = no_change();
    text.text = Some(" new ".to_owned());
    text.mode = Some("now".to_owned());
    match apply_mapping_transform_if_configured(base_wake(), Some(Ok(Some(text)))) {
        Ok(Some(HookResolvedAction::Wake(w))) => {
            assert_eq!(w.text, "new");
            assert_eq!(w.mode, HookWakeMode::Now);
        }
        _ => panic!("a wake was expected"),
    }
    assert!(matches!(
        apply_mapping_transform_if_configured(base_wake(), Some(Ok(None))),
        Ok(None)
    ));
    assert_eq!(skipped_reply().status, 200);
}

#[test]
fn mappings_fill_their_templates() {
    let payload = map(r#"{"who": "jd"}"#);
    let none = object();
    let context = HookTemplateContext {
        payload: &payload,
        headers: &none,
        path: "p",
        query: &none,
        url: "/p",
    };
    let mut agent = mapping(HookMappingAction::Agent);
    agent.message_template = Some("hi {{who}}".to_owned());
    match build_mapping_action(&agent, &context) {
        Ok(HookResolvedAction::Agent(a)) => assert_eq!(a.message, "hi jd"),
        _ => panic!("an agent was expected"),
    }
    assert_eq!(
        build_mapping_action(&mapping(HookMappingAction::Wake), &context).err().as_deref(),
        Some("hook mapping requires text")
    );
}

#[test]
fn waking_and_asking_agents() {
    let later = HookWakeNormalized { text: "t".to_owned(), mode: HookWakeMode::NextHeartbeat };
    let plan = dispatch_wake(&later, 9, "id-1");
    assert_eq!(plan.pending_key.as_deref(), Some("hooks/pending-wake/id-1"));
    assert!(plan.wake_reason.is_none());
    assert_eq!(plan.reply.body.get_text("mode").as_deref(), Some("next-heartbeat"));
    let agent = HookAgentNormalized {
        message: "m".to_owned(),
        name: "n".to_owned(),
        agent_id: None,
        wake_mode: HookWakeMode::Now,
        session_key: None,
    };
    match dispatch_agent(&config(), &agent, HookSessionKeySource::Request, "s1", "r1") {
        Ok(plan) => {
            assert_eq!(plan.session_key, "hook:s1");
            assert_eq!(plan.wake_reason, Some("hook:agent"));
            assert_eq!(plan.params.get_text("idempotencyKey").as_deref(), Some("hook-agent-r1"));
            let reply = agent_accepted(&plan, &Json::Null);
            assert_eq!(reply.status, 202);
            assert_eq!(reply.body.get_text("runId").as_deref(), Some(""));
        }
        Err(_) => panic!("the agent is asked"),
    }
}
