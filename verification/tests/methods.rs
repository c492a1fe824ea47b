use reclaw_core::application::config::{ChannelWebhookPluginConfig, RuntimeConfig};
use reclaw_core::domain::error::DomainError;
use reclaw_core::domain::models::{
    AgentRunRecord, ChatMessage, CronPayload, CronSchedule, NodePairRequestRecord, SessionRecord,
};
use reclaw_core::json::{object, set_field, Json};
use reclaw_core::protocol::errors::ErrorShape;
use reclaw_core::rpc::methods::agent::{
    agent_completed, agent_request, agent_request_with, agent_wait_payload, agent_wait_request,
    claimed_run, handle_agent, handle_agent_identity, handle_agent_wait, AgentIdentityParams,
    AgentRunParams, AgentRunTask, AgentStart, AgentWaitParams, RunAction, RunEvent, RunStage,
    RunStep, WaitAction,
};
use reclaw_core::rpc::methods::agents::{
    self, bootstrap_file_template, expand_home, load_agents, normalize_agent_id,
    resolve_workspace_path, validate_agent_file_name, AgentRecord, AgentsCreateParams,
    AgentsDeleteParams, AgentsUpdateParams,
};
use reclaw_core::rpc::methods::approvals::{
    approval_id, approval_id_with, handle_exec_approval_request, handle_exec_approval_resolve,
    handle_exec_approval_wait_decision, read_approvals_snapshot, resolve_request,
    save_approvals_snapshot, ApprovalWait, ExecApprovalRequestParams,
};
use reclaw_core::rpc::methods::browser;
use reclaw_core::rpc::methods::channels::{
    as_channel_array, build_channel_views, configured_default_channels, handle_logout,
    merge_channel_entries, ChannelsLogoutParams,
};
use reclaw_core::rpc::methods::chat::{
    abort_request, abort_session, chat_send_request, chat_send_request_with, handle_abort,
    handle_history, handle_send, history_request, ChatAbortParams, ChatHistoryParams,
    ChatSendParams,
};
use reclaw_core::rpc::methods::config::{handle_patch, handle_set, merge_patch, resolve_patch_value};
use reclaw_core::rpc::methods::cron::{
    self, handle_add, handle_add_with, resolve_cron_id, CronAddParams, CronPatchInput,
};
use reclaw_core::rpc::methods::device::{
    self, DevicePairRequest, DeviceState, DeviceTokenRotateParams,
};
use reclaw_core::rpc::methods::logs;
use reclaw_core::rpc::methods::models;
use reclaw_core::rpc::methods::nodes::{self, NodePairRequestParams};
use reclaw_core::rpc::methods::send::{handle_send_with, SendParams};
use reclaw_core::rpc::methods::sessions::{
    self, preview_request, preview_session, SessionsPatchParams,
};
use reclaw_core::rpc::methods::skills::{
    self, infer_skill_bins, normalize_skill_key, SkillsInstallParams, SkillsUpdateParams,
};
use reclaw_core::rpc::methods::system;
use reclaw_core::rpc::methods::talk;
use reclaw_core::rpc::methods::tts::{self, TtsConvertParams};
use reclaw_core::rpc::methods::update;
use reclaw_core::rpc::methods::usage::cost_period;
use reclaw_core::rpc::methods::voicewake;
use reclaw_core::rpc::methods::wizard::{
    handle_cancel, handle_next, handle_start_with, load_wizard, wizard_response, WizardSession,
    WizardStartParams,
};
use reclaw_core::rpc::SessionContext;
use reclaw_core::sorted_map::SortedMap;

fn json(raw: &str) -> Json {
    Json::read(raw.as_bytes()).expect("JSON expected")
}

fn list(raw: &str) -> Vec<Json> {
    match json(raw) {
        Json::Array(items) => items,
        _ => panic!("a list was expected"),
    }
}

fn value(raw: &str) -> serde_json::Value {
    serde_json::from_str(raw).expect("JSON expected")
}

fn owned(s: &str) -> Option<String> {
    Some(s.to_owned())
}

fn failure<T>(result: Result<T, ErrorShape>) -> String {
    match result {
        Ok(_) => panic!("a refusal was expected"),
        Err(error) => error.message,
    }
}

fn success<T>(result: Result<T, ErrorShape>) -> T {
    match result {
        Ok(value) => value,
        Err(error) => panic!("{}", error.message),
    }
}

fn config() -> RuntimeConfig {
    RuntimeConfig::for_test("127.0.0.1", 18_789, ":memory:")
}

fn session_context() -> SessionContext {
    SessionContext {
        conn_id: "conn".to_owned(),
        role: "operator".to_owned(),
        scopes: Vec::new(),
        client_id: "cli".to_owned(),
        client_mode: "cli".to_owned(),
    }
}

// ------------------------------------------------------------------------------------------
// Agents and chats
// ------------------------------------------------------------------------------------------
fn run_params(input: Option<&str>) -> AgentRunParams {
    AgentRunParams {
        run_id: None,
        idempotency_key: owned(" key "),
        agent_id: None,
        session_key: None,
        input: None,
        message: input.map(|s| s.to_owned()),
        text: owned("not used"),
        deferred: None,
    }
}

fn run_record(id: &str, status: &str) -> AgentRunRecord {
    AgentRunRecord {
        id: id.to_owned(),
        agent_id: "main".to_owned(),
        input: "hi".to_owned(),
        output: String::new(),
        status: status.to_owned(),
        session_key: owned("s"),
        metadata: Json::Object(object()),
        created_at_ms: 1,
        updated_at_ms: 2,
        completed_at_ms: None,
    }
}

#[test]
fn agents_are_asked() {
    let request = success(agent_request_with(run_params(Some(" hello ")), "x"));
    assert_eq!(request.input, "hello");
    assert_eq!(request.run_id, "key");
    assert_eq!(request.session_key, "agent:main:main");
    assert_eq!(request.agent_id, "main");
    assert_eq!(
        failure(agent_request_with(run_params(Some("  ")), "x")),
        "invalid agent params: input is required"
    );
    let mut unnamed = run_params(Some("a"));
    unnamed.idempotency_key = None;
    let fresh = success(agent_request(unnamed));
    assert!(fresh.run_id.starts_with("run-") && fresh.run_id.len() == 40);
}

#[test]
fn a_run_is_queued_or_begun() {
    let mut deferred = run_params(Some("a"));
    deferred.deferred = Some(true);
    let request = success(agent_request_with(deferred, "x"));
    match success(handle_agent(request, None, false, 7)) {
        AgentStart::Queued { session, run, answer } => {
            assert_eq!(session.expect("a session").title, "Session agent:main:main");
            assert_eq!(run.status, "queued");
            assert_eq!(answer.get_text("summary").as_deref(), Some("queued"));
        }
        _ => panic!("the run is queued"),
    }
    let request = success(agent_request_with(run_params(Some("a")), "x"));
    assert!(matches!(
        handle_agent(request, None, true, 7),
        Ok(AgentStart::Begin { session: None, .. })
    ));
    let request = success(agent_request_with(run_params(Some("a")), "x"));
    let mut other = run_record("key", "running");
    other.agent_id = "helper".to_owned();
    assert_eq!(
        failure(handle_agent(request, Some(other), true, 7)),
        "invalid agent params: runId is already used with a different agentId"
    );
}

fn next(step: RunStep) -> (AgentRunTask, RunAction) {
    match step {
        RunStep::Next(task, action) => (task, action),
        RunStep::End(_) => panic!("the run goes on"),
    }
}

#[test]
fn a_run_is_carried_out() {
    let task = success(AgentRunTask::begin(run_record("r", "running")));
    let (task, action) = next(task.step(RunEvent::Loaded(None), 10, "a", "b"));
    assert!(matches!(action, RunAction::Load));
    let (task, action) = next(task.step(RunEvent::Loaded(None), 10, "a", "b"));
    assert!(matches!(action, RunAction::Save));
    let (task, _) = next(task.step(RunEvent::Saved, 10, "a", "b"));
    let (task, action) = next(task.step(RunEvent::Loaded(Some(run_record("r", "running"))), 10, "a", "b"));
    match action {
        RunAction::Append(messages) => {
            assert_eq!(messages[0].id, "msg-a");
            assert_eq!(messages[1].text, "Echo: hi");
            assert_eq!(messages[1].ts, 3);
        }
        _ => panic!("messages are appended"),
    }
    let (task, _) = next(task.step(RunEvent::Appended, 10, "a", "b"));
    let (task, action) = next(task.step(RunEvent::Loaded(None), 11, "a", "b"));
    assert!(matches!(action, RunAction::Finalize));
    assert_eq!(task.stage, RunStage::Completing);
    match task.step(RunEvent::Finalized(true), 12, "a", "b") {
        RunStep::End(Ok(run)) => {
            assert_eq!(run.status, "completed");
            assert_eq!(run.output, "Echo: hi");
            assert_eq!(run.completed_at_ms, Some(11));
            let answer = agent_completed("r", "s", run);
            assert_eq!(answer.get_text("status").as_deref(), Some("ok"));
        }
        _ => panic!("the run is over"),
    }
}

#[test]
fn a_run_that_is_over_stays_as_it_is() {
    let task = success(AgentRunTask::begin(run_record("r", "queued")));
    match task.step(RunEvent::Loaded(Some(run_record("r", "aborted"))), 10, "a", "b") {
        RunStep::End(Ok(run)) => assert_eq!(run.status, "aborted"),
        _ => panic!("the run is over"),
    }
    let mut homeless = run_record("r", "queued");
    homeless.session_key = None;
    assert_eq!(
        failure(AgentRunTask::begin(homeless)),
        "invalid stored agent run: sessionKey is required"
    );
}

#[test]
fn a_run_fails_with_its_messages() {
    let mut task = success(AgentRunTask::begin(run_record("r", "running")));
    task.stage = RunStage::Appending;
    let broken = DomainError::Storage("disk".to_owned());
    let (task, _) = next(task.step(RunEvent::AppendFailed(broken), 10, "a", "b"));
    assert_eq!(task.run.status, "error");
    assert_eq!(
        task.run.output,
        "agent execution failed while appending chat messages: storage error: disk"
    );
    match task.step(RunEvent::Finalized(true), 10, "a", "b") {
        RunStep::End(Err(error)) => assert_eq!(error.code, "UNAVAILABLE"),
        _ => panic!("the run failed"),
    }
}

#[test]
fn runs_are_waited_for() {
    let params = |ms: Option<u64>| AgentWaitParams { run_id: " r ".to_owned(), timeout_ms: ms };
    assert_eq!(success(agent_wait_request(&params(None))), ("r".to_owned(), 30_000));
    assert_eq!(success(agent_wait_request(&params(Some(999_999)))).1, 120_000);
    assert_eq!(handle_agent_wait(&None, false, false), WaitAction::Sleep);
    assert_eq!(handle_agent_wait(&None, false, true), WaitAction::TimeOut);
    assert_eq!(
        handle_agent_wait(&Some(run_record("r", "queued")), false, true),
        WaitAction::Claim
    );
    assert_eq!(
        handle_agent_wait(&Some(run_record("r", "queued")), true, true),
        WaitAction::TimeOut
    );
    assert_eq!(
        handle_agent_wait(&Some(run_record("r", "completed")), false, true),
        WaitAction::Answer
    );
    assert_eq!(claimed_run(run_record("r", "queued"), 9).status, "running");
    let payload = agent_wait_payload("r", &run_record("r", "completed"));
    assert_eq!(
        payload.to_value(),
        value(
            r#"{"runId":"r","status":"completed","startedAt":1,"endedAt":null,"error":null,
                "result":{"output":"","sessionKey":"s"}}"#
        )
    );
}

#[test]
fn identities_come_from_ids_or_sessions() {
    let identity = |agent: Option<&str>, session: Option<&str>| {
        handle_agent_identity(&AgentIdentityParams {
            agent_id: agent.map(|s| s.to_owned()),
            session_key: session.map(|s| s.to_owned()),
        })
        .get_text("agentId")
    };
    assert_eq!(identity(Some(" a "), None).as_deref(), Some("a"));
    assert_eq!(identity(None, Some("agent:b:main")).as_deref(), Some("b"));
    assert_eq!(identity(None, Some("chat:b")).as_deref(), Some("main"));
}

fn chat_params(message: &str) -> ChatSendParams {
    ChatSendParams {
        session_key: None,
        session_id: owned(" s "),
        message: message.to_owned(),
        idempotency_key: owned("k"),
        deferred: None,
    }
}

#[test]
fn messages_are_sent_once() {
    let request = success(chat_send_request_with(chat_params(" hi "), "x"));
    let sent = success(handle_send(request, "conn", None, false, 50, "a", "b"));
    assert_eq!(
        sent.answer.to_value(),
        value(r#"{"runId":"k","status":"completed","sessionKey":"s","message":"Echo: hi"}"#)
    );
    assert_eq!(sent.messages.len(), 2);
    assert!(sent.event.is_some());
    let request = success(chat_send_request_with(chat_params("hi"), "x"));
    let again = success(handle_send(request, "conn", sent.run, true, 60, "c", "d"));
    assert_eq!(again.answer.to_value(), sent.answer.to_value());
    assert!(again.messages.is_empty() && again.run.is_none() && again.event.is_none());
}

#[test]
fn messages_need_a_session_and_a_text() {
    let mut homeless = chat_params("hi");
    homeless.session_id = None;
    assert_eq!(
        failure(chat_send_request(homeless)),
        "invalid chat params: sessionKey is required"
    );
    assert_eq!(
        failure(chat_send_request(chat_params("a\0b"))),
        "invalid chat.send params: message contains null bytes"
    );
    assert_eq!(
        failure(chat_send_request(chat_params(" "))),
        "invalid chat.send params: message or attachment required"
    );
    let mut unnamed = chat_params("hi");
    unnamed.idempotency_key = None;
    assert!(success(chat_send_request(unnamed)).run_id.starts_with("chat-"));
    let request = success(chat_send_request_with(chat_params("hi"), "x"));
    let mut foreign = run_record("k", "completed");
    foreign.session_key = owned("other");
    assert_eq!(
        failure(handle_send(request, "c", Some(foreign), true, 1, "a", "b")),
        "invalid chat.send params: idempotency key already used with a different sessionKey"
    );
}

#[test]
fn histories_are_limited() {
    let params = |limit| ChatHistoryParams { session_key: owned("s"), session_id: None, limit };
    assert_eq!(success(history_request(params(Some(0)))).1, Some(1));
    assert_eq!(success(history_request(params(Some(9_999)))).1, Some(1_000));
    assert_eq!(success(history_request(params(None))).1, None);
    let message = ChatMessage {
        id: "m".to_owned(),
        role: "user".to_owned(),
        text: "t".to_owned(),
        status: "final".to_owned(),
        ts: 4,
        metadata: Json::Null,
    };
    let history = handle_history("s", &vec![message]);
    assert_eq!(
        history.to_value(),
        value(
            r#"{"sessionKey":"s","sessionId":"s","messages":[
                {"id":"m","role":"user","text":"t","status":"final","ts":4,"metadata":null}]}"#
        )
    );
}

#[test]
fn runs_are_called_off() {
    let (session, run) = abort_request(ChatAbortParams {
        session_key: None,
        session_id: None,
        run_id: owned(" "),
    });
    assert_eq!((session.as_str(), run), ("agent:main:main", None));
    let runs = vec![
        run_record("a", "running"),
        run_record("b", "completed"),
        run_record("c", "queued"),
    ];
    let (aborted, answer) = abort_session("s", runs, 77);
    assert_eq!(aborted.len(), 2);
    assert_eq!(aborted[0].id, "a");
    assert_eq!(aborted[1].output, "aborted by chat.abort");
    assert_eq!(
        aborted[1].metadata.to_value(),
        value(r#"{"abortedBy":"chat.abort","abortedAtMs":77}"#)
    );
    assert_eq!(
        answer.to_value(),
        value(r#"{"ok":true,"aborted":true,"sessionKey":"s","runIds":["a","c"]}"#)
    );
    let (changed, answer) = success(handle_abort("s", "a", Some(run_record("a", "error")), 1));
    assert!(changed.is_none());
    assert_eq!(answer.get("aborted").and_then(Json::as_bool), Some(false));
    assert_eq!(
        failure(handle_abort("other", "a", Some(run_record("a", "running")), 1)),
        "invalid chat.abort params: runId does not belong to sessionKey"
    );
}

#[test]
fn clients_put_messages_into_sessions() {
    let params = SendParams {
        session_key: None,
        session_id: None,
        message: None,
        text: owned(" hey "),
        channel: owned("web"),
    };
    let sent = success(handle_send_with(params, "cli", true, 5, "1"));
    assert!(sent.session.is_none());
    assert_eq!(sent.message.text, "hey");
    assert_eq!(
        sent.message.metadata.to_value(),
        value(r#"{"source":"send","channel":"web","requestedBy":"cli"}"#)
    );
}

// ------------------------------------------------------------------------------------------
// The registry of agents
// ------------------------------------------------------------------------------------------
#[test]
fn normalize_agent_id_strips_invalid_characters() {
    assert_eq!(normalize_agent_id("Team Alpha 🤖"), "team-alpha");
    assert_eq!(normalize_agent_id("___Main___"), "main");
}

fn create(name: &str) -> AgentsCreateParams {
    AgentsCreateParams {
        name: name.to_owned(),
        workspace: None,
        model: owned(" m "),
        avatar: None,
        emoji: owned("*"),
    }
}

fn registry() -> Result<Vec<AgentRecord>, ErrorShape> {
    load_agents(None, "/data/reclaw.db", 1)
}

#[test]
fn agents_are_made_changed_and_removed() {
    let made = success(agents::handle_create(create(" Team A "), registry(), "/data/reclaw.db", &None, 5));
    assert_eq!(made.agents.len(), 2);
    assert_eq!(made.agents[1].agent_id, "team-a");
    assert_eq!(made.workspace, "/data/agents/team-a");
    assert_eq!(
        failure(agents::handle_create(create("team a"), Ok(made.agents), "/data/reclaw.db", &None, 5)),
        "agent \"team-a\" already exists"
    );
    assert_eq!(
        failure(agents::handle_create(create("main"), registry(), "/d", &None, 5)),
        "\"main\" is reserved"
    );
    assert_eq!(
        failure(agents::handle_create(create("!!"), registry(), "/d", &None, 5)),
        "invalid agents.create params: name does not yield a valid agent id"
    );
    let change = AgentsUpdateParams {
        agent_id: owned("main"),
        id: None,
        name: owned("First"),
        workspace: owned("~/w"),
        model: None,
        avatar: owned(" "),
    };
    let changed = success(agents::handle_update(change, registry(), "/d", &owned("/home/a"), 9));
    assert_eq!(changed.agents[0].name, "First");
    assert_eq!(changed.workspace.as_deref(), Some("/home/a/w"));
    let made = success(agents::handle_create(create("b"), registry(), "/data/reclaw.db", &None, 5));
    let gone = AgentsDeleteParams { agent_id: None, id: owned("b"), delete_files: Some(false) };
    let removed = success(agents::handle_delete(gone, Ok(made.agents)));
    assert_eq!(removed.agents.len(), 1);
    assert!(removed.workspace.is_none());
    let main = AgentsDeleteParams { agent_id: owned("main"), id: None, delete_files: None };
    assert_eq!(failure(agents::handle_delete(main, registry())), "\"main\" cannot be deleted");
    let nobody = AgentsDeleteParams { agent_id: owned("x"), id: None, delete_files: None };
    assert_eq!(failure(agents::handle_delete(nobody, registry())), "agent \"x\" not found");
}

#[test]
fn workspaces_and_files_of_agents() {
    assert_eq!(expand_home("~", &owned("/h")), "/h");
    assert_eq!(expand_home("~/a", &None), "~/a");
    assert_eq!(resolve_workspace_path(&owned(" /w "), "a", "/d/x.db", &None), "/w");
    assert_eq!(
        bootstrap_file_template("IDENTITY.md", "Ann", &owned(" + ")),
        "# Identity\n\n- Name: Ann\n- Emoji: +\n"
    );
    assert_eq!(bootstrap_file_template("SOUL.md", "Ann", &None), "# Soul\n\n");
    assert_eq!(success(validate_agent_file_name("agents.files.get", " MEMORY.md ")), "MEMORY.md");
    assert_eq!(
        failure(validate_agent_file_name("agents.files.get", "../x")),
        "invalid agents.files.get params: unsupported file \"../x\""
    );
    let main = success(agents::resolve_agent_by_id(" main ", registry()));
    let file = agents::handle_files_get(&main, "SOUL.md", &Some((3, "ä".to_owned())));
    assert_eq!(
        file.get("file").expect("a file").to_value(),
        value(
            r#"{"name":"SOUL.md","path":"/data/agents/main/SOUL.md","missing":false,
                "size":2,"updatedAtMs":3,"content":"ä"}"#
        )
    );
    let sessions = vec![SessionRecord {
        id: "agent:main:x".to_owned(),
        title: String::new(),
        tags: Vec::new(),
        metadata: Json::Null,
        created_at_ms: 0,
        updated_at_ms: 0,
    }];
    let listed = agents::handle_list(&success(registry()), &Some(sessions), &vec![true]);
    let text = listed.to_text();
    assert!(text.contains("\"sessionsCount\":1") && text.contains("\"bootstrapPending\":true"));
}

// ------------------------------------------------------------------------------------------
// Approvals
// ------------------------------------------------------------------------------------------
fn approval(command: &str, host: Option<&str>) -> ExecApprovalRequestParams {
    ExecApprovalRequestParams {
        id: None,
        command: command.to_owned(),
        cwd: None,
        node_id: None,
        host: host.map(|s| s.to_owned()),
        security: None,
        ask: None,
        agent_id: None,
        resolved_path: None,
        session_key: None,
        timeout_ms: Some(5),
        two_phase: Some(true),
    }
}

#[test]
fn the_shown_hash_lets_store() {
    let stored = json(r#"{"a":1}"#);
    let shown = read_approvals_snapshot("k", Some(stored.copy()));
    let hash = shown.get_text("hash");
    let file = json(r#"{"a":2}"#);
    let save = |hash: &Option<String>| {
        save_approvals_snapshot("exec.approvals.set", &file, hash, Ok(Some(stored.copy())))
    };
    assert!(save(&hash).is_ok());
    assert_eq!(
        failure(save(&owned("0000000000000000"))),
        "exec approvals changed since last load; re-run get and retry"
    );
    assert_eq!(
        failure(save(&None)),
        "exec approvals base hash required; re-run get and retry"
    );
    assert!(save_approvals_snapshot("m", &file, &None, Ok(None)).is_ok());
    assert_eq!(
        failure(save_approvals_snapshot("m", &Json::Null, &None, Ok(None))),
        "invalid m params: file must be an object"
    );
}

#[test]
fn approvals_are_asked_for_and_decided_once() {
    assert_eq!(
        failure(approval_id(&approval(" ", None))),
        "invalid exec.approval.request params: command is required"
    );
    assert_eq!(
        failure(approval_id(&approval("ls", Some("node")))),
        "nodeId is required for host=node"
    );
    let id = success(approval_id_with(&approval("ls", None), "id-1"));
    let (record, answer) =
        success(handle_exec_approval_request(approval("ls", None), id, false, "cli", 100));
    assert_eq!(record.expires_at_ms, 1_100);
    assert_eq!(answer.get_text("status").as_deref(), Some("accepted"));
    assert_eq!(
        failure(handle_exec_approval_request(approval("ls", None), "x".to_owned(), true, "c", 1)),
        "approval id already exists"
    );
    assert_eq!(
        failure(handle_exec_approval_request(approval(" ", None), "x".to_owned(), true, "c", 1)),
        "invalid exec.approval.request params: command is required"
    );
    assert_eq!(failure(resolve_request("id-1", "maybe")), "invalid decision");
    let (_, decision) = success(resolve_request("id-1", " deny "));
    let (resolved, _) = success(handle_exec_approval_resolve(decision, Some(record), "boss", 150));
    assert_eq!(resolved.decision.as_deref(), Some("deny"));
    assert_eq!(
        failure(handle_exec_approval_resolve("deny".to_owned(), Some(resolved), "boss", 160)),
        "approval is not pending"
    );
    assert_eq!(
        failure(handle_exec_approval_resolve("deny".to_owned(), None, "boss", 160)),
        "unknown approval id"
    );
}

#[test]
fn decisions_are_waited_for() {
    let record = || {
        success(handle_exec_approval_request(approval("ls", None), "i".to_owned(), false, "c", 0)).0
    };
    assert!(matches!(
        handle_exec_approval_wait_decision(Some(record()), 10, false),
        Ok(ApprovalWait::Sleep)
    ));
    assert!(matches!(
        handle_exec_approval_wait_decision(Some(record()), 10, true),
        Ok(ApprovalWait::Answer(_))
    ));
    match handle_exec_approval_wait_decision(Some(record()), 1_000, false) {
        Ok(ApprovalWait::Expire(expired, answer)) => {
            assert_eq!(expired.status, "expired");
            assert_eq!(answer.get_text("status").as_deref(), Some("expired"));
        }
        _ => panic!("the request expires"),
    }
    assert_eq!(
        failure(handle_exec_approval_wait_decision(None, 0, false)),
        "approval expired or not found"
    );
}

// ------------------------------------------------------------------------------------------
// Channels
// ------------------------------------------------------------------------------------------
#[test]
fn channel_array_supports_object_shape() {
    let value = json(
        r#"{
            "slack": {"connected": true},
            "discord": {"connected": false}
        }"#,
    );

    let items = as_channel_array(value);
    assert_eq!(items.len(), 2);
    assert_eq!(items[0].get_text("id").as_deref(), Some("discord"));
}

#[test]
fn configured_default_channels_include_plugin_entries() {
    let mut config = RuntimeConfig::for_test("127.0.0.1", 18_789, ":memory:");
    config.slack_webhook_token = Some("slack-token".to_owned());
    config.channel_webhook_plugins.insert(
        "extchat".to_owned(),
        ChannelWebhookPluginConfig {
            url: "http://127.0.0.1:4900/webhook".to_owned(),
            token: None,
            timeout_ms: Some(3_000),
        },
    );

    let items = configured_default_channels(&config);
    let values: Vec<serde_json::Value> = items.iter().map(|i| i.to_value()).collect();
    assert!(values.iter().any(|entry| entry["id"] == "slack"
        && entry["kind"] == "adapter"
        && entry["connected"] == true));
    assert!(values.iter().any(|entry| entry["id"] == "extchat"
        && entry["kind"] == "plugin"
        && entry["connected"] == true));
}

#[test]
fn merge_channel_entries_preserves_default_fields() {
    let defaults = list(r#"[{"id": "slack", "connected": true, "kind": "adapter"}]"#);
    let overrides = list(r#"[{"id": "slack", "connected": false, "loggedOutAtMs": 123}]"#);

    let merged: Vec<serde_json::Value> =
        merge_channel_entries(&defaults, &overrides).iter().map(|i| i.to_value()).collect();
    assert_eq!(merged.len(), 1);
    assert_eq!(merged[0]["id"], "slack");
    assert_eq!(merged[0]["kind"], "adapter");
    assert_eq!(merged[0]["connected"], false);
    assert_eq!(merged[0]["loggedOutAtMs"], 123);
}

#[test]
fn merge_channel_entries_supports_account_variants() {
    let defaults = list(r#"[{"id": "slack", "connected": true, "kind": "adapter"}]"#);
    let overrides = list(
        r#"[
            {"id": "slack", "accountId": "ops", "connected": false, "loggedOutAtMs": 123},
            {"id": "slack", "accountId": "default", "connected": false, "loggedOutAtMs": 456}
        ]"#,
    );

    let merged: Vec<serde_json::Value> =
        merge_channel_entries(&defaults, &overrides).iter().map(|i| i.to_value()).collect();
    assert_eq!(merged.len(), 2);
    assert!(merged.iter().any(|entry| {
        entry["id"] == "slack"
            && entry["accountId"] == "ops"
            && entry["connected"] == false
            && entry["loggedOutAtMs"] == 123
    }));
    assert!(merged.iter().any(|entry| {
        entry["id"] == "slack"
            && entry["accountId"] == "default"
            && entry["connected"] == false
            && entry["loggedOutAtMs"] == 456
            && entry["kind"] == "adapter"
    }));
}

#[test]
fn build_channel_views_summarizes_accounts() {
    let channels = list(
        r#"[
            {"id": "extchat", "connected": true, "kind": "plugin"},
            {"id": "extchat", "accountId": "ops", "connected": false, "kind": "plugin", "loggedOutAtMs": 42}
        ]"#,
    );

    let views = build_channel_views(&channels);
    assert_eq!(views.channel_order, vec!["extchat"]);
    assert_eq!(views.channels_by_id.to_value()["extchat"]["connected"], true);
    assert_eq!(views.channel_default_account_id.to_value()["extchat"], "default");
    assert_eq!(views.channel_accounts.to_value()["extchat"][0]["accountId"], "default");
    assert_eq!(views.channel_accounts.to_value()["extchat"][1]["accountId"], "ops");
}

#[test]
fn channels_are_left() {
    let params = |account: Option<&str>| ChannelsLogoutParams {
        channel: owned(" node "),
        id: None,
        account_id: account.map(|s| s.to_owned()),
    };
    let (stored, answer) = success(handle_logout(&config(), params(None), None, 9));
    assert_eq!(
        stored.to_value(),
        value(
            r#"[{"id":"node","connected":false,"kind":"gateway","loggedOutAtMs":9,"accountId":"default"},
                {"id":"webchat","connected":true,"kind":"internal"}]"#
        )
    );
    assert_eq!(answer.get_text("channel").as_deref(), Some("node"));
    let (stored, _) = success(handle_logout(&config(), params(Some("ops")), Some(stored), 10));
    assert_eq!(stored.to_value().as_array().map(|a| a.len()), Some(3));
    let nobody = ChannelsLogoutParams { channel: None, id: None, account_id: None };
    assert_eq!(
        failure(handle_logout(&config(), nobody, None, 1)),
        "invalid channels.logout params: channel is required"
    );
}

// ------------------------------------------------------------------------------------------
// Configuration
// ------------------------------------------------------------------------------------------
#[test]
fn merge_patch_removes_null_keys() {
    let base = json(r#"{ "a": 1, "b": 2 }"#);
    let patch = json(r#"{ "b": null, "c": 3 }"#);
    let merged = merge_patch(base, &patch);
    assert_eq!(merged.to_value(), value(r#"{ "a": 1, "c": 3 }"#));
}

#[test]
fn patches_go_into_objects() {
    let base = json(r#"{"a": {"x": 1, "y": 2}, "b": [1]}"#);
    let patch = json(r#"{"a": {"y": null, "z": 3}, "b": {"n": null}, "c": {"n": null}}"#);
    let (config, answer) = handle_patch(base, &patch, "/db");
    assert_eq!(
        config.to_value(),
        value(r#"{"a":{"x":1,"z":3},"b":{},"c":{"n":null}}"#)
    );
    assert_eq!(answer.get_text("path").as_deref(), Some("/db"));
    let (config, _) = handle_patch(json(r#"{"a": 1}"#), &json("7"), "/db");
    assert_eq!(config.to_value(), value("{}"));
    assert_eq!(
        failure(resolve_patch_value(None, None)),
        "invalid config.patch params: patch object required"
    );
    assert_eq!(
        failure(handle_set(Some(Json::Null), None, "config.set", "/db")),
        "invalid config.set params: config must be an object"
    );
}

// ------------------------------------------------------------------------------------------
// Jobs
// ------------------------------------------------------------------------------------------
fn cron_params(kind: &str, enabled: bool) -> CronAddParams {
    CronAddParams {
        id: owned("j"),
        name: None,
        enabled,
        schedule: CronSchedule {
            kind: kind.to_owned(),
            at: None,
            every_ms: Some(1_000),
            anchor_ms: None,
            expr: None,
            tz: None,
            stagger_ms: None,
        },
        payload: CronPayload {
            kind: "systemEvent".to_owned(),
            text: None,
            message: None,
            model: None,
            thinking: None,
            timeout_seconds: None,
        },
        metadata: None,
    }
}

#[test]
fn jobs_are_added_and_changed() {
    let job = success(handle_add_with(cron_params("every", true), "x", 10));
    assert_eq!((job.id.as_str(), job.name.as_str()), ("j", "Cron j"));
    assert_eq!(job.next_run_ms, Some(1_010));
    assert_eq!(success(handle_add_with(cron_params("every", false), "x", 10)).next_run_ms, None);
    assert_eq!(
        failure(handle_add(cron_params(" ", true), 10)),
        "invalid cron schedule: kind is required"
    );
    assert_eq!(
        failure(handle_add(cron_params("daily", false), 10)),
        "invalid cron schedule: unsupported schedule kind: daily"
    );
    let patch = CronPatchInput {
        name: owned(" new "),
        enabled: None,
        schedule: Some(cron_params("every", true).schedule),
        payload: None,
        metadata: None,
        next_run_ms: None,
    };
    let change = success(cron::handle_update(patch, 100));
    assert_eq!(change.next_run_ms, Some(Some(1_100)));
    let job = cron::patch_job(job, change, 200);
    assert_eq!((job.name.as_str(), job.updated_at_ms, job.next_run_ms), ("new", 200, Some(1_100)));
    assert_eq!(
        failure(resolve_cron_id(None, None, "cron.run")),
        "invalid cron.run params: missing id"
    );
    let listed = cron::handle_list(vec![job], Some(false), Some(0));
    assert_eq!(listed.to_value(), value(r#"{"jobs":[],"count":0}"#));
}

// ------------------------------------------------------------------------------------------
// Devices and nodes
// ------------------------------------------------------------------------------------------
fn devices() -> DeviceState {
    DeviceState {
        pending: vec![DevicePairRequest {
            request_id: "r1".to_owned(),
            device_id: "d1".to_owned(),
            display_name: None,
            role: owned("operator"),
            scopes: vec!["b".to_owned(), " a".to_owned()],
            created_at_ms: 1,
        }],
        paired: Vec::new(),
    }
}

fn node_request(id: &str) -> NodePairRequestRecord {
    NodePairRequestRecord {
        request_id: id.to_owned(),
        node_id: "n1".to_owned(),
        display_name: "Node".to_owned(),
        platform: "linux".to_owned(),
        device_family: None,
        commands: Vec::new(),
        public_key: None,
        status: "pending".to_owned(),
        reason: None,
        created_at_ms: 2,
        resolved_at_ms: None,
    }
}

#[test]
fn devices_are_paired_and_their_tokens_hidden() {
    let listed = device::handle_pair_list(&devices(), &vec![node_request("r1"), node_request("r2")]);
    assert_eq!(listed.to_value()["pending"].as_array().map(|a| a.len()), Some(2));
    let (state, _) = success(device::handle_pair_approve(devices(), "r1", None, 5));
    assert!(state.pending.is_empty());
    let params = DeviceTokenRotateParams {
        device_id: "d1".to_owned(),
        role: "operator".to_owned(),
        scopes: None,
    };
    let (state, answer) = success(device::handle_token_rotate(state, &params, "abc", 6));
    assert_eq!(
        answer.to_value(),
        value(
            r#"{"deviceId":"d1","role":"operator","token":"dtk_abc","scopes":["a","b"],"rotatedAtMs":6}"#
        )
    );
    assert!(state.to_json().to_text().contains("dtk_abc"));
    let shown = device::handle_pair_list(&state, &Vec::new()).to_text();
    assert!(!shown.contains("dtk_abc") && shown.contains("\"tokenPresent\":true"));
    let (state, _) = success(device::handle_token_revoke(state, "d1", "operator", 7));
    assert_eq!(
        failure(device::handle_token_revoke(state, "d1", "operator", 7)),
        "unknown deviceId/role"
    );
}

#[test]
fn pairing_again_replaces_and_removing_removes() {
    let (state, _) = success(device::handle_pair_approve(devices(), "n", Some(node_request("n")), 5));
    let (state, _) = success(device::handle_pair_approve(state, "n", Some(node_request("n")), 6));
    assert_eq!(state.paired.len(), 1);
    assert_eq!(state.paired[0].paired_at_ms, 6);
    let (state, _) = success(device::handle_pair_remove(state, " n1 ", 7));
    assert!(state.paired.is_empty());
    assert_eq!(failure(device::handle_pair_remove(state, "n1", 7)), "unknown deviceId");
    assert_eq!(failure(device::handle_pair_reject(devices(), "x", None)), "unknown requestId");
    let (state, answer) = success(device::handle_pair_reject(devices(), "r1", None));
    assert!(state.pending.is_empty());
    assert_eq!(answer.get_text("deviceId").as_deref(), Some("d1"));
}

#[test]
fn nodes_ask_and_are_described() {
    let params = NodePairRequestParams {
        node_id: " n ".to_owned(),
        display_name: None,
        platform: None,
        device_family: None,
        commands: Some(vec!["a".to_owned(), " a ".to_owned(), "b".to_owned()]),
        public_key: None,
    };
    let input = success(nodes::pair_request_input(&params));
    assert_eq!((input.display_name.as_str(), input.platform.as_str()), ("n", "unknown"));
    assert_eq!(input.commands, vec!["a", "b"]);
    assert_eq!(failure(nodes::handle_describe(&None, 1)), "unknown nodeId");
    assert_eq!(
        failure(nodes::resolve_node_id(None, None, "node.describe")),
        "invalid node.describe params: nodeId is required"
    );
    let verified = nodes::handle_pair_verify("n", &owned("t"), &None);
    assert_eq!(verified.get("verified").and_then(Json::as_bool), Some(false));
    let mut session = session_context();
    assert!(nodes::event_request(&None, "e", &session).is_err());
    session.role = "node".to_owned();
    assert_eq!(
        success(nodes::event_request(&None, " e ", &session)),
        ("cli".to_owned(), "e".to_owned())
    );
}

// ------------------------------------------------------------------------------------------
// Sessions and skills
// ------------------------------------------------------------------------------------------
#[test]
fn sessions_are_looked_into_and_patched() {
    let keys: Vec<String> = (0..70).map(|i| format!(" k{} ", i)).collect();
    let request = preview_request(&keys, Some(0), Some(5));
    assert_eq!((request.keys.len(), request.limit, request.max_chars), (64, 1, 20));
    assert_eq!(request.keys[0], "k0");
    let message = ChatMessage {
        id: "m".to_owned(),
        role: "user".to_owned(),
        text: "äöü".to_owned(),
        status: "final".to_owned(),
        ts: 4,
        metadata: Json::Null,
    };
    let preview = preview_session("k", true, &vec![message], 2);
    assert_eq!(preview.to_value()["items"][0]["text"], "äö");
    assert_eq!(preview.get_text("status").as_deref(), Some("ok"));
    let patch = SessionsPatchParams {
        id: None,
        key: owned("s"),
        title: None,
        tags: Some(vec!["x".to_owned(), "x ".to_owned()]),
        metadata: None,
    };
    let (session, _) = success(sessions::handle_patch(patch, "s", None, 8));
    assert_eq!(session.title, "Session s");
    assert_eq!(session.tags, vec!["x"]);
    let empty = SessionsPatchParams { id: None, key: None, title: None, tags: None, metadata: None };
    let (again, _) = success(sessions::handle_patch(empty, "s", Some(session), 9));
    assert_eq!((again.created_at_ms, again.updated_at_ms), (8, 9));
    assert_eq!(again.tags, vec!["x"]);
    let wrong = SessionsPatchParams {
        id: None,
        key: None,
        title: None,
        tags: None,
        metadata: Some(Json::Null),
    };
    assert_eq!(
        failure(sessions::handle_patch(wrong, "s", None, 9)),
        "invalid sessions.patch params: metadata must be an object"
    );
    assert_eq!(sessions::compact_age(None), 604_800_000);
}

#[test]
fn normalize_skill_key_collapses_spacing() {
    assert_eq!(normalize_skill_key("  Rust Lint  "), "rust-lint");
    assert_eq!(normalize_skill_key("!!!"), "");
}

#[test]
fn skills_are_installed_and_set_up() {
    assert_eq!(infer_skill_bins("node-git-pip"), vec!["git", "node", "python3"]);
    assert_eq!(infer_skill_bins("x"), vec!["sh"]);
    let params = SkillsInstallParams {
        name: "Git Helper".to_owned(),
        install_id: "i1".to_owned(),
        timeout_ms: None,
    };
    let (entries, _) = success(skills::handle_install(&params, Ok(SortedMap::new()), 3));
    let mut env = object();
    set_field(&mut env, " KEY ", Json::Text(" v ".to_owned()));
    set_field(&mut env, "GONE", Json::Null);
    let change = SkillsUpdateParams {
        skill_key: "git helper".to_owned(),
        enabled: Some(false),
        api_key: owned(" "),
        env: Some(env),
    };
    let (entries, answer) = success(skills::handle_update(change, Ok(entries), 4));
    assert_eq!(
        answer.to_value(),
        value(
            r#"{"ok":true,"skillKey":"git-helper","config":{"enabled":false,"apiKey":null,
                "env":{"KEY":"v"},"bins":["git"],"installed":true,"installId":"i1","updatedAtMs":4}}"#
        )
    );
    let status = skills::handle_status(&None, &entries).to_text();
    assert!(status.contains("\"eligible\":1") && status.contains("\"total\":1"));
    assert_eq!(skills::handle_bins(&entries).to_value(), value(r#"{"bins":["git"]}"#));
    let nameless = SkillsInstallParams {
        name: "!!!".to_owned(),
        install_id: "i".to_owned(),
        timeout_ms: None,
    };
    assert_eq!(
        failure(skills::handle_install(&nameless, Ok(SortedMap::new()), 3)),
        "invalid skills.install params: name is not a valid skill key"
    );
}

// ------------------------------------------------------------------------------------------
// Wizards, speech and the rest
// ------------------------------------------------------------------------------------------
#[test]
fn wizard_response_returns_current_step() {
    let session = WizardSession {
        id: "w1".to_owned(),
        status: "active".to_owned(),
        goal: "test".to_owned(),
        step_index: 1,
        steps: vec!["a".to_owned(), "b".to_owned()],
        created_at_ms: 1,
        updated_at_ms: 2,
        last_input: None,
        cancel_reason: None,
    };

    let payload = wizard_response(&session);
    assert_eq!(payload.get_text("currentStep").as_deref(), Some("b"));
}

#[test]
fn wizards_go_step_by_step() {
    let params = WizardStartParams { id: None, goal: None, prompt: owned(" g ") };
    let mut session = success(handle_start_with(params, "1", 0));
    assert_eq!(session.id, "wizard-1");
    for step in 1..4 {
        session = success(handle_next(session, &None, step));
        assert_eq!(session.step_index, step as usize);
        assert_eq!(session.status, "active");
    }
    session = success(handle_next(session, &owned("done"), 9));
    assert_eq!((session.step_index, session.status.as_str()), (3, "completed"));
    assert_eq!(
        failure(handle_next(session, &None, 10)),
        "wizard session is not active: completed"
    );
    let params = WizardStartParams { id: owned("w"), goal: owned("g"), prompt: None };
    let session = handle_cancel(success(handle_start_with(params, "1", 0)), &owned(" no "), 5);
    assert_eq!(session.cancel_reason.as_deref(), Some("no"));
    assert_eq!(failure(load_wizard("w", None)), "wizard session not found: w");
}

#[test]
fn speech_is_switched_on_and_spoken() {
    let params = TtsConvertParams { text: " ä ".to_owned(), provider: None, voice: None };
    assert_eq!(failure(tts::handle_convert(&params, None)), "tts is disabled");
    let (config, _) = tts::set_tts_enabled(None, true);
    let spoken = success(tts::handle_convert(&params, Some(config)));
    assert_eq!(
        spoken.to_value(),
        value(
            r#"{"ok":true,"provider":"mock","voice":null,
                "audio":{"format":"text/plain","durationMs":80,"content":"ä"}}"#
        )
    );
    assert_eq!(
        failure(tts::handle_set_provider("other", None)),
        "unknown tts provider: other"
    );
    assert!(tts::handle_set_provider(" mock ", None).is_ok());
    assert_eq!(
        tts::handle_providers(None).to_value(),
        value(r#"{"providers":["mock"],"activeProvider":"mock"}"#)
    );
}

#[test]
fn the_log_is_filtered() {
    let entries = list(
        r#"[
            {"level":"INFO","method":"a"},
            {"level":"warn","method":"a"},
            {"level":"info","method":"b"},
            {"level":"info","method":"a"}
        ]"#,
    );
    let found = logs::handle_tail(&entries, Some(1), &owned("info"), &owned(" a "));
    assert_eq!(
        found.to_value(),
        value(r#"{"entries":[{"level":"INFO","method":"a"}],"count":1}"#)
    );
    let found = logs::handle_tail(&entries, Some(9), &owned("info"), &None);
    assert_eq!(found.to_value()["count"], 3);
    assert_eq!(logs::tail_request(None), (200, 800));
}

#[test]
fn models_are_listed_by_provider() {
    let listed = models::handle_list(None, &owned("local"), None, 1);
    assert_eq!(listed.to_value()["models"][0]["id"], "mock-local");
    let listed = models::handle_list(None, &None, Some(2), 1);
    assert_eq!(listed.to_value()["models"].as_array().map(|a| a.len()), Some(2));
}

#[test]
fn heartbeats_and_events() {
    let (beat, answer) = system::handle_wake(&owned(" now "), &session_context(), 4);
    assert_eq!(
        beat.to_value(),
        value(r#"{"ts":4,"reason":"now","by":"cli","role":"operator"}"#)
    );
    assert_eq!(answer.get("ok").and_then(Json::as_bool), Some(true));
    let (key, _, _) =
        success(system::handle_system_event_with(" e ", None, &session_context(), 4, "x"));
    assert_eq!(key, "system/events/4-x");
    assert_eq!(
        failure(system::handle_set_heartbeats(None)),
        "invalid set-heartbeats params: heartbeats is required"
    );
    assert_eq!(
        system::handle_last_heartbeat(None).to_value(),
        value(r#"{"ts":0,"status":"none"}"#)
    );
}

#[test]
fn small_settings_are_kept() {
    let (config, _) = success(talk::handle_mode(" quiet ", None));
    assert_eq!(
        config.to_value(),
        value(r#"{"mode":"quiet","allowMentions":true,"safety":"standard"}"#)
    );
    let (config, _) = success(voicewake::handle_set(None, Some(true), &owned(" hi ")));
    assert_eq!(config.to_value(), value(r#"{"enabled":true,"phrase":"hi"}"#));
    assert_eq!(
        failure(voicewake::handle_set(None, None, &owned(" "))),
        "invalid voicewake.set params: phrase cannot be empty"
    );
    assert_eq!(
        failure(voicewake::handle_set(Some(Json::Null), None, &None)),
        "voicewake config is corrupted"
    );
    let run = update::handle_run_with(&None, &owned(" n "), "cli", 3, "1");
    assert_eq!(run.get_text("id").as_deref(), Some("update-1"));
    assert_eq!(run.get_text("mode").as_deref(), Some("check"));
    assert_eq!((cost_period(None), cost_period(Some(0)), cost_period(Some(999))), (30, 1, 365));
    let refusal = browser::handle_request(object());
    assert_eq!(refusal.code, "UNAVAILABLE");
    assert!(refusal.details.is_some());
}
