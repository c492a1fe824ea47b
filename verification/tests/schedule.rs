use reclaw_core::application::config::InitScope;
use reclaw_core::application::cron_schedule::{
    compute_next_cron_time, compute_next_run_ms, parse_minute_matcher, parse_rfc3339_ms,
};
use reclaw_core::application::init_config::{
    after_answer, base_config_template, ensure_config_file, prompt_yes_no, resolve_targets, summary,
    ConfigStep, ConfigTarget, InitPaths, TargetScope, WriteOutcome,
};
use reclaw_core::application::state::{
    cron_job_missing, execute_cron_payload, online_node, run_cron_job, sanitize_scopes,
    tick_cron_jobs, ClientRegistry, ConnectedClient,
};
use reclaw_core::domain::error::DomainError;
use reclaw_core::domain::models::{CronJobRecord, CronPayload, CronSchedule};
use reclaw_core::json::{object, Json};

fn schedule(kind: &str) -> CronSchedule {
    CronSchedule {
        kind: kind.to_owned(),
        at: None,
        every_ms: None,
        anchor_ms: None,
        expr: None,
        tz: None,
        stagger_ms: None,
    }
}

fn payload(kind: &str) -> CronPayload {
    CronPayload {
        kind: kind.to_owned(),
        text: Some("ping".to_owned()),
        message: Some("turn".to_owned()),
        model: None,
        thinking: None,
        timeout_seconds: None,
    }
}

fn job(id: &str, enabled: bool, next: Option<u64>) -> CronJobRecord {
    let mut every = schedule("every");
    every.every_ms = Some(1_000);
    CronJobRecord {
        id: id.to_owned(),
        name: "job".to_owned(),
        enabled,
        schedule: every,
        payload: payload("systemEvent"),
        metadata: Json::Object(object()),
        created_at_ms: 1,
        updated_at_ms: 1,
        last_run_ms: None,
        next_run_ms: next,
    }
}

#[test]
fn cron_every_schedule_computes_next_run() {
    let schedule = CronSchedule {
        kind: "every".to_owned(),
        at: None,
        every_ms: Some(1_000),
        anchor_ms: None,
        expr: None,
        tz: None,
        stagger_ms: None,
    };
    let next = compute_next_run_ms(&schedule, 10).expect("next run should compute");
    assert_eq!(next, Some(1_010));
}

#[test]
fn cron_supports_simple_star_expression() {
    let schedule = CronSchedule {
        kind: "cron".to_owned(),
        at: None,
        every_ms: None,
        anchor_ms: None,
        expr: Some("* * * * *".to_owned()),
        tz: Some("UTC".to_owned()),
        stagger_ms: None,
    };
    let now = 1_700_000_000_000_u64;
    let next = compute_next_run_ms(&schedule, now).expect("cron next run should compute");
    assert!(next.expect("next run should exist") > now);
}

#[test]
fn intervals_are_aligned_to_their_anchor() {
    let mut every = schedule("every");
    every.every_ms = Some(1_000);
    every.anchor_ms = Some(250);
    for from in 0..3_000u64 {
        let sooner = compute_next_run_ms(&every, from).expect("next run should compute");
        let later = compute_next_run_ms(&every, from + 1).expect("next run should compute");
        assert!(sooner <= later);
    }
    assert_eq!(compute_next_run_ms(&every, 2_300), Ok(Some(3_250)));
    assert_eq!(compute_next_run_ms(&every, 100), Ok(Some(250)));
}

#[test]
fn schedules_that_lack_something_are_refused() {
    assert!(compute_next_run_ms(&schedule("every"), 1).is_err());
    assert_eq!(
        compute_next_run_ms(&schedule("at"), 1),
        Err("schedule.at is required for kind=at".to_owned())
    );
    assert_eq!(
        compute_next_run_ms(&schedule("cron"), 1),
        Err("schedule.expr is required for kind=cron".to_owned())
    );
    assert_eq!(
        compute_next_run_ms(&schedule("weekly"), 1),
        Err("unsupported schedule kind: weekly".to_owned())
    );
    assert_eq!(compute_next_run_ms(&schedule("once"), 1), Ok(None));
}

#[test]
fn points_in_time_are_read() {
    assert_eq!(parse_rfc3339_ms("1970-01-01T00:00:01Z"), Ok(1_000));
    assert_eq!(parse_rfc3339_ms("1970-01-01T01:00:00+01:00"), Ok(0));
    assert!(parse_rfc3339_ms("tomorrow").is_err());
    let mut at = schedule("at");
    at.at = Some("1970-01-01T00:00:01Z".to_owned());
    assert_eq!(compute_next_run_ms(&at, 999), Ok(Some(1_000)));
    assert_eq!(compute_next_run_ms(&at, 1_000), Ok(None));
}

#[test]
fn minutes_are_matched() {
    let every = parse_minute_matcher("*/15").expect("field");
    assert!(every.matches(0) && every.matches(45) && !every.matches(50));
    let exact = parse_minute_matcher("7").expect("field");
    assert!(exact.matches(7) && !exact.matches(8));
    assert!(parse_minute_matcher("*/0").is_err());
    assert!(parse_minute_matcher("60").is_err());
    // 1_700_000_000 s are 22:13:20 in UTC.
    assert_eq!(
        compute_next_cron_time("30 * * * *", 1_700_000_000_000),
        Ok(1_700_001_000_000)
    );
}

#[test]
fn jobs_run_and_get_their_next_time() {
    let (next, run) = match run_cron_job(job("a", true, Some(5)), "r1", true, 100, 110) {
        Ok(done) => done,
        Err(_) => panic!("the job runs"),
    };
    assert_eq!(next.last_run_ms, Some(110));
    assert_eq!(next.next_run_ms, Some(1_110));
    assert_eq!(run.id, "run-r1");
    assert_eq!(run.status, "ok");
    assert_eq!(run.output.as_deref(), Some("systemEvent:ping @100"));
    assert!(run.manual);
    assert_eq!(
        execute_cron_payload(&payload("agentTurn"), 7),
        Ok("agentTurn:turn @7".to_owned())
    );
    assert_eq!(
        execute_cron_payload(&payload("shell"), 7),
        Err("unsupported cron payload kind: shell".to_owned())
    );
}

#[test]
fn only_due_jobs_are_run() {
    let jobs = vec![
        job("due", true, Some(10)),
        job("later", true, Some(30)),
        job("off", false, Some(10)),
        job("never", true, None),
        job("now", true, Some(20)),
    ];
    assert_eq!(tick_cron_jobs(true, &jobs, 20), vec!["due", "now"]);
    assert!(tick_cron_jobs(false, &jobs, 20).is_empty());
}

#[test]
fn missing_jobs_are_not_found() {
    assert!(
        matches!(cron_job_missing("x"), DomainError::NotFound(ref m) if m == "cron job not found: x")
    );
}

#[test]
fn sanitize_scopes_deduplicates_values() {
    let scopes = vec![
        "operator.admin".to_owned(),
        " operator.admin ".to_owned(),
        "".to_owned(),
        "operator.config.write".to_owned(),
    ];
    let sanitized = sanitize_scopes(&scopes);
    assert_eq!(sanitized.len(), 2);
    assert!(sanitized.contains(&"operator.admin".to_owned()));
    assert!(sanitized.contains(&"operator.config.write".to_owned()));
}

fn client(conn: &str, role: &str) -> ConnectedClient {
    ConnectedClient {
        conn_id: conn.to_owned(),
        client_id: "client-1".to_owned(),
        display_name: None,
        client_version: "1".to_owned(),
        platform: "linux".to_owned(),
        device_family: None,
        model_identifier: None,
        mode: "cli".to_owned(),
        role: role.to_owned(),
        scopes: Vec::new(),
        instance_id: None,
        remote_ip: None,
        connected_at_ms: 9,
    }
}

#[test]
fn clients_come_and_go() {
    let mut registry = ClientRegistry::new();
    assert!(registry.register_client(client("c1", "operator")).is_none());
    let before = registry.presence_version();
    let node = registry.register_client(client("c2", "node"));
    assert!(node.is_some());
    assert_eq!(registry.connection_count(), 2);
    assert!(registry.register_client(client("c0", "operator")).is_none());
    assert!(registry.register_client(client("c0", "operator")).is_none());
    assert_eq!(registry.connection_count(), 3);
    assert_eq!(registry.client(0).conn_id, "c0");
    assert_eq!(registry.client(1).conn_id, "c1");
    assert_eq!(registry.client(2).conn_id, "c2");
    assert!(registry.unregister_client("c0").is_none());
    assert!(registry.presence_version() > before);
    assert!(registry.unregister_client("c2").is_some());
    assert!(registry.unregister_client("c1").is_none());
    assert_eq!(registry.connection_count(), 0);
    assert!(online_node(&client("c2", "node")).status == "online");
}

#[test]
fn resolve_targets_requires_home_for_user_scope() {
    let paths = InitPaths {
        user_config_toml: None,
        system_config_toml: "/etc/reclaw/config.toml".to_owned(),
    };

    let result = resolve_targets(InitScope::User, &paths);
    assert!(result.is_err());
}

#[test]
fn resolve_targets_both_scope_orders_system_then_user() {
    let paths = InitPaths {
        user_config_toml: Some("/tmp/t/user/config.toml".to_owned()),
        system_config_toml: "/tmp/t/etc/config.toml".to_owned(),
    };

    let targets = resolve_targets(InitScope::Both, &paths).expect("targets should resolve");
    assert_eq!(targets.len(), 2);
    assert_eq!(targets[0].scope, TargetScope::System);
    assert_eq!(targets[1].scope, TargetScope::User);
}

fn target(scope: TargetScope, path: &str) -> ConfigTarget {
    ConfigTarget { scope, path: path.to_owned() }
}

#[test]
fn ensure_config_file_creates_missing_user_template() {
    let user = target(TargetScope::User, "/home/a/.reclaw/config.toml");
    let step = ensure_config_file(&user, false, false, false);
    let contents = base_config_template(&user);
    assert!(matches!(step, ConfigStep::Write(WriteOutcome::Created, _)));
    assert!(contents.contains("dbPath"));
    assert!(contents.contains(".reclaw/reclaw.db"));
}

#[test]
fn ensure_config_file_skips_existing_without_force() {
    let user = target(TargetScope::User, "/home/a/config.toml");
    assert!(matches!(ensure_config_file(&user, true, false, false), ConfigStep::Skip(_)));
    assert!(matches!(ensure_config_file(&user, true, false, true), ConfigStep::Skip(_)));
    assert!(
        matches!(ensure_config_file(&user, false, false, true), ConfigStep::Ask(ref question)
            if question == "Create user config at /home/a/config.toml? [Y/n]: ")
    );
}

#[test]
fn ensure_config_file_overwrites_when_force_is_enabled() {
    let system = target(TargetScope::System, "/etc/reclaw/config.toml");
    let step = ensure_config_file(&system, true, true, false);
    assert!(matches!(step, ConfigStep::Write(WriteOutcome::Overwritten, _)));
    assert!(base_config_template(&system).contains("/var/lib/reclaw/reclaw.db"));
}

#[test]
fn answers_decide() {
    let user = target(TargetScope::User, "/home/a/config.toml");
    assert!(matches!(
        after_answer(&user, true),
        ConfigStep::Write(WriteOutcome::Created, _)
    ));
    assert!(matches!(after_answer(&user, false), ConfigStep::Skip(_)));
    assert_eq!(prompt_yes_no(" YES ", false), Some(true));
    assert_eq!(prompt_yes_no("n", true), Some(false));
    assert_eq!(prompt_yes_no("", true), Some(true));
    assert_eq!(prompt_yes_no("perhaps", true), None);
    assert_eq!(
        summary(&vec![WriteOutcome::Created, WriteOutcome::Skipped, WriteOutcome::Created]),
        "init-config complete (created=2, overwritten=0, skipped=1)"
    );
}
