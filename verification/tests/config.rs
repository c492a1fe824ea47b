use reclaw_core::application::config::{
    config_format, default_db_path, default_static_config_paths_for, merge_static_configs,
    normalize_hooks_path, resolve_auth_mode, static_config_paths, system_config_toml_path,
    user_config_toml_path_for, Args, AuthMode, Command, ConfigFormat, InitConfigArgs, InitScope,
    RuntimeConfig, StaticConfigValues,
};

fn empty_args() -> Args {
    Args {
        command: None,
        config: None,
        host: None,
        port: None,
        gateway_token: None,
        gateway_password: None,
        channels_inbound_token: None,
        telegram_webhook_secret: None,
        telegram_bot_token: None,
        telegram_api_base_url: None,
        discord_webhook_token: None,
        discord_outbound_url: None,
        discord_outbound_token: None,
        slack_webhook_token: None,
        slack_outbound_url: None,
        slack_outbound_token: None,
        signal_webhook_token: None,
        signal_outbound_url: None,
        signal_outbound_token: None,
        whatsapp_webhook_token: None,
        whatsapp_outbound_url: None,
        whatsapp_outbound_token: None,
        openai_chat_completions_enabled: None,
        openresponses_enabled: None,
        hooks_enabled: None,
        hooks_token: None,
        hooks_path: None,
        hooks_max_body_bytes: None,
        hooks_allow_request_session_key: None,
        hooks_default_session_key: None,
        hooks_default_agent_id: None,
        max_payload_bytes: None,
        max_buffered_bytes: None,
        handshake_timeout_ms: None,
        tick_interval_ms: None,
        cron_enabled: None,
        cron_poll_ms: None,
        cron_runs_limit: None,
        db_path: None,
        auth_max_attempts: None,
        auth_window_ms: None,
        runtime_version: None,
        log_filter: None,
        json_logs: None,
    }
}

fn no_values() -> StaticConfigValues {
    StaticConfigValues {
        host: None,
        port: None,
        gateway_token: None,
        gateway_password: None,
        channels_inbound_token: None,
        telegram_webhook_secret: None,
        telegram_bot_token: None,
        telegram_api_base_url: None,
        discord_webhook_token: None,
        discord_outbound_url: None,
        discord_outbound_token: None,
        slack_webhook_token: None,
        slack_outbound_url: None,
        slack_outbound_token: None,
        signal_webhook_token: None,
        signal_outbound_url: None,
        signal_outbound_token: None,
        whatsapp_webhook_token: None,
        whatsapp_outbound_url: None,
        whatsapp_outbound_token: None,
        hooks_enabled: None,
        hooks_token: None,
        hooks_path: None,
        hooks_max_body_bytes: None,
        hooks_allow_request_session_key: None,
        hooks_default_session_key: None,
        hooks_default_agent_id: None,
        openai_chat_completions_enabled: None,
        openresponses_enabled: None,
        max_payload_bytes: None,
        max_buffered_bytes: None,
        handshake_timeout_ms: None,
        tick_interval_ms: None,
        cron_enabled: None,
        cron_poll_ms: None,
        cron_runs_limit: None,
        db_path: None,
        auth_max_attempts: None,
        auth_window_ms: None,
        runtime_version: None,
        log_filter: None,
        json_logs: None,
    }
}

fn built(args: Args, files: StaticConfigValues) -> RuntimeConfig {
    match RuntimeConfig::from_args(args, files, Some("/home/tester")) {
        Ok(config) => config,
        Err(message) => panic!("{}", message),
    }
}

#[test]
fn auth_mode_rejects_dual_secrets() {
    let result = resolve_auth_mode(Some("a".to_owned()), Some("b".to_owned()));
    assert!(result.is_err());
}

#[test]
fn auth_mode_trims_input() {
    let mode = resolve_auth_mode(Some(" token ".to_owned()), None).expect("auth mode expected");
    assert!(matches!(mode, AuthMode::Token(ref secret) if secret == "token"));
}

#[test]
fn blank_secrets_switch_authorization_off() {
    let mode = resolve_auth_mode(Some("  ".to_owned()), None).expect("auth mode expected");
    assert!(matches!(mode, AuthMode::NoAuth));
    assert_eq!(mode.label(), "none");
    let mode = resolve_auth_mode(None, Some("p".to_owned())).expect("auth mode expected");
    assert!(matches!(mode, AuthMode::Password(ref secret) if secret == "p"));
}

#[test]
fn default_paths_include_system_and_user_locations() {
    let paths = default_static_config_paths_for(Some("/home/tester"));
    assert_eq!(paths[0], "/etc/reclaw/config.toml");
    assert_eq!(paths[1], "/etc/reclaw/config.json");
    assert_eq!(paths[2], "/home/tester/.reclaw/config.toml");
    assert_eq!(paths[3], "/home/tester/.reclaw/config.json");
}

#[test]
fn without_a_home_only_the_system_files_count() {
    let paths = default_static_config_paths_for(None);
    assert_eq!(paths, vec!["/etc/reclaw/config.toml", "/etc/reclaw/config.json"]);
    assert_eq!(user_config_toml_path_for(None), None);
}

#[test]
fn static_config_merges_in_order() {
    let mut system = no_values();
    system.port = Some(19000);
    system.max_payload_bytes = Some(100);
    let mut user = no_values();
    user.port = Some(20000);

    let merged = merge_static_configs(vec![system, user]);

    assert_eq!(merged.port, Some(20000));
    assert_eq!(merged.max_payload_bytes, Some(100));
}

#[test]
fn runtime_config_uses_static_file_when_args_absent() {
    let mut files = no_values();
    files.host = Some("0.0.0.0".to_owned());
    files.port = Some(19191);
    files.cron_enabled = Some(false);

    let runtime = built(empty_args(), files);
    assert_eq!(runtime.host, "0.0.0.0");
    assert_eq!(runtime.port, 19191);
    assert!(!runtime.cron_enabled);
}

#[test]
fn runtime_config_cli_overrides_static_file() {
    let mut files = no_values();
    files.port = Some(19000);
    let mut args = empty_args();
    args.port = Some(20000);

    assert_eq!(built(args, files).port, 20000);
}

#[test]
fn runtime_config_supports_http_compat_endpoint_toggles() {
    let mut files = no_values();
    files.openai_chat_completions_enabled = Some(true);
    files.openresponses_enabled = Some(true);
    let mut args = empty_args();
    args.openresponses_enabled = Some(false);

    let runtime = built(args, files);
    assert!(runtime.openai_chat_completions_enabled);
    assert!(!runtime.openresponses_enabled);
}

#[test]
fn runtime_config_supports_channel_webhook_tokens() {
    let mut files = no_values();
    files.discord_webhook_token = Some("discord-a".to_owned());
    files.discord_outbound_url = Some("https://relay.example/discord".to_owned());
    files.slack_webhook_token = Some("slack-a".to_owned());
    files.slack_outbound_url = Some("https://relay.example/slack".to_owned());
    files.signal_webhook_token = Some("signal-a".to_owned());
    files.signal_outbound_url = Some("https://relay.example/signal".to_owned());
    files.whatsapp_webhook_token = Some("wa-a".to_owned());
    files.whatsapp_outbound_url = Some("https://relay.example/whatsapp".to_owned());
    let mut args = empty_args();
    args.slack_webhook_token = Some("slack-cli".to_owned());
    args.signal_outbound_token = Some("signal-cli-token".to_owned());

    let runtime = built(args, files);
    assert_eq!(runtime.discord_webhook_token.as_deref(), Some("discord-a"));
    assert_eq!(
        runtime.discord_outbound_url.as_deref(),
        Some("https://relay.example/discord")
    );
    assert_eq!(runtime.slack_webhook_token.as_deref(), Some("slack-cli"));
    assert_eq!(
        runtime.slack_outbound_url.as_deref(),
        Some("https://relay.example/slack")
    );
    assert_eq!(runtime.signal_webhook_token.as_deref(), Some("signal-a"));
    assert_eq!(
        runtime.signal_outbound_url.as_deref(),
        Some("https://relay.example/signal")
    );
    assert_eq!(
        runtime.signal_outbound_token.as_deref(),
        Some("signal-cli-token")
    );
    assert_eq!(runtime.whatsapp_webhook_token.as_deref(), Some("wa-a"));
    assert_eq!(
        runtime.whatsapp_outbound_url.as_deref(),
        Some("https://relay.example/whatsapp")
    );
}

#[test]
fn runtime_config_requires_hooks_token_when_enabled() {
    let mut files = no_values();
    files.hooks_enabled = Some(true);
    assert!(RuntimeConfig::from_args(empty_args(), files, None).is_err());
}

#[test]
fn runtime_config_supports_hooks_settings() {
    let mut files = no_values();
    files.hooks_enabled = Some(true);
    files.hooks_token = Some("hooks-static".to_owned());
    files.hooks_path = Some("hooks-ingress".to_owned());
    files.hooks_max_body_bytes = Some(777);
    files.hooks_allow_request_session_key = Some(true);
    files.hooks_default_session_key = Some("hook:default".to_owned());
    files.hooks_default_agent_id = Some("default-agent".to_owned());
    let mut args = empty_args();
    args.hooks_token = Some("hooks-cli".to_owned());

    let runtime = built(args, files);
    assert!(runtime.hooks_enabled);
    assert_eq!(runtime.hooks_token.as_deref(), Some("hooks-cli"));
    assert_eq!(runtime.hooks_path, "/hooks-ingress");
    assert_eq!(runtime.hooks_max_body_bytes, 777);
    assert!(runtime.hooks_allow_request_session_key);
    assert_eq!(
        runtime.hooks_default_session_key.as_deref(),
        Some("hook:default")
    );
    assert_eq!(runtime.hooks_default_agent_id, "default-agent");
}

#[test]
fn runtime_config_has_defaults() {
    let runtime = built(empty_args(), no_values());
    assert_eq!(runtime.host, "127.0.0.1");
    assert_eq!(runtime.port, 18789);
    assert!(matches!(runtime.auth_mode, AuthMode::NoAuth));
    assert_eq!(runtime.hooks_path, "/hooks");
    assert!(!runtime.hooks_enabled);
    assert_eq!(runtime.max_buffered_bytes, 52_428_800);
    assert_eq!(runtime.cron_runs_limit, 500);
    assert_eq!(runtime.auth_max_attempts, 20);
    assert_eq!(runtime.db_path, "/home/tester/.reclaw/reclaw.db");
}

#[test]
fn command_mode_gives_no_configuration() {
    let mut args = empty_args();
    args.command = Some(Command::InitConfig(InitConfigArgs {
        scope: InitScope::User,
        non_interactive: true,
        force: false,
    }));
    assert_eq!(
        static_config_paths(&args, None).err().as_deref(),
        Some("command mode does not produce runtime configuration")
    );
}

#[test]
fn an_explicit_file_is_the_only_one() {
    let mut args = empty_args();
    args.config = Some("/tmp/own.json".to_owned());
    let paths = static_config_paths(&args, Some("/home/tester")).expect("paths expected");
    assert_eq!(paths, vec!["/tmp/own.json"]);
}

#[test]
fn formats_go_by_the_extension() {
    assert_eq!(config_format("a/b.toml"), Ok(ConfigFormat::Toml));
    assert_eq!(config_format("a/b.json"), Ok(ConfigFormat::Json));
    assert!(config_format("a/b.yaml").is_err());
    assert_eq!(config_format("a/b"), Ok(ConfigFormat::Toml));
}

#[test]
fn user_config_path_resolves_with_explicit_home() {
    let path = user_config_toml_path_for(Some("/home/reclaw")).expect("user config path should resolve");
    assert_eq!(path, "/home/reclaw/.reclaw/config.toml");
}

#[test]
fn system_config_path_is_stable() {
    assert_eq!(system_config_toml_path(), "/etc/reclaw/config.toml");
}

#[test]
fn the_database_stands_in_the_home() {
    assert_eq!(default_db_path(Some("/home/a")), "/home/a/.reclaw/reclaw.db");
}

#[test]
fn hooks_paths_are_rooted() {
    assert_eq!(normalize_hooks_path(" hooks-in/ ").expect("path"), "/hooks-in");
    assert_eq!(normalize_hooks_path("").expect("path"), "/hooks");
    assert!(normalize_hooks_path("/").is_err());
    let once = normalize_hooks_path("a/b//").expect("path");
    assert_eq!(normalize_hooks_path(&once).expect("path"), once);
}
