//! The configuration of the gateway: what the command line, the files and the defaults give.
use crate::sorted_map::SortedMap;
use crate::text::{cat4, equals, first_of, is_white_space, kept_opt, lemma_kept, not_blank, lemma_trim_both_fixed, lemma_trim_right_shape, lowered, opt_text, same, text_or, texts, to_chars, to_lower, trim, trim_non_empty_opt, trim_right, trim_trailing, trimmed};
use crate::paths::{extension, extension_of, join_path, joined_path};
use vstd::prelude::*;

verus! {

broadcast use vstd::seq::group_seq_axioms;

pub const DEFAULT_HOST: &'static str = "127.0.0.1";

pub const DEFAULT_PORT: u16 = 18_789;

pub const DEFAULT_MAX_PAYLOAD_BYTES: usize = 26_214_400;

pub const DEFAULT_MAX_BUFFERED_BYTES: usize = 52_428_800;

pub const DEFAULT_HANDSHAKE_TIMEOUT_MS: u64 = 10_000;

pub const DEFAULT_TICK_INTERVAL_MS: u64 = 30_000;

pub const DEFAULT_CRON_ENABLED: bool = true;

pub const DEFAULT_CRON_POLL_MS: u64 = 1_000;

pub const DEFAULT_CRON_RUNS_LIMIT: usize = 500;

pub const DEFAULT_AUTH_MAX_ATTEMPTS: u32 = 20;

pub const DEFAULT_AUTH_WINDOW_MS: u64 = 60_000;

pub const DEFAULT_LOG_FILTER: &'static str = "info";

pub const DEFAULT_JSON_LOGS: bool = false;

pub const DEFAULT_HOOKS_PATH: &'static str = "/hooks";

pub const DEFAULT_HOOKS_MAX_BODY_BYTES: usize = 262_144;

/// The version that the gateway reports of itself.
pub const RUNTIME_VERSION: &'static str = "0.1.0";

/// What the command line and the environment say.
pub struct Args {
    pub command: Option<Command>,
    pub config: Option<String>,
    pub host: Option<String>,
    pub port: Option<u16>,
    pub gateway_token: Option<String>,
    pub gateway_password: Option<String>,
    pub channels_inbound_token: Option<String>,
    pub telegram_webhook_secret: Option<String>,
    pub telegram_bot_token: Option<String>,
    pub telegram_api_base_url: Option<String>,
    pub discord_webhook_token: Option<String>,
    pub discord_outbound_url: Option<String>,
    pub discord_outbound_token: Option<String>,
    pub slack_webhook_token: Option<String>,
    pub slack_outbound_url: Option<String>,
    pub slack_outbound_token: Option<String>,
    pub signal_webhook_token: Option<String>,
    pub signal_outbound_url: Option<String>,
    pub signal_outbound_token: Option<String>,
    pub whatsapp_webhook_token: Option<String>,
    pub whatsapp_outbound_url: Option<String>,
    pub whatsapp_outbound_token: Option<String>,
    pub openai_chat_completions_enabled: Option<bool>,
    pub openresponses_enabled: Option<bool>,
    pub hooks_enabled: Option<bool>,
    pub hooks_token: Option<String>,
    pub hooks_path: Option<String>,
    pub hooks_max_body_bytes: Option<usize>,
    pub hooks_allow_request_session_key: Option<bool>,
    pub hooks_default_session_key: Option<String>,
    pub hooks_default_agent_id: Option<String>,
    pub max_payload_bytes: Option<usize>,
    pub max_buffered_bytes: Option<usize>,
    pub handshake_timeout_ms: Option<u64>,
    pub tick_interval_ms: Option<u64>,
    pub cron_enabled: Option<bool>,
    pub cron_poll_ms: Option<u64>,
    pub cron_runs_limit: Option<usize>,
    pub db_path: Option<String>,
    pub auth_max_attempts: Option<u32>,
    pub auth_window_ms: Option<u64>,
    pub runtime_version: Option<String>,
    pub log_filter: Option<String>,
    pub json_logs: Option<bool>,
}

/// A command in place of running the gateway.
#[derive(Debug, Clone, Copy, PartialEq, Eq, Structural)]
pub enum Command {
    /// Initialize static config directories and base config files.
    InitConfig(InitConfigArgs),
}

/// How to initialize config files.
#[derive(Debug, Clone, Copy, PartialEq, Eq, Structural)]
pub struct InitConfigArgs {
    /// Where to initialize config files.
    pub scope: InitScope,
    /// Run without prompts; create missing config files automatically.
    pub non_interactive: bool,
    /// Overwrite existing config files.
    pub force: bool,
}

/// Where to initialize config files.
#[derive(Debug, Clone, Copy, PartialEq, Eq, Structural)]
pub enum InitScope {
    User,
    System,
    Both,
}

/// How clients prove themselves.
#[derive(Debug)]
pub enum AuthMode {
    NoAuth,
    Token(String),
    Password(String),
}

impl AuthMode {
    /// The name of the mode.
    pub open spec fn name(&self) -> Seq<char> {
        match self {
            AuthMode::NoAuth => "none"@,
            AuthMode::Token(_) => "token"@,
            AuthMode::Password(_) => "password"@,
        }
    }

    /// The name of the mode.
    pub fn label(&self) -> (r: &'static str)
        ensures
            r@ == self.name(),
    {
        match self {
            AuthMode::NoAuth => "none",
            AuthMode::Token(_) => "token",
            AuthMode::Password(_) => "password",
        }
    }
}

/// A channel that another service delivers.
#[derive(Debug)]
pub struct ChannelWebhookPluginConfig {
    pub url: String,
    pub token: Option<String>,
    pub timeout_ms: Option<u64>,
}

/// What a hook does.
#[derive(Debug, Clone, Copy, PartialEq, Eq, Structural)]
pub enum HookMappingAction {
    Wake,
    Agent,
}

/// What a hook's request must look like.
#[derive(Debug)]
pub struct HookMappingMatchConfig {
    pub path: Option<String>,
    pub source: Option<String>,
}

/// The program that may change what a hook does.
#[derive(Debug)]
pub struct HookMappingTransformConfig {
    pub module: String,
    pub export: Option<String>,
}

/// A hook: the requests that it is for and what it does with them.
#[derive(Debug)]
pub struct HookMappingConfig {
    pub id: Option<String>,
    pub path: String,
    pub rule: Option<HookMappingMatchConfig>,
    pub action: HookMappingAction,
    pub match_source: Option<String>,
    pub wake_mode: Option<String>,
    pub text: Option<String>,
    pub text_template: Option<String>,
    pub message: Option<String>,
    pub message_template: Option<String>,
    pub name: Option<String>,
    pub agent_id: Option<String>,
    pub session_key: Option<String>,
    pub transform: Option<HookMappingTransformConfig>,
}

/// The configuration that the gateway runs with.
pub struct RuntimeConfig {
    pub host: String,
    pub port: u16,
    pub auth_mode: AuthMode,
    pub channels_inbound_token: Option<String>,
    pub telegram_webhook_secret: Option<String>,
    pub telegram_bot_token: Option<String>,
    pub telegram_api_base_url: String,
    pub discord_webhook_token: Option<String>,
    pub discord_outbound_url: Option<String>,
    pub discord_outbound_token: Option<String>,
    pub slack_webhook_token: Option<String>,
    pub slack_outbound_url: Option<String>,
    pub slack_outbound_token: Option<String>,
    pub signal_webhook_token: Option<String>,
    pub signal_outbound_url: Option<String>,
    pub signal_outbound_token: Option<String>,
    pub whatsapp_webhook_token: Option<String>,
    pub whatsapp_outbound_url: Option<String>,
    pub whatsapp_outbound_token: Option<String>,
    pub hooks_enabled: bool,
    pub hooks_token: Option<String>,
    pub hooks_path: String,
    pub hooks_max_body_bytes: usize,
    pub hooks_allow_request_session_key: bool,
    pub hooks_default_session_key: Option<String>,
    pub hooks_default_agent_id: String,
    pub openai_chat_completions_enabled: bool,
    pub openresponses_enabled: bool,
    pub max_payload_bytes: usize,
    pub max_buffered_bytes: usize,
    pub handshake_timeout_ms: u64,
    pub tick_interval_ms: u64,
    pub cron_enabled: bool,
    pub cron_poll_interval_ms: u64,
    pub cron_runs_limit: usize,
    pub db_path: String,
    pub auth_max_attempts: u32,
    pub auth_window_ms: u64,
    pub runtime_version: String,
    pub log_filter: String,
    pub json_logs: bool,
    pub channel_webhook_plugins: SortedMap<ChannelWebhookPluginConfig>,
    pub hooks_mappings: Vec<HookMappingConfig>,
    pub hooks_transforms_dir: String,
}

/// What a configuration file says.
pub struct StaticConfigValues {
    pub host: Option<String>,
    pub port: Option<u16>,
    pub gateway_token: Option<String>,
    pub gateway_password: Option<String>,
    pub channels_inbound_token: Option<String>,
    pub telegram_webhook_secret: Option<String>,
    pub telegram_bot_token: Option<String>,
    pub telegram_api_base_url: Option<String>,
    pub discord_webhook_token: Option<String>,
    pub discord_outbound_url: Option<String>,
    pub discord_outbound_token: Option<String>,
    pub slack_webhook_token: Option<String>,
    pub slack_outbound_url: Option<String>,
    pub slack_outbound_token: Option<String>,
    pub signal_webhook_token: Option<String>,
    pub signal_outbound_url: Option<String>,
    pub signal_outbound_token: Option<String>,
    pub whatsapp_webhook_token: Option<String>,
    pub whatsapp_outbound_url: Option<String>,
    pub whatsapp_outbound_token: Option<String>,
    pub hooks_enabled: Option<bool>,
    pub hooks_token: Option<String>,
    pub hooks_path: Option<String>,
    pub hooks_max_body_bytes: Option<usize>,
    pub hooks_allow_request_session_key: Option<bool>,
    pub hooks_default_session_key: Option<String>,
    pub hooks_default_agent_id: Option<String>,
    pub openai_chat_completions_enabled: Option<bool>,
    pub openresponses_enabled: Option<bool>,
    pub max_payload_bytes: Option<usize>,
    pub max_buffered_bytes: Option<usize>,
    pub handshake_timeout_ms: Option<u64>,
    pub tick_interval_ms: Option<u64>,
    pub cron_enabled: Option<bool>,
    pub cron_poll_ms: Option<u64>,
    pub cron_runs_limit: Option<usize>,
    pub db_path: Option<String>,
    pub auth_max_attempts: Option<u32>,
    pub auth_window_ms: Option<u64>,
    pub runtime_version: Option<String>,
    pub log_filter: Option<String>,
    pub json_logs: Option<bool>,
}

// ---------------------------------------------------------------------------------------------
// Models
// ---------------------------------------------------------------------------------------------
/// The first of two optional values that is there.
pub open spec fn either<T>(a: Option<T>, b: Option<T>) -> Option<T> {
    if a is Some {
        a
    } else {
        b
    }
}

/// The first value that is there: the command line's, the files', or the default.
pub open spec fn pick<T>(a: Option<T>, b: Option<T>, default: T) -> T {
    match either(a, b) {
        Some(v) => v,
        None => default,
    }
}

/// The trimmed text of the command line or the files.
pub open spec fn pick_text(a: Option<String>, b: Option<String>) -> Option<Seq<char>> {
    kept_opt(opt_text(either(a, b)))
}

/// The path under which hooks are served: trimmed, with a leading slash and no trailing one.
/// Nothing where only the root is left.
pub open spec fn hooks_path_of(input: Seq<char>) -> Option<Seq<char>> {
    let t = trimmed(input);
    let rooted = if t.len() > 0 && t[0] != '/' {
        seq!['/'] + t
    } else {
        t
    };
    if t.len() == 0 {
        Some(DEFAULT_HOOKS_PATH@)
    } else {
        let path = trim_right(rooted, equals('/'));
        if path.len() == 0 {
            None
        } else {
            Some(path)
        }
    }
}

/// How clients prove themselves where a token, a password, neither or both are set.
pub open spec fn auth_mode_is(
    r: Result<AuthMode, String>,
    token: Option<Seq<char>>,
    password: Option<Seq<char>>,
) -> bool {
    match (token, password) {
        (Some(_), Some(_)) => r is Err && r->Err_0@
            == "set either RECLAW_GATEWAY_TOKEN or RECLAW_GATEWAY_PASSWORD, not both"@,
        (Some(t), None) => r matches Ok(AuthMode::Token(s)) && s@ == t,
        (None, Some(p)) => r matches Ok(AuthMode::Password(s)) && s@ == p,
        (None, None) => r matches Ok(AuthMode::NoAuth),
    }
}

/// The file of the database where no other is set.
pub open spec fn default_db(home: Option<Seq<char>>) -> Seq<char> {
    match home {
        Some(h) => joined_path(h, ".reclaw/reclaw.db"@),
        None => "./.reclaw-core/reclaw.db"@,
    }
}

/// Why the settings make no configuration.
pub open spec fn config_refusal(args: Args, files: StaticConfigValues) -> Option<Seq<char>> {
    if args.command is Some {
        Some("command mode does not produce runtime configuration"@)
    } else if hooks_path_of(
        text_or(opt_text(either(args.hooks_path, files.hooks_path)), DEFAULT_HOOKS_PATH@),
    ) is None {
        Some("hooks.path may not be '/'"@)
    } else if pick(args.hooks_enabled, files.hooks_enabled, false) && pick_text(
        args.hooks_token,
        files.hooks_token,
    ) is None {
        Some("hooks.enabled requires hooks.token"@)
    } else if pick_text(args.gateway_token, files.gateway_token) is Some && pick_text(
        args.gateway_password,
        files.gateway_password,
    ) is Some {
        Some("set either RECLAW_GATEWAY_TOKEN or RECLAW_GATEWAY_PASSWORD, not both"@)
    } else if pick(args.port, files.port, DEFAULT_PORT) == 0 {
        Some("port must be greater than 0"@)
    } else if pick(args.max_payload_bytes, files.max_payload_bytes, DEFAULT_MAX_PAYLOAD_BYTES) == 0 {
        Some("max_payload_bytes must be greater than 0"@)
    } else if pick(args.max_buffered_bytes, files.max_buffered_bytes, DEFAULT_MAX_BUFFERED_BYTES)
        == 0 {
        Some("max_buffered_bytes must be greater than 0"@)
    } else if pick(
        args.hooks_max_body_bytes,
        files.hooks_max_body_bytes,
        DEFAULT_HOOKS_MAX_BODY_BYTES,
    ) == 0 {
        Some("hooks_max_body_bytes must be greater than 0"@)
    } else if pick(args.auth_max_attempts, files.auth_max_attempts, DEFAULT_AUTH_MAX_ATTEMPTS) == 0 {
        Some("auth_max_attempts must be greater than 0"@)
    } else if pick(args.cron_runs_limit, files.cron_runs_limit, DEFAULT_CRON_RUNS_LIMIT) == 0 {
        Some("cron_runs_limit must be greater than 0"@)
    } else {
        None
    }
}

/// The configuration that the settings make.
pub open spec fn configured(
    c: RuntimeConfig,
    args: Args,
    files: StaticConfigValues,
    home: Option<Seq<char>>,
) -> bool {
    &&& c.host@ == text_or(opt_text(either(args.host, files.host)), DEFAULT_HOST@)
    &&& c.port == pick(args.port, files.port, DEFAULT_PORT)
    &&& auth_mode_is(Ok(c.auth_mode), pick_text(args.gateway_token, files.gateway_token), pick_text(args.gateway_password, files.gateway_password))
    &&& opt_text(c.channels_inbound_token) == pick_text(args.channels_inbound_token, files.channels_inbound_token)
    &&& opt_text(c.telegram_webhook_secret) == pick_text(args.telegram_webhook_secret, files.telegram_webhook_secret)
    &&& opt_text(c.telegram_bot_token) == pick_text(args.telegram_bot_token, files.telegram_bot_token)
    &&& c.telegram_api_base_url@ == text_or(pick_text(args.telegram_api_base_url, files.telegram_api_base_url), "https://api.telegram.org"@)
    &&& opt_text(c.discord_webhook_token) == pick_text(args.discord_webhook_token, files.discord_webhook_token)
    &&& opt_text(c.discord_outbound_url) == pick_text(args.discord_outbound_url, files.discord_outbound_url)
    &&& opt_text(c.discord_outbound_token) == pick_text(args.discord_outbound_token, files.discord_outbound_token)
    &&& opt_text(c.slack_webhook_token) == pick_text(args.slack_webhook_token, files.slack_webhook_token)
    &&& opt_text(c.slack_outbound_url) == pick_text(args.slack_outbound_url, files.slack_outbound_url)
    &&& opt_text(c.slack_outbound_token) == pick_text(args.slack_outbound_token, files.slack_outbound_token)
    &&& opt_text(c.signal_webhook_token) == pick_text(args.signal_webhook_token, files.signal_webhook_token)
    &&& opt_text(c.signal_outbound_url) == pick_text(args.signal_outbound_url, files.signal_outbound_url)
    &&& opt_text(c.signal_outbound_token) == pick_text(args.signal_outbound_token, files.signal_outbound_token)
    &&& opt_text(c.whatsapp_webhook_token) == pick_text(args.whatsapp_webhook_token, files.whatsapp_webhook_token)
    &&& opt_text(c.whatsapp_outbound_url) == pick_text(args.whatsapp_outbound_url, files.whatsapp_outbound_url)
    &&& opt_text(c.whatsapp_outbound_token) == pick_text(args.whatsapp_outbound_token, files.whatsapp_outbound_token)
    &&& c.hooks_enabled == pick(args.hooks_enabled, files.hooks_enabled, false)
    &&& opt_text(c.hooks_token) == pick_text(args.hooks_token, files.hooks_token)
    &&& hooks_path_of(text_or(opt_text(either(args.hooks_path, files.hooks_path)), DEFAULT_HOOKS_PATH@)) == Some(c.hooks_path@)
    &&& c.hooks_max_body_bytes == pick(args.hooks_max_body_bytes, files.hooks_max_body_bytes, DEFAULT_HOOKS_MAX_BODY_BYTES)
    &&& c.hooks_allow_request_session_key == pick(args.hooks_allow_request_session_key, files.hooks_allow_request_session_key, false)
    &&& opt_text(c.hooks_default_session_key) == pick_text(args.hooks_default_session_key, files.hooks_default_session_key)
    &&& c.hooks_default_agent_id@ == text_or(pick_text(args.hooks_default_agent_id, files.hooks_default_agent_id), "main"@)
    &&& c.openai_chat_completions_enabled == pick(args.openai_chat_completions_enabled, files.openai_chat_completions_enabled, false)
    &&& c.openresponses_enabled == pick(args.openresponses_enabled, files.openresponses_enabled, false)
    &&& c.max_payload_bytes == pick(args.max_payload_bytes, files.max_payload_bytes, DEFAULT_MAX_PAYLOAD_BYTES)
    &&& c.max_buffered_bytes == pick(args.max_buffered_bytes, files.max_buffered_bytes, DEFAULT_MAX_BUFFERED_BYTES)
    &&& c.handshake_timeout_ms == pick(args.handshake_timeout_ms, files.handshake_timeout_ms, DEFAULT_HANDSHAKE_TIMEOUT_MS)
    &&& c.tick_interval_ms == pick(args.tick_interval_ms, files.tick_interval_ms, DEFAULT_TICK_INTERVAL_MS)
    &&& c.cron_enabled == pick(args.cron_enabled, files.cron_enabled, DEFAULT_CRON_ENABLED)
    &&& c.cron_poll_interval_ms == pick(args.cron_poll_ms, files.cron_poll_ms, DEFAULT_CRON_POLL_MS)
    &&& c.cron_runs_limit == pick(args.cron_runs_limit, files.cron_runs_limit, DEFAULT_CRON_RUNS_LIMIT)
    &&& c.db_path@ == text_or(opt_text(either(args.db_path, files.db_path)), default_db(home))
    &&& c.auth_max_attempts == pick(args.auth_max_attempts, files.auth_max_attempts, DEFAULT_AUTH_MAX_ATTEMPTS)
    &&& c.auth_window_ms == pick(args.auth_window_ms, files.auth_window_ms, DEFAULT_AUTH_WINDOW_MS)
    &&& c.runtime_version@ == text_or(pick_text(args.runtime_version, files.runtime_version), RUNTIME_VERSION@)
    &&& c.log_filter@ == text_or(pick_text(args.log_filter, files.log_filter), DEFAULT_LOG_FILTER@)
    &&& c.json_logs == pick(args.json_logs, files.json_logs, DEFAULT_JSON_LOGS)
    &&& c.channel_webhook_plugins@ == Map::<Seq<char>, ChannelWebhookPluginConfig>::empty()
    &&& c.hooks_mappings@.len() == 0
    &&& c.hooks_transforms_dir@ == ""@
}

/// No setting at all.
pub open spec fn unset() -> StaticConfigValues {
    StaticConfigValues {
        host: None,
        port: None,
        gateway_token: None,
        gateway_password: None,
        channels_inbound_token: None,
        telegram_webhook_secret: None,
        telegram_bot_token: None,
        telegram_api_base_url: None,
        discord_webhook_token: None,
        discord_outbound_url: None,
        discord_outbound_token: None,
        slack_webhook_token: None,
        slack_outbound_url: None,
        slack_outbound_token: None,
        signal_webhook_token: None,
        signal_outbound_url: None,
        signal_outbound_token: None,
        whatsapp_webhook_token: None,
        whatsapp_outbound_url: None,
        whatsapp_outbound_token: None,
        hooks_enabled: None,
        hooks_token: None,
        hooks_path: None,
        hooks_max_body_bytes: None,
        hooks_allow_request_session_key: None,
        hooks_default_session_key: None,
        hooks_default_agent_id: None,
        openai_chat_completions_enabled: None,
        openresponses_enabled: None,
        max_payload_bytes: None,
        max_buffered_bytes: None,
        handshake_timeout_ms: None,
        tick_interval_ms: None,
        cron_enabled: None,
        cron_poll_ms: None,
        cron_runs_limit: None,
        db_path: None,
        auth_max_attempts: None,
        auth_window_ms: None,
        runtime_version: None,
        log_filter: None,
        json_logs: None,
    }
}

/// The settings of a later file over those of an earlier one.
pub open spec fn over(later: StaticConfigValues, earlier: StaticConfigValues) -> StaticConfigValues {
    StaticConfigValues {
        host: either(later.host, earlier.host),
        port: either(later.port, earlier.port),
        gateway_token: either(later.gateway_token, earlier.gateway_token),
        gateway_password: either(later.gateway_password, earlier.gateway_password),
        channels_inbound_token: either(later.channels_inbound_token, earlier.channels_inbound_token),
        telegram_webhook_secret: either(later.telegram_webhook_secret, earlier.telegram_webhook_secret),
        telegram_bot_token: either(later.telegram_bot_token, earlier.telegram_bot_token),
        telegram_api_base_url: either(later.telegram_api_base_url, earlier.telegram_api_base_url),
        discord_webhook_token: either(later.discord_webhook_token, earlier.discord_webhook_token),
        discord_outbound_url: either(later.discord_outbound_url, earlier.discord_outbound_url),
        discord_outbound_token: either(later.discord_outbound_token, earlier.discord_outbound_token),
        slack_webhook_token: either(later.slack_webhook_token, earlier.slack_webhook_token),
        slack_outbound_url: either(later.slack_outbound_url, earlier.slack_outbound_url),
        slack_outbound_token: either(later.slack_outbound_token, earlier.slack_outbound_token),
        signal_webhook_token: either(later.signal_webhook_token, earlier.signal_webhook_token),
        signal_outbound_url: either(later.signal_outbound_url, earlier.signal_outbound_url),
        signal_outbound_token: either(later.signal_outbound_token, earlier.signal_outbound_token),
        whatsapp_webhook_token: either(later.whatsapp_webhook_token, earlier.whatsapp_webhook_token),
        whatsapp_outbound_url: either(later.whatsapp_outbound_url, earlier.whatsapp_outbound_url),
        whatsapp_outbound_token: either(later.whatsapp_outbound_token, earlier.whatsapp_outbound_token),
        hooks_enabled: either(later.hooks_enabled, earlier.hooks_enabled),
        hooks_token: either(later.hooks_token, earlier.hooks_token),
        hooks_path: either(later.hooks_path, earlier.hooks_path),
        hooks_max_body_bytes: either(later.hooks_max_body_bytes, earlier.hooks_max_body_bytes),
        hooks_allow_request_session_key: either(later.hooks_allow_request_session_key, earlier.hooks_allow_request_session_key),
        hooks_default_session_key: either(later.hooks_default_session_key, earlier.hooks_default_session_key),
        hooks_default_agent_id: either(later.hooks_default_agent_id, earlier.hooks_default_agent_id),
        openai_chat_completions_enabled: either(later.openai_chat_completions_enabled, earlier.openai_chat_completions_enabled),
        openresponses_enabled: either(later.openresponses_enabled, earlier.openresponses_enabled),
        max_payload_bytes: either(later.max_payload_bytes, earlier.max_payload_bytes),
        max_buffered_bytes: either(later.max_buffered_bytes, earlier.max_buffered_bytes),
        handshake_timeout_ms: either(later.handshake_timeout_ms, earlier.handshake_timeout_ms),
        tick_interval_ms: either(later.tick_interval_ms, earlier.tick_interval_ms),
        cron_enabled: either(later.cron_enabled, earlier.cron_enabled),
        cron_poll_ms: either(later.cron_poll_ms, earlier.cron_poll_ms),
        cron_runs_limit: either(later.cron_runs_limit, earlier.cron_runs_limit),
        db_path: either(later.db_path, earlier.db_path),
        auth_max_attempts: either(later.auth_max_attempts, earlier.auth_max_attempts),
        auth_window_ms: either(later.auth_window_ms, earlier.auth_window_ms),
        runtime_version: either(later.runtime_version, earlier.runtime_version),
        log_filter: either(later.log_filter, earlier.log_filter),
        json_logs: either(later.json_logs, earlier.json_logs),
    }
}

/// The settings of files taken in their order.
pub open spec fn settings(files: Seq<StaticConfigValues>) -> StaticConfigValues
    decreases files.len(),
{
    if files.len() == 0 {
        unset()
    } else {
        over(files.last(), settings(files.drop_last()))
    }
}

// ---------------------------------------------------------------------------------------------
// Settings
// ---------------------------------------------------------------------------------------------
impl Default for StaticConfigValues {
    /// No setting at all.
    fn default() -> (r: Self)
        ensures
            r == unset(),
    {
        StaticConfigValues {
            host: None,
            port: None,
            gateway_token: None,
            gateway_password: None,
            channels_inbound_token: None,
            telegram_webhook_secret: None,
            telegram_bot_token: None,
            telegram_api_base_url: None,
            discord_webhook_token: None,
            discord_outbound_url: None,
            discord_outbound_token: None,
            slack_webhook_token: None,
            slack_outbound_url: None,
            slack_outbound_token: None,
            signal_webhook_token: None,
            signal_outbound_url: None,
            signal_outbound_token: None,
            whatsapp_webhook_token: None,
            whatsapp_outbound_url: None,
            whatsapp_outbound_token: None,
            hooks_enabled: None,
            hooks_token: None,
            hooks_path: None,
            hooks_max_body_bytes: None,
            hooks_allow_request_session_key: None,
            hooks_default_session_key: None,
            hooks_default_agent_id: None,
            openai_chat_completions_enabled: None,
            openresponses_enabled: None,
            max_payload_bytes: None,
            max_buffered_bytes: None,
            handshake_timeout_ms: None,
            tick_interval_ms: None,
            cron_enabled: None,
            cron_poll_ms: None,
            cron_runs_limit: None,
            db_path: None,
            auth_max_attempts: None,
            auth_window_ms: None,
            runtime_version: None,
            log_filter: None,
            json_logs: None,
        }
    }
}

impl StaticConfigValues {
    /// Puts the settings of a later file over these.
    pub fn merge_from(&mut self, other: Self)
        ensures
            *final(self) == over(other, *old(self)),
    {
        override_option(&mut self.host, other.host);
        override_option(&mut self.port, other.port);
        override_option(&mut self.gateway_token, other.gateway_token);
        override_option(&mut self.gateway_password, other.gateway_password);
        override_option(&mut self.channels_inbound_token, other.channels_inbound_token);
        override_option(&mut self.telegram_webhook_secret, other.telegram_webhook_secret);
        override_option(&mut self.telegram_bot_token, other.telegram_bot_token);
        override_option(&mut self.telegram_api_base_url, other.telegram_api_base_url);
        override_option(&mut self.discord_webhook_token, other.discord_webhook_token);
        override_option(&mut self.discord_outbound_url, other.discord_outbound_url);
        override_option(&mut self.discord_outbound_token, other.discord_outbound_token);
        override_option(&mut self.slack_webhook_token, other.slack_webhook_token);
        override_option(&mut self.slack_outbound_url, other.slack_outbound_url);
        override_option(&mut self.slack_outbound_token, other.slack_outbound_token);
        override_option(&mut self.signal_webhook_token, other.signal_webhook_token);
        override_option(&mut self.signal_outbound_url, other.signal_outbound_url);
        override_option(&mut self.signal_outbound_token, other.signal_outbound_token);
        override_option(&mut self.whatsapp_webhook_token, other.whatsapp_webhook_token);
        override_option(&mut self.whatsapp_outbound_url, other.whatsapp_outbound_url);
        override_option(&mut self.whatsapp_outbound_token, other.whatsapp_outbound_token);
        override_option(&mut self.hooks_enabled, other.hooks_enabled);
        override_option(&mut self.hooks_token, other.hooks_token);
        override_option(&mut self.hooks_path, other.hooks_path);
        override_option(&mut self.hooks_max_body_bytes, other.hooks_max_body_bytes);
        override_option(&mut self.hooks_allow_request_session_key, other.hooks_allow_request_session_key);
        override_option(&mut self.hooks_default_session_key, other.hooks_default_session_key);
        override_option(&mut self.hooks_default_agent_id, other.hooks_default_agent_id);
        override_option(&mut self.openai_chat_completions_enabled, other.openai_chat_completions_enabled);
        override_option(&mut self.openresponses_enabled, other.openresponses_enabled);
        override_option(&mut self.max_payload_bytes, other.max_payload_bytes);
        override_option(&mut self.max_buffered_bytes, other.max_buffered_bytes);
        override_option(&mut self.handshake_timeout_ms, other.handshake_timeout_ms);
        override_option(&mut self.tick_interval_ms, other.tick_interval_ms);
        override_option(&mut self.cron_enabled, other.cron_enabled);
        override_option(&mut self.cron_poll_ms, other.cron_poll_ms);
        override_option(&mut self.cron_runs_limit, other.cron_runs_limit);
        override_option(&mut self.db_path, other.db_path);
        override_option(&mut self.auth_max_attempts, other.auth_max_attempts);
        override_option(&mut self.auth_window_ms, other.auth_window_ms);
        override_option(&mut self.runtime_version, other.runtime_version);
        override_option(&mut self.log_filter, other.log_filter);
        override_option(&mut self.json_logs, other.json_logs);
    }
}

/// Puts a value in place of another, where there is one to put.
pub fn override_option<T>(slot: &mut Option<T>, value: Option<T>)
    ensures
        *final(slot) == either(value, *old(slot)),
{
    if value.is_some() {
        *slot = value;
    }
}

/// The first of two optional values that is there.
pub(crate) fn either_of<T>(a: Option<T>, b: Option<T>) -> (r: Option<T>)
    ensures
        r == either(a, b),
{
    match a {
        Some(v) => Some(v),
        None => b,
    }
}

/// The settings of the files that are there, taken in their order.
pub fn merge_static_configs(files: Vec<StaticConfigValues>) -> (r: StaticConfigValues)
    ensures
        r == settings(files@),
{
    let mut rest = files;
    let ghost all = files@;
    let mut merged = StaticConfigValues::default();
    let ghost mut done: int = 0;
    while rest.len() > 0
        invariant
            0 <= done <= all.len(),
            rest@ == all.skip(done),
            merged == settings(all.take(done)),
        decreases rest@.len(),
    {
        let next = rest.remove(0);
        merged.merge_from(next);
        proof {
            assert(all.take(done + 1).drop_last() =~= all.take(done));
            assert(all.take(done + 1).last() == next);
            done = done + 1;
        }
    }
    assert(all.take(done) =~= all);
    merged
}

/// The files in which settings are looked for, in their order: those of the system, then those of
/// the user.
pub open spec fn config_files(home: Option<Seq<char>>) -> Seq<Seq<char>> {
    let system = seq!["/etc/reclaw/config.toml"@, "/etc/reclaw/config.json"@];
    match home {
        Some(h) => system + seq![
            joined_path(h, ".reclaw/config.toml"@),
            joined_path(h, ".reclaw/config.json"@),
        ],
        None => system,
    }
}

/// The files in which settings are looked for, in their order.
pub fn default_static_config_paths_for(home: Option<&str>) -> (r: Vec<String>)
    ensures
        texts(r@) == config_files(
            match home {
                Some(h) => Some(h@),
                None => None,
            },
        ),
{
    let mut paths: Vec<String> = Vec::new();
    paths.push("/etc/reclaw/config.toml".to_owned());
    paths.push("/etc/reclaw/config.json".to_owned());
    if let Some(home) = home {
        paths.push(join_path(home, ".reclaw/config.toml"));
        paths.push(join_path(home, ".reclaw/config.json"));
        assert(texts(paths@) =~= config_files(Some(home@)));
    }
    assert(home is None ==> texts(paths@) =~= config_files(None));
    paths
}

/// The files to read for these arguments: the one that they name, or the usual ones. A command
/// reads none.
pub fn static_config_paths(args: &Args, home: Option<&str>) -> (r: Result<Vec<String>, String>)
    ensures
        if args.command is Some {
            r is Err && r->Err_0@ == "command mode does not produce runtime configuration"@
        } else {
            r is Ok && texts(r->Ok_0@) == match args.config {
                Some(path) => seq![path@],
                None => config_files(
                    match home {
                        Some(h) => Some(h@),
                        None => None,
                    },
                ),
            }
        },
{
    if args.command.is_some() {
        return Err("command mode does not produce runtime configuration".to_owned());
    }
    match &args.config {
        Some(path) => {
            let mut paths: Vec<String> = Vec::new();
            paths.push(path.clone());
            assert(texts(paths@) =~= seq![path@]);
            Ok(paths)
        },
        None => Ok(default_static_config_paths_for(home)),
    }
}

/// The language of a configuration file.
#[derive(Debug, Clone, Copy, PartialEq, Eq, Structural)]
pub enum ConfigFormat {
    Json,
    Toml,
}

/// The language of a file, by the ending of its name.
pub open spec fn format_of(path: Seq<char>) -> Result<ConfigFormat, Seq<char>> {
    match extension_of(path) {
        None => Ok(ConfigFormat::Toml),
        Some(e) => if lowered(e) == "json"@ {
            Ok(ConfigFormat::Json)
        } else if lowered(e) == "toml"@ {
            Ok(ConfigFormat::Toml)
        } else {
            Err("unsupported config extension for "@ + path + ": ."@ + lowered(e))
        },
    }
}

/// The language of a configuration file, by the ending of its name.
pub fn config_format(path: &str) -> (r: Result<ConfigFormat, String>)
    ensures
        match format_of(path@) {
            Ok(format) => r == Ok::<ConfigFormat, String>(format),
            Err(message) => r is Err && r->Err_0@ == message,
        },
{
    match extension(path) {
        None => Ok(ConfigFormat::Toml),
        Some(e) => {
            let e = to_lower(e.as_str());
            if same(e.as_str(), "json") {
                Ok(ConfigFormat::Json)
            } else if same(e.as_str(), "toml") {
                Ok(ConfigFormat::Toml)
            } else {
                Err(cat4("unsupported config extension for ", path, ": .", e.as_str()))
            }
        },
    }
}

/// The user's configuration file.
pub fn user_config_toml_path_for(home: Option<&str>) -> (r: Option<String>)
    ensures
        opt_text(r) == match home {
            Some(h) => Some(joined_path(h@, ".reclaw/config.toml"@)),
            None => None,
        },
{
    match home {
        Some(home) => Some(join_path(home, ".reclaw/config.toml")),
        None => None,
    }
}

/// The system's configuration file.
pub fn system_config_toml_path() -> (r: String)
    ensures
        r@ == "/etc/reclaw/config.toml"@,
{
    "/etc/reclaw/config.toml".to_owned()
}

/// The file of the database where no other is set.
pub fn default_db_path(home: Option<&str>) -> (r: String)
    ensures
        r@ == default_db(
            match home {
                Some(h) => Some(h@),
                None => None,
            },
        ),
{
    match home {
        Some(home) => join_path(home, ".reclaw/reclaw.db"),
        None => "./.reclaw-core/reclaw.db".to_owned(),
    }
}

/// The trimmed text, unless nothing is left of it.
pub fn normalize_non_empty(input: Option<String>) -> (r: Option<String>)
    ensures
        opt_text(r) == kept_opt(opt_text(input)),
{
    trim_non_empty_opt(&input)
}

/// The path under which hooks are served.
pub fn normalize_hooks_path(input: &str) -> (r: Result<String, String>)
    ensures
        match hooks_path_of(input@) {
            Some(path) => r is Ok && r->Ok_0@ == path,
            None => r is Err && r->Err_0@ == "hooks.path may not be '/'"@,
        },
{
    let path = trim(input);
    let chars = to_chars(path.as_str());
    if chars.len() == 0 {
        return Ok(DEFAULT_HOOKS_PATH.to_owned());
    }
    let rooted = if chars[0] != '/' {
        let mut rooted = String::new();
        rooted.push('/');
        rooted.append(path.as_str());
        assert(rooted@ =~= seq!['/'] + path@);
        rooted
    } else {
        path
    };
    let path = trim_trailing(rooted.as_str(), '/');
    if path.as_str().is_empty() {
        return Err("hooks.path may not be '/'".to_owned());
    }
    Ok(path)
}

/// How clients prove themselves.
pub fn resolve_auth_mode(token: Option<String>, password: Option<String>) -> (r: Result<
    AuthMode,
    String,
>)
    ensures
        auth_mode_is(r, kept_opt(opt_text(token)), kept_opt(opt_text(password))),
{
    let token = normalize_non_empty(token);
    let password = normalize_non_empty(password);
    match (token, password) {
        (Some(_), Some(_)) => Err(
            "set either RECLAW_GATEWAY_TOKEN or RECLAW_GATEWAY_PASSWORD, not both".to_owned(),
        ),
        (Some(token), None) => Ok(AuthMode::Token(token)),
        (None, Some(password)) => Ok(AuthMode::Password(password)),
        (None, None) => Ok(AuthMode::NoAuth),
    }
}

fn text_setting(a: Option<String>, b: Option<String>) -> (r: Option<String>)
    ensures
        opt_text(r) == pick_text(a, b),
{
    normalize_non_empty(either_of(a, b))
}

fn text_setting_or(a: Option<String>, b: Option<String>, default: &str) -> (r: String)
    ensures
        r@ == text_or(pick_text(a, b), default@),
{
    match text_setting(a, b) {
        Some(text) => text,
        None => default.to_owned(),
    }
}

fn plain_setting_or(a: Option<String>, b: Option<String>, default: &str) -> (r: String)
    ensures
        r@ == text_or(opt_text(either(a, b)), default@),
{
    match either_of(a, b) {
        Some(text) => text,
        None => default.to_owned(),
    }
}

fn setting<T>(a: Option<T>, b: Option<T>, default: T) -> (r: T)
    ensures
        r == pick(a, b, default),
{
    match either_of(a, b) {
        Some(v) => v,
        None => default,
    }
}

impl RuntimeConfig {
    /// The configuration that the arguments and the files' settings make, or why they make none.
    pub fn from_args(args: Args, files: StaticConfigValues, home: Option<&str>) -> (r: Result<
        Self,
        String,
    >)
        ensures
            match config_refusal(args, files) {
                Some(message) => r is Err && r->Err_0@ == message,
                None => r is Ok && configured(
                    r->Ok_0,
                    args,
                    files,
                    match home {
                        Some(h) => Some(h@),
                        None => None,
                    },
                ),
            },
    {
        if args.command.is_some() {
            return Err("command mode does not produce runtime configuration".to_owned());
        }
        let hooks_path = plain_setting_or(args.hooks_path, files.hooks_path, DEFAULT_HOOKS_PATH);
        let hooks_path = match normalize_hooks_path(hooks_path.as_str()) {
            Ok(path) => path,
            Err(message) => {
                return Err(message);
            },
        };
        let hooks_enabled = setting(args.hooks_enabled, files.hooks_enabled, false);
        let hooks_token = text_setting(args.hooks_token, files.hooks_token);
        if hooks_enabled && hooks_token.is_none() {
            return Err("hooks.enabled requires hooks.token".to_owned());
        }
        let auth_mode = match resolve_auth_mode(
            either_of(args.gateway_token, files.gateway_token),
            either_of(args.gateway_password, files.gateway_password),
        ) {
            Ok(mode) => mode,
            Err(message) => {
                return Err(message);
            },
        };
        let port: u16 = setting(args.port, files.port, DEFAULT_PORT);
        if port == 0 {
            return Err("port must be greater than 0".to_owned());
        }
        let max_payload_bytes: usize = setting(
            args.max_payload_bytes,
            files.max_payload_bytes,
            DEFAULT_MAX_PAYLOAD_BYTES,
        );
        if max_payload_bytes == 0 {
            return Err("max_payload_bytes must be greater than 0".to_owned());
        }
        let max_buffered_bytes: usize = setting(
            args.max_buffered_bytes,
            files.max_buffered_bytes,
            DEFAULT_MAX_BUFFERED_BYTES,
        );
        if max_buffered_bytes == 0 {
            return Err("max_buffered_bytes must be greater than 0".to_owned());
        }
        let hooks_max_body_bytes: usize = setting(
            args.hooks_max_body_bytes,
            files.hooks_max_body_bytes,
            DEFAULT_HOOKS_MAX_BODY_BYTES,
        );
        if hooks_max_body_bytes == 0 {
            return Err("hooks_max_body_bytes must be greater than 0".to_owned());
        }
        let auth_max_attempts: u32 = setting(
            args.auth_max_attempts,
            files.auth_max_attempts,
            DEFAULT_AUTH_MAX_ATTEMPTS,
        );
        if auth_max_attempts == 0 {
            return Err("auth_max_attempts must be greater than 0".to_owned());
        }
        let cron_runs_limit: usize = setting(
            args.cron_runs_limit,
            files.cron_runs_limit,
            DEFAULT_CRON_RUNS_LIMIT,
        );
        if cron_runs_limit == 0 {
            return Err("cron_runs_limit must be greater than 0".to_owned());
        }
        let database = default_db_path(home);
        Ok(
            RuntimeConfig {
                host: plain_setting_or(args.host, files.host, DEFAULT_HOST),
                port,
                auth_mode,
                channels_inbound_token: text_setting(args.channels_inbound_token, files.channels_inbound_token),
                telegram_webhook_secret: text_setting(args.telegram_webhook_secret, files.telegram_webhook_secret),
                telegram_bot_token: text_setting(args.telegram_bot_token, files.telegram_bot_token),
                telegram_api_base_url: text_setting_or(args.telegram_api_base_url, files.telegram_api_base_url, "https://api.telegram.org"),
                discord_webhook_token: text_setting(args.discord_webhook_token, files.discord_webhook_token),
                discord_outbound_url: text_setting(args.discord_outbound_url, files.discord_outbound_url),
                discord_outbound_token: text_setting(args.discord_outbound_token, files.discord_outbound_token),
                slack_webhook_token: text_setting(args.slack_webhook_token, files.slack_webhook_token),
                slack_outbound_url: text_setting(args.slack_outbound_url, files.slack_outbound_url),
                slack_outbound_token: text_setting(args.slack_outbound_token, files.slack_outbound_token),
                signal_webhook_token: text_setting(args.signal_webhook_token, files.signal_webhook_token),
                signal_outbound_url: text_setting(args.signal_outbound_url, files.signal_outbound_url),
                signal_outbound_token: text_setting(args.signal_outbound_token, files.signal_outbound_token),
                whatsapp_webhook_token: text_setting(args.whatsapp_webhook_token, files.whatsapp_webhook_token),
                whatsapp_outbound_url: text_setting(args.whatsapp_outbound_url, files.whatsapp_outbound_url),
                whatsapp_outbound_token: text_setting(args.whatsapp_outbound_token, files.whatsapp_outbound_token),
                hooks_enabled,
                hooks_token,
                hooks_path,
                hooks_max_body_bytes,
                hooks_allow_request_session_key: setting(args.hooks_allow_request_session_key, files.hooks_allow_request_session_key, false),
                hooks_default_session_key: text_setting(args.hooks_default_session_key, files.hooks_default_session_key),
                hooks_default_agent_id: text_setting_or(args.hooks_default_agent_id, files.hooks_default_agent_id, "main"),
                openai_chat_completions_enabled: setting(args.openai_chat_completions_enabled, files.openai_chat_completions_enabled, false),
                openresponses_enabled: setting(args.openresponses_enabled, files.openresponses_enabled, false),
                max_payload_bytes,
                max_buffered_bytes,
                handshake_timeout_ms: setting(args.handshake_timeout_ms, files.handshake_timeout_ms, DEFAULT_HANDSHAKE_TIMEOUT_MS),
                tick_interval_ms: setting(args.tick_interval_ms, files.tick_interval_ms, DEFAULT_TICK_INTERVAL_MS),
                cron_enabled: setting(args.cron_enabled, files.cron_enabled, DEFAULT_CRON_ENABLED),
                cron_poll_interval_ms: setting(args.cron_poll_ms, files.cron_poll_ms, DEFAULT_CRON_POLL_MS),
                cron_runs_limit,
                db_path: plain_setting_or(args.db_path, files.db_path, database.as_str()),
                auth_max_attempts,
                auth_window_ms: setting(args.auth_window_ms, files.auth_window_ms, DEFAULT_AUTH_WINDOW_MS),
                runtime_version: text_setting_or(args.runtime_version, files.runtime_version, RUNTIME_VERSION),
                log_filter: text_setting_or(args.log_filter, files.log_filter, DEFAULT_LOG_FILTER),
                json_logs: setting(args.json_logs, files.json_logs, DEFAULT_JSON_LOGS),
                channel_webhook_plugins: SortedMap::new(),
                hooks_mappings: Vec::new(),
                hooks_transforms_dir: "".to_owned(),
            },
        )
    }

    /// A small configuration for trials.
    pub fn for_test(host: &str, port: u16, db_path: &str) -> (r: Self)
        ensures
            r.host@ == host@,
            r.port == port,
            r.auth_mode == AuthMode::NoAuth,
            r.channels_inbound_token is None,
            r.telegram_webhook_secret is None,
            r.telegram_bot_token is None,
            r.telegram_api_base_url@ == "https://api.telegram.org"@,
            r.discord_webhook_token is None,
            r.discord_outbound_url is None,
            r.discord_outbound_token is None,
            r.slack_webhook_token is None,
            r.slack_outbound_url is None,
            r.slack_outbound_token is None,
            r.signal_webhook_token is None,
            r.signal_outbound_url is None,
            r.signal_outbound_token is None,
            r.whatsapp_webhook_token is None,
            r.whatsapp_outbound_url is None,
            r.whatsapp_outbound_token is None,
            r.hooks_enabled == false,
            r.hooks_token is None,
            r.hooks_path@ == DEFAULT_HOOKS_PATH@,
            r.hooks_max_body_bytes == DEFAULT_HOOKS_MAX_BODY_BYTES,
            r.hooks_allow_request_session_key == false,
            r.hooks_default_session_key is None,
            r.hooks_default_agent_id@ == "main"@,
            r.openai_chat_completions_enabled == false,
            r.openresponses_enabled == false,
            r.max_payload_bytes == 524_288,
            r.max_buffered_bytes == 1_048_576,
            r.handshake_timeout_ms == 3_000,
            r.tick_interval_ms == 30_000,
            r.cron_enabled == true,
            r.cron_poll_interval_ms == 200,
            r.cron_runs_limit == 100,
            r.db_path@ == db_path@,
            r.auth_max_attempts == 3,
            r.auth_window_ms == 5_000,
            r.runtime_version@ == "test"@,
            r.log_filter@ == "warn"@,
            r.json_logs == false,
            r.channel_webhook_plugins@ == Map::<Seq<char>, ChannelWebhookPluginConfig>::empty(),
            r.hooks_mappings@.len() == 0,
            r.hooks_transforms_dir@ == ""@,
    {
        RuntimeConfig {
            host: host.to_owned(),
            port,
            auth_mode: AuthMode::NoAuth,
            channels_inbound_token: None,
            telegram_webhook_secret: None,
            telegram_bot_token: None,
            telegram_api_base_url: "https://api.telegram.org".to_owned(),
            discord_webhook_token: None,
            discord_outbound_url: None,
            discord_outbound_token: None,
            slack_webhook_token: None,
            slack_outbound_url: None,
            slack_outbound_token: None,
            signal_webhook_token: None,
            signal_outbound_url: None,
            signal_outbound_token: None,
            whatsapp_webhook_token: None,
            whatsapp_outbound_url: None,
            whatsapp_outbound_token: None,
            hooks_enabled: false,
            hooks_token: None,
            hooks_path: DEFAULT_HOOKS_PATH.to_owned(),
            hooks_max_body_bytes: DEFAULT_HOOKS_MAX_BODY_BYTES,
            hooks_allow_request_session_key: false,
            hooks_default_session_key: None,
            hooks_default_agent_id: "main".to_owned(),
            openai_chat_completions_enabled: false,
            openresponses_enabled: false,
            max_payload_bytes: 524_288,
            max_buffered_bytes: 1_048_576,
            handshake_timeout_ms: 3_000,
            tick_interval_ms: 30_000,
            cron_enabled: true,
            cron_poll_interval_ms: 200,
            cron_runs_limit: 100,
            db_path: db_path.to_owned(),
            auth_max_attempts: 3,
            auth_window_ms: 5_000,
            runtime_version: "test".to_owned(),
            log_filter: "warn".to_owned(),
            json_logs: false,
            channel_webhook_plugins: SortedMap::new(),
            hooks_mappings: Vec::new(),
            hooks_transforms_dir: "".to_owned(),
        }
    }
}

// ---------------------------------------------------------------------------------------------
// Laws
// ---------------------------------------------------------------------------------------------
/// A setting comes from the last place that has it: the command line before the files, a later
/// file before an earlier one, and the default where no place has it.
pub proof fn law_precedence<T>(cli: Option<T>, system: Option<T>, user: Option<T>, default: T)
    ensures
        pick(cli, either(user, system), default) == match (cli, user, system) {
            (Some(v), _, _) => v,
            (None, Some(v), _) => v,
            (None, None, Some(v)) => v,
            (None, None, None) => default,
        },
{
}

proof fn lemma_over_unset(c: StaticConfigValues)
    ensures
        over(c, unset()) == c,
{
    let o = over(c, unset());
    assert(o.host == c.host);
    assert(o.port == c.port);
    assert(o.gateway_token == c.gateway_token);
    assert(o.gateway_password == c.gateway_password);
    assert(o.channels_inbound_token == c.channels_inbound_token);
    assert(o.telegram_webhook_secret == c.telegram_webhook_secret);
    assert(o.telegram_bot_token == c.telegram_bot_token);
    assert(o.telegram_api_base_url == c.telegram_api_base_url);
    assert(o.discord_webhook_token == c.discord_webhook_token);
    assert(o.discord_outbound_url == c.discord_outbound_url);
    assert(o.discord_outbound_token == c.discord_outbound_token);
    assert(o.slack_webhook_token == c.slack_webhook_token);
    assert(o.slack_outbound_url == c.slack_outbound_url);
    assert(o.slack_outbound_token == c.slack_outbound_token);
    assert(o.signal_webhook_token == c.signal_webhook_token);
    assert(o.signal_outbound_url == c.signal_outbound_url);
    assert(o.signal_outbound_token == c.signal_outbound_token);
    assert(o.whatsapp_webhook_token == c.whatsapp_webhook_token);
    assert(o.whatsapp_outbound_url == c.whatsapp_outbound_url);
    assert(o.whatsapp_outbound_token == c.whatsapp_outbound_token);
    assert(o.hooks_enabled == c.hooks_enabled);
    assert(o.hooks_token == c.hooks_token);
    assert(o.hooks_path == c.hooks_path);
    assert(o.hooks_max_body_bytes == c.hooks_max_body_bytes);
    assert(o.hooks_allow_request_session_key == c.hooks_allow_request_session_key);
    assert(o.hooks_default_session_key == c.hooks_default_session_key);
    assert(o.hooks_default_agent_id == c.hooks_default_agent_id);
    assert(o.openai_chat_completions_enabled == c.openai_chat_completions_enabled);
    assert(o.openresponses_enabled == c.openresponses_enabled);
    assert(o.max_payload_bytes == c.max_payload_bytes);
    assert(o.max_buffered_bytes == c.max_buffered_bytes);
    assert(o.handshake_timeout_ms == c.handshake_timeout_ms);
    assert(o.tick_interval_ms == c.tick_interval_ms);
    assert(o.cron_enabled == c.cron_enabled);
    assert(o.cron_poll_ms == c.cron_poll_ms);
    assert(o.cron_runs_limit == c.cron_runs_limit);
    assert(o.db_path == c.db_path);
    assert(o.auth_max_attempts == c.auth_max_attempts);
    assert(o.auth_window_ms == c.auth_window_ms);
    assert(o.runtime_version == c.runtime_version);
    assert(o.log_filter == c.log_filter);
    assert(o.json_logs == c.json_logs);
}

/// Of the system's file and the user's, each setting is the user's where the user has it.
pub proof fn law_user_over_system(system: StaticConfigValues, user: StaticConfigValues)
    ensures
        settings(seq![system, user]) == over(user, system),
{
    lemma_over_unset(system);
    let files = seq![system, user];
    assert(files.drop_last() =~= seq![system]);
    assert(files.drop_last().drop_last() =~= Seq::<StaticConfigValues>::empty());
    assert(settings(files.drop_last().drop_last()) == unset());
    assert(settings(files.drop_last()) == over(system, unset()));
}

/// A file without settings changes nothing.
pub proof fn law_empty_file_changes_nothing(files: Seq<StaticConfigValues>)
    ensures
        settings(files.push(unset())) == settings(files),
{
    assert(files.push(unset()).drop_last() =~= files);
}

/// Every configuration that is made can be served: its limits are positive, and hooks that are
/// served have a token and a path of their own.
pub proof fn law_configuration_is_usable(
    c: RuntimeConfig,
    args: Args,
    files: StaticConfigValues,
    home: Option<Seq<char>>,
)
    requires
        config_refusal(args, files) is None,
        configured(c, args, files, home),
    ensures
        c.port > 0,
        c.max_payload_bytes > 0,
        c.max_buffered_bytes > 0,
        c.hooks_max_body_bytes > 0,
        c.auth_max_attempts > 0,
        c.cron_runs_limit > 0,
        c.hooks_enabled ==> c.hooks_token is Some,
        c.hooks_path@.len() > 1,
        c.hooks_path@[0] == '/',
        c.hooks_path@.last() != '/',
{
    lemma_hooks_path_shape(
        text_or(opt_text(either(args.hooks_path, files.hooks_path)), DEFAULT_HOOKS_PATH@),
    );
}

proof fn lemma_hooks_path_shape(input: Seq<char>)
    ensures
        hooks_path_of(input) matches Some(p) ==> p.len() > 1 && p[0] == '/' && p.last() != '/',
{
    reveal_strlit("/hooks");
    let t = trimmed(input);
    let rooted = if t.len() > 0 && t[0] != '/' {
        seq!['/'] + t
    } else {
        t
    };
    if t.len() > 0 {
        lemma_trim_right_shape(rooted, equals('/'));
    }
}

/// A path for hooks that was made, and ends in no white space, is made to itself.
pub proof fn law_hooks_path_is_stable(input: Seq<char>)
    requires
        hooks_path_of(input) is Some,
        !is_white_space(hooks_path_of(input)->0.last()),
    ensures
        hooks_path_of(hooks_path_of(input)->0) == hooks_path_of(input),
{
    let p = hooks_path_of(input)->0;
    lemma_hooks_path_shape(input);
    lemma_trim_both_fixed(p, |c: char| is_white_space(c));
    assert(trim_right(p, equals('/')) == p);
}

/// A setting of text: that of the command line where it has one, otherwise that of the files, without
/// the white space around it; a blank one is none, and where there is none the default stands.
pub open spec fn is_text_setting(
    value: Option<Seq<char>>,
    cli: Option<String>,
    files: Option<String>,
    default: Option<Seq<char>>,
) -> bool {
    let given = if cli is Some {
        cli
    } else {
        files
    };
    if given is Some && not_blank(given->0@) {
        value == Some(trimmed(given->0@))
    } else {
        value == default
    }
}

proof fn lemma_text_setting(cli: Option<String>, files: Option<String>, default: Option<Seq<char>>)
    ensures
        is_text_setting(first_of(pick_text(cli, files), default), cli, files, default),
{
    let given = either(cli, files);
    if given is Some {
        lemma_kept(given->0@);
    }
}

/// Each number and switch of the configuration is the command line's where it has one, otherwise the
/// files', and otherwise the default.
pub proof fn law_numbers_and_switches(
    args: Args,
    files: StaticConfigValues,
    home: Option<&str>,
    r: Result<RuntimeConfig, String>,
)
    requires
        call_ensures(RuntimeConfig::from_args, (args, files, home), r),
        r is Ok,
    ensures
        ({
            let c = r->Ok_0;
            &&& c.port == (match (args.port, files.port) {
                (Some(v), _) => v,
                (None, Some(v)) => v,
                (None, None) => 18_789,
            })
            &&& c.hooks_enabled == (match (args.hooks_enabled, files.hooks_enabled) {
                (Some(v), _) => v,
                (None, Some(v)) => v,
                (None, None) => false,
            })
            &&& c.hooks_max_body_bytes == (match (args.hooks_max_body_bytes, files.hooks_max_body_bytes) {
                (Some(v), _) => v,
                (None, Some(v)) => v,
                (None, None) => 262_144,
            })
            &&& c.hooks_allow_request_session_key == (match (args.hooks_allow_request_session_key, files.hooks_allow_request_session_key) {
                (Some(v), _) => v,
                (None, Some(v)) => v,
                (None, None) => false,
            })
            &&& c.openai_chat_completions_enabled == (match (args.openai_chat_completions_enabled, files.openai_chat_completions_enabled) {
                (Some(v), _) => v,
                (None, Some(v)) => v,
                (None, None) => false,
            })
            &&& c.openresponses_enabled == (match (args.openresponses_enabled, files.openresponses_enabled) {
                (Some(v), _) => v,
                (None, Some(v)) => v,
                (None, None) => false,
            })
            &&& c.max_payload_bytes == (match (args.max_payload_bytes, files.max_payload_bytes) {
                (Some(v), _) => v,
                (None, Some(v)) => v,
                (None, None) => 26_214_400,
            })
            &&& c.max_buffered_bytes == (match (args.max_buffered_bytes, files.max_buffered_bytes) {
                (Some(v), _) => v,
                (None, Some(v)) => v,
                (None, None) => 52_428_800,
            })
            &&& c.handshake_timeout_ms == (match (args.handshake_timeout_ms, files.handshake_timeout_ms) {
                (Some(v), _) => v,
                (None, Some(v)) => v,
                (None, None) => 10_000,
            })
            &&& c.tick_interval_ms == (match (args.tick_interval_ms, files.tick_interval_ms) {
                (Some(v), _) => v,
                (None, Some(v)) => v,
                (None, None) => 30_000,
            })
            &&& c.cron_enabled == (match (args.cron_enabled, files.cron_enabled) {
                (Some(v), _) => v,
                (None, Some(v)) => v,
                (None, None) => true,
            })
            &&& c.cron_poll_interval_ms == (match (args.cron_poll_ms, files.cron_poll_ms) {
                (Some(v), _) => v,
                (None, Some(v)) => v,
                (None, None) => 1_000,
            })
            &&& c.cron_runs_limit == (match (args.cron_runs_limit, files.cron_runs_limit) {
                (Some(v), _) => v,
                (None, Some(v)) => v,
                (None, None) => 500,
            })
            &&& c.auth_max_attempts == (match (args.auth_max_attempts, files.auth_max_attempts) {
                (Some(v), _) => v,
                (None, Some(v)) => v,
                (None, None) => 20,
            })
            &&& c.auth_window_ms == (match (args.auth_window_ms, files.auth_window_ms) {
                (Some(v), _) => v,
                (None, Some(v)) => v,
                (None, None) => 60_000,
            })
            &&& c.json_logs == (match (args.json_logs, files.json_logs) {
                (Some(v), _) => v,
                (None, Some(v)) => v,
                (None, None) => false,
            })
        }),
{
}

/// Each text of the configuration is the command line's where it has one, otherwise the files', and
/// otherwise the default.
pub proof fn law_texts_of_the_configuration(
    args: Args,
    files: StaticConfigValues,
    home: Option<&str>,
    r: Result<RuntimeConfig, String>,
)
    requires
        call_ensures(RuntimeConfig::from_args, (args, files, home), r),
        r is Ok,
    ensures
        ({
            let c = r->Ok_0;
            &&& is_text_setting(opt_text(c.channels_inbound_token), args.channels_inbound_token, files.channels_inbound_token, None)
            &&& is_text_setting(opt_text(c.telegram_webhook_secret), args.telegram_webhook_secret, files.telegram_webhook_secret, None)
            &&& is_text_setting(opt_text(c.telegram_bot_token), args.telegram_bot_token, files.telegram_bot_token, None)
            &&& is_text_setting(opt_text(c.discord_webhook_token), args.discord_webhook_token, files.discord_webhook_token, None)
            &&& is_text_setting(opt_text(c.discord_outbound_url), args.discord_outbound_url, files.discord_outbound_url, None)
            &&& is_text_setting(opt_text(c.discord_outbound_token), args.discord_outbound_token, files.discord_outbound_token, None)
            &&& is_text_setting(opt_text(c.slack_webhook_token), args.slack_webhook_token, files.slack_webhook_token, None)
            &&& is_text_setting(opt_text(c.slack_outbound_url), args.slack_outbound_url, files.slack_outbound_url, None)
            &&& is_text_setting(opt_text(c.slack_outbound_token), args.slack_outbound_token, files.slack_outbound_token, None)
            &&& is_text_setting(opt_text(c.signal_webhook_token), args.signal_webhook_token, files.signal_webhook_token, None)
            &&& is_text_setting(opt_text(c.signal_outbound_url), args.signal_outbound_url, files.signal_outbound_url, None)
            &&& is_text_setting(opt_text(c.signal_outbound_token), args.signal_outbound_token, files.signal_outbound_token, None)
            &&& is_text_setting(opt_text(c.whatsapp_webhook_token), args.whatsapp_webhook_token, files.whatsapp_webhook_token, None)
            &&& is_text_setting(opt_text(c.whatsapp_outbound_url), args.whatsapp_outbound_url, files.whatsapp_outbound_url, None)
            &&& is_text_setting(opt_text(c.whatsapp_outbound_token), args.whatsapp_outbound_token, files.whatsapp_outbound_token, None)
            &&& is_text_setting(opt_text(c.hooks_token), args.hooks_token, files.hooks_token, None)
            &&& is_text_setting(opt_text(c.hooks_default_session_key), args.hooks_default_session_key, files.hooks_default_session_key, None)
            &&& is_text_setting(Some(c.telegram_api_base_url@), args.telegram_api_base_url, files.telegram_api_base_url, Some("https://api.telegram.org"@))
            &&& is_text_setting(Some(c.hooks_default_agent_id@), args.hooks_default_agent_id, files.hooks_default_agent_id, Some("main"@))
            &&& is_text_setting(Some(c.runtime_version@), args.runtime_version, files.runtime_version, Some("0.1.0"@))
            &&& is_text_setting(Some(c.log_filter@), args.log_filter, files.log_filter, Some("info"@))
            &&& c.host@ == (match (args.host, files.host) {
                (Some(v), _) => v@,
                (None, Some(v)) => v@,
                (None, None) => "127.0.0.1"@,
            })
            &&& c.db_path@ == (match (args.db_path, files.db_path, home) {
                (Some(v), _, _) => v@,
                (None, Some(v), _) => v@,
                (None, None, None) => "./.reclaw-core/reclaw.db"@,
                (None, None, Some(h)) => joined_path(h@, ".reclaw/reclaw.db"@),
            })
        }),
{
    lemma_text_setting(args.channels_inbound_token, files.channels_inbound_token, None);
    lemma_text_setting(args.telegram_webhook_secret, files.telegram_webhook_secret, None);
    lemma_text_setting(args.telegram_bot_token, files.telegram_bot_token, None);
    lemma_text_setting(args.telegram_api_base_url, files.telegram_api_base_url, Some("https://api.telegram.org"@));
    lemma_text_setting(args.discord_webhook_token, files.discord_webhook_token, None);
    lemma_text_setting(args.discord_outbound_url, files.discord_outbound_url, None);
    lemma_text_setting(args.discord_outbound_token, files.discord_outbound_token, None);
    lemma_text_setting(args.slack_webhook_token, files.slack_webhook_token, None);
    lemma_text_setting(args.slack_outbound_url, files.slack_outbound_url, None);
    lemma_text_setting(args.slack_outbound_token, files.slack_outbound_token, None);
    lemma_text_setting(args.signal_webhook_token, files.signal_webhook_token, None);
    lemma_text_setting(args.signal_outbound_url, files.signal_outbound_url, None);
    lemma_text_setting(args.signal_outbound_token, files.signal_outbound_token, None);
    lemma_text_setting(args.whatsapp_webhook_token, files.whatsapp_webhook_token, None);
    lemma_text_setting(args.whatsapp_outbound_url, files.whatsapp_outbound_url, None);
    lemma_text_setting(args.whatsapp_outbound_token, files.whatsapp_outbound_token, None);
    lemma_text_setting(args.hooks_token, files.hooks_token, None);
    lemma_text_setting(args.hooks_default_session_key, files.hooks_default_session_key, None);
    lemma_text_setting(args.hooks_default_agent_id, files.hooks_default_agent_id, Some("main"@));
    lemma_text_setting(args.runtime_version, files.runtime_version, Some("0.1.0"@));
    lemma_text_setting(args.log_filter, files.log_filter, Some("info"@));
}

/// Clients prove themselves by the token where one is set, by the password where one is set, and not
/// at all where neither is; both are never set.
pub proof fn law_ways_to_prove_oneself(
    args: Args,
    files: StaticConfigValues,
    home: Option<&str>,
    r: Result<RuntimeConfig, String>,
    token: Option<Seq<char>>,
    password: Option<Seq<char>>,
)
    requires
        call_ensures(RuntimeConfig::from_args, (args, files, home), r),
        r is Ok,
        is_text_setting(token, args.gateway_token, files.gateway_token, None),
        is_text_setting(password, args.gateway_password, files.gateway_password, None),
    ensures
        match r->Ok_0.auth_mode {
            AuthMode::Token(secret) => token == Some(secret@) && password is None,
            AuthMode::Password(secret) => password == Some(secret@) && token is None,
            AuthMode::NoAuth => token is None && password is None,
        },
{
    lemma_text_setting(args.gateway_token, files.gateway_token, None);
    lemma_text_setting(args.gateway_password, files.gateway_password, None);
}

/// The arguments and files make a configuration exactly where no command is given, the path of hooks
/// is more than the root, hooks that are served have a token, a token and a password are not both set,
/// and no limit is zero.
pub proof fn law_when_there_is_a_configuration(
    args: Args,
    files: StaticConfigValues,
    home: Option<&str>,
    r: Result<RuntimeConfig, String>,
    path: Result<String, String>,
    path_text: &str,
    token: Option<Seq<char>>,
    password: Option<Seq<char>>,
    hooks_token: Option<Seq<char>>,
)
    requires
        call_ensures(RuntimeConfig::from_args, (args, files, home), r),
        call_ensures(normalize_hooks_path, (path_text,), path),
        path_text@ == (match (args.hooks_path, files.hooks_path) {
            (Some(v), _) => v@,
            (None, Some(v)) => v@,
            (None, None) => "/hooks"@,
        }),
        is_text_setting(token, args.gateway_token, files.gateway_token, None),
        is_text_setting(password, args.gateway_password, files.gateway_password, None),
        is_text_setting(hooks_token, args.hooks_token, files.hooks_token, None),
    ensures
        r is Ok <==> {
            &&& args.command is None
            &&& path is Ok
            &&& (args.hooks_enabled == Some(true) || (args.hooks_enabled is None && files.hooks_enabled
                == Some(true))) ==> hooks_token is Some
            &&& token is None || password is None
            &&& !(args.port == Some(0u16) || (args.port is None && files.port == Some(0u16)))
            &&& !(args.max_payload_bytes == Some(0usize) || (args.max_payload_bytes is None
                && files.max_payload_bytes == Some(0usize)))
            &&& !(args.max_buffered_bytes == Some(0usize) || (args.max_buffered_bytes is None
                && files.max_buffered_bytes == Some(0usize)))
            &&& !(args.hooks_max_body_bytes == Some(0usize) || (args.hooks_max_body_bytes is None
                && files.hooks_max_body_bytes == Some(0usize)))
            &&& !(args.auth_max_attempts == Some(0u32) || (args.auth_max_attempts is None
                && files.auth_max_attempts == Some(0u32)))
            &&& !(args.cron_runs_limit == Some(0usize) || (args.cron_runs_limit is None
                && files.cron_runs_limit == Some(0usize)))
        },
        r is Ok ==> r->Ok_0.hooks_path@ == path->Ok_0@,
{
    lemma_text_setting(args.gateway_token, files.gateway_token, None);
    lemma_text_setting(args.gateway_password, files.gateway_password, None);
    lemma_text_setting(args.hooks_token, files.hooks_token, None);
}

/// The path of hooks begins with a slash and ends with none; a path of that form without white space
/// around it stays, and gets its slash where it has none.
pub proof fn law_paths_of_hooks(input: &str, r: Result<String, String>, name: Seq<char>)
    requires
        call_ensures(normalize_hooks_path, (input,), r),
        name.len() > 0,
        name[0] != '/' && !is_white_space(name[0]),
        name.last() != '/' && !is_white_space(name.last()),
    ensures
        input@ == name || input@ == seq!['/'] + name || input@ == seq!['/'] + name + seq!['/'] ==> r is Ok
            && r->Ok_0@ == seq!['/'] + name,
        input@ == seq!['/'] ==> r is Err,
        input@.len() == 0 ==> r is Ok && r->Ok_0@ == "/hooks"@,
        r is Ok ==> r->Ok_0@.len() > 1 && r->Ok_0@[0] == '/' && r->Ok_0@.last() != '/',
{
    lemma_hooks_path_shape(input@);
    let p = |c: char| is_white_space(c);
    let rooted = seq!['/'] + name;
    assert(rooted.last() == name.last());
    assert(trim_right(rooted, equals('/')) == rooted);
    let closed = rooted + seq!['/'];
    assert(closed.drop_last() =~= rooted);
    assert(closed.last() == '/' && closed[0] == '/');
    assert(trim_right(closed, equals('/')) == rooted);
    let root = seq!['/'];
    reveal_with_fuel(trim_right, 3);
    assert(root.drop_last() =~= Seq::<char>::empty());
    assert(trim_right(root, equals('/')).len() == 0);
    lemma_trim_both_fixed(name, p);
    lemma_trim_both_fixed(rooted, p);
    lemma_trim_both_fixed(closed, p);
    lemma_trim_both_fixed(root, p);
    lemma_trim_both_fixed(Seq::<char>::empty(), p);
    if input@.len() == 0 {
        assert(input@ =~= Seq::<char>::empty());
    }
}

/// A later file wins, setting by setting, and leaves what it does not set.
pub proof fn law_later_files_win(later: StaticConfigValues)
    ensures
        forall|files: &mut StaticConfigValues| #[trigger]
            call_ensures(StaticConfigValues::merge_from, (files, later), ()) ==> {
                &&& final(files).host == (if later.host is Some {
                    later.host
                } else {
                    files.host
                })
                &&& final(files).port == (if later.port is Some {
                    later.port
                } else {
                    files.port
                })
                &&& final(files).gateway_token == (if later.gateway_token is Some {
                    later.gateway_token
                } else {
                    files.gateway_token
                })
                &&& final(files).gateway_password == (if later.gateway_password is Some {
                    later.gateway_password
                } else {
                    files.gateway_password
                })
                &&& final(files).channels_inbound_token == (if later.channels_inbound_token is Some {
                    later.channels_inbound_token
                } else {
                    files.channels_inbound_token
                })
                &&& final(files).telegram_webhook_secret == (if later.telegram_webhook_secret is Some {
                    later.telegram_webhook_secret
                } else {
                    files.telegram_webhook_secret
                })
                &&& final(files).telegram_bot_token == (if later.telegram_bot_token is Some {
                    later.telegram_bot_token
                } else {
                    files.telegram_bot_token
                })
                &&& final(files).telegram_api_base_url == (if later.telegram_api_base_url is Some {
                    later.telegram_api_base_url
                } else {
                    files.telegram_api_base_url
                })
                &&& final(files).discord_webhook_token == (if later.discord_webhook_token is Some {
                    later.discord_webhook_token
                } else {
                    files.discord_webhook_token
                })
                &&& final(files).discord_outbound_url == (if later.discord_outbound_url is Some {
                    later.discord_outbound_url
                } else {
                    files.discord_outbound_url
                })
                &&& final(files).discord_outbound_token == (if later.discord_outbound_token is Some {
                    later.discord_outbound_token
                } else {
                    files.discord_outbound_token
                })
                &&& final(files).slack_webhook_token == (if later.slack_webhook_token is Some {
                    later.slack_webhook_token
                } else {
                    files.slack_webhook_token
                })
                &&& final(files).slack_outbound_url == (if later.slack_outbound_url is Some {
                    later.slack_outbound_url
                } else {
                    files.slack_outbound_url
                })
                &&& final(files).slack_outbound_token == (if later.slack_outbound_token is Some {
                    later.slack_outbound_token
                } else {
                    files.slack_outbound_token
                })
                &&& final(files).signal_webhook_token == (if later.signal_webhook_token is Some {
                    later.signal_webhook_token
                } else {
                    files.signal_webhook_token
                })
                &&& final(files).signal_outbound_url == (if later.signal_outbound_url is Some {
                    later.signal_outbound_url
                } else {
                    files.signal_outbound_url
                })
                &&& final(files).signal_outbound_token == (if later.signal_outbound_token is Some {
                    later.signal_outbound_token
                } else {
                    files.signal_outbound_token
                })
                &&& final(files).whatsapp_webhook_token == (if later.whatsapp_webhook_token is Some {
                    later.whatsapp_webhook_token
                } else {
                    files.whatsapp_webhook_token
                })
                &&& final(files).whatsapp_outbound_url == (if later.whatsapp_outbound_url is Some {
                    later.whatsapp_outbound_url
                } else {
                    files.whatsapp_outbound_url
                })
                &&& final(files).whatsapp_outbound_token == (if later.whatsapp_outbound_token is Some {
                    later.whatsapp_outbound_token
                } else {
                    files.whatsapp_outbound_token
                })
                &&& final(files).hooks_enabled == (if later.hooks_enabled is Some {
                    later.hooks_enabled
                } else {
                    files.hooks_enabled
                })
                &&& final(files).hooks_token == (if later.hooks_token is Some {
                    later.hooks_token
                } else {
                    files.hooks_token
                })
                &&& final(files).hooks_path == (if later.hooks_path is Some {
                    later.hooks_path
                } else {
                    files.hooks_path
                })
                &&& final(files).hooks_max_body_bytes == (if later.hooks_max_body_bytes is Some {
                    later.hooks_max_body_bytes
                } else {
                    files.hooks_max_body_bytes
                })
                &&& final(files).hooks_allow_request_session_key == (if later.hooks_allow_request_session_key is Some {
                    later.hooks_allow_request_session_key
                } else {
                    files.hooks_allow_request_session_key
                })
                &&& final(files).hooks_default_session_key == (if later.hooks_default_session_key is Some {
                    later.hooks_default_session_key
                } else {
                    files.hooks_default_session_key
                })
                &&& final(files).hooks_default_agent_id == (if later.hooks_default_agent_id is Some {
                    later.hooks_default_agent_id
                } else {
                    files.hooks_default_agent_id
                })
                &&& final(files).openai_chat_completions_enabled == (if later.openai_chat_completions_enabled is Some {
                    later.openai_chat_completions_enabled
                } else {
                    files.openai_chat_completions_enabled
                })
                &&& final(files).openresponses_enabled == (if later.openresponses_enabled is Some {
                    later.openresponses_enabled
                } else {
                    files.openresponses_enabled
                })
                &&& final(files).max_payload_bytes == (if later.max_payload_bytes is Some {
                    later.max_payload_bytes
                } else {
                    files.max_payload_bytes
                })
                &&& final(files).max_buffered_bytes == (if later.max_buffered_bytes is Some {
                    later.max_buffered_bytes
                } else {
                    files.max_buffered_bytes
                })
                &&& final(files).handshake_timeout_ms == (if later.handshake_timeout_ms is Some {
                    later.handshake_timeout_ms
                } else {
                    files.handshake_timeout_ms
                })
                &&& final(files).tick_interval_ms == (if later.tick_interval_ms is Some {
                    later.tick_interval_ms
                } else {
                    files.tick_interval_ms
                })
                &&& final(files).cron_enabled == (if later.cron_enabled is Some {
                    later.cron_enabled
                } else {
                    files.cron_enabled
                })
                &&& final(files).cron_poll_ms == (if later.cron_poll_ms is Some {
                    later.cron_poll_ms
                } else {
                    files.cron_poll_ms
                })
                &&& final(files).cron_runs_limit == (if later.cron_runs_limit is Some {
                    later.cron_runs_limit
                } else {
                    files.cron_runs_limit
                })
                &&& final(files).db_path == (if later.db_path is Some {
                    later.db_path
                } else {
                    files.db_path
                })
                &&& final(files).auth_max_attempts == (if later.auth_max_attempts is Some {
                    later.auth_max_attempts
                } else {
                    files.auth_max_attempts
                })
                &&& final(files).auth_window_ms == (if later.auth_window_ms is Some {
                    later.auth_window_ms
                } else {
                    files.auth_window_ms
                })
                &&& final(files).runtime_version == (if later.runtime_version is Some {
                    later.runtime_version
                } else {
                    files.runtime_version
                })
                &&& final(files).log_filter == (if later.log_filter is Some {
                    later.log_filter
                } else {
                    files.log_filter
                })
                &&& final(files).json_logs == (if later.json_logs is Some {
                    later.json_logs
                } else {
                    files.json_logs
                })
            },
{
}

/// Of the system's file and the user's behind it, each setting is the user's where the user has it, and
/// otherwise the system's.
pub proof fn law_the_user_wins(
    files: Vec<StaticConfigValues>,
    system: StaticConfigValues,
    user: StaticConfigValues,
    r: StaticConfigValues,
)
    requires
        call_ensures(merge_static_configs, (files,), r),
        files@ == seq![system, user],
    ensures
        ({
            &&& r.host == (if user.host is Some {
                user.host
            } else {
                system.host
            })
            &&& r.port == (if user.port is Some {
                user.port
            } else {
                system.port
            })
            &&& r.gateway_token == (if user.gateway_token is Some {
                user.gateway_token
            } else {
                system.gateway_token
            })
            &&& r.gateway_password == (if user.gateway_password is Some {
                user.gateway_password
            } else {
                system.gateway_password
            })
            &&& r.channels_inbound_token == (if user.channels_inbound_token is Some {
                user.channels_inbound_token
            } else {
                system.channels_inbound_token
            })
            &&& r.telegram_webhook_secret == (if user.telegram_webhook_secret is Some {
                user.telegram_webhook_secret
            } else {
                system.telegram_webhook_secret
            })
            &&& r.telegram_bot_token == (if user.telegram_bot_token is Some {
                user.telegram_bot_token
            } else {
                system.telegram_bot_token
            })
            &&& r.telegram_api_base_url == (if user.telegram_api_base_url is Some {
                user.telegram_api_base_url
            } else {
                system.telegram_api_base_url
            })
            &&& r.discord_webhook_token == (if user.discord_webhook_token is Some {
                user.discord_webhook_token
            } else {
                system.discord_webhook_token
            })
            &&& r.discord_outbound_url == (if user.discord_outbound_url is Some {
                user.discord_outbound_url
            } else {
                system.discord_outbound_url
            })
            &&& r.discord_outbound_token == (if user.discord_outbound_token is Some {
                user.discord_outbound_token
            } else {
                system.discord_outbound_token
            })
            &&& r.slack_webhook_token == (if user.slack_webhook_token is Some {
                user.slack_webhook_token
            } else {
                system.slack_webhook_token
            })
            &&& r.slack_outbound_url == (if user.slack_outbound_url is Some {
                user.slack_outbound_url
            } else {
                system.slack_outbound_url
            })
            &&& r.slack_outbound_token == (if user.slack_outbound_token is Some {
                user.slack_outbound_token
            } else {
                system.slack_outbound_token
            })
            &&& r.signal_webhook_token == (if user.signal_webhook_token is Some {
                user.signal_webhook_token
            } else {
                system.signal_webhook_token
            })
            &&& r.signal_outbound_url == (if user.signal_outbound_url is Some {
                user.signal_outbound_url
            } else {
                system.signal_outbound_url
            })
            &&& r.signal_outbound_token == (if user.signal_outbound_token is Some {
                user.signal_outbound_token
            } else {
                system.signal_outbound_token
            })
            &&& r.whatsapp_webhook_token == (if user.whatsapp_webhook_token is Some {
                user.whatsapp_webhook_token
            } else {
                system.whatsapp_webhook_token
            })
            &&& r.whatsapp_outbound_url == (if user.whatsapp_outbound_url is Some {
                user.whatsapp_outbound_url
            } else {
                system.whatsapp_outbound_url
            })
            &&& r.whatsapp_outbound_token == (if user.whatsapp_outbound_token is Some {
                user.whatsapp_outbound_token
            } else {
                system.whatsapp_outbound_token
            })
            &&& r.hooks_enabled == (if user.hooks_enabled is Some {
                user.hooks_enabled
            } else {
                system.hooks_enabled
            })
            &&& r.hooks_token == (if user.hooks_token is Some {
                user.hooks_token
            } else {
                system.hooks_token
            })
            &&& r.hooks_path == (if user.hooks_path is Some {
                user.hooks_path
            } else {
                system.hooks_path
            })
            &&& r.hooks_max_body_bytes == (if user.hooks_max_body_bytes is Some {
                user.hooks_max_body_bytes
            } else {
                system.hooks_max_body_bytes
            })
            &&& r.hooks_allow_request_session_key == (if user.hooks_allow_request_session_key is Some {
                user.hooks_allow_request_session_key
            } else {
                system.hooks_allow_request_session_key
            })
            &&& r.hooks_default_session_key == (if user.hooks_default_session_key is Some {
                user.hooks_default_session_key
            } else {
                system.hooks_default_session_key
            })
            &&& r.hooks_default_agent_id == (if user.hooks_default_agent_id is Some {
                user.hooks_default_agent_id
            } else {
                system.hooks_default_agent_id
            })
            &&& r.openai_chat_completions_enabled == (if user.openai_chat_completions_enabled is Some {
                user.openai_chat_completions_enabled
            } else {
                system.openai_chat_completions_enabled
            })
            &&& r.openresponses_enabled == (if user.openresponses_enabled is Some {
                user.openresponses_enabled
            } else {
                system.openresponses_enabled
            })
            &&& r.max_payload_bytes == (if user.max_payload_bytes is Some {
                user.max_payload_bytes
            } else {
                system.max_payload_bytes
            })
            &&& r.max_buffered_bytes == (if user.max_buffered_bytes is Some {
                user.max_buffered_bytes
            } else {
                system.max_buffered_bytes
            })
            &&& r.handshake_timeout_ms == (if user.handshake_timeout_ms is Some {
                user.handshake_timeout_ms
            } else {
                system.handshake_timeout_ms
            })
            &&& r.tick_interval_ms == (if user.tick_interval_ms is Some {
                user.tick_interval_ms
            } else {
                system.tick_interval_ms
            })
            &&& r.cron_enabled == (if user.cron_enabled is Some {
                user.cron_enabled
            } else {
                system.cron_enabled
            })
            &&& r.cron_poll_ms == (if user.cron_poll_ms is Some {
                user.cron_poll_ms
            } else {
                system.cron_poll_ms
            })
            &&& r.cron_runs_limit == (if user.cron_runs_limit is Some {
                user.cron_runs_limit
            } else {
                system.cron_runs_limit
            })
            &&& r.db_path == (if user.db_path is Some {
                user.db_path
            } else {
                system.db_path
            })
            &&& r.auth_max_attempts == (if user.auth_max_attempts is Some {
                user.auth_max_attempts
            } else {
                system.auth_max_attempts
            })
            &&& r.auth_window_ms == (if user.auth_window_ms is Some {
                user.auth_window_ms
            } else {
                system.auth_window_ms
            })
            &&& r.runtime_version == (if user.runtime_version is Some {
                user.runtime_version
            } else {
                system.runtime_version
            })
            &&& r.log_filter == (if user.log_filter is Some {
                user.log_filter
            } else {
                system.log_filter
            })
            &&& r.json_logs == (if user.json_logs is Some {
                user.json_logs
            } else {
                system.json_logs
            })
        }),
{
    law_user_over_system(system, user);
}

/// The system's files are read before the user's, and the file that is named in place of them all; a
/// command reads none.
pub proof fn law_files_that_are_read(
    args: &Args,
    home: Option<&str>,
    r: Result<Vec<String>, String>,
)
    requires
        call_ensures(static_config_paths, (args, home), r),
    ensures
        r is Ok <==> args.command is None,
        r is Ok && args.config is Some ==> r->Ok_0@.len() == 1 && r->Ok_0@[0]@ == args.config->0@,
        r is Ok && args.config is None ==> {
            &&& r->Ok_0@.len() == (if home is Some {
                4int
            } else {
                2
            })
            &&& r->Ok_0@[0]@ == "/etc/reclaw/config.toml"@
            &&& r->Ok_0@[1]@ == "/etc/reclaw/config.json"@
            &&& home is Some ==> r->Ok_0@[2]@ == joined_path(home->0@, ".reclaw/config.toml"@)
                && r->Ok_0@[3]@ == joined_path(home->0@, ".reclaw/config.json"@)
        },
{
    if r is Ok {
        let paths = r->Ok_0@;
        assert(texts(paths).len() == paths.len());
        assert(forall|i: int| 0 <= i < paths.len() ==> #[trigger] texts(paths)[i] == paths[i]@);
        if args.config is Some {
            assert(texts(paths)[0] == args.config->0@);
        } else {
            assert(texts(paths)[0] == "/etc/reclaw/config.toml"@);
            assert(texts(paths)[1] == "/etc/reclaw/config.json"@);
            if home is Some {
                assert(texts(paths)[2] == joined_path(home->0@, ".reclaw/config.toml"@));
                assert(texts(paths)[3] == joined_path(home->0@, ".reclaw/config.json"@));
            }
        }
    }
}

} // verus!
