//! Hooks: requests of other services that wake the gateway or give an agent something to do.
pub mod template;
pub mod transform;

use crate::application::config::{HookMappingAction, HookMappingConfig, RuntimeConfig};
use crate::application::state::copy_text;
use crate::ids::{is_uuid_text, new_id};
use crate::interfaces::channel_adapter_common::{error_response, refusal_body, HttpReply};
use crate::interfaces::channels::{http_session, is_http_session};
use crate::interfaces::compat::header_text;
use crate::interfaces::discord::{lemma_said, said, says};
use crate::interfaces::hooks::template::{rendered, render_template, ContextModel, HookTemplateContext};
use crate::json::{
    bytes_read, field, fields, get_field, member, model_of, no_fields, object, set_field, text,
    text_of, Json, JsonModel,
};
use crate::rpc::SessionContext;
use crate::security::auth::same_secret;
use crate::security::rate_limit::{after_failure, AuthRateLimiter};
use crate::sorted_map::SortedMap;
use crate::text::{
    after_prefix, cat, cat3, either, find, find_from, first_of, from_range, is_white_space, join, joined,
    kept, kept_opt, law_first_place, law_joined_parts_are_found, law_joined_parts_are_split_again,
    law_split_and_join, law_split_at_a_separator, law_trim_between, lemma_find, lemma_kept,
    lemma_trim_both_fixed, lowered, opt_text, same, same_ignoring_case, split,
    split_at_char, strip_prefix, text_or, texts, to_chars, to_lower, trim, trim_char, trim_non_empty,
    trim_non_empty_opt, trimmed, trimmed_of, equals,
};
use vstd::prelude::*;

verus! {

broadcast use vstd::seq::group_seq_axioms;

pub const HOOKS_SESSION_POLICY_ERROR: &'static str =
    "sessionKey is disabled for external /hooks/agent payloads; set hooksAllowRequestSessionKey=true to enable";

pub const HOOKS_QUERY_TOKEN_ERROR: &'static str =
    "Hook token must be provided via Authorization: Bearer <token> or X-OpenClaw-Token header (query parameters are not allowed).";

pub const HOOKS_LAST_WAKE_KEY: &'static str = "hooks/last-wake";

// ---------------------------------------------------------------------------------------------
// What hooks do
// ---------------------------------------------------------------------------------------------
/// When the gateway wakes.
#[derive(Debug, Clone, Copy, PartialEq, Eq, Structural)]
pub enum HookWakeMode {
    Now,
    NextHeartbeat,
}

/// When the gateway wakes, by a text: with the next heartbeat where it says so, and else now.
pub open spec fn wake_mode_of(raw: Option<Seq<char>>) -> HookWakeMode {
    if raw is Some && trimmed(raw->0) == "next-heartbeat"@ {
        HookWakeMode::NextHeartbeat
    } else {
        HookWakeMode::Now
    }
}

impl HookWakeMode {
    /// The name of the mode.
    pub open spec fn name(self) -> Seq<char> {
        match self {
            HookWakeMode::Now => "now"@,
            HookWakeMode::NextHeartbeat => "next-heartbeat"@,
        }
    }

    /// When the gateway wakes, by a text.
    pub fn from_raw(raw: &Option<String>) -> (r: Self)
        ensures
            r == wake_mode_of(opt_text(*raw)),
    {
        match raw {
            Some(s) => if same(trim(s.as_str()).as_str(), "next-heartbeat") {
                HookWakeMode::NextHeartbeat
            } else {
                HookWakeMode::Now
            },
            None => HookWakeMode::Now,
        }
    }

    /// The name of the mode.
    pub fn as_str(self) -> (r: &'static str)
        ensures
            r@ == self.name(),
    {
        match self {
            HookWakeMode::Now => "now",
            HookWakeMode::NextHeartbeat => "next-heartbeat",
        }
    }
}

/// The gateway is to wake.
pub struct HookWakeNormalized {
    pub text: String,
    pub mode: HookWakeMode,
}

/// What a request gives an agent to do.
pub struct HookAgentPayload {
    pub message: Option<String>,
    pub name: Option<String>,
    pub agent_id: Option<String>,
    pub wake_mode: Option<String>,
    pub session_key: Option<String>,
    pub model: Option<String>,
}

/// An agent is to do something.
pub struct HookAgentNormalized {
    pub message: String,
    pub name: String,
    pub agent_id: Option<String>,
    pub wake_mode: HookWakeMode,
    pub session_key: Option<String>,
}

/// Where a session's key comes from.
#[derive(Debug, Clone, Copy, PartialEq, Eq, Structural)]
pub enum HookSessionKeySource {
    Request,
    Mapping,
}

/// What a module changes of what a hook does.
pub struct HookTransformOverride {
    pub kind: Option<HookMappingAction>,
    pub text: Option<String>,
    pub mode: Option<String>,
    pub message: Option<String>,
    pub name: Option<String>,
    pub agent_id: Option<String>,
    pub wake_mode: Option<String>,
    pub session_key: Option<String>,
}

/// What a hook does.
pub enum HookResolvedAction {
    Wake(HookWakeNormalized),
    Agent(HookAgentNormalized),
}

/// What a hook does.
#[verifier::ext_equal]
pub enum ActionModel {
    Wake { text: Seq<char>, mode: HookWakeMode },
    Agent {
        message: Seq<char>,
        name: Seq<char>,
        agent_id: Option<Seq<char>>,
        wake_mode: HookWakeMode,
        session_key: Option<Seq<char>>,
    },
}

/// What waking the gateway is.
pub open spec fn wake_model(w: HookWakeNormalized) -> ActionModel {
    ActionModel::Wake { text: w.text@, mode: w.mode }
}

/// What giving an agent something to do is.
pub open spec fn agent_model(a: HookAgentNormalized) -> ActionModel {
    ActionModel::Agent {
        message: a.message@,
        name: a.name@,
        agent_id: opt_text(a.agent_id),
        wake_mode: a.wake_mode,
        session_key: opt_text(a.session_key),
    }
}

impl HookResolvedAction {
    /// What the hook does.
    pub open spec fn view(&self) -> ActionModel {
        match self {
            HookResolvedAction::Wake(w) => wake_model(*w),
            HookResolvedAction::Agent(a) => agent_model(*a),
        }
    }
}

/// What a request to wake the gateway means.
pub open spec fn wake_request(payload: Map<Seq<char>, JsonModel>) -> Result<ActionModel, Seq<char>> {
    match kept_opt(text_of(field(payload, "text"@))) {
        None => Err("text required"@),
        Some(t) => Ok(
            ActionModel::Wake { text: t, mode: wake_mode_of(text_of(field(payload, "mode"@))) },
        ),
    }
}

/// The text of a member of an object.
fn field_text(payload: &SortedMap<Json>, name: &str) -> (r: Option<String>)
    ensures
        opt_text(r) == text_of(field(fields(*payload), name@)),
{
    match get_field(payload, name) {
        Some(value) => match value.as_str() {
            Some(s) => Some(s.to_owned()),
            None => None,
        },
        None => None,
    }
}

/// What a request to wake the gateway means.
pub fn normalize_wake_payload(payload: &SortedMap<Json>) -> (r: Result<HookWakeNormalized, String>)
    ensures
        match wake_request(fields(*payload)) {
            Ok(action) => r is Ok && wake_model(r->Ok_0) == action,
            Err(message) => r is Err && r->Err_0@ == message,
        },
{
    match trim_non_empty_opt(&field_text(payload, "text")) {
        None => Err("text required".to_owned()),
        Some(body) => Ok(
            HookWakeNormalized {
                text: body,
                mode: HookWakeMode::from_raw(&field_text(payload, "mode")),
            },
        ),
    }
}

/// What a request for an agent means, from what was read of it.
pub open spec fn agent_request(read: Result<HookAgentPayload, String>) -> Result<
    ActionModel,
    Seq<char>,
> {
    match read {
        Err(error) => Err("invalid agent payload: "@ + error@),
        Ok(p) => match kept_opt(opt_text(p.message)) {
            None => Err("message required"@),
            Some(message) => if p.model is Some && kept(p.model->0@) is None {
                Err("model required"@)
            } else {
                Ok(
                    ActionModel::Agent {
                        message,
                        name: text_or(kept_opt(opt_text(p.name)), "Hook"@),
                        agent_id: kept_opt(opt_text(p.agent_id)),
                        wake_mode: wake_mode_of(opt_text(p.wake_mode)),
                        session_key: kept_opt(opt_text(p.session_key)),
                    },
                )
            },
        },
    }
}

/// What a request for an agent means, from what was read of it.
pub fn normalize_agent_payload(read: Result<HookAgentPayload, String>) -> (r: Result<
    HookAgentNormalized,
    String,
>)
    ensures
        match agent_request(read) {
            Ok(action) => r is Ok && agent_model(r->Ok_0) == action,
            Err(message) => r is Err && r->Err_0@ == message,
        },
{
    let p = match read {
        Ok(p) => p,
        Err(error) => {
            return Err(cat("invalid agent payload: ", error.as_str()));
        },
    };
    let message = match trim_non_empty_opt(&p.message) {
        Some(message) => message,
        None => {
            return Err("message required".to_owned());
        },
    };
    let name = match trim_non_empty_opt(&p.name) {
        Some(name) => name,
        None => "Hook".to_owned(),
    };
    if let Some(model) = &p.model {
        if trim_non_empty(model.as_str()).is_none() {
            return Err("model required".to_owned());
        }
    }
    Ok(
        HookAgentNormalized {
            message,
            name,
            agent_id: trim_non_empty_opt(&p.agent_id),
            wake_mode: HookWakeMode::from_raw(&p.wake_mode),
            session_key: trim_non_empty_opt(&p.session_key),
        },
    )
}

// ---------------------------------------------------------------------------------------------
// Mappings
// ---------------------------------------------------------------------------------------------
/// The parts that are not blank.
pub open spec fn not_blank(parts: Seq<Seq<char>>) -> Seq<Seq<char>>
    decreases parts.len(),
{
    if parts.len() == 0 {
        parts
    } else if kept(parts.last()) is Some {
        not_blank(parts.drop_last()).push(parts.last())
    } else {
        not_blank(parts.drop_last())
    }
}

/// A path without blank parts and without slashes at its ends.
pub open spec fn mapping_path(path: Seq<char>) -> Seq<char> {
    joined(not_blank(split(trimmed_of(trimmed(path), '/'), '/')), "/"@)
}

/// A path without blank parts and without slashes at its ends.
pub fn normalize_mapping_path(path: &str) -> (r: String)
    ensures
        r@ == mapping_path(path@),
{
    let t = trim(path);
    let inner = trim_char(t.as_str(), '/');
    let parts = split_at_char(inner.as_str(), '/');
    let mut out: Vec<String> = Vec::new();
    let mut i: usize = 0;
    assert(texts(out@) =~= not_blank(texts(parts@).take(0)));
    while i < parts.len()
        invariant
            i <= parts@.len(),
            texts(out@) == not_blank(texts(parts@).take(i as int)),
        decreases parts@.len() - i,
    {
        let ghost so_far = out@;
        proof {
            let t = texts(parts@).take(i + 1);
            assert(t.drop_last() =~= texts(parts@).take(i as int));
            assert(t.last() == parts@[i as int]@);
        }
        if trim_non_empty(parts[i].as_str()).is_some() {
            out.push(parts[i].clone());
            assert(texts(out@) =~= texts(so_far).push(parts@[i as int]@));
        }
        i = i + 1;
    }
    assert(texts(parts@).take(i as int) =~= texts(parts@));
    join(&out, "/")
}

/// The path that a mapping is for: its own, or its rule's.
pub open spec fn mapping_path_of(mapping: HookMappingConfig) -> Option<Seq<char>> {
    first_of(
        kept(mapping.path@),
        match mapping.rule {
            Some(rule) => kept_opt(opt_text(rule.path)),
            None => None,
        },
    )
}

/// The source that a mapping is for: its own, or its rule's.
pub open spec fn mapping_source_of(mapping: HookMappingConfig) -> Option<Seq<char>> {
    first_of(
        kept_opt(opt_text(mapping.match_source)),
        match mapping.rule {
            Some(rule) => kept_opt(opt_text(rule.source)),
            None => None,
        },
    )
}

/// A mapping is for a request: for its path, and for its source where the mapping names one.
pub open spec fn maps(
    mapping: HookMappingConfig,
    target: Seq<char>,
    payload: Map<Seq<char>, JsonModel>,
) -> bool {
    match mapping_path_of(mapping) {
        None => false,
        Some(path) => mapping_path(path) == target && match mapping_source_of(mapping) {
            None => true,
            Some(source) => match text_of(field(payload, "source"@)) {
                Some(s) => trimmed(s) == source,
                None => false,
            },
        },
    }
}

/// The path that a mapping is for.
pub fn mapping_path_value(mapping: &HookMappingConfig) -> (r: Option<String>)
    ensures
        opt_text(r) == mapping_path_of(*mapping),
{
    match trim_non_empty(mapping.path.as_str()) {
        Some(path) => Some(path),
        None => match &mapping.rule {
            Some(rule) => trim_non_empty_opt(&rule.path),
            None => None,
        },
    }
}

/// The source that a mapping is for.
pub fn mapping_match_source_value(mapping: &HookMappingConfig) -> (r: Option<String>)
    ensures
        opt_text(r) == mapping_source_of(*mapping),
{
    match trim_non_empty_opt(&mapping.match_source) {
        Some(source) => Some(source),
        None => match &mapping.rule {
            Some(rule) => trim_non_empty_opt(&rule.source),
            None => None,
        },
    }
}

/// Whether a mapping is for a request.
pub fn mapping_matches(mapping: &HookMappingConfig, target: &str, payload: &SortedMap<Json>) -> (r:
    bool)
    ensures
        r == maps(*mapping, target@, fields(*payload)),
{
    let path = match mapping_path_value(mapping) {
        Some(path) => path,
        None => {
            return false;
        },
    };
    if !same(normalize_mapping_path(path.as_str()).as_str(), target) {
        return false;
    }
    let source = match mapping_match_source_value(mapping) {
        Some(source) => source,
        None => {
            return true;
        },
    };
    match field_text(payload, "source") {
        Some(s) => same(trim(s.as_str()).as_str(), source.as_str()),
        None => false,
    }
}

/// No mapping answers a request.
pub open spec fn none_maps(
    mappings: Seq<HookMappingConfig>,
    target: Seq<char>,
    payload: Map<Seq<char>, JsonModel>,
) -> bool {
    forall|k: int| 0 <= k < mappings.len() ==> !maps(#[trigger] mappings[k], target, payload)
}

/// The first mapping that is for a request, by its place.
pub fn resolve_mapping(
    mappings: &Vec<HookMappingConfig>,
    subpath: &str,
    payload: &SortedMap<Json>,
) -> (r: Option<usize>)
    ensures
        match r {
            Some(i) => i < mappings@.len() && maps(
                mappings@[i as int],
                mapping_path(subpath@),
                fields(*payload),
            ) && (forall|k: int|
                0 <= k < i ==> !maps(
                    #[trigger] mappings@[k],
                    mapping_path(subpath@),
                    fields(*payload),
                )),
            None => none_maps(mappings@, mapping_path(subpath@), fields(*payload)) && (forall|k: int|
                0 <= k < mappings@.len() ==> !maps(
                    #[trigger] mappings@[k],
                    mapping_path(subpath@),
                    fields(*payload),
                )),
        },
{
    let target = normalize_mapping_path(subpath);
    let mut i: usize = 0;
    while i < mappings.len()
        invariant
            i <= mappings@.len(),
            target@ == mapping_path(subpath@),
            forall|k: int|
                0 <= k < i ==> !maps(
                    #[trigger] mappings@[k],
                    mapping_path(subpath@),
                    fields(*payload),
                ),
        decreases mappings@.len() - i,
    {
        if mapping_matches(&mappings[i], target.as_str(), payload) {
            return Some(i);
        }
        i = i + 1;
    }
    None
}

/// A text of a mapping: its template filled where it has one, and else as it stands.
pub open spec fn mapped(
    template: Option<Seq<char>>,
    plain: Option<Seq<char>>,
    context: ContextModel,
) -> Option<Seq<char>> {
    match kept_opt(template) {
        Some(t) => Some(rendered(t, context)),
        None => plain,
    }
}

fn resolve_mapped(template: &Option<String>, plain: &Option<String>, context: &HookTemplateContext) -> (r:
    Option<String>)
    ensures
        opt_text(r) == mapped(opt_text(*template), opt_text(*plain), context@),
{
    match trim_non_empty_opt(template) {
        Some(t) => Some(render_template(t.as_str(), context)),
        None => copy_text(plain),
    }
}

/// The text that a mapping wakes the gateway with.
pub fn resolve_mapped_text(mapping: &HookMappingConfig, context: &HookTemplateContext) -> (r: Option<
    String,
>)
    ensures
        opt_text(r) == mapped(opt_text(mapping.text_template), opt_text(mapping.text), context@),
{
    resolve_mapped(&mapping.text_template, &mapping.text, context)
}

/// The message that a mapping gives an agent.
pub fn resolve_mapped_message(mapping: &HookMappingConfig, context: &HookTemplateContext) -> (r:
    Option<String>)
    ensures
        opt_text(r) == mapped(
            opt_text(mapping.message_template),
            opt_text(mapping.message),
            context@,
        ),
{
    resolve_mapped(&mapping.message_template, &mapping.message, context)
}

/// What a mapping does with a request.
pub open spec fn mapping_action(mapping: HookMappingConfig, context: ContextModel) -> Result<
    ActionModel,
    Seq<char>,
> {
    match mapping.action {
        HookMappingAction::Wake => match kept_opt(
            mapped(opt_text(mapping.text_template), opt_text(mapping.text), context),
        ) {
            None => Err("hook mapping requires text"@),
            Some(t) => Ok(
                ActionModel::Wake { text: t, mode: wake_mode_of(opt_text(mapping.wake_mode)) },
            ),
        },
        HookMappingAction::Agent => match kept_opt(
            mapped(opt_text(mapping.message_template), opt_text(mapping.message), context),
        ) {
            None => Err("hook mapping requires message"@),
            Some(message) => Ok(
                ActionModel::Agent {
                    message,
                    name: text_or(kept_opt(opt_text(mapping.name)), "Hook"@),
                    agent_id: kept_opt(opt_text(mapping.agent_id)),
                    wake_mode: wake_mode_of(opt_text(mapping.wake_mode)),
                    session_key: kept_opt(opt_text(mapping.session_key)),
                },
            ),
        },
    }
}

/// What a mapping does with a request.
pub fn build_mapping_action(mapping: &HookMappingConfig, context: &HookTemplateContext) -> (r: Result<
    HookResolvedAction,
    String,
>)
    ensures
        match mapping_action(*mapping, context@) {
            Ok(action) => r is Ok && r->Ok_0@ == action,
            Err(message) => r is Err && r->Err_0@ == message,
        },
{
    match mapping.action {
        HookMappingAction::Wake => {
            let body = match trim_non_empty_opt(&resolve_mapped_text(mapping, context)) {
                Some(body) => body,
                None => {
                    return Err("hook mapping requires text".to_owned());
                },
            };
            Ok(
                HookResolvedAction::Wake(
                    HookWakeNormalized {
                        text: body,
                        mode: HookWakeMode::from_raw(&mapping.wake_mode),
                    },
                ),
            )
        },
        HookMappingAction::Agent => {
            let message = match trim_non_empty_opt(&resolve_mapped_message(mapping, context)) {
                Some(message) => message,
                None => {
                    return Err("hook mapping requires message".to_owned());
                },
            };
            let name = match trim_non_empty_opt(&mapping.name) {
                Some(name) => name,
                None => "Hook".to_owned(),
            };
            Ok(
                HookResolvedAction::Agent(
                    HookAgentNormalized {
                        message,
                        name,
                        agent_id: trim_non_empty_opt(&mapping.agent_id),
                        wake_mode: HookWakeMode::from_raw(&mapping.wake_mode),
                        session_key: trim_non_empty_opt(&mapping.session_key),
                    },
                ),
            )
        },
    }
}

/// The mode after a change: the change's where it names one, and else the one before.
pub open spec fn changed_mode(change: Option<Seq<char>>, before: HookWakeMode) -> HookWakeMode {
    if change is Some {
        wake_mode_of(change)
    } else {
        before
    }
}

/// What a hook does after a module's change: the change's values where it has them, and else those
/// of before, which count only while the hook does the same sort of thing.
pub open spec fn merged_action(base: ActionModel, change: HookTransformOverride) -> Result<
    ActionModel,
    Seq<char>,
> {
    let kind = match change.kind {
        Some(kind) => kind,
        None => match base {
            ActionModel::Wake { .. } => HookMappingAction::Wake,
            ActionModel::Agent { .. } => HookMappingAction::Agent,
        },
    };
    match kind {
        HookMappingAction::Wake => {
            let (old_text, old_mode) = match base {
                ActionModel::Wake { text, mode } => (Some(text), mode),
                _ => (None, HookWakeMode::Now),
            };
            match first_of(kept_opt(opt_text(change.text)), old_text) {
                None => Err("hook mapping requires text"@),
                Some(t) => Ok(
                    ActionModel::Wake { text: t, mode: changed_mode(opt_text(change.mode), old_mode) },
                ),
            }
        },
        HookMappingAction::Agent => {
            let (old_message, old_name, old_agent, old_mode, old_key) = match base {
                ActionModel::Agent { message, name, agent_id, wake_mode, session_key } => (
                    Some(message),
                    Some(name),
                    kept_opt(agent_id),
                    wake_mode,
                    kept_opt(session_key),
                ),
                _ => (None, None, None, HookWakeMode::Now, None),
            };
            match first_of(kept_opt(opt_text(change.message)), old_message) {
                None => Err("hook mapping requires message"@),
                Some(message) => Ok(
                    ActionModel::Agent {
                        message,
                        name: text_or(
                            first_of(kept_opt(opt_text(change.name)), old_name),
                            "Hook"@,
                        ),
                        agent_id: first_of(kept_opt(opt_text(change.agent_id)), old_agent),
                        wake_mode: changed_mode(opt_text(change.wake_mode), old_mode),
                        session_key: first_of(kept_opt(opt_text(change.session_key)), old_key),
                    },
                ),
            }
        },
    }
}

fn mode_after(change: &Option<String>, before: HookWakeMode) -> (r: HookWakeMode)
    ensures
        r == changed_mode(opt_text(*change), before),
{
    if change.is_some() {
        HookWakeMode::from_raw(change)
    } else {
        before
    }
}

/// What a hook does after a module's change.
pub fn merge_hook_action(base: HookResolvedAction, change: HookTransformOverride) -> (r: Result<
    HookResolvedAction,
    String,
>)
    ensures
        match merged_action(base@, change) {
            Ok(action) => r is Ok && r->Ok_0@ == action,
            Err(message) => r is Err && r->Err_0@ == message,
        },
{
    let kind = match change.kind {
        Some(kind) => kind,
        None => match &base {
            HookResolvedAction::Wake(_) => HookMappingAction::Wake,
            HookResolvedAction::Agent(_) => HookMappingAction::Agent,
        },
    };
    match kind {
        HookMappingAction::Wake => {
            let (old_text, old_mode) = match base {
                HookResolvedAction::Wake(w) => (Some(w.text), w.mode),
                HookResolvedAction::Agent(_) => (None, HookWakeMode::Now),
            };
            match either(trim_non_empty_opt(&change.text), old_text) {
                None => Err("hook mapping requires text".to_owned()),
                Some(body) => Ok(
                    HookResolvedAction::Wake(
                        HookWakeNormalized { text: body, mode: mode_after(&change.mode, old_mode) },
                    ),
                ),
            }
        },
        HookMappingAction::Agent => {
            let (old_message, old_name, old_agent, old_mode, old_key) = match base {
                HookResolvedAction::Agent(a) => (
                    Some(a.message),
                    Some(a.name),
                    trim_non_empty_opt(&a.agent_id),
                    a.wake_mode,
                    trim_non_empty_opt(&a.session_key),
                ),
                HookResolvedAction::Wake(_) => (None, None, None, HookWakeMode::Now, None),
            };
            let message = match either(trim_non_empty_opt(&change.message), old_message) {
                Some(message) => message,
                None => {
                    return Err("hook mapping requires message".to_owned());
                },
            };
            let name = match either(trim_non_empty_opt(&change.name), old_name) {
                Some(name) => name,
                None => "Hook".to_owned(),
            };
            Ok(
                HookResolvedAction::Agent(
                    HookAgentNormalized {
                        message,
                        name,
                        agent_id: either(trim_non_empty_opt(&change.agent_id), old_agent),
                        wake_mode: mode_after(&change.wake_mode, old_mode),
                        session_key: either(
                            trim_non_empty_opt(&change.session_key),
                            old_key,
                        ),
                    },
                ),
            )
        },
    }
}

// ---------------------------------------------------------------------------------------------
// Requests
// ---------------------------------------------------------------------------------------------
/// The session of what an agent is to do: the one that is asked for, where that is allowed; the
/// configured one; or a new one.
pub open spec fn session_policy(
    allow_request: bool,
    default_key: Option<Seq<char>>,
    requested: Option<Seq<char>>,
    source: HookSessionKeySource,
    id: Seq<char>,
) -> Result<Seq<char>, Seq<char>> {
    match requested {
        Some(key) => if source == HookSessionKeySource::Request && !allow_request {
            Err(HOOKS_SESSION_POLICY_ERROR@)
        } else {
            Ok(key)
        },
        None => Ok(text_or(default_key, "hook:"@ + id)),
    }
}

/// The session of what an agent is to do; a new one has the given id.
pub fn session_key_with(
    config: &RuntimeConfig,
    requested: &Option<String>,
    source: HookSessionKeySource,
    id: &str,
) -> (r: Result<String, String>)
    ensures
        match session_policy(
            config.hooks_allow_request_session_key,
            opt_text(config.hooks_default_session_key),
            opt_text(*requested),
            source,
            id@,
        ) {
            Ok(key) => r is Ok && r->Ok_0@ == key,
            Err(message) => r is Err && r->Err_0@ == message,
        },
{
    if let Some(key) = requested {
        if matches!(source, HookSessionKeySource::Request)
            && !config.hooks_allow_request_session_key {
            return Err(HOOKS_SESSION_POLICY_ERROR.to_owned());
        }
        return Ok(key.clone());
    }
    match &config.hooks_default_session_key {
        Some(key) => Ok(key.clone()),
        None => Ok(cat("hook:", id)),
    }
}

/// The session of what an agent is to do; a new one has a fresh id.
pub fn resolve_session_key_policy(
    config: &RuntimeConfig,
    requested: &Option<String>,
    source: HookSessionKeySource,
) -> (r: Result<String, String>)
    ensures
        exists|id: Seq<char>| #[trigger]
            is_uuid_text(id) && match session_policy(
                config.hooks_allow_request_session_key,
                opt_text(config.hooks_default_session_key),
                opt_text(*requested),
                source,
                id,
            ) {
                Ok(key) => r is Ok && r->Ok_0@ == key,
                Err(message) => r is Err && r->Err_0@ == message,
            },
{
    let id = new_id();
    assert(is_uuid_text(id@));
    session_key_with(config, requested, source, id.as_str())
}

/// The session of a hook with a connection of the given id.
pub fn hook_session(client_id: &str, id: &str) -> (r: SessionContext)
    ensures
        is_http_session(r, client_id@ + "-"@ + id@, client_id@, "hooks-http"@),
{
    let conn = cat3(client_id, "-", id);
    http_session(conn.as_str(), client_id, "hooks-http")
}

/// The headers of a request by their names in small letters; a later one wins over an earlier.
pub open spec fn header_fields(headers: Seq<(String, String)>) -> Map<Seq<char>, JsonModel>
    decreases headers.len(),
{
    if headers.len() == 0 {
        no_fields()
    } else {
        header_fields(headers.drop_last()).insert(
            lowered(headers.last().0@),
            JsonModel::Text(headers.last().1@),
        )
    }
}

/// The headers of a request by their names in small letters.
pub fn normalize_hook_headers(headers: &Vec<(String, String)>) -> (r: SortedMap<Json>)
    ensures
        fields(r) == header_fields(headers@),
{
    let mut o = object();
    let mut i: usize = 0;
    while i < headers.len()
        invariant
            i <= headers@.len(),
            fields(o) == header_fields(headers@.take(i as int)),
        decreases headers@.len() - i,
    {
        let pair = &headers[i];
        set_field(&mut o, to_lower(pair.0.as_str()).as_str(), text(pair.1.as_str()));
        i = i + 1;
        proof {
            let t = headers@.take(i as int);
            assert(t.drop_last() =~= headers@.take(i - 1));
            assert(t.last() == headers@[i - 1]);
        }
    }
    assert(headers@.take(i as int) =~= headers@);
    o
}

/// The name in a pair of a query: what stands before the first equals sign.
pub open spec fn pair_name(pair: Seq<char>) -> Seq<char> {
    pair.take(find(pair, '='))
}

/// The value in a pair of a query: what stands behind the first equals sign.
pub open spec fn pair_value(pair: Seq<char>) -> Seq<char> {
    if find(pair, '=') < pair.len() {
        pair.skip(find(pair, '=') + 1)
    } else {
        Seq::empty()
    }
}

/// The values of a query by their names; a later one wins over an earlier, and blank names are
/// left out.
pub open spec fn query_fields(pairs: Seq<Seq<char>>) -> Map<Seq<char>, JsonModel>
    decreases pairs.len(),
{
    if pairs.len() == 0 {
        no_fields()
    } else {
        let earlier = query_fields(pairs.drop_last());
        match kept(pair_name(pairs.last())) {
            Some(name) => earlier.insert(
                name,
                JsonModel::Text(trimmed(pair_value(pairs.last()))),
            ),
            None => earlier,
        }
    }
}

/// The values of a query by their names.
pub fn parse_query_values(query: Option<&str>) -> (r: SortedMap<Json>)
    ensures
        fields(r) == match query {
            Some(q) => query_fields(split(q@, '&')),
            None => no_fields(),
        },
{
    let mut o = object();
    let query = match query {
        Some(query) => query,
        None => {
            return o;
        },
    };
    let pairs = split_at_char(query, '&');
    let mut i: usize = 0;
    while i < pairs.len()
        invariant
            i <= pairs@.len(),
            fields(o) == query_fields(texts(pairs@).take(i as int)),
        decreases pairs@.len() - i,
    {
        let chars = to_chars(pairs[i].as_str());
        let at: usize = find_from(&chars, 0, '=');
        let name = from_range(&chars, 0, at);
        let value = if at < chars.len() {
            from_range(&chars, at + 1, chars.len())
        } else {
            String::new()
        };
        proof {
            assert(chars@.skip(0) =~= chars@);
            assert(name@ =~= pair_name(pairs@[i as int]@));
            assert(value@ =~= pair_value(pairs@[i as int]@));
            let t = texts(pairs@).take(i + 1);
            assert(t.drop_last() =~= texts(pairs@).take(i as int));
            assert(t.last() == pairs@[i as int]@);
        }
        if let Some(name) = trim_non_empty(name.as_str()) {
            set_field(&mut o, name.as_str(), text(trim(value.as_str()).as_str()));
        }
        i = i + 1;
    }
    assert(texts(pairs@).take(i as int) =~= texts(pairs@));
    o
}

/// A query names a token.
pub open spec fn names_token(query: Option<Seq<char>>) -> bool {
    query is Some && exists|i: int|
        0 <= i < split(query->0, '&').len() && lowered(
            pair_name(#[trigger] split(query->0, '&')[i]),
        ) == lowered("token"@)
}

/// Whether a query names a token.
pub fn has_token_query(query: Option<&str>) -> (r: bool)
    ensures
        r == names_token(header_text(query)),
{
    let q = match query {
        Some(q) => q,
        None => {
            return false;
        },
    };
    let pairs = split_at_char(q, '&');
    let mut i: usize = 0;
    while i < pairs.len()
        invariant
            i <= pairs@.len(),
            header_text(query) == Some(q@),
            texts(pairs@) == split(q@, '&'),
            forall|k: int|
                0 <= k < i ==> lowered(pair_name(#[trigger] split(q@, '&')[k])) != lowered(
                    "token"@,
                ),
        decreases pairs@.len() - i,
    {
        let chars = to_chars(pairs[i].as_str());
        let at: usize = find_from(&chars, 0, '=');
        let name = from_range(&chars, 0, at);
        proof {
            assert(chars@.skip(0) =~= chars@);
            assert(split(q@, '&').len() == pairs@.len());
            assert(split(q@, '&')[i as int] == pairs@[i as int]@);
            assert(name@ =~= pair_name(pairs@[i as int]@));
        }
        if same_ignoring_case(name.as_str(), "token") {
            assert(lowered(pair_name(split(q@, '&')[i as int])) == lowered("token"@));
            assert(header_text(query)->0 == q@);
            return true;
        }
        i = i + 1;
    }
    assert(split(q@, '&').len() == pairs@.len());
    false
}

/// The token that a request presents: behind `Bearer ` or `bearer `, or in a header of its own.
pub open spec fn hook_token(authorization: Option<Seq<char>>, header: Option<Seq<char>>) -> Option<
    Seq<char>,
> {
    let behind = match authorization {
        None => None,
        Some(a) => first_of(after_prefix(a, "Bearer "@), after_prefix(a, "bearer "@)),
    };
    first_of(kept_opt(behind), kept_opt(header))
}

/// The token that a request presents.
pub fn extract_hook_token(authorization: Option<&str>, header: Option<&str>) -> (r: Option<String>)
    ensures
        opt_text(r) == hook_token(header_text(authorization), header_text(header)),
{
    if let Some(a) = authorization {
        let behind = match strip_prefix(a, "Bearer ") {
            Some(token) => Some(token),
            None => strip_prefix(a, "bearer "),
        };
        if let Some(token) = trim_non_empty_opt(&behind) {
            return Some(token);
        }
    }
    match header {
        Some(h) => trim_non_empty(h),
        None => None,
    }
}

/// Whether the token that was found is the expected one.
pub fn token_matches(found: &Option<String>, expected: &str) -> (r: bool)
    ensures
        r == (opt_text(*found) == Some(expected@)),
{
    match found {
        Some(token) => same_secret(token.as_str(), expected),
        None => false,
    }
}

/// The key under which the failed tries of an address are counted.
pub open spec fn hook_limit_key(ip: Seq<char>) -> Seq<char> {
    "hooks-auth:"@ + ip
}

/// What comes of a request before its body is read.
pub open spec fn admission(
    is_post: bool,
    query: Option<Seq<char>>,
    expected: Option<Seq<char>>,
    presented: Option<Seq<char>>,
    locked: bool,
) -> Option<(u16, JsonModel)> {
    if !is_post {
        Some((405, refusal_body("METHOD_NOT_ALLOWED"@, "method not allowed"@)))
    } else if names_token(query) {
        Some((400, refusal_body("INVALID_REQUEST"@, HOOKS_QUERY_TOKEN_ERROR@)))
    } else if expected is None {
        Some((503, refusal_body("UNAVAILABLE"@, "hooks token is not configured"@)))
    } else if presented != expected {
        if locked {
            Some(
                (429, refusal_body("RATE_LIMITED"@, "too many failed authentication attempts"@)),
            )
        } else {
            Some((401, refusal_body("UNAUTHORIZED"@, "unauthorized"@)))
        }
    } else {
        None
    }
}

/// Whether a request is let in before its body is read, and the refusal where it is not. Failed
/// tries of an address are counted, and forgotten on success.
pub fn admit_request(
    is_post: bool,
    query: Option<&str>,
    expected: &Option<String>,
    authorization: Option<&str>,
    header: Option<&str>,
    ip: &str,
    limiter: &mut AuthRateLimiter,
    now: u64,
) -> (r: Result<(), HttpReply>)
    ensures
        ({
            let presented = hook_token(header_text(authorization), header_text(header));
            let key = hook_limit_key(ip@);
            let counted = after_failure(old(limiter).stamps(key), now, old(limiter).window());
            let locked = counted.len() > old(limiter).limit();
            let asked = is_post && !names_token(header_text(query)) && expected is Some;
            &&& match admission(
                is_post,
                header_text(query),
                opt_text(*expected),
                presented,
                locked,
            ) {
                None => r is Ok,
                Some((status, body)) => r is Err && r->Err_0.says(status, body),
            }
            &&& !asked ==> *final(limiter) == *old(limiter)
            &&& asked ==> final(limiter).stamps(key) == (if presented == opt_text(*expected) {
                Seq::empty()
            } else {
                counted
            })
            &&& forall|other: Seq<char>|
                other != key ==> #[trigger] final(limiter).stamps(other) == old(limiter).stamps(
                    other,
                )
        }),
        final(limiter).limit() == old(limiter).limit(),
        final(limiter).window() == old(limiter).window(),
{
    if !is_post {
        return Err(error_response(405, "METHOD_NOT_ALLOWED", "method not allowed"));
    }
    if has_token_query(query) {
        return Err(error_response(400, "INVALID_REQUEST", HOOKS_QUERY_TOKEN_ERROR));
    }
    let expected = match expected {
        Some(expected) => expected,
        None => {
            return Err(error_response(503, "UNAVAILABLE", "hooks token is not configured"));
        },
    };
    let presented = extract_hook_token(authorization, header);
    let key = cat("hooks-auth:", ip);
    if !token_matches(&presented, expected.as_str()) {
        let decision = limiter.record_failure(key.as_str(), now);
        if !decision.allowed {
            return Err(
                error_response(
                    429,
                    "RATE_LIMITED",
                    "too many failed authentication attempts",
                ),
            );
        }
        return Err(error_response(401, "UNAUTHORIZED", "unauthorized"));
    }
    limiter.reset(key.as_str());
    Ok(())
}

/// What a request is for.
pub enum HookRoute {
    /// To wake the gateway.
    Wake(HookWakeNormalized),
    /// To give an agent something to do, in these words.
    Agent(SortedMap<Json>),
    /// For the mapping of that place.
    Mapping(usize, SortedMap<Json>),
}

/// The body of a request as an object: an empty one where there is no body or it is none.
pub open spec fn body_fields(body: Seq<u8>) -> Result<Map<Seq<char>, JsonModel>, Seq<char>> {
    if body.len() == 0 {
        Ok(no_fields())
    } else {
        match bytes_read(body) {
            Err(error) => Err("invalid JSON payload: "@ + error),
            Ok(value) => Ok(
                match model_of(value) {
                    JsonModel::Object(m) => m,
                    _ => no_fields(),
                },
            ),
        }
    }
}

/// The body of a request as an object.
pub fn read_body(body: &[u8]) -> (r: Result<SortedMap<Json>, String>)
    ensures
        match body_fields(body@) {
            Ok(m) => r is Ok && fields(r->Ok_0) == m,
            Err(message) => r is Err && r->Err_0@ == message,
        },
{
    if body.len() == 0 {
        return Ok(object());
    }
    match Json::read(body) {
        Err(error) => Err(cat("invalid JSON payload: ", error.as_str())),
        Ok(Json::Object(o)) => Ok(o),
        Ok(_) => Ok(object()),
    }
}

/// What comes of a request whose body is an object.
pub open spec fn routes(
    r: Result<HookRoute, HttpReply>,
    payload: Map<Seq<char>, JsonModel>,
    subpath: Seq<char>,
    mappings: Seq<HookMappingConfig>,
) -> bool {
    let path = trimmed_of(subpath, '/');
    if path.len() == 0 {
        r is Err && r->Err_0.says(404, refusal_body("NOT_FOUND"@, "not found"@))
    } else if path == "wake"@ {
        match wake_request(payload) {
            Err(message) => r is Err && r->Err_0.says(
                400,
                refusal_body("INVALID_REQUEST"@, message),
            ),
            Ok(action) => r matches Ok(HookRoute::Wake(w)) && wake_model(w) == action,
        }
    } else if path == "agent"@ {
        r matches Ok(HookRoute::Agent(p)) && fields(p) == payload
    } else {
        match r {
            Ok(HookRoute::Mapping(i, p)) => {
                &&& fields(p) == payload
                &&& i < mappings.len()
                &&& maps(mappings[i as int], mapping_path(path), payload)
                &&& forall|k: int|
                    0 <= k < i ==> !maps(#[trigger] mappings[k], mapping_path(path), payload)
            },
            Ok(_) => false,
            Err(reply) => {
                &&& reply.says(404, refusal_body("NOT_FOUND"@, "not found"@))
                &&& forall|k: int|
                    0 <= k < mappings.len() ==> !maps(
                        #[trigger] mappings[k],
                        mapping_path(path),
                        payload,
                    )
            },
        }
    }
}

/// What a request is for, from its body, or the answer where it is for nothing. There is no body
/// where it was too long.
pub fn handle_request(body: Option<&[u8]>, subpath: &str, mappings: &Vec<HookMappingConfig>) -> (r:
    Result<HookRoute, HttpReply>)
    ensures
        match body {
            None => r is Err && r->Err_0.says(
                413,
                refusal_body("PAYLOAD_TOO_LARGE"@, "payload too large"@),
            ),
            Some(bytes) => match body_fields(bytes@) {
                Err(message) => r is Err && r->Err_0.says(
                    400,
                    refusal_body("INVALID_REQUEST"@, message),
                ),
                Ok(payload) => routes(r, payload, subpath@, mappings@),
            },
        },
{
    let bytes = match body {
        Some(bytes) => bytes,
        None => {
            return Err(error_response(413, "PAYLOAD_TOO_LARGE", "payload too large"));
        },
    };
    let payload = match read_body(bytes) {
        Ok(payload) => payload,
        Err(message) => {
            return Err(error_response(400, "INVALID_REQUEST", message.as_str()));
        },
    };
    let path = trim_char(subpath, '/');
    if path.as_str().is_empty() {
        return Err(error_response(404, "NOT_FOUND", "not found"));
    }
    if same(path.as_str(), "wake") {
        return match normalize_wake_payload(&payload) {
            Ok(wake) => Ok(HookRoute::Wake(wake)),
            Err(message) => Err(error_response(400, "INVALID_REQUEST", message.as_str())),
        };
    }
    if same(path.as_str(), "agent") {
        return Ok(HookRoute::Agent(payload));
    }
    match resolve_mapping(mappings, path.as_str(), &payload) {
        Some(i) => Ok(HookRoute::Mapping(i, payload)),
        None => Err(error_response(404, "NOT_FOUND", "not found")),
    }
}

// ---------------------------------------------------------------------------------------------
// Dispatch
// ---------------------------------------------------------------------------------------------
/// What is done to wake the gateway: what is stored, whether it wakes at once, under which key it
/// is left for the next heartbeat where not, and what is answered.
pub struct WakePlan {
    pub entry: Json,
    pub wake_reason: Option<&'static str>,
    pub pending_key: Option<String>,
    pub reply: HttpReply,
}

/// What is stored of a request to wake the gateway.
pub open spec fn wake_entry(body: Seq<char>, mode: HookWakeMode, now: u64) -> JsonModel {
    JsonModel::Object(
        no_fields().insert("ts"@, JsonModel::Unsigned(now)).insert(
            "text"@,
            JsonModel::Text(body),
        ).insert("mode"@, JsonModel::Text(mode.name())),
    )
}

/// What is done to wake the gateway.
pub fn dispatch_wake(wake: &HookWakeNormalized, now: u64, id: &str) -> (r: WakePlan)
    ensures
        r.entry@ == wake_entry(wake.text@, wake.mode, now),
        match r.wake_reason {
            Some(reason) => wake.mode == HookWakeMode::Now && reason@ == "hook:wake"@,
            None => wake.mode == HookWakeMode::NextHeartbeat,
        },
        opt_text(r.pending_key) == (if wake.mode == HookWakeMode::Now {
            None
        } else {
            Some("hooks/pending-wake/"@ + id@)
        }),
        r.reply.says(
            200,
            JsonModel::Object(
                no_fields().insert("ok"@, JsonModel::Bool(true)).insert(
                    "mode"@,
                    JsonModel::Text(wake.mode.name()),
                ),
            ),
        ),
{
    let mut entry = object();
    set_field(&mut entry, "ts", Json::Unsigned(now));
    set_field(&mut entry, "text", text(wake.text.as_str()));
    set_field(&mut entry, "mode", text(wake.mode.as_str()));
    let mut body = object();
    set_field(&mut body, "ok", Json::Bool(true));
    set_field(&mut body, "mode", text(wake.mode.as_str()));
    let reply = HttpReply { status: 200, body: Json::Object(body) };
    match wake.mode {
        HookWakeMode::Now => WakePlan {
            entry: Json::Object(entry),
            wake_reason: Some("hook:wake"),
            pending_key: None,
            reply,
        },
        HookWakeMode::NextHeartbeat => WakePlan {
            entry: Json::Object(entry),
            wake_reason: None,
            pending_key: Some(cat("hooks/pending-wake/", id)),
            reply,
        },
    }
}

/// What is done to give an agent something to do: whether the gateway wakes first, and what the
/// agent is asked.
pub struct AgentPlan {
    pub wake_reason: Option<&'static str>,
    pub session_key: String,
    pub agent_id: String,
    pub params: Json,
}

/// What an agent is asked.
pub open spec fn agent_params(
    message: Seq<char>,
    name: Seq<char>,
    agent_id: Seq<char>,
    session_key: Seq<char>,
    id: Seq<char>,
) -> JsonModel {
    JsonModel::Object(
        no_fields().insert("message"@, JsonModel::Text(message)).insert(
            "name"@,
            JsonModel::Text(name),
        ).insert("agentId"@, JsonModel::Text(agent_id)).insert(
            "sessionKey"@,
            JsonModel::Text(session_key),
        ).insert("idempotencyKey"@, JsonModel::Text("hook-agent-"@ + id)),
    )
}

/// What is done to give an agent something to do, or the answer where its session is not allowed.
pub fn dispatch_agent(
    config: &RuntimeConfig,
    agent: &HookAgentNormalized,
    source: HookSessionKeySource,
    session_id: &str,
    run_id: &str,
) -> (r: Result<AgentPlan, HttpReply>)
    ensures
        match session_policy(
            config.hooks_allow_request_session_key,
            opt_text(config.hooks_default_session_key),
            opt_text(agent.session_key),
            source,
            session_id@,
        ) {
            Err(message) => r is Err && r->Err_0.says(
                400,
                refusal_body("INVALID_REQUEST"@, message),
            ),
            Ok(key) => {
                let agent_id = text_or(opt_text(agent.agent_id), config.hooks_default_agent_id@);
                &&& r is Ok
                &&& r->Ok_0.session_key@ == key
                &&& r->Ok_0.agent_id@ == agent_id
                &&& match r->Ok_0.wake_reason {
                    Some(reason) => agent.wake_mode == HookWakeMode::Now && reason@
                        == "hook:agent"@,
                    None => agent.wake_mode == HookWakeMode::NextHeartbeat,
                }
                &&& r->Ok_0.params@ == agent_params(
                    agent.message@,
                    agent.name@,
                    agent_id,
                    key,
                    run_id@,
                )
            },
        },
{
    let session_key = match session_key_with(config, &agent.session_key, source, session_id) {
        Ok(key) => key,
        Err(message) => {
            return Err(error_response(400, "INVALID_REQUEST", message.as_str()));
        },
    };
    let agent_id = match &agent.agent_id {
        Some(id) => id.clone(),
        None => config.hooks_default_agent_id.clone(),
    };
    let mut params = object();
    set_field(&mut params, "message", text(agent.message.as_str()));
    set_field(&mut params, "name", text(agent.name.as_str()));
    set_field(&mut params, "agentId", text(agent_id.as_str()));
    set_field(&mut params, "sessionKey", text(session_key.as_str()));
    set_field(&mut params, "idempotencyKey", text(cat("hook-agent-", run_id).as_str()));
    let wake_reason = match agent.wake_mode {
        HookWakeMode::Now => Some("hook:agent"),
        HookWakeMode::NextHeartbeat => None,
    };
    Ok(AgentPlan { wake_reason, session_key, agent_id, params: Json::Object(params) })
}

/// What is answered once an agent was given something to do.
pub fn agent_accepted(plan: &AgentPlan, response: &Json) -> (r: HttpReply)
    ensures
        r.says(
            202,
            JsonModel::Object(
                no_fields().insert("ok"@, JsonModel::Bool(true)).insert(
                    "runId"@,
                    JsonModel::Text(text_or(text_of(member(response@, "runId"@)), ""@)),
                ).insert("sessionKey"@, JsonModel::Text(plan.session_key@)).insert(
                    "agentId"@,
                    JsonModel::Text(plan.agent_id@),
                ),
            ),
        ),
{
    let run_id = match response.get_text("runId") {
        Some(id) => id,
        None => "".to_owned(),
    };
    let mut body = object();
    set_field(&mut body, "ok", Json::Bool(true));
    set_field(&mut body, "runId", text(run_id.as_str()));
    set_field(&mut body, "sessionKey", text(plan.session_key.as_str()));
    set_field(&mut body, "agentId", text(plan.agent_id.as_str()));
    HttpReply { status: 202, body: Json::Object(body) }
}

/// What a mapping does in the end. Without a module that is what the mapping says; with one, the
/// change that the module names is made, and nothing is done where it says so.
pub fn apply_mapping_transform_if_configured(
    base: HookResolvedAction,
    asked: Option<Result<Option<HookTransformOverride>, String>>,
) -> (r: Result<Option<HookResolvedAction>, String>)
    ensures
        match asked {
            None => r is Ok && r->Ok_0 is Some && r->Ok_0->0@ == base@,
            Some(Err(message)) => r is Err && r->Err_0@ == message@,
            Some(Ok(None)) => r is Ok && r->Ok_0 is None,
            Some(Ok(Some(change))) => match merged_action(base@, change) {
                Ok(action) => r is Ok && r->Ok_0 is Some && r->Ok_0->0@ == action,
                Err(message) => r is Err && r->Err_0@ == message,
            },
        },
{
    match asked {
        None => Ok(Some(base)),
        Some(Err(message)) => Err(message),
        Some(Ok(None)) => Ok(None),
        Some(Ok(Some(change))) => match merge_hook_action(base, change) {
            Ok(action) => Ok(Some(action)),
            Err(message) => Err(message),
        },
    }
}

/// What is answered where a mapping's module says that nothing is to be done.
pub fn skipped_reply() -> (r: HttpReply)
    ensures
        r.says(
            200,
            JsonModel::Object(
                no_fields().insert("ok"@, JsonModel::Bool(true)).insert(
                    "skipped"@,
                    JsonModel::Bool(true),
                ),
            ),
        ),
{
    let mut body = object();
    set_field(&mut body, "ok", Json::Bool(true));
    set_field(&mut body, "skipped", Json::Bool(true));
    HttpReply { status: 200, body: Json::Object(body) }
}

// ---------------------------------------------------------------------------------------------
// Laws
// ---------------------------------------------------------------------------------------------
/// A change that names nothing leaves a request to wake the gateway as it is.
pub proof fn law_empty_change_keeps_a_wake(body: Seq<char>, mode: HookWakeMode, change: HookTransformOverride)
    requires
        change.kind is None,
        change.text is None,
        change.mode is None,
    ensures
        merged_action(ActionModel::Wake { text: body, mode }, change) == Ok::<ActionModel, Seq<char>>(
            ActionModel::Wake { text: body, mode },
        ),
{
}

/// A change that names nothing leaves what a mapping gives an agent as it is.
pub proof fn law_empty_change_keeps_an_agent(
    mapping: HookMappingConfig,
    context: ContextModel,
    change: HookTransformOverride,
)
    requires
        mapping.action == HookMappingAction::Agent,
        mapping_action(mapping, context) is Ok,
        change.kind is None,
        change.message is None,
        change.name is None,
        change.agent_id is None,
        change.wake_mode is None,
        change.session_key is None,
    ensures
        merged_action(mapping_action(mapping, context)->Ok_0, change) == mapping_action(
            mapping,
            context,
        ),
{
    if mapping.agent_id is Some {
        crate::text::law_trim_is_idempotent(mapping.agent_id->0@);
    }
    if mapping.session_key is Some {
        crate::text::law_trim_is_idempotent(mapping.session_key->0@);
    }
}

/// No request chooses its own session unless that is switched on.
pub proof fn law_requests_choose_no_session(default_key: Option<Seq<char>>, key: Seq<char>, id: Seq<char>)
    ensures
        session_policy(false, default_key, Some(key), HookSessionKeySource::Request, id) is Err,
{
}

/// A request that names a token in its query is refused whatever token it presents.
pub proof fn law_query_tokens_are_refused(
    query: Option<Seq<char>>,
    expected: Option<Seq<char>>,
    presented: Option<Seq<char>>,
    locked: bool,
)
    requires
        names_token(query),
    ensures
        admission(true, query, expected, presented, locked) == Some(
            (400u16, refusal_body("INVALID_REQUEST"@, HOOKS_QUERY_TOKEN_ERROR@)),
        ),
{
}

proof fn lemma_not_blank_fixed(parts: Seq<Seq<char>>)
    requires
        forall|i: int| 0 <= i < parts.len() ==> kept(#[trigger] parts[i]) is Some,
    ensures
        not_blank(parts) == parts,
    decreases parts.len(),
{
    if parts.len() > 0 {
        lemma_not_blank_fixed(parts.drop_last());
        assert(kept(parts[parts.len() - 1]) is Some);
        assert(parts.drop_last().push(parts.last()) =~= parts);
    }
}

proof fn lemma_not_blank_shape(parts: Seq<Seq<char>>)
    requires
        forall|i: int| #![trigger parts[i]] 0 <= i < parts.len() ==> !parts[i].contains('/'),
    ensures
        forall|i: int|
            #![trigger not_blank(parts)[i]]
            0 <= i < not_blank(parts).len() ==> kept(not_blank(parts)[i]) is Some && !not_blank(
                parts,
            )[i].contains('/'),
    decreases parts.len(),
{
    if parts.len() > 0 {
        let shorter = parts.drop_last();
        assert forall|i: int| #![trigger shorter[i]] 0 <= i < shorter.len() implies !shorter[i].contains('/') by {
            assert(shorter[i] == parts[i]);
        }
        lemma_not_blank_shape(shorter);
        assert(!parts[parts.len() - 1].contains('/'));
    }
}

/// A normalized path that neither begins nor ends in white space is normalized to itself.
pub proof fn law_mapping_path_is_stable(path: Seq<char>)
    requires
        mapping_path(path).len() > 0 ==> !is_white_space(mapping_path(path)[0]) && !is_white_space(
            mapping_path(path).last(),
        ),
    ensures
        mapping_path(mapping_path(path)) == mapping_path(path),
{
    let p = mapping_path(path);
    let raw = split(trimmed_of(trimmed(path), '/'), '/');
    crate::paths::lemma_split_has_no_separator(trimmed_of(trimmed(path), '/'), '/');
    lemma_not_blank_shape(raw);
    let parts = not_blank(raw);
    lemma_trim_both_fixed(p, |c: char| is_white_space(c));
    if parts.len() == 0 {
        assert(p =~= Seq::<char>::empty());
        lemma_trim_both_fixed(p, equals('/'));
        crate::text::lemma_find(p, '/');
        assert(split(p, '/') =~= seq![p]);
        let one = seq![p];
        assert(one.drop_last() =~= Seq::<Seq<char>>::empty());
        assert(not_blank(one.drop_last()) =~= one.drop_last());
        assert(one.last() == p);
        assert(trimmed(p) == p);
        assert(not_blank(one) =~= Seq::<Seq<char>>::empty());
    } else {
        crate::paths::lemma_joined_ends(parts);
        lemma_trim_both_fixed(p, equals('/'));
        crate::paths::lemma_split_joined(parts);
        lemma_not_blank_fixed(parts);
    }
}

/// A wake is taken exactly where its text says something. It wakes with that text, at the next
/// heartbeat where the mode asks for it and at once everywhere else.
pub proof fn law_wakes(payload: &SortedMap<Json>, r: Result<HookWakeNormalized, String>)
    requires
        call_ensures(normalize_wake_payload, (payload,), r),
    ensures
        ({
            let body = JsonModel::Object(fields(*payload));
            &&& r is Ok <==> says(body, "text"@)
            &&& r is Ok ==> r->Ok_0.text@ == trimmed(said(body, "text"@))
            &&& r is Ok ==> (r->Ok_0.mode == HookWakeMode::NextHeartbeat <==> member(
                body,
                "mode"@,
            ) is Some && member(body, "mode"@)->0 is Text && trimmed(said(body, "mode"@))
                == "next-heartbeat"@)
        }),
{
    lemma_said(JsonModel::Object(fields(*payload)), "text"@);
    if text_of(field(fields(*payload), "text"@)) is Some {
        lemma_kept(text_of(field(fields(*payload), "text"@))->0);
    }
}

/// Work for an agent is taken exactly where its message says something and no blank model is asked
/// for. The agent gets that message; a name that is not given is `Hook`.
pub proof fn law_agent_work(payload: HookAgentPayload, r: Result<HookAgentNormalized, String>)
    requires
        call_ensures(normalize_agent_payload, (Ok::<HookAgentPayload, String>(payload),), r),
    ensures
        r is Ok <==> is_said(payload.message) && (payload.model is Some ==> is_said(payload.model)),
        r is Ok ==> {
            &&& r->Ok_0.message@ == trimmed(payload.message->0@)
            &&& r->Ok_0.name@ == (if is_said(payload.name) {
                trimmed(payload.name->0@)
            } else {
                "Hook"@
            })
            &&& r->Ok_0.agent_id is Some <==> is_said(payload.agent_id)
            &&& is_said(payload.agent_id) ==> r->Ok_0.agent_id->0@ == trimmed(payload.agent_id->0@)
            &&& r->Ok_0.session_key is Some <==> is_said(payload.session_key)
            &&& is_said(payload.session_key) ==> r->Ok_0.session_key->0@ == trimmed(
                payload.session_key->0@,
            )
            &&& r->Ok_0.wake_mode == HookWakeMode::NextHeartbeat <==> asks_for_heartbeat(
                payload.wake_mode,
            )
        },
{
    lemma_is_said(payload.message);
    lemma_is_said(payload.model);
    lemma_is_said(payload.name);
    lemma_is_said(payload.agent_id);
    lemma_is_said(payload.session_key);
}

/// Whether a text is given that has more than white space in it.
pub open spec fn is_said(value: Option<String>) -> bool {
    value is Some && crate::text::not_blank(value->0@)
}

/// Whether a mode asks to wait for the next heartbeat.
pub open spec fn asks_for_heartbeat(mode: Option<String>) -> bool {
    mode is Some && trimmed(mode->0@) == "next-heartbeat"@
}

proof fn lemma_is_said(value: Option<String>)
    ensures
        is_said(value) <==> kept_opt(opt_text(value)) is Some,
        is_said(value) ==> kept_opt(opt_text(value)) == Some(trimmed(value->0@)),
        is_said(value) ==> is_said(value) && kept(value->0@) == Some(trimmed(value->0@)),
        value is Some && !is_said(value) ==> kept(value->0@) is None,
{
    if value is Some {
        lemma_kept(value->0@);
    }
}

/// Names with slashes between them are a path as they stand, whatever slashes stand around them.
pub proof fn law_mapping_paths(
    path: &str,
    before: Seq<char>,
    parts: Seq<Seq<char>>,
    after: Seq<char>,
    r: String,
)
    requires
        call_ensures(normalize_mapping_path, (path,), r),
        path@ == before + joined(parts, "/"@) + after,
        forall|k: int| 0 <= k < before.len() ==> #[trigger] before[k] == '/',
        forall|k: int| 0 <= k < after.len() ==> #[trigger] after[k] == '/',
        parts.len() > 0,
        forall|i: int|
            0 <= i < parts.len() ==> (#[trigger] parts[i]).len() > 0 && !parts[i].contains('/')
                && crate::text::not_blank(parts[i]),
        !is_white_space(parts[0][0]) && !is_white_space(parts.last().last()),
    ensures
        r@ == joined(parts, "/"@),
{
    reveal_strlit("/");
    assert("/"@ =~= seq!['/']);
    let s = joined(parts, "/"@);
    lemma_joined_ends(parts);
    assert(parts[0].contains(parts[0][0]));
    assert(parts.last() == parts[parts.len() - 1]);
    assert(parts.last().contains(parts.last()[parts.last().len() - 1]));
    law_trim_between(before, s, after, equals('/'));
    let w = |c: char| is_white_space(c);
    assert(!is_white_space('/'));
    assert(path@[0] == (if before.len() > 0 {
        before[0]
    } else {
        s[0]
    }));
    assert(path@.last() == (if after.len() > 0 {
        after.last()
    } else {
        s.last()
    }));
    lemma_trim_both_fixed(path@, w);
    law_joined_parts_are_split_again(parts, '/');
    assert forall|i: int| 0 <= i < parts.len() implies kept(#[trigger] parts[i]) is Some by {
        lemma_kept(parts[i]);
    }
    lemma_not_blank_fixed(parts);
}

/// What was joined begins as the first part does and ends as the last one does.
proof fn lemma_joined_ends(parts: Seq<Seq<char>>)
    requires
        parts.len() > 0,
        forall|i: int| 0 <= i < parts.len() ==> (#[trigger] parts[i]).len() > 0,
    ensures
        joined(parts, "/"@).len() > 0,
        joined(parts, "/"@)[0] == parts[0][0],
        joined(parts, "/"@).last() == parts.last().last(),
    decreases parts.len(),
{
    assert(parts[parts.len() - 1].len() > 0);
    if parts.len() == 1 {
        assert(joined(parts, "/"@) =~= parts[0]);
    } else {
        let earlier = parts.drop_last();
        assert forall|i: int| 0 <= i < earlier.len() implies (#[trigger] earlier[i]).len() > 0 by {
            assert(earlier[i] == parts[i]);
        }
        lemma_joined_ends(earlier);
        assert(joined(parts, "/"@) =~= joined(earlier, "/"@) + "/"@ + parts.last());
    }
}

/// A mapping answers exactly the requests to its path that come from its source, where it names
/// one. The path of its rule counts where it names none itself, and a mapping without a path
/// answers none.
pub proof fn law_what_a_mapping_answers(
    mapping: &HookMappingConfig,
    target: &str,
    payload: &SortedMap<Json>,
    own: &str,
    path: String,
    r: bool,
)
    requires
        call_ensures(mapping_matches, (mapping, target, payload), r),
        call_ensures(normalize_mapping_path, (own,), path),
        crate::text::not_blank(mapping.path@) ==> own@ == trimmed(mapping.path@),
        !crate::text::not_blank(mapping.path@) && mapping.rule is Some && is_said(mapping.rule->0.path)
            ==> own@ == trimmed(mapping.rule->0.path->0@),
    ensures
        ({
            let placed = crate::text::not_blank(mapping.path@) || (mapping.rule is Some && is_said(
                mapping.rule->0.path,
            ));
            let source = if is_said(mapping.match_source) {
                mapping.match_source
            } else if mapping.rule is Some {
                mapping.rule->0.source
            } else {
                None
            };
            let body = JsonModel::Object(fields(*payload));
            r <==> placed && path@ == target@ && (is_said(source) ==> member(body, "source"@) is Some
                && member(body, "source"@)->0 is Text && trimmed(said(body, "source"@)) == trimmed(
                source->0@,
            ))
        }),
{
    lemma_kept(mapping.path@);
    lemma_is_said(mapping.match_source);
    if mapping.rule is Some {
        lemma_is_said(mapping.rule->0.path);
        lemma_is_said(mapping.rule->0.source);
    }
}

/// The mapping that is chosen is the first of those that answer the request, and none is chosen
/// only where none answers.
pub proof fn law_the_first_mapping_answers(
    mappings: &Vec<HookMappingConfig>,
    subpath: &str,
    target: &str,
    path: String,
    payload: &SortedMap<Json>,
    k: int,
    b: bool,
    r: Option<usize>,
)
    requires
        call_ensures(resolve_mapping, (mappings, subpath, payload), r),
        call_ensures(normalize_mapping_path, (subpath,), path),
        target@ == path@,
        0 <= k < mappings@.len(),
        call_ensures(mapping_matches, (&mappings@[k], target, payload), b),
    ensures
        r is Some ==> r->0 < mappings@.len(),
        r is Some && k == r->0 ==> b,
        b ==> r is Some && r->0 <= k,
{
    let all = mappings@;
    assert(b == maps(all[k], mapping_path(subpath@), fields(*payload)));
}

/// A mapping that wakes does so with what its template gives or, without a template, with its
/// text, and one that asks an agent takes its message so. It does neither where that is blank.
pub proof fn law_what_a_mapping_does(
    mapping: &HookMappingConfig,
    context: &HookTemplateContext,
    template: &str,
    given: String,
    r: Result<HookResolvedAction, String>,
)
    requires
        call_ensures(build_mapping_action, (mapping, context), r),
        call_ensures(render_template, (template, context), given),
        mapping.action == HookMappingAction::Wake && is_said(mapping.text_template) ==> template@
            == trimmed(mapping.text_template->0@),
        mapping.action == HookMappingAction::Agent && is_said(mapping.message_template)
            ==> template@ == trimmed(mapping.message_template->0@),
    ensures
        ({
            let wakes = mapping.action == HookMappingAction::Wake;
            let words = if wakes {
                if is_said(mapping.text_template) {
                    Some(given)
                } else {
                    mapping.text
                }
            } else {
                if is_said(mapping.message_template) {
                    Some(given)
                } else {
                    mapping.message
                }
            };
            &&& r is Ok <==> is_said(words)
            &&& r is Ok && wakes ==> r->Ok_0 is Wake && r->Ok_0->Wake_0.text@ == trimmed(words->0@)
                && (r->Ok_0->Wake_0.mode == HookWakeMode::NextHeartbeat <==> asks_for_heartbeat(
                mapping.wake_mode,
            ))
            &&& r is Ok && !wakes ==> {
                let agent = r->Ok_0->Agent_0;
                &&& r->Ok_0 is Agent
                &&& agent.message@ == trimmed(words->0@)
                &&& agent.name@ == (if is_said(mapping.name) {
                    trimmed(mapping.name->0@)
                } else {
                    "Hook"@
                })
                &&& agent.agent_id is Some <==> is_said(mapping.agent_id)
                &&& is_said(mapping.agent_id) ==> agent.agent_id->0@ == trimmed(mapping.agent_id->0@)
                &&& agent.session_key is Some <==> is_said(mapping.session_key)
                &&& is_said(mapping.session_key) ==> agent.session_key->0@ == trimmed(
                    mapping.session_key->0@,
                )
                &&& agent.wake_mode == HookWakeMode::NextHeartbeat <==> asks_for_heartbeat(
                    mapping.wake_mode,
                )
            }
        }),
{
    lemma_is_said(mapping.text_template);
    lemma_is_said(mapping.message_template);
    lemma_is_said(mapping.text);
    lemma_is_said(mapping.message);
    lemma_is_said(Some(given));
    lemma_is_said(mapping.name);
    lemma_is_said(mapping.agent_id);
    lemma_is_said(mapping.session_key);
}

/// What a change of a wake says takes the place of what was there; what it does not say stays.
pub proof fn law_changes_of_a_wake(
    wake: HookWakeNormalized,
    change: HookTransformOverride,
    r: Result<HookResolvedAction, String>,
)
    requires
        call_ensures(merge_hook_action, (HookResolvedAction::Wake(wake), change), r),
    ensures
        change.kind != Some(HookMappingAction::Agent) ==> {
            &&& r is Ok && r->Ok_0 is Wake
            &&& r->Ok_0->Wake_0.text@ == (if is_said(change.text) {
                trimmed(change.text->0@)
            } else {
                wake.text@
            })
            &&& change.mode is None ==> r->Ok_0->Wake_0.mode == wake.mode
            &&& change.mode is Some ==> (r->Ok_0->Wake_0.mode == HookWakeMode::NextHeartbeat
                <==> asks_for_heartbeat(change.mode))
        },
        change.kind == Some(HookMappingAction::Agent) ==> {
            let agent = r->Ok_0->Agent_0;
            &&& r is Ok <==> is_said(change.message)
            &&& r is Ok ==> r->Ok_0 is Agent && agent.message@ == trimmed(change.message->0@)
            &&& r is Ok ==> agent.name@ == (if is_said(change.name) {
                trimmed(change.name->0@)
            } else {
                "Hook"@
            })
            &&& r is Ok ==> (agent.wake_mode == HookWakeMode::NextHeartbeat <==> asks_for_heartbeat(
                change.wake_mode,
            ))
            &&& r is Ok && !is_said(change.agent_id) ==> agent.agent_id is None
            &&& r is Ok && is_said(change.agent_id) ==> opt_text(agent.agent_id) == Some(
                trimmed(change.agent_id->0@),
            )
            &&& r is Ok && !is_said(change.session_key) ==> agent.session_key is None
            &&& r is Ok && is_said(change.session_key) ==> opt_text(agent.session_key) == Some(
                trimmed(change.session_key->0@),
            )
        },
{
    lemma_is_said(change.text);
    lemma_is_said(change.message);
    lemma_is_said(change.name);
    lemma_is_said(change.agent_id);
    lemma_is_said(change.session_key);
}

/// What a change of an agent's work says takes the place of what was there; what it does not say
/// stays.
pub proof fn law_changes_of_agent_work(
    agent: HookAgentNormalized,
    change: HookTransformOverride,
    r: Result<HookResolvedAction, String>,
)
    requires
        call_ensures(merge_hook_action, (HookResolvedAction::Agent(agent), change), r),
    ensures
        change.kind != Some(HookMappingAction::Wake) ==> {
            let new = r->Ok_0->Agent_0;
            &&& r is Ok && r->Ok_0 is Agent
            &&& new.message@ == (if is_said(change.message) {
                trimmed(change.message->0@)
            } else {
                agent.message@
            })
            &&& new.name@ == (if is_said(change.name) {
                trimmed(change.name->0@)
            } else {
                agent.name@
            })
            &&& is_said(change.agent_id) ==> opt_text(new.agent_id) == Some(
                trimmed(change.agent_id->0@),
            )
            &&& !is_said(change.agent_id) && is_said(agent.agent_id) ==> opt_text(new.agent_id) == Some(
                trimmed(agent.agent_id->0@),
            )
            &&& !is_said(change.agent_id) && !is_said(agent.agent_id) ==> new.agent_id is None
            &&& is_said(change.session_key) ==> opt_text(new.session_key) == Some(
                trimmed(change.session_key->0@),
            )
            &&& !is_said(change.session_key) && is_said(agent.session_key) ==> opt_text(new.session_key)
                == Some(trimmed(agent.session_key->0@))
            &&& !is_said(change.session_key) && !is_said(agent.session_key) ==> new.session_key is None
            &&& change.wake_mode is None ==> new.wake_mode == agent.wake_mode
            &&& change.wake_mode is Some ==> (new.wake_mode == HookWakeMode::NextHeartbeat
                <==> asks_for_heartbeat(change.wake_mode))
        },
        change.kind == Some(HookMappingAction::Wake) ==> {
            &&& r is Ok <==> is_said(change.text)
            &&& r is Ok ==> r->Ok_0 is Wake && r->Ok_0->Wake_0.text@ == trimmed(change.text->0@)
            &&& r is Ok ==> (r->Ok_0->Wake_0.mode == HookWakeMode::NextHeartbeat
                <==> asks_for_heartbeat(change.mode))
        },
{
    lemma_is_said(change.text);
    lemma_is_said(change.message);
    lemma_is_said(change.name);
    lemma_is_said(change.agent_id);
    lemma_is_said(change.session_key);
    lemma_is_said(agent.agent_id);
    lemma_is_said(agent.session_key);
}

/// A session that is asked for is used, unless a request asks and requests may not choose. Where
/// none is asked for it is the one that is set, or else a new one.
pub proof fn law_sessions_of_hooks(
    config: &RuntimeConfig,
    requested: &Option<String>,
    source: HookSessionKeySource,
    id: &str,
    r: Result<String, String>,
)
    requires
        call_ensures(session_key_with, (config, requested, source, id), r),
    ensures
        r is Err <==> *requested is Some && source == HookSessionKeySource::Request
            && !config.hooks_allow_request_session_key,
        r is Ok && *requested is Some ==> r->Ok_0@ == requested->0@,
        *requested is None && config.hooks_default_session_key is Some ==> r->Ok_0@
            == config.hooks_default_session_key->0@,
        *requested is None && config.hooks_default_session_key is None ==> r->Ok_0@ == "hook:"@
            + id@,
{
}


/// A header is found under its name in small letters. The later of two headers of one name counts,
/// and a header leaves those of other names as they are.
pub proof fn law_headers(
    headers: &Vec<(String, String)>,
    more: &Vec<(String, String)>,
    name: &str,
    header: (String, String),
    small: String,
    before: SortedMap<Json>,
    r: SortedMap<Json>,
)
    requires
        call_ensures(normalize_hook_headers, (headers,), before),
        call_ensures(normalize_hook_headers, (more,), r),
        more@ == headers@.push(header),
        header.0@ == name@,
        call_ensures(to_lower, (name,), small),
    ensures
        fields(r) == fields(before).insert(small@, JsonModel::Text(header.1@)),
        headers@.len() == 0 ==> fields(before) == Map::<Seq<char>, JsonModel>::empty(),
{
    assert(more@.drop_last() =~= headers@);
    assert(more@.last() == header);
}

/// A pair behind an ampersand adds its value under its name, both without the white space around
/// them, and leaves what other names stand for. A pair without a name adds nothing.
pub proof fn law_queries(
    query: &str,
    more: &str,
    name: Seq<char>,
    value: Seq<char>,
    before: SortedMap<Json>,
    r: SortedMap<Json>,
)
    requires
        call_ensures(parse_query_values, (Some(query),), before),
        call_ensures(parse_query_values, (Some(more),), r),
        more@ == query@ + seq!['&'] + (name + seq!['='] + value),
        !name.contains('=') && !name.contains('&') && !value.contains('&'),
    ensures
        fields(r) == (if crate::text::not_blank(name) {
            fields(before).insert(trimmed(name), JsonModel::Text(trimmed(value)))
        } else {
            fields(before)
        }),
{
    let pair = name + seq!['='] + value;
    law_first_place(name, value, '=');
    lemma_no_mark(name, value, '=', '&');
    law_split_at_a_separator(query@, pair, '&');
    law_split_at_a_separator(pair, pair, '&');
    let parts = split(more@, '&');
    assert(parts =~= split(query@, '&').push(pair));
    assert(parts.drop_last() =~= split(query@, '&'));
    lemma_kept(name);
}

/// A single pair stands for its value under its name, and without a query there is nothing.
pub proof fn law_one_pair(
    query: &str,
    name: Seq<char>,
    value: Seq<char>,
    r: SortedMap<Json>,
    none: SortedMap<Json>,
)
    requires
        call_ensures(parse_query_values, (Some(query),), r),
        call_ensures(parse_query_values, (None,), none),
        query@ == name + seq!['='] + value,
        !name.contains('=') && !name.contains('&') && !value.contains('&'),
        crate::text::not_blank(name),
    ensures
        fields(none) == Map::<Seq<char>, JsonModel>::empty(),
        fields(r) == fields(none).insert(trimmed(name), JsonModel::Text(trimmed(value))),
{
    law_first_place(name, value, '=');
    lemma_no_mark(name, value, '=', '&');
    law_split_at_a_separator(query@, query@, '&');
    let parts = split(query@, '&');
    assert(parts.drop_last() =~= Seq::<Seq<char>>::empty());
    assert(query_fields(parts.drop_last()) == no_fields());
    lemma_kept(name);
}

proof fn lemma_no_mark(name: Seq<char>, value: Seq<char>, sign: char, mark: char)
    requires
        !name.contains(mark) && !value.contains(mark) && sign != mark,
    ensures
        !(name + seq![sign] + value).contains(mark),
{
    let pair = name + seq![sign] + value;
    if pair.contains(mark) {
        let i = choose|i: int| 0 <= i < pair.len() && pair[i] == mark;
        if i < name.len() {
            assert(name.contains(name[i]));
        } else if i > name.len() {
            assert(value.contains(value[i - name.len() - 1]));
        }
    }
}

/// A query with a pair of that name, in letters of either size, is one with a token, wherever the
/// pair stands in it. Without a query there is none.
pub proof fn law_tokens_in_queries(
    query: &str,
    before: Seq<char>,
    name: Seq<char>,
    value: Seq<char>,
    after: Seq<char>,
    r: bool,
    none: bool,
)
    requires
        call_ensures(has_token_query, (Some(query),), r),
        call_ensures(has_token_query, (None,), none),
        query@ == before + seq!['&'] + (name + seq!['='] + value) + seq!['&'] + after,
        !name.contains('=') && !name.contains('&') && !value.contains('&'),
        lowered(name) == "token"@,
    ensures
        r,
        !none,
{
    lemma_token_is_small();
    let pair = name + seq!['='] + value;
    law_first_place(name, value, '=');
    lemma_no_mark(name, value, '=', '&');
    law_split_at_a_separator(before + seq!['&'] + pair, after, '&');
    law_split_at_a_separator(before, pair, '&');
    law_split_at_a_separator(pair, pair, '&');
    let at = split(before, '&').len() as int;
    let parts = split(query@, '&');
    assert(split(pair, '&') == seq![pair]);
    assert(parts == split(before, '&') + seq![pair] + split(after, '&'));
    assert(parts[at] == pair);
    assert(pair_name(parts[at]) == name);
    assert(0 <= at < split(query@, '&').len() && lowered(pair_name(split(query@, '&')[at]))
        == lowered("token"@));
    let asked = header_text(Some(query));
    assert(asked->0 == query@);
    assert(lowered(pair_name(split(asked->0, '&')[at])) == lowered("token"@));
    assert(names_token(asked));
}

proof fn lemma_token_is_small()
    ensures
        lowered("token"@) == "token"@,
{
    reveal_strlit("token");
    assert(lowered("token"@) =~= "token"@);
}

/// A query whose pairs have other names is one without a token.
pub proof fn law_queries_without_a_token(query: &str, r: bool)
    requires
        call_ensures(has_token_query, (Some(query),), r),
        forall|a: Seq<char>, name: Seq<char>, b: Seq<char>|
            query@ == #[trigger] (a + name + b) && lowered(name) == "token"@ ==> false,
    ensures
        !r,
{
    lemma_token_is_small();
    if r {
        let parts = split(query@, '&');
        let i = choose|i: int|
            0 <= i < parts.len() && lowered(pair_name(#[trigger] parts[i])) == lowered("token"@);
        law_split_and_join(query@, '&');
        law_joined_parts_are_found(parts, seq!['&'], i);
        let (a, b) = choose|a: Seq<char>, b: Seq<char>|
            joined(parts, seq!['&']) == #[trigger] (a + parts[i] + b);
        lemma_find(parts[i], '=');
        let name = pair_name(parts[i]);
        let rest = parts[i].skip(find(parts[i], '='));
        assert(query@ =~= a + name + (rest + b));
    }
}

/// The token of a request stands behind the word that bears it, and else in the header of its own.
/// White space around it is no part of it.
pub proof fn law_tokens_of_hooks(
    authorization: Option<&str>,
    header: Option<&str>,
    borne: Seq<char>,
    r: Option<String>,
)
    requires
        call_ensures(extract_hook_token, (authorization, header), r),
        authorization is Some ==> authorization->0@ == "Bearer "@ + borne || authorization->0@
            == "bearer "@ + borne,
    ensures
        authorization is Some && crate::text::not_blank(borne) ==> opt_text(r) == Some(trimmed(borne)),
        authorization is None || !crate::text::not_blank(borne) ==> opt_text(r) == (if header is Some
            && crate::text::not_blank(header->0@) {
            Some(trimmed(header->0@))
        } else {
            None
        }),
{
    lemma_kept(borne);
    if header is Some {
        lemma_kept(header->0@);
    }
    if authorization is Some {
        let a = authorization->0@;
        reveal_strlit("Bearer ");
        reveal_strlit("bearer ");
        assert("Bearer "@[0] != "bearer "@[0]);
        if a == "Bearer "@ + borne {
            assert(a.take(7) =~= "Bearer "@);
            assert(a.skip(7) =~= borne);
        } else {
            assert(a.take(7) =~= "bearer "@);
            assert(a.take(7)[0] != "Bearer "@[0]);
            assert(a.skip(7) =~= borne);
        }
    }
}

/// A request is let in exactly where it posts, names no token in its query and shows the token
/// that is set. One that does not is answered by what is wrong with it, and only a wrong token
/// is counted against where it came from, until the right one comes.
pub proof fn law_requests_that_are_let_in(
    is_post: bool,
    query: Option<&str>,
    expected: &Option<String>,
    authorization: Option<&str>,
    header: Option<&str>,
    ip: &str,
    now: u64,
    named: bool,
    token: Option<String>,
    r: Result<(), HttpReply>,
)
    requires
        call_ensures(has_token_query, (query,), named),
        call_ensures(extract_hook_token, (authorization, header), token),
    ensures
        forall|limiter: &mut AuthRateLimiter| #[trigger]
            call_ensures(
                admit_request,
                (is_post, query, expected, authorization, header, ip, limiter, now),
                r,
            ) ==> {
                let right = *expected is Some && token is Some && token->0@ == expected->0@;
                &&& r is Ok <==> is_post && !named && right
                &&& !is_post ==> r->Err_0.status == 405
                &&& is_post && named ==> r->Err_0.status == 400
                &&& is_post && !named && *expected is None ==> r->Err_0.status == 503
                &&& is_post && !named && *expected is Some && !right ==> r->Err_0.status == 401
                    || r->Err_0.status == 429
                &&& r is Ok ==> final(limiter).stamps("hooks-auth:"@ + ip@).len() == 0
                &&& r is Err && r->Err_0.status != 401 && r->Err_0.status != 429 ==> *final(limiter)
                    == *limiter
                &&& r is Err && r->Err_0.status == 429 ==> final(limiter).stamps(
                    "hooks-auth:"@ + ip@,
                ).len() > limiter.limit()
                &&& r is Err && r->Err_0.status == 401 ==> 0 < final(limiter).stamps(
                    "hooks-auth:"@ + ip@,
                ).len() <= limiter.limit()
            },
{
}

/// What is asked of `/wake` wakes and what is asked of `/agent` is an agent's work, whatever
/// slashes stand around the word; everything else is for the first mapping that answers, and not
/// found where none does. A body that is too large or no JSON is refused.
pub proof fn law_routes_of_hooks(
    body: Option<&[u8]>,
    subpath: &str,
    before: Seq<char>,
    word: Seq<char>,
    after: Seq<char>,
    mappings: &Vec<HookMappingConfig>,
    r: Result<HookRoute, HttpReply>,
)
    requires
        call_ensures(handle_request, (body, subpath, mappings), r),
        subpath@ == before + word + after,
        forall|k: int| 0 <= k < before.len() ==> #[trigger] before[k] == '/',
        forall|k: int| 0 <= k < after.len() ==> #[trigger] after[k] == '/',
        word.len() > 0 && word[0] != '/' && word.last() != '/',
    ensures
        body is None ==> r is Err && r->Err_0.status == 413,
        r is Ok && word == "wake"@ ==> r->Ok_0 is Wake,
        r is Ok && word == "agent"@ ==> r->Ok_0 is Agent,
        r is Ok && word != "wake"@ && word != "agent"@ ==> r->Ok_0 is Mapping,
        body is Some && body->0@.len() == 0 && word == "wake"@ ==> r is Err && r->Err_0.status == 400,
        body is Some && body->0@.len() == 0 && word == "agent"@ ==> r is Ok && fields(
            r->Ok_0->Agent_0,
        ) == Map::<Seq<char>, JsonModel>::empty(),
        body is Some && body->0@.len() == 0 && mappings@.len() == 0 && word != "wake"@ && word
            != "agent"@ ==> r is Err && r->Err_0.status == 404,
        r is Err ==> r->Err_0.status == 400 || r->Err_0.status == 404 || r->Err_0.status == 413,
{
    law_trim_between(before, word, after, equals('/'));
    reveal_strlit("wake");
    reveal_strlit("agent");
    assert("wake"@.len() != "agent"@.len());
}

/// A wake leaves its text and its time in the log. It wakes at once where it may, and is kept for
/// the next heartbeat where it is to wait.
pub proof fn law_wakes_are_carried_out(wake: &HookWakeNormalized, now: u64, id: &str, r: WakePlan)
    requires
        call_ensures(dispatch_wake, (wake, now, id), r),
    ensures
        member(r.entry@, "text"@) == Some(JsonModel::Text(wake.text@)),
        member(r.entry@, "ts"@) == Some(JsonModel::Unsigned(now)),
        wake.mode == HookWakeMode::Now ==> r.wake_reason is Some && r.wake_reason->0@
            == "hook:wake"@ && r.pending_key is None && member(r.entry@, "mode"@) == Some(
            JsonModel::Text("now"@),
        ),
        wake.mode == HookWakeMode::NextHeartbeat ==> r.wake_reason is None && opt_text(r.pending_key)
            == Some("hooks/pending-wake/"@ + id@) && member(r.entry@, "mode"@) == Some(
            JsonModel::Text("next-heartbeat"@),
        ),
        r.reply.status == 200,
        member(r.reply.body@, "ok"@) == Some(JsonModel::Bool(true)),
        member(r.reply.body@, "mode"@) == member(r.entry@, "mode"@),
{
    reveal_strlit("text");
    reveal_strlit("ts");
    reveal_strlit("mode");
    reveal_strlit("ok");
    assert("text"@[0] != "mode"@[0]);
    assert("ts"@.len() != "mode"@.len());
    assert("ts"@.len() != "text"@.len());
    assert("ok"@.len() != "mode"@.len());
}

/// An agent is run with the message that was given, in the session that the rules give and as the
/// agent that is asked for, or else the one that is set.
pub proof fn law_agent_work_is_carried_out(
    config: &RuntimeConfig,
    agent: &HookAgentNormalized,
    source: HookSessionKeySource,
    session_id: &str,
    run_id: &str,
    key: Result<String, String>,
    r: Result<AgentPlan, HttpReply>,
)
    requires
        call_ensures(dispatch_agent, (config, agent, source, session_id, run_id), r),
        call_ensures(session_key_with, (config, &agent.session_key, source, session_id), key),
    ensures
        r is Ok <==> key is Ok,
        r is Err ==> r->Err_0.status == 400,
        r is Ok ==> {
            let plan = r->Ok_0;
            let id = if agent.agent_id is Some {
                agent.agent_id->0@
            } else {
                config.hooks_default_agent_id@
            };
            &&& plan.session_key@ == key->Ok_0@
            &&& plan.agent_id@ == id
            &&& plan.wake_reason is Some <==> agent.wake_mode == HookWakeMode::Now
            &&& member(plan.params@, "message"@) == Some(JsonModel::Text(agent.message@))
            &&& member(plan.params@, "name"@) == Some(JsonModel::Text(agent.name@))
            &&& member(plan.params@, "agentId"@) == Some(JsonModel::Text(id))
            &&& member(plan.params@, "sessionKey"@) == Some(JsonModel::Text(key->Ok_0@))
            &&& member(plan.params@, "idempotencyKey"@) == Some(
                JsonModel::Text("hook-agent-"@ + run_id@),
            )
        },
{
    reveal_strlit("message");
    reveal_strlit("name");
    reveal_strlit("agentId");
    reveal_strlit("sessionKey");
    reveal_strlit("idempotencyKey");
    assert("message"@[0] != "agentId"@[0]);
    assert("message"@.len() != "name"@.len() && "agentId"@.len() != "name"@.len());
    assert("sessionKey"@.len() != "idempotencyKey"@.len());
}

/// A transform that was not asked for changes nothing, one that gives nothing has the request
/// skipped, and one that fails has it refused in its own words.
pub proof fn law_transforms(
    base: HookResolvedAction,
    asked: Option<Result<Option<HookTransformOverride>, String>>,
    merged: Result<HookResolvedAction, String>,
    r: Result<Option<HookResolvedAction>, String>,
)
    requires
        call_ensures(apply_mapping_transform_if_configured, (base, asked), r),
        asked is Some && asked->0 is Ok && asked->0->Ok_0 is Some ==> call_ensures(
            merge_hook_action,
            (base, asked->0->Ok_0->0),
            merged,
        ),
    ensures
        asked is None ==> r is Ok && r->Ok_0 is Some && r->Ok_0->0@ == base@,
        asked is Some && asked->0 is Err ==> r is Err && r->Err_0@ == asked->0->Err_0@,
        asked is Some && asked->0 is Ok && asked->0->Ok_0 is None ==> r is Ok && r->Ok_0 is None,
        asked is Some && asked->0 is Ok && asked->0->Ok_0 is Some ==> {
            &&& r is Ok <==> merged is Ok
            &&& r is Ok ==> r->Ok_0 is Some && r->Ok_0->0@ == merged->Ok_0@
            &&& r is Err ==> r->Err_0@ == merged->Err_0@
        },
{
}

/// A body is read as the JSON that it is: an object gives its members, an empty body and any other
/// value none, and what is no JSON is refused.
pub proof fn law_bodies_of_hooks(body: &[u8], value: Result<Json, String>, r: Result<SortedMap<Json>, String>)
    requires
        call_ensures(read_body, (body,), r),
        call_ensures(Json::read, (body,), value),
    ensures
        body@.len() == 0 ==> r is Ok && fields(r->Ok_0) == Map::<Seq<char>, JsonModel>::empty(),
        body@.len() > 0 ==> (r is Ok <==> value is Ok),
        body@.len() > 0 && value is Ok && value->Ok_0@ is Object ==> JsonModel::Object(fields(r->Ok_0))
            == value->Ok_0@,
        body@.len() > 0 && value is Ok && !(value->Ok_0@ is Object) ==> fields(r->Ok_0) == Map::<
            Seq<char>,
            JsonModel,
        >::empty(),
        r is Err ==> r->Err_0@ == "invalid JSON payload: "@ + value->Err_0@,
{
}

/// What is asked of a hook is for the fields of its body.
pub proof fn law_requests_are_for_their_fields(
    body: &[u8],
    read: Result<SortedMap<Json>, String>,
    subpath: &str,
    mappings: &Vec<HookMappingConfig>,
    r: Result<HookRoute, HttpReply>,
)
    requires
        call_ensures(handle_request, (Some(body), subpath, mappings), r),
        call_ensures(read_body, (body,), read),
    ensures
        read is Err ==> r is Err && r->Err_0.status == 400,
        r is Ok && r->Ok_0 is Agent ==> fields(r->Ok_0->Agent_0) == fields(read->Ok_0),
        r is Ok && r->Ok_0 is Mapping ==> fields(r->Ok_0->Mapping_1) == fields(read->Ok_0)
            && r->Ok_0->Mapping_0 < mappings@.len(),
{
}

/// An agent that runs is answered with its run, its session and itself.
pub proof fn law_accepted_work(plan: &AgentPlan, response: &Json, r: HttpReply)
    requires
        call_ensures(agent_accepted, (plan, response), r),
    ensures
        r.status == 202,
        crate::json::member(r.body@, "ok"@) == Some(JsonModel::Bool(true)),
        crate::json::member(response@, "runId"@) matches Some(JsonModel::Text(id)) ==> crate::json::member(r.body@, "runId"@) == Some(
            JsonModel::Text(id),
        ),
        crate::json::member(r.body@, "sessionKey"@) == Some(JsonModel::Text(plan.session_key@)),
        crate::json::member(r.body@, "agentId"@) == Some(JsonModel::Text(plan.agent_id@)),
{
    reveal_strlit("ok");
    reveal_strlit("runId");
    reveal_strlit("sessionKey");
    reveal_strlit("agentId");
    assert("ok"@.len() != "runId"@.len());
    assert("ok"@.len() != "sessionKey"@.len());
    assert("ok"@.len() != "agentId"@.len());
    assert("runId"@.len() != "sessionKey"@.len());
    assert("runId"@.len() != "agentId"@.len());
    assert("sessionKey"@.len() != "agentId"@.len());
}

} // verus!
