//! Skills: which there are, what they need, and how they are installed and set up.
use crate::json::{
    bool_or_null, fields, lemma_models, models, no_fields, number_or_null, object,
    opt_bool_json, opt_number_json, opt_text_json, set_field, text, text_array, text_or_null,
    texts_json, Json, JsonModel, copy_object,
};
use crate::lists::{is_sorted_set, sorted_of, sorted_set, lemma_sorted_of};
use crate::protocol::errors::{invalid, invalid_request, unavailable, ErrorModel, ErrorShape, ERROR_UNAVAILABLE};
use crate::rpc::methods::{field_missing, required_text};
use crate::slug::{slug, slug_of};
use crate::sorted_map::{entries_map, SortedMap};
use crate::text::{
    cat, contains, has_part, kept, kept_opt, opt_text, texts, trim_non_empty, trim_non_empty_opt,
};
use vstd::prelude::*;

verus! {

broadcast use vstd::seq::group_seq_axioms;

pub const SKILLS_ENTRIES_KEY: &'static str = "runtime/skills/entries";

/// How a skill is set up.
pub struct SkillConfig {
    pub enabled: Option<bool>,
    pub api_key: Option<String>,
    pub env: SortedMap<Json>,
    pub bins: Vec<String>,
    pub installed: bool,
    pub install_id: Option<String>,
    pub updated_at_ms: Option<u64>,
}

/// The JSON of the record.
pub open spec fn skill_config_json(r: SkillConfig) -> JsonModel {
    JsonModel::Object(
        no_fields().insert("enabled"@, bool_or_null(r.enabled)).insert("apiKey"@, text_or_null(opt_text(r.api_key))).insert("env"@, JsonModel::Object(fields(r.env))).insert("bins"@, text_array(texts(r.bins@))).insert("installed"@, JsonModel::Bool(r.installed)).insert("installId"@, text_or_null(opt_text(r.install_id))).insert("updatedAtMs"@, number_or_null(r.updated_at_ms)),
    )
}

impl SkillConfig {
    /// The JSON of the record.
    pub fn to_json(&self) -> (r: Json)
        ensures
            r@ == skill_config_json(*self),
    {
        let mut o = object();
        set_field(&mut o, "enabled", opt_bool_json(self.enabled));
        set_field(&mut o, "apiKey", opt_text_json(&self.api_key));
        set_field(&mut o, "env", Json::Object(copy_object(&self.env)));
        set_field(&mut o, "bins", texts_json(&self.bins));
        set_field(&mut o, "installed", Json::Bool(self.installed));
        set_field(&mut o, "installId", opt_text_json(&self.install_id));
        set_field(&mut o, "updatedAtMs", opt_number_json(self.updated_at_ms));
        Json::Object(o)
    }
}

/// The skills, as they are stored.
pub open spec fn entries_json(entries: Map<Seq<char>, SkillConfig>) -> JsonModel {
    JsonModel::Object(
        Map::new(
            |key: Seq<char>| entries.contains_key(key),
            |key: Seq<char>| skill_config_json(entries[key]),
        ),
    )
}

/// The skills, as they are stored.
pub fn entries_to_json(entries: &SortedMap<SkillConfig>) -> (r: Json)
    ensures
        r@ == entries_json(entries@),
{
    let mut o = object();
    let n: usize = entries.len();
    let ghost all = entries.entries();
    let mut i: usize = 0;
    proof {
        assert(all.take(0) =~= Seq::<(String, SkillConfig)>::empty());
        assert(fields(o) =~= entries_json(entries_map(all.take(0)))->Object_0);
    }
    while i < n
        invariant
            n == entries.keys().len(),
            all == entries.entries(),
            i <= n,
            JsonModel::Object(fields(o)) == entries_json(entries_map(all.take(i as int))),
        decreases n - i,
    {
        let (key, config) = entries.entry(i);
        let ghost so_far = entries_map(all.take(i as int));
        proof {
            let longer = all.take(i + 1);
            assert(longer.drop_last() =~= all.take(i as int));
            assert(longer.last() == all[i as int]);
        }
        set_field(&mut o, key.as_str(), config.to_json());
        proof {
            let next = so_far.insert(key@, *config);
            assert(entries_map(all.take(i + 1)) == next);
            assert(fields(o) =~= entries_json(next)->Object_0);
        }
        i = i + 1;
    }
    assert(all.take(n as int) =~= all);
    Json::Object(o)
}

/// The skills, from what was read of the store.
pub fn load_entries(stored: Option<Result<SortedMap<SkillConfig>, String>>) -> (r: Result<
    SortedMap<SkillConfig>,
    ErrorShape,
>)
    ensures
        match stored {
            None => r is Ok && r->Ok_0@ == Map::<Seq<char>, SkillConfig>::empty(),
            Some(Ok(entries)) => r == Ok::<SortedMap<SkillConfig>, ErrorShape>(entries),
            Some(Err(error)) => r is Err && r->Err_0@ == unavailable(
                "failed to decode skills entries: "@ + error@,
            ),
        },
{
    match stored {
        None => Ok(SortedMap::new()),
        Some(Ok(entries)) => Ok(entries),
        Some(Err(error)) => Err(
            ErrorShape::new(
                ERROR_UNAVAILABLE,
                cat("failed to decode skills entries: ", error.as_str()).as_str(),
            ),
        ),
    }
}

/// The key of a skill of a name.
pub fn normalize_skill_key(input: &str) -> (r: String)
    ensures
        r@ == slug(input@, false),
{
    slug_of(input, false)
}

/// The programs of a list: trimmed, without blanks, each once, in the order of texts.
pub fn normalized_bins(values: &Vec<String>) -> (r: Vec<String>)
    ensures
        texts(r@) == sorted_of(texts(values@)),
        is_sorted_set(texts(r@), texts(values@)),
{
    let r = sorted_set(values);
    proof {
        lemma_sorted_of(texts(r@), texts(values@));
    }
    r
}

/// One program, where a skill needs it.
pub open spec fn needed(name: Seq<char>, needs: bool) -> Seq<Seq<char>> {
    if needs {
        seq![name]
    } else {
        Seq::empty()
    }
}

/// The programs that a skill needs, by its key.
pub open spec fn guessed_bins(key: Seq<char>) -> Seq<Seq<char>> {
    let bins = needed("python3"@, has_part(key, "python"@) || has_part(key, "pip"@)) + needed(
        "node"@,
        has_part(key, "node"@) || has_part(key, "npm"@) || has_part(key, "js"@),
    ) + needed("git"@, has_part(key, "git"@));
    if bins.len() == 0 {
        seq!["sh"@]
    } else {
        bins
    }
}

/// The programs that a skill needs, by its key.
pub fn infer_skill_bins(key: &str) -> (r: Vec<String>)
    ensures
        texts(r@) == sorted_of(guessed_bins(key@)),
        is_sorted_set(texts(r@), guessed_bins(key@)),
{
    let mut bins: Vec<String> = Vec::new();
    if contains(key, "python") || contains(key, "pip") {
        bins.push("python3".to_owned());
    }
    if contains(key, "node") || contains(key, "npm") || contains(key, "js") {
        bins.push("node".to_owned());
    }
    if contains(key, "git") {
        bins.push("git".to_owned());
    }
    if bins.len() == 0 {
        bins.push("sh".to_owned());
    }
    assert(texts(bins@) =~= guessed_bins(key@));
    normalized_bins(&bins)
}

// ---------------------------------------------------------------------------------------------
// The methods `skills.status` and `skills.bins`
// ---------------------------------------------------------------------------------------------
/// A skill can be used.
pub open spec fn is_eligible(config: SkillConfig) -> bool {
    config.installed || config.enabled == Some(true)
}

/// What is said of a skill.
pub open spec fn skill_view(name: Seq<char>, config: SkillConfig) -> JsonModel {
    JsonModel::Object(
        no_fields()
            .insert("name"@, JsonModel::Text(name))
            .insert("skillKey"@, JsonModel::Text(name))
            .insert("enabled"@, JsonModel::Bool(match config.enabled { Some(enabled) => enabled, None => config.installed }))
            .insert("installed"@, JsonModel::Bool(config.installed))
            .insert("eligible"@, JsonModel::Bool(is_eligible(config)))
            .insert("blockedByAllowlist"@, JsonModel::Bool(false))
            .insert("missingRequirements"@, JsonModel::Array(Seq::empty()))
            .insert("requiresBins"@, text_array(sorted_of(texts(config.bins@))))
            .insert("updatedAtMs"@, JsonModel::Unsigned(match config.updated_at_ms { Some(ms) => ms, None => 0 })),
    )
}

/// How many skills can be used.
pub open spec fn eligible_count(entries: Seq<(String, SkillConfig)>) -> nat
    decreases entries.len(),
{
    if entries.len() == 0 {
        0
    } else {
        eligible_count(entries.drop_last()) + if is_eligible(entries.last().1) {
            1nat
        } else {
            0nat
        }
    }
}

fn skill_json(name: &str, config: &SkillConfig) -> (r: Json)
    ensures
        r@ == skill_view(name@, *config),
{
    let enabled: bool = match config.enabled {
        Some(enabled) => enabled,
        None => config.installed,
    };
    let eligible: bool = config.installed || matches!(config.enabled, Some(true));
    let updated: u64 = match config.updated_at_ms {
        Some(ms) => ms,
        None => 0,
    };
    let missing: Vec<Json> = Vec::new();
    proof {
        lemma_models(missing@);
        assert(models(missing@) =~= Seq::<JsonModel>::empty());
    }
    let mut o = object();
    set_field(&mut o, "name", text(name));
    set_field(&mut o, "skillKey", text(name));
    set_field(&mut o, "enabled", Json::Bool(enabled));
    set_field(&mut o, "installed", Json::Bool(config.installed));
    set_field(&mut o, "eligible", Json::Bool(eligible));
    set_field(&mut o, "blockedByAllowlist", Json::Bool(false));
    set_field(&mut o, "missingRequirements", Json::Array(missing));
    set_field(&mut o, "requiresBins", texts_json(&normalized_bins(&config.bins)));
    set_field(&mut o, "updatedAtMs", Json::Unsigned(updated));
    Json::Object(o)
}

/// The skills in the order of their keys, and how many of them can be used.
pub fn handle_status(agent_id: &Option<String>, entries: &SortedMap<SkillConfig>) -> (r: Json)
    ensures
        r@ == JsonModel::Object(
            no_fields()
                .insert("agentId"@, text_or_null(opt_text(*agent_id)))
                .insert("skills"@, JsonModel::Array(entries.entries().map_values(|e: (String, SkillConfig)| skill_view(e.0@, e.1))))
                .insert("summary"@, JsonModel::Object(
                no_fields()
                    .insert("total"@, JsonModel::Unsigned(entries.entries().len() as u64))
                    .insert("eligible"@, JsonModel::Unsigned(eligible_count(entries.entries()) as u64)),
            )),
        ),
{
    let n: usize = entries.len();
    let ghost all = entries.entries();
    let mut out: Vec<Json> = Vec::new();
    let mut eligible: u64 = 0;
    let mut i: usize = 0;
    while i < n
        invariant
            n == entries.keys().len(),
            n == all.len(),
            all == entries.entries(),
            i <= n,
            out@.len() == i,
            eligible <= i,
            eligible == eligible_count(all.take(i as int)),
            forall|k: int|
                0 <= k < i ==> (#[trigger] out@[k])@ == skill_view(all[k].0@, all[k].1),
        decreases n - i,
    {
        let (name, config) = entries.entry(i);
        proof {
            let t = all.take(i + 1);
            assert(t.drop_last() =~= all.take(i as int));
            assert(t.last() == all[i as int]);
            assert(all[i as int].0@ == name@);
        }
        if config.installed || matches!(config.enabled, Some(true)) {
            eligible = eligible + 1;
        }
        out.push(skill_json(name.as_str(), config));
        i = i + 1;
    }
    proof {
        assert(all.take(i as int) =~= all);
        lemma_models(out@);
        assert(models(out@) =~= all.map_values(|e: (String, SkillConfig)| skill_view(e.0@, e.1)));
    }
    let mut summary = object();
    set_field(&mut summary, "total", Json::Unsigned(n as u64));
    set_field(&mut summary, "eligible", Json::Unsigned(eligible));
    let mut o = object();
    set_field(&mut o, "agentId", opt_text_json(agent_id));
    set_field(&mut o, "skills", Json::Array(out));
    set_field(&mut o, "summary", Json::Object(summary));
    Json::Object(o)
}

/// The programs of all skills.
pub open spec fn all_bins(entries: Seq<(String, SkillConfig)>) -> Seq<Seq<char>>
    decreases entries.len(),
{
    if entries.len() == 0 {
        Seq::empty()
    } else {
        all_bins(entries.drop_last()) + texts(entries.last().1.bins@)
    }
}

/// The programs that skills need, each once, in the order of texts.
pub fn handle_bins(entries: &SortedMap<SkillConfig>) -> (r: Json)
    ensures
        r@ == JsonModel::Object(
            no_fields()
                .insert("bins"@, text_array(sorted_of(all_bins(entries.entries())))),
        ),
{
    let n: usize = entries.len();
    let ghost all = entries.entries();
    let mut bins: Vec<String> = Vec::new();
    let mut i: usize = 0;
    assert(texts(bins@) =~= all_bins(all.take(0)));
    while i < n
        invariant
            n == entries.keys().len(),
            n == all.len(),
            all == entries.entries(),
            i <= n,
            texts(bins@) == all_bins(all.take(i as int)),
        decreases n - i,
    {
        let (_, config) = entries.entry(i);
        let ghost so_far = bins@;
        proof {
            let t = all.take(i + 1);
            assert(t.drop_last() =~= all.take(i as int));
            assert(t.last() == all[i as int]);
        }
        let mut k: usize = 0;
        assert(texts(bins@) =~= texts(so_far) + texts(config.bins@).take(0));
        while k < config.bins.len()
            invariant
                k <= config.bins@.len(),
                texts(bins@) == texts(so_far) + texts(config.bins@).take(k as int),
            decreases config.bins@.len() - k,
        {
            let ghost inner = bins@;
            bins.push(config.bins[k].clone());
            k = k + 1;
            assert(texts(bins@) =~= texts(inner).push(config.bins@[k - 1]@));
            assert(texts(bins@) =~= texts(so_far) + texts(config.bins@).take(k as int));
        }
        assert(texts(config.bins@).take(k as int) =~= texts(config.bins@));
        i = i + 1;
    }
    assert(all.take(i as int) =~= all);
    let mut o = object();
    set_field(&mut o, "bins", texts_json(&normalized_bins(&bins)));
    Json::Object(o)
}

// ---------------------------------------------------------------------------------------------
// The method `skills.install`
// ---------------------------------------------------------------------------------------------
/// Which skill is installed.
pub struct SkillsInstallParams {
    pub name: String,
    pub install_id: String,
    pub timeout_ms: Option<u64>,
}

/// Why no skill is installed.
pub open spec fn install_refusal(params: SkillsInstallParams) -> Option<ErrorModel> {
    if kept(params.name@) is None {
        Some(field_missing("skills.install"@, "name"@))
    } else if kept(params.install_id@) is None {
        Some(field_missing("skills.install"@, "installId"@))
    } else if slug(kept(params.name@)->0, false).len() == 0 {
        Some(invalid("invalid skills.install params: name is not a valid skill key"@))
    } else {
        None
    }
}

/// The programs of a skill that may not have been set up before.
pub open spec fn bins_or_guess(bins: Seq<Seq<char>>, key: Seq<char>) -> Seq<Seq<char>> {
    if bins.len() == 0 {
        sorted_of(guessed_bins(key))
    } else {
        bins
    }
}

/// How a skill is set up before anything is known of it.
pub open spec fn is_unset(config: SkillConfig) -> bool {
    &&& config.enabled is None
    &&& config.api_key is None
    &&& fields(config.env) == no_fields()
    &&& config.bins@.len() == 0
    &&& !config.installed
    &&& config.install_id is None
    &&& config.updated_at_ms is None
}

/// How a skill was set up: as it is stored, or not at all.
pub open spec fn was_set_up(
    config: SkillConfig,
    entries: Map<Seq<char>, SkillConfig>,
    key: Seq<char>,
) -> bool {
    if entries.contains_key(key) {
        config == entries[key]
    } else {
        is_unset(config)
    }
}

fn take_config(entries: &mut SortedMap<SkillConfig>, key: &str) -> (r: SkillConfig)
    ensures
        was_set_up(r, old(entries)@, key@),
        final(entries)@ == old(entries)@.remove(key@),
{
    match entries.remove(key) {
        Some(config) => config,
        None => SkillConfig {
            enabled: None,
            api_key: None,
            env: object(),
            bins: Vec::new(),
            installed: false,
            install_id: None,
            updated_at_ms: None,
        },
    }
}

/// How a skill is set up once it is installed: what was set up stays.
pub open spec fn is_installed(
    new: SkillConfig,
    old: SkillConfig,
    key: Seq<char>,
    install_id: Seq<char>,
    now: u64,
) -> bool {
    &&& new.enabled == Some(old.enabled != Some(false))
    &&& new.api_key == old.api_key
    &&& new.env == old.env
    &&& texts(new.bins@) == bins_or_guess(texts(old.bins@), key)
    &&& new.installed
    &&& opt_text(new.install_id) == Some(install_id)
    &&& new.updated_at_ms == Some(now)
}

/// Installs a skill. The skills afterwards, and the answer.
pub fn handle_install(
    params: &SkillsInstallParams,
    loaded: Result<SortedMap<SkillConfig>, ErrorShape>,
    now: u64,
) -> (r: Result<(SortedMap<SkillConfig>, Json), ErrorShape>)
    ensures
        match (install_refusal(*params), loaded) {
            (Some(error), _) => r is Err && r->Err_0@ == error,
            (None, Err(error)) => r is Err && r->Err_0@ == error@,
            (None, Ok(entries)) => {
                let key = slug(kept(params.name@)->0, false);
                let new = r->Ok_0.0@[key];
                &&& r is Ok
                &&& r->Ok_0.0@ == entries@.insert(key, new)
                &&& exists|old: SkillConfig|
                    #[trigger] was_set_up(old, entries@, key) && is_installed(
                        new,
                        old,
                        key,
                        kept(params.install_id@)->0,
                        now,
                    )
                &&& r->Ok_0.1@ == JsonModel::Object(
                    no_fields()
                        .insert("ok"@, JsonModel::Bool(true))
                        .insert("name"@, JsonModel::Text(key))
                        .insert("installId"@, JsonModel::Text(kept(params.install_id@)->0))
                        .insert("timeoutMs"@, number_or_null(params.timeout_ms))
                        .insert("installedAtMs"@, JsonModel::Unsigned(now)),
                )
            },
        },
{
    let name = required_text("skills.install", "name", params.name.as_str())?;
    let install_id = required_text("skills.install", "installId", params.install_id.as_str())?;
    let key = normalize_skill_key(name.as_str());
    if key.as_str().is_empty() {
        return Err(
            invalid_request("invalid skills.install params: name is not a valid skill key"),
        );
    }
    let mut entries = match loaded {
        Ok(entries) => entries,
        Err(error) => {
            return Err(error);
        },
    };
    let ghost before = entries@;
    let old = take_config(&mut entries, key.as_str());
    assert(was_set_up(old, before, key@));
    let enabled: bool = match old.enabled {
        Some(enabled) => enabled,
        None => true,
    };
    assert(texts(old.bins@).len() == old.bins@.len());
    let bins = if old.bins.len() == 0 {
        infer_skill_bins(key.as_str())
    } else {
        old.bins
    };
    let mut o = object();
    set_field(&mut o, "ok", Json::Bool(true));
    set_field(&mut o, "name", text(key.as_str()));
    set_field(&mut o, "installId", text(install_id.as_str()));
    set_field(&mut o, "timeoutMs", opt_number_json(params.timeout_ms));
    set_field(&mut o, "installedAtMs", Json::Unsigned(now));
    let next = SkillConfig {
        enabled: Some(enabled),
        api_key: old.api_key,
        env: old.env,
        bins,
        installed: true,
        install_id: Some(install_id),
        updated_at_ms: Some(now),
    };
    let ghost new = next;
    entries.insert(key, next);
    assert(entries@ =~= before.insert(key@, new));
    Ok((entries, Json::Object(o)))
}

// ---------------------------------------------------------------------------------------------
// The method `skills.update`
// ---------------------------------------------------------------------------------------------
/// How a skill is set up anew.
pub struct SkillsUpdateParams {
    pub skill_key: String,
    pub enabled: Option<bool>,
    pub api_key: Option<String>,
    pub env: Option<SortedMap<Json>>,
}

/// Why no skill is set up.
pub open spec fn update_refusal(skill_key: Seq<char>) -> Option<ErrorModel> {
    if kept(skill_key) is None {
        Some(field_missing("skills.update"@, "skillKey"@))
    } else if slug(kept(skill_key)->0, false).len() == 0 {
        Some(invalid("invalid skills.update params: skillKey is not valid"@))
    } else {
        None
    }
}

/// The environment after one more variable: a blank text or null takes it out.
pub open spec fn env_with(
    env: Map<Seq<char>, JsonModel>,
    name: Seq<char>,
    value: JsonModel,
) -> Map<Seq<char>, JsonModel> {
    match kept(name) {
        None => env,
        Some(n) => match value {
            JsonModel::Text(s) => match kept(s) {
                Some(t) => env.insert(n, JsonModel::Text(t)),
                None => env.remove(n),
            },
            JsonModel::Null => env.remove(n),
            other => env.insert(n, other),
        },
    }
}

/// The environment after a change, which is made in the order of the names.
pub open spec fn env_after(env: Map<Seq<char>, JsonModel>, change: Seq<(String, Json)>) -> Map<
    Seq<char>,
    JsonModel,
>
    decreases change.len(),
{
    if change.len() == 0 {
        env
    } else {
        env_with(env_after(env, change.drop_last()), change.last().0@, change.last().1@)
    }
}

fn set_variable(env: &mut SortedMap<Json>, name: &str, value: &Json)
    ensures
        fields(*final(env)) == env_with(fields(*old(env)), name@, value@),
{
    let name = match trim_non_empty(name) {
        Some(name) => name,
        None => {
            return;
        },
    };
    match value {
        Json::Text(s) => match trim_non_empty(s.as_str()) {
            Some(t) => {
                set_field(env, name.as_str(), text(t.as_str()));
            },
            None => {
                crate::json::remove_field(env, name.as_str());
            },
        },
        Json::Null => {
            crate::json::remove_field(env, name.as_str());
        },
        other => {
            set_field(env, name.as_str(), other.copy());
        },
    }
}

fn change_env(env: SortedMap<Json>, change: &SortedMap<Json>) -> (r: SortedMap<Json>)
    ensures
        fields(r) == env_after(fields(env), change.entries()),
{
    let mut env = env;
    let ghost start = fields(env);
    let n: usize = change.len();
    let ghost all = change.entries();
    let mut i: usize = 0;
    assert(all.take(0).len() == 0);
    while i < n
        invariant
            n == change.keys().len(),
            n == all.len(),
            all == change.entries(),
            i <= n,
            fields(env) == env_after(start, all.take(i as int)),
        decreases n - i,
    {
        let (name, value) = change.entry(i);
        proof {
            let t = all.take(i + 1);
            assert(t.drop_last() =~= all.take(i as int));
            assert(t.last() == all[i as int]);
            assert(all[i as int].0@ == name@);
        }
        set_variable(&mut env, name.as_str(), value);
        i = i + 1;
    }
    assert(all.take(i as int) =~= all);
    env
}

/// How a skill is set up after a change.
pub open spec fn is_updated(
    new: SkillConfig,
    old: SkillConfig,
    params: SkillsUpdateParams,
    key: Seq<char>,
    now: u64,
) -> bool {
    &&& new.enabled == (if params.enabled is Some {
        params.enabled
    } else {
        old.enabled
    })
    &&& opt_text(new.api_key) == (if params.api_key is Some {
        kept_opt(opt_text(params.api_key))
    } else {
        opt_text(old.api_key)
    })
    &&& fields(new.env) == (match params.env {
        Some(change) => env_after(fields(old.env), change.entries()),
        None => fields(old.env),
    })
    &&& texts(new.bins@) == bins_or_guess(texts(old.bins@), key)
    &&& new.installed == old.installed
    &&& new.install_id == old.install_id
    &&& new.updated_at_ms == Some(now)
}

/// Sets a skill up. The skills afterwards, and the answer.
pub fn handle_update(
    params: SkillsUpdateParams,
    loaded: Result<SortedMap<SkillConfig>, ErrorShape>,
    now: u64,
) -> (r: Result<(SortedMap<SkillConfig>, Json), ErrorShape>)
    ensures
        match (update_refusal(params.skill_key@), loaded) {
            (Some(error), _) => r is Err && r->Err_0@ == error,
            (None, Err(error)) => r is Err && r->Err_0@ == error@,
            (None, Ok(entries)) => {
                let key = slug(kept(params.skill_key@)->0, false);
                let new = r->Ok_0.0@[key];
                &&& r is Ok
                &&& r->Ok_0.0@ == entries@.insert(key, new)
                &&& exists|old: SkillConfig|
                    #[trigger] was_set_up(old, entries@, key) && is_updated(new, old, params, key, now)
                &&& r->Ok_0.1@ == JsonModel::Object(
                    no_fields()
                        .insert("ok"@, JsonModel::Bool(true))
                        .insert("skillKey"@, JsonModel::Text(key))
                        .insert("config"@, skill_config_json(new)),
                )
            },
        },
{
    let raw = required_text("skills.update", "skillKey", params.skill_key.as_str())?;
    let key = normalize_skill_key(raw.as_str());
    if key.as_str().is_empty() {
        return Err(invalid_request("invalid skills.update params: skillKey is not valid"));
    }
    let mut entries = match loaded {
        Ok(entries) => entries,
        Err(error) => {
            return Err(error);
        },
    };
    let ghost before = entries@;
    let old = take_config(&mut entries, key.as_str());
    assert(was_set_up(old, before, key@));
    let enabled = if params.enabled.is_some() {
        params.enabled
    } else {
        old.enabled
    };
    let api_key = if params.api_key.is_some() {
        trim_non_empty_opt(&params.api_key)
    } else {
        old.api_key
    };
    let env = match &params.env {
        Some(change) => change_env(old.env, change),
        None => old.env,
    };
    assert(texts(old.bins@).len() == old.bins@.len());
    let bins = if old.bins.len() == 0 {
        infer_skill_bins(key.as_str())
    } else {
        old.bins
    };
    let next = SkillConfig {
        enabled,
        api_key,
        env,
        bins,
        installed: old.installed,
        install_id: old.install_id,
        updated_at_ms: Some(now),
    };
    let mut o = object();
    set_field(&mut o, "ok", Json::Bool(true));
    set_field(&mut o, "skillKey", text(key.as_str()));
    set_field(&mut o, "config", next.to_json());
    let ghost new = next;
    entries.insert(key, next);
    assert(entries@ =~= before.insert(key@, new));
    Ok((entries, Json::Object(o)))
}

// ---------------------------------------------------------------------------------------------
// Laws
// ---------------------------------------------------------------------------------------------
/// A skill that is installed can be used, whatever was set up before.
pub proof fn law_installed_skills_are_eligible(
    new: SkillConfig,
    old: SkillConfig,
    key: Seq<char>,
    install_id: Seq<char>,
    now: u64,
)
    requires
        is_installed(new, old, key, install_id, now),
    ensures
        is_eligible(new),
        new.api_key == old.api_key,
        old.enabled == Some(false) ==> new.enabled == Some(false),
{
}

/// No skill is without a program that it needs.
pub proof fn law_skills_need_something(key: Seq<char>)
    ensures
        guessed_bins(key).len() > 0,
{
}

/// A change of the environment leaves the variables that it does not name.
pub proof fn law_other_variables_stay(
    env: Map<Seq<char>, JsonModel>,
    change: Seq<(String, Json)>,
    name: Seq<char>,
)
    requires
        forall|i: int| 0 <= i < change.len() ==> kept((#[trigger] change[i]).0@) != Some(name),
    ensures
        crate::json::field(env_after(env, change), name) == crate::json::field(env, name),
    decreases change.len(),
{
    if change.len() > 0 {
        let shorter = change.drop_last();
        assert forall|i: int| 0 <= i < shorter.len() implies kept((#[trigger] shorter[i]).0@) != Some(
            name,
        ) by {
            assert(shorter[i] == change[i]);
        }
        law_other_variables_stay(env, shorter, name);
        assert(kept(change[change.len() - 1].0@) != Some(name));
    }
}

/// What a skill needs is told from its key: each of the programs whose trace is in it, and the shell
/// where there is none.
pub proof fn law_what_skills_need(key: &str, r: Vec<String>)
    requires
        call_ensures(infer_skill_bins, (key,), r),
    ensures
        ({
            let python = has_part(key@, "python"@) || has_part(key@, "pip"@);
            let node = has_part(key@, "node"@) || has_part(key@, "npm"@) || has_part(key@, "js"@);
            let git = has_part(key@, "git"@);
            &&& texts(r@).contains("python3"@) <==> python
            &&& texts(r@).contains("node"@) <==> node
            &&& texts(r@).contains("git"@) <==> git
            &&& texts(r@).contains("sh"@) <==> !python && !node && !git
        }),
{
    reveal_strlit("python3");
    reveal_strlit("node");
    reveal_strlit("git");
    reveal_strlit("sh");
    assert("python3"@.len() != "node"@.len());
    assert("python3"@.len() != "git"@.len());
    assert("python3"@.len() != "sh"@.len());
    assert("node"@.len() != "git"@.len());
    assert("node"@.len() != "sh"@.len());
    assert("git"@.len() != "sh"@.len());
    let guess = guessed_bins(key@);
    let out = texts(r@);
    assert(sorted_of(guess) == out);
    lemma_programs_are_said();
    assert forall|t: Seq<char>|
        #![trigger out.contains(t)]
        (t == "python3"@ || t == "node"@ || t == "git"@ || t == "sh"@) implies (out.contains(t)
        <==> guess.contains(t)) by {
        if guess.contains(t) {
            let k = choose|k: int| 0 <= k < guess.len() && guess[k] == t;
            assert(kept(guess[k]) == Some(t));
            assert(crate::lists::kept_from(guess, t));
        }
        if crate::lists::kept_from(guess, t) {
            let k = choose|k: int| 0 <= k < guess.len() && kept(#[trigger] guess[k]) == Some(t);
            assert(guess[k] == t);
            assert(guess.contains(t));
        }
    }
    let python = has_part(key@, "python"@) || has_part(key@, "pip"@);
    let node = has_part(key@, "node"@) || has_part(key@, "npm"@) || has_part(key@, "js"@);
    let git = has_part(key@, "git"@);
    if python {
        assert(guess[0] == "python3"@);
    }
    if node {
        assert(guess[if python { 1int } else { 0 }] == "node"@);
    }
    if git {
        assert(guess[(if python { 1int } else { 0 }) + (if node { 1int } else { 0 })] == "git"@);
    }
    if !python && !node && !git {
        assert(guess[0] == "sh"@);
    }
}

proof fn lemma_programs_are_said()
    ensures
        kept("python3"@) == Some("python3"@),
        kept("node"@) == Some("node"@),
        kept("git"@) == Some("git"@),
        kept("sh"@) == Some("sh"@),
{
    let w = |c: char| crate::text::is_white_space(c);
    reveal_strlit("python3");
    reveal_strlit("node");
    reveal_strlit("git");
    reveal_strlit("sh");
    crate::text::lemma_trim_both_fixed("python3"@, w);
    crate::text::lemma_trim_both_fixed("node"@, w);
    crate::text::lemma_trim_both_fixed("git"@, w);
    crate::text::lemma_trim_both_fixed("sh"@, w);
}

/// An installed skill is there under its reduced name, installed, with the id of its installation and
/// switched on unless it was switched off. Its key and its variables stay, and so do all other
/// skills.
pub proof fn law_installing(
    params: &SkillsInstallParams,
    entries: SortedMap<SkillConfig>,
    now: u64,
    name: &str,
    key: String,
    other: Seq<char>,
    r: Result<(SortedMap<SkillConfig>, Json), ErrorShape>,
)
    requires
        call_ensures(
            handle_install,
            (params, Ok::<SortedMap<SkillConfig>, ErrorShape>(entries), now),
            r,
        ),
        name@ == crate::text::trimmed(params.name@),
        call_ensures(normalize_skill_key, (name,), key),
    ensures
        r is Ok <==> crate::text::not_blank(params.name@) && crate::text::not_blank(params.install_id@) && key@.len() > 0,
        r is Ok ==> {
            let after = r->Ok_0.0@;
            let new = after[key@];
            &&& after.contains_key(key@)
            &&& other != key@ ==> (after.contains_key(other) <==> entries@.contains_key(other))
                && after[other] == entries@[other]
            &&& new.installed
            &&& new.install_id is Some && new.install_id->0@ == crate::text::trimmed(params.install_id@)
            &&& new.updated_at_ms == Some(now)
            &&& entries@.contains_key(key@) ==> new.api_key == entries@[key@].api_key && new.env
                == entries@[key@].env && new.enabled == Some(entries@[key@].enabled != Some(false))
            &&& entries@.contains_key(key@) && entries@[key@].bins@.len() > 0 ==> texts(new.bins@)
                == texts(entries@[key@].bins@)
            &&& !entries@.contains_key(key@) ==> new.enabled == Some(true) && new.api_key is None
            &&& crate::json::member(r->Ok_0.1@, "name"@) == Some(JsonModel::Text(key@))
            &&& crate::json::member(r->Ok_0.1@, "installId"@) == Some(JsonModel::Text(crate::text::trimmed(params.install_id@)))
        },
{
    crate::text::lemma_kept(params.name@);
    crate::text::lemma_kept(params.install_id@);
    if r is Ok && entries@.contains_key(key@) {
        assert(texts(entries@[key@].bins@).len() == entries@[key@].bins@.len());
    }
    reveal_strlit("ok");
    reveal_strlit("name");
    reveal_strlit("installId");
    reveal_strlit("timeoutMs");
    reveal_strlit("installedAtMs");
    assert("ok"@.len() != "name"@.len());
    assert("ok"@.len() != "installId"@.len());
    assert("ok"@.len() != "timeoutMs"@.len());
    assert("ok"@.len() != "installedAtMs"@.len());
    assert("name"@.len() != "installId"@.len());
    assert("name"@.len() != "timeoutMs"@.len());
    assert("name"@.len() != "installedAtMs"@.len());
    assert("installId"@[0] != "timeoutMs"@[0]);
    assert("installId"@.len() != "installedAtMs"@.len());
    assert("timeoutMs"@.len() != "installedAtMs"@.len());
}

/// What a change says of a skill takes the place of what was there, what it does not say stays, and
/// all other skills stay.
pub proof fn law_changing_skills(
    params: SkillsUpdateParams,
    entries: SortedMap<SkillConfig>,
    now: u64,
    name: &str,
    key: String,
    other: Seq<char>,
    r: Result<(SortedMap<SkillConfig>, Json), ErrorShape>,
)
    requires
        call_ensures(
            handle_update,
            (params, Ok::<SortedMap<SkillConfig>, ErrorShape>(entries), now),
            r,
        ),
        name@ == crate::text::trimmed(params.skill_key@),
        call_ensures(normalize_skill_key, (name,), key),
    ensures
        r is Ok <==> crate::text::not_blank(params.skill_key@) && key@.len() > 0,
        r is Ok ==> {
            let after = r->Ok_0.0@;
            let old = entries@[key@];
            let new = after[key@];
            &&& after.contains_key(key@)
            &&& other != key@ ==> (after.contains_key(other) <==> entries@.contains_key(other))
                && after[other] == entries@[other]
            &&& new.updated_at_ms == Some(now)
            &&& params.enabled is Some ==> new.enabled == params.enabled
            &&& params.api_key is Some && crate::text::not_blank(params.api_key->0@) ==> opt_text(new.api_key) == Some(
                crate::text::trimmed(params.api_key->0@),
            )
            &&& params.api_key is Some && !crate::text::not_blank(params.api_key->0@) ==> new.api_key is None
            &&& entries@.contains_key(key@) ==> {
                &&& params.enabled is None ==> new.enabled == old.enabled
                &&& params.api_key is None ==> opt_text(new.api_key) == opt_text(old.api_key)
                &&& params.env is None ==> fields(new.env) == fields(old.env)
                &&& new.installed == old.installed && new.install_id == old.install_id
            }
            &&& crate::json::member(r->Ok_0.1@, "skillKey"@) == Some(JsonModel::Text(key@))
        },
{
    crate::text::lemma_kept(params.skill_key@);
    if params.api_key is Some {
        crate::text::lemma_kept(params.api_key->0@);
    }
    reveal_strlit("ok");
    reveal_strlit("skillKey");
    reveal_strlit("config");
    assert("ok"@.len() != "skillKey"@.len());
    assert("ok"@.len() != "config"@.len());
    assert("skillKey"@.len() != "config"@.len());
}

/// A variable that is given is set, and one that is blank or null is taken away.
pub proof fn law_variables(
    env: Map<Seq<char>, JsonModel>,
    name: Seq<char>,
    value: JsonModel,
    params: SkillsUpdateParams,
    entries: SortedMap<SkillConfig>,
    now: u64,
    skill: &str,
    key: String,
    given: (String, Json),
    r: Result<(SortedMap<SkillConfig>, Json), ErrorShape>,
)
    requires
        call_ensures(
            handle_update,
            (params, Ok::<SortedMap<SkillConfig>, ErrorShape>(entries), now),
            r,
        ),
        skill@ == crate::text::trimmed(params.skill_key@),
        call_ensures(normalize_skill_key, (skill,), key),
        r is Ok,
        entries@.contains_key(key@),
        env == fields(entries@[key@].env),
        params.env is Some && params.env->0.entries() == seq![given],
        crate::text::not_blank(given.0@),
        name == crate::text::trimmed(given.0@),
        value == given.1@,
    ensures
        ({
            let after = fields(r->Ok_0.0@[key@].env);
            &&& value is Null || (value is Text && !crate::text::not_blank(value->Text_0)) ==> after == env.remove(name)
            &&& value is Text && crate::text::not_blank(value->Text_0) ==> after == env.insert(
                name,
                JsonModel::Text(crate::text::trimmed(value->Text_0)),
            )
            &&& !(value is Null) && !(value is Text) ==> after == env.insert(name, value)
        }),
{
    crate::text::lemma_kept(params.skill_key@);
    crate::text::lemma_kept(given.0@);
    if value is Text {
        crate::text::lemma_kept(value->Text_0);
    }
    let change = params.env->0.entries();
    assert(change.drop_last() =~= Seq::<(String, Json)>::empty());
    assert(change.last() == given);
    reveal_with_fuel(env_after, 3);
}

/// Every skill is shown at its place: switched on where it is said to be, or else where it is
/// installed, and eligible where it is installed or switched on.
pub proof fn law_skills_are_shown(
    agent_id: &Option<String>,
    entries: &SortedMap<SkillConfig>,
    i: int,
    r: Json,
)
    requires
        call_ensures(handle_status, (agent_id, entries), r),
        0 <= i < entries.entries().len(),
    ensures
        ({
            let shown = crate::json::member(r@, "skills"@)->0->Array_0;
            let name = entries.entries()[i].0@;
            let config = entries.entries()[i].1;
            &&& crate::json::member(r@, "skills"@) is Some && crate::json::member(r@, "skills"@)->0 is Array
            &&& shown.len() == entries.entries().len()
            &&& crate::json::member(shown[i], "skillKey"@) == Some(JsonModel::Text(name))
            &&& crate::json::member(shown[i], "installed"@) == Some(JsonModel::Bool(config.installed))
            &&& crate::json::member(shown[i], "enabled"@) == Some(
                JsonModel::Bool(
                    if config.enabled is Some {
                        config.enabled->0
                    } else {
                        config.installed
                    },
                ),
            )
            &&& crate::json::member(shown[i], "eligible"@) == Some(
                JsonModel::Bool(config.installed || config.enabled == Some(true)),
            )
        }),
{
    reveal_strlit("agentId");
    reveal_strlit("skills");
    reveal_strlit("summary");
    reveal_strlit("name");
    reveal_strlit("skillKey");
    reveal_strlit("enabled");
    reveal_strlit("installed");
    reveal_strlit("eligible");
    reveal_strlit("blockedByAllowlist");
    reveal_strlit("missingRequirements");
    reveal_strlit("requiresBins");
    reveal_strlit("updatedAtMs");
    assert("agentId"@.len() != "skills"@.len());
    assert("agentId"@[0] != "summary"@[0]);
    assert("agentId"@.len() != "name"@.len());
    assert("agentId"@.len() != "skillKey"@.len());
    assert("agentId"@[0] != "enabled"@[0]);
    assert("agentId"@.len() != "installed"@.len());
    assert("agentId"@.len() != "eligible"@.len());
    assert("agentId"@.len() != "blockedByAllowlist"@.len());
    assert("agentId"@.len() != "missingRequirements"@.len());
    assert("agentId"@.len() != "requiresBins"@.len());
    assert("agentId"@.len() != "updatedAtMs"@.len());
    assert("skills"@.len() != "summary"@.len());
    assert("skills"@.len() != "name"@.len());
    assert("skills"@.len() != "skillKey"@.len());
    assert("skills"@.len() != "enabled"@.len());
    assert("skills"@.len() != "installed"@.len());
    assert("skills"@.len() != "eligible"@.len());
    assert("skills"@.len() != "blockedByAllowlist"@.len());
    assert("skills"@.len() != "missingRequirements"@.len());
    assert("skills"@.len() != "requiresBins"@.len());
    assert("skills"@.len() != "updatedAtMs"@.len());
    assert("summary"@.len() != "name"@.len());
    assert("summary"@.len() != "skillKey"@.len());
    assert("summary"@[0] != "enabled"@[0]);
    assert("summary"@.len() != "installed"@.len());
    assert("summary"@.len() != "eligible"@.len());
    assert("summary"@.len() != "blockedByAllowlist"@.len());
    assert("summary"@.len() != "missingRequirements"@.len());
    assert("summary"@.len() != "requiresBins"@.len());
    assert("summary"@.len() != "updatedAtMs"@.len());
    assert("name"@.len() != "skillKey"@.len());
    assert("name"@.len() != "enabled"@.len());
    assert("name"@.len() != "installed"@.len());
    assert("name"@.len() != "eligible"@.len());
    assert("name"@.len() != "blockedByAllowlist"@.len());
    assert("name"@.len() != "missingRequirements"@.len());
    assert("name"@.len() != "requiresBins"@.len());
    assert("name"@.len() != "updatedAtMs"@.len());
    assert("skillKey"@.len() != "enabled"@.len());
    assert("skillKey"@.len() != "installed"@.len());
    assert("skillKey"@[0] != "eligible"@[0]);
    assert("skillKey"@.len() != "blockedByAllowlist"@.len());
    assert("skillKey"@.len() != "missingRequirements"@.len());
    assert("skillKey"@.len() != "requiresBins"@.len());
    assert("skillKey"@.len() != "updatedAtMs"@.len());
    assert("enabled"@.len() != "installed"@.len());
    assert("enabled"@.len() != "eligible"@.len());
    assert("enabled"@.len() != "blockedByAllowlist"@.len());
    assert("enabled"@.len() != "missingRequirements"@.len());
    assert("enabled"@.len() != "requiresBins"@.len());
    assert("enabled"@.len() != "updatedAtMs"@.len());
    assert("installed"@.len() != "eligible"@.len());
    assert("installed"@.len() != "blockedByAllowlist"@.len());
    assert("installed"@.len() != "missingRequirements"@.len());
    assert("installed"@.len() != "requiresBins"@.len());
    assert("installed"@.len() != "updatedAtMs"@.len());
    assert("eligible"@.len() != "blockedByAllowlist"@.len());
    assert("eligible"@.len() != "missingRequirements"@.len());
    assert("eligible"@.len() != "requiresBins"@.len());
    assert("eligible"@.len() != "updatedAtMs"@.len());
    assert("blockedByAllowlist"@.len() != "missingRequirements"@.len());
    assert("blockedByAllowlist"@.len() != "requiresBins"@.len());
    assert("blockedByAllowlist"@.len() != "updatedAtMs"@.len());
    assert("missingRequirements"@.len() != "requiresBins"@.len());
    assert("missingRequirements"@.len() != "updatedAtMs"@.len());
    assert("requiresBins"@.len() != "updatedAtMs"@.len());
}

/// The skills are what is stored, and none where nothing is.
pub proof fn law_stored_skills(
    stored: Option<Result<SortedMap<SkillConfig>, String>>,
    r: Result<SortedMap<SkillConfig>, ErrorShape>,
)
    requires
        call_ensures(load_entries, (stored,), r),
    ensures
        r is Err <==> stored is Some && stored->0 is Err,
        stored is None ==> r->Ok_0@ == Map::<Seq<char>, SkillConfig>::empty(),
        stored is Some && stored->0 is Ok ==> r->Ok_0 == stored->0->Ok_0,
{
}

} // verus!
