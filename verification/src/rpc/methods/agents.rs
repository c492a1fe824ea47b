//! The registry of agents, and the files of their workspaces.
use crate::domain::models::SessionRecord;
use crate::json::{
    member, no_fields, number_or_null, object, opt_number_json, opt_text_json, set_field, text, text_or_null,
    Json, JsonModel,
};
use crate::paths::{join_path, joined_path, parent, parent_of};
use crate::protocol::errors::{
    invalid, invalid_request, unavailable, ErrorModel, ErrorShape, ERROR_UNAVAILABLE,
};
use crate::rpc::methods::{listed, owned};
use crate::slug::{slug, slug_of};
use crate::text::{
    after_prefix, cat, cat3, cat5, either, first_of, kept, kept_opt, law_split_at_a_separator,
    lemma_kept, not_blank, opt_text, or_text, same, split,
    split_at_char, strip_prefix, text_or, texts, trim, trim_non_empty, trim_non_empty_opt, trimmed,
};
use vstd::prelude::*;
use vstd::utf8::encode_utf8;

verus! {

broadcast use vstd::seq::group_seq_axioms;

pub const AGENTS_REGISTRY_KEY: &'static str = "runtime/agents/registry";

pub const DEFAULT_AGENT_ID: &'static str = "main";

// ---------------------------------------------------------------------------------------------
// The registry
// ---------------------------------------------------------------------------------------------
/// An agent of the registry.
pub struct AgentRecord {
    pub agent_id: String,
    pub name: String,
    pub workspace: String,
    pub model: Option<String>,
    pub avatar: Option<String>,
    pub created_at_ms: u64,
    pub updated_at_ms: u64,
}

/// The JSON of the record.
pub open spec fn agent_record_json(r: AgentRecord) -> JsonModel {
    JsonModel::Object(
        no_fields().insert("agentId"@, JsonModel::Text(r.agent_id@)).insert("name"@, JsonModel::Text(r.name@)).insert("workspace"@, JsonModel::Text(r.workspace@)).insert("model"@, text_or_null(opt_text(r.model))).insert("avatar"@, text_or_null(opt_text(r.avatar))).insert("createdAtMs"@, JsonModel::Unsigned(r.created_at_ms)).insert("updatedAtMs"@, JsonModel::Unsigned(r.updated_at_ms)),
    )
}

impl AgentRecord {
    /// The JSON of the record.
    pub fn to_json(&self) -> (r: Json)
        ensures
            r@ == agent_record_json(*self),
    {
        let mut o = object();
        set_field(&mut o, "agentId", text(self.agent_id.as_str()));
        set_field(&mut o, "name", text(self.name.as_str()));
        set_field(&mut o, "workspace", text(self.workspace.as_str()));
        set_field(&mut o, "model", opt_text_json(&self.model));
        set_field(&mut o, "avatar", opt_text_json(&self.avatar));
        set_field(&mut o, "createdAtMs", Json::Unsigned(self.created_at_ms));
        set_field(&mut o, "updatedAtMs", Json::Unsigned(self.updated_at_ms));
        Json::Object(o)
    }
}

/// Agents as JSON.
pub open spec fn agents_json(items: Seq<AgentRecord>) -> Seq<JsonModel> {
    items.map_values(|item: AgentRecord| agent_record_json(item))
}

/// Agents as JSON.
pub fn agents_to_json(items: &Vec<AgentRecord>) -> (r: Json)
    ensures
        r@ == JsonModel::Array(agents_json(items@)),
{
    let mut out: Vec<Json> = Vec::new();
    let mut i: usize = 0;
    while i < items.len()
        invariant
            i <= items@.len(),
            out@.len() == i,
            forall|k: int| 0 <= k < i ==> (#[trigger] out@[k])@ == agent_record_json(items@[k]),
        decreases items@.len() - i,
    {
        out.push(items[i].to_json());
        i = i + 1;
    }
    proof {
        crate::json::lemma_models(out@);
        assert(crate::json::models(out@) =~= agents_json(items@));
    }
    Json::Array(out)
}

/// The place of an agent in the registry; behind the last one where there is none of the id.
pub open spec fn place_of(agents: Seq<AgentRecord>, id: Seq<char>) -> nat
    decreases agents.len(),
{
    if agents.len() == 0 || agents[0].agent_id@ == id {
        0
    } else {
        1 + place_of(agents.skip(1), id)
    }
}

/// There is an agent of the id.
pub open spec fn has_agent(agents: Seq<AgentRecord>, id: Seq<char>) -> bool {
    exists|i: int| 0 <= i < agents.len() && (#[trigger] agents[i]).agent_id@ == id
}

/// No two agents have one id.
pub open spec fn ids_differ(agents: Seq<AgentRecord>) -> bool {
    forall|i: int, j: int|
        #![trigger agents[i], agents[j]]
        0 <= i < j < agents.len() ==> agents[i].agent_id@ != agents[j].agent_id@
}

pub proof fn lemma_place_of(agents: Seq<AgentRecord>, id: Seq<char>)
    ensures
        place_of(agents, id) <= agents.len(),
        place_of(agents, id) < agents.len() ==> agents[place_of(agents, id) as int].agent_id@ == id,
        forall|k: int| 0 <= k < place_of(agents, id) ==> (#[trigger] agents[k]).agent_id@ != id,
        has_agent(agents, id) <==> place_of(agents, id) < agents.len(),
    decreases agents.len(),
{
    if agents.len() > 0 && agents[0].agent_id@ != id {
        let rest = agents.skip(1);
        lemma_place_of(rest, id);
        assert forall|k: int| 0 <= k < place_of(agents, id) implies (#[trigger] agents[k]).agent_id@ != id by {
            if k > 0 {
                assert(rest[k - 1] == agents[k]);
            }
        }
        if has_agent(agents, id) {
            let i = choose|i: int| 0 <= i < agents.len() && (#[trigger] agents[i]).agent_id@ == id;
            assert(rest[i - 1] == agents[i]);
        }
    }
}

/// The place of an agent in the registry; behind the last one where there is none of the id.
pub fn find_agent(agents: &Vec<AgentRecord>, id: &str) -> (r: usize)
    ensures
        r == place_of(agents@, id@),
        r <= agents@.len(),
        has_agent(agents@, id@) <==> r < agents@.len(),
        r < agents@.len() ==> agents@[r as int].agent_id@ == id@,
{
    let mut i: usize = 0;
    assert(agents@.skip(0) =~= agents@);
    while i < agents.len()
        invariant
            i <= agents@.len(),
            place_of(agents@, id@) == i + place_of(agents@.skip(i as int), id@),
        decreases agents@.len() - i,
    {
        let ghost rest = agents@.skip(i as int);
        assert(rest[0] == agents@[i as int]);
        if same(agents[i].agent_id.as_str(), id) {
            proof {
                lemma_place_of(agents@, id@);
            }
            return i;
        }
        assert(rest.skip(1) =~= agents@.skip(i + 1));
        i = i + 1;
    }
    proof {
        lemma_place_of(agents@, id@);
    }
    i
}

/// The directory of the agents' workspaces: beside the database.
pub open spec fn agents_dir(db_path: Seq<char>) -> Seq<char> {
    match parent_of(db_path) {
        Some(dir) => joined_path(dir, "agents"@),
        None => "./agents"@,
    }
}

/// The directory of the agents' workspaces.
pub fn agents_root(db_path: &str) -> (r: String)
    ensures
        r@ == agents_dir(db_path@),
{
    match parent(db_path) {
        Some(dir) => join_path(dir.as_str(), "agents"),
        None => "./agents".to_owned(),
    }
}

/// A path with the home directory in place of a tilde at its beginning.
pub open spec fn home_expanded(path: Seq<char>, home: Option<Seq<char>>) -> Seq<char> {
    if path == "~"@ && home is Some {
        home->0
    } else if after_prefix(path, "~/"@) is Some && home is Some {
        joined_path(home->0, after_prefix(path, "~/"@)->0)
    } else {
        path
    }
}

/// A path with the home directory in place of a tilde at its beginning.
pub fn expand_home(path: &str, home: &Option<String>) -> (r: String)
    ensures
        r@ == home_expanded(path@, opt_text(*home)),
{
    if let Some(home) = home {
        if same(path, "~") {
            return home.clone();
        }
        if let Some(rest) = strip_prefix(path, "~/") {
            return join_path(home.as_str(), rest.as_str());
        }
    }
    path.to_owned()
}

/// The workspace of an agent: the one that is named, or one of its own.
pub open spec fn workspace_path(
    raw: Option<Seq<char>>,
    id: Seq<char>,
    db_path: Seq<char>,
    home: Option<Seq<char>>,
) -> Seq<char> {
    match kept_opt(raw) {
        Some(path) => home_expanded(path, home),
        None => joined_path(agents_dir(db_path), id),
    }
}

/// The workspace of an agent.
pub fn resolve_workspace_path(
    raw: &Option<String>,
    id: &str,
    db_path: &str,
    home: &Option<String>,
) -> (r: String)
    ensures
        r@ == workspace_path(opt_text(*raw), id@, db_path@, opt_text(*home)),
{
    match trim_non_empty_opt(raw) {
        Some(path) => expand_home(path.as_str(), home),
        None => join_path(agents_root(db_path).as_str(), id),
    }
}

/// The agent that is there where nothing is stored.
pub open spec fn is_main_agent(agent: AgentRecord, workspace: Seq<char>, now: u64) -> bool {
    &&& agent.agent_id@ == DEFAULT_AGENT_ID@
    &&& agent.name@ == "Main"@
    &&& agent.workspace@ == workspace
    &&& agent.model is None
    &&& agent.avatar is None
    &&& agent.created_at_ms == now
    &&& agent.updated_at_ms == now
}

/// The agent that is there where nothing is stored.
pub fn default_main_agent(db_path: &str, now: u64) -> (r: AgentRecord)
    ensures
        is_main_agent(r, workspace_path(None, DEFAULT_AGENT_ID@, db_path@, None), now),
{
    AgentRecord {
        agent_id: DEFAULT_AGENT_ID.to_owned(),
        name: "Main".to_owned(),
        workspace: resolve_workspace_path(&None, DEFAULT_AGENT_ID, db_path, &None),
        model: None,
        avatar: None,
        created_at_ms: now,
        updated_at_ms: now,
    }
}

/// The agents, from what was read of the stored registry: the main one alone where there is none.
pub fn load_agents(
    stored: Option<Result<Vec<AgentRecord>, String>>,
    db_path: &str,
    now: u64,
) -> (r: Result<Vec<AgentRecord>, ErrorShape>)
    ensures
        match stored {
            Some(Err(error)) => r is Err && r->Err_0@ == unavailable(
                "failed to decode agents registry: "@ + error@,
            ),
            Some(Ok(agents)) if agents@.len() > 0 => r is Ok && r->Ok_0@ == agents@,
            _ => r is Ok && r->Ok_0@.len() == 1 && is_main_agent(
                r->Ok_0@[0],
                workspace_path(None, DEFAULT_AGENT_ID@, db_path@, None),
                now,
            ),
        },
{
    match stored {
        Some(Err(error)) => Err(
            ErrorShape::new(
                ERROR_UNAVAILABLE,
                cat("failed to decode agents registry: ", error.as_str()).as_str(),
            ),
        ),
        Some(Ok(agents)) => if agents.len() > 0 {
            Ok(agents)
        } else {
            Ok(vec![default_main_agent(db_path, now)])
        },
        None => Ok(vec![default_main_agent(db_path, now)]),
    }
}

/// The id of an agent of a name.
pub fn normalize_agent_id(name: &str) -> (r: String)
    ensures
        r@ == slug(name@, false),
{
    slug_of(name, false)
}

/// The error where something went wrong with files.
pub fn storage_error(error: &str) -> (r: ErrorShape)
    ensures
        r@ == unavailable("storage error: "@ + error@),
{
    ErrorShape::new(ERROR_UNAVAILABLE, cat("storage error: ", error).as_str())
}

/// The refusal where there is no agent of an id.
pub open spec fn agent_missing(id: Seq<char>) -> ErrorModel {
    invalid("agent \""@ + id + "\" not found"@)
}

fn missing_agent(id: &str) -> (r: ErrorShape)
    ensures
        r@ == agent_missing(id@),
{
    invalid_request(cat3("agent \"", id, "\" not found").as_str())
}

// ---------------------------------------------------------------------------------------------
// The method `agents.list`
// ---------------------------------------------------------------------------------------------
/// The agent that a session belongs to, by the session's id.
pub open spec fn session_owner(id: Seq<char>) -> Option<Seq<char>> {
    let parts = split(id, ':');
    if parts.len() > 1 && parts[0] == "agent"@ && kept(parts[1]) is Some {
        Some(parts[1])
    } else {
        None
    }
}

/// The agent that a session belongs to, by the session's id.
pub fn session_agent_id(id: &str) -> (r: Option<String>)
    ensures
        opt_text(r) == session_owner(id@),
{
    let parts = split_at_char(id, ':');
    assert(texts(parts@).len() == parts@.len());
    if parts.len() < 2 {
        return None;
    }
    assert(texts(parts@)[0] == parts@[0]@ && texts(parts@)[1] == parts@[1]@);
    if !same(parts[0].as_str(), "agent") || trim_non_empty(parts[1].as_str()).is_none() {
        return None;
    }
    Some(parts[1].clone())
}

/// How many sessions belong to an agent.
pub open spec fn sessions_of(sessions: Seq<SessionRecord>, id: Seq<char>) -> nat
    decreases sessions.len(),
{
    if sessions.len() == 0 {
        0
    } else {
        sessions_of(sessions.drop_last(), id) + if session_owner(sessions.last().id@) == Some(id) {
            1nat
        } else {
            0nat
        }
    }
}

/// How many sessions belong to an agent.
pub fn count_sessions(sessions: &Vec<SessionRecord>, id: &str) -> (r: u64)
    ensures
        r == sessions_of(sessions@, id@),
{
    let n: usize = sessions.len();
    let mut count: u64 = 0;
    let mut i: usize = 0;
    while i < n
        invariant
            n == sessions@.len(),
            i <= n,
            count <= i,
            count == sessions_of(sessions@.take(i as int), id@),
        decreases n - i,
    {
        proof {
            let t = sessions@.take(i + 1);
            assert(t.drop_last() =~= sessions@.take(i as int));
            assert(t.last() == sessions@[i as int]);
        }
        if let Some(owner) = session_agent_id(sessions[i].id.as_str()) {
            if same(owner.as_str(), id) {
                count = count + 1;
            }
        }
        i = i + 1;
    }
    assert(sessions@.take(i as int) =~= sessions@);
    count
}

/// What is listed of an agent.
pub open spec fn agent_item(agent: AgentRecord, sessions: nat, pending: bool) -> JsonModel {
    JsonModel::Object(
        no_fields()
            .insert("id"@, JsonModel::Text(agent.agent_id@))
            .insert("name"@, JsonModel::Text(agent.name@))
            .insert("workspace"@, JsonModel::Text(agent.workspace@))
            .insert("model"@, text_or_null(opt_text(agent.model)))
            .insert("avatar"@, text_or_null(opt_text(agent.avatar)))
            .insert("createdAtMs"@, JsonModel::Unsigned(agent.created_at_ms))
            .insert("updatedAtMs"@, JsonModel::Unsigned(agent.updated_at_ms))
            .insert("sessionsCount"@, JsonModel::Unsigned(sessions as u64))
            .insert("bootstrapPending"@, JsonModel::Bool(pending)),
    )
}

fn agent_item_json(agent: &AgentRecord, sessions: u64, pending: bool) -> (r: Json)
    ensures
        r@ == agent_item(*agent, sessions as nat, pending),
{
    let mut o = object();
    set_field(&mut o, "id", text(agent.agent_id.as_str()));
    set_field(&mut o, "name", text(agent.name.as_str()));
    set_field(&mut o, "workspace", text(agent.workspace.as_str()));
    set_field(&mut o, "model", opt_text_json(&agent.model));
    set_field(&mut o, "avatar", opt_text_json(&agent.avatar));
    set_field(&mut o, "createdAtMs", Json::Unsigned(agent.created_at_ms));
    set_field(&mut o, "updatedAtMs", Json::Unsigned(agent.updated_at_ms));
    set_field(&mut o, "sessionsCount", Json::Unsigned(sessions));
    set_field(&mut o, "bootstrapPending", Json::Bool(pending));
    Json::Object(o)
}

/// What is listed of the agents.
pub open spec fn agent_items(
    agents: Seq<AgentRecord>,
    sessions: Option<Seq<SessionRecord>>,
    pending: Seq<bool>,
) -> Seq<JsonModel> {
    Seq::new(
        agents.len(),
        |i: int|
            agent_item(
                agents[i],
                match sessions {
                    Some(list) => sessions_of(list, agents[i].agent_id@),
                    None => 0,
                },
                i < pending.len() && pending[i],
            ),
    )
}

/// The sessions that are given.
pub open spec fn listed_in(sessions: Option<Vec<SessionRecord>>) -> Option<Seq<SessionRecord>> {
    match sessions {
        Some(list) => Some(list@),
        None => None,
    }
}

/// The agents; their sessions are counted where they are given. Of each agent is told whether the
/// file of its first steps is still there.
pub fn handle_list(
    agents: &Vec<AgentRecord>,
    sessions: &Option<Vec<SessionRecord>>,
    pending: &Vec<bool>,
) -> (r: Json)
    ensures
        r@ == ({
            let items = agent_items(
                agents@,
                listed_in(*sessions),
                pending@,
            );
            JsonModel::Object(
                no_fields()
                    .insert("defaultId"@, JsonModel::Text(DEFAULT_AGENT_ID@))
                    .insert("agents"@, JsonModel::Array(items))
                    .insert("count"@, JsonModel::Unsigned(items.len() as u64)),
            )
        }),
{
    let ghost listed_sessions = listed_in(*sessions);
    let ghost items = agent_items(agents@, listed_sessions, pending@);
    let mut out: Vec<Json> = Vec::new();
    let n: usize = agents.len();
    let mut i: usize = 0;
    while i < n
        invariant
            n == agents@.len(),
            i <= n,
            out@.len() == i,
            listed_sessions == listed_in(*sessions),
            items == agent_items(agents@, listed_sessions, pending@),
            forall|k: int| 0 <= k < i ==> (#[trigger] out@[k])@ == items[k],
        decreases n - i,
    {
        let count: u64 = match sessions {
            Some(list) => count_sessions(list, agents[i].agent_id.as_str()),
            None => 0,
        };
        let waits = i < pending.len() && pending[i];
        out.push(agent_item_json(&agents[i], count, waits));
        i = i + 1;
    }
    proof {
        crate::json::lemma_models(out@);
        assert(crate::json::models(out@) =~= items);
    }
    let mut o = object();
    set_field(&mut o, "defaultId", text(DEFAULT_AGENT_ID));
    set_field(&mut o, "agents", Json::Array(out));
    set_field(&mut o, "count", Json::Unsigned(n as u64));
    Json::Object(o)
}

// ---------------------------------------------------------------------------------------------
// The method `agents.create`
// ---------------------------------------------------------------------------------------------
/// The agent that is made.
pub struct AgentsCreateParams {
    pub name: String,
    pub workspace: Option<String>,
    pub model: Option<String>,
    pub avatar: Option<String>,
    pub emoji: Option<String>,
}

/// What is done when an agent is made: the files of its workspace are written, the agents are
/// stored, and the answer is given.
pub struct AgentCreated {
    pub agents: Vec<AgentRecord>,
    pub registry: Json,
    pub workspace: String,
    pub name: String,
    pub emoji: Option<String>,
    pub answer: Json,
}

/// Why no agent can be made of the name.
pub open spec fn name_refusal(name: Seq<char>) -> Option<ErrorModel> {
    match kept(name) {
        None => Some(invalid("invalid agents.create params: name is required"@)),
        Some(n) => if slug(n, false).len() == 0 {
            Some(
                invalid(
                    "invalid agents.create params: name does not yield a valid agent id"@,
                ),
            )
        } else if slug(n, false) == DEFAULT_AGENT_ID@ {
            Some(invalid("\"main\" is reserved"@))
        } else {
            None
        },
    }
}

/// The agent that was made.
pub open spec fn is_created(
    agent: AgentRecord,
    params: AgentsCreateParams,
    db_path: Seq<char>,
    home: Option<Seq<char>>,
    now: u64,
) -> bool {
    &&& agent.agent_id@ == slug(trimmed(params.name@), false)
    &&& agent.name@ == trimmed(params.name@)
    &&& agent.workspace@ == workspace_path(
        opt_text(params.workspace),
        slug(trimmed(params.name@), false),
        db_path,
        home,
    )
    &&& opt_text(agent.model) == kept_opt(opt_text(params.model))
    &&& opt_text(agent.avatar) == kept_opt(opt_text(params.avatar))
    &&& agent.created_at_ms == now
    &&& agent.updated_at_ms == now
}

/// Makes an agent. Its name is looked at before the registry, and the registry holds each id once.
pub fn handle_create(
    params: AgentsCreateParams,
    loaded: Result<Vec<AgentRecord>, ErrorShape>,
    db_path: &str,
    home: &Option<String>,
    now: u64,
) -> (r: Result<AgentCreated, ErrorShape>)
    ensures
        match (name_refusal(params.name@), loaded) {
            (Some(error), _) => r is Err && r->Err_0@ == error,
            (None, Err(error)) => r is Err && r->Err_0@ == error@,
            (None, Ok(agents)) => {
                let id = slug(trimmed(params.name@), false);
                if has_agent(agents@, id) {
                    r is Err && r->Err_0@ == invalid("agent \""@ + id + "\" already exists"@)
                } else {
                    &&& r is Ok
                    &&& r->Ok_0.agents@.len() == agents@.len() + 1
                    &&& r->Ok_0.agents@.drop_last() == agents@
                    &&& is_created(
                        r->Ok_0.agents@.last(),
                        params,
                        db_path@,
                        opt_text(*home),
                        now,
                    )
                    &&& r->Ok_0.registry@ == JsonModel::Array(agents_json(r->Ok_0.agents@))
                    &&& r->Ok_0.workspace@ == r->Ok_0.agents@.last().workspace@
                    &&& r->Ok_0.name@ == trimmed(params.name@)
                    &&& r->Ok_0.emoji == params.emoji
                    &&& r->Ok_0.answer@ == JsonModel::Object(
                        no_fields()
                            .insert("ok"@, JsonModel::Bool(true))
                            .insert("agentId"@, JsonModel::Text(id))
                            .insert("name"@, JsonModel::Text(trimmed(params.name@)))
                            .insert("workspace"@, JsonModel::Text(r->Ok_0.workspace@)),
                    )
                }
            },
        },
{
    let name = match trim_non_empty(params.name.as_str()) {
        Some(name) => name,
        None => {
            return Err(invalid_request("invalid agents.create params: name is required"));
        },
    };
    let id = normalize_agent_id(name.as_str());
    if id.as_str().is_empty() {
        return Err(
            invalid_request(
                "invalid agents.create params: name does not yield a valid agent id",
            ),
        );
    }
    if same(id.as_str(), DEFAULT_AGENT_ID) {
        return Err(invalid_request("\"main\" is reserved"));
    }
    let mut agents = match loaded {
        Ok(agents) => agents,
        Err(error) => {
            return Err(error);
        },
    };
    if find_agent(&agents, id.as_str()) < agents.len() {
        return Err(
            invalid_request(cat3("agent \"", id.as_str(), "\" already exists").as_str()),
        );
    }
    let workspace = resolve_workspace_path(&params.workspace, id.as_str(), db_path, home);
    let mut answer = object();
    set_field(&mut answer, "ok", Json::Bool(true));
    set_field(&mut answer, "agentId", text(id.as_str()));
    set_field(&mut answer, "name", text(name.as_str()));
    set_field(&mut answer, "workspace", text(workspace.as_str()));
    let ghost before = agents@;
    agents.push(
        AgentRecord {
            agent_id: id,
            name: name.clone(),
            workspace: workspace.clone(),
            model: trim_non_empty_opt(&params.model),
            avatar: trim_non_empty_opt(&params.avatar),
            created_at_ms: now,
            updated_at_ms: now,
        },
    );
    assert(agents@.drop_last() =~= before);
    let registry = agents_to_json(&agents);
    Ok(
        AgentCreated {
            agents,
            registry,
            workspace,
            name,
            emoji: params.emoji,
            answer: Json::Object(answer),
        },
    )
}

// ---------------------------------------------------------------------------------------------
// The method `agents.update`
// ---------------------------------------------------------------------------------------------
/// What is changed of an agent.
pub struct AgentsUpdateParams {
    pub agent_id: Option<String>,
    pub id: Option<String>,
    pub name: Option<String>,
    pub workspace: Option<String>,
    pub model: Option<String>,
    pub avatar: Option<String>,
}

/// What is done when an agent is changed: the files of a new workspace are written, the agents are
/// stored, and the answer is given.
pub struct AgentUpdated {
    pub agents: Vec<AgentRecord>,
    pub registry: Json,
    pub workspace: Option<String>,
    pub name: String,
    pub answer: Json,
}

/// The agent after the change.
pub open spec fn is_updated(
    new: AgentRecord,
    old: AgentRecord,
    params: AgentsUpdateParams,
    db_path: Seq<char>,
    home: Option<Seq<char>>,
    now: u64,
) -> bool {
    &&& new == (AgentRecord {
        name: new.name,
        workspace: new.workspace,
        model: new.model,
        avatar: new.avatar,
        updated_at_ms: now,
        ..old
    })
    &&& new.name@ == text_or(kept_opt(opt_text(params.name)), old.name@)
    &&& new.workspace@ == (if params.workspace is Some {
        workspace_path(opt_text(params.workspace), old.agent_id@, db_path, home)
    } else {
        old.workspace@
    })
    &&& opt_text(new.model) == (if params.model is Some {
        kept_opt(opt_text(params.model))
    } else {
        opt_text(old.model)
    })
    &&& opt_text(new.avatar) == (if params.avatar is Some {
        kept_opt(opt_text(params.avatar))
    } else {
        opt_text(old.avatar)
    })
}

/// Changes an agent.
pub fn handle_update(
    params: AgentsUpdateParams,
    loaded: Result<Vec<AgentRecord>, ErrorShape>,
    db_path: &str,
    home: &Option<String>,
    now: u64,
) -> (r: Result<AgentUpdated, ErrorShape>)
    ensures
        match (kept_opt(first_of(opt_text(params.agent_id), opt_text(params.id))), loaded) {
            (None, _) => r is Err && r->Err_0@ == invalid(
                "invalid agents.update params: agentId is required"@,
            ),
            (Some(_), Err(error)) => r is Err && r->Err_0@ == error@,
            (Some(id), Ok(agents)) => {
                let at = place_of(agents@, id) as int;
                if !has_agent(agents@, id) {
                    r is Err && r->Err_0@ == agent_missing(id)
                } else {
                    &&& r is Ok
                    &&& at < agents@.len()
                    &&& r->Ok_0.agents@ == agents@.update(at, r->Ok_0.agents@[at])
                    &&& is_updated(
                        r->Ok_0.agents@[at],
                        agents@[at],
                        params,
                        db_path@,
                        opt_text(*home),
                        now,
                    )
                    &&& r->Ok_0.registry@ == JsonModel::Array(agents_json(r->Ok_0.agents@))
                    &&& opt_text(r->Ok_0.workspace) == (if params.workspace is Some {
                        Some(r->Ok_0.agents@[at].workspace@)
                    } else {
                        None
                    })
                    &&& r->Ok_0.name@ == r->Ok_0.agents@[at].name@
                    &&& r->Ok_0.answer@ == JsonModel::Object(
                        no_fields()
                            .insert("ok"@, JsonModel::Bool(true))
                            .insert("agentId"@, JsonModel::Text(id)),
                    )
                }
            },
        },
{
    let id = match trim_non_empty_opt(&either(params.agent_id, params.id)) {
        Some(id) => id,
        None => {
            return Err(invalid_request("invalid agents.update params: agentId is required"));
        },
    };
    let mut agents = match loaded {
        Ok(agents) => agents,
        Err(error) => {
            return Err(error);
        },
    };
    let ghost before = agents@;
    let at: usize = find_agent(&agents, id.as_str());
    if at == agents.len() {
        return Err(missing_agent(id.as_str()));
    }
    let old = agents.remove(at);
    let name = or_text(trim_non_empty_opt(&params.name), old.name.as_str());
    let (workspace, moved) = if params.workspace.is_some() {
        let path = resolve_workspace_path(&params.workspace, id.as_str(), db_path, home);
        (path.clone(), Some(path))
    } else {
        (old.workspace, None)
    };
    let model = if params.model.is_some() {
        trim_non_empty_opt(&params.model)
    } else {
        old.model
    };
    let avatar = if params.avatar.is_some() {
        trim_non_empty_opt(&params.avatar)
    } else {
        old.avatar
    };
    let next = AgentRecord {
        agent_id: old.agent_id,
        name: name.clone(),
        workspace,
        model,
        avatar,
        created_at_ms: old.created_at_ms,
        updated_at_ms: now,
    };
    agents.insert(at, next);
    assert(agents@ =~= before.update(at as int, agents@[at as int]));
    let registry = agents_to_json(&agents);
    let mut answer = object();
    set_field(&mut answer, "ok", Json::Bool(true));
    set_field(&mut answer, "agentId", text(id.as_str()));
    Ok(AgentUpdated { agents, registry, workspace: moved, name, answer: Json::Object(answer) })
}

// ---------------------------------------------------------------------------------------------
// The method `agents.delete`
// ---------------------------------------------------------------------------------------------
/// Which agent is removed.
pub struct AgentsDeleteParams {
    pub agent_id: Option<String>,
    pub id: Option<String>,
    pub delete_files: Option<bool>,
}

/// What is done when an agent is removed: the agents are stored, the workspace is removed where
/// one is given, and the answer is given.
pub struct AgentDeleted {
    pub agents: Vec<AgentRecord>,
    pub registry: Json,
    pub workspace: Option<String>,
    pub answer: Json,
}

/// Removes an agent; the main one stays.
pub fn handle_delete(params: AgentsDeleteParams, loaded: Result<Vec<AgentRecord>, ErrorShape>) -> (r:
    Result<AgentDeleted, ErrorShape>)
    ensures
        match (kept_opt(first_of(opt_text(params.agent_id), opt_text(params.id))), loaded) {
            (None, _) => r is Err && r->Err_0@ == invalid(
                "invalid agents.delete params: agentId is required"@,
            ),
            (Some(id), _) if id == DEFAULT_AGENT_ID@ => r is Err && r->Err_0@ == invalid(
                "\"main\" cannot be deleted"@,
            ),
            (Some(_), Err(error)) => r is Err && r->Err_0@ == error@,
            (Some(id), Ok(agents)) => {
                let at = place_of(agents@, id) as int;
                if !has_agent(agents@, id) {
                    r is Err && r->Err_0@ == agent_missing(id)
                } else {
                    &&& r is Ok
                    &&& r->Ok_0.agents@ == agents@.remove(at)
                    &&& r->Ok_0.registry@ == JsonModel::Array(agents_json(r->Ok_0.agents@))
                    &&& opt_text(r->Ok_0.workspace) == (if params.delete_files == Some(false) {
                        None
                    } else {
                        Some(agents@[at].workspace@)
                    })
                    &&& r->Ok_0.answer@ == JsonModel::Object(
                        no_fields()
                            .insert("ok"@, JsonModel::Bool(true))
                            .insert("agentId"@, JsonModel::Text(id))
                            .insert("removedBindings"@, JsonModel::Unsigned(1)),
                    )
                }
            },
        },
{
    let id = match trim_non_empty_opt(&either(params.agent_id, params.id)) {
        Some(id) => id,
        None => {
            return Err(invalid_request("invalid agents.delete params: agentId is required"));
        },
    };
    if same(id.as_str(), DEFAULT_AGENT_ID) {
        return Err(invalid_request("\"main\" cannot be deleted"));
    }
    let mut agents = match loaded {
        Ok(agents) => agents,
        Err(error) => {
            return Err(error);
        },
    };
    let at: usize = find_agent(&agents, id.as_str());
    if at == agents.len() {
        return Err(missing_agent(id.as_str()));
    }
    let removed = agents.remove(at);
    let workspace = match params.delete_files {
        Some(false) => None,
        _ => Some(removed.workspace),
    };
    let registry = agents_to_json(&agents);
    let mut answer = object();
    set_field(&mut answer, "ok", Json::Bool(true));
    set_field(&mut answer, "agentId", text(removed.agent_id.as_str()));
    set_field(&mut answer, "removedBindings", Json::Unsigned(1));
    Ok(AgentDeleted { agents, registry, workspace, answer: Json::Object(answer) })
}

// ---------------------------------------------------------------------------------------------
// Files
// ---------------------------------------------------------------------------------------------
/// The files that a new workspace gets.
pub open spec fn bootstrap_files() -> Seq<Seq<char>> {
    seq![
        "AGENTS.md"@,
        "SOUL.md"@,
        "TOOLS.md"@,
        "IDENTITY.md"@,
        "USER.md"@,
        "HEARTBEAT.md"@,
        "BOOTSTRAP.md"@,
    ]
}

/// The files that can be read and written.
pub open spec fn allowed_files() -> Seq<Seq<char>> {
    seq![
        "AGENTS.md"@,
        "SOUL.md"@,
        "TOOLS.md"@,
        "IDENTITY.md"@,
        "USER.md"@,
        "HEARTBEAT.md"@,
        "BOOTSTRAP.md"@,
        "MEMORY.md"@,
        "memory.md"@,
    ]
}

/// The files that a new workspace gets.
pub fn bootstrap_file_names() -> (r: Vec<String>)
    ensures
        texts(r@) == bootstrap_files(),
{
    let names = [
        "AGENTS.md",
        "SOUL.md",
        "TOOLS.md",
        "IDENTITY.md",
        "USER.md",
        "HEARTBEAT.md",
        "BOOTSTRAP.md",
    ];
    let r = owned(&names);
    assert(texts(r@) =~= bootstrap_files());
    r
}

/// The files that can be read and written.
pub fn allowed_file_names() -> (r: Vec<String>)
    ensures
        texts(r@) == allowed_files(),
        r@.len() == 9,
{
    let names = [
        "AGENTS.md",
        "SOUL.md",
        "TOOLS.md",
        "IDENTITY.md",
        "USER.md",
        "HEARTBEAT.md",
        "BOOTSTRAP.md",
        "MEMORY.md",
        "memory.md",
    ];
    let r = owned(&names);
    assert(texts(r@) =~= allowed_files());
    assert(texts(r@).len() == 9);
    r
}

/// What a new file holds at first.
pub open spec fn file_template(
    name: Seq<char>,
    agent_name: Seq<char>,
    emoji: Option<Seq<char>>,
) -> Seq<char> {
    if name == "IDENTITY.md"@ {
        "# Identity\n\n- Name: "@ + agent_name + "\n"@ + match kept_opt(emoji) {
            Some(e) => "- Emoji: "@ + e + "\n"@,
            None => ""@,
        }
    } else if name == "AGENTS.md"@ {
        "# Agents\n\n"@
    } else if name == "SOUL.md"@ {
        "# Soul\n\n"@
    } else if name == "TOOLS.md"@ {
        "# Tools\n\n"@
    } else if name == "USER.md"@ {
        "# User\n\n"@
    } else if name == "HEARTBEAT.md"@ {
        "# Heartbeat\n\n"@
    } else if name == "BOOTSTRAP.md"@ {
        "# Bootstrap\n\n"@
    } else {
        ""@
    }
}

/// What a new file holds at first.
pub fn bootstrap_file_template(name: &str, agent_name: &str, emoji: &Option<String>) -> (r: String)
    ensures
        r@ == file_template(name@, agent_name@, opt_text(*emoji)),
{
    if same(name, "IDENTITY.md") {
        let line = match trim_non_empty_opt(emoji) {
            Some(e) => cat3("- Emoji: ", e.as_str(), "\n"),
            None => "".to_owned(),
        };
        let head = cat3("# Identity\n\n- Name: ", agent_name, "\n");
        cat(head.as_str(), line.as_str())
    } else if same(name, "AGENTS.md") {
        "# Agents\n\n".to_owned()
    } else if same(name, "SOUL.md") {
        "# Soul\n\n".to_owned()
    } else if same(name, "TOOLS.md") {
        "# Tools\n\n".to_owned()
    } else if same(name, "USER.md") {
        "# User\n\n".to_owned()
    } else if same(name, "HEARTBEAT.md") {
        "# Heartbeat\n\n".to_owned()
    } else if same(name, "BOOTSTRAP.md") {
        "# Bootstrap\n\n".to_owned()
    } else {
        "".to_owned()
    }
}

/// The name of a file that can be read and written, or a refusal.
pub fn validate_agent_file_name(method: &str, raw: &str) -> (r: Result<String, ErrorShape>)
    ensures
        if allowed_files().contains(trimmed(raw@)) {
            r is Ok && r->Ok_0@ == trimmed(raw@)
        } else {
            r is Err && r->Err_0@ == invalid(
                "invalid "@ + method@ + " params: unsupported file \""@ + trimmed(raw@) + "\""@,
            )
        },
{
    let name = trim(raw);
    if listed(name.as_str(), &allowed_file_names()) {
        return Ok(name);
    }
    Err(
        invalid_request(
            cat5("invalid ", method, " params: unsupported file \"", name.as_str(), "\"").as_str(),
        ),
    )
}

/// The agent of an id, or a refusal.
pub open spec fn is_agent_by_id(
    r: Result<AgentRecord, ErrorShape>,
    raw: Seq<char>,
    loaded: Result<Vec<AgentRecord>, ErrorShape>,
) -> bool {
    match (kept(raw), loaded) {
        (None, _) => r is Err && r->Err_0@ == invalid("invalid params: agentId is required"@),
        (Some(_), Err(error)) => r is Err && r->Err_0@ == error@,
        (Some(id), Ok(agents)) => if has_agent(agents@, id) {
            r is Ok && r->Ok_0 == agents@[place_of(agents@, id) as int]
        } else {
            r is Err && r->Err_0@ == agent_missing(id)
        },
    }
}

/// The agent of an id, or a refusal.
pub fn resolve_agent_by_id(raw: &str, loaded: Result<Vec<AgentRecord>, ErrorShape>) -> (r: Result<
    AgentRecord,
    ErrorShape,
>)
    ensures
        is_agent_by_id(r, raw@, loaded),
{
    let id = match trim_non_empty(raw) {
        Some(id) => id,
        None => {
            return Err(invalid_request("invalid params: agentId is required"));
        },
    };
    let mut agents = match loaded {
        Ok(agents) => agents,
        Err(error) => {
            return Err(error);
        },
    };
    let at: usize = find_agent(&agents, id.as_str());
    if at == agents.len() {
        return Err(missing_agent(id.as_str()));
    }
    Ok(agents.remove(at))
}

/// What is listed of a file: its size and when it was last changed, where it is there.
pub open spec fn file_item(workspace: Seq<char>, name: Seq<char>, stat: Option<(u64, u64)>) -> JsonModel {
    JsonModel::Object(
        no_fields()
            .insert("name"@, JsonModel::Text(name))
            .insert("path"@, JsonModel::Text(joined_path(workspace, name)))
            .insert("missing"@, JsonModel::Bool(stat is None))
            .insert("size"@, number_or_null(match stat { Some(s) => Some(s.0), None => None }))
            .insert("updatedAtMs"@, number_or_null(match stat { Some(s) => Some(s.1), None => None })),
    )
}

/// The size of a file and when it was changed, where it is there.
pub open spec fn stat_at(stats: Seq<Option<(u64, u64)>>, i: int) -> Option<(u64, u64)> {
    if i < stats.len() {
        stats[i]
    } else {
        None
    }
}

/// The files of an agent's workspace.
pub fn handle_files_list(agent: &AgentRecord, stats: &Vec<Option<(u64, u64)>>) -> (r: Json)
    ensures
        r@ == JsonModel::Object(
            no_fields()
                .insert("agentId"@, JsonModel::Text(agent.agent_id@))
                .insert("workspace"@, JsonModel::Text(agent.workspace@))
                .insert("files"@, JsonModel::Array(Seq::new(allowed_files().len(), |i: int| file_item(agent.workspace@, allowed_files()[i], stat_at(stats@, i))))),
        ),
{
    let names = allowed_file_names();
    let mut out: Vec<Json> = Vec::new();
    let mut i: usize = 0;
    while i < names.len()
        invariant
            i <= names@.len(),
            texts(names@) == allowed_files(),
            out@.len() == i,
            forall|k: int|
                0 <= k < i ==> (#[trigger] out@[k])@ == file_item(
                    agent.workspace@,
                    allowed_files()[k],
                    stat_at(stats@, k),
                ),
        decreases names@.len() - i,
    {
        assert(texts(names@)[i as int] == names@[i as int]@);
        let stat: Option<(u64, u64)> = if i < stats.len() {
            stats[i]
        } else {
            None
        };
        let path = join_path(agent.workspace.as_str(), names[i].as_str());
        let (size, updated): (Option<u64>, Option<u64>) = match stat {
            Some((size, updated)) => (Some(size), Some(updated)),
            None => (None, None),
        };
        let mut o = object();
        set_field(&mut o, "name", text(names[i].as_str()));
        set_field(&mut o, "path", text(path.as_str()));
        set_field(&mut o, "missing", Json::Bool(stat.is_none()));
        set_field(&mut o, "size", opt_number_json(size));
        set_field(&mut o, "updatedAtMs", opt_number_json(updated));
        out.push(Json::Object(o));
        i = i + 1;
    }
    proof {
        crate::json::lemma_models(out@);
        assert(crate::json::models(out@) =~= Seq::new(
            allowed_files().len(),
            |i: int| file_item(agent.workspace@, allowed_files()[i], stat_at(stats@, i)),
        ));
    }
    let mut o = object();
    set_field(&mut o, "agentId", text(agent.agent_id.as_str()));
    set_field(&mut o, "workspace", text(agent.workspace.as_str()));
    set_field(&mut o, "files", Json::Array(out));
    Json::Object(o)
}

/// What is said of a file that was read or written: when it was last changed, and what it holds.
pub open spec fn file_view(
    workspace: Seq<char>,
    name: Seq<char>,
    found: Option<(u64, Seq<char>)>,
) -> JsonModel {
    match found {
        None => JsonModel::Object(
            no_fields()
                .insert("name"@, JsonModel::Text(name))
                .insert("path"@, JsonModel::Text(joined_path(workspace, name)))
                .insert("missing"@, JsonModel::Bool(true)),
        ),
        Some((updated, content)) => JsonModel::Object(
            no_fields()
                .insert("name"@, JsonModel::Text(name))
                .insert("path"@, JsonModel::Text(joined_path(workspace, name)))
                .insert("missing"@, JsonModel::Bool(false))
                .insert("size"@, JsonModel::Unsigned(encode_utf8(content).len() as u64))
                .insert("updatedAtMs"@, JsonModel::Unsigned(updated))
                .insert("content"@, JsonModel::Text(content)),
        ),
    }
}

fn present_file(workspace: &str, name: &str, updated: u64, content: &str) -> (r: Json)
    ensures
        r@ == file_view(workspace@, name@, Some((updated, content@))),
{
    let path = join_path(workspace, name);
    let size: usize = content.as_bytes().len();
    let mut o = object();
    set_field(&mut o, "name", text(name));
    set_field(&mut o, "path", text(path.as_str()));
    set_field(&mut o, "missing", Json::Bool(false));
    set_field(&mut o, "size", Json::Unsigned(size as u64));
    set_field(&mut o, "updatedAtMs", Json::Unsigned(updated));
    set_field(&mut o, "content", text(content));
    Json::Object(o)
}

/// A file of an agent's workspace, where it is there.
pub fn handle_files_get(agent: &AgentRecord, name: &str, found: &Option<(u64, String)>) -> (r: Json)
    ensures
        r@ == JsonModel::Object(
            no_fields()
                .insert("agentId"@, JsonModel::Text(agent.agent_id@))
                .insert("workspace"@, JsonModel::Text(agent.workspace@))
                .insert("file"@, file_view(agent.workspace@, name@, match *found { Some((updated, content)) => Some((updated, content@)), None => None })),
        ),
{
    let file = match found {
        Some((updated, content)) => present_file(
            agent.workspace.as_str(),
            name,
            *updated,
            content.as_str(),
        ),
        None => {
            let path = join_path(agent.workspace.as_str(), name);
            let mut o = object();
            set_field(&mut o, "name", text(name));
            set_field(&mut o, "path", text(path.as_str()));
            set_field(&mut o, "missing", Json::Bool(true));
            Json::Object(o)
        },
    };
    let mut o = object();
    set_field(&mut o, "agentId", text(agent.agent_id.as_str()));
    set_field(&mut o, "workspace", text(agent.workspace.as_str()));
    set_field(&mut o, "file", file);
    Json::Object(o)
}

/// A file of an agent's workspace after it was written.
pub fn handle_files_set(agent: &AgentRecord, name: &str, content: &str, updated: u64) -> (r: Json)
    ensures
        r@ == JsonModel::Object(
            no_fields()
                .insert("ok"@, JsonModel::Bool(true))
                .insert("agentId"@, JsonModel::Text(agent.agent_id@))
                .insert("workspace"@, JsonModel::Text(agent.workspace@))
                .insert("file"@, file_view(agent.workspace@, name@, Some((updated, content@)))),
        ),
{
    let file = present_file(agent.workspace.as_str(), name, updated, content);
    let mut o = object();
    set_field(&mut o, "ok", Json::Bool(true));
    set_field(&mut o, "agentId", text(agent.agent_id.as_str()));
    set_field(&mut o, "workspace", text(agent.workspace.as_str()));
    set_field(&mut o, "file", file);
    Json::Object(o)
}

// ---------------------------------------------------------------------------------------------
// Laws
// ---------------------------------------------------------------------------------------------
/// Making an agent of a new id keeps the ids apart.
pub proof fn law_creating_keeps_ids_apart(before: Seq<AgentRecord>, agent: AgentRecord)
    requires
        ids_differ(before),
        !has_agent(before, agent.agent_id@),
    ensures
        ids_differ(before.push(agent)),
        has_agent(before.push(agent), agent.agent_id@),
{
    let after = before.push(agent);
    assert(after[before.len() as int] == agent);
    assert forall|i: int, j: int| #![trigger after[i], after[j]] 0 <= i < j < after.len() implies after[i].agent_id@
        != after[j].agent_id@ by {
        assert(after[i] == before[i]);
        if j < before.len() {
            assert(after[j] == before[j]);
        }
    }
}

/// Changing an agent keeps its id, and so keeps the ids apart.
pub proof fn law_updating_keeps_ids_apart(
    before: Seq<AgentRecord>,
    at: int,
    new: AgentRecord,
    params: AgentsUpdateParams,
    db_path: Seq<char>,
    home: Option<Seq<char>>,
    now: u64,
)
    requires
        ids_differ(before),
        0 <= at < before.len(),
        is_updated(new, before[at], params, db_path, home, now),
    ensures
        ids_differ(before.update(at, new)),
{
    let after = before.update(at, new);
    assert forall|i: int, j: int| #![trigger after[i], after[j]] 0 <= i < j < after.len() implies after[i].agent_id@
        != after[j].agent_id@ by {
        assert(before[i].agent_id@ != before[j].agent_id@);
    }
}

/// Where the ids are apart, a removed agent is gone, and every other one is still there.
pub proof fn law_deleting_removes_one_agent(before: Seq<AgentRecord>, id: Seq<char>, other: Seq<char>)
    requires
        ids_differ(before),
        has_agent(before, id),
        other != id,
    ensures
        ids_differ(before.remove(place_of(before, id) as int)),
        !has_agent(before.remove(place_of(before, id) as int), id),
        has_agent(before, other) ==> has_agent(before.remove(place_of(before, id) as int), other),
{
    lemma_place_of(before, id);
    let at = place_of(before, id) as int;
    let after = before.remove(at);
    assert forall|i: int| 0 <= i < after.len() implies #[trigger] after[i] == before[if i < at {
        i
    } else {
        i + 1
    }] by {}
    assert forall|i: int, j: int| #![trigger after[i], after[j]] 0 <= i < j < after.len() implies after[i].agent_id@
        != after[j].agent_id@ by {
        let a = if i < at {
            i
        } else {
            i + 1
        };
        let b = if j < at {
            j
        } else {
            j + 1
        };
        assert(before[a].agent_id@ != before[b].agent_id@);
    }
    if has_agent(after, id) {
        let i = choose|i: int| 0 <= i < after.len() && (#[trigger] after[i]).agent_id@ == id;
        let a = if i < at {
            i
        } else {
            i + 1
        };
        if a < at {
            assert(before[a].agent_id@ != before[at].agent_id@);
        } else {
            assert(before[at].agent_id@ != before[a].agent_id@);
        }
    }
    if has_agent(before, other) {
        let i = choose|i: int| 0 <= i < before.len() && (#[trigger] before[i]).agent_id@ == other;
        let a = if i < at {
            i
        } else {
            i - 1
        };
        assert(after[a] == before[i]);
    }
}

/// An agent is found at the first place where its id stands, and not at all where it does not.
pub proof fn law_agents_are_found(agents: &Vec<AgentRecord>, id: &str, i: int, r: usize)
    requires
        call_ensures(find_agent, (agents, id), r),
        0 <= i < agents@.len(),
        agents@[i].agent_id@ == id@,
    ensures
        r <= i,
        agents@[r as int].agent_id@ == id@,
{
    lemma_place_is_first(agents@, id@, i);
}

proof fn lemma_place_is_first(agents: Seq<AgentRecord>, id: Seq<char>, i: int)
    requires
        0 <= i < agents.len(),
        agents[i].agent_id@ == id,
    ensures
        place_of(agents, id) <= i,
        agents[place_of(agents, id) as int].agent_id@ == id,
    decreases agents.len(),
{
    if agents[0].agent_id@ != id {
        assert(agents.skip(1)[i - 1] == agents[i]);
        lemma_place_is_first(agents.skip(1), id, i - 1);
        assert(agents.skip(1)[place_of(agents.skip(1), id) as int] == agents[place_of(agents, id) as int]);
    }
}

/// A new agent stands behind the others, under the reduced form of its name, which no other agent
/// has and which is not the main agent's. Nothing else of the registry changes.
pub proof fn law_new_agents(
    params: AgentsCreateParams,
    agents: Vec<AgentRecord>,
    db_path: &str,
    home: &Option<String>,
    now: u64,
    name: &str,
    id: String,
    workspace: String,
    id_text: &str,
    i: int,
    r: Result<AgentCreated, ErrorShape>,
)
    requires
        call_ensures(
            handle_create,
            (params, Ok::<Vec<AgentRecord>, ErrorShape>(agents), db_path, home, now),
            r,
        ),
        name@ == trimmed(params.name@),
        call_ensures(normalize_agent_id, (name,), id),
        id_text@ == id@,
        call_ensures(resolve_workspace_path, (&params.workspace, id_text, db_path, home), workspace),
    ensures
        r is Ok ==> not_blank(params.name@) && id@.len() > 0 && id@ != "main"@,
        r is Ok && 0 <= i < agents@.len() ==> agents@[i].agent_id@ != id@ && r->Ok_0.agents@[i]
            == agents@[i],
        not_blank(params.name@) && id@.len() > 0 && id@ != "main"@ && (forall|k: int|
            0 <= k < agents@.len() ==> (#[trigger] agents@[k]).agent_id@ != id@) ==> r is Ok,
        r is Err ==> r->Err_0.code@ == "INVALID_REQUEST"@,
        r is Ok ==> {
            let new = r->Ok_0.agents@.last();
            &&& r->Ok_0.agents@.len() == agents@.len() + 1
            &&& new.agent_id@ == id@
            &&& new.name@ == name@
            &&& new.workspace@ == workspace@
            &&& new.created_at_ms == now && new.updated_at_ms == now
            &&& new.model is Some <==> params.model is Some && not_blank(params.model->0@)
            &&& new.model is Some ==> new.model->0@ == trimmed(params.model->0@)
            &&& new.avatar is Some <==> params.avatar is Some && not_blank(params.avatar->0@)
            &&& new.avatar is Some ==> new.avatar->0@ == trimmed(params.avatar->0@)
            &&& member(r->Ok_0.answer@, "agentId"@) == Some(JsonModel::Text(id@))
            &&& member(r->Ok_0.answer@, "workspace"@) == Some(JsonModel::Text(workspace@))
            &&& r->Ok_0.registry@ is Array && r->Ok_0.registry@->Array_0.len() == agents@.len() + 1
        },
{
    lemma_kept(params.name@);
    if params.model is Some {
        lemma_kept(params.model->0@);
    }
    if params.avatar is Some {
        lemma_kept(params.avatar->0@);
    }
    if r is Ok {
        assert(!has_agent(agents@, id@));
        if 0 <= i < agents@.len() {
            assert(r->Ok_0.agents@.drop_last()[i] == r->Ok_0.agents@[i]);
        }
    }
    reveal_strlit("ok");
    reveal_strlit("agentId");
    reveal_strlit("name");
    reveal_strlit("workspace");
    assert("ok"@.len() != "agentId"@.len());
    assert("ok"@.len() != "name"@.len());
    assert("ok"@.len() != "workspace"@.len());
    assert("agentId"@.len() != "name"@.len());
    assert("agentId"@.len() != "workspace"@.len());
    assert("name"@.len() != "workspace"@.len());
}

/// A changed agent keeps its id, its place and when it was made. What the change says takes the
/// place of what was there, what it does not say stays, and no other agent changes.
pub proof fn law_changed_agents(
    params: AgentsUpdateParams,
    agents: Vec<AgentRecord>,
    db_path: &str,
    home: &Option<String>,
    now: u64,
    i: int,
    r: Result<AgentUpdated, ErrorShape>,
)
    requires
        call_ensures(
            handle_update,
            (params, Ok::<Vec<AgentRecord>, ErrorShape>(agents), db_path, home, now),
            r,
        ),
        ids_differ(agents@),
        0 <= i < agents@.len(),
    ensures
        ({
            let id = if params.agent_id is Some {
                params.agent_id
            } else {
                params.id
            };
            let meant = id is Some && not_blank(id->0@) && trimmed(id->0@) == agents@[i].agent_id@;
            &&& id is None || !not_blank(id->0@) ==> r is Err
            &&& meant ==> r is Ok
            &&& r is Ok ==> r->Ok_0.agents@.len() == agents@.len()
            &&& r is Ok && !meant ==> r->Ok_0.agents@[i] == agents@[i]
            &&& meant ==> {
                let old = agents@[i];
                let new = r->Ok_0.agents@[i];
                &&& new.agent_id == old.agent_id && new.created_at_ms == old.created_at_ms
                &&& new.updated_at_ms == now
                &&& new.name@ == (if params.name is Some && not_blank(params.name->0@) {
                    trimmed(params.name->0@)
                } else {
                    old.name@
                })
                &&& params.workspace is None ==> new.workspace@ == old.workspace@
                &&& params.model is None ==> opt_text(new.model) == opt_text(old.model)
                &&& params.model is Some && not_blank(params.model->0@) ==> opt_text(new.model) == Some(
                    trimmed(params.model->0@),
                )
                &&& params.model is Some && !not_blank(params.model->0@) ==> new.model is None
                &&& params.avatar is None ==> opt_text(new.avatar) == opt_text(old.avatar)
                &&& params.avatar is Some && not_blank(params.avatar->0@) ==> opt_text(new.avatar)
                    == Some(trimmed(params.avatar->0@))
                &&& params.avatar is Some && !not_blank(params.avatar->0@) ==> new.avatar is None
                &&& r->Ok_0.workspace is Some <==> params.workspace is Some
                &&& member(r->Ok_0.answer@, "agentId"@) == Some(JsonModel::Text(old.agent_id@))
            }
        }),
{
    if params.agent_id is Some {
        lemma_kept(params.agent_id->0@);
    }
    if params.id is Some {
        lemma_kept(params.id->0@);
    }
    if params.name is Some {
        lemma_kept(params.name->0@);
    }
    if params.model is Some {
        lemma_kept(params.model->0@);
    }
    if params.avatar is Some {
        lemma_kept(params.avatar->0@);
    }
    let named = kept_opt(first_of(opt_text(params.agent_id), opt_text(params.id)));
    if named is Some {
        lemma_only_place(agents@, named->0, i);
    }
    reveal_strlit("ok");
    reveal_strlit("agentId");
    assert("ok"@.len() != "agentId"@.len());
}

/// Where ids differ an agent has only one place.
proof fn lemma_only_place(agents: Seq<AgentRecord>, id: Seq<char>, i: int)
    requires
        ids_differ(agents),
        0 <= i < agents.len(),
    ensures
        agents[i].agent_id@ == id ==> place_of(agents, id) == i && has_agent(agents, id),
        agents[i].agent_id@ != id && has_agent(agents, id) ==> 0 <= place_of(agents, id) < agents.len()
            && place_of(agents, id) != i,
{
    if agents[i].agent_id@ == id {
        lemma_place_is_first(agents, id, i);
        let p = place_of(agents, id) as int;
        if p < i {
            assert(agents[p].agent_id@ != agents[i].agent_id@);
        }
        assert(has_agent(agents, id));
    } else if has_agent(agents, id) {
        let k = choose|k: int| 0 <= k < agents.len() && (#[trigger] agents[k]).agent_id@ == id;
        lemma_place_is_first(agents, id, k);
    }
}

/// A deleted agent is gone from the registry and the others are as they were. The main agent stays,
/// and the files go too unless they are to be left.
pub proof fn law_deleted_agents(
    params: AgentsDeleteParams,
    agents: Vec<AgentRecord>,
    i: int,
    r: Result<AgentDeleted, ErrorShape>,
)
    requires
        call_ensures(handle_delete, (params, Ok::<Vec<AgentRecord>, ErrorShape>(agents)), r),
        ids_differ(agents@),
        0 <= i < agents@.len(),
    ensures
        ({
            let id = if params.agent_id is Some {
                params.agent_id
            } else {
                params.id
            };
            let named = id is Some && not_blank(id->0@);
            let meant = named && trimmed(id->0@) == agents@[i].agent_id@;
            &&& !named ==> r is Err
            &&& meant && agents@[i].agent_id@ == "main"@ ==> r is Err
            &&& meant && agents@[i].agent_id@ != "main"@ ==> r is Ok && r->Ok_0.agents@ == agents@.take(
                i,
            ) + agents@.skip(i + 1) && (r->Ok_0.workspace is None <==> params.delete_files == Some(
                false,
            )) && (r->Ok_0.workspace is Some ==> r->Ok_0.workspace->0@ == agents@[i].workspace@)
            &&& r is Ok ==> r->Ok_0.agents@.len() == agents@.len() - 1
        }),
{
    if params.agent_id is Some {
        lemma_kept(params.agent_id->0@);
    }
    if params.id is Some {
        lemma_kept(params.id->0@);
    }
    let named = kept_opt(first_of(opt_text(params.agent_id), opt_text(params.id)));
    if named is Some {
        lemma_only_place(agents@, named->0, i);
        if agents@[i].agent_id@ == named->0 {
            assert(agents@.remove(i) =~= agents@.take(i) + agents@.skip(i + 1));
        }
    }
}

/// Only the files that belong to a workspace can be asked for, by their names.
pub proof fn law_files_of_workspaces(method: &str, raw: &str, r: Result<String, ErrorShape>)
    requires
        call_ensures(validate_agent_file_name, (method, raw), r),
    ensures
        ({
            let name = trimmed(raw@);
            r is Ok <==> (name == "AGENTS.md"@ || name == "SOUL.md"@ || name == "TOOLS.md"@ || name
                == "IDENTITY.md"@ || name == "USER.md"@ || name == "HEARTBEAT.md"@ || name
                == "BOOTSTRAP.md"@ || name == "MEMORY.md"@ || name == "memory.md"@)
        }),
        r is Ok ==> r->Ok_0@ == trimmed(raw@),
        r is Err ==> r->Err_0.code@ == "INVALID_REQUEST"@,
{
    let all = allowed_files();
    assert(all[0] == "AGENTS.md"@ && all[1] == "SOUL.md"@ && all[2] == "TOOLS.md"@ && all[3]
        == "IDENTITY.md"@ && all[4] == "USER.md"@ && all[5] == "HEARTBEAT.md"@ && all[6]
        == "BOOTSTRAP.md"@ && all[7] == "MEMORY.md"@ && all[8] == "memory.md"@);
    assert(all.len() == 9);
}

/// A workspace is where it is said to be, a tilde standing for the home directory, and else beside
/// the other agents under the agent's id.
pub proof fn law_workspaces(
    raw: &Option<String>,
    id: &str,
    db_path: &str,
    home: &Option<String>,
    root: String,
    root_text: &str,
    beside: String,
    home_text: &str,
    rest: &str,
    below: String,
    r: String,
)
    requires
        call_ensures(resolve_workspace_path, (raw, id, db_path, home), r),
        call_ensures(agents_root, (db_path,), root),
        root_text@ == root@,
        call_ensures(join_path, (root_text, id), beside),
        *home is Some ==> home_text@ == home->0@,
        call_ensures(join_path, (home_text, rest), below),
    ensures
        *raw is None || !not_blank(raw->0@) ==> r@ == beside@,
        *raw is Some && not_blank(raw->0@) && *home is Some && trimmed(raw->0@) == "~/"@ + rest@
            ==> r@ == below@,
        *raw is Some && *home is Some && trimmed(raw->0@) == "~"@ ==> r@ == home->0@,
        *raw is Some && not_blank(raw->0@) && trimmed(raw->0@)[0] != '~' ==> r@ == trimmed(raw->0@),
        *raw is Some && not_blank(raw->0@) && *home is None ==> r@ == trimmed(raw->0@),
{
    if *raw is Some {
        lemma_kept(raw->0@);
        let t = trimmed(raw->0@);
        reveal_strlit("~");
        reveal_strlit("~/");
        if t == "~/"@ + rest@ {
            assert(t.take(2) =~= "~/"@);
            assert(t.skip(2) =~= rest@);
            assert(t.len() >= 2);
        }
        if t.len() >= 2 && t.take(2) == "~/"@ {
            assert(t[0] == t.take(2)[0]);
        }
    }
}

/// The agents live beside the store.
pub proof fn law_where_agents_live(db_path: &str, dir: Option<String>, dir_text: &str, below: String, name: &str, r: String)
    requires
        call_ensures(agents_root, (db_path,), r),
        call_ensures(parent, (db_path,), dir),
        dir is Some ==> dir_text@ == dir->0@,
        name@ == "agents"@,
        call_ensures(join_path, (dir_text, name), below),
    ensures
        dir is Some ==> r@ == below@,
        dir is None ==> r@ == "./agents"@,
{
}

/// The owner of a session stands behind the word and the first colon of its id.
pub proof fn law_owners_of_sessions(id: &str, name: Seq<char>, rest: Seq<char>, r: Option<String>)
    requires
        call_ensures(session_agent_id, (id,), r),
        id@ == "agent"@ + seq![':'] + (name + seq![':'] + rest) || id@ == "agent"@ + seq![':'] + name,
        !name.contains(':'),
    ensures
        r is Some <==> not_blank(name),
        r is Some ==> r->0@ == name,
{
    reveal_strlit("agent");
    assert(!"agent"@.contains(':')) by {
        assert forall|i: int| 0 <= i < 5 implies "agent"@[i] != ':' by {}
    }
    law_split_at_a_separator("agent"@, name + seq![':'] + rest, ':');
    law_split_at_a_separator("agent"@, name, ':');
    law_split_at_a_separator(name, rest, ':');
    let parts = split(id@, ':');
    assert(parts[0] == "agent"@);
    assert(parts[1] == name);
    lemma_kept(name);
}

/// The sessions of an agent are counted: one more for each that it owns, and none for the others.
pub proof fn law_sessions_are_counted(
    sessions: &Vec<SessionRecord>,
    more: &Vec<SessionRecord>,
    one: SessionRecord,
    session: &str,
    owner: Option<String>,
    id: &str,
    before: u64,
    r: u64,
)
    requires
        call_ensures(count_sessions, (sessions, id), before),
        call_ensures(count_sessions, (more, id), r),
        more@ == sessions@.push(one),
        session@ == one.id@,
        call_ensures(session_agent_id, (session,), owner),
    ensures
        r == before + (if owner is Some && owner->0@ == id@ {
            1int
        } else {
            0
        }),
        sessions@.len() == 0 ==> before == 0,
{
    assert(more@.drop_last() =~= sessions@);
    assert(more@.last() == one);
}

/// Each agent is listed at its place with its own name, workspace and number of sessions.
pub proof fn law_agents_are_listed(
    agents: &Vec<AgentRecord>,
    sessions: Vec<SessionRecord>,
    pending: &Vec<bool>,
    i: int,
    id: &str,
    count: u64,
    r: Json,
)
    requires
        call_ensures(handle_list, (agents, &Some(sessions), pending), r),
        0 <= i < agents@.len(),
        id@ == agents@[i].agent_id@,
        call_ensures(count_sessions, (&sessions, id), count),
    ensures
        member(r@, "defaultId"@) == Some(JsonModel::Text("main"@)),
        member(r@, "count"@) == Some(JsonModel::Unsigned(agents@.len() as u64)),
        ({
            let items = member(r@, "agents"@)->0->Array_0;
            &&& member(r@, "agents"@) is Some && member(r@, "agents"@)->0 is Array
            &&& items.len() == agents@.len()
            &&& member(items[i], "id"@) == Some(JsonModel::Text(agents@[i].agent_id@))
            &&& member(items[i], "name"@) == Some(JsonModel::Text(agents@[i].name@))
            &&& member(items[i], "workspace"@) == Some(JsonModel::Text(agents@[i].workspace@))
            &&& member(items[i], "sessionsCount"@) == Some(JsonModel::Unsigned(count))
            &&& i < pending@.len() ==> member(items[i], "bootstrapPending"@) == Some(
                JsonModel::Bool(pending@[i]),
            )
        }),
{
    let items = agent_items(agents@, Some(sessions@), pending@);
    assert(items[i] == agent_item(
        agents@[i],
        sessions_of(sessions@, agents@[i].agent_id@),
        i < pending@.len() && pending@[i],
    ));
    reveal_strlit("defaultId");
    reveal_strlit("agents");
    reveal_strlit("count");
    reveal_strlit("id");
    reveal_strlit("name");
    reveal_strlit("workspace");
    reveal_strlit("model");
    reveal_strlit("avatar");
    reveal_strlit("createdAtMs");
    reveal_strlit("updatedAtMs");
    reveal_strlit("sessionsCount");
    reveal_strlit("bootstrapPending");
    assert("defaultId"@.len() != "agents"@.len());
    assert("defaultId"@.len() != "count"@.len());
    assert("defaultId"@.len() != "id"@.len());
    assert("defaultId"@.len() != "name"@.len());
    assert("defaultId"@[0] != "workspace"@[0]);
    assert("defaultId"@.len() != "model"@.len());
    assert("defaultId"@.len() != "avatar"@.len());
    assert("defaultId"@.len() != "createdAtMs"@.len());
    assert("defaultId"@.len() != "updatedAtMs"@.len());
    assert("defaultId"@.len() != "sessionsCount"@.len());
    assert("defaultId"@.len() != "bootstrapPending"@.len());
    assert("agents"@.len() != "count"@.len());
    assert("agents"@.len() != "id"@.len());
    assert("agents"@.len() != "name"@.len());
    assert("agents"@.len() != "workspace"@.len());
    assert("agents"@.len() != "model"@.len());
    assert("agents"@[1] != "avatar"@[1]);
    assert("agents"@.len() != "createdAtMs"@.len());
    assert("agents"@.len() != "updatedAtMs"@.len());
    assert("agents"@.len() != "sessionsCount"@.len());
    assert("agents"@.len() != "bootstrapPending"@.len());
    assert("count"@.len() != "id"@.len());
    assert("count"@.len() != "name"@.len());
    assert("count"@.len() != "workspace"@.len());
    assert("count"@[0] != "model"@[0]);
    assert("count"@.len() != "avatar"@.len());
    assert("count"@.len() != "createdAtMs"@.len());
    assert("count"@.len() != "updatedAtMs"@.len());
    assert("count"@.len() != "sessionsCount"@.len());
    assert("count"@.len() != "bootstrapPending"@.len());
    assert("id"@.len() != "name"@.len());
    assert("id"@.len() != "workspace"@.len());
    assert("id"@.len() != "model"@.len());
    assert("id"@.len() != "avatar"@.len());
    assert("id"@.len() != "createdAtMs"@.len());
    assert("id"@.len() != "updatedAtMs"@.len());
    assert("id"@.len() != "sessionsCount"@.len());
    assert("id"@.len() != "bootstrapPending"@.len());
    assert("name"@.len() != "workspace"@.len());
    assert("name"@.len() != "model"@.len());
    assert("name"@.len() != "avatar"@.len());
    assert("name"@.len() != "createdAtMs"@.len());
    assert("name"@.len() != "updatedAtMs"@.len());
    assert("name"@.len() != "sessionsCount"@.len());
    assert("name"@.len() != "bootstrapPending"@.len());
    assert("workspace"@.len() != "model"@.len());
    assert("workspace"@.len() != "avatar"@.len());
    assert("workspace"@.len() != "createdAtMs"@.len());
    assert("workspace"@.len() != "updatedAtMs"@.len());
    assert("workspace"@.len() != "sessionsCount"@.len());
    assert("workspace"@.len() != "bootstrapPending"@.len());
    assert("model"@.len() != "avatar"@.len());
    assert("model"@.len() != "createdAtMs"@.len());
    assert("model"@.len() != "updatedAtMs"@.len());
    assert("model"@.len() != "sessionsCount"@.len());
    assert("model"@.len() != "bootstrapPending"@.len());
    assert("avatar"@.len() != "createdAtMs"@.len());
    assert("avatar"@.len() != "updatedAtMs"@.len());
    assert("avatar"@.len() != "sessionsCount"@.len());
    assert("avatar"@.len() != "bootstrapPending"@.len());
    assert("createdAtMs"@[0] != "updatedAtMs"@[0]);
    assert("createdAtMs"@.len() != "sessionsCount"@.len());
    assert("createdAtMs"@.len() != "bootstrapPending"@.len());
    assert("updatedAtMs"@.len() != "sessionsCount"@.len());
    assert("updatedAtMs"@.len() != "bootstrapPending"@.len());
    assert("sessionsCount"@.len() != "bootstrapPending"@.len());
}

/// The registry of agents is what is stored, and a registry that is empty or not there holds the main
/// agent.
pub proof fn law_registries(
    stored: Option<Result<Vec<AgentRecord>, String>>,
    db_path: &str,
    now: u64,
    r: Result<Vec<AgentRecord>, ErrorShape>,
)
    requires
        call_ensures(load_agents, (stored, db_path, now), r),
    ensures
        r is Err <==> stored is Some && stored->0 is Err,
        stored is Some && stored->0 is Ok && stored->0->Ok_0@.len() > 0 ==> r->Ok_0@ == stored->0->Ok_0@,
        stored is None || (stored->0 is Ok && stored->0->Ok_0@.len() == 0) ==> r->Ok_0@.len() == 1
            && r->Ok_0@[0].agent_id@ == "main"@ && r->Ok_0@[0].name@ == "Main"@,
{
}

/// A file that was written is shown with its words and how many bytes they are.
pub proof fn law_files_are_shown(agent: &AgentRecord, name: &str, content: &str, updated: u64, dir: &str, path: String, r: Json)
    requires
        call_ensures(handle_files_set, (agent, name, content, updated), r),
        dir@ == agent.workspace@,
        call_ensures(join_path, (dir, name), path),
    ensures
        ({
            let file = member(r@, "file"@)->0;
            &&& member(r@, "agentId"@) == Some(JsonModel::Text(agent.agent_id@))
            &&& member(r@, "file"@) is Some
            &&& member(file, "name"@) == Some(JsonModel::Text(name@))
            &&& member(file, "path"@) == Some(JsonModel::Text(path@))
            &&& member(file, "missing"@) == Some(JsonModel::Bool(false))
            &&& member(file, "content"@) == Some(JsonModel::Text(content@))
            &&& member(file, "size"@) == Some(JsonModel::Unsigned(encode_utf8(content@).len() as u64))
        }),
{
    reveal_strlit("ok");
    reveal_strlit("agentId");
    reveal_strlit("workspace");
    reveal_strlit("file");
    reveal_strlit("name");
    reveal_strlit("path");
    reveal_strlit("missing");
    reveal_strlit("size");
    reveal_strlit("updatedAtMs");
    reveal_strlit("content");
    assert("ok"@.len() != "agentId"@.len());
    assert("ok"@.len() != "workspace"@.len());
    assert("ok"@.len() != "file"@.len());
    assert("ok"@.len() != "name"@.len());
    assert("ok"@.len() != "path"@.len());
    assert("ok"@.len() != "missing"@.len());
    assert("ok"@.len() != "size"@.len());
    assert("ok"@.len() != "updatedAtMs"@.len());
    assert("ok"@.len() != "content"@.len());
    assert("agentId"@.len() != "workspace"@.len());
    assert("agentId"@.len() != "file"@.len());
    assert("agentId"@.len() != "name"@.len());
    assert("agentId"@.len() != "path"@.len());
    assert("agentId"@[0] != "missing"@[0]);
    assert("agentId"@.len() != "size"@.len());
    assert("agentId"@.len() != "updatedAtMs"@.len());
    assert("agentId"@[0] != "content"@[0]);
    assert("workspace"@.len() != "file"@.len());
    assert("workspace"@.len() != "name"@.len());
    assert("workspace"@.len() != "path"@.len());
    assert("workspace"@.len() != "missing"@.len());
    assert("workspace"@.len() != "size"@.len());
    assert("workspace"@.len() != "updatedAtMs"@.len());
    assert("workspace"@.len() != "content"@.len());
    assert("file"@[0] != "name"@[0]);
    assert("file"@[0] != "path"@[0]);
    assert("file"@.len() != "missing"@.len());
    assert("file"@[0] != "size"@[0]);
    assert("file"@.len() != "updatedAtMs"@.len());
    assert("file"@.len() != "content"@.len());
    assert("name"@[0] != "path"@[0]);
    assert("name"@.len() != "missing"@.len());
    assert("name"@[0] != "size"@[0]);
    assert("name"@.len() != "updatedAtMs"@.len());
    assert("name"@.len() != "content"@.len());
    assert("path"@.len() != "missing"@.len());
    assert("path"@[0] != "size"@[0]);
    assert("path"@.len() != "updatedAtMs"@.len());
    assert("path"@.len() != "content"@.len());
    assert("missing"@.len() != "size"@.len());
    assert("missing"@.len() != "updatedAtMs"@.len());
    assert("missing"@[0] != "content"@[0]);
    assert("size"@.len() != "updatedAtMs"@.len());
    assert("size"@.len() != "content"@.len());
    assert("updatedAtMs"@.len() != "content"@.len());
}

/// The names of the files that a new workspace gets give each file its heading.
pub proof fn law_headings(name: &str, agent_name: &str, emoji: &Option<String>, r: String)
    requires
        call_ensures(bootstrap_file_template, (name, agent_name, emoji), r),
    ensures
        name@ == "AGENTS.md"@ ==> r@ == "# Agents\n\n"@,
        name@ == "SOUL.md"@ ==> r@ == "# Soul\n\n"@,
        name@ == "TOOLS.md"@ ==> r@ == "# Tools\n\n"@,
        name@ == "USER.md"@ ==> r@ == "# User\n\n"@,
        name@ == "HEARTBEAT.md"@ ==> r@ == "# Heartbeat\n\n"@,
        name@ == "BOOTSTRAP.md"@ ==> r@ == "# Bootstrap\n\n"@,
        name@ == "IDENTITY.md"@ && (*emoji is None || !not_blank(emoji->0@)) ==> r@
            == "# Identity\n\n- Name: "@ + agent_name@ + "\n"@,
        name@ == "IDENTITY.md"@ && *emoji is Some && not_blank(emoji->0@) ==> r@
            == "# Identity\n\n- Name: "@ + agent_name@ + "\n"@ + ("- Emoji: "@ + trimmed(emoji->0@)
            + "\n"@),
{
    if *emoji is Some {
        lemma_kept(emoji->0@);
    }
    reveal_strlit("");
    assert("# Identity\n\n- Name: "@ + agent_name@ + "\n"@ + ""@ =~= "# Identity\n\n- Name: "@ + agent_name@
        + "\n"@);
    reveal_strlit("IDENTITY.md");
    reveal_strlit("AGENTS.md");
    reveal_strlit("SOUL.md");
    reveal_strlit("TOOLS.md");
    reveal_strlit("USER.md");
    reveal_strlit("HEARTBEAT.md");
    reveal_strlit("BOOTSTRAP.md");
    assert("IDENTITY.md"@.len() != "AGENTS.md"@.len());
    assert("IDENTITY.md"@.len() != "SOUL.md"@.len());
    assert("IDENTITY.md"@.len() != "TOOLS.md"@.len());
    assert("IDENTITY.md"@.len() != "USER.md"@.len());
    assert("IDENTITY.md"@.len() != "HEARTBEAT.md"@.len());
    assert("IDENTITY.md"@.len() != "BOOTSTRAP.md"@.len());
    assert("AGENTS.md"@.len() != "SOUL.md"@.len());
    assert("AGENTS.md"@.len() != "TOOLS.md"@.len());
    assert("AGENTS.md"@.len() != "USER.md"@.len());
    assert("AGENTS.md"@.len() != "HEARTBEAT.md"@.len());
    assert("AGENTS.md"@.len() != "BOOTSTRAP.md"@.len());
    assert("SOUL.md"@.len() != "TOOLS.md"@.len());
    assert("SOUL.md"@[0] != "USER.md"@[0]);
    assert("SOUL.md"@.len() != "HEARTBEAT.md"@.len());
    assert("SOUL.md"@.len() != "BOOTSTRAP.md"@.len());
    assert("TOOLS.md"@.len() != "USER.md"@.len());
    assert("TOOLS.md"@.len() != "HEARTBEAT.md"@.len());
    assert("TOOLS.md"@.len() != "BOOTSTRAP.md"@.len());
    assert("USER.md"@.len() != "HEARTBEAT.md"@.len());
    assert("USER.md"@.len() != "BOOTSTRAP.md"@.len());
    assert("HEARTBEAT.md"@[0] != "BOOTSTRAP.md"@[0]);
}

/// Each member of the JSON of an agent is what the record holds under that name.
pub proof fn law_json_of_agents(record: &AgentRecord, r: Json)
    requires
        call_ensures(AgentRecord::to_json, (record,), r),
    ensures
        member(r@, "agentId"@) == Some(JsonModel::Text(record.agent_id@)),
        member(r@, "name"@) == Some(JsonModel::Text(record.name@)),
        member(r@, "workspace"@) == Some(JsonModel::Text(record.workspace@)),
        member(r@, "model"@) == Some(
            if record.model is Some {
                JsonModel::Text(record.model->0@)
            } else {
                JsonModel::Null
            },
        ),
        member(r@, "avatar"@) == Some(
            if record.avatar is Some {
                JsonModel::Text(record.avatar->0@)
            } else {
                JsonModel::Null
            },
        ),
        member(r@, "createdAtMs"@) == Some(JsonModel::Unsigned(record.created_at_ms)),
        member(r@, "updatedAtMs"@) == Some(JsonModel::Unsigned(record.updated_at_ms)),
{
    reveal_strlit("agentId");
    reveal_strlit("name");
    reveal_strlit("workspace");
    reveal_strlit("model");
    reveal_strlit("avatar");
    reveal_strlit("createdAtMs");
    reveal_strlit("updatedAtMs");
    assert("agentId"@.len() != "name"@.len());
    assert("agentId"@.len() != "workspace"@.len());
    assert("agentId"@.len() != "model"@.len());
    assert("agentId"@.len() != "avatar"@.len());
    assert("agentId"@.len() != "createdAtMs"@.len());
    assert("agentId"@.len() != "updatedAtMs"@.len());
    assert("name"@.len() != "workspace"@.len());
    assert("name"@.len() != "model"@.len());
    assert("name"@.len() != "avatar"@.len());
    assert("name"@.len() != "createdAtMs"@.len());
    assert("name"@.len() != "updatedAtMs"@.len());
    assert("workspace"@.len() != "model"@.len());
    assert("workspace"@.len() != "avatar"@.len());
    assert("workspace"@.len() != "createdAtMs"@.len());
    assert("workspace"@.len() != "updatedAtMs"@.len());
    assert("model"@.len() != "avatar"@.len());
    assert("model"@.len() != "createdAtMs"@.len());
    assert("model"@.len() != "updatedAtMs"@.len());
    assert("avatar"@.len() != "createdAtMs"@.len());
    assert("avatar"@.len() != "updatedAtMs"@.len());
    assert("createdAtMs"@[0] != "updatedAtMs"@[0]);
}

} // verus!
