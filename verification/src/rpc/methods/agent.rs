//! Runs of agents: how they are asked for, carried out and waited for.
use crate::domain::error::DomainError;
use crate::domain::models::{AgentRunRecord, ChatMessage, SessionRecord};
use crate::ids::{is_uuid_text, new_id};
use crate::json::{
    member, no_fields, number_or_null, object, opt_number_json, opt_text_json, set_field, text,
    text_of, text_or_null, Json, JsonModel,
};
use crate::protocol::errors::{invalid, invalid_request, ErrorModel, ErrorShape};
use crate::rpc::dispatcher::{domain_error_model, map_domain_error};
use crate::text::{
    cat, either, first_of, is_white_space, kept, kept_opt, law_split_at_a_separator, lemma_kept,
    lemma_trim_both_fixed, not_blank, opt_text, or_text, same, split, split_at_char, text_or, texts, trim, trim_non_empty, trim_non_empty_opt, trimmed,
};
use vstd::prelude::*;

verus! {

broadcast use vstd::seq::group_seq_axioms;

// ---------------------------------------------------------------------------------------------
// Records
// ---------------------------------------------------------------------------------------------
/// A run is over.
pub open spec fn is_over(status: Seq<char>) -> bool {
    status == "completed"@ || status == "error"@ || status == "aborted"@
}

/// Whether a run is over.
pub fn is_terminal_status(status: &str) -> (r: bool)
    ensures
        r == is_over(status@),
{
    same(status, "completed") || same(status, "error") || same(status, "aborted")
}

/// A session that was made for its key.
pub open spec fn is_new_session(session: SessionRecord, key: Seq<char>, now: u64) -> bool {
    &&& session.id@ == key
    &&& session.title@ == "Session "@ + key
    &&& session.tags@.len() == 0
    &&& session.metadata@ == JsonModel::Object(no_fields())
    &&& session.created_at_ms == now
    &&& session.updated_at_ms == now
}

/// The session that is to be stored so that there is one of the key: none where there is one.
pub fn ensure_session_exists(key: &str, known: bool, now: u64) -> (r: Option<SessionRecord>)
    ensures
        match r {
            Some(session) => !known && is_new_session(session, key@, now),
            None => known,
        },
{
    if known {
        return None;
    }
    Some(
        SessionRecord {
            id: key.to_owned(),
            title: cat("Session ", key),
            tags: Vec::new(),
            metadata: Json::Object(object()),
            created_at_ms: now,
            updated_at_ms: now,
        },
    )
}

/// The data beside a message: the run it belongs to.
pub open spec fn run_metadata(run_id: Seq<char>) -> JsonModel {
    JsonModel::Object(no_fields().insert("runId"@, JsonModel::Text(run_id)))
}

/// A finished message of a run.
pub open spec fn is_message(
    message: ChatMessage,
    id: Seq<char>,
    role: Seq<char>,
    body: Seq<char>,
    ts: u64,
    run_id: Seq<char>,
) -> bool {
    &&& message.id@ == "msg-"@ + id
    &&& message.role@ == role
    &&& message.text@ == body
    &&& message.status@ == "final"@
    &&& message.ts == ts
    &&& message.metadata@ == run_metadata(run_id)
}

/// A time one millisecond later, unless there is none.
pub open spec fn just_after(ts: u64) -> u64 {
    if ts == u64::MAX {
        ts
    } else {
        (ts + 1) as u64
    }
}

/// What an agent says to an input.
pub open spec fn echo(input: Seq<char>) -> Seq<char> {
    "Echo: "@ + input
}

/// The messages of a run: what was said to the agent, and just after it what the agent said.
pub open spec fn are_turns(
    messages: Seq<ChatMessage>,
    input: Seq<char>,
    ts: u64,
    run_id: Seq<char>,
    first_id: Seq<char>,
    second_id: Seq<char>,
) -> bool {
    &&& messages.len() == 2
    &&& is_message(messages[0], first_id, "user"@, input, ts, run_id)
    &&& is_message(messages[1], second_id, "assistant"@, echo(input), just_after(ts), run_id)
}

fn final_message(id: &str, role: &str, body: &str, ts: u64, run_id: &str) -> (r: ChatMessage)
    ensures
        is_message(r, id@, role@, body@, ts, run_id@),
{
    let mut metadata = object();
    set_field(&mut metadata, "runId", text(run_id));
    ChatMessage {
        id: cat("msg-", id),
        role: role.to_owned(),
        text: body.to_owned(),
        status: "final".to_owned(),
        ts,
        metadata: Json::Object(metadata),
    }
}

/// The messages of a run.
pub fn turns(input: &str, ts: u64, run_id: &str, first_id: &str, second_id: &str) -> (r: Vec<
    ChatMessage,
>)
    ensures
        are_turns(r@, input@, ts, run_id@, first_id@, second_id@),
{
    let said = final_message(first_id, "user", input, ts, run_id);
    let answer = cat("Echo: ", input);
    let later: u64 = ts.saturating_add(1);
    let answered = final_message(second_id, "assistant", answer.as_str(), later, run_id);
    vec![said, answered]
}

// ---------------------------------------------------------------------------------------------
// The method `agent`
// ---------------------------------------------------------------------------------------------
/// What an agent is asked.
pub struct AgentRunParams {
    pub run_id: Option<String>,
    pub idempotency_key: Option<String>,
    pub agent_id: Option<String>,
    pub session_key: Option<String>,
    pub input: Option<String>,
    pub message: Option<String>,
    pub text: Option<String>,
    pub deferred: Option<bool>,
}

/// A request for a run.
pub struct AgentRequest {
    pub input: String,
    pub run_id: String,
    pub session_key: String,
    pub agent_id: String,
    pub deferred: bool,
}

/// A request holds what the parameters say, with a default for what they do not.
pub open spec fn asks(request: AgentRequest, params: AgentRunParams, id: Seq<char>) -> bool {
    &&& Some(request.input@) == kept_opt(agent_input(params))
    &&& request.run_id@ == text_or(
        first_of(kept_opt(opt_text(params.run_id)), kept_opt(opt_text(params.idempotency_key))),
        "run-"@ + id,
    )
    &&& request.session_key@ == text_or(
        kept_opt(opt_text(params.session_key)),
        "agent:main:main"@,
    )
    &&& request.agent_id@ == text_or(kept_opt(opt_text(params.agent_id)), "main"@)
    &&& request.deferred == (params.deferred == Some(true))
}

/// The text of the parameters: their input, or their message, or their text.
pub open spec fn agent_input(params: AgentRunParams) -> Option<Seq<char>> {
    first_of(
        first_of(opt_text(params.input), opt_text(params.message)),
        opt_text(params.text),
    )
}

/// A request for a run; a run that is not named has the given id.
pub fn agent_request_with(params: AgentRunParams, id: &str) -> (r: Result<AgentRequest, ErrorShape>)
    ensures
        match r {
            Ok(request) => asks(request, params, id@),
            Err(error) => kept_opt(agent_input(params)) is None && error@ == invalid(
                "invalid agent params: input is required"@,
            ),
        },
{
    let deferred: bool = match params.deferred {
        Some(deferred) => deferred,
        None => false,
    };
    let fallback = cat("run-", id);
    let run_id = or_text(
        either(trim_non_empty_opt(&params.run_id), trim_non_empty_opt(&params.idempotency_key)),
        fallback.as_str(),
    );
    let session_key = or_text(trim_non_empty_opt(&params.session_key), "agent:main:main");
    let agent_id = or_text(trim_non_empty_opt(&params.agent_id), "main");
    let input = either(either(params.input, params.message), params.text);
    match trim_non_empty_opt(&input) {
        Some(input) => Ok(AgentRequest { input, run_id, session_key, agent_id, deferred }),
        None => Err(invalid_request("invalid agent params: input is required")),
    }
}

/// A request for a run; a run that is not named has a fresh id.
pub fn agent_request(params: AgentRunParams) -> (r: Result<AgentRequest, ErrorShape>)
    ensures
        match r {
            Ok(request) => exists|id: Seq<char>| #[trigger]
                is_uuid_text(id) && asks(request, params, id),
            Err(error) => kept_opt(agent_input(params)) is None && error@ == invalid(
                "invalid agent params: input is required"@,
            ),
        },
{
    let id = new_id();
    assert(is_uuid_text(id@));
    agent_request_with(params, id.as_str())
}

/// The data beside a run.
pub open spec fn agent_metadata(deferred: bool) -> JsonModel {
    JsonModel::Object(
        no_fields().insert("runtime"@, JsonModel::Text("reclaw-core"@)).insert(
            "source"@,
            JsonModel::Text("agent"@),
        ).insert("lineage"@, JsonModel::Text("openclaw"@)).insert(
            "deferred"@,
            JsonModel::Bool(deferred),
        ),
    )
}

/// The data beside a run.
pub fn agent_run_metadata(deferred: bool) -> (r: Json)
    ensures
        r@ == agent_metadata(deferred),
{
    let mut o = object();
    set_field(&mut o, "runtime", text("reclaw-core"));
    set_field(&mut o, "source", text("agent"));
    set_field(&mut o, "lineage", text("openclaw"));
    set_field(&mut o, "deferred", Json::Bool(deferred));
    Json::Object(o)
}

/// What is answered to a request for a run.
pub open spec fn agent_answer(
    run_id: Seq<char>,
    session_key: Seq<char>,
    output: Option<Seq<char>>,
    summary: Seq<char>,
) -> JsonModel {
    JsonModel::Object(
        no_fields().insert("runId"@, JsonModel::Text(run_id)).insert(
            "status"@,
            JsonModel::Text("ok"@),
        ).insert("summary"@, JsonModel::Text(summary)).insert(
            "result"@,
            JsonModel::Object(
                no_fields().insert("output"@, text_or_null(output)).insert(
                    "sessionKey"@,
                    JsonModel::Text(session_key),
                ),
            ),
        ),
    )
}

/// What is answered to a request for a run.
pub fn agent_method_response(
    run_id: &str,
    session_key: &str,
    output: &Option<String>,
    summary: &str,
) -> (r: Json)
    ensures
        r@ == agent_answer(run_id@, session_key@, opt_text(*output), summary@),
{
    let mut result = object();
    set_field(&mut result, "output", opt_text_json(output));
    set_field(&mut result, "sessionKey", text(session_key));
    let mut o = object();
    set_field(&mut o, "runId", text(run_id));
    set_field(&mut o, "status", text("ok"));
    set_field(&mut o, "summary", text(summary));
    set_field(&mut o, "result", Json::Object(result));
    Json::Object(o)
}

/// What is answered where there is already a run of the id: a refusal where another method, agent
/// or session has it, and else how it stands.
pub open spec fn existing_agent_answer(
    existing: AgentRunRecord,
    session_key: Seq<char>,
    agent_id: Seq<char>,
) -> Result<JsonModel, ErrorModel> {
    let source = text_of(member(existing.metadata@, "source"@));
    if source is Some && source->0 != "agent"@ {
        Err(invalid("invalid agent params: runId is already used by another method"@))
    } else if existing.agent_id@ != agent_id {
        Err(invalid("invalid agent params: runId is already used with a different agentId"@))
    } else if existing.session_key is Some && existing.session_key->0@ != session_key {
        Err(invalid("invalid agent params: runId is already used with a different sessionKey"@))
    } else {
        Ok(
            agent_answer(
                existing.id@,
                text_or(opt_text(existing.session_key), session_key),
                if existing.status@ == "completed"@ || existing.status@ == "error"@ {
                    Some(existing.output@)
                } else {
                    None
                },
                existing.status@,
            ),
        )
    }
}

/// What is answered where there is already a run of the id.
pub fn resolve_existing_agent_run(
    existing: AgentRunRecord,
    session_key: &str,
    agent_id: &str,
) -> (r: Result<Json, ErrorShape>)
    ensures
        match existing_agent_answer(existing, session_key@, agent_id@) {
            Ok(answer) => r is Ok && r->Ok_0@ == answer,
            Err(error) => r is Err && r->Err_0@ == error,
        },
{
    if let Some(source) = existing.metadata.get_text("source") {
        if !same(source.as_str(), "agent") {
            return Err(
                invalid_request("invalid agent params: runId is already used by another method"),
            );
        }
    }
    if !same(existing.agent_id.as_str(), agent_id) {
        return Err(
            invalid_request(
                "invalid agent params: runId is already used with a different agentId",
            ),
        );
    }
    if let Some(key) = &existing.session_key {
        if !same(key.as_str(), session_key) {
            return Err(
                invalid_request(
                    "invalid agent params: runId is already used with a different sessionKey",
                ),
            );
        }
    }
    let output = if same(existing.status.as_str(), "completed") || same(
        existing.status.as_str(),
        "error",
    ) {
        Some(existing.output)
    } else {
        None
    };
    let key = or_text(existing.session_key, session_key);
    Ok(
        agent_method_response(
            existing.id.as_str(),
            key.as_str(),
            &output,
            existing.status.as_str(),
        ),
    )
}

/// What comes of a request for a run.
pub enum AgentStart {
    /// There is such a run already: this is answered.
    Known(Json),
    /// The session, where it is new, and the run are stored, and the answer is given.
    Queued { session: Option<SessionRecord>, run: AgentRunRecord, answer: Json },
    /// The session, where it is new, is stored, and the run is carried out.
    Begin { session: Option<SessionRecord>, run: AgentRunRecord },
}

/// The run that a request asks for, as it begins.
pub open spec fn is_begun(run: AgentRunRecord, request: AgentRequest, now: u64) -> bool {
    &&& run.id@ == request.run_id@
    &&& run.agent_id@ == request.agent_id@
    &&& run.input@ == request.input@
    &&& run.output@ == ""@
    &&& run.status@ == (if request.deferred {
        "queued"@
    } else {
        "running"@
    })
    &&& opt_text(run.session_key) == Some(request.session_key@)
    &&& run.metadata@ == agent_metadata(request.deferred)
    &&& run.created_at_ms == now
    &&& run.updated_at_ms == now
    &&& run.completed_at_ms is None
}

/// A session is stored where there is none of the key.
pub open spec fn stores_session(
    session: Option<SessionRecord>,
    key: Seq<char>,
    known: bool,
    now: u64,
) -> bool {
    match session {
        Some(s) => !known && is_new_session(s, key, now),
        None => known,
    }
}

/// What comes of a request for a run, from the run of its id and whether there is its session.
pub fn handle_agent(
    request: AgentRequest,
    existing: Option<AgentRunRecord>,
    known_session: bool,
    now: u64,
) -> (r: Result<AgentStart, ErrorShape>)
    ensures
        match existing {
            Some(run) => match existing_agent_answer(
                run,
                request.session_key@,
                request.agent_id@,
            ) {
                Ok(answer) => r matches Ok(AgentStart::Known(a)) && a@ == answer,
                Err(error) => r is Err && r->Err_0@ == error,
            },
            None => match r {
                Ok(AgentStart::Queued { session, run, answer }) => {
                    &&& request.deferred
                    &&& stores_session(session, request.session_key@, known_session, now)
                    &&& is_begun(run, request, now)
                    &&& answer@ == agent_answer(
                        request.run_id@,
                        request.session_key@,
                        None,
                        "queued"@,
                    )
                },
                Ok(AgentStart::Begin { session, run }) => {
                    &&& !request.deferred
                    &&& stores_session(session, request.session_key@, known_session, now)
                    &&& is_begun(run, request, now)
                },
                _ => false,
            },
        },
{
    if let Some(run) = existing {
        return match resolve_existing_agent_run(
            run,
            request.session_key.as_str(),
            request.agent_id.as_str(),
        ) {
            Ok(answer) => Ok(AgentStart::Known(answer)),
            Err(error) => Err(error),
        };
    }
    let session = ensure_session_exists(request.session_key.as_str(), known_session, now);
    let status = if request.deferred {
        "queued".to_owned()
    } else {
        "running".to_owned()
    };
    let answer = agent_method_response(
        request.run_id.as_str(),
        request.session_key.as_str(),
        &None,
        "queued",
    );
    let run = AgentRunRecord {
        id: request.run_id,
        agent_id: request.agent_id,
        input: request.input,
        output: "".to_owned(),
        status,
        session_key: Some(request.session_key),
        metadata: agent_run_metadata(request.deferred),
        created_at_ms: now,
        updated_at_ms: now,
        completed_at_ms: None,
    };
    if request.deferred {
        Ok(AgentStart::Queued { session, run, answer })
    } else {
        Ok(AgentStart::Begin { session, run })
    }
}

/// What is answered once a run was carried out.
pub fn agent_completed(run_id: &str, session_key: &str, run: AgentRunRecord) -> (r: Json)
    ensures
        r@ == agent_answer(run_id@, session_key@, Some(run.output@), "completed"@),
{
    agent_method_response(run_id, session_key, &Some(run.output), "completed")
}

// ---------------------------------------------------------------------------------------------
// Carrying out a run
// ---------------------------------------------------------------------------------------------
/// How far a run has got. Each stage but the last waits for what the store says.
#[derive(Debug, Clone, Copy, PartialEq, Eq, Structural)]
pub enum RunStage {
    /// Whether the run is over already is being looked up.
    Opening,
    /// Whether the run is stored is being looked up.
    Probing,
    /// The run is being stored as running.
    Starting,
    /// Whether the run is over meanwhile is being looked up.
    Checking,
    /// The messages are being appended.
    Appending,
    /// Whether the run is over meanwhile is being looked up, once more.
    Rechecking,
    /// The completed run is being stored, if it is still running.
    Completing,
    /// The run was not running any more, and is being looked up.
    Settling,
    /// The completed run is being stored.
    Storing,
    /// The messages could not be appended; the failed run is being stored, if it is still running.
    Failing,
    /// The failed run was not running any more, and is being looked up.
    Failed,
}

/// A run that is being carried out.
pub struct AgentRunTask {
    pub stage: RunStage,
    pub run: AgentRunRecord,
    pub session_key: String,
    pub failure: Option<DomainError>,
}

/// What the store is asked.
pub enum RunAction {
    /// For the run of the task's id.
    Load,
    /// To store the task's run.
    Save,
    /// To append messages to the task's session.
    Append(Vec<ChatMessage>),
    /// To store the task's run if the stored one is running.
    Finalize,
}

/// What the store says.
pub enum RunEvent {
    Loaded(Option<AgentRunRecord>),
    Saved,
    Appended,
    AppendFailed(DomainError),
    Finalized(bool),
    Broke(DomainError),
}

/// What is done next.
pub enum RunStep {
    Next(AgentRunTask, RunAction),
    End(Result<AgentRunRecord, ErrorShape>),
}

/// What a stage waits for.
pub open spec fn awaits(stage: RunStage, event: RunEvent) -> bool {
    event is Broke || match stage {
        RunStage::Opening => event is Loaded,
        RunStage::Probing => event is Loaded,
        RunStage::Starting => event is Saved,
        RunStage::Checking => event is Loaded,
        RunStage::Appending => event is Appended || event is AppendFailed,
        RunStage::Rechecking => event is Loaded,
        RunStage::Completing => event is Finalized,
        RunStage::Settling => event is Loaded,
        RunStage::Storing => event is Saved,
        RunStage::Failing => event is Finalized,
        RunStage::Failed => event is Loaded,
    }
}

/// How many more stages there are at most.
pub open spec fn stages_left(stage: RunStage) -> nat {
    match stage {
        RunStage::Opening => 9,
        RunStage::Probing => 8,
        RunStage::Starting => 7,
        RunStage::Checking => 6,
        RunStage::Appending => 5,
        RunStage::Rechecking => 4,
        RunStage::Completing => 3,
        RunStage::Settling => 2,
        RunStage::Storing => 1,
        RunStage::Failing => 2,
        RunStage::Failed => 1,
    }
}

/// The run is over, by what the store says.
pub open spec fn found_over(found: Option<AgentRunRecord>) -> bool {
    found is Some && is_over(found->0.status@)
}

/// The run with another outcome.
pub open spec fn is_outcome(
    new: AgentRunRecord,
    old: AgentRunRecord,
    status: Seq<char>,
    output: Seq<char>,
    now: u64,
) -> bool {
    &&& new == (AgentRunRecord {
        status: new.status,
        output: new.output,
        updated_at_ms: now,
        completed_at_ms: Some(now),
        ..old
    })
    &&& new.status@ == status
    &&& new.output@ == output
}

impl AgentRunTask {
    /// A failed task knows what went wrong.
    pub open spec fn valid(&self) -> bool {
        (self.stage == RunStage::Failing || self.stage == RunStage::Failed)
            ==> self.failure is Some
    }

    /// Begins to carry out a run: it is looked up first.
    pub fn begin(run: AgentRunRecord) -> (r: Result<AgentRunTask, ErrorShape>)
        ensures
            match r {
                Ok(task) => {
                    &&& task.valid()
                    &&& task.stage == RunStage::Opening
                    &&& task.run == run
                    &&& opt_text(run.session_key) == Some(task.session_key@)
                },
                Err(error) => run.session_key is None && error@ == invalid(
                    "invalid stored agent run: sessionKey is required"@,
                ),
            },
    {
        let session_key = match &run.session_key {
            Some(key) => key.clone(),
            None => {
                return Err(invalid_request("invalid stored agent run: sessionKey is required"));
            },
        };
        Ok(AgentRunTask { stage: RunStage::Opening, run, session_key, failure: None })
    }

    /// The next stage of the task with the same run.
    pub open spec fn moves(&self, next: AgentRunTask, stage: RunStage) -> bool {
        &&& next.stage == stage
        &&& next.run == self.run
        &&& next.session_key == self.session_key
        &&& next.failure == self.failure
    }

    /// What is done next, from what the store says. Where the run is found to be over it stays as
    /// it is.
    pub fn step(self, event: RunEvent, now: u64, first_id: &str, second_id: &str) -> (r: RunStep)
        requires
            self.valid(),
            awaits(self.stage, event),
        ensures
            r matches RunStep::Next(next, _) ==> next.valid() && stages_left(next.stage)
                < stages_left(self.stage) && next.session_key == self.session_key,
            match (self.stage, event) {
                (_, RunEvent::Broke(error)) => r matches RunStep::End(Err(e)) && e@
                    == domain_error_model(error),
                (RunStage::Opening, RunEvent::Loaded(found)) => if found_over(found) {
                    r == RunStep::End(Ok(found->0))
                } else if self.run.status@ == "running"@ {
                    r matches RunStep::Next(next, RunAction::Load) && self.moves(
                        next,
                        RunStage::Probing,
                    )
                } else {
                    r matches RunStep::Next(next, RunAction::Save) && next.stage
                        == RunStage::Starting && next.run == (AgentRunRecord {
                        status: next.run.status,
                        updated_at_ms: now,
                        ..self.run
                    }) && next.run.status@ == "running"@
                },
                (RunStage::Probing, RunEvent::Loaded(found)) => if found is Some {
                    r matches RunStep::Next(next, RunAction::Load) && self.moves(
                        next,
                        RunStage::Checking,
                    )
                } else {
                    r matches RunStep::Next(next, RunAction::Save) && self.moves(
                        next,
                        RunStage::Starting,
                    )
                },
                (RunStage::Starting, _) => r matches RunStep::Next(next, RunAction::Load)
                    && self.moves(next, RunStage::Checking),
                (RunStage::Checking, RunEvent::Loaded(found)) => if found_over(found) {
                    r == RunStep::End(Ok(found->0))
                } else {
                    r matches RunStep::Next(next, RunAction::Append(messages)) && self.moves(
                        next,
                        RunStage::Appending,
                    ) && are_turns(
                        messages@,
                        self.run.input@,
                        self.run.updated_at_ms,
                        self.run.id@,
                        first_id@,
                        second_id@,
                    )
                },
                (RunStage::Appending, RunEvent::AppendFailed(error)) => r matches RunStep::Next(
                    next,
                    RunAction::Finalize,
                ) && next.stage == RunStage::Failing && next.failure == Some(error) && is_outcome(
                    next.run,
                    self.run,
                    "error"@,
                    "agent execution failed while appending chat messages: "@ + error.words(),
                    now,
                ),
                (RunStage::Appending, _) => r matches RunStep::Next(next, RunAction::Load)
                    && self.moves(next, RunStage::Rechecking),
                (RunStage::Rechecking, RunEvent::Loaded(found)) => if found_over(found) {
                    r == RunStep::End(Ok(found->0))
                } else {
                    r matches RunStep::Next(next, RunAction::Finalize) && next.stage
                        == RunStage::Completing && is_outcome(
                        next.run,
                        self.run,
                        "completed"@,
                        echo(self.run.input@),
                        now,
                    )
                },
                (RunStage::Completing, RunEvent::Finalized(stored)) => if stored {
                    r == RunStep::End(Ok(self.run))
                } else {
                    r matches RunStep::Next(next, RunAction::Load) && self.moves(
                        next,
                        RunStage::Settling,
                    )
                },
                (RunStage::Settling, RunEvent::Loaded(found)) => match found {
                    Some(latest) => r == RunStep::End(Ok(latest)),
                    None => r matches RunStep::Next(next, RunAction::Save) && self.moves(
                        next,
                        RunStage::Storing,
                    ),
                },
                (RunStage::Storing, _) => r == RunStep::End(Ok(self.run)),
                (RunStage::Failing, RunEvent::Finalized(stored)) => if stored {
                    r matches RunStep::End(Err(e)) && e@ == domain_error_model(self.failure->0)
                } else {
                    r matches RunStep::Next(next, RunAction::Load) && self.moves(
                        next,
                        RunStage::Failed,
                    )
                },
                (RunStage::Failed, RunEvent::Loaded(found)) => match found {
                    Some(latest) => r == RunStep::End(Ok(latest)),
                    None => r matches RunStep::End(Err(e)) && e@ == domain_error_model(
                        self.failure->0,
                    ),
                },
                _ => true,
            },
    {
        let event = match event {
            RunEvent::Broke(error) => {
                return RunStep::End(Err(map_domain_error(error)));
            },
            other => other,
        };
        match self.stage {
            RunStage::Opening => {
                let found = loaded(event);
                if let Some(run) = found {
                    if is_terminal_status(run.status.as_str()) {
                        return RunStep::End(Ok(run));
                    }
                }
                if same(self.run.status.as_str(), "running") {
                    return RunStep::Next(
                        AgentRunTask { stage: RunStage::Probing, ..self },
                        RunAction::Load,
                    );
                }
                let run = AgentRunRecord {
                    status: "running".to_owned(),
                    updated_at_ms: now,
                    ..self.run
                };
                RunStep::Next(
                    AgentRunTask {
                        stage: RunStage::Starting,
                        run,
                        session_key: self.session_key,
                        failure: self.failure,
                    },
                    RunAction::Save,
                )
            },
            RunStage::Probing => match loaded(event) {
                Some(_) => RunStep::Next(
                    AgentRunTask { stage: RunStage::Checking, ..self },
                    RunAction::Load,
                ),
                None => RunStep::Next(
                    AgentRunTask { stage: RunStage::Starting, ..self },
                    RunAction::Save,
                ),
            },
            RunStage::Starting => RunStep::Next(
                AgentRunTask { stage: RunStage::Checking, ..self },
                RunAction::Load,
            ),
            RunStage::Checking => {
                let found = loaded(event);
                if let Some(run) = found {
                    if is_terminal_status(run.status.as_str()) {
                        return RunStep::End(Ok(run));
                    }
                }
                let messages = turns(
                    self.run.input.as_str(),
                    self.run.updated_at_ms,
                    self.run.id.as_str(),
                    first_id,
                    second_id,
                );
                RunStep::Next(
                    AgentRunTask { stage: RunStage::Appending, ..self },
                    RunAction::Append(messages),
                )
            },
            RunStage::Appending => match event {
                RunEvent::AppendFailed(error) => {
                    let words = error.describe();
                    let output = cat(
                        "agent execution failed while appending chat messages: ",
                        words.as_str(),
                    );
                    let run = with_outcome(self.run, "error", output, now);
                    RunStep::Next(
                        AgentRunTask {
                            stage: RunStage::Failing,
                            run,
                            session_key: self.session_key,
                            failure: Some(error),
                        },
                        RunAction::Finalize,
                    )
                },
                _ => RunStep::Next(
                    AgentRunTask { stage: RunStage::Rechecking, ..self },
                    RunAction::Load,
                ),
            },
            RunStage::Rechecking => {
                let found = loaded(event);
                if let Some(run) = found {
                    if is_terminal_status(run.status.as_str()) {
                        return RunStep::End(Ok(run));
                    }
                }
                let output = cat("Echo: ", self.run.input.as_str());
                let run = with_outcome(self.run, "completed", output, now);
                RunStep::Next(
                    AgentRunTask {
                        stage: RunStage::Completing,
                        run,
                        session_key: self.session_key,
                        failure: self.failure,
                    },
                    RunAction::Finalize,
                )
            },
            RunStage::Completing => if stored(event) {
                RunStep::End(Ok(self.run))
            } else {
                RunStep::Next(
                    AgentRunTask { stage: RunStage::Settling, ..self },
                    RunAction::Load,
                )
            },
            RunStage::Settling => match loaded(event) {
                Some(latest) => RunStep::End(Ok(latest)),
                None => RunStep::Next(
                    AgentRunTask { stage: RunStage::Storing, ..self },
                    RunAction::Save,
                ),
            },
            RunStage::Storing => RunStep::End(Ok(self.run)),
            RunStage::Failing => if stored(event) {
                RunStep::End(Err(failed_with(self.failure)))
            } else {
                RunStep::Next(
                    AgentRunTask { stage: RunStage::Failed, ..self },
                    RunAction::Load,
                )
            },
            RunStage::Failed => match loaded(event) {
                Some(latest) => RunStep::End(Ok(latest)),
                None => RunStep::End(Err(failed_with(self.failure))),
            },
        }
    }
}

/// The run that was loaded.
fn loaded(event: RunEvent) -> (r: Option<AgentRunRecord>)
    requires
        event is Loaded,
    ensures
        event == RunEvent::Loaded(r),
{
    match event {
        RunEvent::Loaded(found) => found,
        _ => None,
    }
}

/// Whether the run was stored.
fn stored(event: RunEvent) -> (r: bool)
    requires
        event is Finalized,
    ensures
        event == RunEvent::Finalized(r),
{
    match event {
        RunEvent::Finalized(stored) => stored,
        _ => false,
    }
}

/// The error of a failed task.
fn failed_with(failure: Option<DomainError>) -> (r: ErrorShape)
    requires
        failure is Some,
    ensures
        r@ == domain_error_model(failure->0),
{
    match failure {
        Some(error) => map_domain_error(error),
        None => invalid_request(""),
    }
}

fn with_outcome(run: AgentRunRecord, status: &str, output: String, now: u64) -> (r: AgentRunRecord)
    ensures
        is_outcome(r, run, status@, output@, now),
{
    AgentRunRecord {
        status: status.to_owned(),
        output,
        updated_at_ms: now,
        completed_at_ms: Some(now),
        ..run
    }
}

// ---------------------------------------------------------------------------------------------
// The method `agent.wait`
// ---------------------------------------------------------------------------------------------
/// What is waited for.
pub struct AgentWaitParams {
    pub run_id: String,
    pub timeout_ms: Option<u64>,
}

/// How long is waited: as long as is asked for, half a minute where nothing is, and two minutes at
/// most.
pub open spec fn wait_limit(timeout_ms: Option<u64>) -> u64 {
    match timeout_ms {
        None => 30_000,
        Some(ms) => if ms < 120_000 {
            ms
        } else {
            120_000
        },
    }
}

/// The run that is waited for, and for how long.
pub fn agent_wait_request(params: &AgentWaitParams) -> (r: Result<(String, u64), ErrorShape>)
    ensures
        match kept(params.run_id@) {
            Some(id) => r is Ok && r->Ok_0.0@ == id && r->Ok_0.1 == wait_limit(params.timeout_ms),
            None => r is Err && r->Err_0@ == invalid(
                "invalid agent.wait params: runId is required"@,
            ),
        },
{
    let run_id = match trim_non_empty(params.run_id.as_str()) {
        Some(id) => id,
        None => {
            return Err(invalid_request("invalid agent.wait params: runId is required"));
        },
    };
    let limit: u64 = match params.timeout_ms {
        None => 30_000,
        Some(ms) => if ms < 120_000 {
            ms
        } else {
            120_000
        },
    };
    Ok((run_id, limit))
}

/// What is done while a run is waited for.
#[derive(Debug, Clone, Copy, PartialEq, Eq, Structural)]
pub enum WaitAction {
    /// The queued run is claimed, and carried out where that succeeds.
    Claim,
    /// How the run stands is answered.
    Answer,
    /// It is answered that the time is up.
    TimeOut,
    /// The run is looked up again in a moment.
    Sleep,
}

/// What is done while a run is waited for, from the status that was found, whether claiming it was
/// tried in vain, and whether the time is up.
pub open spec fn wait_action(status: Option<Seq<char>>, refused: bool, late: bool) -> WaitAction {
    if status == Some("queued"@) && !refused {
        WaitAction::Claim
    } else if status is Some && is_over(status->0) {
        WaitAction::Answer
    } else if late {
        WaitAction::TimeOut
    } else {
        WaitAction::Sleep
    }
}

/// What is done while a run is waited for.
pub fn handle_agent_wait(found: &Option<AgentRunRecord>, refused: bool, late: bool) -> (r:
    WaitAction)
    ensures
        r == wait_action(
            match *found {
                Some(run) => Some(run.status@),
                None => None,
            },
            refused,
            late,
        ),
{
    if let Some(run) = found {
        if same(run.status.as_str(), "queued") && !refused {
            return WaitAction::Claim;
        }
        if is_terminal_status(run.status.as_str()) {
            return WaitAction::Answer;
        }
    }
    if late {
        WaitAction::TimeOut
    } else {
        WaitAction::Sleep
    }
}

/// A queued run that was claimed.
pub fn claimed_run(run: AgentRunRecord, now: u64) -> (r: AgentRunRecord)
    ensures
        r == (AgentRunRecord { status: r.status, updated_at_ms: now, ..run }),
        r.status@ == "running"@,
{
    AgentRunRecord { status: "running".to_owned(), updated_at_ms: now, ..run }
}

/// How a run stands.
pub open spec fn wait_answer(run_id: Seq<char>, run: AgentRunRecord) -> JsonModel {
    JsonModel::Object(
        no_fields().insert("runId"@, JsonModel::Text(run_id)).insert(
            "status"@,
            JsonModel::Text(run.status@),
        ).insert("startedAt"@, JsonModel::Unsigned(run.created_at_ms)).insert(
            "endedAt"@,
            number_or_null(run.completed_at_ms),
        ).insert(
            "error"@,
            if run.status@ == "error"@ {
                JsonModel::Text(run.output@)
            } else {
                JsonModel::Null
            },
        ).insert(
            "result"@,
            JsonModel::Object(
                no_fields().insert(
                    "output"@,
                    if run.status@ == "completed"@ {
                        JsonModel::Text(run.output@)
                    } else {
                        JsonModel::Null
                    },
                ).insert("sessionKey"@, text_or_null(opt_text(run.session_key))),
            ),
        ),
    )
}

/// The output of a run with the given status, and nothing for another.
fn output_for(run: &AgentRunRecord, status: &str) -> (r: Json)
    ensures
        r@ == (if run.status@ == status@ {
            JsonModel::Text(run.output@)
        } else {
            JsonModel::Null
        }),
{
    if same(run.status.as_str(), status) {
        text(run.output.as_str())
    } else {
        Json::Null
    }
}

/// How a run stands.
pub fn agent_wait_payload(run_id: &str, run: &AgentRunRecord) -> (r: Json)
    ensures
        r@ == wait_answer(run_id@, *run),
{
    let mut result = object();
    set_field(&mut result, "output", output_for(run, "completed"));
    set_field(&mut result, "sessionKey", opt_text_json(&run.session_key));
    let mut o = object();
    set_field(&mut o, "runId", text(run_id));
    set_field(&mut o, "status", text(run.status.as_str()));
    set_field(&mut o, "startedAt", Json::Unsigned(run.created_at_ms));
    set_field(&mut o, "endedAt", opt_number_json(run.completed_at_ms));
    set_field(&mut o, "error", output_for(run, "error"));
    set_field(&mut o, "result", Json::Object(result));
    Json::Object(o)
}

/// What is answered when the time is up.
pub fn timeout_payload(run_id: &str) -> (r: Json)
    ensures
        r@ == JsonModel::Object(
            no_fields().insert("runId"@, JsonModel::Text(run_id@)).insert(
                "status"@,
                JsonModel::Text("timeout"@),
            ),
        ),
{
    let mut o = object();
    set_field(&mut o, "runId", text(run_id));
    set_field(&mut o, "status", text("timeout"));
    Json::Object(o)
}

// ---------------------------------------------------------------------------------------------
// The method `agent.identity.get`
// ---------------------------------------------------------------------------------------------
/// Whose identity is asked for.
pub struct AgentIdentityParams {
    pub agent_id: Option<String>,
    pub session_key: Option<String>,
}

/// The agent in the key of a session: the part behind `agent:`.
pub open spec fn agent_of_session(key: Seq<char>) -> Option<Seq<char>> {
    let parts = split(trimmed(key), ':');
    if parts.len() > 1 && parts[0] == "agent"@ {
        kept(parts[1])
    } else {
        None
    }
}

/// The agent in the key of a session.
pub fn parse_agent_id_from_session_key(key: &str) -> (r: Option<String>)
    ensures
        opt_text(r) == agent_of_session(key@),
{
    let t = trim(key);
    let parts = split_at_char(t.as_str(), ':');
    assert(texts(parts@).len() == parts@.len());
    if parts.len() < 2 {
        return None;
    }
    assert(texts(parts@)[0] == parts@[0]@ && texts(parts@)[1] == parts@[1]@);
    if !same(parts[0].as_str(), "agent") {
        return None;
    }
    trim_non_empty(parts[1].as_str())
}

/// The agent that is asked for: by its id, by its session, or the main one.
pub open spec fn identity_agent(params: AgentIdentityParams) -> Seq<char> {
    text_or(
        first_of(
            kept_opt(opt_text(params.agent_id)),
            match opt_text(params.session_key) {
                Some(key) => agent_of_session(key),
                None => None,
            },
        ),
        "main"@,
    )
}

/// The identity of an agent.
pub fn handle_agent_identity(params: &AgentIdentityParams) -> (r: Json)
    ensures
        r@ == JsonModel::Object(
            no_fields().insert("agentId"@, JsonModel::Text(identity_agent(*params))).insert(
                "name"@,
                JsonModel::Text("Reclaw"@),
            ).insert("role"@, JsonModel::Text("assistant"@)).insert(
                "avatar"@,
                JsonModel::Null,
            ).insert("runtime"@, JsonModel::Text("rust"@)),
        ),
{
    let by_session = match &params.session_key {
        Some(key) => parse_agent_id_from_session_key(key.as_str()),
        None => None,
    };
    let agent_id = or_text(either(trim_non_empty_opt(&params.agent_id), by_session), "main");
    let mut o = object();
    set_field(&mut o, "agentId", text(agent_id.as_str()));
    set_field(&mut o, "name", text("Reclaw"));
    set_field(&mut o, "role", text("assistant"));
    set_field(&mut o, "avatar", Json::Null);
    set_field(&mut o, "runtime", text("rust"));
    Json::Object(o)
}

// ---------------------------------------------------------------------------------------------
// Laws
// ---------------------------------------------------------------------------------------------
/// A request for the run that an earlier request queued is answered with that run: its id, its
/// session, and that it is queued.
pub proof fn law_asking_again_finds_the_run(request: AgentRequest, run: AgentRunRecord, now: u64)
    requires
        is_begun(run, request, now),
    ensures
        existing_agent_answer(run, request.session_key@, request.agent_id@) == Ok::<
            JsonModel,
            ErrorModel,
        >(
            agent_answer(
                request.run_id@,
                request.session_key@,
                None,
                if request.deferred {
                    "queued"@
                } else {
                    "running"@
                },
            ),
        ),
{
    reveal_strlit("queued");
    reveal_strlit("running");
    reveal_strlit("completed");
    reveal_strlit("error");
    assert("queued"@.len() != "completed"@.len() && "running"@.len() != "completed"@.len());
    assert("queued"@.len() != "error"@.len() && "running"@.len() != "error"@.len());
    reveal_strlit("runtime");
    reveal_strlit("source");
    reveal_strlit("lineage");
    reveal_strlit("deferred");
    assert("source"@.len() != "lineage"@.len() && "source"@.len() != "deferred"@.len());
    assert(member(agent_metadata(request.deferred), "source"@) == Some(
        JsonModel::Text("agent"@),
    ));
}

/// A run that is over is never waited for: how it stands is answered at once.
pub proof fn law_finished_runs_are_answered(status: Seq<char>, refused: bool, late: bool)
    requires
        is_over(status),
    ensures
        wait_action(Some(status), refused, late) == WaitAction::Answer,
{
    reveal_strlit("queued");
    reveal_strlit("completed");
    reveal_strlit("error");
    reveal_strlit("aborted");
    assert("queued"@.len() == 6 && "completed"@.len() == 9 && "error"@.len() == 5
        && "aborted"@.len() == 7);
}

/// Waiting ends: once the time is up nothing is slept on.
pub proof fn law_waiting_ends(status: Option<Seq<char>>, refused: bool)
    ensures
        wait_action(status, refused, true) != WaitAction::Sleep,
{
}

/// An agent is run where there is something to run it on: its input, or else its message, or else its
/// text. What is not named has its default.
pub proof fn law_agent_requests(params: AgentRunParams, id: &str, r: Result<AgentRequest, ErrorShape>)
    requires
        call_ensures(agent_request_with, (params, id), r),
    ensures
        ({
            let input = if params.input is Some {
                params.input
            } else if params.message is Some {
                params.message
            } else {
                params.text
            };
            &&& r is Ok <==> is_given(input)
            &&& r is Err ==> r->Err_0.code@ == "INVALID_REQUEST"@
            &&& r is Ok ==> {
                let request = r->Ok_0;
                &&& request.input@ == trimmed(input->0@)
                &&& request.run_id@ == (if is_given(params.run_id) {
                    trimmed(params.run_id->0@)
                } else if is_given(params.idempotency_key) {
                    trimmed(params.idempotency_key->0@)
                } else {
                    "run-"@ + id@
                })
                &&& request.session_key@ == (if is_given(params.session_key) {
                    trimmed(params.session_key->0@)
                } else {
                    "agent:main:main"@
                })
                &&& request.agent_id@ == (if is_given(params.agent_id) {
                    trimmed(params.agent_id->0@)
                } else {
                    "main"@
                })
                &&& request.deferred <==> params.deferred == Some(true)
            }
        }),
{
    lemma_is_given(params.input);
    lemma_is_given(params.message);
    lemma_is_given(params.text);
    lemma_is_given(params.run_id);
    lemma_is_given(params.idempotency_key);
    lemma_is_given(params.session_key);
    lemma_is_given(params.agent_id);
}

/// Whether a text is given that has more than white space in it.
pub open spec fn is_given(value: Option<String>) -> bool {
    value is Some && not_blank(value->0@)
}

/// When a text is given, in the words of the contracts.
pub proof fn lemma_is_given(value: Option<String>)
    ensures
        is_given(value) <==> kept_opt(opt_text(value)) is Some,
        is_given(value) ==> kept_opt(opt_text(value)) == Some(trimmed(value->0@)),
{
    if value is Some {
        lemma_kept(value->0@);
    }
}

/// A new run is stored with what was asked for, waiting where it is put off and running where it is
/// not. Its session is stored with it where it is new.
pub proof fn law_new_runs(
    request: AgentRequest,
    known_session: bool,
    now: u64,
    r: Result<AgentStart, ErrorShape>,
)
    requires
        call_ensures(handle_agent, (request, None, known_session, now), r),
    ensures
        r is Ok,
        r->Ok_0 is Queued <==> request.deferred,
        r->Ok_0 is Begin <==> !request.deferred,
        ({
            let run = if request.deferred {
                r->Ok_0->Queued_run
            } else {
                r->Ok_0->Begin_run
            };
            let session = if request.deferred {
                r->Ok_0->Queued_session
            } else {
                r->Ok_0->Begin_session
            };
            &&& run.id@ == request.run_id@ && run.agent_id@ == request.agent_id@ && run.input@
                == request.input@
            &&& run.session_key is Some && run.session_key->0@ == request.session_key@
            &&& run.created_at_ms == now && run.updated_at_ms == now && run.completed_at_ms is None
            &&& run.output@.len() == 0
            &&& run.status@ == (if request.deferred {
                "queued"@
            } else {
                "running"@
            })
            &&& member(run.metadata@, "source"@) == Some(JsonModel::Text("agent"@))
            &&& session is Some <==> !known_session
            &&& session is Some ==> session->0.id@ == request.session_key@
                && session->0.created_at_ms == now
        }),
        request.deferred ==> member(r->Ok_0->Queued_answer@, "runId"@) == Some(
            JsonModel::Text(request.run_id@),
        ) && member(r->Ok_0->Queued_answer@, "summary"@) == Some(JsonModel::Text("queued"@)),
{
    reveal_strlit("");
    reveal_strlit("runId");
    reveal_strlit("status");
    reveal_strlit("summary");
    reveal_strlit("result");
    reveal_strlit("runtime");
    reveal_strlit("source");
    reveal_strlit("lineage");
    reveal_strlit("deferred");
    assert("runId"@.len() != "status"@.len());
    assert("runId"@.len() != "summary"@.len());
    assert("runId"@.len() != "result"@.len());
    assert("runId"@.len() != "runtime"@.len());
    assert("runId"@.len() != "source"@.len());
    assert("runId"@.len() != "lineage"@.len());
    assert("runId"@.len() != "deferred"@.len());
    assert("status"@.len() != "summary"@.len());
    assert("status"@[0] != "result"@[0]);
    assert("status"@.len() != "runtime"@.len());
    assert("status"@[1] != "source"@[1]);
    assert("status"@.len() != "lineage"@.len());
    assert("status"@.len() != "deferred"@.len());
    assert("summary"@.len() != "result"@.len());
    assert("summary"@[0] != "runtime"@[0]);
    assert("summary"@.len() != "source"@.len());
    assert("summary"@[0] != "lineage"@[0]);
    assert("summary"@.len() != "deferred"@.len());
    assert("result"@.len() != "runtime"@.len());
    assert("result"@[0] != "source"@[0]);
    assert("result"@.len() != "lineage"@.len());
    assert("result"@.len() != "deferred"@.len());
    assert("runtime"@.len() != "source"@.len());
    assert("runtime"@[0] != "lineage"@[0]);
    assert("runtime"@.len() != "deferred"@.len());
    assert("source"@.len() != "lineage"@.len());
    assert("source"@.len() != "deferred"@.len());
    assert("lineage"@.len() != "deferred"@.len());
}

/// A run that is known is told, unless it is another method's, another agent's or another session's.
pub proof fn law_known_runs(
    request: AgentRequest,
    run: AgentRunRecord,
    known_session: bool,
    now: u64,
    r: Result<AgentStart, ErrorShape>,
)
    requires
        call_ensures(handle_agent, (request, Some(run), known_session, now), r),
    ensures
        ({
            let foreign = (member(run.metadata@, "source"@) matches Some(JsonModel::Text(name)) && name
                != "agent"@) || run.agent_id@ != request.agent_id@ || (run.session_key is Some
                && run.session_key->0@ != request.session_key@);
            &&& r is Err <==> foreign
            &&& r is Err ==> r->Err_0.code@ == "INVALID_REQUEST"@
            &&& r is Ok ==> {
                let answer = r->Ok_0->Known_0@;
                let result = member(answer, "result"@)->0;
                &&& r->Ok_0 is Known
                &&& member(answer, "runId"@) == Some(JsonModel::Text(run.id@))
                &&& member(answer, "summary"@) == Some(JsonModel::Text(run.status@))
                &&& member(answer, "result"@) is Some
                &&& member(result, "output"@) == Some(
                    if run.status@ == "completed"@ || run.status@ == "error"@ {
                        JsonModel::Text(run.output@)
                    } else {
                        JsonModel::Null
                    },
                )
            }
        }),
{
    reveal_strlit("runId");
    reveal_strlit("status");
    reveal_strlit("summary");
    reveal_strlit("result");
    reveal_strlit("output");
    reveal_strlit("sessionKey");
    assert("runId"@.len() != "status"@.len());
    assert("runId"@.len() != "summary"@.len());
    assert("runId"@.len() != "result"@.len());
    assert("runId"@.len() != "output"@.len());
    assert("runId"@.len() != "sessionKey"@.len());
    assert("status"@.len() != "summary"@.len());
    assert("status"@[0] != "result"@[0]);
    assert("status"@[0] != "output"@[0]);
    assert("status"@.len() != "sessionKey"@.len());
    assert("summary"@.len() != "result"@.len());
    assert("summary"@.len() != "output"@.len());
    assert("summary"@.len() != "sessionKey"@.len());
    assert("result"@[0] != "output"@[0]);
    assert("result"@.len() != "sessionKey"@.len());
    assert("output"@.len() != "sessionKey"@.len());
}

/// Whatever happens while a run is carried out, it stays the same run: only how it stands changes. It
/// ends as completed with its echo, or as failed, or as it was found to have ended elsewhere.
pub proof fn law_runs_stay_themselves(
    task: AgentRunTask,
    event: RunEvent,
    now: u64,
    first_id: &str,
    second_id: &str,
    r: RunStep,
)
    requires
        task.valid(),
        awaits(task.stage, event),
        call_ensures(AgentRunTask::step, (task, event, now, first_id, second_id), r),
    ensures
        r is Next ==> {
            let run = r->Next_0.run;
            &&& run.id == task.run.id && run.input == task.run.input && run.agent_id
                == task.run.agent_id && run.session_key == task.run.session_key
                && run.created_at_ms == task.run.created_at_ms
            &&& run.status@ == task.run.status@ || run.status@ == "running"@ || run.status@
                == "completed"@ || run.status@ == "error"@
            &&& task.stage is Rechecking ==> run.status@ == "completed"@ && run.output@ == "Echo: "@
                + task.run.input@ && run.completed_at_ms == Some(now)
            &&& r->Next_1 is Append ==> {
                let said = r->Next_1->Append_0@;
                &&& task.stage is Checking
                &&& said.len() == 2
                &&& said[0].role@ == "user"@ && said[0].text@ == task.run.input@
                &&& said[1].role@ == "assistant"@ && said[1].text@ == "Echo: "@ + task.run.input@
            }
        },
        event is Broke ==> r is End && r->End_0 is Err,
        event is AppendFailed ==> r is Next && r->Next_1 is Finalize && r->Next_0.run.status@
            == "error"@,
        event is Loaded && event->Loaded_0 is Some && (event->Loaded_0->0.status@ == "completed"@
            || event->Loaded_0->0.status@ == "error"@ || event->Loaded_0->0.status@ == "aborted"@)
            && !(task.stage is Probing) ==> r == RunStep::End(Ok(event->Loaded_0->0)),
{
}

/// A run is waited for half a minute where nothing is said, as long as is said up to two minutes, and
/// never longer.
pub proof fn law_waiting_times(params: &AgentWaitParams, r: Result<(String, u64), ErrorShape>)
    requires
        call_ensures(agent_wait_request, (params,), r),
    ensures
        r is Ok <==> not_blank(params.run_id@),
        r is Ok ==> r->Ok_0.0@ == trimmed(params.run_id@),
        r is Ok && params.timeout_ms is None ==> r->Ok_0.1 == 30000,
        r is Ok && params.timeout_ms is Some && params.timeout_ms->0 <= 120000 ==> r->Ok_0.1
            == params.timeout_ms->0,
        r is Ok && params.timeout_ms is Some && params.timeout_ms->0 > 120000 ==> r->Ok_0.1 == 120000,
{
    lemma_kept(params.run_id@);
}

/// While a run is waited for it is claimed where it waits itself, answered once it is over, and given
/// up once the time is up.
pub proof fn law_waiting(found: &Option<AgentRunRecord>, refused: bool, late: bool, r: WaitAction)
    requires
        call_ensures(handle_agent_wait, (found, refused, late), r),
    ensures
        r is Claim <==> *found is Some && found->0.status@ == "queued"@ && !refused,
        r is Answer <==> *found is Some && (found->0.status@ == "completed"@ || found->0.status@
            == "error"@ || found->0.status@ == "aborted"@),
        r is TimeOut ==> late,
        r is Sleep ==> !late,
{
    reveal_strlit("queued");
    reveal_strlit("completed");
    reveal_strlit("error");
    reveal_strlit("aborted");
    assert("queued"@.len() != "completed"@.len());
    assert("queued"@.len() != "error"@.len());
    assert("queued"@.len() != "aborted"@.len());
    assert("completed"@.len() != "error"@.len());
    assert("completed"@.len() != "aborted"@.len());
    assert("error"@.len() != "aborted"@.len());
}

/// What is told of a run that is over is how it ended: its output where it was completed and what
/// went wrong where it failed.
pub proof fn law_ends_of_runs(run_id: &str, run: &AgentRunRecord, r: Json)
    requires
        call_ensures(agent_wait_payload, (run_id, run), r),
    ensures
        member(r@, "runId"@) == Some(JsonModel::Text(run_id@)),
        member(r@, "status"@) == Some(JsonModel::Text(run.status@)),
        member(r@, "startedAt"@) == Some(JsonModel::Unsigned(run.created_at_ms)),
        run.completed_at_ms is Some ==> member(r@, "endedAt"@) == Some(
            JsonModel::Unsigned(run.completed_at_ms->0),
        ),
        run.status@ == "error"@ <==> member(r@, "error"@) == Some(JsonModel::Text(run.output@)),
        member(r@, "result"@) is Some,
        run.status@ == "completed"@ <==> member(member(r@, "result"@)->0, "output"@) == Some(
            JsonModel::Text(run.output@),
        ),
{
    reveal_strlit("runId");
    reveal_strlit("status");
    reveal_strlit("startedAt");
    reveal_strlit("endedAt");
    reveal_strlit("error");
    reveal_strlit("result");
    reveal_strlit("output");
    reveal_strlit("sessionKey");
    assert("runId"@.len() != "status"@.len());
    assert("runId"@.len() != "startedAt"@.len());
    assert("runId"@.len() != "endedAt"@.len());
    assert("runId"@[0] != "error"@[0]);
    assert("runId"@.len() != "result"@.len());
    assert("runId"@.len() != "output"@.len());
    assert("runId"@.len() != "sessionKey"@.len());
    assert("status"@.len() != "startedAt"@.len());
    assert("status"@.len() != "endedAt"@.len());
    assert("status"@.len() != "error"@.len());
    assert("status"@[0] != "result"@[0]);
    assert("status"@[0] != "output"@[0]);
    assert("status"@.len() != "sessionKey"@.len());
    assert("startedAt"@.len() != "endedAt"@.len());
    assert("startedAt"@.len() != "error"@.len());
    assert("startedAt"@.len() != "result"@.len());
    assert("startedAt"@.len() != "output"@.len());
    assert("startedAt"@.len() != "sessionKey"@.len());
    assert("endedAt"@.len() != "error"@.len());
    assert("endedAt"@.len() != "result"@.len());
    assert("endedAt"@.len() != "output"@.len());
    assert("endedAt"@.len() != "sessionKey"@.len());
    assert("error"@.len() != "result"@.len());
    assert("error"@.len() != "output"@.len());
    assert("error"@.len() != "sessionKey"@.len());
    assert("result"@[0] != "output"@[0]);
    assert("result"@.len() != "sessionKey"@.len());
    assert("output"@.len() != "sessionKey"@.len());
}

/// The agent of a session stands behind the word and the first colon of its key.
pub proof fn law_agents_of_sessions(
    key: &str,
    name: Seq<char>,
    rest: Seq<char>,
    r: Option<String>,
)
    requires
        call_ensures(parse_agent_id_from_session_key, (key,), r),
        key@ == "agent"@ + seq![':'] + (name + seq![':'] + rest),
        !name.contains(':'),
        rest.len() > 0 && !is_white_space(rest.last()),
    ensures
        r is Some <==> not_blank(name),
        r is Some ==> r->0@ == trimmed(name),
{
    reveal_strlit("agent");
    let w = |c: char| is_white_space(c);
    assert(key@[0] == 'a');
    assert(key@.last() == rest.last());
    lemma_trim_both_fixed(key@, w);
    assert(!"agent"@.contains(':')) by {
        assert forall|i: int| 0 <= i < 5 implies "agent"@[i] != ':' by {}
    }
    law_split_at_a_separator("agent"@, name + seq![':'] + rest, ':');
    law_split_at_a_separator(name, rest, ':');
    let parts = split(key@, ':');
    assert(parts[0] == "agent"@);
    assert(parts[1] == name);
    assert(parts.len() > 1);
    lemma_kept(name);
}

/// Who an agent is: the one that is named, or else the one of the session, or else the main one.
pub proof fn law_who_agents_are(params: &AgentIdentityParams, key: &str, of: Option<String>, r: Json)
    requires
        call_ensures(handle_agent_identity, (params,), r),
        params.session_key is Some ==> params.session_key->0@ == key@,
        call_ensures(parse_agent_id_from_session_key, (key,), of),
    ensures
        member(r@, "agentId"@) == Some(
            JsonModel::Text(
                if is_given(params.agent_id) {
                    trimmed(params.agent_id->0@)
                } else if params.session_key is Some && of is Some {
                    of->0@
                } else {
                    "main"@
                },
            ),
        ),
{
    lemma_is_given(params.agent_id);
    reveal_strlit("agentId");
    reveal_strlit("name");
    reveal_strlit("role");
    reveal_strlit("avatar");
    reveal_strlit("runtime");
    assert("agentId"@.len() != "name"@.len());
    assert("agentId"@.len() != "role"@.len());
    assert("agentId"@.len() != "avatar"@.len());
    assert("agentId"@[0] != "runtime"@[0]);
    assert("name"@[0] != "role"@[0]);
    assert("name"@.len() != "avatar"@.len());
    assert("name"@.len() != "runtime"@.len());
    assert("role"@.len() != "avatar"@.len());
    assert("role"@.len() != "runtime"@.len());
    assert("avatar"@.len() != "runtime"@.len());
}

/// Who waited too long is told so.
pub proof fn law_waiting_too_long(run_id: &str, r: Json)
    requires
        call_ensures(timeout_payload, (run_id,), r),
    ensures
        crate::json::member(r@, "runId"@) == Some(JsonModel::Text(run_id@)),
        crate::json::member(r@, "status"@) == Some(JsonModel::Text("timeout"@)),
{
    reveal_strlit("runId");
    reveal_strlit("status");
    assert("runId"@.len() != "status"@.len());
}

/// A request that gets its own id asks for what any other asks for.
pub proof fn law_requests_get_an_id(params: AgentRunParams, r: Result<AgentRequest, ErrorShape>)
    requires
        call_ensures(agent_request, (params,), r),
    ensures
        ({
            let input = if params.input is Some {
                params.input
            } else if params.message is Some {
                params.message
            } else {
                params.text
            };
            &&& r is Ok <==> crate::rpc::methods::agent::is_given(input)
            &&& r is Ok ==> r->Ok_0.input@ == crate::text::trimmed(input->0@)
            &&& r is Ok && crate::rpc::methods::agent::is_given(params.run_id) ==> r->Ok_0.run_id@ == crate::text::trimmed(params.run_id->0@)
            &&& r is Ok && crate::rpc::methods::agent::is_given(params.session_key) ==> r->Ok_0.session_key@ == crate::text::trimmed(params.session_key->0@)
        }),
{
    crate::rpc::methods::agent::lemma_is_given(params.input);
    crate::rpc::methods::agent::lemma_is_given(params.message);
    crate::rpc::methods::agent::lemma_is_given(params.text);
    crate::rpc::methods::agent::lemma_is_given(params.run_id);
    crate::rpc::methods::agent::lemma_is_given(params.session_key);
}

/// A run that is claimed runs, and is else as it was; one that is done is answered with its output.
pub proof fn law_claimed_runs(run: AgentRunRecord, now: u64, r: AgentRunRecord, run_id: &str, key: &str, done: Json)
    requires
        call_ensures(claimed_run, (run, now), r),
        call_ensures(agent_completed, (run_id, key, run), done),
    ensures
        r.status@ == "running"@ && r.updated_at_ms == now,
        r.id == run.id && r.input == run.input && r.output == run.output && r.session_key == run.session_key
            && r.agent_id == run.agent_id && r.metadata == run.metadata && r.created_at_ms
            == run.created_at_ms,
        crate::json::member(done@, "runId"@) == Some(JsonModel::Text(run_id@)),
        crate::json::member(done@, "status"@) == Some(JsonModel::Text("ok"@)),
        crate::json::member(done@, "summary"@) == Some(JsonModel::Text("completed"@)),
        crate::json::member(done@, "result"@) is Some && crate::json::member(crate::json::member(done@, "result"@)->0, "output"@) == Some(
            JsonModel::Text(run.output@),
        ) && crate::json::member(crate::json::member(done@, "result"@)->0, "sessionKey"@) == Some(JsonModel::Text(key@)),
{
    reveal_strlit("runId");
    reveal_strlit("status");
    reveal_strlit("summary");
    reveal_strlit("result");
    reveal_strlit("output");
    reveal_strlit("sessionKey");
    assert("runId"@.len() != "status"@.len());
    assert("runId"@.len() != "summary"@.len());
    assert("runId"@.len() != "result"@.len());
    assert("runId"@.len() != "output"@.len());
    assert("runId"@.len() != "sessionKey"@.len());
    assert("status"@.len() != "summary"@.len());
    assert("status"@[0] != "result"@[0]);
    assert("status"@[0] != "output"@[0]);
    assert("status"@.len() != "sessionKey"@.len());
    assert("summary"@.len() != "result"@.len());
    assert("summary"@.len() != "output"@.len());
    assert("summary"@.len() != "sessionKey"@.len());
    assert("result"@[0] != "output"@[0]);
    assert("result"@.len() != "sessionKey"@.len());
    assert("output"@.len() != "sessionKey"@.len());
}

} // verus!
