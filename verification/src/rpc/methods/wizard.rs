//! Wizards: goals that are reached step by step.
use crate::ids::{is_uuid_text, new_id};
use crate::json::{
    no_fields, object, opt_text_json, set_field, text, text_array, text_or_null, texts_json, Json,
    JsonModel,
};
use crate::protocol::errors::{invalid, invalid_request, unavailable, ErrorShape, ERROR_UNAVAILABLE};
use crate::rpc::methods::owned;
use crate::text::{
    cat, either, first_of, kept_opt, opt_text, or_text, same, text_or, texts, trim_non_empty_opt,
};
use vstd::prelude::*;

verus! {

broadcast use vstd::seq::group_seq_axioms;

/// A goal, and how far it is reached.
pub struct WizardSession {
    pub id: String,
    pub status: String,
    pub goal: String,
    pub step_index: usize,
    pub steps: Vec<String>,
    pub created_at_ms: u64,
    pub updated_at_ms: u64,
    pub last_input: Option<String>,
    pub cancel_reason: Option<String>,
}

/// The JSON of the record.
pub open spec fn wizard_session_json(r: WizardSession) -> JsonModel {
    JsonModel::Object(
        no_fields().insert("id"@, JsonModel::Text(r.id@)).insert("status"@, JsonModel::Text(r.status@)).insert("goal"@, JsonModel::Text(r.goal@)).insert("stepIndex"@, JsonModel::Unsigned(r.step_index as u64)).insert("steps"@, text_array(texts(r.steps@))).insert("createdAtMs"@, JsonModel::Unsigned(r.created_at_ms)).insert("updatedAtMs"@, JsonModel::Unsigned(r.updated_at_ms)).insert("lastInput"@, text_or_null(opt_text(r.last_input))).insert("cancelReason"@, text_or_null(opt_text(r.cancel_reason))),
    )
}

impl WizardSession {
    /// The JSON of the record.
    pub fn to_json(&self) -> (r: Json)
        ensures
            r@ == wizard_session_json(*self),
    {
        let mut o = object();
        set_field(&mut o, "id", text(self.id.as_str()));
        set_field(&mut o, "status", text(self.status.as_str()));
        set_field(&mut o, "goal", text(self.goal.as_str()));
        set_field(&mut o, "stepIndex", Json::Unsigned(self.step_index as u64));
        set_field(&mut o, "steps", texts_json(&self.steps));
        set_field(&mut o, "createdAtMs", Json::Unsigned(self.created_at_ms));
        set_field(&mut o, "updatedAtMs", Json::Unsigned(self.updated_at_ms));
        set_field(&mut o, "lastInput", opt_text_json(&self.last_input));
        set_field(&mut o, "cancelReason", opt_text_json(&self.cancel_reason));
        Json::Object(o)
    }
}

/// Under which key a session is stored.
pub fn wizard_key(id: &str) -> (r: String)
    ensures
        r@ == "wizard/session/"@ + id@,
{
    cat("wizard/session/", id)
}

/// The steps of every goal.
pub open spec fn wizard_steps() -> Seq<Seq<char>> {
    seq!["collect-requirements"@, "validate-plan"@, "apply-changes"@, "verify-results"@]
}

/// What a session is begun with.
pub struct WizardStartParams {
    pub id: Option<String>,
    pub goal: Option<String>,
    pub prompt: Option<String>,
}

/// The goal that is given.
pub open spec fn wizard_goal(params: WizardStartParams) -> Option<Seq<char>> {
    kept_opt(first_of(opt_text(params.goal), opt_text(params.prompt)))
}

/// A session as it begins.
pub open spec fn is_started(
    session: WizardSession,
    params: WizardStartParams,
    id: Seq<char>,
    now: u64,
) -> bool {
    &&& session.id@ == text_or(kept_opt(opt_text(params.id)), "wizard-"@ + id)
    &&& session.status@ == "active"@
    &&& Some(session.goal@) == wizard_goal(params)
    &&& session.step_index == 0
    &&& texts(session.steps@) == wizard_steps()
    &&& session.created_at_ms == now
    &&& session.updated_at_ms == now
    &&& session.last_input is None
    &&& session.cancel_reason is None
}

/// Begins a session; one without an id has the given one.
pub fn handle_start_with(params: WizardStartParams, id: &str, now: u64) -> (r: Result<
    WizardSession,
    ErrorShape,
>)
    ensures
        match r {
            Ok(session) => is_started(session, params, id@, now),
            Err(error) => wizard_goal(params) is None && error@ == invalid(
                "invalid wizard.start params: goal is required"@,
            ),
        },
{
    let fallback = cat("wizard-", id);
    let id = or_text(trim_non_empty_opt(&params.id), fallback.as_str());
    let goal = match trim_non_empty_opt(&either(params.goal, params.prompt)) {
        Some(goal) => goal,
        None => {
            return Err(invalid_request("invalid wizard.start params: goal is required"));
        },
    };
    let steps = owned(
        &["collect-requirements", "validate-plan", "apply-changes", "verify-results"],
    );
    assert(texts(steps@) =~= wizard_steps());
    Ok(
        WizardSession {
            id,
            status: "active".to_owned(),
            goal,
            step_index: 0,
            steps,
            created_at_ms: now,
            updated_at_ms: now,
            last_input: None,
            cancel_reason: None,
        },
    )
}

/// Begins a session; one without an id has a fresh one.
pub fn handle_start(params: WizardStartParams, now: u64) -> (r: Result<WizardSession, ErrorShape>)
    ensures
        match r {
            Ok(session) => exists|id: Seq<char>| #[trigger]
                is_uuid_text(id) && is_started(session, params, id, now),
            Err(error) => wizard_goal(params) is None && error@ == invalid(
                "invalid wizard.start params: goal is required"@,
            ),
        },
{
    let id = new_id();
    assert(is_uuid_text(id@));
    handle_start_with(params, id.as_str(), now)
}

/// The session, from what was read of the store.
pub fn load_wizard(id: &str, stored: Option<Result<WizardSession, String>>) -> (r: Result<
    WizardSession,
    ErrorShape,
>)
    ensures
        match stored {
            None => r is Err && r->Err_0@ == invalid("wizard session not found: "@ + id@),
            Some(Ok(session)) => r == Ok::<WizardSession, ErrorShape>(session),
            Some(Err(error)) => r is Err && r->Err_0@ == unavailable(
                "failed to decode wizard session: "@ + error@,
            ),
        },
{
    match stored {
        None => Err(invalid_request(cat("wizard session not found: ", id).as_str())),
        Some(Ok(session)) => Ok(session),
        Some(Err(error)) => Err(
            ErrorShape::new(
                ERROR_UNAVAILABLE,
                cat("failed to decode wizard session: ", error.as_str()).as_str(),
            ),
        ),
    }
}

/// The session is at its last step.
pub open spec fn at_last_step(session: WizardSession) -> bool {
    session.step_index + 1 >= session.steps@.len()
}

/// A session one step on; behind the last step it is completed.
pub open spec fn is_advanced(
    new: WizardSession,
    old: WizardSession,
    input: Option<Seq<char>>,
    now: u64,
) -> bool {
    &&& new == (WizardSession {
        status: new.status,
        step_index: new.step_index,
        last_input: new.last_input,
        updated_at_ms: now,
        ..old
    })
    &&& new.status@ == (if at_last_step(old) {
        "completed"@
    } else {
        old.status@
    })
    &&& new.step_index == (if at_last_step(old) {
        old.step_index as int
    } else {
        old.step_index + 1
    })
    &&& opt_text(new.last_input) == kept_opt(input)
}

/// A session one step on; one that is not active stays as it is.
pub fn handle_next(session: WizardSession, input: &Option<String>, now: u64) -> (r: Result<
    WizardSession,
    ErrorShape,
>)
    ensures
        if session.status@ != "active"@ {
            r is Err && r->Err_0@ == invalid("wizard session is not active: "@ + session.status@)
        } else {
            r is Ok && is_advanced(r->Ok_0, session, opt_text(*input), now)
        },
{
    if !same(session.status.as_str(), "active") {
        return Err(
            invalid_request(
                cat("wizard session is not active: ", session.status.as_str()).as_str(),
            ),
        );
    }
    let last_input = trim_non_empty_opt(input);
    let n: usize = session.steps.len();
    if session.step_index >= n || session.step_index + 1 >= n {
        return Ok(
            WizardSession {
                status: "completed".to_owned(),
                last_input,
                updated_at_ms: now,
                ..session
            },
        );
    }
    let next: usize = session.step_index + 1;
    Ok(WizardSession { step_index: next, last_input, updated_at_ms: now, ..session })
}

/// A session that was given up.
pub fn handle_cancel(session: WizardSession, reason: &Option<String>, now: u64) -> (r: WizardSession)
    ensures
        r == (WizardSession {
            status: r.status,
            cancel_reason: r.cancel_reason,
            updated_at_ms: now,
            ..session
        }),
        r.status@ == "cancelled"@,
        opt_text(r.cancel_reason) == kept_opt(opt_text(*reason)),
{
    WizardSession {
        status: "cancelled".to_owned(),
        cancel_reason: trim_non_empty_opt(reason),
        updated_at_ms: now,
        ..session
    }
}

/// The step that a session is at.
pub open spec fn current_step(session: WizardSession) -> Seq<char> {
    if session.step_index < session.steps@.len() {
        session.steps@[session.step_index as int]@
    } else {
        "done"@
    }
}

/// What is answered of a session.
pub open spec fn wizard_view(s: WizardSession) -> JsonModel {
    JsonModel::Object(
        no_fields()
            .insert("id"@, JsonModel::Text(s.id@))
            .insert("status"@, JsonModel::Text(s.status@))
            .insert("goal"@, JsonModel::Text(s.goal@))
            .insert("stepIndex"@, JsonModel::Unsigned(s.step_index as u64))
            .insert("currentStep"@, JsonModel::Text(current_step(s)))
            .insert("steps"@, text_array(texts(s.steps@)))
            .insert("updatedAtMs"@, JsonModel::Unsigned(s.updated_at_ms))
            .insert("cancelReason"@, text_or_null(opt_text(s.cancel_reason))),
    )
}

/// What is answered of a session.
pub fn wizard_response(session: &WizardSession) -> (r: Json)
    ensures
        r@ == wizard_view(*session),
{
    let step = if session.step_index < session.steps.len() {
        session.steps[session.step_index].clone()
    } else {
        "done".to_owned()
    };
    let mut o = object();
    set_field(&mut o, "id", text(session.id.as_str()));
    set_field(&mut o, "status", text(session.status.as_str()));
    set_field(&mut o, "goal", text(session.goal.as_str()));
    set_field(&mut o, "stepIndex", Json::Unsigned(session.step_index as u64));
    set_field(&mut o, "currentStep", text(step.as_str()));
    set_field(&mut o, "steps", texts_json(&session.steps));
    set_field(&mut o, "updatedAtMs", Json::Unsigned(session.updated_at_ms));
    set_field(&mut o, "cancelReason", opt_text_json(&session.cancel_reason));
    Json::Object(o)
}

// ---------------------------------------------------------------------------------------------
// Laws
// ---------------------------------------------------------------------------------------------
/// A session never goes back, and while it is active it has a step to be at.
pub proof fn law_wizards_go_forward(
    new: WizardSession,
    old: WizardSession,
    input: Option<Seq<char>>,
    now: u64,
)
    requires
        old.step_index < old.steps@.len(),
        is_advanced(new, old, input, now),
    ensures
        old.step_index <= new.step_index < new.steps@.len(),
        new.steps == old.steps,
        new.step_index > old.step_index <==> !at_last_step(old),
{
}

/// After as many steps as there are, and no fewer, a session that was begun is completed: each
/// step that is not the last leads to the next, and the last one completes.
pub proof fn law_wizards_complete(
    new: WizardSession,
    old: WizardSession,
    input: Option<Seq<char>>,
    now: u64,
)
    requires
        old.status@ == "active"@,
        is_advanced(new, old, input, now),
    ensures
        new.status@ == "completed"@ <==> old.step_index + 1 >= old.steps@.len(),
        new.status@ != "completed"@ ==> new.status@ == "active"@ && new.step_index
            == old.step_index + 1,
{
    reveal_strlit("active");
    reveal_strlit("completed");
    assert("active"@.len() == 6 && "completed"@.len() == 9);
}

/// Each member of the JSON of a wizard is what the record holds under that name.
pub proof fn law_json_of_wizards(record: &WizardSession, r: Json)
    requires
        call_ensures(WizardSession::to_json, (record,), r),
    ensures
        crate::json::member(r@, "id"@) == Some(JsonModel::Text(record.id@)),
        crate::json::member(r@, "status"@) == Some(JsonModel::Text(record.status@)),
        crate::json::member(r@, "goal"@) == Some(JsonModel::Text(record.goal@)),
        crate::json::member(r@, "stepIndex"@) == Some(JsonModel::Unsigned(record.step_index as u64)),
        crate::json::member(r@, "steps"@) == Some(text_array(texts(record.steps@))),
        crate::json::member(r@, "createdAtMs"@) == Some(JsonModel::Unsigned(record.created_at_ms)),
        crate::json::member(r@, "updatedAtMs"@) == Some(JsonModel::Unsigned(record.updated_at_ms)),
        crate::json::member(r@, "lastInput"@) == Some(
            if record.last_input is Some {
                JsonModel::Text(record.last_input->0@)
            } else {
                JsonModel::Null
            },
        ),
        crate::json::member(r@, "cancelReason"@) == Some(
            if record.cancel_reason is Some {
                JsonModel::Text(record.cancel_reason->0@)
            } else {
                JsonModel::Null
            },
        ),
{
    reveal_strlit("id");
    reveal_strlit("status");
    reveal_strlit("goal");
    reveal_strlit("stepIndex");
    reveal_strlit("steps");
    reveal_strlit("createdAtMs");
    reveal_strlit("updatedAtMs");
    reveal_strlit("lastInput");
    reveal_strlit("cancelReason");
    assert("id"@.len() != "status"@.len());
    assert("id"@.len() != "goal"@.len());
    assert("id"@.len() != "stepIndex"@.len());
    assert("id"@.len() != "steps"@.len());
    assert("id"@.len() != "createdAtMs"@.len());
    assert("id"@.len() != "updatedAtMs"@.len());
    assert("id"@.len() != "lastInput"@.len());
    assert("id"@.len() != "cancelReason"@.len());
    assert("status"@.len() != "goal"@.len());
    assert("status"@.len() != "stepIndex"@.len());
    assert("status"@.len() != "steps"@.len());
    assert("status"@.len() != "createdAtMs"@.len());
    assert("status"@.len() != "updatedAtMs"@.len());
    assert("status"@.len() != "lastInput"@.len());
    assert("status"@.len() != "cancelReason"@.len());
    assert("goal"@.len() != "stepIndex"@.len());
    assert("goal"@.len() != "steps"@.len());
    assert("goal"@.len() != "createdAtMs"@.len());
    assert("goal"@.len() != "updatedAtMs"@.len());
    assert("goal"@.len() != "lastInput"@.len());
    assert("goal"@.len() != "cancelReason"@.len());
    assert("stepIndex"@.len() != "steps"@.len());
    assert("stepIndex"@.len() != "createdAtMs"@.len());
    assert("stepIndex"@.len() != "updatedAtMs"@.len());
    assert("stepIndex"@[0] != "lastInput"@[0]);
    assert("stepIndex"@.len() != "cancelReason"@.len());
    assert("steps"@.len() != "createdAtMs"@.len());
    assert("steps"@.len() != "updatedAtMs"@.len());
    assert("steps"@.len() != "lastInput"@.len());
    assert("steps"@.len() != "cancelReason"@.len());
    assert("createdAtMs"@[0] != "updatedAtMs"@[0]);
    assert("createdAtMs"@.len() != "lastInput"@.len());
    assert("createdAtMs"@.len() != "cancelReason"@.len());
    assert("updatedAtMs"@.len() != "lastInput"@.len());
    assert("updatedAtMs"@.len() != "cancelReason"@.len());
    assert("lastInput"@.len() != "cancelReason"@.len());
}

/// A wizard begins at the first of four steps, active, with the goal that it is given.
pub proof fn law_wizards_begin(params: WizardStartParams, id: &str, now: u64, r: Result<WizardSession, ErrorShape>)
    requires
        call_ensures(handle_start_with, (params, id, now), r),
    ensures
        ({
            let goal = if params.goal is Some {
                params.goal
            } else {
                params.prompt
            };
            &&& r is Ok <==> crate::rpc::methods::agent::is_given(goal)
            &&& r is Ok ==> {
                &&& r->Ok_0.goal@ == crate::text::trimmed(goal->0@)
                &&& r->Ok_0.id@ == (if crate::rpc::methods::agent::is_given(params.id) {
                    crate::text::trimmed(params.id->0@)
                } else {
                    "wizard-"@ + id@
                })
                &&& r->Ok_0.status@ == "active"@
                &&& r->Ok_0.step_index == 0
                &&& r->Ok_0.steps@.len() == 4
                &&& r->Ok_0.steps@[0]@ == "collect-requirements"@ && r->Ok_0.steps@[1]@
                    == "validate-plan"@ && r->Ok_0.steps@[2]@ == "apply-changes"@
                    && r->Ok_0.steps@[3]@ == "verify-results"@
                &&& r->Ok_0.created_at_ms == now && r->Ok_0.updated_at_ms == now
            }
        }),
{
    crate::rpc::methods::agent::lemma_is_given(params.goal);
    crate::rpc::methods::agent::lemma_is_given(params.prompt);
    crate::rpc::methods::agent::lemma_is_given(params.id);
    if r is Ok {
        let steps = texts(r->Ok_0.steps@);
        assert(steps.len() == r->Ok_0.steps@.len());
        assert(steps[0] == r->Ok_0.steps@[0]@ && steps[1] == r->Ok_0.steps@[1]@ && steps[2]
            == r->Ok_0.steps@[2]@ && steps[3] == r->Ok_0.steps@[3]@);
    }
}

/// An active wizard goes one step on, or is completed where it stands at the last one. One that is
/// not active does not go on.
pub proof fn law_wizards_go_on(session: WizardSession, input: &Option<String>, now: u64, r: Result<WizardSession, ErrorShape>)
    requires
        call_ensures(handle_next, (session, input, now), r),
    ensures
        r is Ok <==> session.status@ == "active"@,
        r is Ok ==> {
            let last = session.step_index + 1 >= session.steps@.len();
            &&& r->Ok_0.id == session.id && r->Ok_0.goal == session.goal && r->Ok_0.steps
                == session.steps && r->Ok_0.created_at_ms == session.created_at_ms
            &&& !last ==> r->Ok_0.step_index == session.step_index + 1 && r->Ok_0.status@ == "active"@
            &&& last ==> r->Ok_0.step_index == session.step_index && r->Ok_0.status@ == "completed"@
            &&& r->Ok_0.last_input is Some <==> crate::rpc::methods::agent::is_given(*input)
            &&& crate::rpc::methods::agent::is_given(*input) ==> r->Ok_0.last_input->0@ == crate::text::trimmed(input->0@)
            &&& r->Ok_0.updated_at_ms == now
        },
{
    crate::rpc::methods::agent::lemma_is_given(*input);
}

/// A wizard that is cancelled says so and why, and is else as it was.
pub proof fn law_wizards_are_cancelled(session: WizardSession, reason: &Option<String>, now: u64, r: WizardSession)
    requires
        call_ensures(handle_cancel, (session, reason, now), r),
    ensures
        r.status@ == "cancelled"@,
        r.cancel_reason is Some <==> crate::rpc::methods::agent::is_given(*reason),
        crate::rpc::methods::agent::is_given(*reason) ==> r.cancel_reason->0@ == crate::text::trimmed(reason->0@),
        r.id == session.id && r.goal == session.goal && r.step_index == session.step_index && r.steps
            == session.steps,
        r.updated_at_ms == now,
{
    crate::rpc::methods::agent::lemma_is_given(*reason);
}

/// A wizard is shown with the step at which it stands.
pub proof fn law_wizards_are_shown(session: &WizardSession, r: Json)
    requires
        call_ensures(wizard_response, (session,), r),
    ensures
        crate::json::member(r@, "id"@) == Some(JsonModel::Text(session.id@)),
        crate::json::member(r@, "status"@) == Some(JsonModel::Text(session.status@)),
        crate::json::member(r@, "goal"@) == Some(JsonModel::Text(session.goal@)),
        crate::json::member(r@, "stepIndex"@) == Some(JsonModel::Unsigned(session.step_index as u64)),
        crate::json::member(r@, "currentStep"@) == Some(
            JsonModel::Text(
                if session.step_index < session.steps@.len() {
                    session.steps@[session.step_index as int]@
                } else {
                    "done"@
                },
            ),
        ),
{
    reveal_strlit("id");
    reveal_strlit("status");
    reveal_strlit("goal");
    reveal_strlit("stepIndex");
    reveal_strlit("currentStep");
    reveal_strlit("steps");
    reveal_strlit("updatedAtMs");
    reveal_strlit("cancelReason");
    assert("id"@.len() != "status"@.len());
    assert("id"@.len() != "goal"@.len());
    assert("id"@.len() != "stepIndex"@.len());
    assert("id"@.len() != "currentStep"@.len());
    assert("id"@.len() != "steps"@.len());
    assert("id"@.len() != "updatedAtMs"@.len());
    assert("id"@.len() != "cancelReason"@.len());
    assert("status"@.len() != "goal"@.len());
    assert("status"@.len() != "stepIndex"@.len());
    assert("status"@.len() != "currentStep"@.len());
    assert("status"@.len() != "steps"@.len());
    assert("status"@.len() != "updatedAtMs"@.len());
    assert("status"@.len() != "cancelReason"@.len());
    assert("goal"@.len() != "stepIndex"@.len());
    assert("goal"@.len() != "currentStep"@.len());
    assert("goal"@.len() != "steps"@.len());
    assert("goal"@.len() != "updatedAtMs"@.len());
    assert("goal"@.len() != "cancelReason"@.len());
    assert("stepIndex"@.len() != "currentStep"@.len());
    assert("stepIndex"@.len() != "steps"@.len());
    assert("stepIndex"@.len() != "updatedAtMs"@.len());
    assert("stepIndex"@.len() != "cancelReason"@.len());
    assert("currentStep"@.len() != "steps"@.len());
    assert("currentStep"@[0] != "updatedAtMs"@[0]);
    assert("currentStep"@.len() != "cancelReason"@.len());
    assert("steps"@.len() != "updatedAtMs"@.len());
    assert("steps"@.len() != "cancelReason"@.len());
    assert("updatedAtMs"@.len() != "cancelReason"@.len());
}

/// A wizard is kept under its id.
pub proof fn law_places_of_wizards(id: &str, r: String)
    requires
        call_ensures(wizard_key, (id,), r),
    ensures
        r@ == "wizard/session/"@ + id@,
{
}

/// A wizard that is stored is found, and one that is not or cannot be read is an error.
pub proof fn law_wizards_are_found(id: &str, stored: Option<Result<WizardSession, String>>, r: Result<WizardSession, ErrorShape>)
    requires
        call_ensures(load_wizard, (id, stored), r),
    ensures
        r is Ok <==> stored is Some && stored->0 is Ok,
        r is Ok ==> r->Ok_0 == stored->0->Ok_0,
        stored is None ==> r->Err_0.code@ == "INVALID_REQUEST"@,
        stored is Some && stored->0 is Err ==> r->Err_0.code@ == "UNAVAILABLE"@,
{
}

/// A wizard that gets its own id begins as any other.
pub proof fn law_wizards_get_an_id(params: WizardStartParams, now: u64, r: Result<WizardSession, ErrorShape>)
    requires
        call_ensures(handle_start, (params, now), r),
    ensures
        ({
            let goal = if params.goal is Some {
                params.goal
            } else {
                params.prompt
            };
            &&& r is Ok <==> crate::rpc::methods::agent::is_given(goal)
            &&& r is Ok ==> r->Ok_0.goal@ == crate::text::trimmed(goal->0@) && r->Ok_0.status@ == "active"@
                && r->Ok_0.step_index == 0 && r->Ok_0.created_at_ms == now
            &&& r is Ok && crate::rpc::methods::agent::is_given(params.id) ==> r->Ok_0.id@ == crate::text::trimmed(params.id->0@)
        }),
{
    crate::rpc::methods::agent::lemma_is_given(params.goal);
    crate::rpc::methods::agent::lemma_is_given(params.prompt);
    crate::rpc::methods::agent::lemma_is_given(params.id);
}

} // verus!
