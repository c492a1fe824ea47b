//! Scheduled jobs: listed, added, changed, removed and run.
use crate::application::cron_schedule::{compute_next_run_ms, in_calendar, next_run_is};
use crate::application::state::{jobs_json, jobs_to_json, runs_json, runs_to_json};
use crate::domain::models::{cron_job_record_json, CronJobPatch, CronJobRecord, CronPayload, CronRunRecord, CronSchedule};
use crate::ids::{is_uuid_text, new_id};
use crate::json::{member, no_fields, object, opt_text_json, set_field, text, text_or_null, Json, JsonModel};
use crate::protocol::errors::{invalid, invalid_request, ErrorShape};
use crate::rpc::methods::chat::history_limit;
use crate::rpc::methods::sessions::{limit_items, limited};
use crate::text::{
    cat, cat3, either, first_of, is_white_space, kept, kept_opt, lemma_kept, not_blank, opt_text,
    or_text, text_or, trim_non_empty, trim_non_empty_opt, trimmed,
};
use vstd::prelude::*;

verus! {

broadcast use vstd::seq::group_seq_axioms;

/// The jobs that are switched on.
pub open spec fn enabled_only(jobs: Seq<CronJobRecord>) -> Seq<CronJobRecord>
    decreases jobs.len(),
{
    if jobs.len() == 0 {
        jobs
    } else if jobs[0].enabled {
        seq![jobs[0]] + enabled_only(jobs.skip(1))
    } else {
        enabled_only(jobs.skip(1))
    }
}

fn retain_enabled(jobs: Vec<CronJobRecord>) -> (r: Vec<CronJobRecord>)
    ensures
        r@ == enabled_only(jobs@),
{
    let mut jobs = jobs;
    let ghost all = jobs@;
    let mut i: usize = 0;
    assert(all.skip(0) =~= all);
    assert(enabled_only(all) =~= all.take(0) + enabled_only(all));
    while i < jobs.len()
        invariant
            i <= jobs@.len(),
            enabled_only(all) == jobs@.take(i as int) + enabled_only(jobs@.skip(i as int)),
        decreases jobs@.len() - i,
    {
        let ghost before = jobs@;
        let ghost rest = before.skip(i as int);
        assert(rest[0] == before[i as int]);
        if jobs[i].enabled {
            assert(before.skip(i + 1) =~= rest.skip(1));
            assert(before.take(i + 1) =~= before.take(i as int) + seq![rest[0]]);
            i = i + 1;
        } else {
            let _ = jobs.remove(i);
            assert(jobs@.take(i as int) =~= before.take(i as int));
            assert(jobs@.skip(i as int) =~= rest.skip(1));
        }
    }
    assert(jobs@.skip(i as int) =~= Seq::<CronJobRecord>::empty());
    assert(jobs@.take(i as int) =~= jobs@);
    jobs
}

/// The jobs that are listed: without those that are switched off where that is asked for, and at
/// most as many as the limit says.
pub open spec fn listed_jobs(
    jobs: Seq<CronJobRecord>,
    include_disabled: Option<bool>,
    limit: Option<usize>,
) -> Seq<CronJobRecord> {
    limited(
        if include_disabled == Some(false) {
            enabled_only(jobs)
        } else {
            jobs
        },
        limit,
    )
}

/// The jobs.
pub fn handle_list(
    jobs: Vec<CronJobRecord>,
    include_disabled: Option<bool>,
    limit: Option<usize>,
) -> (r: Json)
    ensures
        r@ == ({
            let some = listed_jobs(jobs@, include_disabled, limit);
            JsonModel::Object(
                no_fields()
                    .insert("jobs"@, JsonModel::Array(jobs_json(some)))
                    .insert("count"@, JsonModel::Unsigned(some.len() as u64)),
            )
        }),
{
    let jobs = match include_disabled {
        Some(false) => retain_enabled(jobs),
        _ => jobs,
    };
    let some = limit_items(jobs, limit);
    let count: usize = some.len();
    let mut o = object();
    set_field(&mut o, "jobs", jobs_to_json(&some));
    set_field(&mut o, "count", Json::Unsigned(count as u64));
    Json::Object(o)
}

// ---------------------------------------------------------------------------------------------
// Adding and changing
// ---------------------------------------------------------------------------------------------
/// The refusal of a schedule.
pub fn invalid_cron_error(message: &str) -> (r: ErrorShape)
    ensures
        r@ == invalid("invalid cron schedule: "@ + message@),
{
    invalid_request(cat("invalid cron schedule: ", message).as_str())
}

/// A schedule is refused: it has no kind, or its next run cannot be told.
pub open spec fn schedule_refused(error: ErrorShape, schedule: CronSchedule, now: u64) -> bool {
    if kept(schedule.kind@) is None {
        error@ == invalid("invalid cron schedule: kind is required"@)
    } else {
        exists|message: Seq<char>|
            #[trigger] next_run_is(Err(message), schedule, now) && error@ == invalid(
                "invalid cron schedule: "@ + message,
            )
    }
}

/// The next run of a schedule, or a refusal.
pub fn validate_schedule(schedule: &CronSchedule, now: u64) -> (r: Result<Option<u64>, ErrorShape>)
    requires
        in_calendar(*schedule, now),
    ensures
        match r {
            Ok(next) => kept(schedule.kind@) is Some && next_run_is(Ok(next), *schedule, now),
            Err(error) => schedule_refused(error, *schedule, now),
        },
{
    if trim_non_empty(schedule.kind.as_str()).is_none() {
        return Err(invalid_request("invalid cron schedule: kind is required"));
    }
    match compute_next_run_ms(schedule, now) {
        Ok(next) => Ok(next),
        Err(message) => {
            assert(next_run_is(Err(message@), *schedule, now));
            Err(invalid_cron_error(message.as_str()))
        },
    }
}

/// A job that is added.
pub struct CronAddParams {
    pub id: Option<String>,
    pub name: Option<String>,
    pub enabled: bool,
    pub schedule: CronSchedule,
    pub payload: CronPayload,
    pub metadata: Option<Json>,
}

/// The job that is added.
pub open spec fn is_added(job: CronJobRecord, params: CronAddParams, id: Seq<char>, now: u64) -> bool {
    &&& job.id@ == text_or(kept_opt(opt_text(params.id)), "job-"@ + id)
    &&& job.name@ == text_or(kept_opt(opt_text(params.name)), "Cron "@ + job.id@)
    &&& job.enabled == params.enabled
    &&& job.schedule == params.schedule
    &&& job.payload == params.payload
    &&& job.metadata@ == (match params.metadata {
        Some(value) => value@,
        None => JsonModel::Object(no_fields()),
    })
    &&& job.created_at_ms == now
    &&& job.updated_at_ms == now
    &&& job.last_run_ms is None
    &&& if params.enabled {
        next_run_is(Ok(job.next_run_ms), params.schedule, now)
    } else {
        job.next_run_ms is None && exists|next: Option<u64>| #[trigger]
            next_run_is(Ok(next), params.schedule, now)
    }
}

/// The job that is added; one without an id has the given one.
pub fn handle_add_with(params: CronAddParams, id: &str, now: u64) -> (r: Result<
    CronJobRecord,
    ErrorShape,
>)
    requires
        in_calendar(params.schedule, now),
    ensures
        match r {
            Ok(job) => kept(params.schedule.kind@) is Some && is_added(job, params, id@, now),
            Err(error) => schedule_refused(error, params.schedule, now),
        },
{
    let next: Option<u64> = match validate_schedule(&params.schedule, now) {
        Ok(next) => next,
        Err(error) => {
            return Err(error);
        },
    };
    assert(next_run_is(Ok(next), params.schedule, now));
    let fallback = cat("job-", id);
    let id = or_text(trim_non_empty_opt(&params.id), fallback.as_str());
    let default_name = cat("Cron ", id.as_str());
    let name = or_text(trim_non_empty_opt(&params.name), default_name.as_str());
    let metadata = match params.metadata {
        Some(value) => value,
        None => Json::Object(object()),
    };
    let next_run_ms: Option<u64> = if params.enabled {
        next
    } else {
        None
    };
    Ok(
        CronJobRecord {
            id,
            name,
            enabled: params.enabled,
            schedule: params.schedule,
            payload: params.payload,
            metadata,
            created_at_ms: now,
            updated_at_ms: now,
            last_run_ms: None,
            next_run_ms,
        },
    )
}

/// The job that is added; one without an id has a fresh one.
pub fn handle_add(params: CronAddParams, now: u64) -> (r: Result<CronJobRecord, ErrorShape>)
    requires
        in_calendar(params.schedule, now),
    ensures
        match r {
            Ok(job) => exists|id: Seq<char>| #[trigger]
                is_uuid_text(id) && is_added(job, params, id, now),
            Err(error) => schedule_refused(error, params.schedule, now),
        },
{
    let id = new_id();
    assert(is_uuid_text(id@));
    handle_add_with(params, id.as_str(), now)
}

/// The job that is named, under either name.
pub fn resolve_cron_id(id: Option<String>, job_id: Option<String>, method: &str) -> (r: Result<
    String,
    ErrorShape,
>)
    ensures
        match kept_opt(first_of(opt_text(id), opt_text(job_id))) {
            Some(s) => r is Ok && r->Ok_0@ == s,
            None => r is Err && r->Err_0@ == invalid(
                "invalid "@ + method@ + " params: missing id"@,
            ),
        },
{
    match trim_non_empty_opt(&either(id, job_id)) {
        Some(s) => Ok(s),
        None => Err(invalid_request(cat3("invalid ", method, " params: missing id").as_str())),
    }
}

/// What is changed of a job.
pub struct CronPatchInput {
    pub name: Option<String>,
    pub enabled: Option<bool>,
    pub schedule: Option<CronSchedule>,
    pub payload: Option<CronPayload>,
    pub metadata: Option<Json>,
    pub next_run_ms: Option<Option<u64>>,
}

/// What is changed of a job, with its next run: the one that is given, or that of a new schedule.
pub fn handle_update(patch: CronPatchInput, now: u64) -> (r: Result<CronJobPatch, ErrorShape>)
    requires
        patch.schedule is Some ==> in_calendar(patch.schedule->0, now),
    ensures
        match r {
            Ok(change) => {
                &&& opt_text(change.name) == kept_opt(opt_text(patch.name))
                &&& change.enabled == patch.enabled
                &&& change.schedule == patch.schedule
                &&& change.payload == patch.payload
                &&& change.metadata == patch.metadata
                &&& match patch.schedule {
                    Some(schedule) => kept(schedule.kind@) is Some && exists|next: Option<u64>|
                        #[trigger] next_run_is(Ok(next), schedule, now) && (
                        patch.next_run_ms is None ==> change.next_run_ms == Some(next)),
                    None => patch.next_run_ms is None ==> change.next_run_ms is None,
                }
                &&& patch.next_run_ms is Some ==> change.next_run_ms == patch.next_run_ms
            },
            Err(error) => patch.schedule is Some && schedule_refused(
                error,
                patch.schedule->0,
                now,
            ),
        },
{
    let computed: Option<Option<u64>> = match &patch.schedule {
        Some(schedule) => match validate_schedule(schedule, now) {
            Ok(next) => Some(next),
            Err(error) => {
                return Err(error);
            },
        },
        None => None,
    };
    let next_run_ms: Option<Option<u64>> = if patch.next_run_ms.is_some() {
        patch.next_run_ms
    } else {
        computed
    };
    Ok(
        CronJobPatch {
            name: trim_non_empty_opt(&patch.name),
            enabled: patch.enabled,
            schedule: patch.schedule,
            payload: patch.payload,
            metadata: patch.metadata,
            next_run_ms,
        },
    )
}

/// A job after a change: what is not changed stays.
pub open spec fn is_patched(new: CronJobRecord, old: CronJobRecord, patch: CronJobPatch, now: u64) -> bool {
    &&& new.id == old.id
    &&& new.name == (match patch.name {
        Some(name) => name,
        None => old.name,
    })
    &&& new.enabled == (match patch.enabled {
        Some(enabled) => enabled,
        None => old.enabled,
    })
    &&& new.schedule == (match patch.schedule {
        Some(schedule) => schedule,
        None => old.schedule,
    })
    &&& new.payload == (match patch.payload {
        Some(payload) => payload,
        None => old.payload,
    })
    &&& new.metadata == (match patch.metadata {
        Some(metadata) => metadata,
        None => old.metadata,
    })
    &&& new.next_run_ms == (match patch.next_run_ms {
        Some(next) => next,
        None => old.next_run_ms,
    })
    &&& new.created_at_ms == old.created_at_ms
    &&& new.last_run_ms == old.last_run_ms
    &&& new.updated_at_ms == now
}

/// A job after a change.
pub fn patch_job(job: CronJobRecord, patch: CronJobPatch, now: u64) -> (r: CronJobRecord)
    ensures
        is_patched(r, job, patch, now),
{
    CronJobRecord {
        id: job.id,
        name: match patch.name {
            Some(name) => name,
            None => job.name,
        },
        enabled: match patch.enabled {
            Some(enabled) => enabled,
            None => job.enabled,
        },
        schedule: match patch.schedule {
            Some(schedule) => schedule,
            None => job.schedule,
        },
        payload: match patch.payload {
            Some(payload) => payload,
            None => job.payload,
        },
        metadata: match patch.metadata {
            Some(metadata) => metadata,
            None => job.metadata,
        },
        created_at_ms: job.created_at_ms,
        updated_at_ms: now,
        last_run_ms: job.last_run_ms,
        next_run_ms: match patch.next_run_ms {
            Some(next) => next,
            None => job.next_run_ms,
        },
    }
}

// ---------------------------------------------------------------------------------------------
// Removing and running
// ---------------------------------------------------------------------------------------------
/// What is answered when a job was to be removed.
pub fn handle_remove(id: &str, removed: bool) -> (r: Json)
    ensures
        r@ == JsonModel::Object(
            no_fields()
                .insert("ok"@, JsonModel::Bool(true))
                .insert("id"@, JsonModel::Text(id@))
                .insert("removed"@, JsonModel::Bool(removed)),
        ),
{
    let mut o = object();
    set_field(&mut o, "ok", Json::Bool(true));
    set_field(&mut o, "id", text(id));
    set_field(&mut o, "removed", Json::Bool(removed));
    Json::Object(o)
}

/// The job whose runs are listed, where one is named, and how many at most.
pub fn runs_request(id: Option<String>, job_id: Option<String>, limit: Option<usize>) -> (r: (
    Option<String>,
    Option<usize>,
))
    ensures
        opt_text(r.0) == kept_opt(first_of(opt_text(id), opt_text(job_id))),
        r.1 == history_limit(limit),
{
    let limit: Option<usize> = match limit {
        None => None,
        Some(n) => Some(
            if n < 1 {
                1
            } else if n > 1_000 {
                1_000
            } else {
                n
            },
        ),
    };
    (trim_non_empty_opt(&either(id, job_id)), limit)
}

/// The runs of a job, or of all jobs.
pub fn handle_runs(job_id: &Option<String>, runs: &Vec<CronRunRecord>) -> (r: Json)
    ensures
        r@ == JsonModel::Object(
            no_fields()
                .insert("scope"@, JsonModel::Text(if job_id is Some { "job"@ } else { "all"@ }))
                .insert("jobId"@, text_or_null(opt_text(*job_id)))
                .insert("runs"@, JsonModel::Array(runs_json(runs@)))
                .insert("count"@, JsonModel::Unsigned(runs@.len() as u64)),
        ),
{
    let scope = if job_id.is_some() {
        "job"
    } else {
        "all"
    };
    let count: usize = runs.len();
    let mut o = object();
    set_field(&mut o, "scope", text(scope));
    set_field(&mut o, "jobId", opt_text_json(job_id));
    set_field(&mut o, "runs", runs_to_json(runs));
    set_field(&mut o, "count", Json::Unsigned(count as u64));
    Json::Object(o)
}

// ---------------------------------------------------------------------------------------------
// Laws
// ---------------------------------------------------------------------------------------------
/// Every job that is listed without those that are switched off is switched on.
pub proof fn law_listed_jobs_are_enabled(jobs: Seq<CronJobRecord>, i: int)
    requires
        0 <= i < enabled_only(jobs).len(),
    ensures
        enabled_only(jobs)[i].enabled,
    decreases jobs.len(),
{
    if jobs.len() > 0 {
        let rest = enabled_only(jobs.skip(1));
        if jobs[0].enabled {
            let all = seq![jobs[0]] + rest;
            if i == 0 {
                assert(all[0] == jobs[0]);
            } else {
                assert(all[i] == rest[i - 1]);
                law_listed_jobs_are_enabled(jobs.skip(1), i - 1);
            }
        } else {
            law_listed_jobs_are_enabled(jobs.skip(1), i);
        }
    }
}

/// A job that is added switched off has no next run, and so is never due.
pub proof fn law_disabled_jobs_are_not_due(
    job: CronJobRecord,
    params: CronAddParams,
    id: Seq<char>,
    now: u64,
    later: u64,
)
    requires
        is_added(job, params, id, now),
        !params.enabled,
    ensures
        !crate::application::state::is_due(job, later),
{
}

/// The jobs that are listed are the first of those that are asked for: all, or only those that are
/// switched on where the others are not wanted.
pub proof fn law_jobs_are_listed(
    jobs: Vec<CronJobRecord>,
    include_disabled: Option<bool>,
    limit: Option<usize>,
    i: int,
    one: Json,
    r: Json,
)
    requires
        call_ensures(handle_list, (jobs, include_disabled, limit), r),
        0 <= i < jobs@.len(),
        call_ensures(CronJobRecord::to_json, (&jobs@[i],), one),
    ensures
        ({
            let listed = member(r@, "jobs"@)->0->Array_0;
            let all = include_disabled != Some(false);
            &&& member(r@, "jobs"@) is Some && member(r@, "jobs"@)->0 is Array
            &&& listed.len() <= jobs@.len()
            &&& member(r@, "count"@) == Some(JsonModel::Unsigned(listed.len() as u64))
            &&& limit is Some ==> listed.len() <= limit->0
            &&& all && limit is None ==> listed.len() == jobs@.len()
            &&& all && (limit is Some ==> i < limit->0) ==> listed[i] == one@
            &&& !all && limit is None && jobs@[i].enabled ==> listed.contains(one@)
            &&& !all && !jobs@[i].enabled && (forall|k: int|
                0 <= k < jobs@.len() && k != i ==> (#[trigger] jobs@[k]).id@ != jobs@[i].id@)
                ==> !listed.contains(one@)
        }),
{
    reveal_strlit("jobs");
    reveal_strlit("count");
    assert("jobs"@.len() != "count"@.len());
    let some = listed_jobs(jobs@, include_disabled, limit);
    let listed = jobs_json(some);
    lemma_enabled_only(jobs@, i);
    if include_disabled == Some(false) && limit is None && jobs@[i].enabled {
        let k = choose|k: int| 0 <= k < enabled_only(jobs@).len() && enabled_only(jobs@)[k] == jobs@[i];
        assert(listed[k] == one@);
    }
    if include_disabled == Some(false) && !jobs@[i].enabled && (forall|k: int|
        0 <= k < jobs@.len() && k != i ==> (#[trigger] jobs@[k]).id@ != jobs@[i].id@) {
        if listed.contains(one@) {
            let k = choose|k: int| 0 <= k < listed.len() && listed[k] == one@;
            assert(some[k] == enabled_only(jobs@)[k]);
            lemma_enabled_come_from(jobs@, k);
            let j = choose|j: int| 0 <= j < jobs@.len() && #[trigger] jobs@[j] == enabled_only(jobs@)[k];
            law_listed_jobs_are_enabled(jobs@, k);
            lemma_job_json_has_id(some[k]);
            lemma_job_json_has_id(jobs@[i]);
        }
    }
}

proof fn lemma_job_json_has_id(job: CronJobRecord)
    ensures
        member(cron_job_record_json(job), "id"@) == Some(JsonModel::Text(job.id@)),
{
    reveal_strlit("id");
    reveal_strlit("name");
    reveal_strlit("enabled");
    reveal_strlit("schedule");
    reveal_strlit("payload");
    reveal_strlit("metadata");
    reveal_strlit("createdAtMs");
    reveal_strlit("updatedAtMs");
    reveal_strlit("lastRunMs");
    reveal_strlit("nextRunMs");
    assert("id"@.len() != "name"@.len());
    assert("id"@.len() != "enabled"@.len());
    assert("id"@.len() != "schedule"@.len());
    assert("id"@.len() != "payload"@.len());
    assert("id"@.len() != "metadata"@.len());
    assert("id"@.len() != "createdAtMs"@.len());
    assert("id"@.len() != "updatedAtMs"@.len());
    assert("id"@.len() != "lastRunMs"@.len());
    assert("id"@.len() != "nextRunMs"@.len());
    assert("name"@.len() != "enabled"@.len());
    assert("name"@.len() != "schedule"@.len());
    assert("name"@.len() != "payload"@.len());
    assert("name"@.len() != "metadata"@.len());
    assert("name"@.len() != "createdAtMs"@.len());
    assert("name"@.len() != "updatedAtMs"@.len());
    assert("name"@.len() != "lastRunMs"@.len());
    assert("name"@.len() != "nextRunMs"@.len());
    assert("enabled"@.len() != "schedule"@.len());
    assert("enabled"@[0] != "payload"@[0]);
    assert("enabled"@.len() != "metadata"@.len());
    assert("enabled"@.len() != "createdAtMs"@.len());
    assert("enabled"@.len() != "updatedAtMs"@.len());
    assert("enabled"@.len() != "lastRunMs"@.len());
    assert("enabled"@.len() != "nextRunMs"@.len());
    assert("schedule"@.len() != "payload"@.len());
    assert("schedule"@[0] != "metadata"@[0]);
    assert("schedule"@.len() != "createdAtMs"@.len());
    assert("schedule"@.len() != "updatedAtMs"@.len());
    assert("schedule"@.len() != "lastRunMs"@.len());
    assert("schedule"@.len() != "nextRunMs"@.len());
    assert("payload"@.len() != "metadata"@.len());
    assert("payload"@.len() != "createdAtMs"@.len());
    assert("payload"@.len() != "updatedAtMs"@.len());
    assert("payload"@.len() != "lastRunMs"@.len());
    assert("payload"@.len() != "nextRunMs"@.len());
    assert("metadata"@.len() != "createdAtMs"@.len());
    assert("metadata"@.len() != "updatedAtMs"@.len());
    assert("metadata"@.len() != "lastRunMs"@.len());
    assert("metadata"@.len() != "nextRunMs"@.len());
    assert("createdAtMs"@[0] != "updatedAtMs"@[0]);
    assert("createdAtMs"@.len() != "lastRunMs"@.len());
    assert("createdAtMs"@.len() != "nextRunMs"@.len());
    assert("updatedAtMs"@.len() != "lastRunMs"@.len());
    assert("updatedAtMs"@.len() != "nextRunMs"@.len());
    assert("lastRunMs"@[0] != "nextRunMs"@[0]);
}

proof fn lemma_enabled_come_from(jobs: Seq<CronJobRecord>, k: int)
    requires
        0 <= k < enabled_only(jobs).len(),
    ensures
        exists|j: int| 0 <= j < jobs.len() && #[trigger] jobs[j] == enabled_only(jobs)[k],
    decreases jobs.len(),
{
    let rest = jobs.skip(1);
    if jobs[0].enabled {
        if k == 0 {
            assert(jobs[0] == enabled_only(jobs)[k]);
        } else {
            lemma_enabled_come_from(rest, k - 1);
            let j = choose|j: int| 0 <= j < rest.len() && #[trigger] rest[j] == enabled_only(rest)[k - 1];
            assert(jobs[j + 1] == enabled_only(jobs)[k]);
        }
    } else {
        lemma_enabled_come_from(rest, k);
        let j = choose|j: int| 0 <= j < rest.len() && #[trigger] rest[j] == enabled_only(rest)[k];
        assert(jobs[j + 1] == enabled_only(jobs)[k]);
    }
}

proof fn lemma_enabled_only(jobs: Seq<CronJobRecord>, i: int)
    ensures
        enabled_only(jobs).len() <= jobs.len(),
        0 <= i < jobs.len() && jobs[i].enabled ==> enabled_only(jobs).contains(jobs[i]),
    decreases jobs.len(),
{
    if jobs.len() > 0 {
        let rest = jobs.skip(1);
        lemma_enabled_only(rest, i - 1);
        if 0 <= i < jobs.len() && jobs[i].enabled {
            if i == 0 {
                assert(enabled_only(jobs)[0] == jobs[i]);
            } else {
                assert(rest[i - 1] == jobs[i]);
                let k = choose|k: int| 0 <= k < enabled_only(rest).len() && enabled_only(rest)[k] == jobs[i];
                if jobs[0].enabled {
                    assert(enabled_only(jobs)[k + 1] == jobs[i]);
                } else {
                    assert(enabled_only(jobs)[k] == jobs[i]);
                }
            }
        }
    }
}

/// A new job is what was asked for. It runs next when its schedule says, and not at all while it is
/// switched off. A schedule of no kind or of which no time can be told is refused.
pub proof fn law_new_jobs(
    params: CronAddParams,
    id: &str,
    now: u64,
    next: Result<Option<u64>, String>,
    r: Result<CronJobRecord, ErrorShape>,
)
    requires
        in_calendar(params.schedule, now),
        params.schedule.kind@ == "every"@ || params.schedule.kind@ == "cron"@,
        call_ensures(compute_next_run_ms, (&params.schedule, now), next),
        call_ensures(handle_add_with, (params, id, now), r),
    ensures
        r is Ok <==> next is Ok,
        r is Err ==> r->Err_0.message@ == "invalid cron schedule: "@ + next->Err_0@,
        r is Ok ==> {
            let job = r->Ok_0;
            &&& job.id@ == (if params.id is Some && not_blank(params.id->0@) {
                trimmed(params.id->0@)
            } else {
                "job-"@ + id@
            })
            &&& job.name@ == (if params.name is Some && not_blank(params.name->0@) {
                trimmed(params.name->0@)
            } else {
                "Cron "@ + job.id@
            })
            &&& job.enabled == params.enabled
            &&& job.schedule == params.schedule && job.payload == params.payload
            &&& job.created_at_ms == now && job.updated_at_ms == now && job.last_run_ms is None
            &&& params.enabled ==> job.next_run_ms == next->Ok_0
            &&& !params.enabled ==> job.next_run_ms is None
        },
{
    if params.id is Some {
        lemma_kept(params.id->0@);
    }
    if params.name is Some {
        lemma_kept(params.name->0@);
    }
    lemma_kinds_are_said();
    lemma_one_next_run(params.schedule, now, next);
}

proof fn lemma_kinds_are_said()
    ensures
        kept("every"@) is Some,
        kept("cron"@) is Some,
        "every"@ != "at"@ && "cron"@ != "at"@ && "every"@ != "cron"@,
{
    reveal_strlit("every");
    reveal_strlit("cron");
    reveal_strlit("at");
    lemma_kept("every"@);
    lemma_kept("cron"@);
    assert(!is_white_space("every"@[0]) && !is_white_space("cron"@[0]));
    assert("every"@.len() != "at"@.len() && "cron"@.len() != "at"@.len() && "every"@.len() != "cron"@.len());
}

proof fn lemma_one_next_run(schedule: CronSchedule, now: u64, next: Result<Option<u64>, String>)
    requires
        schedule.kind@ == "every"@ || schedule.kind@ == "cron"@,
        call_ensures(compute_next_run_ms, (&schedule, now), next),
    ensures
        forall|other: Result<Option<u64>, Seq<char>>| #[trigger]
            next_run_is(other, schedule, now) ==> (other is Ok <==> next is Ok) && (other is Ok
                ==> other->Ok_0 == next->Ok_0) && (other is Err ==> other->Err_0 == next->Err_0@),
{
    lemma_kinds_are_said();
}

/// What a change says of a job takes the place of what was there, and what it does not say stays. A
/// new schedule gives the time of the next run, unless the change gives that itself.
pub proof fn law_changes_of_jobs(
    patch: CronPatchInput,
    now: u64,
    next: Result<Option<u64>, String>,
    r: Result<CronJobPatch, ErrorShape>,
)
    requires
        patch.schedule is Some ==> in_calendar(patch.schedule->0, now) && (patch.schedule->0.kind@
            == "every"@ || patch.schedule->0.kind@ == "cron"@) && call_ensures(
            compute_next_run_ms,
            (&patch.schedule->0, now),
            next,
        ),
        call_ensures(handle_update, (patch, now), r),
    ensures
        r is Ok <==> (patch.schedule is Some ==> next is Ok),
        r is Ok ==> {
            let change = r->Ok_0;
            &&& change.name is Some <==> patch.name is Some && not_blank(patch.name->0@)
            &&& change.name is Some ==> change.name->0@ == trimmed(patch.name->0@)
            &&& change.enabled == patch.enabled
            &&& change.schedule == patch.schedule
            &&& change.payload == patch.payload
            &&& change.metadata == patch.metadata
            &&& patch.next_run_ms is Some ==> change.next_run_ms == patch.next_run_ms
            &&& patch.next_run_ms is None && patch.schedule is Some ==> change.next_run_ms == Some(
                next->Ok_0,
            )
            &&& patch.next_run_ms is None && patch.schedule is None ==> change.next_run_ms is None
        },
{
    if patch.name is Some {
        lemma_kept(patch.name->0@);
    }
    lemma_kinds_are_said();
    if patch.schedule is Some {
        lemma_one_next_run(patch.schedule->0, now, next);
    }
}

/// A change that says something of a job changes that, and nothing else of it but the time of the
/// change.
pub proof fn law_changed_jobs(job: CronJobRecord, patch: CronJobPatch, now: u64, r: CronJobRecord)
    requires
        call_ensures(patch_job, (job, patch, now), r),
    ensures
        r.id == job.id && r.created_at_ms == job.created_at_ms && r.last_run_ms == job.last_run_ms,
        r.updated_at_ms == now,
        r.name == if patch.name is Some { patch.name->0 } else { job.name },
        r.enabled == if patch.enabled is Some { patch.enabled->0 } else { job.enabled },
        r.schedule == if patch.schedule is Some { patch.schedule->0 } else { job.schedule },
        r.payload == if patch.payload is Some { patch.payload->0 } else { job.payload },
        r.metadata == if patch.metadata is Some { patch.metadata->0 } else { job.metadata },
        r.next_run_ms == if patch.next_run_ms is Some { patch.next_run_ms->0 } else { job.next_run_ms },
{
}

/// A job is named by its id or else by its other id, and must be named.
pub proof fn law_names_of_jobs(
    id: Option<String>,
    job_id: Option<String>,
    method: &str,
    r: Result<String, ErrorShape>,
)
    requires
        call_ensures(resolve_cron_id, (id, job_id, method), r),
    ensures
        ({
            let name = if id is Some {
                id
            } else {
                job_id
            };
            &&& r is Ok <==> name is Some && not_blank(name->0@)
            &&& r is Ok ==> r->Ok_0@ == trimmed(name->0@)
        }),
{
    if id is Some {
        lemma_kept(id->0@);
    }
    if job_id is Some {
        lemma_kept(job_id->0@);
    }
}

} // verus!
