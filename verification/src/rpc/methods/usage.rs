//! How much the gateway is used.
use crate::json::{no_fields, object, set_field, text, Json, JsonModel};
use vstd::prelude::*;

verus! {

/// How many of each there are.
pub struct UsageCounts {
    pub sessions: u64,
    pub nodes: u64,
    pub cron_jobs: u64,
    pub chat_messages: u64,
    pub agent_runs: u64,
    pub log_entries: u64,
}

/// How many of each there are, in words.
pub fn handle_status(counts: &UsageCounts, now: u64) -> (r: Json)
    ensures
        r@ == JsonModel::Object(
            no_fields()
                .insert("ts"@, JsonModel::Unsigned(now))
                .insert("runtime"@, JsonModel::Text("reclaw-core"@))
                .insert("counts"@, JsonModel::Object(
                no_fields()
                    .insert("sessions"@, JsonModel::Unsigned(counts.sessions))
                    .insert("nodes"@, JsonModel::Unsigned(counts.nodes))
                    .insert("cronJobs"@, JsonModel::Unsigned(counts.cron_jobs))
                    .insert("chatMessages"@, JsonModel::Unsigned(counts.chat_messages))
                    .insert("agentRuns"@, JsonModel::Unsigned(counts.agent_runs))
                    .insert("logEntries"@, JsonModel::Unsigned(counts.log_entries)),
            )),
        ),
{
    let mut inner = object();
    set_field(&mut inner, "sessions", Json::Unsigned(counts.sessions));
    set_field(&mut inner, "nodes", Json::Unsigned(counts.nodes));
    set_field(&mut inner, "cronJobs", Json::Unsigned(counts.cron_jobs));
    set_field(&mut inner, "chatMessages", Json::Unsigned(counts.chat_messages));
    set_field(&mut inner, "agentRuns", Json::Unsigned(counts.agent_runs));
    set_field(&mut inner, "logEntries", Json::Unsigned(counts.log_entries));
    let mut o = object();
    set_field(&mut o, "ts", Json::Unsigned(now));
    set_field(&mut o, "runtime", text("reclaw-core"));
    set_field(&mut o, "counts", Json::Object(inner));
    Json::Object(o)
}

/// The days that a cost is told for: from one to a year, and a month where nothing is asked for.
pub fn cost_period(period_days: Option<u32>) -> (r: u32)
    ensures
        r == (match period_days {
            None => 30,
            Some(days) => if days < 1 {
                1
            } else if days > 365 {
                365
            } else {
                days
            },
        }),
{
    match period_days {
        None => 30,
        Some(days) => if days < 1 {
            1
        } else if days > 365 {
            365
        } else {
            days
        },
    }
}

/// What is counted is told under its name.
pub proof fn law_counts_are_told(counts: &UsageCounts, now: u64, r: Json)
    requires
        call_ensures(handle_status, (counts, now), r),
    ensures
        ({
            let told = crate::json::member(r@, "counts"@)->0;
            &&& crate::json::member(r@, "counts"@) is Some
            &&& crate::json::member(told, "sessions"@) == Some(JsonModel::Unsigned(counts.sessions))
            &&& crate::json::member(told, "nodes"@) == Some(JsonModel::Unsigned(counts.nodes))
            &&& crate::json::member(told, "cronJobs"@) == Some(JsonModel::Unsigned(counts.cron_jobs))
            &&& crate::json::member(told, "chatMessages"@) == Some(JsonModel::Unsigned(counts.chat_messages))
            &&& crate::json::member(told, "agentRuns"@) == Some(JsonModel::Unsigned(counts.agent_runs))
            &&& crate::json::member(told, "logEntries"@) == Some(JsonModel::Unsigned(counts.log_entries))
        }),
        crate::json::member(r@, "ts"@) == Some(JsonModel::Unsigned(now)),
{
    reveal_strlit("ts");
    reveal_strlit("runtime");
    reveal_strlit("counts");
    reveal_strlit("sessions");
    reveal_strlit("nodes");
    reveal_strlit("cronJobs");
    reveal_strlit("chatMessages");
    reveal_strlit("agentRuns");
    reveal_strlit("logEntries");
    assert("ts"@.len() != "runtime"@.len());
    assert("ts"@.len() != "counts"@.len());
    assert("ts"@.len() != "sessions"@.len());
    assert("ts"@.len() != "nodes"@.len());
    assert("ts"@.len() != "cronJobs"@.len());
    assert("ts"@.len() != "chatMessages"@.len());
    assert("ts"@.len() != "agentRuns"@.len());
    assert("ts"@.len() != "logEntries"@.len());
    assert("runtime"@.len() != "counts"@.len());
    assert("runtime"@.len() != "sessions"@.len());
    assert("runtime"@.len() != "nodes"@.len());
    assert("runtime"@.len() != "cronJobs"@.len());
    assert("runtime"@.len() != "chatMessages"@.len());
    assert("runtime"@.len() != "agentRuns"@.len());
    assert("runtime"@.len() != "logEntries"@.len());
    assert("counts"@.len() != "sessions"@.len());
    assert("counts"@.len() != "nodes"@.len());
    assert("counts"@.len() != "cronJobs"@.len());
    assert("counts"@.len() != "chatMessages"@.len());
    assert("counts"@.len() != "agentRuns"@.len());
    assert("counts"@.len() != "logEntries"@.len());
    assert("sessions"@.len() != "nodes"@.len());
    assert("sessions"@[0] != "cronJobs"@[0]);
    assert("sessions"@.len() != "chatMessages"@.len());
    assert("sessions"@.len() != "agentRuns"@.len());
    assert("sessions"@.len() != "logEntries"@.len());
    assert("nodes"@.len() != "cronJobs"@.len());
    assert("nodes"@.len() != "chatMessages"@.len());
    assert("nodes"@.len() != "agentRuns"@.len());
    assert("nodes"@.len() != "logEntries"@.len());
    assert("cronJobs"@.len() != "chatMessages"@.len());
    assert("cronJobs"@.len() != "agentRuns"@.len());
    assert("cronJobs"@.len() != "logEntries"@.len());
    assert("chatMessages"@.len() != "agentRuns"@.len());
    assert("chatMessages"@.len() != "logEntries"@.len());
    assert("agentRuns"@.len() != "logEntries"@.len());
}

/// Costs are told of thirty days where nothing is said, of at least one and at most a year.
pub proof fn law_periods(period_days: Option<u32>, r: u32)
    requires
        call_ensures(cost_period, (period_days,), r),
    ensures
        1 <= r <= 365,
        period_days is None ==> r == 30,
        period_days is Some && 1 <= period_days->0 <= 365 ==> r == period_days->0,
{
}

} // verus!
