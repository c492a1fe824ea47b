//! The methods of the gateway and the parameters they take.
pub mod agent;
pub mod agents;
pub mod approvals;
pub mod browser;
pub mod channels;
pub mod chat;
pub mod config;
pub mod cron;
pub mod device;
pub mod doctor;
pub mod health;
pub mod logs;
pub mod models;
pub mod nodes;
pub mod send;
pub mod sessions;
pub mod skills;
pub mod status;
pub mod system;
pub mod talk;
pub mod tools;
pub mod tts;
pub mod update;
pub mod usage;
pub mod voicewake;
pub mod wizard;

use crate::json::{no_fields, object, opt_model, Json, JsonModel};
use crate::protocol::errors::{invalid, invalid_request, ErrorModel, ErrorShape};
use crate::text::{cat3, cat4, cat5, kept, same, texts, trim_non_empty};
use vstd::prelude::*;

verus! {

broadcast use vstd::seq::group_seq_axioms;

/// The names of the methods that the protocol knows.
pub open spec fn base_methods() -> Seq<Seq<char>> {
    seq![
        "health"@,
        "doctor.memory.status"@,
        "logs.tail"@,
        "channels.status"@,
        "channels.logout"@,
        "status"@,
        "usage.status"@,
        "usage.cost"@,
        "tts.status"@,
        "tts.providers"@,
        "tts.enable"@,
        "tts.disable"@,
        "tts.convert"@,
        "tts.setProvider"@,
        "config.get"@,
        "config.set"@,
        "config.apply"@,
        "config.patch"@,
        "config.schema"@,
        "exec.approvals.get"@,
        "exec.approvals.set"@,
        "exec.approvals.node.get"@,
        "exec.approvals.node.set"@,
        "exec.approval.request"@,
        "exec.approval.waitDecision"@,
        "exec.approval.resolve"@,
        "wizard.start"@,
        "wizard.next"@,
        "wizard.cancel"@,
        "wizard.status"@,
        "talk.config"@,
        "talk.mode"@,
        "models.list"@,
        "tools.catalog"@,
        "agents.list"@,
        "agents.create"@,
        "agents.update"@,
        "agents.delete"@,
        "agents.files.list"@,
        "agents.files.get"@,
        "agents.files.set"@,
        "skills.status"@,
        "skills.bins"@,
        "skills.install"@,
        "skills.update"@,
        "update.run"@,
        "voicewake.get"@,
        "voicewake.set"@,
        "sessions.list"@,
        "sessions.preview"@,
        "sessions.patch"@,
        "sessions.reset"@,
        "sessions.delete"@,
        "sessions.compact"@,
        "last-heartbeat"@,
        "set-heartbeats"@,
        "wake"@,
        "node.pair.request"@,
        "node.pair.list"@,
        "node.pair.approve"@,
        "node.pair.reject"@,
        "node.pair.verify"@,
        "device.pair.list"@,
        "device.pair.approve"@,
        "device.pair.reject"@,
        "device.pair.remove"@,
        "device.token.rotate"@,
        "device.token.revoke"@,
        "node.rename"@,
        "node.list"@,
        "node.describe"@,
        "node.invoke"@,
        "node.invoke.result"@,
        "node.event"@,
        "cron.list"@,
        "cron.status"@,
        "cron.add"@,
        "cron.update"@,
        "cron.remove"@,
        "cron.run"@,
        "cron.runs"@,
        "system-presence"@,
        "system-event"@,
        "send"@,
        "agent"@,
        "agent.identity.get"@,
        "agent.wait"@,
        "browser.request"@,
        "chat.history"@,
        "chat.abort"@,
        "chat.send"@,
    ]
}

/// The names of the events that the gateway sends.
pub open spec fn gateway_events() -> Seq<Seq<char>> {
    seq![
        "connect.challenge"@,
        "agent"@,
        "chat"@,
        "presence"@,
        "tick"@,
        "talk.mode"@,
        "shutdown"@,
        "health"@,
        "heartbeat"@,
        "cron"@,
        "node.pair.requested"@,
        "node.pair.resolved"@,
        "node.invoke.request"@,
        "device.pair.requested"@,
        "device.pair.resolved"@,
        "voicewake.changed"@,
        "exec.approval.requested"@,
        "exec.approval.resolved"@,
        "update.available"@,
    ]
}

/// The names of the methods that the gateway answers.
pub open spec fn answered_methods() -> Seq<Seq<char>> {
    seq![
        "health"@,
        "status"@,
        "config.get"@,
        "config.set"@,
        "config.apply"@,
        "config.patch"@,
        "config.schema"@,
        "sessions.list"@,
        "sessions.preview"@,
        "sessions.patch"@,
        "sessions.reset"@,
        "sessions.delete"@,
        "sessions.compact"@,
        "agent"@,
        "agent.identity.get"@,
        "agent.wait"@,
        "chat.history"@,
        "chat.abort"@,
        "chat.send"@,
        "cron.list"@,
        "cron.status"@,
        "cron.add"@,
        "cron.update"@,
        "cron.remove"@,
        "cron.run"@,
        "cron.runs"@,
        "node.pair.request"@,
        "node.pair.list"@,
        "node.pair.approve"@,
        "node.pair.reject"@,
        "node.pair.verify"@,
        "node.rename"@,
        "node.list"@,
        "node.describe"@,
        "node.invoke"@,
        "node.invoke.result"@,
        "node.event"@,
    ]
}

/// The texts of a run of string slices.
pub open spec fn slice_texts(names: Seq<&str>) -> Seq<Seq<char>> {
    Seq::new(names.len(), |i: int| names[i]@)
}

/// Whether a name is one of the list.
pub(crate) fn one_of(name: &str, names: &[&str]) -> (r: bool)
    ensures
        r == slice_texts(names@).contains(name@),
{
    let mut i: usize = 0;
    while i < names.len()
        invariant
            i <= names@.len(),
            forall|k: int| 0 <= k < i ==> #[trigger] names@[k]@ != name@,
        decreases names@.len() - i,
    {
        if same(names[i], name) {
            assert(slice_texts(names@)[i as int] == name@);
            return true;
        }
        i = i + 1;
    }
    assert forall|k: int| 0 <= k < names@.len() implies slice_texts(names@)[k] != name@ by {
        assert(names@[k]@ != name@);
    }
    false
}

/// Whether a name is one of the list.
pub(crate) fn listed(name: &str, names: &Vec<String>) -> (r: bool)
    ensures
        r == texts(names@).contains(name@),
{
    let mut i: usize = 0;
    while i < names.len()
        invariant
            i <= names@.len(),
            forall|k: int| 0 <= k < i ==> #[trigger] names@[k]@ != name@,
        decreases names@.len() - i,
    {
        if same(names[i].as_str(), name) {
            assert(texts(names@)[i as int] == name@);
            return true;
        }
        i = i + 1;
    }
    assert forall|k: int| 0 <= k < names@.len() implies texts(names@)[k] != name@ by {
        assert(names@[k]@ != name@);
    }
    false
}

/// The names as owned texts.
pub(crate) fn owned(names: &[&str]) -> (r: Vec<String>)
    ensures
        texts(r@) == slice_texts(names@),
{
    let mut out: Vec<String> = Vec::new();
    let mut i: usize = 0;
    while i < names.len()
        invariant
            i <= names@.len(),
            out@.len() == i,
            forall|k: int| 0 <= k < i ==> #[trigger] out@[k]@ == names@[k]@,
        decreases names@.len() - i,
    {
        out.push(names[i].to_owned());
        i = i + 1;
    }
    assert(texts(out@) =~= slice_texts(names@));
    out
}

/// The methods that the protocol knows.
pub fn known_methods() -> (r: Vec<String>)
    ensures
        texts(r@) == base_methods(),
        texts(r@).no_duplicates(),
{
    proof {
        law_known_methods_are_distinct();
    }
    let names: [&'static str; 91] = [
        "health",
        "doctor.memory.status",
        "logs.tail",
        "channels.status",
        "channels.logout",
        "status",
        "usage.status",
        "usage.cost",
        "tts.status",
        "tts.providers",
        "tts.enable",
        "tts.disable",
        "tts.convert",
        "tts.setProvider",
        "config.get",
        "config.set",
        "config.apply",
        "config.patch",
        "config.schema",
        "exec.approvals.get",
        "exec.approvals.set",
        "exec.approvals.node.get",
        "exec.approvals.node.set",
        "exec.approval.request",
        "exec.approval.waitDecision",
        "exec.approval.resolve",
        "wizard.start",
        "wizard.next",
        "wizard.cancel",
        "wizard.status",
        "talk.config",
        "talk.mode",
        "models.list",
        "tools.catalog",
        "agents.list",
        "agents.create",
        "agents.update",
        "agents.delete",
        "agents.files.list",
        "agents.files.get",
        "agents.files.set",
        "skills.status",
        "skills.bins",
        "skills.install",
        "skills.update",
        "update.run",
        "voicewake.get",
        "voicewake.set",
        "sessions.list",
        "sessions.preview",
        "sessions.patch",
        "sessions.reset",
        "sessions.delete",
        "sessions.compact",
        "last-heartbeat",
        "set-heartbeats",
        "wake",
        "node.pair.request",
        "node.pair.list",
        "node.pair.approve",
        "node.pair.reject",
        "node.pair.verify",
        "device.pair.list",
        "device.pair.approve",
        "device.pair.reject",
        "device.pair.remove",
        "device.token.rotate",
        "device.token.revoke",
        "node.rename",
        "node.list",
        "node.describe",
        "node.invoke",
        "node.invoke.result",
        "node.event",
        "cron.list",
        "cron.status",
        "cron.add",
        "cron.update",
        "cron.remove",
        "cron.run",
        "cron.runs",
        "system-presence",
        "system-event",
        "send",
        "agent",
        "agent.identity.get",
        "agent.wait",
        "browser.request",
        "chat.history",
        "chat.abort",
        "chat.send",
    ];
    assert(slice_texts(names@) =~= base_methods());
    owned(&names)
}

/// The events that the gateway sends.
pub fn known_events() -> (r: Vec<String>)
    ensures
        texts(r@) == gateway_events(),
        texts(r@).no_duplicates(),
{
    proof {
        law_known_events_are_distinct();
    }
    let names: [&'static str; 19] = [
        "connect.challenge",
        "agent",
        "chat",
        "presence",
        "tick",
        "talk.mode",
        "shutdown",
        "health",
        "heartbeat",
        "cron",
        "node.pair.requested",
        "node.pair.resolved",
        "node.invoke.request",
        "device.pair.requested",
        "device.pair.resolved",
        "voicewake.changed",
        "exec.approval.requested",
        "exec.approval.resolved",
        "update.available",
    ];
    assert(slice_texts(names@) =~= gateway_events());
    owned(&names)
}

/// The methods that the gateway answers.
pub fn implemented_methods() -> (r: Vec<String>)
    ensures
        texts(r@) == answered_methods(),
        texts(r@).no_duplicates(),
{
    proof {
        law_answered_methods_are_distinct();
    }
    let names: [&'static str; 37] = [
        "health",
        "status",
        "config.get",
        "config.set",
        "config.apply",
        "config.patch",
        "config.schema",
        "sessions.list",
        "sessions.preview",
        "sessions.patch",
        "sessions.reset",
        "sessions.delete",
        "sessions.compact",
        "agent",
        "agent.identity.get",
        "agent.wait",
        "chat.history",
        "chat.abort",
        "chat.send",
        "cron.list",
        "cron.status",
        "cron.add",
        "cron.update",
        "cron.remove",
        "cron.run",
        "cron.runs",
        "node.pair.request",
        "node.pair.list",
        "node.pair.approve",
        "node.pair.reject",
        "node.pair.verify",
        "node.rename",
        "node.list",
        "node.describe",
        "node.invoke",
        "node.invoke.result",
        "node.event",
    ];
    assert(slice_texts(names@) =~= answered_methods());
    owned(&names)
}

/// Whether the protocol knows the method.
pub fn is_known_method(method: &str) -> (r: bool)
    ensures
        r == base_methods().contains(method@),
{
    listed(method, &known_methods())
}

/// Whether the gateway answers the method.
pub fn is_implemented_method(method: &str) -> (r: bool)
    ensures
        r == answered_methods().contains(method@),
{
    listed(method, &implemented_methods())
}

/// Every method that the gateway answers is one that the protocol knows.
pub proof fn law_answered_methods_are_known(method: Seq<char>)
    requires
        answered_methods().contains(method),
    ensures
        base_methods().contains(method),
{
    assert(base_methods()[0] == "health"@);
    assert(base_methods()[5] == "status"@);
    assert(base_methods()[14] == "config.get"@);
    assert(base_methods()[15] == "config.set"@);
    assert(base_methods()[16] == "config.apply"@);
    assert(base_methods()[17] == "config.patch"@);
    assert(base_methods()[18] == "config.schema"@);
    assert(base_methods()[48] == "sessions.list"@);
    assert(base_methods()[49] == "sessions.preview"@);
    assert(base_methods()[50] == "sessions.patch"@);
    assert(base_methods()[51] == "sessions.reset"@);
    assert(base_methods()[52] == "sessions.delete"@);
    assert(base_methods()[53] == "sessions.compact"@);
    assert(base_methods()[84] == "agent"@);
    assert(base_methods()[85] == "agent.identity.get"@);
    assert(base_methods()[86] == "agent.wait"@);
    assert(base_methods()[88] == "chat.history"@);
    assert(base_methods()[89] == "chat.abort"@);
    assert(base_methods()[90] == "chat.send"@);
    assert(base_methods()[74] == "cron.list"@);
    assert(base_methods()[75] == "cron.status"@);
    assert(base_methods()[76] == "cron.add"@);
    assert(base_methods()[77] == "cron.update"@);
    assert(base_methods()[78] == "cron.remove"@);
    assert(base_methods()[79] == "cron.run"@);
    assert(base_methods()[80] == "cron.runs"@);
    assert(base_methods()[57] == "node.pair.request"@);
    assert(base_methods()[58] == "node.pair.list"@);
    assert(base_methods()[59] == "node.pair.approve"@);
    assert(base_methods()[60] == "node.pair.reject"@);
    assert(base_methods()[61] == "node.pair.verify"@);
    assert(base_methods()[68] == "node.rename"@);
    assert(base_methods()[69] == "node.list"@);
    assert(base_methods()[70] == "node.describe"@);
    assert(base_methods()[71] == "node.invoke"@);
    assert(base_methods()[72] == "node.invoke.result"@);
    assert(base_methods()[73] == "node.event"@);
    let i = choose|i: int| 0 <= i < answered_methods().len() && answered_methods()[i] == method;
    assert(answered_methods()[i] == method);
}

/// A number by which the names of methods and of events are told apart, from the length of a name and three of
/// its characters.
pub open spec fn name_mark(name: Seq<char>) -> int {
    name.len() + 8 * (name[0] as u32) + 6 * (name[name.len() - 3] as u32) + 17 * (name[name.len()
        - 4] as u32)
}

/// No method that the protocol knows is listed twice.
#[verifier::spinoff_prover]
#[verifier::rlimit(80)]
pub proof fn law_known_methods_are_distinct()
    ensures
        base_methods().no_duplicates(),
{
    reveal_strlit("health");
    assert(name_mark("health"@) == 3135);
    reveal_strlit("doctor.memory.status");
    assert(name_mark("doctor.memory.status"@) == 3165);
    reveal_strlit("logs.tail");
    assert(name_mark("logs.tail"@) == 3427);
    reveal_strlit("channels.status");
    assert(name_mark("channels.status"@) == 3152);
    reveal_strlit("channels.logout");
    assert(name_mark("channels.logout"@) == 3224);
    reveal_strlit("status");
    assert(name_mark("status"@) == 3271);
    reveal_strlit("usage.status");
    assert(name_mark("usage.status"@) == 3293);
    reveal_strlit("usage.cost");
    assert(name_mark("usage.cost"@) == 3295);
    reveal_strlit("tts.status");
    assert(name_mark("tts.status"@) == 3283);
    reveal_strlit("tts.providers");
    assert(name_mark("tts.providers"@) == 3247);
    reveal_strlit("tts.enable");
    assert(name_mark("tts.enable"@) == 3175);
    reveal_strlit("tts.disable");
    assert(name_mark("tts.disable"@) == 3176);
    reveal_strlit("tts.convert");
    assert(name_mark("tts.convert"@) == 3551);
    reveal_strlit("tts.setProvider");
    assert(name_mark("tts.setProvider"@) == 3328);
    reveal_strlit("config.get");
    assert(name_mark("config.get"@) == 2202);
    reveal_strlit("config.set");
    assert(name_mark("config.set"@) == 2274);
    reveal_strlit("config.apply");
    assert(name_mark("config.apply"@) == 3380);
    reveal_strlit("config.patch");
    assert(name_mark("config.patch"@) == 3149);
    reveal_strlit("config.schema");
    assert(name_mark("config.schema"@) == 3179);
    reveal_strlit("exec.approvals.get");
    assert(name_mark("exec.approvals.get"@) == 2226);
    reveal_strlit("exec.approvals.set");
    assert(name_mark("exec.approvals.set"@) == 2298);
    reveal_strlit("exec.approvals.node.get");
    assert(name_mark("exec.approvals.node.get"@) == 2231);
    reveal_strlit("exec.approvals.node.set");
    assert(name_mark("exec.approvals.node.set"@) == 2303);
    reveal_strlit("exec.approval.request");
    assert(name_mark("exec.approval.request"@) == 3424);
    reveal_strlit("exec.approval.waitDecision");
    assert(name_mark("exec.approval.waitDecision"@) == 3419);
    reveal_strlit("exec.approval.resolve");
    assert(name_mark("exec.approval.resolve"@) == 3364);
    reveal_strlit("wizard.start");
    assert(name_mark("wizard.start"@) == 3518);
    reveal_strlit("wizard.next");
    assert(name_mark("wizard.next"@) == 3439);
    reveal_strlit("wizard.cancel");
    assert(name_mark("wizard.cancel"@) == 3429);
    reveal_strlit("wizard.status");
    assert(name_mark("wizard.status"@) == 3310);
    reveal_strlit("talk.config");
    assert(name_mark("talk.config"@) == 3421);
    reveal_strlit("talk.mode");
    assert(name_mark("talk.mode"@) == 3456);
    reveal_strlit("models.list");
    assert(name_mark("models.list"@) == 3349);
    reveal_strlit("tools.catalog");
    assert(name_mark("tools.catalog"@) == 3238);
    reveal_strlit("agents.list");
    assert(name_mark("agents.list"@) == 3253);
    reveal_strlit("agents.create");
    assert(name_mark("agents.create"@) == 3088);
    reveal_strlit("agents.update");
    assert(name_mark("agents.update"@) == 3071);
    reveal_strlit("agents.delete");
    assert(name_mark("agents.delete"@) == 3231);
    reveal_strlit("agents.files.list");
    assert(name_mark("agents.files.list"@) == 3259);
    reveal_strlit("agents.files.get");
    assert(name_mark("agents.files.get"@) == 2192);
    reveal_strlit("agents.files.set");
    assert(name_mark("agents.files.set"@) == 2264);
    reveal_strlit("skills.status");
    assert(name_mark("skills.status"@) == 3278);
    reveal_strlit("skills.bins");
    assert(name_mark("skills.bins"@) == 3227);
    reveal_strlit("skills.install");
    assert(name_mark("skills.install"@) == 3488);
    reveal_strlit("skills.update");
    assert(name_mark("skills.update"@) == 3215);
    reveal_strlit("update.run");
    assert(name_mark("update.run"@) == 2412);
    reveal_strlit("voicewake.get");
    assert(name_mark("voicewake.get"@) == 2357);
    reveal_strlit("voicewake.set");
    assert(name_mark("voicewake.set"@) == 2429);
    reveal_strlit("sessions.list");
    assert(name_mark("sessions.list"@) == 3399);
    reveal_strlit("sessions.preview");
    assert(name_mark("sessions.preview"@) == 3572);
    reveal_strlit("sessions.patch");
    assert(name_mark("sessions.patch"@) == 3279);
    reveal_strlit("sessions.reset");
    assert(name_mark("sessions.reset"@) == 3341);
    reveal_strlit("sessions.delete");
    assert(name_mark("sessions.delete"@) == 3377);
    reveal_strlit("sessions.compact");
    assert(name_mark("sessions.compact"@) == 3422);
    reveal_strlit("last-heartbeat");
    assert(name_mark("last-heartbeat"@) == 3150);
    reveal_strlit("set-heartbeats");
    assert(name_mark("set-heartbeats"@) == 3233);
    reveal_strlit("wake");
    assert(name_mark("wake"@) == 3561);
    reveal_strlit("node.pair.request");
    assert(name_mark("node.pair.request"@) == 3492);
    reveal_strlit("node.pair.list");
    assert(name_mark("node.pair.list"@) == 3360);
    reveal_strlit("node.pair.approve");
    assert(name_mark("node.pair.approve"@) == 3501);
    reveal_strlit("node.pair.reject");
    assert(name_mark("node.pair.reject"@) == 3304);
    reveal_strlit("node.pair.verify");
    assert(name_mark("node.pair.verify"@) == 3464);
    reveal_strlit("device.pair.list");
    assert(name_mark("device.pair.list"@) == 3282);
    reveal_strlit("device.pair.approve");
    assert(name_mark("device.pair.approve"@) == 3423);
    reveal_strlit("device.pair.reject");
    assert(name_mark("device.pair.reject"@) == 3226);
    reveal_strlit("device.pair.remove");
    assert(name_mark("device.pair.remove"@) == 3337);
    reveal_strlit("device.token.rotate");
    assert(name_mark("device.token.rotate"@) == 3373);
    reveal_strlit("device.token.revoke");
    assert(name_mark("device.token.revoke"@) == 3491);
    reveal_strlit("node.rename");
    assert(name_mark("node.rename"@) == 3343);
    reveal_strlit("node.list");
    assert(name_mark("node.list"@) == 3355);
    reveal_strlit("node.describe");
    assert(name_mark("node.describe"@) == 3461);
    reveal_strlit("node.invoke");
    assert(name_mark("node.invoke"@) == 3563);
    reveal_strlit("node.invoke.result");
    assert(name_mark("node.invoke.result"@) == 3555);
    reveal_strlit("node.event");
    assert(name_mark("node.event"@) == 3502);
    reveal_strlit("cron.list");
    assert(name_mark("cron.list"@) == 3267);
    reveal_strlit("cron.status");
    assert(name_mark("cron.status"@) == 3148);
    reveal_strlit("cron.add");
    assert(name_mark("cron.add"@) == 2164);
    reveal_strlit("cron.update");
    assert(name_mark("cron.update"@) == 3085);
    reveal_strlit("cron.remove");
    assert(name_mark("cron.remove"@) == 3322);
    reveal_strlit("cron.run");
    assert(name_mark("cron.run"@) == 2266);
    reveal_strlit("cron.runs");
    assert(name_mark("cron.runs"@) == 3441);
    reveal_strlit("system-presence");
    assert(name_mark("system-presence"@) == 3312);
    reveal_strlit("system-event");
    assert(name_mark("system-event"@) == 3544);
    reveal_strlit("send");
    assert(name_mark("send"@) == 3485);
    reveal_strlit("agent");
    assert(name_mark("agent"@) == 3138);
    reveal_strlit("agent.identity.get");
    assert(name_mark("agent.identity.get"@) == 2194);
    reveal_strlit("agent.wait");
    assert(name_mark("agent.wait"@) == 3391);
    reveal_strlit("browser.request");
    assert(name_mark("browser.request"@) == 3394);
    reveal_strlit("chat.history");
    assert(name_mark("chat.history"@) == 3442);
    reveal_strlit("chat.abort");
    assert(name_mark("chat.abort"@) == 3134);
    reveal_strlit("chat.send");
    assert(name_mark("chat.send"@) == 3362);
    assert forall|i: int, j: int|
        0 <= i < base_methods().len() && 0 <= j < base_methods().len() && i
            != j implies base_methods()[i] != base_methods()[j] by {
        assert(name_mark(base_methods()[i]) != name_mark(base_methods()[j]));
    }
}

/// No method that the gateway answers is listed twice.
pub proof fn law_answered_methods_are_distinct()
    ensures
        answered_methods().no_duplicates(),
{
    reveal_strlit("health");
    assert(name_mark("health"@) == 3135);
    reveal_strlit("status");
    assert(name_mark("status"@) == 3271);
    reveal_strlit("config.get");
    assert(name_mark("config.get"@) == 2202);
    reveal_strlit("config.set");
    assert(name_mark("config.set"@) == 2274);
    reveal_strlit("config.apply");
    assert(name_mark("config.apply"@) == 3380);
    reveal_strlit("config.patch");
    assert(name_mark("config.patch"@) == 3149);
    reveal_strlit("config.schema");
    assert(name_mark("config.schema"@) == 3179);
    reveal_strlit("sessions.list");
    assert(name_mark("sessions.list"@) == 3399);
    reveal_strlit("sessions.preview");
    assert(name_mark("sessions.preview"@) == 3572);
    reveal_strlit("sessions.patch");
    assert(name_mark("sessions.patch"@) == 3279);
    reveal_strlit("sessions.reset");
    assert(name_mark("sessions.reset"@) == 3341);
    reveal_strlit("sessions.delete");
    assert(name_mark("sessions.delete"@) == 3377);
    reveal_strlit("sessions.compact");
    assert(name_mark("sessions.compact"@) == 3422);
    reveal_strlit("agent");
    assert(name_mark("agent"@) == 3138);
    reveal_strlit("agent.identity.get");
    assert(name_mark("agent.identity.get"@) == 2194);
    reveal_strlit("agent.wait");
    assert(name_mark("agent.wait"@) == 3391);
    reveal_strlit("chat.history");
    assert(name_mark("chat.history"@) == 3442);
    reveal_strlit("chat.abort");
    assert(name_mark("chat.abort"@) == 3134);
    reveal_strlit("chat.send");
    assert(name_mark("chat.send"@) == 3362);
    reveal_strlit("cron.list");
    assert(name_mark("cron.list"@) == 3267);
    reveal_strlit("cron.status");
    assert(name_mark("cron.status"@) == 3148);
    reveal_strlit("cron.add");
    assert(name_mark("cron.add"@) == 2164);
    reveal_strlit("cron.update");
    assert(name_mark("cron.update"@) == 3085);
    reveal_strlit("cron.remove");
    assert(name_mark("cron.remove"@) == 3322);
    reveal_strlit("cron.run");
    assert(name_mark("cron.run"@) == 2266);
    reveal_strlit("cron.runs");
    assert(name_mark("cron.runs"@) == 3441);
    reveal_strlit("node.pair.request");
    assert(name_mark("node.pair.request"@) == 3492);
    reveal_strlit("node.pair.list");
    assert(name_mark("node.pair.list"@) == 3360);
    reveal_strlit("node.pair.approve");
    assert(name_mark("node.pair.approve"@) == 3501);
    reveal_strlit("node.pair.reject");
    assert(name_mark("node.pair.reject"@) == 3304);
    reveal_strlit("node.pair.verify");
    assert(name_mark("node.pair.verify"@) == 3464);
    reveal_strlit("node.rename");
    assert(name_mark("node.rename"@) == 3343);
    reveal_strlit("node.list");
    assert(name_mark("node.list"@) == 3355);
    reveal_strlit("node.describe");
    assert(name_mark("node.describe"@) == 3461);
    reveal_strlit("node.invoke");
    assert(name_mark("node.invoke"@) == 3563);
    reveal_strlit("node.invoke.result");
    assert(name_mark("node.invoke.result"@) == 3555);
    reveal_strlit("node.event");
    assert(name_mark("node.event"@) == 3502);
    assert forall|i: int, j: int|
        0 <= i < answered_methods().len() && 0 <= j < answered_methods().len() && i
            != j implies answered_methods()[i] != answered_methods()[j] by {
        assert(name_mark(answered_methods()[i]) != name_mark(answered_methods()[j]));
    }
}

/// No event that the gateway sends is listed twice.
pub proof fn law_known_events_are_distinct()
    ensures
        gateway_events().no_duplicates(),
{
    reveal_strlit("connect.challenge");
    assert(name_mark("connect.challenge"@) == 3186);
    reveal_strlit("agent");
    assert(name_mark("agent"@) == 3138);
    reveal_strlit("chat");
    assert(name_mark("chat"@) == 3103);
    reveal_strlit("presence");
    assert(name_mark("presence"@) == 3281);
    reveal_strlit("tick");
    assert(name_mark("tick"@) == 3534);
    reveal_strlit("talk.mode");
    assert(name_mark("talk.mode"@) == 3456);
    reveal_strlit("shutdown");
    assert(name_mark("shutdown"@) == 3294);
    reveal_strlit("health");
    assert(name_mark("health"@) == 3135);
    reveal_strlit("heartbeat");
    assert(name_mark("heartbeat"@) == 3113);
    reveal_strlit("cron");
    assert(name_mark("cron"@) == 3163);
    reveal_strlit("node.pair.requested");
    assert(name_mark("node.pair.requested"@) == 3550);
    reveal_strlit("node.pair.resolved");
    assert(name_mark("node.pair.resolved"@) == 3442);
    reveal_strlit("node.invoke.request");
    assert(name_mark("node.invoke.request"@) == 3494);
    reveal_strlit("device.pair.requested");
    assert(name_mark("device.pair.requested"@) == 3472);
    reveal_strlit("device.pair.resolved");
    assert(name_mark("device.pair.resolved"@) == 3364);
    reveal_strlit("voicewake.changed");
    assert(name_mark("voicewake.changed"@) == 3449);
    reveal_strlit("exec.approval.requested");
    assert(name_mark("exec.approval.requested"@) == 3482);
    reveal_strlit("exec.approval.resolved");
    assert(name_mark("exec.approval.resolved"@) == 3374);
    reveal_strlit("update.available");
    assert(name_mark("update.available"@) == 3189);
    assert forall|i: int, j: int|
        0 <= i < gateway_events().len() && 0 <= j < gateway_events().len() && i
            != j implies gateway_events()[i] != gateway_events()[j] by {
        assert(name_mark(gateway_events()[i]) != name_mark(gateway_events()[j]));
    }
}

/// The gateway does not answer every method that the protocol knows.
pub proof fn law_some_known_methods_are_not_answered()
    ensures
        exists|method: Seq<char>|
            #![trigger base_methods().contains(method)]
            base_methods().contains(method) && !answered_methods().contains(method),
{
    reveal_strlit("health");
    assert(name_mark("health"@) == 3135);
    reveal_strlit("status");
    assert(name_mark("status"@) == 3271);
    reveal_strlit("config.get");
    assert(name_mark("config.get"@) == 2202);
    reveal_strlit("config.set");
    assert(name_mark("config.set"@) == 2274);
    reveal_strlit("config.apply");
    assert(name_mark("config.apply"@) == 3380);
    reveal_strlit("config.patch");
    assert(name_mark("config.patch"@) == 3149);
    reveal_strlit("config.schema");
    assert(name_mark("config.schema"@) == 3179);
    reveal_strlit("sessions.list");
    assert(name_mark("sessions.list"@) == 3399);
    reveal_strlit("sessions.preview");
    assert(name_mark("sessions.preview"@) == 3572);
    reveal_strlit("sessions.patch");
    assert(name_mark("sessions.patch"@) == 3279);
    reveal_strlit("sessions.reset");
    assert(name_mark("sessions.reset"@) == 3341);
    reveal_strlit("sessions.delete");
    assert(name_mark("sessions.delete"@) == 3377);
    reveal_strlit("sessions.compact");
    assert(name_mark("sessions.compact"@) == 3422);
    reveal_strlit("agent");
    assert(name_mark("agent"@) == 3138);
    reveal_strlit("agent.identity.get");
    assert(name_mark("agent.identity.get"@) == 2194);
    reveal_strlit("agent.wait");
    assert(name_mark("agent.wait"@) == 3391);
    reveal_strlit("chat.history");
    assert(name_mark("chat.history"@) == 3442);
    reveal_strlit("chat.abort");
    assert(name_mark("chat.abort"@) == 3134);
    reveal_strlit("chat.send");
    assert(name_mark("chat.send"@) == 3362);
    reveal_strlit("cron.list");
    assert(name_mark("cron.list"@) == 3267);
    reveal_strlit("cron.status");
    assert(name_mark("cron.status"@) == 3148);
    reveal_strlit("cron.add");
    assert(name_mark("cron.add"@) == 2164);
    reveal_strlit("cron.update");
    assert(name_mark("cron.update"@) == 3085);
    reveal_strlit("cron.remove");
    assert(name_mark("cron.remove"@) == 3322);
    reveal_strlit("cron.run");
    assert(name_mark("cron.run"@) == 2266);
    reveal_strlit("cron.runs");
    assert(name_mark("cron.runs"@) == 3441);
    reveal_strlit("node.pair.request");
    assert(name_mark("node.pair.request"@) == 3492);
    reveal_strlit("node.pair.list");
    assert(name_mark("node.pair.list"@) == 3360);
    reveal_strlit("node.pair.approve");
    assert(name_mark("node.pair.approve"@) == 3501);
    reveal_strlit("node.pair.reject");
    assert(name_mark("node.pair.reject"@) == 3304);
    reveal_strlit("node.pair.verify");
    assert(name_mark("node.pair.verify"@) == 3464);
    reveal_strlit("node.rename");
    assert(name_mark("node.rename"@) == 3343);
    reveal_strlit("node.list");
    assert(name_mark("node.list"@) == 3355);
    reveal_strlit("node.describe");
    assert(name_mark("node.describe"@) == 3461);
    reveal_strlit("node.invoke");
    assert(name_mark("node.invoke"@) == 3563);
    reveal_strlit("node.invoke.result");
    assert(name_mark("node.invoke.result"@) == 3555);
    reveal_strlit("node.event");
    assert(name_mark("node.event"@) == 3502);
    reveal_strlit("wizard.start");
    assert(name_mark("wizard.start"@) == 3518);
    assert(base_methods()[26] == "wizard.start"@);
    assert(base_methods().contains("wizard.start"@));
    assert forall|i: int| 0 <= i < answered_methods().len() implies answered_methods()[i]
        != "wizard.start"@ by {
        assert(name_mark(answered_methods()[i]) != name_mark("wizard.start"@));
    }
}

/// The parameters of a method that may go without: an empty object where there are none.
pub fn parse_optional_params(params: Option<Json>) -> (r: Json)
    ensures
        r@ == match opt_model(params) {
            Some(value) => value,
            None => JsonModel::Object(no_fields()),
        },
{
    match params {
        Some(value) => value,
        None => Json::Object(object()),
    }
}

/// The parameters of a method that must have them: an object, or a refusal.
pub fn parse_required_params(method: &str, params: Option<Json>) -> (r: Result<Json, ErrorShape>)
    ensures
        match opt_model(params) {
            Some(JsonModel::Object(m)) => r is Ok && r->Ok_0@ == JsonModel::Object(m),
            _ => r is Err && r->Err_0@ == invalid(
                "invalid "@ + method@ + " params: object required"@,
            ),
        },
{
    if let Some(value) = params {
        if value.is_object() {
            return Ok(value);
        }
    }
    Err(invalid_request(cat3("invalid ", method, " params: object required").as_str()))
}

/// The refusal of parameters that could not be read.
pub fn unreadable_params(method: &str, error: &str) -> (r: ErrorShape)
    ensures
        r@ == invalid("invalid "@ + method@ + " params: "@ + error@),
{
    invalid_request(cat4("invalid ", method, " params: ", error).as_str())
}

/// The refusal of parameters that lack a field.
pub open spec fn field_missing(method: Seq<char>, field: Seq<char>) -> ErrorModel {
    invalid("invalid "@ + method + " params: "@ + field + " is required"@)
}

/// The text of a field that must not be blank, or a refusal.
pub fn required_text(method: &str, field: &str, value: &str) -> (r: Result<String, ErrorShape>)
    ensures
        match kept(value@) {
            Some(s) => r is Ok && r->Ok_0@ == s,
            None => r is Err && r->Err_0@ == field_missing(method@, field@),
        },
{
    match trim_non_empty(value) {
        Some(s) => Ok(s),
        None => Err(
            invalid_request(cat5("invalid ", method, " params: ", field, " is required").as_str()),
        ),
    }
}

} // verus!
