//! Which session may call which method.
use crate::protocol::errors::{invalid, invalid_request, ErrorShape};
use crate::rpc::methods::{base_methods, listed, name_mark, one_of, slice_texts};
use crate::rpc::SessionContext;
use crate::text::{cat, has_prefix, same, starts_with, texts};
use vstd::prelude::*;

verus! {

broadcast use vstd::seq::group_seq_axioms;

pub const ADMIN_SCOPE: &'static str = "operator.admin";

pub const READ_SCOPE: &'static str = "operator.read";

pub const WRITE_SCOPE: &'static str = "operator.write";

pub const APPROVALS_SCOPE: &'static str = "operator.approvals";

pub const PAIRING_SCOPE: &'static str = "operator.pairing";

/// The methods that only a node may call.
pub open spec fn node_role_methods() -> Seq<Seq<char>> {
    seq!["node.invoke.result"@, "node.event"@, "skills.bins"@]
}

/// The methods that change the control plane.
pub open spec fn control_plane_write_methods() -> Seq<Seq<char>> {
    seq!["config.apply"@, "config.patch"@, "update.run"@]
}

/// The methods that ask for the scope of approvals.
pub open spec fn approvals_methods() -> Seq<Seq<char>> {
    seq![
        "exec.approval.request"@,
        "exec.approval.waitDecision"@,
        "exec.approval.resolve"@,
    ]
}

/// The methods that ask for the scope of pairing.
pub open spec fn pairing_methods() -> Seq<Seq<char>> {
    seq![
        "node.pair.request"@,
        "node.pair.list"@,
        "node.pair.approve"@,
        "node.pair.reject"@,
        "node.pair.verify"@,
        "device.pair.list"@,
        "device.pair.approve"@,
        "device.pair.reject"@,
        "device.pair.remove"@,
        "device.token.rotate"@,
        "device.token.revoke"@,
        "node.rename"@,
    ]
}

/// The methods that ask for the scope of reading.
pub open spec fn read_methods() -> Seq<Seq<char>> {
    seq![
        "health"@,
        "doctor.memory.status"@,
        "logs.tail"@,
        "channels.status"@,
        "status"@,
        "usage.status"@,
        "usage.cost"@,
        "tts.status"@,
        "tts.providers"@,
        "models.list"@,
        "tools.catalog"@,
        "agents.list"@,
        "agent.identity.get"@,
        "skills.status"@,
        "voicewake.get"@,
        "sessions.list"@,
        "sessions.preview"@,
        "cron.list"@,
        "cron.status"@,
        "cron.runs"@,
        "system-presence"@,
        "last-heartbeat"@,
        "node.list"@,
        "node.describe"@,
        "chat.history"@,
        "config.get"@,
        "talk.config"@,
        "agents.files.list"@,
        "agents.files.get"@,
    ]
}

/// The methods that ask for the scope of writing.
pub open spec fn write_methods() -> Seq<Seq<char>> {
    seq![
        "send"@,
        "agent"@,
        "agent.wait"@,
        "wake"@,
        "talk.mode"@,
        "tts.enable"@,
        "tts.disable"@,
        "tts.convert"@,
        "tts.setProvider"@,
        "voicewake.set"@,
        "node.invoke"@,
        "chat.send"@,
        "chat.abort"@,
        "browser.request"@,
    ]
}

/// The methods that ask for the scope of administration.
pub open spec fn admin_methods() -> Seq<Seq<char>> {
    seq![
        "channels.logout"@,
        "agents.create"@,
        "agents.update"@,
        "agents.delete"@,
        "skills.install"@,
        "skills.update"@,
        "cron.add"@,
        "cron.update"@,
        "cron.remove"@,
        "cron.run"@,
        "sessions.patch"@,
        "sessions.reset"@,
        "sessions.delete"@,
        "sessions.compact"@,
        "connect"@,
        "set-heartbeats"@,
        "system-event"@,
        "agents.files.set"@,
    ]
}

/// The scope that a method asks for.
pub open spec fn scope_for(method: Seq<char>) -> Option<Seq<char>> {
    if approvals_methods().contains(method) {
        Some(APPROVALS_SCOPE@)
    } else if pairing_methods().contains(method) {
        Some(PAIRING_SCOPE@)
    } else if read_methods().contains(method) {
        Some(READ_SCOPE@)
    } else if write_methods().contains(method) {
        Some(WRITE_SCOPE@)
    } else if admin_methods().contains(method) || has_prefix(method, "exec.approvals."@)
        || has_prefix(method, "config."@) || has_prefix(method, "wizard."@) || has_prefix(
        method,
        "update."@,
    ) {
        Some(ADMIN_SCOPE@)
    } else {
        None
    }
}

/// The scope that an operator without the administrator's scope needs.
pub open spec fn needed_scope(method: Seq<char>) -> Seq<char> {
    match scope_for(method) {
        Some(scope) => scope,
        None => ADMIN_SCOPE@,
    }
}

/// The scopes allow an operator the method.
pub open spec fn scopes_allow(scopes: Seq<Seq<char>>, method: Seq<char>) -> bool {
    ||| scopes.contains(ADMIN_SCOPE@)
    ||| scopes.contains(needed_scope(method))
    ||| needed_scope(method) == READ_SCOPE@ && scopes.contains(WRITE_SCOPE@)
}

/// Why a session may not call a method.
pub open spec fn refusal(role: Seq<char>, scopes: Seq<Seq<char>>, method: Seq<char>) -> Option<
    Seq<char>,
> {
    if method == "health"@ {
        None
    } else if role == "node"@ && node_role_methods().contains(method) {
        None
    } else if role != "operator"@ || node_role_methods().contains(method) {
        Some("unauthorized role: "@ + role)
    } else if scopes_allow(scopes, method) {
        None
    } else {
        Some("missing scope: "@ + needed_scope(method))
    }
}

/// Whether the method changes the control plane.
pub fn is_control_plane_write_method(method: &str) -> (r: bool)
    ensures
        r == control_plane_write_methods().contains(method@),
{
    let names: [&'static str; 3] = ["config.apply", "config.patch", "update.run"];
    assert(slice_texts(names@) =~= control_plane_write_methods());
    one_of(method, &names)
}

/// The scopes of an operator.
pub open spec fn operator_scopes() -> Seq<Seq<char>> {
    seq![ADMIN_SCOPE@, READ_SCOPE@, WRITE_SCOPE@, APPROVALS_SCOPE@, PAIRING_SCOPE@]
}

/// The scopes that an operator has by default.
pub fn default_operator_scopes() -> (r: Vec<String>)
    ensures
        texts(r@) == operator_scopes(),
{
    let mut out: Vec<String> = Vec::new();
    out.push(ADMIN_SCOPE.to_owned());
    out.push(READ_SCOPE.to_owned());
    out.push(WRITE_SCOPE.to_owned());
    out.push(APPROVALS_SCOPE.to_owned());
    out.push(PAIRING_SCOPE.to_owned());
    assert(texts(out@) =~= operator_scopes());
    out
}

/// Whether the session may call the method.
pub fn authorize_session(session: &SessionContext, method: &str) -> (r: Result<(), ErrorShape>)
    ensures
        match refusal(session.role@, texts(session.scopes@), method@) {
            None => r is Ok,
            Some(message) => r is Err && r->Err_0@ == invalid(message),
        },
{
    if same(method, "health") {
        return Ok(());
    }
    let role = session.role.as_str();
    let is_operator = same(role, "operator");
    let is_node = same(role, "node");
    proof {
        reveal_strlit("operator");
        reveal_strlit("node");
        assert("operator"@.len() != "node"@.len());
    }
    let names: [&'static str; 3] = ["node.invoke.result", "node.event", "skills.bins"];
    assert(slice_texts(names@) =~= node_role_methods());
    let for_nodes = one_of(method, &names);
    if for_nodes && is_node {
        return Ok(());
    }
    if !is_operator || for_nodes {
        return Err(invalid_request(cat("unauthorized role: ", role).as_str()));
    }
    if listed(ADMIN_SCOPE, &session.scopes) {
        return Ok(());
    }
    let required = match required_scope_for_method(method) {
        Some(scope) => scope,
        None => ADMIN_SCOPE,
    };
    if listed(required, &session.scopes) {
        return Ok(());
    }
    if same(required, READ_SCOPE) && listed(WRITE_SCOPE, &session.scopes) {
        return Ok(());
    }
    Err(invalid_request(cat("missing scope: ", required).as_str()))
}

fn is_approvals_method(method: &str) -> (r: bool)
    ensures
        r == approvals_methods().contains(method@),
{
    let names: [&'static str; 3] = [
        "exec.approval.request",
        "exec.approval.waitDecision",
        "exec.approval.resolve",
    ];
    assert(slice_texts(names@) =~= approvals_methods());
    one_of(method, &names)
}

fn is_pairing_method(method: &str) -> (r: bool)
    ensures
        r == pairing_methods().contains(method@),
{
    let names: [&'static str; 12] = [
        "node.pair.request",
        "node.pair.list",
        "node.pair.approve",
        "node.pair.reject",
        "node.pair.verify",
        "device.pair.list",
        "device.pair.approve",
        "device.pair.reject",
        "device.pair.remove",
        "device.token.rotate",
        "device.token.revoke",
        "node.rename",
    ];
    assert(slice_texts(names@) =~= pairing_methods());
    one_of(method, &names)
}

fn is_read_method(method: &str) -> (r: bool)
    ensures
        r == read_methods().contains(method@),
{
    let names: [&'static str; 29] = [
        "health",
        "doctor.memory.status",
        "logs.tail",
        "channels.status",
        "status",
        "usage.status",
        "usage.cost",
        "tts.status",
        "tts.providers",
        "models.list",
        "tools.catalog",
        "agents.list",
        "agent.identity.get",
        "skills.status",
        "voicewake.get",
        "sessions.list",
        "sessions.preview",
        "cron.list",
        "cron.status",
        "cron.runs",
        "system-presence",
        "last-heartbeat",
        "node.list",
        "node.describe",
        "chat.history",
        "config.get",
        "talk.config",
        "agents.files.list",
        "agents.files.get",
    ];
    assert(slice_texts(names@) =~= read_methods());
    one_of(method, &names)
}

fn is_write_method(method: &str) -> (r: bool)
    ensures
        r == write_methods().contains(method@),
{
    let names: [&'static str; 14] = [
        "send",
        "agent",
        "agent.wait",
        "wake",
        "talk.mode",
        "tts.enable",
        "tts.disable",
        "tts.convert",
        "tts.setProvider",
        "voicewake.set",
        "node.invoke",
        "chat.send",
        "chat.abort",
        "browser.request",
    ];
    assert(slice_texts(names@) =~= write_methods());
    one_of(method, &names)
}

fn is_admin_method(method: &str) -> (r: bool)
    ensures
        r == admin_methods().contains(method@),
{
    let names: [&'static str; 18] = [
        "channels.logout",
        "agents.create",
        "agents.update",
        "agents.delete",
        "skills.install",
        "skills.update",
        "cron.add",
        "cron.update",
        "cron.remove",
        "cron.run",
        "sessions.patch",
        "sessions.reset",
        "sessions.delete",
        "sessions.compact",
        "connect",
        "set-heartbeats",
        "system-event",
        "agents.files.set",
    ];
    assert(slice_texts(names@) =~= admin_methods());
    one_of(method, &names)
}

/// The scope that a method asks for.
pub fn required_scope_for_method(method: &str) -> (r: Option<&'static str>)
    ensures
        match r {
            Some(scope) => scope_for(method@) == Some(scope@),
            None => scope_for(method@) is None,
        },
{
    if is_approvals_method(method) {
        Some(APPROVALS_SCOPE)
    } else if is_pairing_method(method) {
        Some(PAIRING_SCOPE)
    } else if is_read_method(method) {
        Some(READ_SCOPE)
    } else if is_write_method(method) {
        Some(WRITE_SCOPE)
    } else if is_admin_method(method) || starts_with(method, "exec.approvals.") || starts_with(
        method,
        "config.",
    ) || starts_with(method, "wizard.") || starts_with(method, "update.") {
        Some(ADMIN_SCOPE)
    } else {
        None
    }
}

/// The methods of nodes ask for no scope.
proof fn lemma_node_methods_ask_for_none(method: Seq<char>)
    requires
        node_role_methods().contains(method),
    ensures
        scope_for(method) is None,
{
    reveal_strlit("node.invoke.result");
    reveal_strlit("node.event");
    reveal_strlit("skills.bins");
    reveal_strlit("exec.approvals.");
    reveal_strlit("config.");
    reveal_strlit("wizard.");
    reveal_strlit("update.");
    reveal_strlit("exec.approval.request");
    reveal_strlit("exec.approval.waitDecision");
    reveal_strlit("exec.approval.resolve");
    reveal_strlit("node.pair.request");
    reveal_strlit("node.pair.list");
    reveal_strlit("node.pair.approve");
    reveal_strlit("node.pair.reject");
    reveal_strlit("node.pair.verify");
    reveal_strlit("device.pair.list");
    reveal_strlit("device.pair.approve");
    reveal_strlit("device.pair.reject");
    reveal_strlit("device.pair.remove");
    reveal_strlit("device.token.rotate");
    reveal_strlit("device.token.revoke");
    reveal_strlit("node.rename");
    reveal_strlit("health");
    reveal_strlit("doctor.memory.status");
    reveal_strlit("logs.tail");
    reveal_strlit("channels.status");
    reveal_strlit("status");
    reveal_strlit("usage.status");
    reveal_strlit("usage.cost");
    reveal_strlit("tts.status");
    reveal_strlit("tts.providers");
    reveal_strlit("models.list");
    reveal_strlit("tools.catalog");
    reveal_strlit("agents.list");
    reveal_strlit("agent.identity.get");
    reveal_strlit("skills.status");
    reveal_strlit("voicewake.get");
    reveal_strlit("sessions.list");
    reveal_strlit("sessions.preview");
    reveal_strlit("cron.list");
    reveal_strlit("cron.status");
    reveal_strlit("cron.runs");
    reveal_strlit("system-presence");
    reveal_strlit("last-heartbeat");
    reveal_strlit("node.list");
    reveal_strlit("node.describe");
    reveal_strlit("chat.history");
    reveal_strlit("config.get");
    reveal_strlit("talk.config");
    reveal_strlit("agents.files.list");
    reveal_strlit("agents.files.get");
    reveal_strlit("send");
    reveal_strlit("agent");
    reveal_strlit("agent.wait");
    reveal_strlit("wake");
    reveal_strlit("talk.mode");
    reveal_strlit("tts.enable");
    reveal_strlit("tts.disable");
    reveal_strlit("tts.convert");
    reveal_strlit("tts.setProvider");
    reveal_strlit("voicewake.set");
    reveal_strlit("node.invoke");
    reveal_strlit("chat.send");
    reveal_strlit("chat.abort");
    reveal_strlit("browser.request");
    reveal_strlit("channels.logout");
    reveal_strlit("agents.create");
    reveal_strlit("agents.update");
    reveal_strlit("agents.delete");
    reveal_strlit("skills.install");
    reveal_strlit("skills.update");
    reveal_strlit("cron.add");
    reveal_strlit("cron.update");
    reveal_strlit("cron.remove");
    reveal_strlit("cron.run");
    reveal_strlit("sessions.patch");
    reveal_strlit("sessions.reset");
    reveal_strlit("sessions.delete");
    reveal_strlit("sessions.compact");
    reveal_strlit("connect");
    reveal_strlit("set-heartbeats");
    reveal_strlit("system-event");
    reveal_strlit("agents.files.set");
    assert("device.pair.reject"@[0] != "node.invoke.result"@[0]);
    assert("device.pair.remove"@[0] != "node.invoke.result"@[0]);
    assert("node.rename"@[0] != "skills.bins"@[0]);
    assert("usage.cost"@[0] != "node.event"@[0]);
    assert("tts.status"@[0] != "node.event"@[0]);
    assert("models.list"@[0] != "skills.bins"@[0]);
    assert("agents.list"@[0] != "skills.bins"@[0]);
    assert("agent.identity.get"@[0] != "node.invoke.result"@[0]);
    assert("cron.status"@[0] != "skills.bins"@[0]);
    assert("config.get"@[0] != "node.event"@[0]);
    assert("talk.config"@[0] != "skills.bins"@[0]);
    assert("agent.wait"@[0] != "node.event"@[0]);
    assert("tts.enable"@[0] != "node.event"@[0]);
    assert("tts.disable"@[0] != "skills.bins"@[0]);
    assert("tts.convert"@[0] != "skills.bins"@[0]);
    assert("node.invoke"@[0] != "skills.bins"@[0]);
    assert("chat.abort"@[0] != "node.event"@[0]);
    assert("cron.update"@[0] != "skills.bins"@[0]);
    assert("cron.remove"@[0] != "skills.bins"@[0]);
    let at = choose|at: int| 0 <= at < 3 && node_role_methods()[at] == method;
    assert(method == "node.invoke.result"@ || method == "node.event"@ || method == "skills.bins"@);
    assert forall|i: int| 0 <= i < approvals_methods().len() implies approvals_methods()[i] != method by {}
    assert forall|i: int| 0 <= i < pairing_methods().len() implies pairing_methods()[i] != method by {}
    assert forall|i: int| 0 <= i < read_methods().len() implies read_methods()[i] != method by {}
    assert forall|i: int| 0 <= i < write_methods().len() implies write_methods()[i] != method by {}
    assert forall|i: int| 0 <= i < admin_methods().len() implies admin_methods()[i] != method by {}
    assert forall|p: Seq<char>| p.len() > 0 && p[0] != method[0] implies !#[trigger] has_prefix(
        method,
        p,
    ) by {
        if has_prefix(method, p) {
            assert(method.take(p.len() as int)[0] == method[0]);
        }
    }
}

/// The methods that the protocol knows and that are not those of nodes ask for a scope.
proof fn lemma_other_methods_ask(method: Seq<char>)
    requires
        base_methods().contains(method),
        !node_role_methods().contains(method),
    ensures
        scope_for(method) is Some,
{
    assert(node_role_methods()[0] == "node.invoke.result"@);
    assert(node_role_methods()[1] == "node.event"@);
    assert(node_role_methods()[2] == "skills.bins"@);
    assert(approvals_methods()[0] == "exec.approval.request"@);
    assert(approvals_methods()[1] == "exec.approval.waitDecision"@);
    assert(approvals_methods()[2] == "exec.approval.resolve"@);
    assert(pairing_methods()[0] == "node.pair.request"@);
    assert(pairing_methods()[1] == "node.pair.list"@);
    assert(pairing_methods()[2] == "node.pair.approve"@);
    assert(pairing_methods()[3] == "node.pair.reject"@);
    assert(pairing_methods()[4] == "node.pair.verify"@);
    assert(pairing_methods()[5] == "device.pair.list"@);
    assert(pairing_methods()[6] == "device.pair.approve"@);
    assert(pairing_methods()[7] == "device.pair.reject"@);
    assert(pairing_methods()[8] == "device.pair.remove"@);
    assert(pairing_methods()[9] == "device.token.rotate"@);
    assert(pairing_methods()[10] == "device.token.revoke"@);
    assert(pairing_methods()[11] == "node.rename"@);
    assert(read_methods()[0] == "health"@);
    assert(read_methods()[1] == "doctor.memory.status"@);
    assert(read_methods()[2] == "logs.tail"@);
    assert(read_methods()[3] == "channels.status"@);
    assert(read_methods()[4] == "status"@);
    assert(read_methods()[5] == "usage.status"@);
    assert(read_methods()[6] == "usage.cost"@);
    assert(read_methods()[7] == "tts.status"@);
    assert(read_methods()[8] == "tts.providers"@);
    assert(read_methods()[9] == "models.list"@);
    assert(read_methods()[10] == "tools.catalog"@);
    assert(read_methods()[11] == "agents.list"@);
    assert(read_methods()[12] == "agent.identity.get"@);
    assert(read_methods()[13] == "skills.status"@);
    assert(read_methods()[14] == "voicewake.get"@);
    assert(read_methods()[15] == "sessions.list"@);
    assert(read_methods()[16] == "sessions.preview"@);
    assert(read_methods()[17] == "cron.list"@);
    assert(read_methods()[18] == "cron.status"@);
    assert(read_methods()[19] == "cron.runs"@);
    assert(read_methods()[20] == "system-presence"@);
    assert(read_methods()[21] == "last-heartbeat"@);
    assert(read_methods()[22] == "node.list"@);
    assert(read_methods()[23] == "node.describe"@);
    assert(read_methods()[24] == "chat.history"@);
    assert(read_methods()[25] == "config.get"@);
    assert(read_methods()[26] == "talk.config"@);
    assert(read_methods()[27] == "agents.files.list"@);
    assert(read_methods()[28] == "agents.files.get"@);
    assert(write_methods()[0] == "send"@);
    assert(write_methods()[1] == "agent"@);
    assert(write_methods()[2] == "agent.wait"@);
    assert(write_methods()[3] == "wake"@);
    assert(write_methods()[4] == "talk.mode"@);
    assert(write_methods()[5] == "tts.enable"@);
    assert(write_methods()[6] == "tts.disable"@);
    assert(write_methods()[7] == "tts.convert"@);
    assert(write_methods()[8] == "tts.setProvider"@);
    assert(write_methods()[9] == "voicewake.set"@);
    assert(write_methods()[10] == "node.invoke"@);
    assert(write_methods()[11] == "chat.send"@);
    assert(write_methods()[12] == "chat.abort"@);
    assert(write_methods()[13] == "browser.request"@);
    assert(admin_methods()[0] == "channels.logout"@);
    assert(admin_methods()[1] == "agents.create"@);
    assert(admin_methods()[2] == "agents.update"@);
    assert(admin_methods()[3] == "agents.delete"@);
    assert(admin_methods()[4] == "skills.install"@);
    assert(admin_methods()[5] == "skills.update"@);
    assert(admin_methods()[6] == "cron.add"@);
    assert(admin_methods()[7] == "cron.update"@);
    assert(admin_methods()[8] == "cron.remove"@);
    assert(admin_methods()[9] == "cron.run"@);
    assert(admin_methods()[10] == "sessions.patch"@);
    assert(admin_methods()[11] == "sessions.reset"@);
    assert(admin_methods()[12] == "sessions.delete"@);
    assert(admin_methods()[13] == "sessions.compact"@);
    assert(admin_methods()[15] == "set-heartbeats"@);
    assert(admin_methods()[16] == "system-event"@);
    assert(admin_methods()[17] == "agents.files.set"@);
    reveal_strlit("exec.approvals.");
    reveal_strlit("config.");
    reveal_strlit("wizard.");
    reveal_strlit("update.");
    reveal_strlit("config.set");
    assert("config.set"@.take("config."@.len() as int) =~= "config."@);
    assert(has_prefix("config.set"@, "config."@));
    reveal_strlit("config.apply");
    assert("config.apply"@.take("config."@.len() as int) =~= "config."@);
    assert(has_prefix("config.apply"@, "config."@));
    reveal_strlit("config.patch");
    assert("config.patch"@.take("config."@.len() as int) =~= "config."@);
    assert(has_prefix("config.patch"@, "config."@));
    reveal_strlit("config.schema");
    assert("config.schema"@.take("config."@.len() as int) =~= "config."@);
    assert(has_prefix("config.schema"@, "config."@));
    reveal_strlit("exec.approvals.get");
    assert("exec.approvals.get"@.take("exec.approvals."@.len() as int) =~= "exec.approvals."@);
    assert(has_prefix("exec.approvals.get"@, "exec.approvals."@));
    reveal_strlit("exec.approvals.set");
    assert("exec.approvals.set"@.take("exec.approvals."@.len() as int) =~= "exec.approvals."@);
    assert(has_prefix("exec.approvals.set"@, "exec.approvals."@));
    reveal_strlit("exec.approvals.node.get");
    assert("exec.approvals.node.get"@.take("exec.approvals."@.len() as int) =~= "exec.approvals."@);
    assert(has_prefix("exec.approvals.node.get"@, "exec.approvals."@));
    reveal_strlit("exec.approvals.node.set");
    assert("exec.approvals.node.set"@.take("exec.approvals."@.len() as int) =~= "exec.approvals."@);
    assert(has_prefix("exec.approvals.node.set"@, "exec.approvals."@));
    reveal_strlit("wizard.start");
    assert("wizard.start"@.take("wizard."@.len() as int) =~= "wizard."@);
    assert(has_prefix("wizard.start"@, "wizard."@));
    reveal_strlit("wizard.next");
    assert("wizard.next"@.take("wizard."@.len() as int) =~= "wizard."@);
    assert(has_prefix("wizard.next"@, "wizard."@));
    reveal_strlit("wizard.cancel");
    assert("wizard.cancel"@.take("wizard."@.len() as int) =~= "wizard."@);
    assert(has_prefix("wizard.cancel"@, "wizard."@));
    reveal_strlit("wizard.status");
    assert("wizard.status"@.take("wizard."@.len() as int) =~= "wizard."@);
    assert(has_prefix("wizard.status"@, "wizard."@));
    reveal_strlit("update.run");
    assert("update.run"@.take("update."@.len() as int) =~= "update."@);
    assert(has_prefix("update.run"@, "update."@));
    let at = choose|at: int| 0 <= at < base_methods().len() && base_methods()[at] == method;
    assert(base_methods()[at] == method);
}

/// Of the methods that the protocol knows, those of nodes ask for no scope, and each other one asks
/// for a scope of operators.
pub proof fn law_only_node_methods_ask_for_no_scope(method: Seq<char>)
    requires
        base_methods().contains(method),
    ensures
        scope_for(method) is None <==> node_role_methods().contains(method),
        scope_for(method) is Some ==> operator_scopes().contains(scope_for(method)->0),
{
    if node_role_methods().contains(method) {
        lemma_node_methods_ask_for_none(method);
    } else {
        lemma_other_methods_ask(method);
    }
    assert(operator_scopes()[0] == ADMIN_SCOPE@);
    assert(operator_scopes()[1] == READ_SCOPE@);
    assert(operator_scopes()[2] == WRITE_SCOPE@);
    assert(operator_scopes()[3] == APPROVALS_SCOPE@);
    assert(operator_scopes()[4] == PAIRING_SCOPE@);
}

/// The groups of methods have no method together.
proof fn lemma_groups_are_apart()
    ensures
        forall|i: int, j: int| 0 <= i < approvals_methods().len() && 0 <= j < pairing_methods().len() ==> #[trigger] approvals_methods()[i] != #[trigger] pairing_methods()[j],
        forall|i: int, j: int| 0 <= i < approvals_methods().len() && 0 <= j < read_methods().len() ==> #[trigger] approvals_methods()[i] != #[trigger] read_methods()[j],
        forall|i: int, j: int| 0 <= i < approvals_methods().len() && 0 <= j < write_methods().len() ==> #[trigger] approvals_methods()[i] != #[trigger] write_methods()[j],
        forall|i: int, j: int| 0 <= i < approvals_methods().len() && 0 <= j < admin_methods().len() ==> #[trigger] approvals_methods()[i] != #[trigger] admin_methods()[j],
        forall|i: int, j: int| 0 <= i < approvals_methods().len() && 0 <= j < node_role_methods().len() ==> #[trigger] approvals_methods()[i] != #[trigger] node_role_methods()[j],
        forall|i: int, j: int| 0 <= i < pairing_methods().len() && 0 <= j < read_methods().len() ==> #[trigger] pairing_methods()[i] != #[trigger] read_methods()[j],
        forall|i: int, j: int| 0 <= i < pairing_methods().len() && 0 <= j < write_methods().len() ==> #[trigger] pairing_methods()[i] != #[trigger] write_methods()[j],
        forall|i: int, j: int| 0 <= i < pairing_methods().len() && 0 <= j < admin_methods().len() ==> #[trigger] pairing_methods()[i] != #[trigger] admin_methods()[j],
        forall|i: int, j: int| 0 <= i < pairing_methods().len() && 0 <= j < node_role_methods().len() ==> #[trigger] pairing_methods()[i] != #[trigger] node_role_methods()[j],
        forall|i: int, j: int| 0 <= i < read_methods().len() && 0 <= j < write_methods().len() ==> #[trigger] read_methods()[i] != #[trigger] write_methods()[j],
        forall|i: int, j: int| 0 <= i < read_methods().len() && 0 <= j < admin_methods().len() ==> #[trigger] read_methods()[i] != #[trigger] admin_methods()[j],
        forall|i: int, j: int| 0 <= i < read_methods().len() && 0 <= j < node_role_methods().len() ==> #[trigger] read_methods()[i] != #[trigger] node_role_methods()[j],
        forall|i: int, j: int| 0 <= i < write_methods().len() && 0 <= j < admin_methods().len() ==> #[trigger] write_methods()[i] != #[trigger] admin_methods()[j],
        forall|i: int, j: int| 0 <= i < write_methods().len() && 0 <= j < node_role_methods().len() ==> #[trigger] write_methods()[i] != #[trigger] node_role_methods()[j],
        forall|i: int, j: int| 0 <= i < admin_methods().len() && 0 <= j < node_role_methods().len() ==> #[trigger] admin_methods()[i] != #[trigger] node_role_methods()[j],
{
    reveal_strlit("exec.approval.request");
    assert(name_mark("exec.approval.request"@) == 3424);
    reveal_strlit("exec.approval.waitDecision");
    assert(name_mark("exec.approval.waitDecision"@) == 3419);
    reveal_strlit("exec.approval.resolve");
    assert(name_mark("exec.approval.resolve"@) == 3364);
    reveal_strlit("node.pair.request");
    assert(name_mark("node.pair.request"@) == 3492);
    reveal_strlit("node.pair.list");
    assert(name_mark("node.pair.list"@) == 3360);
    reveal_strlit("node.pair.approve");
    assert(name_mark("node.pair.approve"@) == 3501);
    reveal_strlit("node.pair.reject");
    assert(name_mark("node.pair.reject"@) == 3304);
    reveal_strlit("node.pair.verify");
    assert(name_mark("node.pair.verify"@) == 3464);
    reveal_strlit("device.pair.list");
    assert(name_mark("device.pair.list"@) == 3282);
    reveal_strlit("device.pair.approve");
    assert(name_mark("device.pair.approve"@) == 3423);
    reveal_strlit("device.pair.reject");
    assert(name_mark("device.pair.reject"@) == 3226);
    reveal_strlit("device.pair.remove");
    assert(name_mark("device.pair.remove"@) == 3337);
    reveal_strlit("device.token.rotate");
    assert(name_mark("device.token.rotate"@) == 3373);
    reveal_strlit("device.token.revoke");
    assert(name_mark("device.token.revoke"@) == 3491);
    reveal_strlit("node.rename");
    assert(name_mark("node.rename"@) == 3343);
    reveal_strlit("health");
    assert(name_mark("health"@) == 3135);
    reveal_strlit("doctor.memory.status");
    assert(name_mark("doctor.memory.status"@) == 3165);
    reveal_strlit("logs.tail");
    assert(name_mark("logs.tail"@) == 3427);
    reveal_strlit("channels.status");
    assert(name_mark("channels.status"@) == 3152);
    reveal_strlit("status");
    assert(name_mark("status"@) == 3271);
    reveal_strlit("usage.status");
    assert(name_mark("usage.status"@) == 3293);
    reveal_strlit("usage.cost");
    assert(name_mark("usage.cost"@) == 3295);
    reveal_strlit("tts.status");
    assert(name_mark("tts.status"@) == 3283);
    reveal_strlit("tts.providers");
    assert(name_mark("tts.providers"@) == 3247);
    reveal_strlit("models.list");
    assert(name_mark("models.list"@) == 3349);
    reveal_strlit("tools.catalog");
    assert(name_mark("tools.catalog"@) == 3238);
    reveal_strlit("agents.list");
    assert(name_mark("agents.list"@) == 3253);
    reveal_strlit("agent.identity.get");
    assert(name_mark("agent.identity.get"@) == 2194);
    reveal_strlit("skills.status");
    assert(name_mark("skills.status"@) == 3278);
    reveal_strlit("voicewake.get");
    assert(name_mark("voicewake.get"@) == 2357);
    reveal_strlit("sessions.list");
    assert(name_mark("sessions.list"@) == 3399);
    reveal_strlit("sessions.preview");
    assert(name_mark("sessions.preview"@) == 3572);
    reveal_strlit("cron.list");
    assert(name_mark("cron.list"@) == 3267);
    reveal_strlit("cron.status");
    assert(name_mark("cron.status"@) == 3148);
    reveal_strlit("cron.runs");
    assert(name_mark("cron.runs"@) == 3441);
    reveal_strlit("system-presence");
    assert(name_mark("system-presence"@) == 3312);
    reveal_strlit("last-heartbeat");
    assert(name_mark("last-heartbeat"@) == 3150);
    reveal_strlit("node.list");
    assert(name_mark("node.list"@) == 3355);
    reveal_strlit("node.describe");
    assert(name_mark("node.describe"@) == 3461);
    reveal_strlit("chat.history");
    assert(name_mark("chat.history"@) == 3442);
    reveal_strlit("config.get");
    assert(name_mark("config.get"@) == 2202);
    reveal_strlit("talk.config");
    assert(name_mark("talk.config"@) == 3421);
    reveal_strlit("agents.files.list");
    assert(name_mark("agents.files.list"@) == 3259);
    reveal_strlit("agents.files.get");
    assert(name_mark("agents.files.get"@) == 2192);
    reveal_strlit("send");
    assert(name_mark("send"@) == 3485);
    reveal_strlit("agent");
    assert(name_mark("agent"@) == 3138);
    reveal_strlit("agent.wait");
    assert(name_mark("agent.wait"@) == 3391);
    reveal_strlit("wake");
    assert(name_mark("wake"@) == 3561);
    reveal_strlit("talk.mode");
    assert(name_mark("talk.mode"@) == 3456);
    reveal_strlit("tts.enable");
    assert(name_mark("tts.enable"@) == 3175);
    reveal_strlit("tts.disable");
    assert(name_mark("tts.disable"@) == 3176);
    reveal_strlit("tts.convert");
    assert(name_mark("tts.convert"@) == 3551);
    reveal_strlit("tts.setProvider");
    assert(name_mark("tts.setProvider"@) == 3328);
    reveal_strlit("voicewake.set");
    assert(name_mark("voicewake.set"@) == 2429);
    reveal_strlit("node.invoke");
    assert(name_mark("node.invoke"@) == 3563);
    reveal_strlit("chat.send");
    assert(name_mark("chat.send"@) == 3362);
    reveal_strlit("chat.abort");
    assert(name_mark("chat.abort"@) == 3134);
    reveal_strlit("browser.request");
    assert(name_mark("browser.request"@) == 3394);
    reveal_strlit("channels.logout");
    assert(name_mark("channels.logout"@) == 3224);
    reveal_strlit("agents.create");
    assert(name_mark("agents.create"@) == 3088);
    reveal_strlit("agents.update");
    assert(name_mark("agents.update"@) == 3071);
    reveal_strlit("agents.delete");
    assert(name_mark("agents.delete"@) == 3231);
    reveal_strlit("skills.install");
    assert(name_mark("skills.install"@) == 3488);
    reveal_strlit("skills.update");
    assert(name_mark("skills.update"@) == 3215);
    reveal_strlit("cron.add");
    assert(name_mark("cron.add"@) == 2164);
    reveal_strlit("cron.update");
    assert(name_mark("cron.update"@) == 3085);
    reveal_strlit("cron.remove");
    assert(name_mark("cron.remove"@) == 3322);
    reveal_strlit("cron.run");
    assert(name_mark("cron.run"@) == 2266);
    reveal_strlit("sessions.patch");
    assert(name_mark("sessions.patch"@) == 3279);
    reveal_strlit("sessions.reset");
    assert(name_mark("sessions.reset"@) == 3341);
    reveal_strlit("sessions.delete");
    assert(name_mark("sessions.delete"@) == 3377);
    reveal_strlit("sessions.compact");
    assert(name_mark("sessions.compact"@) == 3422);
    reveal_strlit("connect");
    assert(name_mark("connect"@) == 3275);
    reveal_strlit("set-heartbeats");
    assert(name_mark("set-heartbeats"@) == 3233);
    reveal_strlit("system-event");
    assert(name_mark("system-event"@) == 3544);
    reveal_strlit("agents.files.set");
    assert(name_mark("agents.files.set"@) == 2264);
    reveal_strlit("node.invoke.result");
    assert(name_mark("node.invoke.result"@) == 3555);
    reveal_strlit("node.event");
    assert(name_mark("node.event"@) == 3502);
    reveal_strlit("skills.bins");
    assert(name_mark("skills.bins"@) == 3227);
    assert forall|i: int, j: int| 0 <= i < approvals_methods().len() && 0 <= j < pairing_methods().len() implies #[trigger] approvals_methods()[i] != #[trigger] pairing_methods()[j] by {
        assert(name_mark(approvals_methods()[i]) != name_mark(pairing_methods()[j]));
    }
    assert forall|i: int, j: int| 0 <= i < approvals_methods().len() && 0 <= j < read_methods().len() implies #[trigger] approvals_methods()[i] != #[trigger] read_methods()[j] by {
        assert(name_mark(approvals_methods()[i]) != name_mark(read_methods()[j]));
    }
    assert forall|i: int, j: int| 0 <= i < approvals_methods().len() && 0 <= j < write_methods().len() implies #[trigger] approvals_methods()[i] != #[trigger] write_methods()[j] by {
        assert(name_mark(approvals_methods()[i]) != name_mark(write_methods()[j]));
    }
    assert forall|i: int, j: int| 0 <= i < approvals_methods().len() && 0 <= j < admin_methods().len() implies #[trigger] approvals_methods()[i] != #[trigger] admin_methods()[j] by {
        assert(name_mark(approvals_methods()[i]) != name_mark(admin_methods()[j]));
    }
    assert forall|i: int, j: int| 0 <= i < approvals_methods().len() && 0 <= j < node_role_methods().len() implies #[trigger] approvals_methods()[i] != #[trigger] node_role_methods()[j] by {
        assert(name_mark(approvals_methods()[i]) != name_mark(node_role_methods()[j]));
    }
    assert forall|i: int, j: int| 0 <= i < pairing_methods().len() && 0 <= j < read_methods().len() implies #[trigger] pairing_methods()[i] != #[trigger] read_methods()[j] by {
        assert(name_mark(pairing_methods()[i]) != name_mark(read_methods()[j]));
    }
    assert forall|i: int, j: int| 0 <= i < pairing_methods().len() && 0 <= j < write_methods().len() implies #[trigger] pairing_methods()[i] != #[trigger] write_methods()[j] by {
        assert(name_mark(pairing_methods()[i]) != name_mark(write_methods()[j]));
    }
    assert forall|i: int, j: int| 0 <= i < pairing_methods().len() && 0 <= j < admin_methods().len() implies #[trigger] pairing_methods()[i] != #[trigger] admin_methods()[j] by {
        assert(name_mark(pairing_methods()[i]) != name_mark(admin_methods()[j]));
    }
    assert forall|i: int, j: int| 0 <= i < pairing_methods().len() && 0 <= j < node_role_methods().len() implies #[trigger] pairing_methods()[i] != #[trigger] node_role_methods()[j] by {
        assert(name_mark(pairing_methods()[i]) != name_mark(node_role_methods()[j]));
    }
    assert forall|i: int, j: int| 0 <= i < read_methods().len() && 0 <= j < write_methods().len() implies #[trigger] read_methods()[i] != #[trigger] write_methods()[j] by {
        assert(name_mark(read_methods()[i]) != name_mark(write_methods()[j]));
    }
    assert forall|i: int, j: int| 0 <= i < read_methods().len() && 0 <= j < admin_methods().len() implies #[trigger] read_methods()[i] != #[trigger] admin_methods()[j] by {
        assert(name_mark(read_methods()[i]) != name_mark(admin_methods()[j]));
    }
    assert forall|i: int, j: int| 0 <= i < read_methods().len() && 0 <= j < node_role_methods().len() implies #[trigger] read_methods()[i] != #[trigger] node_role_methods()[j] by {
        assert(name_mark(read_methods()[i]) != name_mark(node_role_methods()[j]));
    }
    assert forall|i: int, j: int| 0 <= i < write_methods().len() && 0 <= j < admin_methods().len() implies #[trigger] write_methods()[i] != #[trigger] admin_methods()[j] by {
        assert(name_mark(write_methods()[i]) != name_mark(admin_methods()[j]));
    }
    assert forall|i: int, j: int| 0 <= i < write_methods().len() && 0 <= j < node_role_methods().len() implies #[trigger] write_methods()[i] != #[trigger] node_role_methods()[j] by {
        assert(name_mark(write_methods()[i]) != name_mark(node_role_methods()[j]));
    }
    assert forall|i: int, j: int| 0 <= i < admin_methods().len() && 0 <= j < node_role_methods().len() implies #[trigger] admin_methods()[i] != #[trigger] node_role_methods()[j] by {
        assert(name_mark(admin_methods()[i]) != name_mark(node_role_methods()[j]));
    }
}

/// The scopes have names of their own.
proof fn lemma_scopes_differ()
    ensures
        "operator.admin"@ != "operator.read"@,
        "operator.admin"@ != "operator.write"@,
        "operator.admin"@ != "operator.approvals"@,
        "operator.admin"@ != "operator.pairing"@,
        "operator.read"@ != "operator.write"@,
        "operator.read"@ != "operator.approvals"@,
        "operator.read"@ != "operator.pairing"@,
        "operator.write"@ != "operator.approvals"@,
        "operator.write"@ != "operator.pairing"@,
        "operator.approvals"@ != "operator.pairing"@,
{
    reveal_strlit("operator.admin");
    reveal_strlit("operator.read");
    reveal_strlit("operator.write");
    reveal_strlit("operator.approvals");
    reveal_strlit("operator.pairing");
    assert("operator.admin"@.len() == 14 && "operator.read"@.len() == 13 && "operator.write"@.len() == 14);
    assert("operator.approvals"@.len() == 18 && "operator.pairing"@.len() == 16);
    assert("operator.admin"@[9] == 'a' && "operator.write"@[9] == 'w');
}

/// A session of an operator with one scope alone.
pub open spec fn has_only_scope(session: SessionContext, scope: Seq<char>) -> bool {
    session.role@ == "operator"@ && texts(session.scopes@) == seq![scope]
}

proof fn lemma_only_scope(session: SessionContext, scope: Seq<char>)
    requires
        has_only_scope(session, scope),
    ensures
        forall|s: Seq<char>| #[trigger] texts(session.scopes@).contains(s) <==> s == scope,
{
    assert(texts(session.scopes@)[0] == scope);
}

proof fn lemma_begins(s: Seq<char>, p: Seq<char>)
    requires
        p.len() <= s.len(),
        forall|i: int| 0 <= i < p.len() ==> s[i] == #[trigger] p[i],
    ensures
        has_prefix(s, p),
{
    assert(s.take(p.len() as int) =~= p);
}

proof fn lemma_said(a: Seq<char>, b: Seq<char>, whole: Seq<char>)
    requires
        whole.len() == a.len() + b.len(),
        forall|i: int| 0 <= i < whole.len() ==> #[trigger] whole[i] == (if i < a.len() {
            a[i]
        } else {
            b[i - a.len()]
        }),
    ensures
        a + b == whole,
{
    assert(a + b =~= whole);
}

/// Whose only scope is that of approvals, or that of administration, may decide about approvals; no other
/// single scope is enough.
pub proof fn law_approvals_need_their_scope(session: &SessionContext, method: &str, scope: Seq<char>, r: Result<(), ErrorShape>)
    requires
        call_ensures(authorize_session, (session, method), r),
        has_only_scope(*session, scope),
        seq![
            "exec.approval.request"@,
            "exec.approval.waitDecision"@,
            "exec.approval.resolve"@,
        ].contains(method@),
    ensures
        r is Ok <==> scope == "operator.approvals"@ || scope == "operator.admin"@,
        r is Err ==> r->Err_0.message@ == "missing scope: operator.approvals"@ && r->Err_0.code@ == "INVALID_REQUEST"@,
{
    lemma_groups_are_apart();
    lemma_scopes_differ();
    lemma_only_scope(*session, scope);
    let names = seq![
        "exec.approval.request"@,
        "exec.approval.waitDecision"@,
        "exec.approval.resolve"@,
    ];
    assert(names =~= approvals_methods());
    let at = choose|at: int| 0 <= at < names.len() && names[at] == method@;
    assert(approvals_methods()[at] == method@);
    reveal_strlit("health");
    assert(read_methods()[0] == "health"@);
    assert(approvals_methods()[at] != read_methods()[0]);
    reveal_strlit("missing scope: ");
    reveal_strlit("operator.approvals");
    reveal_strlit("missing scope: operator.approvals");
    lemma_said("missing scope: "@, "operator.approvals"@, "missing scope: operator.approvals"@);
}

/// Whose only scope is that of pairing, or that of administration, may pair; no other single scope is
/// enough.
pub proof fn law_pairing_needs_its_scope(session: &SessionContext, method: &str, scope: Seq<char>, r: Result<(), ErrorShape>)
    requires
        call_ensures(authorize_session, (session, method), r),
        has_only_scope(*session, scope),
        seq![
            "node.pair.request"@,
            "node.pair.list"@,
            "node.pair.approve"@,
            "node.pair.reject"@,
            "node.pair.verify"@,
            "device.pair.list"@,
            "device.pair.approve"@,
            "device.pair.reject"@,
            "device.pair.remove"@,
            "device.token.rotate"@,
            "device.token.revoke"@,
            "node.rename"@,
        ].contains(method@),
    ensures
        r is Ok <==> scope == "operator.pairing"@ || scope == "operator.admin"@,
        r is Err ==> r->Err_0.message@ == "missing scope: operator.pairing"@ && r->Err_0.code@ == "INVALID_REQUEST"@,
{
    lemma_groups_are_apart();
    lemma_scopes_differ();
    lemma_only_scope(*session, scope);
    let names = seq![
        "node.pair.request"@,
        "node.pair.list"@,
        "node.pair.approve"@,
        "node.pair.reject"@,
        "node.pair.verify"@,
        "device.pair.list"@,
        "device.pair.approve"@,
        "device.pair.reject"@,
        "device.pair.remove"@,
        "device.token.rotate"@,
        "device.token.revoke"@,
        "node.rename"@,
    ];
    assert(names =~= pairing_methods());
    let at = choose|at: int| 0 <= at < names.len() && names[at] == method@;
    assert(pairing_methods()[at] == method@);
    reveal_strlit("health");
    assert(read_methods()[0] == "health"@);
    assert(pairing_methods()[at] != read_methods()[0]);
    reveal_strlit("missing scope: ");
    reveal_strlit("operator.pairing");
    reveal_strlit("missing scope: operator.pairing");
    lemma_said("missing scope: "@, "operator.pairing"@, "missing scope: operator.pairing"@);
}

/// Whose only scope is that of writing, or that of administration, may call each method that writes; no
/// other single scope is enough, that of reading neither.
pub proof fn law_writing_needs_its_scope(session: &SessionContext, method: &str, scope: Seq<char>, r: Result<(), ErrorShape>)
    requires
        call_ensures(authorize_session, (session, method), r),
        has_only_scope(*session, scope),
        seq![
            "send"@,
            "agent"@,
            "agent.wait"@,
            "wake"@,
            "talk.mode"@,
            "tts.enable"@,
            "tts.disable"@,
            "tts.convert"@,
            "tts.setProvider"@,
            "voicewake.set"@,
            "node.invoke"@,
            "chat.send"@,
            "chat.abort"@,
            "browser.request"@,
        ].contains(method@),
    ensures
        r is Ok <==> scope == "operator.write"@ || scope == "operator.admin"@,
        r is Err ==> r->Err_0.message@ == "missing scope: operator.write"@ && r->Err_0.code@ == "INVALID_REQUEST"@,
{
    lemma_groups_are_apart();
    lemma_scopes_differ();
    lemma_only_scope(*session, scope);
    let names = seq![
        "send"@,
        "agent"@,
        "agent.wait"@,
        "wake"@,
        "talk.mode"@,
        "tts.enable"@,
        "tts.disable"@,
        "tts.convert"@,
        "tts.setProvider"@,
        "voicewake.set"@,
        "node.invoke"@,
        "chat.send"@,
        "chat.abort"@,
        "browser.request"@,
    ];
    assert(names =~= write_methods());
    let at = choose|at: int| 0 <= at < names.len() && names[at] == method@;
    assert(write_methods()[at] == method@);
    reveal_strlit("health");
    assert(read_methods()[0] == "health"@);
    assert(write_methods()[at] != read_methods()[0]);
    reveal_strlit("missing scope: ");
    reveal_strlit("operator.write");
    reveal_strlit("missing scope: operator.write");
    lemma_said("missing scope: "@, "operator.write"@, "missing scope: operator.write"@);
}

/// Only the scope of administration is enough for the methods that administrate.
pub proof fn law_administration_needs_its_scope(session: &SessionContext, method: &str, scope: Seq<char>, r: Result<(), ErrorShape>)
    requires
        call_ensures(authorize_session, (session, method), r),
        has_only_scope(*session, scope),
        seq![
            "channels.logout"@,
            "agents.create"@,
            "agents.update"@,
            "agents.delete"@,
            "skills.install"@,
            "skills.update"@,
            "cron.add"@,
            "cron.update"@,
            "cron.remove"@,
            "cron.run"@,
            "sessions.patch"@,
            "sessions.reset"@,
            "sessions.delete"@,
            "sessions.compact"@,
            "connect"@,
            "set-heartbeats"@,
            "system-event"@,
            "agents.files.set"@,
        ].contains(method@),
    ensures
        r is Ok <==> scope == "operator.admin"@,
        r is Err ==> r->Err_0.message@ == "missing scope: operator.admin"@ && r->Err_0.code@ == "INVALID_REQUEST"@,
{
    lemma_groups_are_apart();
    lemma_scopes_differ();
    lemma_only_scope(*session, scope);
    let names = seq![
        "channels.logout"@,
        "agents.create"@,
        "agents.update"@,
        "agents.delete"@,
        "skills.install"@,
        "skills.update"@,
        "cron.add"@,
        "cron.update"@,
        "cron.remove"@,
        "cron.run"@,
        "sessions.patch"@,
        "sessions.reset"@,
        "sessions.delete"@,
        "sessions.compact"@,
        "connect"@,
        "set-heartbeats"@,
        "system-event"@,
        "agents.files.set"@,
    ];
    assert(names =~= admin_methods());
    let at = choose|at: int| 0 <= at < names.len() && names[at] == method@;
    assert(admin_methods()[at] == method@);
    reveal_strlit("health");
    assert(read_methods()[0] == "health"@);
    assert(admin_methods()[at] != read_methods()[0]);
    reveal_strlit("missing scope: ");
    reveal_strlit("operator.admin");
    reveal_strlit("missing scope: operator.admin");
    lemma_said("missing scope: "@, "operator.admin"@, "missing scope: operator.admin"@);
}

/// Whose only scope is that of reading, of writing or of administration may call each method that
/// reads; no other single scope is enough. Everybody may ask for health.
pub proof fn law_reading_needs_its_scope(session: &SessionContext, method: &str, scope: Seq<char>, r: Result<(), ErrorShape>)
    requires
        call_ensures(authorize_session, (session, method), r),
        has_only_scope(*session, scope),
        (seq!["health"@] + seq![
            "doctor.memory.status"@,
            "logs.tail"@,
            "channels.status"@,
            "status"@,
            "usage.status"@,
            "usage.cost"@,
            "tts.status"@,
            "tts.providers"@,
            "models.list"@,
            "tools.catalog"@,
            "agents.list"@,
            "agent.identity.get"@,
            "skills.status"@,
            "voicewake.get"@,
            "sessions.list"@,
            "sessions.preview"@,
            "cron.list"@,
            "cron.status"@,
            "cron.runs"@,
            "system-presence"@,
            "last-heartbeat"@,
            "node.list"@,
            "node.describe"@,
            "chat.history"@,
            "config.get"@,
            "talk.config"@,
            "agents.files.list"@,
            "agents.files.get"@,
        ]).contains(method@),
    ensures
        r is Ok <==> method@ == "health"@ || scope == "operator.read"@ || scope == "operator.write"@ || scope == "operator.admin"@,
        r is Err ==> r->Err_0.message@ == "missing scope: operator.read"@ && r->Err_0.code@ == "INVALID_REQUEST"@,
{
    lemma_groups_are_apart();
    lemma_scopes_differ();
    lemma_only_scope(*session, scope);
    let names = seq!["health"@] + seq![
        "doctor.memory.status"@,
        "logs.tail"@,
        "channels.status"@,
        "status"@,
        "usage.status"@,
        "usage.cost"@,
        "tts.status"@,
        "tts.providers"@,
        "models.list"@,
        "tools.catalog"@,
        "agents.list"@,
        "agent.identity.get"@,
        "skills.status"@,
        "voicewake.get"@,
        "sessions.list"@,
        "sessions.preview"@,
        "cron.list"@,
        "cron.status"@,
        "cron.runs"@,
        "system-presence"@,
        "last-heartbeat"@,
        "node.list"@,
        "node.describe"@,
        "chat.history"@,
        "config.get"@,
        "talk.config"@,
        "agents.files.list"@,
        "agents.files.get"@,
    ];
    assert(names =~= read_methods());
    let at = choose|at: int| 0 <= at < names.len() && names[at] == method@;
    assert(read_methods()[at] == method@);
    reveal_strlit("missing scope: ");
    reveal_strlit("operator.read");
    reveal_strlit("missing scope: operator.read");
    lemma_said("missing scope: "@, "operator.read"@, "missing scope: operator.read"@);
}

/// A node may call the three methods of nodes and ask for health, and nothing else; an operator may
/// call none of those three, whatever the scopes; any other role may ask for health alone. Who may
/// not call for the role is told so.
pub proof fn law_roles(session: &SessionContext, method: &str, r: Result<(), ErrorShape>)
    requires
        call_ensures(authorize_session, (session, method), r),
    ensures
        ({
            let of_nodes = method@ == "node.invoke.result"@ || method@ == "node.event"@ || method@
                == "skills.bins"@;
            &&& session.role@ == "node"@ ==> (r is Ok <==> of_nodes || method@ == "health"@)
            &&& session.role@ == "operator"@ && of_nodes ==> r is Err
            &&& session.role@ != "node"@ && session.role@ != "operator"@ ==> (r is Ok <==> method@
                == "health"@)
            &&& method@ != "health"@ && !(session.role@ == "node"@ && of_nodes) && (session.role@
                != "operator"@ || of_nodes) ==> r is Err && r->Err_0.message@ == "unauthorized role: "@
                + session.role@
        }),
{
    reveal_strlit("operator");
    reveal_strlit("node");
    assert("operator"@.len() != "node"@.len());
    let names = node_role_methods();
    assert(names[0] == "node.invoke.result"@ && names[1] == "node.event"@ && names[2] == "skills.bins"@);
    if names.contains(method@) {
        let at = choose|at: int| 0 <= at < names.len() && names[at] == method@;
        assert(at == 0 || at == 1 || at == 2);
    }
    reveal_strlit("health");
    reveal_strlit("node.invoke.result");
    reveal_strlit("node.event");
    reveal_strlit("skills.bins");
    assert("health"@.len() == 6 && "node.invoke.result"@.len() == 18 && "node.event"@.len() == 10
        && "skills.bins"@.len() == 11);
}

/// Only the scope of administration is enough for the methods about the configuration but reading
/// it, about the rules of approvals, about wizards and about updates.
pub proof fn law_configuring_needs_administration(session: &SessionContext, method: &str, scope: Seq<char>, r: Result<(), ErrorShape>)
    requires
        call_ensures(authorize_session, (session, method), r),
        has_only_scope(*session, scope),
        seq![
            "config.set"@,
            "config.apply"@,
            "config.patch"@,
            "config.schema"@,
            "exec.approvals.get"@,
            "exec.approvals.set"@,
            "exec.approvals.node.get"@,
            "exec.approvals.node.set"@,
            "wizard.start"@,
            "wizard.next"@,
            "wizard.cancel"@,
            "wizard.status"@,
            "update.run"@,
        ].contains(method@),
    ensures
        r is Ok <==> scope == "operator.admin"@,
{
    lemma_scopes_differ();
    lemma_only_scope(*session, scope);
    reveal_strlit("exec.approvals.");
    reveal_strlit("config.");
    reveal_strlit("wizard.");
    reveal_strlit("update.");
    reveal_strlit("config.set");
    assert(name_mark("config.set"@) == 2274);
    lemma_begins("config.set"@, "config."@);
    reveal_strlit("config.apply");
    assert(name_mark("config.apply"@) == 3380);
    lemma_begins("config.apply"@, "config."@);
    reveal_strlit("config.patch");
    assert(name_mark("config.patch"@) == 3149);
    lemma_begins("config.patch"@, "config."@);
    reveal_strlit("config.schema");
    assert(name_mark("config.schema"@) == 3179);
    lemma_begins("config.schema"@, "config."@);
    reveal_strlit("exec.approvals.get");
    assert(name_mark("exec.approvals.get"@) == 2226);
    lemma_begins("exec.approvals.get"@, "exec.approvals."@);
    reveal_strlit("exec.approvals.set");
    assert(name_mark("exec.approvals.set"@) == 2298);
    lemma_begins("exec.approvals.set"@, "exec.approvals."@);
    reveal_strlit("exec.approvals.node.get");
    assert(name_mark("exec.approvals.node.get"@) == 2231);
    lemma_begins("exec.approvals.node.get"@, "exec.approvals."@);
    reveal_strlit("exec.approvals.node.set");
    assert(name_mark("exec.approvals.node.set"@) == 2303);
    lemma_begins("exec.approvals.node.set"@, "exec.approvals."@);
    reveal_strlit("wizard.start");
    assert(name_mark("wizard.start"@) == 3518);
    lemma_begins("wizard.start"@, "wizard."@);
    reveal_strlit("wizard.next");
    assert(name_mark("wizard.next"@) == 3439);
    lemma_begins("wizard.next"@, "wizard."@);
    reveal_strlit("wizard.cancel");
    assert(name_mark("wizard.cancel"@) == 3429);
    lemma_begins("wizard.cancel"@, "wizard."@);
    reveal_strlit("wizard.status");
    assert(name_mark("wizard.status"@) == 3310);
    lemma_begins("wizard.status"@, "wizard."@);
    reveal_strlit("update.run");
    assert(name_mark("update.run"@) == 2412);
    lemma_begins("update.run"@, "update."@);
    reveal_strlit("exec.approval.request");
    assert(name_mark("exec.approval.request"@) == 3424);
    reveal_strlit("exec.approval.waitDecision");
    assert(name_mark("exec.approval.waitDecision"@) == 3419);
    reveal_strlit("exec.approval.resolve");
    assert(name_mark("exec.approval.resolve"@) == 3364);
    reveal_strlit("node.pair.request");
    assert(name_mark("node.pair.request"@) == 3492);
    reveal_strlit("node.pair.list");
    assert(name_mark("node.pair.list"@) == 3360);
    reveal_strlit("node.pair.approve");
    assert(name_mark("node.pair.approve"@) == 3501);
    reveal_strlit("node.pair.reject");
    assert(name_mark("node.pair.reject"@) == 3304);
    reveal_strlit("node.pair.verify");
    assert(name_mark("node.pair.verify"@) == 3464);
    reveal_strlit("device.pair.list");
    assert(name_mark("device.pair.list"@) == 3282);
    reveal_strlit("device.pair.approve");
    assert(name_mark("device.pair.approve"@) == 3423);
    reveal_strlit("device.pair.reject");
    assert(name_mark("device.pair.reject"@) == 3226);
    reveal_strlit("device.pair.remove");
    assert(name_mark("device.pair.remove"@) == 3337);
    reveal_strlit("device.token.rotate");
    assert(name_mark("device.token.rotate"@) == 3373);
    reveal_strlit("device.token.revoke");
    assert(name_mark("device.token.revoke"@) == 3491);
    reveal_strlit("node.rename");
    assert(name_mark("node.rename"@) == 3343);
    reveal_strlit("health");
    assert(name_mark("health"@) == 3135);
    reveal_strlit("doctor.memory.status");
    assert(name_mark("doctor.memory.status"@) == 3165);
    reveal_strlit("logs.tail");
    assert(name_mark("logs.tail"@) == 3427);
    reveal_strlit("channels.status");
    assert(name_mark("channels.status"@) == 3152);
    reveal_strlit("status");
    assert(name_mark("status"@) == 3271);
    reveal_strlit("usage.status");
    assert(name_mark("usage.status"@) == 3293);
    reveal_strlit("usage.cost");
    assert(name_mark("usage.cost"@) == 3295);
    reveal_strlit("tts.status");
    assert(name_mark("tts.status"@) == 3283);
    reveal_strlit("tts.providers");
    assert(name_mark("tts.providers"@) == 3247);
    reveal_strlit("models.list");
    assert(name_mark("models.list"@) == 3349);
    reveal_strlit("tools.catalog");
    assert(name_mark("tools.catalog"@) == 3238);
    reveal_strlit("agents.list");
    assert(name_mark("agents.list"@) == 3253);
    reveal_strlit("agent.identity.get");
    assert(name_mark("agent.identity.get"@) == 2194);
    reveal_strlit("skills.status");
    assert(name_mark("skills.status"@) == 3278);
    reveal_strlit("voicewake.get");
    assert(name_mark("voicewake.get"@) == 2357);
    reveal_strlit("sessions.list");
    assert(name_mark("sessions.list"@) == 3399);
    reveal_strlit("sessions.preview");
    assert(name_mark("sessions.preview"@) == 3572);
    reveal_strlit("cron.list");
    assert(name_mark("cron.list"@) == 3267);
    reveal_strlit("cron.status");
    assert(name_mark("cron.status"@) == 3148);
    reveal_strlit("cron.runs");
    assert(name_mark("cron.runs"@) == 3441);
    reveal_strlit("system-presence");
    assert(name_mark("system-presence"@) == 3312);
    reveal_strlit("last-heartbeat");
    assert(name_mark("last-heartbeat"@) == 3150);
    reveal_strlit("node.list");
    assert(name_mark("node.list"@) == 3355);
    reveal_strlit("node.describe");
    assert(name_mark("node.describe"@) == 3461);
    reveal_strlit("chat.history");
    assert(name_mark("chat.history"@) == 3442);
    reveal_strlit("config.get");
    assert(name_mark("config.get"@) == 2202);
    reveal_strlit("talk.config");
    assert(name_mark("talk.config"@) == 3421);
    reveal_strlit("agents.files.list");
    assert(name_mark("agents.files.list"@) == 3259);
    reveal_strlit("agents.files.get");
    assert(name_mark("agents.files.get"@) == 2192);
    reveal_strlit("send");
    assert(name_mark("send"@) == 3485);
    reveal_strlit("agent");
    assert(name_mark("agent"@) == 3138);
    reveal_strlit("agent.wait");
    assert(name_mark("agent.wait"@) == 3391);
    reveal_strlit("wake");
    assert(name_mark("wake"@) == 3561);
    reveal_strlit("talk.mode");
    assert(name_mark("talk.mode"@) == 3456);
    reveal_strlit("tts.enable");
    assert(name_mark("tts.enable"@) == 3175);
    reveal_strlit("tts.disable");
    assert(name_mark("tts.disable"@) == 3176);
    reveal_strlit("tts.convert");
    assert(name_mark("tts.convert"@) == 3551);
    reveal_strlit("tts.setProvider");
    assert(name_mark("tts.setProvider"@) == 3328);
    reveal_strlit("voicewake.set");
    assert(name_mark("voicewake.set"@) == 2429);
    reveal_strlit("node.invoke");
    assert(name_mark("node.invoke"@) == 3563);
    reveal_strlit("chat.send");
    assert(name_mark("chat.send"@) == 3362);
    reveal_strlit("chat.abort");
    assert(name_mark("chat.abort"@) == 3134);
    reveal_strlit("browser.request");
    assert(name_mark("browser.request"@) == 3394);
    reveal_strlit("channels.logout");
    assert(name_mark("channels.logout"@) == 3224);
    reveal_strlit("agents.create");
    assert(name_mark("agents.create"@) == 3088);
    reveal_strlit("agents.update");
    assert(name_mark("agents.update"@) == 3071);
    reveal_strlit("agents.delete");
    assert(name_mark("agents.delete"@) == 3231);
    reveal_strlit("skills.install");
    assert(name_mark("skills.install"@) == 3488);
    reveal_strlit("skills.update");
    assert(name_mark("skills.update"@) == 3215);
    reveal_strlit("cron.add");
    assert(name_mark("cron.add"@) == 2164);
    reveal_strlit("cron.update");
    assert(name_mark("cron.update"@) == 3085);
    reveal_strlit("cron.remove");
    assert(name_mark("cron.remove"@) == 3322);
    reveal_strlit("cron.run");
    assert(name_mark("cron.run"@) == 2266);
    reveal_strlit("sessions.patch");
    assert(name_mark("sessions.patch"@) == 3279);
    reveal_strlit("sessions.reset");
    assert(name_mark("sessions.reset"@) == 3341);
    reveal_strlit("sessions.delete");
    assert(name_mark("sessions.delete"@) == 3377);
    reveal_strlit("sessions.compact");
    assert(name_mark("sessions.compact"@) == 3422);
    reveal_strlit("connect");
    assert(name_mark("connect"@) == 3275);
    reveal_strlit("set-heartbeats");
    assert(name_mark("set-heartbeats"@) == 3233);
    reveal_strlit("system-event");
    assert(name_mark("system-event"@) == 3544);
    reveal_strlit("agents.files.set");
    assert(name_mark("agents.files.set"@) == 2264);
    reveal_strlit("node.invoke.result");
    assert(name_mark("node.invoke.result"@) == 3555);
    reveal_strlit("node.event");
    assert(name_mark("node.event"@) == 3502);
    reveal_strlit("skills.bins");
    assert(name_mark("skills.bins"@) == 3227);
    reveal_strlit("health");
    assert(name_mark("health"@) == 3135);
    let names = seq![
        "config.set"@,
        "config.apply"@,
        "config.patch"@,
        "config.schema"@,
        "exec.approvals.get"@,
        "exec.approvals.set"@,
        "exec.approvals.node.get"@,
        "exec.approvals.node.set"@,
        "wizard.start"@,
        "wizard.next"@,
        "wizard.cancel"@,
        "wizard.status"@,
        "update.run"@,
    ];
    let at = choose|at: int| 0 <= at < names.len() && names[at] == method@;
    let mark = name_mark(method@);
    assert(mark == name_mark(names[at]));
    assert(!approvals_methods().contains(method@)) by {
        assert forall|i: int| 0 <= i < approvals_methods().len() implies #[trigger] approvals_methods()[i] != method@ by {
            assert(name_mark(approvals_methods()[i]) != mark);
        }
    }
    assert(!pairing_methods().contains(method@)) by {
        assert forall|i: int| 0 <= i < pairing_methods().len() implies #[trigger] pairing_methods()[i] != method@ by {
            assert(name_mark(pairing_methods()[i]) != mark);
        }
    }
    assert(!read_methods().contains(method@)) by {
        assert forall|i: int| 0 <= i < read_methods().len() implies #[trigger] read_methods()[i] != method@ by {
            assert(name_mark(read_methods()[i]) != mark);
        }
    }
    assert(!write_methods().contains(method@)) by {
        assert forall|i: int| 0 <= i < write_methods().len() implies #[trigger] write_methods()[i] != method@ by {
            assert(name_mark(write_methods()[i]) != mark);
        }
    }
    assert(!node_role_methods().contains(method@)) by {
        assert forall|i: int| 0 <= i < node_role_methods().len() implies #[trigger] node_role_methods()[i] != method@ by {
            assert(name_mark(node_role_methods()[i]) != mark);
        }
    }
}

/// An operator with the administrator's scope may call every method but those of nodes.
pub proof fn law_admin_may_call(scopes: Seq<Seq<char>>, method: Seq<char>)
    requires
        scopes.contains(ADMIN_SCOPE@),
        !node_role_methods().contains(method),
    ensures
        refusal("operator"@, scopes, method) is None,
{
}

/// A node may call the methods of nodes and ask for health, and nothing else, whatever its scopes.
pub proof fn law_node_is_restricted(scopes: Seq<Seq<char>>, method: Seq<char>)
    ensures
        refusal("node"@, scopes, method) is None <==> node_role_methods().contains(method)
            || method == "health"@,
{
    reveal_strlit("operator");
    reveal_strlit("node");
    assert("operator"@.len() != "node"@.len());
}

/// A role that is neither operator nor node may ask for health and nothing else.
pub proof fn law_other_roles_are_refused(role: Seq<char>, scopes: Seq<Seq<char>>, method: Seq<char>)
    requires
        role != "operator"@,
        role != "node"@,
    ensures
        refusal(role, scopes, method) is None <==> method == "health"@,
{
}

/// More scopes never take a right away.
pub proof fn law_scopes_only_add(
    role: Seq<char>,
    fewer: Seq<Seq<char>>,
    more: Seq<Seq<char>>,
    method: Seq<char>,
)
    requires
        forall|s: Seq<char>| #[trigger] fewer.contains(s) ==> more.contains(s),
        refusal(role, fewer, method) is None,
    ensures
        refusal(role, more, method) is None,
{
}

/// Who may write may read.
pub proof fn law_write_allows_read(scopes: Seq<Seq<char>>, method: Seq<char>)
    requires
        scopes.contains(WRITE_SCOPE@),
        needed_scope(method) == READ_SCOPE@,
        !node_role_methods().contains(method),
    ensures
        refusal("operator"@, scopes, method) is None,
{
}

} // verus!
