//! Which handler answers a request, and what is answered where none does.
use crate::domain::error::DomainError;
use crate::json::{no_fields, object, text, text_array, texts_json, with, Json, JsonModel};
use crate::protocol::errors::{
    invalid, invalid_request, plain_error, unavailable, ErrorModel, ErrorShape, ERROR_NOT_PAIRED,
    ERROR_UNAVAILABLE,
};
use crate::protocol::frames::ResponseFrame;
use crate::protocol::{response_error, response_ok};
use crate::rpc::methods::{answered_methods, base_methods, implemented_methods, is_known_method};
use crate::text::{cat, cat3, same};
use vstd::prelude::*;

verus! {

broadcast use vstd::seq::group_seq_axioms;

/// The handler of a method.
#[derive(Clone, Copy, PartialEq, Eq, Debug, Structural)]
pub enum Route {
    Health,
    Status,
    ConfigGet,
    ConfigSet,
    ConfigApply,
    ConfigPatch,
    ConfigSchema,
    SessionsList,
    SessionsPreview,
    SessionsPatch,
    SessionsReset,
    SessionsDelete,
    SessionsCompact,
    Agent,
    AgentIdentityGet,
    AgentWait,
    ChatHistory,
    ChatAbort,
    ChatSend,
    CronList,
    CronStatus,
    CronAdd,
    CronUpdate,
    CronRemove,
    CronRun,
    CronRuns,
    NodePairRequest,
    NodePairList,
    NodePairApprove,
    NodePairReject,
    NodePairVerify,
    NodeRename,
    NodeList,
    NodeDescribe,
    NodeInvoke,
    NodeInvokeResult,
    NodeEvent,
}

impl Route {
    /// The method that the handler answers.
    pub open spec fn method(&self) -> Seq<char> {
        match self {
            Route::Health => "health"@,
            Route::Status => "status"@,
            Route::ConfigGet => "config.get"@,
            Route::ConfigSet => "config.set"@,
            Route::ConfigApply => "config.apply"@,
            Route::ConfigPatch => "config.patch"@,
            Route::ConfigSchema => "config.schema"@,
            Route::SessionsList => "sessions.list"@,
            Route::SessionsPreview => "sessions.preview"@,
            Route::SessionsPatch => "sessions.patch"@,
            Route::SessionsReset => "sessions.reset"@,
            Route::SessionsDelete => "sessions.delete"@,
            Route::SessionsCompact => "sessions.compact"@,
            Route::Agent => "agent"@,
            Route::AgentIdentityGet => "agent.identity.get"@,
            Route::AgentWait => "agent.wait"@,
            Route::ChatHistory => "chat.history"@,
            Route::ChatAbort => "chat.abort"@,
            Route::ChatSend => "chat.send"@,
            Route::CronList => "cron.list"@,
            Route::CronStatus => "cron.status"@,
            Route::CronAdd => "cron.add"@,
            Route::CronUpdate => "cron.update"@,
            Route::CronRemove => "cron.remove"@,
            Route::CronRun => "cron.run"@,
            Route::CronRuns => "cron.runs"@,
            Route::NodePairRequest => "node.pair.request"@,
            Route::NodePairList => "node.pair.list"@,
            Route::NodePairApprove => "node.pair.approve"@,
            Route::NodePairReject => "node.pair.reject"@,
            Route::NodePairVerify => "node.pair.verify"@,
            Route::NodeRename => "node.rename"@,
            Route::NodeList => "node.list"@,
            Route::NodeDescribe => "node.describe"@,
            Route::NodeInvoke => "node.invoke"@,
            Route::NodeInvokeResult => "node.invoke.result"@,
            Route::NodeEvent => "node.event"@,
        }
    }
}

/// The handler of a method that the gateway answers.
fn route_of(method: &str) -> (r: Option<Route>)
    ensures
        match r {
            Some(route) => route.method() == method@ && answered_methods().contains(method@),
            None => !answered_methods().contains(method@),
        },
{
    proof {
        assert(answered_methods()[0] == "health"@);
        assert(answered_methods()[1] == "status"@);
        assert(answered_methods()[2] == "config.get"@);
        assert(answered_methods()[3] == "config.set"@);
        assert(answered_methods()[4] == "config.apply"@);
        assert(answered_methods()[5] == "config.patch"@);
        assert(answered_methods()[6] == "config.schema"@);
        assert(answered_methods()[7] == "sessions.list"@);
        assert(answered_methods()[8] == "sessions.preview"@);
        assert(answered_methods()[9] == "sessions.patch"@);
        assert(answered_methods()[10] == "sessions.reset"@);
        assert(answered_methods()[11] == "sessions.delete"@);
        assert(answered_methods()[12] == "sessions.compact"@);
        assert(answered_methods()[13] == "agent"@);
        assert(answered_methods()[14] == "agent.identity.get"@);
        assert(answered_methods()[15] == "agent.wait"@);
        assert(answered_methods()[16] == "chat.history"@);
        assert(answered_methods()[17] == "chat.abort"@);
        assert(answered_methods()[18] == "chat.send"@);
        assert(answered_methods()[19] == "cron.list"@);
        assert(answered_methods()[20] == "cron.status"@);
        assert(answered_methods()[21] == "cron.add"@);
        assert(answered_methods()[22] == "cron.update"@);
        assert(answered_methods()[23] == "cron.remove"@);
        assert(answered_methods()[24] == "cron.run"@);
        assert(answered_methods()[25] == "cron.runs"@);
        assert(answered_methods()[26] == "node.pair.request"@);
        assert(answered_methods()[27] == "node.pair.list"@);
        assert(answered_methods()[28] == "node.pair.approve"@);
        assert(answered_methods()[29] == "node.pair.reject"@);
        assert(answered_methods()[30] == "node.pair.verify"@);
        assert(answered_methods()[31] == "node.rename"@);
        assert(answered_methods()[32] == "node.list"@);
        assert(answered_methods()[33] == "node.describe"@);
        assert(answered_methods()[34] == "node.invoke"@);
        assert(answered_methods()[35] == "node.invoke.result"@);
        assert(answered_methods()[36] == "node.event"@);
    }
    if same(method, "health") {
        return Some(Route::Health);
    }
    if same(method, "status") {
        return Some(Route::Status);
    }
    if same(method, "config.get") {
        return Some(Route::ConfigGet);
    }
    if same(method, "config.set") {
        return Some(Route::ConfigSet);
    }
    if same(method, "config.apply") {
        return Some(Route::ConfigApply);
    }
    if same(method, "config.patch") {
        return Some(Route::ConfigPatch);
    }
    if same(method, "config.schema") {
        return Some(Route::ConfigSchema);
    }
    if same(method, "sessions.list") {
        return Some(Route::SessionsList);
    }
    if same(method, "sessions.preview") {
        return Some(Route::SessionsPreview);
    }
    if same(method, "sessions.patch") {
        return Some(Route::SessionsPatch);
    }
    if same(method, "sessions.reset") {
        return Some(Route::SessionsReset);
    }
    if same(method, "sessions.delete") {
        return Some(Route::SessionsDelete);
    }
    if same(method, "sessions.compact") {
        return Some(Route::SessionsCompact);
    }
    if same(method, "agent") {
        return Some(Route::Agent);
    }
    if same(method, "agent.identity.get") {
        return Some(Route::AgentIdentityGet);
    }
    if same(method, "agent.wait") {
        return Some(Route::AgentWait);
    }
    if same(method, "chat.history") {
        return Some(Route::ChatHistory);
    }
    if same(method, "chat.abort") {
        return Some(Route::ChatAbort);
    }
    if same(method, "chat.send") {
        return Some(Route::ChatSend);
    }
    if same(method, "cron.list") {
        return Some(Route::CronList);
    }
    if same(method, "cron.status") {
        return Some(Route::CronStatus);
    }
    if same(method, "cron.add") {
        return Some(Route::CronAdd);
    }
    if same(method, "cron.update") {
        return Some(Route::CronUpdate);
    }
    if same(method, "cron.remove") {
        return Some(Route::CronRemove);
    }
    if same(method, "cron.run") {
        return Some(Route::CronRun);
    }
    if same(method, "cron.runs") {
        return Some(Route::CronRuns);
    }
    if same(method, "node.pair.request") {
        return Some(Route::NodePairRequest);
    }
    if same(method, "node.pair.list") {
        return Some(Route::NodePairList);
    }
    if same(method, "node.pair.approve") {
        return Some(Route::NodePairApprove);
    }
    if same(method, "node.pair.reject") {
        return Some(Route::NodePairReject);
    }
    if same(method, "node.pair.verify") {
        return Some(Route::NodePairVerify);
    }
    if same(method, "node.rename") {
        return Some(Route::NodeRename);
    }
    if same(method, "node.list") {
        return Some(Route::NodeList);
    }
    if same(method, "node.describe") {
        return Some(Route::NodeDescribe);
    }
    if same(method, "node.invoke") {
        return Some(Route::NodeInvoke);
    }
    if same(method, "node.invoke.result") {
        return Some(Route::NodeInvokeResult);
    }
    if same(method, "node.event") {
        return Some(Route::NodeEvent);
    }
    proof {
        assert forall|i: int| 0 <= i < answered_methods().len() implies answered_methods()[i]
            != method@ by {
        }
    }
    None
}

/// What is answered to a method that has no handler.
pub open spec fn unanswered(method: Seq<char>) -> ErrorModel {
    if base_methods().contains(method) {
        ErrorModel {
            details: Some(
                JsonModel::Object(
                    no_fields().insert("method"@, JsonModel::Text(method)).insert(
                        "implemented"@,
                        text_array(answered_methods()),
                    ),
                ),
            ),
            retryable: Some(true),
            retry_after_ms: Some(1_000),
            ..unavailable("method \""@ + method + "\" is recognized but not implemented yet"@)
        }
    } else {
        invalid("unknown method: "@ + method)
    }
}

/// The handler of a request, or the error that answers it.
pub fn dispatch_request(method: &str) -> (r: Result<Route, ErrorShape>)
    ensures
        if method@ == "connect"@ {
            r is Err && r->Err_0@ == invalid(
                "connect can only be used as the first handshake request"@,
            )
        } else if answered_methods().contains(method@) {
            r is Ok && r->Ok_0.method() == method@
        } else {
            r is Err && r->Err_0@ == unanswered(method@)
        },
{
    if same(method, "connect") {
        return Err(invalid_request("connect can only be used as the first handshake request"));
    }
    if let Some(route) = route_of(method) {
        return Ok(route);
    }
    if is_known_method(method) {
        let message = cat3("method \"", method, "\" is recognized but not implemented yet");
        let details = with(
            with(object(), "method", text(method)),
            "implemented",
            texts_json(&implemented_methods()),
        );
        return Err(
            ErrorShape::new(ERROR_UNAVAILABLE, message.as_str()).with_details(
                Json::Object(details),
            ).with_retry(1_000),
        );
    }
    Err(invalid_request(cat("unknown method: ", method).as_str()))
}

/// The reply to a request from what its handler returned.
pub fn reply(id: &str, result: Result<Json, ErrorShape>) -> (r: ResponseFrame)
    ensures
        match result {
            Ok(payload) => r.carries(id@, payload@),
            Err(error) => r.fails(id@, error@),
        },
{
    match result {
        Ok(payload) => response_ok(id, payload),
        Err(error) => response_error(id, error),
    }
}

/// The error of a reply for what went wrong in the gateway.
pub open spec fn domain_error_model(error: DomainError) -> ErrorModel {
    match error {
        DomainError::InvalidRequest(m) => invalid(m@),
        DomainError::NotFound(m) => invalid(m@),
        DomainError::NotPaired(m) => plain_error(ERROR_NOT_PAIRED@, m@),
        DomainError::Unauthorized(m) => unavailable(m@),
        DomainError::Unavailable(m) => unavailable(m@),
        DomainError::Storage(m) => unavailable(m@),
    }
}

/// The error of a reply for what went wrong in the gateway.
pub fn map_domain_error(error: DomainError) -> (r: ErrorShape)
    ensures
        r@ == domain_error_model(error),
{
    match error {
        DomainError::InvalidRequest(m) => invalid_request(m.as_str()),
        DomainError::NotFound(m) => invalid_request(m.as_str()),
        DomainError::NotPaired(m) => ErrorShape::new(ERROR_NOT_PAIRED, m.as_str()),
        DomainError::Unauthorized(m) => ErrorShape::new(ERROR_UNAVAILABLE, m.as_str()),
        DomainError::Unavailable(m) => ErrorShape::new(ERROR_UNAVAILABLE, m.as_str()),
        DomainError::Storage(m) => ErrorShape::new(ERROR_UNAVAILABLE, m.as_str()),
    }
}

/// Every method that the gateway answers is handled by its own handler, and no other method is
/// handled. Connecting is no method of an open connection.
pub proof fn law_methods_are_handled(method: &str, r: Result<Route, ErrorShape>)
    requires
        call_ensures(dispatch_request, (method,), r),
    ensures
        r is Ok ==> match r->Ok_0 {
            Route::Health => method@ == "health"@,
            Route::Status => method@ == "status"@,
            Route::ConfigGet => method@ == "config.get"@,
            Route::ConfigSet => method@ == "config.set"@,
            Route::ConfigApply => method@ == "config.apply"@,
            Route::ConfigPatch => method@ == "config.patch"@,
            Route::ConfigSchema => method@ == "config.schema"@,
            Route::SessionsList => method@ == "sessions.list"@,
            Route::SessionsPreview => method@ == "sessions.preview"@,
            Route::SessionsPatch => method@ == "sessions.patch"@,
            Route::SessionsReset => method@ == "sessions.reset"@,
            Route::SessionsDelete => method@ == "sessions.delete"@,
            Route::SessionsCompact => method@ == "sessions.compact"@,
            Route::Agent => method@ == "agent"@,
            Route::AgentIdentityGet => method@ == "agent.identity.get"@,
            Route::AgentWait => method@ == "agent.wait"@,
            Route::ChatHistory => method@ == "chat.history"@,
            Route::ChatAbort => method@ == "chat.abort"@,
            Route::ChatSend => method@ == "chat.send"@,
            Route::CronList => method@ == "cron.list"@,
            Route::CronStatus => method@ == "cron.status"@,
            Route::CronAdd => method@ == "cron.add"@,
            Route::CronUpdate => method@ == "cron.update"@,
            Route::CronRemove => method@ == "cron.remove"@,
            Route::CronRun => method@ == "cron.run"@,
            Route::CronRuns => method@ == "cron.runs"@,
            Route::NodePairRequest => method@ == "node.pair.request"@,
            Route::NodePairList => method@ == "node.pair.list"@,
            Route::NodePairApprove => method@ == "node.pair.approve"@,
            Route::NodePairReject => method@ == "node.pair.reject"@,
            Route::NodePairVerify => method@ == "node.pair.verify"@,
            Route::NodeRename => method@ == "node.rename"@,
            Route::NodeList => method@ == "node.list"@,
            Route::NodeDescribe => method@ == "node.describe"@,
            Route::NodeInvoke => method@ == "node.invoke"@,
            Route::NodeInvokeResult => method@ == "node.invoke.result"@,
            Route::NodeEvent => method@ == "node.event"@,
        },
        (method@ == "health"@
            || method@ == "status"@
            || method@ == "config.get"@
            || method@ == "config.set"@
            || method@ == "config.apply"@
            || method@ == "config.patch"@
            || method@ == "config.schema"@
            || method@ == "sessions.list"@
            || method@ == "sessions.preview"@
            || method@ == "sessions.patch"@
            || method@ == "sessions.reset"@
            || method@ == "sessions.delete"@
            || method@ == "sessions.compact"@
            || method@ == "agent"@
            || method@ == "agent.identity.get"@
            || method@ == "agent.wait"@
            || method@ == "chat.history"@
            || method@ == "chat.abort"@
            || method@ == "chat.send"@
            || method@ == "cron.list"@
            || method@ == "cron.status"@
            || method@ == "cron.add"@
            || method@ == "cron.update"@
            || method@ == "cron.remove"@
            || method@ == "cron.run"@
            || method@ == "cron.runs"@
            || method@ == "node.pair.request"@
            || method@ == "node.pair.list"@
            || method@ == "node.pair.approve"@
            || method@ == "node.pair.reject"@
            || method@ == "node.pair.verify"@
            || method@ == "node.rename"@
            || method@ == "node.list"@
            || method@ == "node.describe"@
            || method@ == "node.invoke"@
            || method@ == "node.invoke.result"@
            || method@ == "node.event"@)
            <==> r is Ok,
        method@ == "connect"@ ==> r is Err,
        r is Err ==> r->Err_0.code@ == "INVALID_REQUEST"@ || r->Err_0.code@ == "UNAVAILABLE"@,
{
    assert(answered_methods()[0] == "health"@);
    assert(answered_methods()[1] == "status"@);
    assert(answered_methods()[2] == "config.get"@);
    assert(answered_methods()[3] == "config.set"@);
    assert(answered_methods()[4] == "config.apply"@);
    assert(answered_methods()[5] == "config.patch"@);
    assert(answered_methods()[6] == "config.schema"@);
    assert(answered_methods()[7] == "sessions.list"@);
    assert(answered_methods()[8] == "sessions.preview"@);
    assert(answered_methods()[9] == "sessions.patch"@);
    assert(answered_methods()[10] == "sessions.reset"@);
    assert(answered_methods()[11] == "sessions.delete"@);
    assert(answered_methods()[12] == "sessions.compact"@);
    assert(answered_methods()[13] == "agent"@);
    assert(answered_methods()[14] == "agent.identity.get"@);
    assert(answered_methods()[15] == "agent.wait"@);
    assert(answered_methods()[16] == "chat.history"@);
    assert(answered_methods()[17] == "chat.abort"@);
    assert(answered_methods()[18] == "chat.send"@);
    assert(answered_methods()[19] == "cron.list"@);
    assert(answered_methods()[20] == "cron.status"@);
    assert(answered_methods()[21] == "cron.add"@);
    assert(answered_methods()[22] == "cron.update"@);
    assert(answered_methods()[23] == "cron.remove"@);
    assert(answered_methods()[24] == "cron.run"@);
    assert(answered_methods()[25] == "cron.runs"@);
    assert(answered_methods()[26] == "node.pair.request"@);
    assert(answered_methods()[27] == "node.pair.list"@);
    assert(answered_methods()[28] == "node.pair.approve"@);
    assert(answered_methods()[29] == "node.pair.reject"@);
    assert(answered_methods()[30] == "node.pair.verify"@);
    assert(answered_methods()[31] == "node.rename"@);
    assert(answered_methods()[32] == "node.list"@);
    assert(answered_methods()[33] == "node.describe"@);
    assert(answered_methods()[34] == "node.invoke"@);
    assert(answered_methods()[35] == "node.invoke.result"@);
    assert(answered_methods()[36] == "node.event"@);
    reveal_strlit("connect");
    lemma_no_method_is_connect();
}

proof fn lemma_no_method_is_connect()
    ensures
        !answered_methods().contains("connect"@),
{
    reveal_strlit("connect");
    reveal_strlit("health");
    reveal_strlit("status");
    reveal_strlit("config.get");
    reveal_strlit("config.set");
    reveal_strlit("config.apply");
    reveal_strlit("config.patch");
    reveal_strlit("config.schema");
    reveal_strlit("sessions.list");
    reveal_strlit("sessions.preview");
    reveal_strlit("sessions.patch");
    reveal_strlit("sessions.reset");
    reveal_strlit("sessions.delete");
    reveal_strlit("sessions.compact");
    reveal_strlit("agent");
    reveal_strlit("agent.identity.get");
    reveal_strlit("agent.wait");
    reveal_strlit("chat.history");
    reveal_strlit("chat.abort");
    reveal_strlit("chat.send");
    reveal_strlit("cron.list");
    reveal_strlit("cron.status");
    reveal_strlit("cron.add");
    reveal_strlit("cron.update");
    reveal_strlit("cron.remove");
    reveal_strlit("cron.run");
    reveal_strlit("cron.runs");
    reveal_strlit("node.pair.request");
    reveal_strlit("node.pair.list");
    reveal_strlit("node.pair.approve");
    reveal_strlit("node.pair.reject");
    reveal_strlit("node.pair.verify");
    reveal_strlit("node.rename");
    reveal_strlit("node.list");
    reveal_strlit("node.describe");
    reveal_strlit("node.invoke");
    reveal_strlit("node.invoke.result");
    reveal_strlit("node.event");
    assert forall|i: int| 0 <= i < 37 implies answered_methods()[i] != "connect"@ by {
        assert("health"@.len() != 7);
        assert("status"@.len() != 7);
        assert("config.get"@.len() != 7);
        assert("config.set"@.len() != 7);
        assert("config.apply"@.len() != 7);
        assert("config.patch"@.len() != 7);
        assert("config.schema"@.len() != 7);
        assert("sessions.list"@.len() != 7);
        assert("sessions.preview"@.len() != 7);
        assert("sessions.patch"@.len() != 7);
        assert("sessions.reset"@.len() != 7);
        assert("sessions.delete"@.len() != 7);
        assert("sessions.compact"@.len() != 7);
        assert("agent"@.len() != 7);
        assert("agent.identity.get"@.len() != 7);
        assert("agent.wait"@.len() != 7);
        assert("chat.history"@.len() != 7);
        assert("chat.abort"@.len() != 7);
        assert("chat.send"@.len() != 7);
        assert("cron.list"@.len() != 7);
        assert("cron.status"@.len() != 7);
        assert("cron.add"@.len() != 7);
        assert("cron.update"@.len() != 7);
        assert("cron.remove"@.len() != 7);
        assert("cron.run"@.len() != 7);
        assert("cron.runs"@.len() != 7);
        assert("node.pair.request"@.len() != 7);
        assert("node.pair.list"@.len() != 7);
        assert("node.pair.approve"@.len() != 7);
        assert("node.pair.reject"@.len() != 7);
        assert("node.pair.verify"@.len() != 7);
        assert("node.rename"@.len() != 7);
        assert("node.list"@.len() != 7);
        assert("node.describe"@.len() != 7);
        assert("node.invoke"@.len() != 7);
        assert("node.invoke.result"@.len() != 7);
        assert("node.event"@.len() != 7);
    }
}

/// A failure is told in its own words: what was asked wrongly or was not found is the request's
/// fault, a missing pairing is told as such, and everything else is the gateway's.
pub proof fn law_failures_are_told(error: DomainError, r: ErrorShape)
    requires
        call_ensures(map_domain_error, (error,), r),
    ensures
        r.code@ == (match error {
            DomainError::InvalidRequest(_) | DomainError::NotFound(_) => "INVALID_REQUEST"@,
            DomainError::NotPaired(_) => "NOT_PAIRED"@,
            DomainError::Unauthorized(_) | DomainError::Unavailable(_) | DomainError::Storage(
                _,
            ) => "UNAVAILABLE"@,
        }),
        r.message@ == (match error {
            DomainError::InvalidRequest(m) => m@,
            DomainError::NotFound(m) => m@,
            DomainError::NotPaired(m) => m@,
            DomainError::Unauthorized(m) => m@,
            DomainError::Unavailable(m) => m@,
            DomainError::Storage(m) => m@,
        }),
{
}

/// The answer to a request bears its id, and is well exactly where there is a result.
pub proof fn law_answers_bear_the_id(id: &str, result: Result<Json, ErrorShape>, r: ResponseFrame)
    requires
        call_ensures(reply, (id, result), r),
    ensures
        r.frame_type@ == "res"@,
        r.id@ == id@,
        r.ok == (result is Ok),
        result is Ok ==> r.payload is Some && r.payload->0@ == result->Ok_0@ && r.error is None,
        result is Err ==> r.payload is None && r.error is Some && r.error->0@ == result->Err_0@,
{
}

} // verus!
