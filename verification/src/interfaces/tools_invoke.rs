//! The endpoint that calls a method of the gateway as a tool.
use crate::application::config::AuthMode;
use crate::interfaces::channel_adapter_common::{error_status, status_of, HttpReply};
use crate::interfaces::channels::{http_session, is_http_session};
use crate::interfaces::compat::{authorize_gateway_http, bearer_outcome, header_text};
use crate::interfaces::openai::failure_text;
use crate::json::{bool_or_null, copy_opt, member, no_fields, number_or_null, object, opt_bool_json, opt_json, opt_model, opt_number_json, set_field, text, text_of, value_or_null, Json, JsonModel};
use crate::protocol::errors::{ErrorModel, ERROR_INVALID_REQUEST, ERROR_UNAVAILABLE};
use crate::protocol::frames::{opt_error, RequestFrame, ResponseFrame};
use crate::rpc::SessionContext;
use crate::interfaces::discord::{lemma_said, said, says};
use crate::security::auth::{auth_failure_error, AuthFailureReason};
use crate::text::{
    cat, first_of, kept_opt, lemma_kept, not_blank, opt_text, same, text_or, trim, trim_non_empty_opt, trimmed,
};
use vstd::prelude::*;

verus! {

/// A call of a tool.
pub struct ToolsInvokeRequest {
    pub tool: String,
    pub action: Option<String>,
    pub args: Option<Json>,
    pub session_key: Option<String>,
}

/// What is wrong with a body: it is no JSON, or no call, in the words of who read it.
pub enum BadCall {
    NotJson,
    NotCall(String),
}

/// The request that a call becomes.
pub struct InvokePlan {
    pub request: RequestFrame,
    pub session: SessionContext,
}

/// The body of a refusal.
pub open spec fn invoke_error_body(kind: Seq<char>, code: Seq<char>, message: Seq<char>) -> JsonModel {
    JsonModel::Object(
        no_fields().insert("ok"@, JsonModel::Bool(false)).insert(
            "error"@,
            JsonModel::Object(
                no_fields().insert("type"@, JsonModel::Text(kind)).insert(
                    "code"@,
                    JsonModel::Text(code),
                ).insert("message"@, JsonModel::Text(message)),
            ),
        ),
    )
}

/// A refusal.
pub fn invoke_error(status: u16, kind: &str, code: &str, message: &str) -> (r: HttpReply)
    ensures
        r.says(status, invoke_error_body(kind@, code@, message@)),
{
    let mut error = object();
    set_field(&mut error, "type", text(kind));
    set_field(&mut error, "code", text(code));
    set_field(&mut error, "message", text(message));
    let mut body = object();
    set_field(&mut body, "ok", Json::Bool(false));
    set_field(&mut body, "error", Json::Object(error));
    HttpReply { status, body: Json::Object(body) }
}

/// The method that a call names: in its arguments, or as its action.
pub open spec fn called_method(call: ToolsInvokeRequest) -> Option<Seq<char>> {
    let args = match opt_model(call.args) {
        Some(args) => args,
        None => JsonModel::Object(no_fields()),
    };
    first_of(kept_opt(text_of(member(args, "method"@))), kept_opt(opt_text(call.action)))
}

/// Why a call is refused: the status, the sort of error, and the message.
pub open spec fn call_refusal(call: ToolsInvokeRequest) -> Option<(u16, Seq<char>, Seq<char>)> {
    let tool = trimmed(call.tool@);
    if tool.len() == 0 {
        Some((400, "invalid_request"@, "tools.invoke requires body.tool"@))
    } else if tool != "gateway.request"@ {
        Some((404, "not_found"@, "tool not available: "@ + tool))
    } else if opt_model(call.args) is Some && !(opt_model(call.args)->0 is Object) {
        Some(
            (400, "invalid_request"@, "tools.invoke gateway.request requires object args"@),
        )
    } else if called_method(call) is None {
        Some(
            (
                400,
                "invalid_request"@,
                "tools.invoke gateway.request requires args.method or action"@,
            ),
        )
    } else {
        None
    }
}

/// The request that a call becomes.
pub open spec fn is_invoke_plan(
    p: InvokePlan,
    call: ToolsInvokeRequest,
    request_id: Seq<char>,
    conn_id: Seq<char>,
) -> bool {
    &&& p.request.frame_type@ == "req"@
    &&& p.request.id@ == "tools-invoke-"@ + request_id
    &&& Some(p.request.method@) == called_method(call)
    &&& opt_model(p.request.params) == match opt_model(call.args) {
        Some(args) => member(args, "params"@),
        None => None,
    }
    &&& is_http_session(
        p.session,
        "http-tools-invoke-"@ + conn_id,
        "tools-invoke:"@ + text_or(kept_opt(opt_text(call.session_key)), "agent:main:main"@),
        "tools-invoke-http"@,
    )
}

/// The request that a call becomes, or the answer where it becomes none.
pub fn invoke_handler(
    mode: &AuthMode,
    authorization: Option<&str>,
    body: Result<ToolsInvokeRequest, BadCall>,
    request_id: &str,
    conn_id: &str,
) -> (r: Result<InvokePlan, HttpReply>)
    ensures
        match bearer_outcome(*mode, header_text(authorization)) {
            Err(reason) => r is Err && r->Err_0.says(
                401,
                invoke_error_body(
                    "authentication_error"@,
                    ERROR_INVALID_REQUEST@,
                    failure_text(reason),
                ),
            ),
            Ok(_) => match body {
                Err(BadCall::NotJson) => r is Err && r->Err_0.says(
                    400,
                    invoke_error_body(
                        "invalid_request"@,
                        ERROR_INVALID_REQUEST@,
                        "invalid JSON body"@,
                    ),
                ),
                Err(BadCall::NotCall(error)) => r is Err && r->Err_0.says(
                    400,
                    invoke_error_body(
                        "invalid_request"@,
                        ERROR_INVALID_REQUEST@,
                        "invalid tools.invoke body: "@ + error@,
                    ),
                ),
                Ok(call) => match call_refusal(call) {
                    Some((status, kind, message)) => r is Err && r->Err_0.says(
                        status,
                        invoke_error_body(kind, ERROR_INVALID_REQUEST@, message),
                    ),
                    None => r is Ok && is_invoke_plan(r->Ok_0, call, request_id@, conn_id@),
                },
            },
        },
{
    if let Err(reason) = authorize_gateway_http(mode, authorization) {
        let message = auth_failure_error(reason).message;
        return Err(
            invoke_error(401, "authentication_error", ERROR_INVALID_REQUEST, message.as_str()),
        );
    }
    let call = match body {
        Ok(call) => call,
        Err(BadCall::NotJson) => {
            return Err(
                invoke_error(400, "invalid_request", ERROR_INVALID_REQUEST, "invalid JSON body"),
            );
        },
        Err(BadCall::NotCall(error)) => {
            let message = cat("invalid tools.invoke body: ", error.as_str());
            return Err(
                invoke_error(400, "invalid_request", ERROR_INVALID_REQUEST, message.as_str()),
            );
        },
    };
    let tool = trim(call.tool.as_str());
    if tool.as_str().is_empty() {
        return Err(
            invoke_error(
                400,
                "invalid_request",
                ERROR_INVALID_REQUEST,
                "tools.invoke requires body.tool",
            ),
        );
    }
    if !same(tool.as_str(), "gateway.request") {
        let message = cat("tool not available: ", tool.as_str());
        return Err(invoke_error(404, "not_found", ERROR_INVALID_REQUEST, message.as_str()));
    }
    if let Some(args) = &call.args {
        if !args.is_object() {
            return Err(
                invoke_error(
                    400,
                    "invalid_request",
                    ERROR_INVALID_REQUEST,
                    "tools.invoke gateway.request requires object args",
                ),
            );
        }
    }
    let named = match &call.args {
        Some(args) => trim_non_empty_opt(&args.get_text("method")),
        None => None,
    };
    let method = match named {
        Some(method) => method,
        None => match trim_non_empty_opt(&call.action) {
            Some(method) => method,
            None => {
                return Err(
                    invoke_error(
                        400,
                        "invalid_request",
                        ERROR_INVALID_REQUEST,
                        "tools.invoke gateway.request requires args.method or action",
                    ),
                );
            },
        },
    };
    let params = match &call.args {
        Some(args) => match args.get("params") {
            Some(params) => Some(params.copy()),
            None => None,
        },
        None => None,
    };
    let session_key = match trim_non_empty_opt(&call.session_key) {
        Some(key) => key,
        None => "agent:main:main".to_owned(),
    };
    let client = cat("tools-invoke:", session_key.as_str());
    let conn = cat("http-tools-invoke-", conn_id);
    Ok(
        InvokePlan {
            request: RequestFrame {
                frame_type: "req".to_owned(),
                id: cat("tools-invoke-", request_id),
                method,
                params,
            },
            session: http_session(conn.as_str(), client.as_str(), "tools-invoke-http"),
        },
    )
}

/// The sort of an error by its code.
pub open spec fn invoke_kind(code: Seq<char>) -> Seq<char> {
    if error_status(code) == 400 {
        "invalid_request"@
    } else {
        "api_error"@
    }
}

/// The body that carries the error of a reply.
pub open spec fn invoke_failure_body(error: ErrorModel) -> JsonModel {
    JsonModel::Object(
        no_fields().insert("ok"@, JsonModel::Bool(false)).insert(
            "error"@,
            JsonModel::Object(
                no_fields().insert("type"@, JsonModel::Text(invoke_kind(error.code))).insert(
                    "code"@,
                    JsonModel::Text(error.code),
                ).insert("message"@, JsonModel::Text(error.message)).insert(
                    "details"@,
                    value_or_null(error.details),
                ).insert("retryable"@, bool_or_null(error.retryable)).insert(
                    "retryAfterMs"@,
                    number_or_null(error.retry_after_ms),
                ),
            ),
        ),
    )
}

/// What a call is answered with, from the reply to the request that it became.
pub fn finish_invoke(response: &ResponseFrame) -> (r: HttpReply)
    ensures
        if response.ok {
            r.says(
                200,
                JsonModel::Object(
                    no_fields().insert("ok"@, JsonModel::Bool(true)).insert(
                        "result"@,
                        value_or_null(opt_model(response.payload)),
                    ),
                ),
            )
        } else {
            match opt_error(response.error) {
                None => r.says(
                    503,
                    invoke_error_body(
                        "api_error"@,
                        ERROR_UNAVAILABLE@,
                        "rpc request failed without error payload"@,
                    ),
                ),
                Some(error) => r.says(error_status(error.code), invoke_failure_body(error)),
            }
        },
{
    if response.ok {
        let mut body = object();
        set_field(&mut body, "ok", Json::Bool(true));
        set_field(&mut body, "result", opt_json(copy_opt(&response.payload)));
        return HttpReply { status: 200, body: Json::Object(body) };
    }
    let error = match &response.error {
        Some(error) => error,
        None => {
            return invoke_error(
                503,
                "api_error",
                ERROR_UNAVAILABLE,
                "rpc request failed without error payload",
            );
        },
    };
    let status: u16 = status_of(error);
    let kind = if status == 400 {
        "invalid_request"
    } else {
        "api_error"
    };
    let mut shape = object();
    set_field(&mut shape, "type", text(kind));
    set_field(&mut shape, "code", text(error.code.as_str()));
    set_field(&mut shape, "message", text(error.message.as_str()));
    set_field(&mut shape, "details", opt_json(copy_opt(&error.details)));
    set_field(&mut shape, "retryable", opt_bool_json(error.retryable));
    set_field(&mut shape, "retryAfterMs", opt_number_json(error.retry_after_ms));
    let mut body = object();
    set_field(&mut body, "ok", Json::Bool(false));
    set_field(&mut body, "error", Json::Object(shape));
    HttpReply { status, body: Json::Object(body) }
}

/// A call is carried out exactly where the caller shows the secret, the tool is the gateway's own
/// request, what it is given is an object and a method is named. It is refused with 401 where the
/// secret is wrong, 404 where the tool is another one and 400 where something is missing.
pub proof fn law_calls_that_are_carried_out(
    mode: &AuthMode,
    authorization: Option<&str>,
    call: ToolsInvokeRequest,
    request_id: &str,
    conn_id: &str,
    open: Result<(), AuthFailureReason>,
    r: Result<InvokePlan, HttpReply>,
)
    requires
        call_ensures(authorize_gateway_http, (mode, authorization), open),
        call_ensures(
            invoke_handler,
            (mode, authorization, Ok::<ToolsInvokeRequest, BadCall>(call), request_id, conn_id),
            r,
        ),
    ensures
        ({
            let tool = trimmed(call.tool@);
            let args = call.args->0@;
            let given = call.args is Some && says(args, "method"@);
            let acts = call.action is Some && not_blank(call.action->0@);
            &&& r is Ok <==> open is Ok && tool == "gateway.request"@ && (call.args is Some ==> args is Object)
                && (given || acts)
            &&& r is Err ==> r->Err_0.status == (if open is Err {
                401u16
            } else if not_blank(call.tool@) && tool != "gateway.request"@ {
                404u16
            } else {
                400u16
            })
            &&& r is Ok ==> {
                let request = r->Ok_0.request;
                let session = r->Ok_0.session;
                &&& request.method@ == (if given {
                    trimmed(said(args, "method"@))
                } else {
                    trimmed(call.action->0@)
                })
                &&& request.frame_type@ == "req"@
                &&& request.id@ == "tools-invoke-"@ + request_id@
                &&& call.args is Some ==> opt_model(request.params) == member(args, "params"@)
                &&& call.args is None ==> request.params is None
                &&& session.role@ == "operator"@
                &&& session.conn_id@ == "http-tools-invoke-"@ + conn_id@
                &&& session.client_id@ == "tools-invoke:"@ + (if call.session_key is Some && not_blank(
                    call.session_key->0@,
                ) {
                    trimmed(call.session_key->0@)
                } else {
                    "agent:main:main"@
                })
            }
        }),
{
    lemma_kept(call.tool@);
    reveal_strlit("gateway.request");
    if call.args is Some {
        lemma_said(call.args->0@, "method"@);
        if text_of(member(call.args->0@, "method"@)) is Some {
            lemma_kept(text_of(member(call.args->0@, "method"@))->0);
        }
    }
    if call.action is Some {
        lemma_kept(call.action->0@);
    }
    if call.session_key is Some {
        lemma_kept(call.session_key->0@);
    }
}

/// An answer that is well is handed on with 200, and one that is not with the error it holds: 400
/// where the request was at fault and 503 everywhere else.
pub proof fn law_answers_to_calls(response: &ResponseFrame, r: HttpReply)
    requires
        call_ensures(finish_invoke, (response,), r),
    ensures
        r.status == 200 <==> response.ok,
        member(r.body@, "ok"@) == Some(JsonModel::Bool(response.ok)),
        response.ok && response.payload is Some ==> member(r.body@, "result"@) == Some(
            response.payload->0@,
        ),
        !response.ok && response.error is Some ==> {
            let error = response.error->0;
            let told = member(r.body@, "error"@)->0;
            &&& r.status == (if error.code@ == "INVALID_REQUEST"@ {
                400u16
            } else {
                503u16
            })
            &&& member(told, "code"@) == Some(JsonModel::Text(error.code@))
            &&& member(told, "message"@) == Some(JsonModel::Text(error.message@))
        },
        !response.ok && response.error is None ==> r.status == 503,
{
    reveal_strlit("ok");
    reveal_strlit("error");
    reveal_strlit("result");
    reveal_strlit("code");
    reveal_strlit("message");
    reveal_strlit("type");
    reveal_strlit("details");
    reveal_strlit("retryable");
    reveal_strlit("retryAfterMs");
    assert("ok"@.len() != "error"@.len());
    assert("ok"@.len() != "result"@.len());
    assert("ok"@.len() != "code"@.len());
    assert("ok"@.len() != "message"@.len());
    assert("ok"@.len() != "type"@.len());
    assert("ok"@.len() != "details"@.len());
    assert("ok"@.len() != "retryable"@.len());
    assert("ok"@.len() != "retryAfterMs"@.len());
    assert("error"@.len() != "result"@.len());
    assert("error"@.len() != "code"@.len());
    assert("error"@.len() != "message"@.len());
    assert("error"@.len() != "type"@.len());
    assert("error"@.len() != "details"@.len());
    assert("error"@.len() != "retryable"@.len());
    assert("error"@.len() != "retryAfterMs"@.len());
    assert("result"@.len() != "code"@.len());
    assert("result"@.len() != "message"@.len());
    assert("result"@.len() != "type"@.len());
    assert("result"@.len() != "details"@.len());
    assert("result"@.len() != "retryable"@.len());
    assert("result"@.len() != "retryAfterMs"@.len());
    assert("code"@.len() != "message"@.len());
    assert("code"@[0] != "type"@[0]);
    assert("code"@.len() != "details"@.len());
    assert("code"@.len() != "retryable"@.len());
    assert("code"@.len() != "retryAfterMs"@.len());
    assert("message"@.len() != "type"@.len());
    assert("message"@[0] != "details"@[0]);
    assert("message"@.len() != "retryable"@.len());
    assert("message"@.len() != "retryAfterMs"@.len());
    assert("type"@.len() != "details"@.len());
    assert("type"@.len() != "retryable"@.len());
    assert("type"@.len() != "retryAfterMs"@.len());
    assert("details"@.len() != "retryable"@.len());
    assert("details"@.len() != "retryAfterMs"@.len());
    assert("retryable"@.len() != "retryAfterMs"@.len());
}

/// What is no JSON or no call is refused with 400, once the secret is shown.
pub proof fn law_what_is_no_call(
    mode: &AuthMode,
    authorization: Option<&str>,
    bad: BadCall,
    request_id: &str,
    conn_id: &str,
    open: Result<(), AuthFailureReason>,
    r: Result<InvokePlan, HttpReply>,
)
    requires
        call_ensures(authorize_gateway_http, (mode, authorization), open),
        call_ensures(
            invoke_handler,
            (mode, authorization, Err::<ToolsInvokeRequest, BadCall>(bad), request_id, conn_id),
            r,
        ),
    ensures
        r is Err,
        r->Err_0.status == (if open is Err {
            401u16
        } else {
            400u16
        }),
        crate::json::member(r->Err_0.body@, "error"@) is Some && crate::json::member(crate::json::member(r->Err_0.body@, "error"@)->0, "type"@) == Some(
            JsonModel::Text(
                if open is Err {
                    "authentication_error"@
                } else {
                    "invalid_request"@
                },
            ),
        ),
{
    reveal_strlit("ok");
    reveal_strlit("error");
    reveal_strlit("type");
    reveal_strlit("code");
    reveal_strlit("message");
    assert("ok"@.len() != "error"@.len());
    assert("ok"@.len() != "type"@.len());
    assert("ok"@.len() != "code"@.len());
    assert("ok"@.len() != "message"@.len());
    assert("error"@.len() != "type"@.len());
    assert("error"@.len() != "code"@.len());
    assert("error"@.len() != "message"@.len());
    assert("type"@[0] != "code"@[0]);
    assert("type"@.len() != "message"@.len());
    assert("code"@.len() != "message"@.len());
}

} // verus!
