//! The websocket: who is let in, and what its messages hold.
use crate::application::config::{AuthMode, RuntimeConfig};
use crate::application::state::{copy_text, copy_texts, sanitize_scopes, ConnectedClient};
use crate::domain::error::DomainError;
use crate::json::{json_read, member, no_fields, object, set_field, text_of, Json, JsonModel};
use crate::lists::{is_sorted_set, lemma_sorted_of};
use crate::protocol::errors::{
    invalid, invalid_request, unavailable, ErrorModel, ErrorShape, ERROR_UNAVAILABLE,
};
use crate::protocol::frames::{
    opt_error, ConnectAuth, ConnectParams, GatewayPolicy, HelloFeatures, HelloOk, HelloServer,
    RequestFrame, ResponseFrame, Snapshot,
};
use crate::protocol::{frame_refusal, parse_request_frame, response_error, PROTOCOL_VERSION};
use crate::rpc::methods::{base_methods, gateway_events, known_events, known_methods};
use crate::rpc::policy::{default_operator_scopes, operator_scopes};
use crate::rpc::SessionContext;
use crate::security::auth::{auth_failure_error, auth_outcome, authorize, AuthFailureReason};
use crate::security::rate_limit::{after_failure, cutoff, recent, AuthRateLimiter};
use crate::text::{cat, cat3, decimal, decimal_text, is_white_space, kept, kept_opt, lemma_kept, not_blank, opt_text, same, text_or, texts, trim_non_empty_opt};
use vstd::prelude::*;
use vstd::utf8::{decode_utf8, encode_utf8, valid_utf8};

verus! {

broadcast use vstd::seq::group_seq_axioms;

// ---------------------------------------------------------------------------------------------
// Messages
// ---------------------------------------------------------------------------------------------
/// A message of a websocket.
pub enum WsMessage {
    Text(String),
    Binary(Vec<u8>),
    Ping,
    Pong,
    Close,
}

/// `String::from_utf8`: the text that the bytes are the UTF-8 of, where they are one's.
#[verifier::external_body]
fn utf8_text(bytes: Vec<u8>) -> (r: Option<String>)
    ensures
        match r {
            Some(s) => valid_utf8(bytes@) && s@ == decode_utf8(bytes@),
            None => !valid_utf8(bytes@),
        },
{
    String::from_utf8(bytes).ok()
}

/// What is answered to a message that is too long.
pub open spec fn too_long(len: nat, max: nat) -> ErrorModel {
    invalid(
        "payload exceeds maxPayload ("@ + decimal(len) + " > "@ + decimal(max) + ")"@,
    )
}

fn too_long_error(len: usize, max: usize) -> (r: ErrorShape)
    ensures
        r@ == too_long(len as nat, max as nat),
{
    let head = cat3(
        "payload exceeds maxPayload (",
        decimal_text(len as u64).as_str(),
        " > ",
    );
    invalid_request(cat3(head.as_str(), decimal_text(max as u64).as_str(), ")").as_str())
}

/// The text of a message; nothing for one that carries none.
pub fn message_to_text(message: WsMessage, max_payload_bytes: usize) -> (r: Result<
    Option<String>,
    ErrorShape,
>)
    ensures
        match message {
            WsMessage::Text(s) => if encode_utf8(s@).len() > max_payload_bytes {
                r is Err && r->Err_0@ == too_long(
                    encode_utf8(s@).len(),
                    max_payload_bytes as nat,
                )
            } else {
                r is Ok && opt_text(r->Ok_0) == Some(s@)
            },
            WsMessage::Binary(bytes) => if bytes@.len() > max_payload_bytes {
                r is Err && r->Err_0@ == too_long(bytes@.len(), max_payload_bytes as nat)
            } else if valid_utf8(bytes@) {
                r is Ok && opt_text(r->Ok_0) == Some(decode_utf8(bytes@))
            } else {
                r is Err && r->Err_0@ == invalid("binary websocket frames must contain UTF-8"@)
            },
            _ => r is Ok && r->Ok_0 is None,
        },
{
    match message {
        WsMessage::Text(s) => {
            let n: usize = s.as_str().as_bytes().len();
            if n > max_payload_bytes {
                return Err(too_long_error(n, max_payload_bytes));
            }
            Ok(Some(s))
        },
        WsMessage::Binary(bytes) => {
            let n: usize = bytes.len();
            if n > max_payload_bytes {
                return Err(too_long_error(n, max_payload_bytes));
            }
            match utf8_text(bytes) {
                Some(s) => Ok(Some(s)),
                None => Err(invalid_request("binary websocket frames must contain UTF-8")),
            }
        },
        _ => Ok(None),
    }
}

/// The id of a frame, as far as its text can be read.
pub open spec fn frame_id(read: Option<JsonModel>) -> Option<Seq<char>> {
    match read {
        None => None,
        Some(value) => kept_opt(text_of(member(value, "id"@))),
    }
}

/// The id of a frame that was read.
pub fn frame_id_of(value: &Json) -> (r: Option<String>)
    ensures
        opt_text(r) == frame_id(Some(value@)),
{
    trim_non_empty_opt(&value.get_text("id"))
}

/// The id of a frame, as far as its text can be read.
pub fn extract_frame_id(frame: &str) -> (r: Option<String>)
    ensures
        opt_text(r) == frame_id(json_read(encode_utf8(frame@))),
{
    match Json::read(frame.as_bytes()) {
        Ok(value) => frame_id_of(&value),
        Err(_) => None,
    }
}

// ---------------------------------------------------------------------------------------------
// Handshake
// ---------------------------------------------------------------------------------------------
/// What came of waiting for a client's first message.
pub enum FirstMessage {
    /// Nothing in time.
    Timeout,
    /// No message could be had.
    Failed(ErrorShape),
    /// A text, and the frame that was read from it or what is wrong with it.
    Text(String, Result<RequestFrame, String>),
}

/// A client that is let in.
pub struct Admission {
    pub request_id: String,
    pub client: ConnectedClient,
    pub session: SessionContext,
}

/// The key under which the tries of a client are counted.
pub open spec fn auth_key_of(remote_ip: Option<Seq<char>>, client_id: Seq<char>) -> Seq<char> {
    text_or(remote_ip, "unknown"@) + ":"@ + client_id
}

/// The key under which the tries of a client are counted.
pub fn auth_key(remote_ip: &Option<String>, client_id: &str) -> (r: String)
    ensures
        r@ == auth_key_of(opt_text(*remote_ip), client_id@),
{
    match remote_ip {
        Some(ip) => cat3(ip.as_str(), ":", client_id),
        None => cat3("unknown", ":", client_id),
    }
}

/// The role that a client asks for.
pub open spec fn role_of(connect: ConnectParams) -> Seq<char> {
    text_or(opt_text(connect.role), "operator"@)
}

/// What a first message is refused with before anything is asked of the client, and the id of the
/// request that the refusal answers.
pub open spec fn first_refusal(first: FirstMessage) -> Option<(Seq<char>, ErrorModel)> {
    match first {
        FirstMessage::Timeout => Some(("connect"@, invalid("handshake timeout"@))),
        FirstMessage::Failed(error) => Some(("connect"@, error@)),
        FirstMessage::Text(frame, read) => {
            let id = text_or(frame_id(json_read(encode_utf8(frame@))), "connect"@);
            match read {
                Err(error) => Some((id, invalid("invalid request frame: "@ + error@))),
                Ok(request) => match frame_refusal(request) {
                    Some(message) => Some((id, invalid(message))),
                    None => if request.method@ != "connect"@ {
                        Some(
                            (
                                request.id@,
                                invalid("invalid handshake: first request must be connect"@),
                            ),
                        )
                    } else {
                        None
                    },
                },
            }
        },
    }
}

/// What a client is refused with before its secrets are looked at.
pub open spec fn connect_refusal(connect: Result<ConnectParams, String>) -> Option<ErrorModel> {
    match connect {
        Err(error) => Some(invalid("invalid connect params: "@ + error@)),
        Ok(params) => if params.max_protocol < PROTOCOL_VERSION || params.min_protocol
            > PROTOCOL_VERSION {
            Some(
                ErrorModel {
                    details: Some(
                        JsonModel::Object(
                            no_fields().insert(
                                "expectedProtocol"@,
                                JsonModel::Unsigned(PROTOCOL_VERSION as u64),
                            ),
                        ),
                    ),
                    ..invalid("protocol mismatch"@)
                },
            )
        } else if role_of(params) != "operator"@ && role_of(params) != "node"@ {
            Some(invalid("invalid role"@))
        } else {
            None
        },
    }
}

/// What a client that tried too often is refused with.
pub open spec fn locked_out() -> ErrorModel {
    ErrorModel {
        retryable: Some(true),
        retry_after_ms: Some(0),
        ..unavailable("unauthorized: too many failed attempts"@)
    }
}

/// What a client with a wrong secret is refused with, after it was counted.
pub open spec fn wrong_secret(reason: AuthFailureReason, locked: bool, window_ms: u64) -> ErrorModel {
    let plain = unavailable(
        match reason {
            AuthFailureReason::MissingCredentials => "unauthorized: missing credentials"@,
            AuthFailureReason::InvalidCredentials => "unauthorized: invalid credentials"@,
        },
    );
    if locked {
        ErrorModel { retryable: Some(true), retry_after_ms: Some(window_ms), ..plain }
    } else {
        plain
    }
}

/// The scopes that a client gets: those that it asks for, or an operator's where an operator asks
/// for none.
pub open spec fn scopes_granted(granted: Seq<Seq<char>>, role: Seq<char>, asked: Seq<Seq<char>>) -> bool {
    exists|clean: Seq<Seq<char>>| #[trigger]
        is_sorted_set(clean, asked) && granted == (if role == "operator"@ && clean.len() == 0 {
            operator_scopes()
        } else {
            clean
        })
}

/// A client is let in as it asked.
pub open spec fn admits(
    a: Admission,
    request_id: Seq<char>,
    params: ConnectParams,
    remote_ip: Option<Seq<char>>,
    conn_id: Seq<char>,
    now: u64,
) -> bool {
    &&& a.request_id@ == request_id
    &&& a.client.conn_id@ == conn_id
    &&& a.client.client_id@ == params.client.id@
    &&& opt_text(a.client.display_name) == opt_text(params.client.display_name)
    &&& a.client.client_version@ == params.client.version@
    &&& a.client.platform@ == params.client.platform@
    &&& opt_text(a.client.device_family) == opt_text(params.client.device_family)
    &&& opt_text(a.client.model_identifier) == opt_text(params.client.model_identifier)
    &&& a.client.mode@ == params.client.mode@
    &&& a.client.role@ == role_of(params)
    &&& scopes_granted(texts(a.client.scopes@), role_of(params), texts(params.scopes@))
    &&& opt_text(a.client.instance_id) == opt_text(params.client.instance_id)
    &&& opt_text(a.client.remote_ip) == remote_ip
    &&& a.client.connected_at_ms == now
    &&& a.session.conn_id@ == conn_id
    &&& a.session.role@ == role_of(params)
    &&& texts(a.session.scopes@) == texts(a.client.scopes@)
    &&& a.session.client_id@ == params.client.id@
    &&& a.session.client_mode@ == params.client.mode@
}

/// The client's id of parameters that were read.
pub open spec fn client_key(connect: Result<ConnectParams, String>, remote_ip: Option<Seq<char>>) -> Seq<
    char,
> {
    auth_key_of(remote_ip, connect->Ok_0.client.id@)
}

/// Whether a client is let in, from its first message, what it asks for, and how often it failed
/// before; and the refusal where it is not. Failures are counted, and forgotten on success.
#[verifier::rlimit(40)]
pub fn perform_handshake(
    first: FirstMessage,
    connect: Result<ConnectParams, String>,
    mode: &AuthMode,
    limiter: &mut AuthRateLimiter,
    remote_ip: Option<String>,
    conn_id: &str,
    now: u64,
) -> (r: Result<Admission, ResponseFrame>)
    ensures
        final(limiter).limit() == old(limiter).limit(),
        final(limiter).window() == old(limiter).window(),
        match first_refusal(first) {
            Some((id, error)) => r is Err && r->Err_0.fails(id, error) && *final(limiter) == *old(limiter),
            None => {
                let request = first->Text_1->Ok_0;
                match connect_refusal(connect) {
                    Some(error) => r is Err && r->Err_0.fails(request.id@, error) && *final(limiter) == *old(limiter),
                    None => {
                        let key = client_key(connect, opt_text(remote_ip));
                        let tried = recent(
                            old(limiter).stamps(key),
                            cutoff(now, old(limiter).window()),
                        );
                        let auth = match connect->Ok_0.auth {
                            Some(a) => Some(&a),
                            None => None,
                        };
                        &&& forall|other: Seq<char>|
                            other != key ==> #[trigger] final(limiter).stamps(other) == old(limiter).stamps(other)
                        &&& if tried.len() >= old(limiter).limit() {
                            &&& r is Err && r->Err_0.fails(request.id@, locked_out())
                            &&& final(limiter).stamps(key) == tried
                        } else {
                            match auth_outcome(*mode, auth) {
                                Err(reason) => {
                                    let counted = after_failure(tried, now, old(limiter).window());
                                    &&& r is Err && r->Err_0.fails(
                                        request.id@,
                                        wrong_secret(
                                            reason,
                                            counted.len() > old(limiter).limit(),
                                            old(limiter).window(),
                                        ),
                                    )
                                    &&& final(limiter).stamps(key) == counted
                                },
                                Ok(_) => {
                                    &&& r is Ok && admits(
                                        r->Ok_0,
                                        request.id@,
                                        connect->Ok_0,
                                        opt_text(remote_ip),
                                        conn_id@,
                                        now,
                                    )
                                    &&& final(limiter).stamps(key) == Seq::<u64>::empty()
                                },
                            }
                        }
                    },
                }
            },
        },
{
    let (frame, read) = match first {
        FirstMessage::Timeout => {
            return Err(response_error("connect", invalid_request("handshake timeout")));
        },
        FirstMessage::Failed(error) => {
            return Err(response_error("connect", error));
        },
        FirstMessage::Text(frame, read) => (frame, read),
    };
    let request = match parse_request_frame(read) {
        Ok(request) => request,
        Err(error) => {
            let id = match extract_frame_id(frame.as_str()) {
                Some(id) => id,
                None => "connect".to_owned(),
            };
            return Err(response_error(id.as_str(), error));
        },
    };
    if !same(request.method.as_str(), "connect") {
        return Err(
            response_error(
                request.id.as_str(),
                invalid_request("invalid handshake: first request must be connect"),
            ),
        );
    }
    let params = match connect {
        Ok(params) => params,
        Err(error) => {
            return Err(
                response_error(
                    request.id.as_str(),
                    invalid_request(cat("invalid connect params: ", error.as_str()).as_str()),
                ),
            );
        },
    };
    if params.max_protocol < PROTOCOL_VERSION || params.min_protocol > PROTOCOL_VERSION {
        let mut details = object();
        set_field(&mut details, "expectedProtocol", Json::Unsigned(PROTOCOL_VERSION as u64));
        return Err(
            response_error(
                request.id.as_str(),
                invalid_request("protocol mismatch").with_details(Json::Object(details)),
            ),
        );
    }
    let role = match &params.role {
        Some(role) => role.clone(),
        None => "operator".to_owned(),
    };
    let is_operator = same(role.as_str(), "operator");
    if !is_operator && !same(role.as_str(), "node") {
        return Err(response_error(request.id.as_str(), invalid_request("invalid role")));
    }
    let key = auth_key(&remote_ip, params.client.id.as_str());
    let decision = limiter.check(key.as_str(), now);
    if !decision.allowed {
        return Err(
            response_error(
                request.id.as_str(),
                ErrorShape::new(
                    ERROR_UNAVAILABLE,
                    "unauthorized: too many failed attempts",
                ).with_retry(decision.retry_after_ms),
            ),
        );
    }
    let outcome = match &params.auth {
        Some(auth) => authorize(mode, Some(auth)),
        None => authorize(mode, None),
    };
    if let Err(reason) = outcome {
        let record = limiter.record_failure(key.as_str(), now);
        let mut shape = auth_failure_error(reason);
        if !record.allowed || record.retry_after_ms > 0 {
            shape = shape.with_retry(record.retry_after_ms);
        }
        return Err(response_error(request.id.as_str(), shape));
    }
    limiter.reset(key.as_str());
    let clean = sanitize_scopes(&params.scopes);
    let ghost clean_model = texts(clean@);
    assert(is_sorted_set(clean_model, texts(params.scopes@)));
    assert(clean_model.len() == clean@.len());
    let scopes = if is_operator && clean.len() == 0 {
        default_operator_scopes()
    } else {
        clean
    };
    assert(scopes_granted(texts(scopes@), role@, texts(params.scopes@)));
    let session = SessionContext {
        conn_id: conn_id.to_owned(),
        role: role.clone(),
        scopes: copy_texts(&scopes),
        client_id: params.client.id.clone(),
        client_mode: params.client.mode.clone(),
    };
    let client = ConnectedClient {
        conn_id: conn_id.to_owned(),
        client_id: params.client.id.clone(),
        display_name: copy_text(&params.client.display_name),
        client_version: params.client.version.clone(),
        platform: params.client.platform.clone(),
        device_family: copy_text(&params.client.device_family),
        model_identifier: copy_text(&params.client.model_identifier),
        mode: params.client.mode.clone(),
        role,
        scopes,
        instance_id: copy_text(&params.client.instance_id),
        remote_ip,
        connected_at_ms: now,
    };
    Ok(Admission { request_id: request.id, client, session })
}

/// The client could not be entered.
pub fn registration_failed(request_id: &str, error: &DomainError) -> (r: ResponseFrame)
    ensures
        r.fails(request_id@, unavailable("failed to register connection: "@ + error.words())),
{
    let message = cat("failed to register connection: ", error.describe().as_str());
    response_error(request_id, ErrorShape::new(ERROR_UNAVAILABLE, message.as_str()))
}

/// The state of the gateway could not be had.
pub fn snapshot_failed(request_id: &str, error: &DomainError) -> (r: ResponseFrame)
    ensures
        r.fails(request_id@, unavailable("failed to build snapshot: "@ + error.words())),
{
    let message = cat("failed to build snapshot: ", error.describe().as_str());
    response_error(request_id, ErrorShape::new(ERROR_UNAVAILABLE, message.as_str()))
}

/// The greeting could not be written.
pub fn hello_failed(request_id: &str, error: &str) -> (r: ResponseFrame)
    ensures
        r.fails(request_id@, unavailable("failed to serialize hello payload: "@ + error@)),
{
    let message = cat("failed to serialize hello payload: ", error);
    response_error(request_id, ErrorShape::new(ERROR_UNAVAILABLE, message.as_str()))
}

/// What a client that was let in is told.
pub fn hello(config: &RuntimeConfig, conn_id: &str, snapshot: Snapshot) -> (r: HelloOk)
    ensures
        r.frame_type@ == "hello-ok"@,
        r.protocol == PROTOCOL_VERSION,
        r.server.version@ == config.runtime_version@,
        r.server.conn_id@ == conn_id@,
        texts(r.features.methods@) == base_methods(),
        texts(r.features.events@) == gateway_events(),
        r.snapshot == snapshot,
        r.canvas_host_url is None,
        r.auth is None,
        r.policy == (GatewayPolicy {
            max_payload: config.max_payload_bytes,
            max_buffered_bytes: config.max_buffered_bytes,
            tick_interval_ms: config.tick_interval_ms,
        }),
{
    HelloOk {
        frame_type: "hello-ok",
        protocol: PROTOCOL_VERSION,
        server: HelloServer {
            version: config.runtime_version.clone(),
            conn_id: conn_id.to_owned(),
        },
        features: HelloFeatures { methods: known_methods(), events: known_events() },
        snapshot,
        canvas_host_url: None,
        auth: None,
        policy: GatewayPolicy {
            max_payload: config.max_payload_bytes,
            max_buffered_bytes: config.max_buffered_bytes,
            tick_interval_ms: config.tick_interval_ms,
        },
    }
}

/// The request in a text of a client that is connected, or the answer where it holds none: under
/// the id of the frame as far as that can be read.
pub fn read_request(frame: &str, read: Result<RequestFrame, String>) -> (r: Result<
    RequestFrame,
    ResponseFrame,
>)
    ensures
        match read {
            Err(error) => r is Err && r->Err_0.fails(
                text_or(frame_id(json_read(encode_utf8(frame@))), "invalid"@),
                invalid("invalid request frame: "@ + error@),
            ),
            Ok(request) => match frame_refusal(request) {
                Some(message) => r is Err && r->Err_0.fails(
                    text_or(frame_id(json_read(encode_utf8(frame@))), "invalid"@),
                    invalid(message),
                ),
                None => r == Ok::<RequestFrame, ResponseFrame>(request),
            },
        },
{
    match parse_request_frame(read) {
        Ok(request) => Ok(request),
        Err(error) => {
            let id = match extract_frame_id(frame) {
                Some(id) => id,
                None => "invalid".to_owned(),
            };
            Err(response_error(id.as_str(), error))
        },
    }
}

/// No message came before the connection was closed.
pub fn closed_early() -> (r: ErrorShape)
    ensures
        r@ == invalid("connection closed before handshake"@),
{
    invalid_request("connection closed before handshake")
}

/// The connection could not be read.
pub fn read_failed(error: &str) -> (r: ErrorShape)
    ensures
        r@ == unavailable("websocket read failed: "@ + error@),
{
    ErrorShape::new(ERROR_UNAVAILABLE, cat("websocket read failed: ", error).as_str())
}

/// Who presents no secret, or another than the one that is asked for, is not let in.
pub proof fn law_no_admission_without_the_secret(mode: AuthMode, params: ConnectParams)
    requires
        !(mode is NoAuth),
        params.auth is None || match mode {
            AuthMode::Token(secret) => kept_opt(opt_text(params.auth->0.token)) != Some(secret@),
            AuthMode::Password(secret) => kept_opt(opt_text(params.auth->0.password)) != Some(
                secret@,
            ),
            AuthMode::NoAuth => true,
        },
    ensures
        auth_outcome(
            mode,
            match params.auth {
                Some(a) => Some(&a),
                None => None,
            },
        ) is Err,
{
}

/// A message is taken as it stands where it is no longer than the limit allows, in bytes, and is
/// text. What only keeps a connection up is no message.
pub proof fn law_messages_of_a_connection(
    message: WsMessage,
    max_payload_bytes: usize,
    r: Result<Option<String>, ErrorShape>,
)
    requires
        call_ensures(message_to_text, (message, max_payload_bytes), r),
    ensures
        message is Text ==> {
            &&& r is Ok <==> encode_utf8(message->Text_0@).len() <= max_payload_bytes
            &&& r is Ok ==> r->Ok_0 is Some && r->Ok_0->0@ == message->Text_0@
        },
        message is Binary ==> {
            &&& r is Ok <==> message->Binary_0@.len() <= max_payload_bytes && valid_utf8(
                message->Binary_0@,
            )
            &&& r is Ok ==> r->Ok_0 is Some && encode_utf8(r->Ok_0->0@) == message->Binary_0@
        },
        message is Ping || message is Pong || message is Close ==> r is Ok && r->Ok_0 is None,
        r is Err ==> r->Err_0.code@ == "INVALID_REQUEST"@,
{
    if message is Binary && valid_utf8(message->Binary_0@) {
        vstd::utf8::decode_utf8_encode_utf8(message->Binary_0@);
    }
}

/// A client is let in exactly where its first message asks to connect, it speaks the third version
/// of the protocol, it comes as an operator or a node, it has not failed too often, and it shows
/// what the gateway asks for. Who shows something else is remembered; who is let in is not.
pub proof fn law_who_is_let_in(
    frame: String,
    request: RequestFrame,
    params: ConnectParams,
    mode: &AuthMode,
    remote_ip: Option<String>,
    conn_id: &str,
    now: u64,
    shown: Result<(), AuthFailureReason>,
    auth: Option<&ConnectAuth>,
    r: Result<Admission, ResponseFrame>,
)
    requires
        call_ensures(authorize, (mode, auth), shown),
        params.auth is Some ==> auth == Some(&params.auth->0),
        params.auth is None ==> auth is None,
    ensures
        forall|limiter: &mut AuthRateLimiter| #[trigger]
            call_ensures(
                perform_handshake,
                (
                    FirstMessage::Text(frame, Ok::<RequestFrame, String>(request)),
                    Ok::<ConnectParams, String>(params),
                    mode,
                    limiter,
                    remote_ip,
                    conn_id,
                    now,
                ),
                r,
            ) ==> {
                let role = if params.role is Some {
                    params.role->0@
                } else {
                    "operator"@
                };
                let place = (if remote_ip is Some {
                    remote_ip->0@
                } else {
                    "unknown"@
                }) + ":"@ + params.client.id@;
                let asks = request.frame_type@ == "req"@ && not_blank(request.id@) && request.method@
                    == "connect"@ && params.min_protocol <= 3 <= params.max_protocol && (role
                    == "operator"@ || role == "node"@);
                &&& r is Ok ==> asks && shown is Ok
                &&& asks && shown is Ok && limiter.stamps(place).len() < limiter.limit() ==> r is Ok
                &&& !asks ==> r is Err && *final(limiter) == *limiter && opt_error(
                    r->Err_0.error,
                )->0.code == "INVALID_REQUEST"@
                &&& asks && r is Err ==> opt_error(r->Err_0.error)->0.code == "UNAVAILABLE"@
                &&& asks && shown is Err ==> r is Err
                &&& r is Ok ==> final(limiter).stamps(place).len() == 0
                &&& r is Err ==> !r->Err_0.ok
                &&& asks ==> (r is Err ==> r->Err_0.id@ == request.id@)
                &&& r is Ok ==> {
                    let client = r->Ok_0.client;
                    let session = r->Ok_0.session;
                    &&& r->Ok_0.request_id@ == request.id@
                    &&& client.conn_id@ == conn_id@ && session.conn_id@ == conn_id@
                    &&& client.client_id@ == params.client.id@ && session.client_id@
                        == params.client.id@
                    &&& client.role@ == role && session.role@ == role
                    &&& client.mode@ == params.client.mode@ && session.client_mode@
                        == params.client.mode@
                    &&& client.client_version@ == params.client.version@
                    &&& client.platform@ == params.client.platform@
                    &&& client.connected_at_ms == now
                    &&& opt_text(client.remote_ip) == opt_text(remote_ip)
                    &&& texts(session.scopes@) == texts(client.scopes@)
                }
            },
{
    lemma_connect_is_said();
    lemma_kept(request.id@);
    assert forall|stamps: Seq<u64>, from: u64| (#[trigger] recent(stamps, from)).len() <= stamps.len() by {
        lemma_recent_is_shorter(stamps, from);
    }
}

proof fn lemma_connect_is_said()
    ensures
        kept("connect"@) is Some,
{
    reveal_strlit("connect");
    assert(!is_white_space("connect"@[0]));
    lemma_kept("connect"@);
}

proof fn lemma_recent_is_shorter(stamps: Seq<u64>, from: u64)
    ensures
        recent(stamps, from).len() <= stamps.len(),
    decreases stamps.len(),
{
    if stamps.len() > 0 {
        lemma_recent_is_shorter(stamps.drop_last(), from);
    }
}

/// A client has the scopes that it asks for, trimmed, each once and in their order; an operator
/// who asks for none has all of them.
pub proof fn law_scopes_that_are_given(
    frame: String,
    request: RequestFrame,
    params: ConnectParams,
    mode: &AuthMode,
    remote_ip: Option<String>,
    conn_id: &str,
    now: u64,
    asked: Vec<String>,
    r: Result<Admission, ResponseFrame>,
)
    requires
        call_ensures(sanitize_scopes, (&params.scopes,), asked),
        r is Ok,
    ensures
        forall|limiter: &mut AuthRateLimiter| #[trigger]
            call_ensures(
                perform_handshake,
                (
                    FirstMessage::Text(frame, Ok::<RequestFrame, String>(request)),
                    Ok::<ConnectParams, String>(params),
                    mode,
                    limiter,
                    remote_ip,
                    conn_id,
                    now,
                ),
                r,
            ) ==> texts(r->Ok_0.session.scopes@) == (if asked@.len() == 0 && (params.role is None
                || params.role->0@ == "operator"@) {
                seq![
                    "operator.admin"@,
                    "operator.read"@,
                    "operator.write"@,
                    "operator.approvals"@,
                    "operator.pairing"@,
                ]
            } else {
                texts(asked@)
            }),
{
    let all = texts(params.scopes@);
    assert forall|a: Seq<Seq<char>>| #[trigger] is_sorted_set(a, all) implies a == texts(asked@) by {
        lemma_sorted_of(a, all);
        lemma_sorted_of(texts(asked@), all);
    }
}

/// A frame is a request where it says that it is one and has an id and a method, and it is then
/// taken as it stands.
pub proof fn law_requests_that_are_read(
    frame: &str,
    request: RequestFrame,
    r: Result<RequestFrame, ResponseFrame>,
)
    requires
        call_ensures(read_request, (frame, Ok::<RequestFrame, String>(request)), r),
    ensures
        r is Ok <==> request.frame_type@ == "req"@ && not_blank(request.id@) && not_blank(
            request.method@,
        ),
        r is Ok ==> r->Ok_0 == request,
        r is Err ==> !r->Err_0.ok && opt_error(r->Err_0.error)->0.code == "INVALID_REQUEST"@,
{
    lemma_kept(request.id@);
    lemma_kept(request.method@);
}

/// Every client of one place is counted by itself.
pub proof fn law_clients_are_counted_apart(
    ip: &Option<String>,
    a: &str,
    b: &str,
    x: String,
    y: String,
)
    requires
        call_ensures(auth_key, (ip, a), x),
        call_ensures(auth_key, (ip, b), y),
    ensures
        x@ == y@ <==> a@ == b@,
        *ip is Some ==> x@ == ip->0@ + ":"@ + a@,
        *ip is None ==> x@ == "unknown:"@ + a@,
{
    reveal_strlit("unknown");
    reveal_strlit(":");
    reveal_strlit("unknown:");
    assert("unknown"@ + ":"@ =~= "unknown:"@);
    let n = (text_or(opt_text(*ip), "unknown"@) + ":"@).len() as int;
    assert(x@.skip(n) =~= a@);
    assert(y@.skip(n) =~= b@);
}

/// Who failed too often is told to try again later, and so is who fails once too often, after the time
/// in which failures count.
pub proof fn law_when_to_try_again(
    frame: String,
    request: RequestFrame,
    params: ConnectParams,
    mode: &AuthMode,
    remote_ip: Option<String>,
    conn_id: &str,
    now: u64,
    shown: Result<(), AuthFailureReason>,
    auth: Option<&ConnectAuth>,
    r: Result<Admission, ResponseFrame>,
)
    requires
        call_ensures(authorize, (mode, auth), shown),
        params.auth is Some ==> auth == Some(&params.auth->0),
        params.auth is None ==> auth is None,
        r is Err,
    ensures
        forall|limiter: &mut AuthRateLimiter| #[trigger]
            call_ensures(
                perform_handshake,
                (
                    FirstMessage::Text(frame, Ok::<RequestFrame, String>(request)),
                    Ok::<ConnectParams, String>(params),
                    mode,
                    limiter,
                    remote_ip,
                    conn_id,
                    now,
                ),
                r,
            ) ==> {
                let error = opt_error(r->Err_0.error)->0;
                &&& error.retryable is Some ==> error.retryable == Some(true) && error.code == "UNAVAILABLE"@
                &&& error.retryable is Some <==> error.retry_after_ms is Some
                &&& error.retryable is Some && shown is Err && error.message
                    != "unauthorized: too many failed attempts"@ ==> error.retry_after_ms == Some(
                    limiter.window(),
                )
                &&& error.retryable is None && error.code == "UNAVAILABLE"@ && shown == Err::<
                    (),
                    AuthFailureReason,
                >(AuthFailureReason::MissingCredentials) ==> error.message
                    == "unauthorized: missing credentials"@
                &&& error.retryable is None && error.code == "UNAVAILABLE"@ && shown == Err::<
                    (),
                    AuthFailureReason,
                >(AuthFailureReason::InvalidCredentials) ==> error.message
                    == "unauthorized: invalid credentials"@
            },
{
    reveal_strlit("INVALID_REQUEST");
    reveal_strlit("UNAVAILABLE");
    assert("INVALID_REQUEST"@.len() != "UNAVAILABLE"@.len());
}

/// The first frame of a connection greets it: with its own id, the version of the protocol and of the
/// gateway, and the bounds that hold.
pub proof fn law_greetings(config: &RuntimeConfig, conn_id: &str, snapshot: Snapshot, r: HelloOk)
    requires
        call_ensures(hello, (config, conn_id, snapshot), r),
    ensures
        r.frame_type@ == "hello-ok"@ && r.protocol == 3,
        r.server.conn_id@ == conn_id@ && r.server.version@ == config.runtime_version@,
        r.snapshot == snapshot,
        r.policy.max_payload == config.max_payload_bytes && r.policy.max_buffered_bytes
            == config.max_buffered_bytes && r.policy.tick_interval_ms == config.tick_interval_ms,
{
}

} // verus!
