//! The error of a reply.
use crate::json::{no_fields, object, opt_model, text, with, Json, JsonModel};
use vstd::prelude::*;

verus! {

pub const ERROR_NOT_LINKED: &'static str = "NOT_LINKED";

pub const ERROR_NOT_PAIRED: &'static str = "NOT_PAIRED";

pub const ERROR_AGENT_TIMEOUT: &'static str = "AGENT_TIMEOUT";

pub const ERROR_INVALID_REQUEST: &'static str = "INVALID_REQUEST";

pub const ERROR_UNAVAILABLE: &'static str = "UNAVAILABLE";

/// The error of a reply: a code, a message, and what a client may do about it.
pub struct ErrorShape {
    pub code: String,
    pub message: String,
    pub details: Option<Json>,
    pub retryable: Option<bool>,
    pub retry_after_ms: Option<u64>,
}

/// What an error says.
#[verifier::ext_equal]
pub struct ErrorModel {
    pub code: Seq<char>,
    pub message: Seq<char>,
    pub details: Option<JsonModel>,
    pub retryable: Option<bool>,
    pub retry_after_ms: Option<u64>,
}

/// An error of a code and a message alone.
pub open spec fn plain_error(code: Seq<char>, message: Seq<char>) -> ErrorModel {
    ErrorModel { code, message, details: None, retryable: None, retry_after_ms: None }
}

/// The refusal of a request.
pub open spec fn invalid(message: Seq<char>) -> ErrorModel {
    plain_error(ERROR_INVALID_REQUEST@, message)
}

/// The service cannot do it.
pub open spec fn unavailable(message: Seq<char>) -> ErrorModel {
    plain_error(ERROR_UNAVAILABLE@, message)
}

/// The JSON of an error: what is not there is left out.
pub open spec fn error_fields(e: ErrorModel) -> Map<Seq<char>, JsonModel> {
    let base = no_fields().insert("code"@, JsonModel::Text(e.code)).insert(
        "message"@,
        JsonModel::Text(e.message),
    );
    let base = match e.details {
        Some(d) => base.insert("details"@, d),
        None => base,
    };
    let base = match e.retryable {
        Some(b) => base.insert("retryable"@, JsonModel::Bool(b)),
        None => base,
    };
    match e.retry_after_ms {
        Some(n) => base.insert("retryAfterMs"@, JsonModel::Unsigned(n)),
        None => base,
    }
}

impl ErrorShape {
    /// What the error says.
    pub open spec fn view(&self) -> ErrorModel {
        ErrorModel {
            code: self.code@,
            message: self.message@,
            details: opt_model(self.details),
            retryable: self.retryable,
            retry_after_ms: self.retry_after_ms,
        }
    }

    /// An error of a code and a message.
    pub fn new(code: &str, message: &str) -> (r: Self)
        ensures
            r@ == plain_error(code@, message@),
    {
        ErrorShape {
            code: code.to_owned(),
            message: message.to_owned(),
            details: None,
            retryable: None,
            retry_after_ms: None,
        }
    }

    /// The error with details.
    pub fn with_details(self, details: Json) -> (r: Self)
        ensures
            r@ == (ErrorModel { details: Some(details@), ..self@ }),
    {
        ErrorShape { details: Some(details), ..self }
    }

    /// The error with a time after which to try again.
    pub fn with_retry(self, retry_after_ms: u64) -> (r: Self)
        ensures
            r@ == (ErrorModel {
                retryable: Some(true),
                retry_after_ms: Some(retry_after_ms),
                ..self@
            }),
    {
        ErrorShape { retryable: Some(true), retry_after_ms: Some(retry_after_ms), ..self }
    }

    /// The JSON of the error.
    pub fn to_json(&self) -> (r: Json)
        ensures
            r@ == JsonModel::Object(error_fields(self@)),
    {
        let mut o = with(
            with(object(), "code", text(self.code.as_str())),
            "message",
            text(self.message.as_str()),
        );
        if let Some(details) = &self.details {
            o = with(o, "details", details.copy());
        }
        if let Some(retryable) = self.retryable {
            o = with(o, "retryable", Json::Bool(retryable));
        }
        if let Some(n) = self.retry_after_ms {
            o = with(o, "retryAfterMs", Json::Unsigned(n));
        }
        Json::Object(o)
    }
}

/// The refusal of a request.
pub fn invalid_request(message: &str) -> (r: ErrorShape)
    ensures
        r@ == invalid(message@),
{
    ErrorShape::new(ERROR_INVALID_REQUEST, message)
}

} // verus!
