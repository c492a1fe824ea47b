//! The gateway protocol: frames, errors and the checks on a request.
pub mod errors;
pub mod frames;

use crate::json::Json;
use crate::protocol::errors::{invalid, invalid_request, ErrorShape};
use crate::protocol::frames::{RequestFrame, ResponseFrame};
use crate::text::{cat, kept, same, trim_non_empty};
use vstd::prelude::*;

verus! {

pub const PROTOCOL_VERSION: u32 = 3;

/// Why a frame that was read is refused.
pub open spec fn frame_refusal(request: RequestFrame) -> Option<Seq<char>> {
    if request.frame_type@ != "req"@ {
        Some("invalid request frame: expected type=req"@)
    } else if kept(request.id@) is None {
        Some("invalid request frame: missing id"@)
    } else if kept(request.method@) is None {
        Some("invalid request frame: missing method"@)
    } else {
        None
    }
}

/// The request that a frame holds: what was read of its text, or what was wrong with the text.
pub fn parse_request_frame(read: Result<RequestFrame, String>) -> (r: Result<
    RequestFrame,
    ErrorShape,
>)
    ensures
        match read {
            Err(error) => r is Err && r->Err_0@ == invalid("invalid request frame: "@ + error@),
            Ok(request) => match frame_refusal(request) {
                Some(message) => r is Err && r->Err_0@ == invalid(message),
                None => r == Ok::<RequestFrame, ErrorShape>(request),
            },
        },
{
    let request = match read {
        Ok(request) => request,
        Err(error) => {
            return Err(invalid_request(cat("invalid request frame: ", error.as_str()).as_str()));
        },
    };
    if !same(request.frame_type.as_str(), "req") {
        return Err(invalid_request("invalid request frame: expected type=req"));
    }
    if trim_non_empty(request.id.as_str()).is_none() {
        return Err(invalid_request("invalid request frame: missing id"));
    }
    if trim_non_empty(request.method.as_str()).is_none() {
        return Err(invalid_request("invalid request frame: missing method"));
    }
    Ok(request)
}

/// The reply that carries a payload.
pub fn response_ok(id: &str, payload: Json) -> (r: ResponseFrame)
    ensures
        r.carries(id@, payload@),
{
    ResponseFrame { frame_type: "res", id: id.to_owned(), ok: true, payload: Some(payload), error: None }
}

/// The reply that carries an error.
pub fn response_error(id: &str, error: ErrorShape) -> (r: ResponseFrame)
    ensures
        r.fails(id@, error@),
{
    ResponseFrame { frame_type: "res", id: id.to_owned(), ok: false, payload: None, error: Some(error) }
}

/// A frame is a request where it says that it is one and has an id and a method that are not blank.
/// It is then taken as it stands.
pub proof fn law_request_frames(request: RequestFrame, r: Result<RequestFrame, ErrorShape>)
    requires
        call_ensures(parse_request_frame, (Ok::<RequestFrame, String>(request),), r),
    ensures
        r is Ok <==> request.frame_type@ == "req"@ && crate::text::not_blank(request.id@)
            && crate::text::not_blank(request.method@),
        r is Ok ==> r->Ok_0 == request,
        r is Err ==> r->Err_0.code@ == "INVALID_REQUEST"@,
{
    crate::text::lemma_kept(request.id@);
    crate::text::lemma_kept(request.method@);
}

} // verus!
