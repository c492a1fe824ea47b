//! Requests for a browser, which the gateway does not have.
use crate::json::{fields, no_fields, object, set_field, text, Json, JsonModel};
use crate::protocol::errors::{unavailable, ErrorModel, ErrorShape, ERROR_UNAVAILABLE};
use crate::sorted_map::SortedMap;
use vstd::prelude::*;

verus! {

broadcast use vstd::seq::group_seq_axioms;

/// The refusal of a request for a browser: it says where the request belongs.
pub fn handle_request(request: SortedMap<Json>) -> (r: ErrorShape)
    ensures
        r@ == (ErrorModel {
            details: Some(JsonModel::Object(
                no_fields()
                    .insert("request"@, JsonModel::Object(fields(request)))
                    .insert("hint"@, JsonModel::Text("route browser traffic through node.invoke on a browser-capable node"@)),
            )),
            ..unavailable("browser bridge is unavailable in reclaw-core runtime"@)
        }),
{
    let mut details = object();
    set_field(&mut details, "request", Json::Object(request));
    set_field(&mut details, "hint", text("route browser traffic through node.invoke on a browser-capable node"));
    ErrorShape::new(
        ERROR_UNAVAILABLE,
        "browser bridge is unavailable in reclaw-core runtime",
    ).with_details(Json::Object(details))
}

/// What is asked of a browser is given back with the refusal.
pub proof fn law_browsers_are_elsewhere(request: SortedMap<Json>, r: ErrorShape)
    requires
        call_ensures(handle_request, (request,), r),
    ensures
        r.code@ == "UNAVAILABLE"@,
        r.details is Some && crate::json::member(r.details->0@, "request"@) == Some(JsonModel::Object(fields(request))),
{
    reveal_strlit("request");
    reveal_strlit("hint");
    assert("request"@.len() != "hint"@.len());
}

} // verus!
