//! The endpoint for responses.
use crate::application::config::AuthMode;
use crate::ids::{is_uuid_text, new_id};
use crate::interfaces::channel_adapter_common::{error_status, HttpReply};
use crate::interfaces::compat::{
    authorize_gateway_http, bearer_outcome, content_text, extract_text_content, header_text,
};
use crate::interfaces::openai::{
    assistant_text, endpoint_session_key, error_kind, failed_chat, failure_text, is_plan, make_plan,
    no_usage, one, one_item, openai_error, openai_error_body, read_assistant_text,
    resolve_endpoint_session_key, zero_usage, BadBody, EndpointPlan,
};
use crate::json::{field, json_text_of, lemma_models, member, models, no_fields, object, opt_model, set_field, text, text_of, Json, JsonModel};
use crate::protocol::errors::ErrorShape;
use crate::security::auth::{auth_failure_error, AuthFailureReason};
use crate::slug::slug_of;
use crate::text::{
    cat, first_of, join, joined, kept, law_joined_parts_are_found, law_joined_parts_keep_order,
    lemma_kept, not_blank, opt_text, texts, trim_non_empty, trimmed,
};
use vstd::prelude::*;

verus! {

broadcast use vstd::seq::group_seq_axioms;

/// A request for a response.
pub struct CreateResponseRequest {
    pub model: Option<String>,
    pub stream: bool,
    pub input: Option<Json>,
    pub user: Option<String>,
}

/// The text of an item of the input: its content's where that is not blank, or its own.
pub open spec fn item_prompt(item: JsonModel) -> Option<Seq<char>> {
    match item {
        JsonModel::Text(s) => Some(s),
        JsonModel::Object(m) => if m.contains_key("content"@) && kept(
            content_text(m["content"@]),
        ) is Some {
            Some(content_text(m["content"@]))
        } else {
            first_of(text_of(field(m, "text"@)), text_of(field(m, "input_text"@)))
        },
        _ => None,
    }
}

/// The texts of the items that have one that is not blank.
pub open spec fn item_prompts(items: Seq<JsonModel>) -> Seq<Seq<char>>
    decreases items.len(),
{
    if items.len() == 0 {
        Seq::empty()
    } else {
        let earlier = item_prompts(items.drop_last());
        match item_prompt(items.last()) {
            Some(t) => if kept(t) is Some {
                earlier.push(t)
            } else {
                earlier
            },
            None => earlier,
        }
    }
}

/// The prompt that an input makes; none where it says nothing.
pub open spec fn input_prompt(input: Option<JsonModel>) -> Option<Seq<char>> {
    match input {
        None => None,
        Some(JsonModel::Text(s)) => kept(s),
        Some(JsonModel::Array(items)) => if item_prompts(items).len() == 0 {
            None
        } else {
            Some(joined(item_prompts(items), "\n"@))
        },
        Some(other) => match item_prompt(other) {
            Some(t) => kept(t),
            None => None,
        },
    }
}

/// The text of an item of the input.
pub fn extract_prompt_from_item(item: &Json) -> (r: Option<String>)
    ensures
        opt_text(r) == item_prompt(item@),
{
    if let Some(s) = item.as_str() {
        return Some(s.to_owned());
    }
    if !item.is_object() {
        return None;
    }
    if let Some(content) = item.get("content") {
        let s = extract_text_content(content);
        if trim_non_empty(s.as_str()).is_some() {
            return Some(s);
        }
    }
    match item.get_text("text") {
        Some(s) => Some(s),
        None => item.get_text("input_text"),
    }
}

/// The prompt that an input makes.
pub fn extract_input_prompt(input: Option<&Json>) -> (r: Option<String>)
    ensures
        opt_text(r) == input_prompt(
            match input {
                Some(v) => Some(v@),
                None => None,
            },
        ),
{
    let input = match input {
        Some(input) => input,
        None => {
            return None;
        },
    };
    match input {
        Json::Text(s) => trim_non_empty(s.as_str()),
        Json::Array(items) => {
            let mut out: Vec<String> = Vec::new();
            let mut i: usize = 0;
            proof {
                lemma_models(items@);
                assert(texts(out@) =~= item_prompts(models(items@).take(0)));
            }
            while i < items.len()
                invariant
                    i <= items@.len(),
                    models(items@).len() == items@.len(),
                    forall|k: int| 0 <= k < items@.len() ==> #[trigger] models(items@)[k] == items@[k]@,
                    texts(out@) == item_prompts(models(items@).take(i as int)),
                decreases items@.len() - i,
            {
                proof {
                    let t = models(items@).take(i + 1);
                    assert(t.drop_last() =~= models(items@).take(i as int));
                    assert(t.last() == items@[i as int]@);
                }
                if let Some(s) = extract_prompt_from_item(&items[i]) {
                    if trim_non_empty(s.as_str()).is_some() {
                        let ghost so_far = out@;
                        out.push(s);
                        assert(texts(out@) =~= texts(so_far).push(s@));
                    }
                }
                i = i + 1;
            }
            assert(models(items@).take(i as int) =~= models(items@));
            assert(texts(out@).len() == out@.len());
            if out.len() == 0 {
                return None;
            }
            Some(join(&out, "\n"))
        },
        _ => match extract_prompt_from_item(input) {
            Some(s) => trim_non_empty(s.as_str()),
            None => None,
        },
    }
}

/// The session that a model and a user share.
pub fn resolve_openresponses_session_key(model: &str, user: &Option<String>) -> (r: String)
    ensures
        r@ == endpoint_session_key(model@, opt_text(*user), "openresponses"@),
{
    resolve_endpoint_session_key(model, user, "openresponses")
}

/// The chat that a request for a response becomes, or the answer where it becomes none.
pub fn responses_handler(
    mode: &AuthMode,
    authorization: Option<&str>,
    body: Result<CreateResponseRequest, BadBody>,
    response: &str,
    conn_id: &str,
) -> (r: Result<EndpointPlan, HttpReply>)
    ensures
        match bearer_outcome(*mode, header_text(authorization)) {
            Err(reason) => r is Err && r->Err_0.says(
                401,
                openai_error_body(failure_text(reason), "authentication_error"@),
            ),
            Ok(_) => match body {
                Err(BadBody::NotJson) => r is Err && r->Err_0.says(
                    400,
                    openai_error_body("Invalid JSON body."@, "invalid_request_error"@),
                ),
                Err(BadBody::NotRequest) => r is Err && r->Err_0.says(
                    400,
                    openai_error_body("Invalid request body."@, "invalid_request_error"@),
                ),
                Ok(request) => match input_prompt(opt_model(request.input)) {
                    None => r is Err && r->Err_0.says(
                        400,
                        openai_error_body(
                            "Missing input text in `input`."@,
                            "invalid_request_error"@,
                        ),
                    ),
                    Some(prompt) => r is Ok && is_plan(
                        r->Ok_0,
                        "openresponses"@,
                        opt_text(request.model),
                        opt_text(request.user),
                        request.stream,
                        prompt,
                        "resp_"@ + response@,
                        conn_id@,
                    ),
                },
            },
        },
{
    if let Err(reason) = authorize_gateway_http(mode, authorization) {
        let message = auth_failure_error(reason).message;
        return Err(openai_error(401, message.as_str(), "authentication_error"));
    }
    let request = match body {
        Ok(request) => request,
        Err(BadBody::NotJson) => {
            return Err(openai_error(400, "Invalid JSON body.", "invalid_request_error"));
        },
        Err(BadBody::NotRequest) => {
            return Err(openai_error(400, "Invalid request body.", "invalid_request_error"));
        },
    };
    let found = match &request.input {
        Some(input) => extract_input_prompt(Some(input)),
        None => None,
    };
    let prompt = match found {
        Some(prompt) => prompt,
        None => {
            return Err(
                openai_error(400, "Missing input text in `input`.", "invalid_request_error"),
            );
        },
    };
    Ok(
        make_plan(
            "openresponses",
            &request.model,
            &request.user,
            request.stream,
            prompt.as_str(),
            cat("resp_", response),
            conn_id,
        ),
    )
}

/// What a response holds of the text: a message under its id, or nothing yet.
pub open spec fn output_items(item: Option<(Seq<char>, Seq<char>)>) -> JsonModel {
    match item {
        None => JsonModel::Array(Seq::empty()),
        Some((id, body)) => one(
            JsonModel::Object(
                no_fields().insert("type"@, JsonModel::Text("message"@)).insert(
                    "id"@,
                    JsonModel::Text("msg_"@ + id),
                ).insert("role"@, JsonModel::Text("assistant"@)).insert(
                    "content"@,
                    one(
                        JsonModel::Object(
                            no_fields().insert("type"@, JsonModel::Text("output_text"@)).insert(
                                "text"@,
                                JsonModel::Text(body),
                            ),
                        ),
                    ),
                ).insert("status"@, JsonModel::Text("completed"@)),
            ),
        ),
    }
}

/// A response.
pub open spec fn response_body(
    id: Seq<char>,
    model: Seq<char>,
    created: u64,
    status: Seq<char>,
    item: Option<(Seq<char>, Seq<char>)>,
) -> JsonModel {
    JsonModel::Object(
        no_fields().insert("id"@, JsonModel::Text(id)).insert(
            "object"@,
            JsonModel::Text("response"@),
        ).insert("created_at"@, JsonModel::Unsigned(created)).insert(
            "status"@,
            JsonModel::Text(status),
        ).insert("model"@, JsonModel::Text(model)).insert("output"@, output_items(item)).insert(
            "usage"@,
            no_usage("input_tokens"@, "output_tokens"@),
        ).insert("error"@, JsonModel::Null),
    )
}

/// A response; the message in it has the given id.
pub fn build_response_with(
    id: &str,
    model: &str,
    created: u64,
    status: &str,
    item: Option<(&str, &str)>,
) -> (r: Json)
    ensures
        r@ == response_body(
            id@,
            model@,
            created,
            status@,
            match item {
                Some((i, t)) => Some((i@, t@)),
                None => None,
            },
        ),
{
    let output = match item {
        None => {
            let items: Vec<Json> = Vec::new();
            assert(models(items@) =~= Seq::<JsonModel>::empty());
            Json::Array(items)
        },
        Some((item_id, body)) => {
            let mut content = object();
            set_field(&mut content, "type", text("output_text"));
            set_field(&mut content, "text", text(body));
            let mut message = object();
            set_field(&mut message, "type", text("message"));
            set_field(&mut message, "id", text(cat("msg_", item_id).as_str()));
            set_field(&mut message, "role", text("assistant"));
            set_field(&mut message, "content", one_item(Json::Object(content)));
            set_field(&mut message, "status", text("completed"));
            one_item(Json::Object(message))
        },
    };
    let mut o = object();
    set_field(&mut o, "id", text(id));
    set_field(&mut o, "object", text("response"));
    set_field(&mut o, "created_at", Json::Unsigned(created));
    set_field(&mut o, "status", text(status));
    set_field(&mut o, "model", text(model));
    set_field(&mut o, "output", output);
    set_field(&mut o, "usage", zero_usage("input_tokens", "output_tokens"));
    set_field(&mut o, "error", Json::Null);
    Json::Object(o)
}

/// A response; the message in it has a fresh id.
pub fn build_response_resource(
    id: &str,
    model: &str,
    created: u64,
    status: &str,
    assistant: Option<&str>,
) -> (r: Json)
    ensures
        match assistant {
            None => r@ == response_body(id@, model@, created, status@, None),
            Some(body) => exists|item: Seq<char>| #[trigger]
                is_uuid_text(item) && r@ == response_body(
                    id@,
                    model@,
                    created,
                    status@,
                    Some((item, body@)),
                ),
        },
{
    match assistant {
        None => build_response_with(id, model, created, status, None),
        Some(body) => {
            let item = new_id();
            assert(is_uuid_text(item@));
            build_response_with(id, model, created, status, Some((item.as_str(), body)))
        },
    }
}

/// An event of a response that is sent piece by piece.
pub struct StreamEvent {
    pub event: Option<&'static str>,
    pub data: String,
}

/// The event has this name and says this.
pub open spec fn event_is(e: StreamEvent, name: Option<Seq<char>>, data: Seq<char>) -> bool {
    &&& e.data@ == data
    &&& match (e.event, name) {
        (Some(a), Some(b)) => a@ == b,
        (None, None) => true,
        _ => false,
    }
}

/// The event that a response was begun or completed.
pub open spec fn lifecycle_event(kind: Seq<char>, response: JsonModel) -> JsonModel {
    JsonModel::Object(
        no_fields().insert("type"@, JsonModel::Text(kind)).insert("response"@, response),
    )
}

/// The event that carries the text.
pub open spec fn delta_event(id: Seq<char>, item: Seq<char>, body: Seq<char>) -> JsonModel {
    JsonModel::Object(
        no_fields().insert("type"@, JsonModel::Text("response.output_text.delta"@)).insert(
            "response_id"@,
            JsonModel::Text(id),
        ).insert("item_id"@, JsonModel::Text("msg_"@ + item)).insert(
            "delta"@,
            JsonModel::Text(body),
        ),
    )
}

/// The events in which a response is sent piece by piece. The text's event and the message of the
/// completed response have the given ids.
pub fn stream_response(
    id: &str,
    model: &str,
    created: u64,
    assistant: &str,
    delta_item: &str,
    final_item: &str,
) -> (r: Vec<StreamEvent>)
    ensures
        r@.len() == 4,
        event_is(
            r@[0],
            Some("response.created"@),
            json_text_of(
                lifecycle_event(
                    "response.created"@,
                    response_body(id@, model@, created, "in_progress"@, None),
                ),
            ),
        ),
        event_is(
            r@[1],
            Some("response.output_text.delta"@),
            json_text_of(delta_event(id@, delta_item@, assistant@)),
        ),
        event_is(
            r@[2],
            Some("response.completed"@),
            json_text_of(
                lifecycle_event(
                    "response.completed"@,
                    response_body(
                        id@,
                        model@,
                        created,
                        "completed"@,
                        Some((final_item@, assistant@)),
                    ),
                ),
            ),
        ),
        event_is(r@[3], None, "[DONE]"@),
{
    let mut begun = object();
    set_field(&mut begun, "type", text("response.created"));
    set_field(
        &mut begun,
        "response",
        build_response_with(id, model, created, "in_progress", None),
    );
    let mut delta = object();
    set_field(&mut delta, "type", text("response.output_text.delta"));
    set_field(&mut delta, "response_id", text(id));
    set_field(&mut delta, "item_id", text(cat("msg_", delta_item).as_str()));
    set_field(&mut delta, "delta", text(assistant));
    let mut done = object();
    set_field(&mut done, "type", text("response.completed"));
    set_field(
        &mut done,
        "response",
        build_response_with(id, model, created, "completed", Some((final_item, assistant))),
    );
    let mut out: Vec<StreamEvent> = Vec::new();
    out.push(
        StreamEvent { event: Some("response.created"), data: Json::Object(begun).to_text() },
    );
    out.push(
        StreamEvent {
            event: Some("response.output_text.delta"),
            data: Json::Object(delta).to_text(),
        },
    );
    out.push(
        StreamEvent { event: Some("response.completed"), data: Json::Object(done).to_text() },
    );
    out.push(StreamEvent { event: None, data: "[DONE]".to_owned() });
    out
}

/// What a request for a response is answered with: at once, or piece by piece.
pub enum ResponseReply {
    Whole(HttpReply),
    Pieces(Vec<StreamEvent>),
}

/// What a request for a response is answered with, from what its chat was answered.
pub fn finish_response(
    plan: &EndpointPlan,
    result: &Result<Json, ErrorShape>,
    now: u64,
    delta_item: &str,
    final_item: &str,
) -> (r: ResponseReply)
    ensures
        match result {
            Err(error) => r matches ResponseReply::Whole(reply) && reply.says(
                error_status(error.code@),
                openai_error_body(error.message@, error_kind(error.code@)),
            ),
            Ok(payload) => if plan.stream {
                r matches ResponseReply::Pieces(events) && events@.len() == 4 && event_is(
                    events@[1],
                    Some("response.output_text.delta"@),
                    json_text_of(
                        delta_event(plan.response_id@, delta_item@, assistant_text(payload@)),
                    ),
                ) && event_is(
                    events@[0],
                    Some("response.created"@),
                    json_text_of(
                        lifecycle_event(
                            "response.created"@,
                            response_body(
                                plan.response_id@,
                                plan.model@,
                                now / 1_000,
                                "in_progress"@,
                                None,
                            ),
                        ),
                    ),
                ) && event_is(
                    events@[2],
                    Some("response.completed"@),
                    json_text_of(
                        lifecycle_event(
                            "response.completed"@,
                            response_body(
                                plan.response_id@,
                                plan.model@,
                                now / 1_000,
                                "completed"@,
                                Some((final_item@, assistant_text(payload@))),
                            ),
                        ),
                    ),
                ) && event_is(events@[3], None, "[DONE]"@)
            } else {
                r matches ResponseReply::Whole(reply) && reply.says(
                    200,
                    response_body(
                        plan.response_id@,
                        plan.model@,
                        now / 1_000,
                        "completed"@,
                        Some((final_item@, assistant_text(payload@))),
                    ),
                )
            },
        },
{
    let payload = match result {
        Ok(payload) => payload,
        Err(error) => {
            return ResponseReply::Whole(failed_chat(error));
        },
    };
    let content = read_assistant_text(payload);
    let created: u64 = now / 1_000;
    if plan.stream {
        return ResponseReply::Pieces(
            stream_response(
                plan.response_id.as_str(),
                plan.model.as_str(),
                created,
                content.as_str(),
                delta_item,
                final_item,
            ),
        );
    }
    ResponseReply::Whole(
        HttpReply {
            status: 200,
            body: build_response_with(
                plan.response_id.as_str(),
                plan.model.as_str(),
                created,
                "completed",
                Some((final_item, content.as_str())),
            ),
        },
    )
}

/// A text is its own prompt, and so is a part that says something. Of a list, each text and each
/// part that is not blank stands in the prompt. Blank input is none.
pub proof fn law_inputs(
    input: &Json,
    items: Seq<JsonModel>,
    i: int,
    said: Seq<char>,
    r: Option<String>,
    none: Option<String>,
)
    requires
        call_ensures(extract_input_prompt, (Some(input),), r),
        call_ensures(extract_input_prompt, (None,), none),
    ensures
        none is None,
        input@ == JsonModel::Text(said) && not_blank(said) ==> r is Some && r->0@ == trimmed(said),
        input@ == JsonModel::Text(said) && !not_blank(said) ==> r is None,
        item_says(input@, said) && not_blank(said) ==> r is Some && r->0@ == trimmed(said),
        input@ == JsonModel::Array(items) && 0 <= i < items.len() && not_blank(said) && (items[i]
            == JsonModel::Text(said) || item_says(items[i], said)) ==> r is Some && exists|
            a: Seq<char>,
            b: Seq<char>,
        | r->0@ == #[trigger] (a + said + b),
        input@ == JsonModel::Array(Seq::<JsonModel>::empty()) ==> r is None,
{
    lemma_kept(said);
    if input@ == JsonModel::Array(items) && 0 <= i < items.len() && not_blank(said) && (items[i]
        == JsonModel::Text(said) || item_says(items[i], said)) {
        let k = lemma_item_place(items, i, said);
        law_joined_parts_are_found(item_prompts(items), "\n"@, k);
    }
}

/// An item that says a text: its content is that text.
pub open spec fn item_says(item: JsonModel, said: Seq<char>) -> bool {
    item matches JsonModel::Object(m) && m.contains_key("content"@) && m["content"@] == JsonModel::Text(said)
}

proof fn lemma_item_place(items: Seq<JsonModel>, i: int, said: Seq<char>) -> (k: int)
    requires
        0 <= i < items.len(),
        item_prompt(items[i]) == Some(said),
        kept(said) is Some,
    ensures
        0 <= k < item_prompts(items).len(),
        item_prompts(items)[k] == said,
    decreases items.len(),
{
    if i == items.len() - 1 {
        item_prompts(items.drop_last()).len() as int
    } else {
        lemma_item_place(items.drop_last(), i, said)
    }
}

/// Of two items that say something, what the earlier one says stands before what the later one
/// says.
pub proof fn law_inputs_keep_order(
    input: &Json,
    items: Seq<JsonModel>,
    i: int,
    j: int,
    first: Seq<char>,
    second: Seq<char>,
    r: Option<String>,
)
    requires
        call_ensures(extract_input_prompt, (Some(input),), r),
        input@ == JsonModel::Array(items),
        0 <= i < j < items.len(),
        item_says(items[i], first) && not_blank(first),
        item_says(items[j], second) && not_blank(second),
    ensures
        r is Some && exists|a: Seq<char>, b: Seq<char>, c: Seq<char>|
            r->0@ == #[trigger] (a + first + b + second + c),
{
    lemma_kept(first);
    lemma_kept(second);
    let (k, l) = lemma_item_order(items, i, j, first, second);
    law_joined_parts_keep_order(item_prompts(items), "\n"@, k, l);
}

proof fn lemma_item_order(
    items: Seq<JsonModel>,
    i: int,
    j: int,
    first: Seq<char>,
    second: Seq<char>,
) -> (p: (int, int))
    requires
        0 <= i < j < items.len(),
        item_prompt(items[i]) == Some(first) && kept(first) is Some,
        item_prompt(items[j]) == Some(second) && kept(second) is Some,
    ensures
        0 <= p.0 < p.1 < item_prompts(items).len(),
        item_prompts(items)[p.0] == first,
        item_prompts(items)[p.1] == second,
    decreases items.len(),
{
    if j == items.len() - 1 {
        let k = lemma_item_place(items.drop_last(), i, first);
        (k, item_prompts(items.drop_last()).len() as int)
    } else {
        lemma_item_order(items.drop_last(), i, j, first, second)
    }
}

/// A response is made exactly where the caller shows the secret and the input says something. What
/// is run is that input, in the session of the model and the user.
pub proof fn law_responses_that_are_made(
    mode: &AuthMode,
    authorization: Option<&str>,
    request: CreateResponseRequest,
    response: &str,
    conn_id: &str,
    open: Result<(), AuthFailureReason>,
    input: Option<&Json>,
    prompt: Option<String>,
    model: &str,
    key: String,
    r: Result<EndpointPlan, HttpReply>,
)
    requires
        call_ensures(authorize_gateway_http, (mode, authorization), open),
        request.input is Some ==> input == Some(&request.input->0),
        request.input is None ==> input is None,
        call_ensures(extract_input_prompt, (input,), prompt),
        call_ensures(
            responses_handler,
            (mode, authorization, Ok::<CreateResponseRequest, BadBody>(request), response, conn_id),
            r,
        ),
        model@ == (if request.model is Some && not_blank(request.model->0@) {
            trimmed(request.model->0@)
        } else {
            "reclaw-core"@
        }),
        call_ensures(resolve_openresponses_session_key, (model, &request.user), key),
    ensures
        r is Ok <==> open is Ok && prompt is Some,
        r is Err ==> r->Err_0.status == (if open is Err {
            401u16
        } else {
            400u16
        }),
        r is Ok ==> {
            let plan = r->Ok_0;
            &&& plan.model@ == model@
            &&& plan.stream == request.stream
            &&& plan.response_id@ == "resp_"@ + response@
            &&& plan.session.role@ == "operator"@
            &&& member(plan.params@, "message"@) == Some(JsonModel::Text(prompt->0@))
            &&& member(plan.params@, "sessionKey"@) == Some(JsonModel::Text(key@))
        },
{
    if request.model is Some {
        lemma_kept(request.model->0@);
    }
    reveal_strlit("sessionKey");
    reveal_strlit("message");
    reveal_strlit("idempotencyKey");
    assert("sessionKey"@.len() != "message"@.len());
    assert("sessionKey"@.len() != "idempotencyKey"@.len());
    assert("message"@.len() != "idempotencyKey"@.len());
}

/// A conversation here is in another session than the completions of the same model and user, and
/// those who share model and user share it.
pub proof fn law_sessions_of_responses(
    model: &str,
    user: &str,
    given: Option<String>,
    agent: String,
    who: String,
    r: String,
)
    requires
        call_ensures(resolve_openresponses_session_key, (model, &given), r),
        call_ensures(slug_of, (model, true), agent),
        call_ensures(slug_of, (user, true), who),
        given is Some ==> given->0@ == user@,
    ensures
        r@ == "agent:"@ + (if agent@.len() == 0 {
            "main"@
        } else {
            agent@
        }) + ":openresponses:chat:"@ + (if given is None || who@.len() == 0 {
            "default"@
        } else {
            who@
        }),
{
    reveal_strlit(":");
    reveal_strlit("openresponses");
    reveal_strlit(":chat:");
    reveal_strlit(":openresponses:chat:");
    assert(":"@ + "openresponses"@ + ":chat:"@ =~= ":openresponses:chat:"@);
    assert(r@ =~= "agent:"@ + (if agent@.len() == 0 {
        "main"@
    } else {
        agent@
    }) + (":"@ + "openresponses"@ + ":chat:"@) + (if given is None || who@.len() == 0 {
        "default"@
    } else {
        who@
    }));
}

/// A response that was asked for whole is answered with 200 and holds what the assistant said; one
/// that was asked for in pieces is created, brings that, is completed with it and is done. One
/// that failed is answered with its error.
pub proof fn law_responses_are_answered(
    plan: &EndpointPlan,
    result: &Result<Json, ErrorShape>,
    now: u64,
    delta_item: &str,
    final_item: &str,
    r: ResponseReply,
)
    requires
        call_ensures(finish_response, (plan, result, now, delta_item, final_item), r),
    ensures
        ({
            let said = match *result {
                Ok(payload) => match member(payload@, "message"@) {
                    Some(JsonModel::Text(said)) => said,
                    _ => "No response from Reclaw Core."@,
                },
                Err(_) => ""@,
            };
            &&& r is Pieces <==> *result is Ok && plan.stream
            &&& *result is Err ==> {
                &&& r->Whole_0.status == (if result->Err_0.code@ == "INVALID_REQUEST"@ {
                    400u16
                } else {
                    503u16
                })
                &&& member(r->Whole_0.body@, "error"@) is Some
                &&& member(member(r->Whole_0.body@, "error"@)->0, "message"@) == Some(
                    JsonModel::Text(result->Err_0.message@),
                )
            }
            &&& r is Whole && *result is Ok ==> {
                let body = r->Whole_0.body@;
                &&& r->Whole_0.status == 200
                &&& member(body, "id"@) == Some(JsonModel::Text(plan.response_id@))
                &&& member(body, "model"@) == Some(JsonModel::Text(plan.model@))
                &&& member(body, "created_at"@) == Some(JsonModel::Unsigned(now / 1000))
                &&& member(body, "status"@) == Some(JsonModel::Text("completed"@))
                &&& response_says(body, said)
            }
            &&& r is Pieces ==> {
                let events = r->Pieces_0@;
                &&& events.len() == 4
                &&& events[0].event is Some && events[0].event->0@ == "response.created"@
                &&& events[1].event is Some && events[1].event->0@ == "response.output_text.delta"@
                &&& events[2].event is Some && events[2].event->0@ == "response.completed"@
                &&& events[3].event is None && events[3].data@ == "[DONE]"@
                &&& exists|piece: JsonModel|
                    events[1].data@ == #[trigger] json_text_of(piece) && member(piece, "delta"@) == Some(
                        JsonModel::Text(said),
                    ) && member(piece, "response_id"@) == Some(JsonModel::Text(plan.response_id@))
                &&& exists|piece: JsonModel|
                    events[2].data@ == #[trigger] json_text_of(piece) && member(piece, "response"@) is Some
                        && response_says(member(piece, "response"@)->0, said)
            }
        }),
{
    reveal_strlit("id");
    reveal_strlit("object");
    reveal_strlit("created_at");
    reveal_strlit("status");
    reveal_strlit("model");
    reveal_strlit("output");
    reveal_strlit("usage");
    reveal_strlit("error");
    reveal_strlit("type");
    reveal_strlit("role");
    reveal_strlit("content");
    reveal_strlit("text");
    reveal_strlit("message");
    reveal_strlit("response");
    reveal_strlit("response_id");
    reveal_strlit("item_id");
    reveal_strlit("delta");
    assert("id"@.len() != "object"@.len());
    assert("id"@.len() != "created_at"@.len());
    assert("id"@.len() != "status"@.len());
    assert("id"@.len() != "model"@.len());
    assert("id"@.len() != "output"@.len());
    assert("id"@.len() != "usage"@.len());
    assert("id"@.len() != "error"@.len());
    assert("id"@.len() != "type"@.len());
    assert("id"@.len() != "role"@.len());
    assert("id"@.len() != "content"@.len());
    assert("id"@.len() != "text"@.len());
    assert("id"@.len() != "message"@.len());
    assert("id"@.len() != "response"@.len());
    assert("id"@.len() != "response_id"@.len());
    assert("id"@.len() != "item_id"@.len());
    assert("id"@.len() != "delta"@.len());
    assert("object"@.len() != "created_at"@.len());
    assert("object"@[0] != "status"@[0]);
    assert("object"@.len() != "model"@.len());
    assert("object"@[1] != "output"@[1]);
    assert("object"@.len() != "usage"@.len());
    assert("object"@.len() != "error"@.len());
    assert("object"@.len() != "type"@.len());
    assert("object"@.len() != "role"@.len());
    assert("object"@.len() != "content"@.len());
    assert("object"@.len() != "text"@.len());
    assert("object"@.len() != "message"@.len());
    assert("object"@.len() != "response"@.len());
    assert("object"@.len() != "response_id"@.len());
    assert("object"@.len() != "item_id"@.len());
    assert("object"@.len() != "delta"@.len());
    assert("created_at"@.len() != "status"@.len());
    assert("created_at"@.len() != "model"@.len());
    assert("created_at"@.len() != "output"@.len());
    assert("created_at"@.len() != "usage"@.len());
    assert("created_at"@.len() != "error"@.len());
    assert("created_at"@.len() != "type"@.len());
    assert("created_at"@.len() != "role"@.len());
    assert("created_at"@.len() != "content"@.len());
    assert("created_at"@.len() != "text"@.len());
    assert("created_at"@.len() != "message"@.len());
    assert("created_at"@.len() != "response"@.len());
    assert("created_at"@.len() != "response_id"@.len());
    assert("created_at"@.len() != "item_id"@.len());
    assert("created_at"@.len() != "delta"@.len());
    assert("status"@.len() != "model"@.len());
    assert("status"@[0] != "output"@[0]);
    assert("status"@.len() != "usage"@.len());
    assert("status"@.len() != "error"@.len());
    assert("status"@.len() != "type"@.len());
    assert("status"@.len() != "role"@.len());
    assert("status"@.len() != "content"@.len());
    assert("status"@.len() != "text"@.len());
    assert("status"@.len() != "message"@.len());
    assert("status"@.len() != "response"@.len());
    assert("status"@.len() != "response_id"@.len());
    assert("status"@.len() != "item_id"@.len());
    assert("status"@.len() != "delta"@.len());
    assert("model"@.len() != "output"@.len());
    assert("model"@[0] != "usage"@[0]);
    assert("model"@[0] != "error"@[0]);
    assert("model"@.len() != "type"@.len());
    assert("model"@.len() != "role"@.len());
    assert("model"@.len() != "content"@.len());
    assert("model"@.len() != "text"@.len());
    assert("model"@.len() != "message"@.len());
    assert("model"@.len() != "response"@.len());
    assert("model"@.len() != "response_id"@.len());
    assert("model"@.len() != "item_id"@.len());
    assert("model"@[0] != "delta"@[0]);
    assert("output"@.len() != "usage"@.len());
    assert("output"@.len() != "error"@.len());
    assert("output"@.len() != "type"@.len());
    assert("output"@.len() != "role"@.len());
    assert("output"@.len() != "content"@.len());
    assert("output"@.len() != "text"@.len());
    assert("output"@.len() != "message"@.len());
    assert("output"@.len() != "response"@.len());
    assert("output"@.len() != "response_id"@.len());
    assert("output"@.len() != "item_id"@.len());
    assert("output"@.len() != "delta"@.len());
    assert("usage"@[0] != "error"@[0]);
    assert("usage"@.len() != "type"@.len());
    assert("usage"@.len() != "role"@.len());
    assert("usage"@.len() != "content"@.len());
    assert("usage"@.len() != "text"@.len());
    assert("usage"@.len() != "message"@.len());
    assert("usage"@.len() != "response"@.len());
    assert("usage"@.len() != "response_id"@.len());
    assert("usage"@.len() != "item_id"@.len());
    assert("usage"@[0] != "delta"@[0]);
    assert("error"@.len() != "type"@.len());
    assert("error"@.len() != "role"@.len());
    assert("error"@.len() != "content"@.len());
    assert("error"@.len() != "text"@.len());
    assert("error"@.len() != "message"@.len());
    assert("error"@.len() != "response"@.len());
    assert("error"@.len() != "response_id"@.len());
    assert("error"@.len() != "item_id"@.len());
    assert("error"@[0] != "delta"@[0]);
    assert("type"@[0] != "role"@[0]);
    assert("type"@.len() != "content"@.len());
    assert("type"@[1] != "text"@[1]);
    assert("type"@.len() != "message"@.len());
    assert("type"@.len() != "response"@.len());
    assert("type"@.len() != "response_id"@.len());
    assert("type"@.len() != "item_id"@.len());
    assert("type"@.len() != "delta"@.len());
    assert("role"@.len() != "content"@.len());
    assert("role"@[0] != "text"@[0]);
    assert("role"@.len() != "message"@.len());
    assert("role"@.len() != "response"@.len());
    assert("role"@.len() != "response_id"@.len());
    assert("role"@.len() != "item_id"@.len());
    assert("role"@.len() != "delta"@.len());
    assert("content"@.len() != "text"@.len());
    assert("content"@[0] != "message"@[0]);
    assert("content"@.len() != "response"@.len());
    assert("content"@.len() != "response_id"@.len());
    assert("content"@[0] != "item_id"@[0]);
    assert("content"@.len() != "delta"@.len());
    assert("text"@.len() != "message"@.len());
    assert("text"@.len() != "response"@.len());
    assert("text"@.len() != "response_id"@.len());
    assert("text"@.len() != "item_id"@.len());
    assert("text"@.len() != "delta"@.len());
    assert("message"@.len() != "response"@.len());
    assert("message"@.len() != "response_id"@.len());
    assert("message"@[0] != "item_id"@[0]);
    assert("message"@.len() != "delta"@.len());
    assert("response"@.len() != "response_id"@.len());
    assert("response"@.len() != "item_id"@.len());
    assert("response"@.len() != "delta"@.len());
    assert("response_id"@.len() != "item_id"@.len());
    assert("response_id"@.len() != "delta"@.len());
    assert("item_id"@.len() != "delta"@.len());
    if let Ok(payload) = *result {
        let said = assistant_text(payload@);
        let whole = response_body(
            plan.response_id@,
            plan.model@,
            now / 1_000,
            "completed"@,
            Some((final_item@, said)),
        );
        let body = one(
            JsonModel::Object(
                no_fields().insert("type"@, JsonModel::Text("output_text"@)).insert(
                    "text"@,
                    JsonModel::Text(said),
                ),
            ),
        );
        let items = output_items(Some((final_item@, said)));
        assert(member(whole, "output"@) == Some(items));
        assert(member(items->Array_0[0], "content"@) == Some(body));
        assert(member(body->Array_0[0], "text"@) == Some(JsonModel::Text(said)));
        assert(response_says(whole, said));
        let piece = delta_event(plan.response_id@, delta_item@, said);
        assert(member(piece, "delta"@) == Some(JsonModel::Text(said)));
        let last = lifecycle_event("response.completed"@, whole);
        assert(member(last, "response"@) == Some(whole));
        if r is Pieces {
            let events = r->Pieces_0@;
            assert(events[1].data@ == json_text_of(piece));
            assert(events[2].data@ == json_text_of(last));
        }
    }
}

/// A response has one item with one part, and the part has the text.
pub open spec fn response_says(body: JsonModel, said: Seq<char>) -> bool {
    member(body, "output"@) matches Some(JsonModel::Array(items)) && items.len() == 1 && (member(
        items[0],
        "content"@,
    ) matches Some(JsonModel::Array(parts)) && parts.len() == 1 && member(parts[0], "text"@) == Some(
        JsonModel::Text(said),
    ))
}

/// What is no JSON or no request is refused with 400, once the secret is shown.
pub proof fn law_what_is_no_response(
    mode: &AuthMode,
    authorization: Option<&str>,
    bad: BadBody,
    response: &str,
    conn_id: &str,
    open: Result<(), AuthFailureReason>,
    r: Result<EndpointPlan, HttpReply>,
)
    requires
        call_ensures(authorize_gateway_http, (mode, authorization), open),
        call_ensures(
            responses_handler,
            (mode, authorization, Err::<CreateResponseRequest, BadBody>(bad), response, conn_id),
            r,
        ),
    ensures
        r is Err,
        r->Err_0.status == (if open is Err {
            401u16
        } else {
            400u16
        }),
        crate::json::member(r->Err_0.body@, "error"@) is Some && crate::json::member(crate::json::member(r->Err_0.body@, "error"@)->0, "type"@) == Some(
            JsonModel::Text(
                if open is Err {
                    "authentication_error"@
                } else {
                    "invalid_request_error"@
                },
            ),
        ),
{
    reveal_strlit("error");
    reveal_strlit("type");
    reveal_strlit("message");
    assert("error"@.len() != "type"@.len());
    assert("error"@.len() != "message"@.len());
    assert("type"@.len() != "message"@.len());
}

} // verus!
