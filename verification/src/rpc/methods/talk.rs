//! How the gateway talks.
use crate::json::{no_fields, object, opt_model, set_field, text, Json, JsonModel};
use crate::protocol::errors::ErrorShape;
use crate::rpc::methods::{field_missing, required_text};
use crate::text::kept;
use vstd::prelude::*;

verus! {

broadcast use vstd::seq::group_seq_axioms;

pub const TALK_CONFIG_KEY: &'static str = "runtime/talk/config";

/// What is stored, or what counts where nothing is.
pub open spec fn talk_of(stored: Option<JsonModel>) -> JsonModel {
    match stored {
        Some(value) => value,
        None => JsonModel::Object(
            no_fields()
                .insert("mode"@, JsonModel::Text("default"@))
                .insert("allowMentions"@, JsonModel::Bool(true))
                .insert("safety"@, JsonModel::Text("standard"@)),
        ),
    }
}

/// What is stored, or what counts where nothing is.
pub fn handle_config(stored: Option<Json>) -> (r: Json)
    ensures
        r@ == talk_of(opt_model(stored)),
{
    match stored {
        Some(value) => value,
        None => {
            let mut o = object();
            set_field(&mut o, "mode", text("default"));
            set_field(&mut o, "allowMentions", Json::Bool(true));
            set_field(&mut o, "safety", text("standard"));
            Json::Object(o)
        },
    }
}

/// What is stored once another mode was chosen.
pub open spec fn talk_after(config: JsonModel, mode: Seq<char>) -> JsonModel {
    match config {
        JsonModel::Object(m) => JsonModel::Object(m.insert("mode"@, JsonModel::Text(mode))),
        _ => JsonModel::Object(
            no_fields()
                .insert("mode"@, JsonModel::Text(mode)),
        ),
    }
}

/// What is stored once another mode was chosen, and the answer.
pub fn handle_mode(mode: &str, stored: Option<Json>) -> (r: Result<(Json, Json), ErrorShape>)
    ensures
        match kept(mode@) {
            None => r is Err && r->Err_0@ == field_missing("talk.mode"@, "mode"@),
            Some(m) => {
                let config = talk_after(talk_of(opt_model(stored)), m);
                &&& r is Ok
                &&& r->Ok_0.0@ == config
                &&& r->Ok_0.1@ == JsonModel::Object(
                    no_fields()
                        .insert("ok"@, JsonModel::Bool(true))
                        .insert("mode"@, JsonModel::Text(m))
                        .insert("config"@, config),
                )
            },
        },
{
    let mode = required_text("talk.mode", "mode", mode)?;
    let mut config = match handle_config(stored) {
        Json::Object(o) => o,
        _ => object(),
    };
    set_field(&mut config, "mode", text(mode.as_str()));
    let config = Json::Object(config);
    let mut o = object();
    set_field(&mut o, "ok", Json::Bool(true));
    set_field(&mut o, "mode", text(mode.as_str()));
    set_field(&mut o, "config", config.copy());
    Ok((config, Json::Object(o)))
}

/// A mode that is chosen is stored, and what else is stored stays.
pub proof fn law_modes(
    mode: &str,
    stored: Option<Json>,
    before: Json,
    name: Seq<char>,
    r: Result<(Json, Json), ErrorShape>,
)
    requires
        call_ensures(handle_mode, (mode, stored), r),
        call_ensures(handle_config, (stored,), before),
    ensures
        stored is Some ==> before@ == stored->0@,
        stored is None ==> crate::json::member(before@, "mode"@) == Some(JsonModel::Text("default"@)) && crate::json::member(
            before@,
            "allowMentions"@,
        ) == Some(JsonModel::Bool(true)) && crate::json::member(before@, "safety"@) == Some(
            JsonModel::Text("standard"@),
        ),
        r is Ok <==> crate::text::not_blank(mode@),
        r is Ok ==> crate::json::member(r->Ok_0.0@, "mode"@) == Some(JsonModel::Text(crate::text::trimmed(mode@))),
        r is Ok && name != "mode"@ ==> crate::json::member(r->Ok_0.0@, name) == crate::json::member(before@, name),
        r is Ok ==> crate::json::member(r->Ok_0.1@, "config"@) == Some(r->Ok_0.0@) && crate::json::member(r->Ok_0.1@, "mode"@) == Some(
            JsonModel::Text(crate::text::trimmed(mode@)),
        ),
{
    crate::text::lemma_kept(mode@);
    reveal_strlit("mode");
    reveal_strlit("allowMentions");
    reveal_strlit("safety");
    reveal_strlit("ok");
    reveal_strlit("config");
    assert("mode"@.len() != "allowMentions"@.len());
    assert("mode"@.len() != "safety"@.len());
    assert("mode"@.len() != "ok"@.len());
    assert("mode"@.len() != "config"@.len());
    assert("allowMentions"@.len() != "safety"@.len());
    assert("allowMentions"@.len() != "ok"@.len());
    assert("allowMentions"@.len() != "config"@.len());
    assert("safety"@.len() != "ok"@.len());
    assert("safety"@[0] != "config"@[0]);
    assert("ok"@.len() != "config"@.len());
}

} // verus!
