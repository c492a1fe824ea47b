//! The phrase that wakes the gateway by voice.
use crate::json::{
    no_fields, object, opt_model, set_field, text, Json, JsonModel,
};
use crate::protocol::errors::{invalid, invalid_request, ErrorShape};
use crate::text::{kept, opt_text, trim_non_empty};
use vstd::prelude::*;

verus! {

broadcast use vstd::seq::group_seq_axioms;

pub const VOICEWAKE_CONFIG_KEY: &'static str = "runtime/voicewake/config";

/// What is stored, or what counts where nothing is.
pub open spec fn voicewake_of(stored: Option<JsonModel>) -> JsonModel {
    match stored {
        Some(value) => value,
        None => JsonModel::Object(
            no_fields()
                .insert("enabled"@, JsonModel::Bool(false))
                .insert("phrase"@, JsonModel::Text("hey reclaw"@)),
        ),
    }
}

/// What is stored, or what counts where nothing is.
pub fn handle_get(stored: Option<Json>) -> (r: Json)
    ensures
        r@ == voicewake_of(opt_model(stored)),
{
    match stored {
        Some(value) => value,
        None => {
            let mut o = object();
            set_field(&mut o, "enabled", Json::Bool(false));
            set_field(&mut o, "phrase", text("hey reclaw"));
            Json::Object(o)
        },
    }
}

/// What is stored after a change.
pub open spec fn voicewake_after(
    m: Map<Seq<char>, JsonModel>,
    enabled: Option<bool>,
    phrase: Option<Seq<char>>,
) -> Map<Seq<char>, JsonModel> {
    let switched = match enabled {
        Some(on) => m.insert("enabled"@, JsonModel::Bool(on)),
        None => m,
    };
    match phrase {
        Some(p) => switched.insert("phrase"@, JsonModel::Text(kept(p)->0)),
        None => switched,
    }
}

/// What is stored after a change, and the answer.
pub fn handle_set(stored: Option<Json>, enabled: Option<bool>, phrase: &Option<String>) -> (r: Result<
    (Json, Json),
    ErrorShape,
>)
    ensures
        match voicewake_of(opt_model(stored)) {
            JsonModel::Object(m) => if phrase is Some && kept(phrase->0@) is None {
                r is Err && r->Err_0@ == invalid(
                    "invalid voicewake.set params: phrase cannot be empty"@,
                )
            } else {
                let config = JsonModel::Object(voicewake_after(m, enabled, opt_text(*phrase)));
                &&& r is Ok
                &&& r->Ok_0.0@ == config
                &&& r->Ok_0.1@ == JsonModel::Object(
                    no_fields()
                        .insert("ok"@, JsonModel::Bool(true))
                        .insert("config"@, config),
                )
            },
            _ => r is Err && r->Err_0@ == invalid("voicewake config is corrupted"@),
        },
{
    let mut config = match handle_get(stored) {
        Json::Object(o) => o,
        _ => {
            return Err(invalid_request("voicewake config is corrupted"));
        },
    };
    if let Some(on) = enabled {
        set_field(&mut config, "enabled", Json::Bool(on));
    }
    if let Some(phrase) = phrase {
        match trim_non_empty(phrase.as_str()) {
            Some(p) => {
                set_field(&mut config, "phrase", text(p.as_str()));
            },
            None => {
                return Err(
                    invalid_request("invalid voicewake.set params: phrase cannot be empty"),
                );
            },
        }
    }
    let config = Json::Object(config);
    let mut o = object();
    set_field(&mut o, "ok", Json::Bool(true));
    set_field(&mut o, "config", config.copy());
    Ok((config, Json::Object(o)))
}

/// What is said of the wake word takes the place of what was stored, and what is not said stays. A
/// blank phrase is refused.
pub proof fn law_wake_words(
    stored: Option<Json>,
    enabled: Option<bool>,
    phrase: &Option<String>,
    before: Json,
    name: Seq<char>,
    r: Result<(Json, Json), ErrorShape>,
)
    requires
        call_ensures(handle_set, (stored, enabled, phrase), r),
        call_ensures(handle_get, (stored,), before),
    ensures
        stored is Some ==> before@ == stored->0@,
        stored is None ==> crate::json::member(before@, "enabled"@) == Some(JsonModel::Bool(false)) && crate::json::member(
            before@,
            "phrase"@,
        ) == Some(JsonModel::Text("hey reclaw"@)),
        r is Ok <==> before@ is Object && (*phrase is Some ==> crate::text::not_blank(phrase->0@)),
        r is Ok ==> {
            let after = r->Ok_0.0@;
            &&& enabled is Some ==> crate::json::member(after, "enabled"@) == Some(JsonModel::Bool(enabled->0))
            &&& enabled is None ==> crate::json::member(after, "enabled"@) == crate::json::member(before@, "enabled"@)
            &&& *phrase is Some ==> crate::json::member(after, "phrase"@) == Some(JsonModel::Text(crate::text::trimmed(phrase->0@)))
            &&& *phrase is None ==> crate::json::member(after, "phrase"@) == crate::json::member(before@, "phrase"@)
            &&& name != "enabled"@ && name != "phrase"@ ==> crate::json::member(after, name) == crate::json::member(before@, name)
            &&& crate::json::member(r->Ok_0.1@, "config"@) == Some(after)
        },
{
    if *phrase is Some {
        crate::text::lemma_kept(phrase->0@);
    }
    reveal_strlit("enabled");
    reveal_strlit("phrase");
    reveal_strlit("ok");
    reveal_strlit("config");
    assert("enabled"@.len() != "phrase"@.len());
    assert("enabled"@.len() != "ok"@.len());
    assert("enabled"@.len() != "config"@.len());
    assert("phrase"@.len() != "ok"@.len());
    assert("phrase"@[0] != "config"@[0]);
    assert("ok"@.len() != "config"@.len());
}

} // verus!
