//! Speech: whether it is switched on, who speaks, and what is spoken.
use crate::json::{
    array_of, bool_of, copy_items, field, fields, get_field, lemma_models, models, no_fields, object,
    opt_model, opt_text_json, set_field, text, text_of, text_or_null, Json, JsonModel,
};
use crate::protocol::errors::{invalid, invalid_request, unavailable, ErrorShape, ERROR_UNAVAILABLE};
use crate::rpc::methods::{field_missing, required_text};
use crate::sorted_map::SortedMap;
use crate::text::{
    cat, either, first_of, kept, kept_opt, opt_text, or_text, same, text_or, trim_non_empty_opt,
};
use vstd::prelude::*;
use vstd::utf8::encode_utf8;

verus! {

broadcast use vstd::seq::group_seq_axioms;

pub const TTS_CONFIG_KEY: &'static str = "runtime/tts/config";

/// How speech is set up where nothing is stored.
pub open spec fn default_tts() -> Map<Seq<char>, JsonModel> {
    no_fields().insert("enabled"@, JsonModel::Bool(false)).insert(
        "provider"@,
        JsonModel::Text("mock"@),
    ).insert("providers"@, JsonModel::Array(seq![JsonModel::Text("mock"@)]))
}

/// How speech is set up.
pub open spec fn tts_of(stored: Option<JsonModel>) -> Map<Seq<char>, JsonModel> {
    match stored {
        Some(JsonModel::Object(m)) => m,
        _ => default_tts(),
    }
}

/// How speech is set up where nothing is stored.
pub fn default_tts_config() -> (r: SortedMap<Json>)
    ensures
        fields(r) == default_tts(),
{
    let providers = vec![text("mock")];
    proof {
        lemma_models(providers@);
        assert(models(providers@) =~= seq![JsonModel::Text("mock"@)]);
    }
    let mut o = object();
    set_field(&mut o, "enabled", Json::Bool(false));
    set_field(&mut o, "provider", text("mock"));
    set_field(&mut o, "providers", Json::Array(providers));
    o
}

/// How speech is set up.
pub fn load_tts_config(stored: Option<Json>) -> (r: SortedMap<Json>)
    ensures
        fields(r) == tts_of(opt_model(stored)),
{
    match stored {
        Some(Json::Object(o)) => o,
        _ => default_tts_config(),
    }
}

/// How speech is set up.
pub fn handle_status(stored: Option<Json>) -> (r: Json)
    ensures
        r@ == JsonModel::Object(tts_of(opt_model(stored))),
{
    Json::Object(load_tts_config(stored))
}

/// Who can speak.
pub open spec fn providers_of(config: Map<Seq<char>, JsonModel>) -> Option<Seq<JsonModel>> {
    array_of(field(config, "providers"@))
}

/// Who can speak, and who does.
pub fn handle_providers(stored: Option<Json>) -> (r: Json)
    ensures
        r@ == ({
            let config = tts_of(opt_model(stored));
            JsonModel::Object(
                no_fields()
                    .insert("providers"@, JsonModel::Array(match providers_of(config) { Some(items) => items, None => seq![JsonModel::Text("mock"@)] }))
                    .insert("activeProvider"@, match field(config, "provider"@) { Some(value) => value, None => JsonModel::Text("mock"@) }),
            )
        }),
{
    let config = load_tts_config(stored);
    let listed = match get_field(&config, "providers") {
        Some(Json::Array(items)) => Json::Array(copy_items(items)),
        _ => {
            let providers = vec![text("mock")];
            proof {
                lemma_models(providers@);
                assert(models(providers@) =~= seq![JsonModel::Text("mock"@)]);
            }
            Json::Array(providers)
        },
    };
    let active = match get_field(&config, "provider") {
        Some(value) => value.copy(),
        None => text("mock"),
    };
    let mut o = object();
    set_field(&mut o, "providers", listed);
    set_field(&mut o, "activeProvider", active);
    Json::Object(o)
}

/// Switches speech on or off: what is stored, and the answer.
pub fn set_tts_enabled(stored: Option<Json>, enabled: bool) -> (r: (Json, Json))
    ensures
        ({
            let config = JsonModel::Object(
                tts_of(opt_model(stored)).insert("enabled"@, JsonModel::Bool(enabled)),
            );
            &&& r.0@ == config
            &&& r.1@ == JsonModel::Object(
                no_fields()
                    .insert("ok"@, JsonModel::Bool(true))
                    .insert("enabled"@, JsonModel::Bool(enabled))
                    .insert("status"@, config),
            )
        }),
{
    let mut config = load_tts_config(stored);
    set_field(&mut config, "enabled", Json::Bool(enabled));
    let config = Json::Object(config);
    let mut o = object();
    set_field(&mut o, "ok", Json::Bool(true));
    set_field(&mut o, "enabled", Json::Bool(enabled));
    set_field(&mut o, "status", config.copy());
    (config, Json::Object(o))
}

/// A provider is among those who can speak.
pub open spec fn can_speak(config: Map<Seq<char>, JsonModel>, provider: Seq<char>) -> bool {
    match providers_of(config) {
        Some(items) => items.contains(JsonModel::Text(provider)),
        None => false,
    }
}

fn offers(config: &SortedMap<Json>, provider: &str) -> (r: bool)
    ensures
        r == can_speak(fields(*config), provider@),
{
    let items = match get_field(config, "providers") {
        Some(Json::Array(items)) => items,
        _ => {
            return false;
        },
    };
    proof {
        lemma_models(items@);
    }
    let mut i: usize = 0;
    while i < items.len()
        invariant
            i <= items@.len(),
            providers_of(fields(*config)) == Some(models(items@)),
            forall|k: int| 0 <= k < i ==> (#[trigger] items@[k])@ != JsonModel::Text(provider@),
        decreases items@.len() - i,
    {
        if let Some(name) = items[i].as_str() {
            if same(name, provider) {
                assert(models(items@)[i as int] == JsonModel::Text(provider@));
                return true;
            }
        }
        i = i + 1;
    }
    assert forall|k: int| 0 <= k < models(items@).len() implies models(items@)[k] != JsonModel::Text(
        provider@,
    ) by {
        assert(items@[k]@ != JsonModel::Text(provider@));
    }
    false
}

/// Chooses who speaks: what is stored, and the answer.
pub fn handle_set_provider(provider: &str, stored: Option<Json>) -> (r: Result<
    (Json, Json),
    ErrorShape,
>)
    ensures
        match kept(provider@) {
            None => r is Err && r->Err_0@ == field_missing("tts.setProvider"@, "provider"@),
            Some(name) => {
                let before = tts_of(opt_model(stored));
                if can_speak(before, name) {
                    let config = JsonModel::Object(
                        before.insert("provider"@, JsonModel::Text(name)),
                    );
                    &&& r is Ok
                    &&& r->Ok_0.0@ == config
                    &&& r->Ok_0.1@ == JsonModel::Object(
                        no_fields()
                            .insert("ok"@, JsonModel::Bool(true))
                            .insert("provider"@, JsonModel::Text(name))
                            .insert("status"@, config),
                    )
                } else {
                    r is Err && r->Err_0@ == invalid("unknown tts provider: "@ + name)
                }
            },
        },
{
    let name = required_text("tts.setProvider", "provider", provider)?;
    let mut config = load_tts_config(stored);
    if !offers(&config, name.as_str()) {
        return Err(invalid_request(cat("unknown tts provider: ", name.as_str()).as_str()));
    }
    set_field(&mut config, "provider", text(name.as_str()));
    let config = Json::Object(config);
    let mut o = object();
    set_field(&mut o, "ok", Json::Bool(true));
    set_field(&mut o, "provider", text(name.as_str()));
    set_field(&mut o, "status", config.copy());
    Ok((config, Json::Object(o)))
}

/// What is spoken.
pub struct TtsConvertParams {
    pub text: String,
    pub provider: Option<String>,
    pub voice: Option<String>,
}

/// How long it takes to speak a text, in milliseconds: 40 for each of its bytes.
pub open spec fn speech_ms(s: Seq<char>) -> nat {
    if encode_utf8(s).len() * 40 > usize::MAX {
        usize::MAX as nat
    } else {
        encode_utf8(s).len() * 40
    }
}

fn speech_millis(s: &str) -> (r: u64)
    ensures
        r == speech_ms(s@),
{
    let len: usize = s.as_bytes().len();
    if len > usize::MAX / 40 {
        usize::MAX as u64
    } else {
        (len * 40) as u64
    }
}

/// Speaks a text, where speech is switched on.
pub fn handle_convert(params: &TtsConvertParams, stored: Option<Json>) -> (r: Result<Json, ErrorShape>)
    ensures
        match kept(params.text@) {
            None => r is Err && r->Err_0@ == field_missing("tts.convert"@, "text"@),
            Some(body) => {
                let config = tts_of(opt_model(stored));
                if bool_of(field(config, "enabled"@)) == Some(true) {
                    &&& r is Ok
                    &&& r->Ok_0@ == JsonModel::Object(
                        no_fields()
                            .insert("ok"@, JsonModel::Bool(true))
                            .insert("provider"@, JsonModel::Text(text_or(first_of(kept_opt(opt_text(params.provider)), text_of(field(config, "provider"@))), "mock"@)))
                            .insert("voice"@, text_or_null(opt_text(params.voice)))
                            .insert("audio"@, JsonModel::Object(
                            no_fields()
                                .insert("format"@, JsonModel::Text("text/plain"@))
                                .insert("durationMs"@, JsonModel::Unsigned(speech_ms(body) as u64))
                                .insert("content"@, JsonModel::Text(body)),
                        )),
                    )
                } else {
                    r is Err && r->Err_0@ == unavailable("tts is disabled"@)
                }
            },
        },
{
    let body = required_text("tts.convert", "text", params.text.as_str())?;
    let config = load_tts_config(stored);
    let enabled: bool = match get_field(&config, "enabled") {
        Some(Json::Bool(enabled)) => *enabled,
        _ => false,
    };
    if !enabled {
        return Err(ErrorShape::new(ERROR_UNAVAILABLE, "tts is disabled"));
    }
    let active = match get_field(&config, "provider") {
        Some(Json::Text(name)) => Some(name.clone()),
        _ => None,
    };
    let provider = or_text(either(trim_non_empty_opt(&params.provider), active), "mock");
    let mut audio = object();
    set_field(&mut audio, "format", text("text/plain"));
    set_field(&mut audio, "durationMs", Json::Unsigned(speech_millis(body.as_str())));
    set_field(&mut audio, "content", text(body.as_str()));
    let mut o = object();
    set_field(&mut o, "ok", Json::Bool(true));
    set_field(&mut o, "provider", text(provider.as_str()));
    set_field(&mut o, "voice", opt_text_json(&params.voice));
    set_field(&mut o, "audio", Json::Object(audio));
    Ok(Json::Object(o))
}

/// Where nothing is stored, nothing is spoken.
pub proof fn law_speech_is_off_at_first()
    ensures
        bool_of(field(tts_of(None), "enabled"@)) == Some(false),
{
    reveal_strlit("enabled");
    reveal_strlit("provider");
    reveal_strlit("providers");
    assert("enabled"@.len() == 7 && "provider"@.len() == 8 && "providers"@.len() == 9);
}

/// The provider that speaks where nothing is stored is one that can.
pub proof fn law_default_provider_can_speak()
    ensures
        can_speak(default_tts(), "mock"@),
{
    let items = seq![JsonModel::Text("mock"@)];
    assert(field(default_tts(), "providers"@) == Some(JsonModel::Array(items)));
    assert(items[0] == JsonModel::Text("mock"@));
}

/// Speech that is switched on or off stays so in what is stored, and nothing else of that changes.
pub proof fn law_switching_speech(stored: Option<Json>, enabled: bool, before: Json, name: Seq<char>, r: (Json, Json))
    requires
        call_ensures(set_tts_enabled, (stored, enabled), r),
        call_ensures(handle_status, (stored,), before),
    ensures
        crate::json::member(r.0@, "enabled"@) == Some(JsonModel::Bool(enabled)),
        name != "enabled"@ ==> crate::json::member(r.0@, name) == crate::json::member(before@, name),
        crate::json::member(r.1@, "enabled"@) == Some(JsonModel::Bool(enabled)),
        crate::json::member(r.1@, "status"@) == Some(r.0@),
        stored is None ==> crate::json::member(before@, "enabled"@) == Some(JsonModel::Bool(false)) && crate::json::member(
            before@,
            "provider"@,
        ) == Some(JsonModel::Text("mock"@)),
        stored is Some && stored->0@ is Object ==> before@ == stored->0@,
{
    reveal_strlit("ok");
    reveal_strlit("enabled");
    reveal_strlit("status");
    reveal_strlit("provider");
    reveal_strlit("providers");
    assert("ok"@.len() != "enabled"@.len());
    assert("ok"@.len() != "status"@.len());
    assert("ok"@.len() != "provider"@.len());
    assert("ok"@.len() != "providers"@.len());
    assert("enabled"@.len() != "status"@.len());
    assert("enabled"@.len() != "provider"@.len());
    assert("enabled"@.len() != "providers"@.len());
    assert("status"@.len() != "provider"@.len());
    assert("status"@.len() != "providers"@.len());
    assert("provider"@.len() != "providers"@.len());
}

/// A provider is chosen exactly where it is one of those that are stored.
pub proof fn law_choosing_a_provider(
    provider: &str,
    stored: Option<Json>,
    before: Json,
    name: Seq<char>,
    r: Result<(Json, Json), ErrorShape>,
)
    requires
        call_ensures(handle_set_provider, (provider, stored), r),
        call_ensures(handle_status, (stored,), before),
    ensures
        r is Ok <==> crate::text::not_blank(provider@) && (crate::json::member(before@, "providers"@) matches Some(JsonModel::Array(items))
            && items.contains(JsonModel::Text(crate::text::trimmed(provider@)))),
        r is Ok ==> crate::json::member(r->Ok_0.0@, "provider"@) == Some(JsonModel::Text(crate::text::trimmed(provider@))),
        r is Ok && name != "provider"@ ==> crate::json::member(r->Ok_0.0@, name) == crate::json::member(before@, name),
        r is Ok ==> crate::json::member(r->Ok_0.1@, "status"@) == Some(r->Ok_0.0@),
{
    crate::text::lemma_kept(provider@);
    reveal_strlit("ok");
    reveal_strlit("status");
    reveal_strlit("provider");
    assert("ok"@.len() != "status"@.len());
    assert("ok"@.len() != "provider"@.len());
    assert("status"@.len() != "provider"@.len());
}

/// A text is spoken where it says something and speech is on: as the provider that is asked for, or
/// else the stored one, and forty milliseconds for each byte.
pub proof fn law_speaking(
    params: &TtsConvertParams,
    stored: Option<Json>,
    before: Json,
    r: Result<Json, ErrorShape>,
)
    requires
        call_ensures(handle_convert, (params, stored), r),
        call_ensures(handle_status, (stored,), before),
    ensures
        r is Ok <==> crate::text::not_blank(params.text@) && crate::json::member(before@, "enabled"@) == Some(JsonModel::Bool(true)),
        r is Err && crate::text::not_blank(params.text@) ==> r->Err_0.code@ == "UNAVAILABLE"@,
        r is Err && !crate::text::not_blank(params.text@) ==> r->Err_0.code@ == "INVALID_REQUEST"@,
        r is Ok ==> {
            let audio = crate::json::member(r->Ok_0@, "audio"@)->0;
            let bytes = encode_utf8(crate::text::trimmed(params.text@)).len();
            &&& crate::json::member(r->Ok_0@, "audio"@) is Some
            &&& crate::json::member(audio, "content"@) == Some(JsonModel::Text(crate::text::trimmed(params.text@)))
            &&& bytes * 40 <= usize::MAX ==> crate::json::member(audio, "durationMs"@) == Some(
                JsonModel::Unsigned((bytes * 40) as u64),
            )
            &&& crate::rpc::methods::agent::is_given(params.provider) ==> crate::json::member(r->Ok_0@, "provider"@) == Some(
                JsonModel::Text(crate::text::trimmed(params.provider->0@)),
            )
            &&& !crate::rpc::methods::agent::is_given(params.provider) ==> (crate::json::member(before@, "provider"@) matches Some(
                JsonModel::Text(name),
            ) ==> crate::json::member(r->Ok_0@, "provider"@) == Some(JsonModel::Text(name)))
        },
{
    crate::text::lemma_kept(params.text@);
    crate::rpc::methods::agent::lemma_is_given(params.provider);
    reveal_strlit("ok");
    reveal_strlit("provider");
    reveal_strlit("voice");
    reveal_strlit("audio");
    reveal_strlit("format");
    reveal_strlit("durationMs");
    reveal_strlit("content");
    assert("ok"@.len() != "provider"@.len());
    assert("ok"@.len() != "voice"@.len());
    assert("ok"@.len() != "audio"@.len());
    assert("ok"@.len() != "format"@.len());
    assert("ok"@.len() != "durationMs"@.len());
    assert("ok"@.len() != "content"@.len());
    assert("provider"@.len() != "voice"@.len());
    assert("provider"@.len() != "audio"@.len());
    assert("provider"@.len() != "format"@.len());
    assert("provider"@.len() != "durationMs"@.len());
    assert("provider"@.len() != "content"@.len());
    assert("voice"@[0] != "audio"@[0]);
    assert("voice"@.len() != "format"@.len());
    assert("voice"@.len() != "durationMs"@.len());
    assert("voice"@.len() != "content"@.len());
    assert("audio"@.len() != "format"@.len());
    assert("audio"@.len() != "durationMs"@.len());
    assert("audio"@.len() != "content"@.len());
    assert("format"@.len() != "durationMs"@.len());
    assert("format"@.len() != "content"@.len());
    assert("durationMs"@.len() != "content"@.len());
}

} // verus!
