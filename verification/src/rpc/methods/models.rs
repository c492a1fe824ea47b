//! The models that can be chosen.
use crate::json::{
    copy_items, lemma_models, lemma_models_push, member, models, no_fields, object, opt_model, set_field, text, text_of,
    Json, JsonModel,
};
use crate::rpc::methods::sessions::{clamped, limit_items, limited};
use crate::text::{kept_opt, opt_text, same, trim_non_empty_opt};
use vstd::prelude::*;

verus! {

broadcast use vstd::seq::group_seq_axioms;

pub const MODELS_CATALOG_KEY: &'static str = "runtime/models/catalog";

/// A model of the catalog.
pub open spec fn model_entry(id: Seq<char>, provider: Seq<char>, label: Seq<char>, window: u64) -> JsonModel {
    JsonModel::Object(
        no_fields()
            .insert("id"@, JsonModel::Text(id))
            .insert("provider"@, JsonModel::Text(provider))
            .insert("label"@, JsonModel::Text(label))
            .insert("contextWindow"@, JsonModel::Unsigned(window))
            .insert("kind"@, JsonModel::Text("chat"@)),
    )
}

/// The models where no catalog is stored.
pub open spec fn default_catalog() -> Seq<JsonModel> {
    seq![
        model_entry("gpt-5"@, "openai"@, "GPT-5"@, 200_000),
        model_entry("gpt-4.1-mini"@, "openai"@, "GPT-4.1 Mini"@, 128_000),
        model_entry("mock-local"@, "local"@, "Mock Local"@, 8_192),
    ]
}

fn new_model(id: &str, provider: &str, label: &str, window: u64) -> (r: Json)
    ensures
        r@ == model_entry(id@, provider@, label@, window),
{
    let mut o = object();
    set_field(&mut o, "id", text(id));
    set_field(&mut o, "provider", text(provider));
    set_field(&mut o, "label", text(label));
    set_field(&mut o, "contextWindow", Json::Unsigned(window));
    set_field(&mut o, "kind", text("chat"));
    Json::Object(o)
}

/// The models where no catalog is stored.
pub fn default_models() -> (r: Vec<Json>)
    ensures
        models(r@) == default_catalog(),
{
    let r = vec![
        new_model("gpt-5", "openai", "GPT-5", 200_000),
        new_model("gpt-4.1-mini", "openai", "GPT-4.1 Mini", 128_000),
        new_model("mock-local", "local", "Mock Local", 8_192),
    ];
    proof {
        lemma_models(r@);
        assert(models(r@) =~= default_catalog());
    }
    r
}

/// The models of a provider, where one is asked for.
pub open spec fn of_provider(items: Seq<JsonModel>, provider: Option<Seq<char>>) -> Seq<JsonModel>
    decreases items.len(),
{
    match provider {
        None => items,
        Some(name) => if items.len() == 0 {
            items
        } else if text_of(member(items.last(), "provider"@)) == Some(name) {
            of_provider(items.drop_last(), provider).push(items.last())
        } else {
            of_provider(items.drop_last(), provider)
        },
    }
}

fn retain_provider(items: &Vec<Json>, provider: &Option<String>) -> (r: Vec<Json>)
    ensures
        models(r@) == of_provider(models(items@), opt_text(*provider)),
{
    let name = match provider {
        Some(name) => name,
        None => {
            return copy_items(items);
        },
    };
    let ghost all = models(items@);
    let mut out: Vec<Json> = Vec::new();
    let mut i: usize = 0;
    proof {
        lemma_models(items@);
        lemma_models(out@);
        assert(models(out@) =~= of_provider(all.take(0), Some(name@)));
    }
    while i < items.len()
        invariant
            i <= items@.len(),
            all == models(items@),
            models(out@) == of_provider(all.take(i as int), Some(name@)),
        decreases items@.len() - i,
    {
        let ghost so_far = out@;
        proof {
            let t = all.take(i + 1);
            assert(t.drop_last() =~= all.take(i as int));
            assert(t.last() == items@[i as int]@);
        }
        let is_its = match items[i].get_text("provider") {
            Some(found) => same(found.as_str(), name.as_str()),
            None => false,
        };
        if is_its {
            out.push(items[i].copy());
            proof {
                lemma_models_push(so_far, out@.last());
            }
        }
        i = i + 1;
    }
    assert(all.take(i as int) =~= all);
    out
}

/// The models: of the stored catalog or the default ones, of one provider where one is asked for,
/// and at most as many as are asked for.
pub open spec fn listed_models(
    stored: Option<JsonModel>,
    provider: Option<Seq<char>>,
    limit: Option<usize>,
) -> Seq<JsonModel> {
    limited(
        of_provider(
            match stored {
                Some(JsonModel::Array(items)) => items,
                _ => default_catalog(),
            },
            kept_opt(provider),
        ),
        Some(clamped(limit, 64, 1, 512)),
    )
}

/// The models.
pub fn handle_list(
    stored: Option<Json>,
    provider: &Option<String>,
    limit: Option<usize>,
    now: u64,
) -> (r: Json)
    ensures
        r@ == JsonModel::Object(
            no_fields()
                .insert("ts"@, JsonModel::Unsigned(now))
                .insert("models"@, JsonModel::Array(listed_models(opt_model(stored), opt_text(*provider), limit))),
        ),
{
    let catalog = match stored {
        Some(Json::Array(items)) => items,
        _ => default_models(),
    };
    let limit: usize = match limit {
        None => 64,
        Some(n) => if n < 1 {
            1
        } else if n > 512 {
            512
        } else {
            n
        },
    };
    let some = retain_provider(&catalog, &trim_non_empty_opt(provider));
    let ghost all = some@;
    let listed = limit_items(some, Some(limit));
    proof {
        lemma_models(all);
        lemma_models(listed@);
        assert(models(listed@) =~= limited(models(all), Some(limit)));
    }
    let mut o = object();
    set_field(&mut o, "ts", Json::Unsigned(now));
    set_field(&mut o, "models", Json::Array(listed));
    Json::Object(o)
}

/// Every model that is listed for a provider is of that provider.
pub proof fn law_listed_models_are_of_the_provider(items: Seq<JsonModel>, name: Seq<char>, i: int)
    requires
        0 <= i < of_provider(items, Some(name)).len(),
    ensures
        text_of(member(of_provider(items, Some(name))[i], "provider"@)) == Some(name),
    decreases items.len(),
{
    if items.len() > 0 {
        let earlier = of_provider(items.drop_last(), Some(name));
        if i < earlier.len() {
            law_listed_models_are_of_the_provider(items.drop_last(), name, i);
        }
    }
}

/// The models that are listed are those of the catalogue which the provider has, where one is asked
/// for, and else all, as far as the bound allows.
pub proof fn law_models_are_listed(
    items: Vec<Json>,
    provider: &Option<String>,
    limit: Option<usize>,
    now: u64,
    i: int,
    r: Json,
)
    requires
        call_ensures(handle_list, (Some(Json::Array(items)), provider, limit, now), r),
    ensures
        ({
            let listed = crate::json::member(r@, "models"@)->0->Array_0;
            let bound: int = if limit is None {
                64
            } else if limit->0 < 1 {
                1
            } else if limit->0 > 512 {
                512
            } else {
                limit->0 as int
            };
            &&& crate::json::member(r@, "models"@) is Some && crate::json::member(r@, "models"@)->0 is Array
            &&& crate::json::member(r@, "ts"@) == Some(JsonModel::Unsigned(now))
            &&& listed.len() <= bound
            &&& !crate::rpc::methods::agent::is_given(*provider) && 0 <= i < items@.len() && i < bound ==> i < listed.len() && listed[i]
                == items@[i]@
            &&& crate::rpc::methods::agent::is_given(*provider) && 0 <= i < listed.len() ==> crate::json::member(listed[i], "provider"@) == Some(
                JsonModel::Text(crate::text::trimmed(provider->0@)),
            )
            &&& crate::rpc::methods::agent::is_given(*provider) && 0 <= i < items@.len() && items@.len() <= bound && crate::json::member(
                items@[i]@,
                "provider"@,
            ) == Some(JsonModel::Text(crate::text::trimmed(provider->0@))) ==> listed.contains(items@[i]@)
        }),
{
    reveal_strlit("ts");
    reveal_strlit("models");
    assert("ts"@.len() != "models"@.len());
    crate::rpc::methods::agent::lemma_is_given(*provider);
    lemma_models(items@);
    let all = models(items@);
    let some = of_provider(all, kept_opt(opt_text(*provider)));
    lemma_of_provider(all, kept_opt(opt_text(*provider)));
    let listed = listed_models(Some(JsonModel::Array(all)), opt_text(*provider), limit);
    if 0 <= i < items@.len() {
        assert(all[i] == items@[i]@);
    }
    if crate::rpc::methods::agent::is_given(*provider) && 0 <= i < listed.len() {
        law_listed_models_are_of_the_provider(all, crate::text::trimmed(provider->0@), i);
        assert(listed[i] == some[i]);
    }
}

proof fn lemma_of_provider(items: Seq<JsonModel>, provider: Option<Seq<char>>)
    ensures
        of_provider(items, provider).len() <= items.len(),
        provider is Some ==> forall|k: int|
            0 <= k < items.len() && text_of(member(#[trigger] items[k], "provider"@)) == provider
                ==> of_provider(items, provider).contains(items[k]),
    decreases items.len(),
{
    if provider is Some && items.len() > 0 {
        let shorter = items.drop_last();
        let earlier = of_provider(shorter, provider);
        let some = of_provider(items, provider);
        lemma_of_provider(shorter, provider);
        assert forall|k: int|
            0 <= k < items.len() && text_of(member(#[trigger] items[k], "provider"@)) == provider implies some.contains(
            items[k],
        ) by {
            if k < items.len() - 1 {
                assert(shorter[k] == items[k]);
                assert(earlier.contains(items[k]));
                let p = choose|p: int| 0 <= p < earlier.len() && earlier[p] == items[k];
                assert(some[p] == earlier[p]);
            } else {
                assert(some[earlier.len() as int] == items[k]);
            }
        }
    }
}

/// Where no catalogue is stored there are three models.
pub proof fn law_models_there_are(r: Vec<Json>)
    requires
        call_ensures(default_models, (), r),
    ensures
        r@.len() == 3,
        crate::json::member(r@[0]@, "id"@) == Some(JsonModel::Text("gpt-5"@)) && crate::json::member(r@[0]@, "provider"@) == Some(
            JsonModel::Text("openai"@),
        ) && crate::json::member(r@[0]@, "contextWindow"@) == Some(JsonModel::Unsigned(200000)),
        crate::json::member(r@[1]@, "id"@) == Some(JsonModel::Text("gpt-4.1-mini"@)) && crate::json::member(r@[1]@, "provider"@) == Some(
            JsonModel::Text("openai"@),
        ) && crate::json::member(r@[1]@, "contextWindow"@) == Some(JsonModel::Unsigned(128000)),
        crate::json::member(r@[2]@, "id"@) == Some(JsonModel::Text("mock-local"@)) && crate::json::member(r@[2]@, "provider"@) == Some(
            JsonModel::Text("local"@),
        ) && crate::json::member(r@[2]@, "contextWindow"@) == Some(JsonModel::Unsigned(8192)),
{
    lemma_models(r@);
    let all = models(r@);
    assert(all.len() == r@.len());
    assert(all[0] == r@[0]@ && all[1] == r@[1]@ && all[2] == r@[2]@);
    reveal_strlit("id");
    reveal_strlit("provider");
    reveal_strlit("label");
    reveal_strlit("contextWindow");
    reveal_strlit("kind");
    assert("id"@.len() != "provider"@.len());
    assert("id"@.len() != "label"@.len());
    assert("id"@.len() != "contextWindow"@.len());
    assert("id"@.len() != "kind"@.len());
    assert("provider"@.len() != "label"@.len());
    assert("provider"@.len() != "contextWindow"@.len());
    assert("provider"@.len() != "kind"@.len());
    assert("label"@.len() != "contextWindow"@.len());
    assert("label"@.len() != "kind"@.len());
    assert("contextWindow"@.len() != "kind"@.len());
}

} // verus!
