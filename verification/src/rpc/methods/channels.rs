//! Channels: which there are, how they stand, and how one is left.
use crate::application::config::RuntimeConfig;
use crate::json::{
    bool_of, field_names, field_values, fields, lemma_models, lemma_models_push, member, models,
    names_of, no_fields, object,
    ordered_names, ordered_values, overlay, set_field, text, text_array, text_of, texts_json,
    value_or_null, Json, JsonModel,
};
use crate::protocol::errors::{invalid, invalid_request, ErrorShape};
use crate::interfaces::discord::{lemma_said, said, says};
use crate::rpc::methods::agent::{is_given, lemma_is_given};
use crate::rpc::methods::listed;
use crate::sorted_map::SortedMap;
use crate::text::{
    cat3, either, first_of, from_chars, kept_opt, lemma_kept, opt_text, or_text, same, text_or,
    texts, to_chars, trim_non_empty_opt, trimmed,
};
use vstd::prelude::*;

verus! {

broadcast use vstd::seq::group_seq_axioms;

pub const CHANNELS_STATUS_KEY: &'static str = "runtime/channels/status";

// ---------------------------------------------------------------------------------------------
// What an entry says
// ---------------------------------------------------------------------------------------------
/// The id of a channel's entry.
pub open spec fn id_of(entry: JsonModel) -> Option<Seq<char>> {
    kept_opt(text_of(member(entry, "id"@)))
}

/// The account of a channel's entry.
pub open spec fn account_of(entry: JsonModel) -> Option<Seq<char>> {
    kept_opt(text_of(member(entry, "accountId"@)))
}

/// The channel of an entry is connected; it is unless the entry says that it is not.
pub open spec fn is_connected(entry: JsonModel) -> bool {
    bool_of(member(entry, "connected"@)) != Some(false)
}

/// The kind of a channel's entry.
pub open spec fn kind_of(entry: JsonModel) -> Seq<char> {
    text_or(text_of(member(entry, "kind"@)), "unknown"@)
}

/// What an entry is kept under: its id, and its account unless that is the default.
pub open spec fn key_of(entry: JsonModel) -> Option<Seq<char>> {
    match id_of(entry) {
        None => None,
        Some(id) => match account_of(entry) {
            None => Some(id),
            Some(account) => if account == "default"@ {
                Some(id)
            } else {
                Some(id + "::"@ + account)
            },
        },
    }
}

/// The name of a channel for people.
pub open spec fn label_of(id: Seq<char>) -> Seq<char> {
    Seq::new(
        id.len(),
        |i: int|
            if id[i] == '-' {
                ' '
            } else {
                id[i]
            },
    )
}

/// The id of a channel's entry.
pub fn channel_id(entry: &Json) -> (r: Option<String>)
    ensures
        opt_text(r) == id_of(entry@),
{
    trim_non_empty_opt(&entry.get_text("id"))
}

/// The account of a channel's entry.
pub fn channel_account_id(entry: &Json) -> (r: Option<String>)
    ensures
        opt_text(r) == account_of(entry@),
{
    trim_non_empty_opt(&entry.get_text("accountId"))
}

/// Whether the channel of an entry is connected.
pub fn channel_connected(entry: &Json) -> (r: bool)
    ensures
        r == is_connected(entry@),
{
    match entry.get("connected") {
        Some(value) => match value.as_bool() {
            Some(connected) => connected,
            None => true,
        },
        None => true,
    }
}

/// The kind of a channel's entry.
pub fn channel_kind(entry: &Json) -> (r: String)
    ensures
        r@ == kind_of(entry@),
{
    or_text(entry.get_text("kind"), "unknown")
}

/// What an entry is kept under.
pub fn channel_entry_key(entry: &Json) -> (r: Option<String>)
    ensures
        opt_text(r) == key_of(entry@),
{
    let id = match channel_id(entry) {
        Some(id) => id,
        None => {
            return None;
        },
    };
    match channel_account_id(entry) {
        None => Some(id),
        Some(account) => if same(account.as_str(), "default") {
            Some(id)
        } else {
            Some(cat3(id.as_str(), "::", account.as_str()))
        },
    }
}

/// The name of a channel for people.
pub fn channel_label(id: &str) -> (r: String)
    ensures
        r@ == label_of(id@),
{
    let chars = to_chars(id);
    let mut out: Vec<char> = Vec::new();
    let mut i: usize = 0;
    while i < chars.len()
        invariant
            i <= chars@.len(),
            chars@ == id@,
            out@.len() == i,
            forall|k: int| 0 <= k < i ==> #[trigger] out@[k] == label_of(id@)[k],
        decreases chars@.len() - i,
    {
        if chars[i] == '-' {
            out.push(' ');
        } else {
            out.push(chars[i]);
        }
        i = i + 1;
    }
    assert(out@ =~= label_of(id@));
    from_chars(&out)
}

// ---------------------------------------------------------------------------------------------
// Which channels there are
// ---------------------------------------------------------------------------------------------
/// The entry of a connected channel.
pub open spec fn channel_entry(id: Seq<char>, kind: Seq<char>) -> JsonModel {
    JsonModel::Object(
        no_fields().insert("id"@, JsonModel::Text(id)).insert(
            "connected"@,
            JsonModel::Bool(true),
        ).insert("kind"@, JsonModel::Text(kind)),
    )
}

fn new_entry(id: &str, kind: &str) -> (r: Json)
    ensures
        r@ == channel_entry(id@, kind@),
{
    let mut o = object();
    set_field(&mut o, "id", text(id));
    set_field(&mut o, "connected", Json::Bool(true));
    set_field(&mut o, "kind", text(kind));
    Json::Object(o)
}

/// The channels with one more, where that one is configured.
pub open spec fn with_adapter(
    m: Map<Seq<char>, JsonModel>,
    id: Seq<char>,
    configured: bool,
) -> Map<Seq<char>, JsonModel> {
    if configured {
        m.insert(id, channel_entry(id, "adapter"@))
    } else {
        m
    }
}

/// The channels that the gateway knows by itself, by their ids: its own two, and the adapters that
/// are configured.
pub open spec fn own_channels(config: RuntimeConfig) -> Map<Seq<char>, JsonModel> {
    let own = no_fields().insert("webchat"@, channel_entry("webchat"@, "internal"@)).insert(
        "node"@,
        channel_entry("node"@, "gateway"@),
    );
    let m = with_adapter(own, "telegram"@, config.telegram_webhook_secret is Some);
    let m = with_adapter(m, "discord"@, config.discord_webhook_token is Some);
    let m = with_adapter(m, "slack"@, config.slack_webhook_token is Some);
    let m = with_adapter(m, "signal"@, config.signal_webhook_token is Some);
    with_adapter(m, "whatsapp"@, config.whatsapp_webhook_token is Some)
}

/// The entries of plugins with the given ids.
pub open spec fn plugin_channels(ids: Seq<Seq<char>>) -> Map<Seq<char>, JsonModel> {
    Map::new(|id: Seq<char>| ids.contains(id), |id: Seq<char>| channel_entry(id, "plugin"@))
}

/// The configured channels by their ids; a plugin stands behind what the gateway knows by itself.
pub open spec fn default_channels(config: RuntimeConfig) -> Map<Seq<char>, JsonModel> {
    plugin_channels(config.channel_webhook_plugins.keys()).union_prefer_right(
        own_channels(config),
    )
}

fn add_adapter(channels: &mut SortedMap<Json>, id: &str, configured: bool)
    ensures
        fields(*final(channels)) == with_adapter(fields(*old(channels)), id@, configured),
{
    if configured {
        set_field(channels, id, new_entry(id, "adapter"));
    }
}

/// The configured channels, in the order of their ids.
pub fn configured_default_channels(config: &RuntimeConfig) -> (r: Vec<Json>)
    ensures
        models(r@) == ordered_values(default_channels(*config)),
        names_of(ordered_names(default_channels(*config)), default_channels(*config)),
{
    let mut channels = object();
    set_field(&mut channels, "webchat", new_entry("webchat", "internal"));
    set_field(&mut channels, "node", new_entry("node", "gateway"));
    add_adapter(&mut channels, "telegram", config.telegram_webhook_secret.is_some());
    add_adapter(&mut channels, "discord", config.discord_webhook_token.is_some());
    add_adapter(&mut channels, "slack", config.slack_webhook_token.is_some());
    add_adapter(&mut channels, "signal", config.signal_webhook_token.is_some());
    add_adapter(&mut channels, "whatsapp", config.whatsapp_webhook_token.is_some());
    let ghost own = own_channels(*config);
    let ids = crate::lists::keys_of(&config.channel_webhook_plugins);
    let ghost all = texts(ids@);
    let mut i: usize = 0;
    assert(fields(channels) =~= plugin_channels(all.take(0)).union_prefer_right(own));
    while i < ids.len()
        invariant
            i <= ids@.len(),
            all == texts(ids@),
            fields(channels) == plugin_channels(all.take(i as int)).union_prefer_right(own),
        decreases ids@.len() - i,
    {
        proof {
            let shorter = all.take(i as int);
            let longer = all.take(i + 1);
            assert forall|id: Seq<char>| #[trigger] longer.contains(id) <==> shorter.contains(id)
                || id == all[i as int] by {
                if shorter.contains(id) {
                    let k = choose|k: int| 0 <= k < shorter.len() && shorter[k] == id;
                    assert(longer[k] == id);
                }
                if longer.contains(id) {
                    let k = choose|k: int| 0 <= k < longer.len() && longer[k] == id;
                    if k < i {
                        assert(shorter[k] == id);
                    }
                }
                assert(longer[i as int] == all[i as int]);
            }
            assert(all[i as int] == ids@[i as int]@);
            let so_far = plugin_channels(shorter).union_prefer_right(own);
            let next = plugin_channels(longer).union_prefer_right(own);
            if so_far.contains_key(all[i as int]) {
                assert(so_far =~= next);
            } else {
                assert(next =~= so_far.insert(
                    all[i as int],
                    channel_entry(all[i as int], "plugin"@),
                ));
            }
        }
        let id = ids[i].as_str();
        proof {
            crate::json::lemma_members(channels.entries());
        }
        if !channels.contains_key(id) {
            set_field(&mut channels, id, new_entry(id, "plugin"));
        }
        i = i + 1;
    }
    assert(all.take(i as int) =~= all);
    field_values(&channels)
}

/// The entries by what they are kept under, a later one in place of an earlier.
pub open spec fn keyed(entries: Seq<JsonModel>) -> Map<Seq<char>, JsonModel>
    decreases entries.len(),
{
    if entries.len() == 0 {
        no_fields()
    } else {
        let earlier = keyed(entries.drop_last());
        match key_of(entries.last()) {
            Some(key) => earlier.insert(key, entries.last()),
            None => earlier,
        }
    }
}

/// A value over another: the members of both where both are objects, and else the value alone.
pub open spec fn over(base: Option<JsonModel>, value: JsonModel) -> JsonModel {
    match (base, value) {
        (Some(JsonModel::Object(b)), JsonModel::Object(v)) => JsonModel::Object(
            b.union_prefer_right(v),
        ),
        _ => value,
    }
}

/// The entries over others.
pub open spec fn overridden(
    base: Map<Seq<char>, JsonModel>,
    entries: Seq<JsonModel>,
) -> Map<Seq<char>, JsonModel>
    decreases entries.len(),
{
    if entries.len() == 0 {
        base
    } else {
        let earlier = overridden(base, entries.drop_last());
        match key_of(entries.last()) {
            Some(key) => earlier.insert(
                key,
                over(crate::json::field(earlier, key), entries.last()),
            ),
            None => earlier,
        }
    }
}

/// Entries over the default ones, in the order of what they are kept under.
pub open spec fn merged(defaults: Seq<JsonModel>, overrides: Seq<JsonModel>) -> Seq<JsonModel> {
    ordered_values(overridden(keyed(defaults), overrides))
}

/// Entries over the default ones.
pub fn merge_channel_entries(defaults: &Vec<Json>, overrides: &Vec<Json>) -> (r: Vec<Json>)
    ensures
        models(r@) == merged(models(defaults@), models(overrides@)),
        ({
            let all = overridden(keyed(models(defaults@)), models(overrides@));
            names_of(ordered_names(all), all)
        }),
{
    let mut all = object();
    let ghost first = models(defaults@);
    let ghost second = models(overrides@);
    proof {
        lemma_models(defaults@);
        lemma_models(overrides@);
    }
    let mut i: usize = 0;
    assert(first.take(0).len() == 0);
    while i < defaults.len()
        invariant
            i <= defaults@.len(),
            first == models(defaults@),
            fields(all) == keyed(first.take(i as int)),
        decreases defaults@.len() - i,
    {
        proof {
            let t = first.take(i + 1);
            assert(t.drop_last() =~= first.take(i as int));
            assert(t.last() == defaults@[i as int]@);
        }
        if let Some(key) = channel_entry_key(&defaults[i]) {
            set_field(&mut all, key.as_str(), defaults[i].copy());
        }
        i = i + 1;
    }
    assert(first.take(i as int) =~= first);
    let ghost base = fields(all);
    let mut k: usize = 0;
    assert(second.take(0).len() == 0);
    while k < overrides.len()
        invariant
            k <= overrides@.len(),
            second == models(overrides@),
            fields(all) == overridden(base, second.take(k as int)),
        decreases overrides@.len() - k,
    {
        let ghost so_far = fields(all);
        proof {
            let t = second.take(k + 1);
            assert(t.drop_last() =~= second.take(k as int));
            assert(t.last() == overrides@[k as int]@);
            crate::json::lemma_members(all.entries());
        }
        if let Some(key) = channel_entry_key(&overrides[k]) {
            let before = all.remove(key.as_str());
            proof {
                crate::json::lemma_members(all.entries());
                assert(fields(all) =~= so_far.remove(key@));
                assert(crate::json::opt_model(before) == crate::json::field(so_far, key@));
            }
            let value = match (before, &overrides[k]) {
                (Some(Json::Object(b)), Json::Object(o)) => {
                    let mut b = b;
                    overlay(&mut b, o);
                    Json::Object(b)
                },
                (_, other) => other.copy(),
            };
            set_field(&mut all, key.as_str(), value);
            assert(fields(all) =~= so_far.insert(
                key@,
                over(crate::json::field(so_far, key@), overrides@[k as int]@),
            ));
        }
        k = k + 1;
    }
    assert(second.take(k as int) =~= second);
    field_values(&all)
}

/// An entry that was kept by its id.
pub open spec fn with_id(id: Seq<char>, data: JsonModel) -> JsonModel {
    match data {
        JsonModel::Object(m) => JsonModel::Object(
            if m.contains_key("id"@) {
                m
            } else {
                m.insert("id"@, JsonModel::Text(id))
            },
        ),
        _ => JsonModel::Object(
            no_fields().insert("id"@, JsonModel::Text(id)).insert(
                "connected"@,
                JsonModel::Bool(true),
            ),
        ),
    }
}

/// The entries that a value holds: those of a list, or those that an object keeps by their ids.
pub open spec fn entries_of(value: JsonModel) -> Seq<JsonModel> {
    match value {
        JsonModel::Array(items) => items,
        JsonModel::Object(m) => Seq::new(
            ordered_names(m).len(),
            |i: int| with_id(ordered_names(m)[i], m[ordered_names(m)[i]]),
        ),
        _ => Seq::empty(),
    }
}

fn named_entry(id: &str, data: &Json) -> (r: Json)
    ensures
        r@ == with_id(id@, data@),
{
    match data {
        Json::Object(m) => {
            let mut o = crate::json::copy_object(m);
            if crate::json::get_field(&o, "id").is_none() {
                set_field(&mut o, "id", text(id));
            }
            Json::Object(o)
        },
        _ => {
            let mut o = object();
            set_field(&mut o, "id", text(id));
            set_field(&mut o, "connected", Json::Bool(true));
            Json::Object(o)
        },
    }
}

/// The entries that a value holds.
pub fn as_channel_array(value: Json) -> (r: Vec<Json>)
    ensures
        models(r@) == entries_of(value@),
{
    match value {
        Json::Array(items) => items,
        Json::Object(m) => {
            let names = field_names(&m);
            let ghost keys = ordered_names(fields(m));
            let mut out: Vec<Json> = Vec::new();
            let mut i: usize = 0;
            while i < names.len()
                invariant
                    i <= names@.len(),
                    texts(names@) == keys,
                    keys == ordered_names(fields(m)),
                    crate::json::names_of(keys, fields(m)),
                    out@.len() == i,
                    forall|k: int|
                        0 <= k < i ==> (#[trigger] out@[k])@ == with_id(
                            keys[k],
                            fields(m)[keys[k]],
                        ),
                decreases names@.len() - i,
            {
                assert(keys[i as int] == names@[i as int]@);
                assert(keys.contains(keys[i as int]));
                if let Some(data) = crate::json::get_field(&m, names[i].as_str()) {
                    out.push(named_entry(names[i].as_str(), data));
                }
                i = i + 1;
            }
            proof {
                assert(texts(names@).len() == names@.len());
                lemma_models(out@);
                assert(models(out@) =~= entries_of(value@));
            }
            out
        },
        _ => {
            let out: Vec<Json> = Vec::new();
            proof {
                lemma_models(out@);
                assert(models(out@) =~= Seq::<JsonModel>::empty());
            }
            out
        },
    }
}

// ---------------------------------------------------------------------------------------------
// How channels stand
// ---------------------------------------------------------------------------------------------
/// The entries of one channel, in their order.
pub open spec fn of_channel(entries: Seq<JsonModel>, id: Seq<char>) -> Seq<JsonModel>
    decreases entries.len(),
{
    if entries.len() == 0 {
        entries
    } else if id_of(entries.last()) == Some(id) {
        of_channel(entries.drop_last(), id).push(entries.last())
    } else {
        of_channel(entries.drop_last(), id)
    }
}

/// The ids of the channels, each where it first occurs.
pub open spec fn channel_ids(entries: Seq<JsonModel>) -> Seq<Seq<char>>
    decreases entries.len(),
{
    if entries.len() == 0 {
        Seq::empty()
    } else {
        let earlier = channel_ids(entries.drop_last());
        match id_of(entries.last()) {
            Some(id) => if earlier.contains(id) {
                earlier
            } else {
                earlier.push(id)
            },
            None => earlier,
        }
    }
}

/// The account of an entry; the default one where it names none.
pub open spec fn account_or_default(entry: JsonModel) -> Seq<char> {
    text_or(account_of(entry), "default"@)
}

/// What is said of an account.
pub open spec fn account_view(entry: JsonModel) -> JsonModel {
    JsonModel::Object(
        no_fields().insert("accountId"@, JsonModel::Text(account_or_default(entry))).insert(
            "connected"@,
            JsonModel::Bool(is_connected(entry)),
        ).insert("kind"@, JsonModel::Text(kind_of(entry))).insert(
            "loggedOutAtMs"@,
            value_or_null(member(entry, "loggedOutAtMs"@)),
        ),
    )
}

/// What is said of the accounts of a channel.
pub open spec fn accounts_view(entries: Seq<JsonModel>, id: Seq<char>) -> JsonModel {
    JsonModel::Array(of_channel(entries, id).map_values(|e: JsonModel| account_view(e)))
}

/// What a channel is: its kind, by its first entry, and its name.
pub open spec fn meta_view(entries: Seq<JsonModel>, id: Seq<char>) -> JsonModel {
    JsonModel::Object(
        no_fields().insert("kind"@, JsonModel::Text(kind_of(of_channel(entries, id)[0]))).insert(
            "label"@,
            JsonModel::Text(label_of(id)),
        ),
    )
}

/// An account of a channel is connected.
pub open spec fn any_connected(entries: Seq<JsonModel>, id: Seq<char>) -> bool {
    exists|i: int|
        0 <= i < of_channel(entries, id).len() && is_connected(
            #[trigger] of_channel(entries, id)[i],
        )
}

/// How a channel stands: whether an account of it is connected, and its kind.
pub open spec fn summary_view(entries: Seq<JsonModel>, id: Seq<char>) -> JsonModel {
    JsonModel::Object(
        no_fields().insert("connected"@, JsonModel::Bool(any_connected(entries, id))).insert(
            "kind"@,
            JsonModel::Text(kind_of(of_channel(entries, id)[0])),
        ),
    )
}

/// A channel has the default account.
pub open spec fn has_default(entries: Seq<JsonModel>, id: Seq<char>) -> bool {
    exists|i: int|
        0 <= i < of_channel(entries, id).len() && account_or_default(
            #[trigger] of_channel(entries, id)[i],
        ) == "default"@
}

/// The account that stands for a channel: the default one where there is one, and else the first.
pub open spec fn default_account(entries: Seq<JsonModel>, id: Seq<char>) -> Seq<char> {
    if has_default(entries, id) {
        "default"@
    } else {
        account_or_default(of_channel(entries, id)[0])
    }
}

/// A value for each channel.
pub open spec fn per_channel(ids: Seq<Seq<char>>, f: spec_fn(Seq<char>) -> JsonModel) -> Map<
    Seq<char>,
    JsonModel,
> {
    Map::new(|id: Seq<char>| ids.contains(id), f)
}

/// How channels stand, from several sides.
pub struct ChannelViews {
    pub channel_order: Vec<String>,
    pub channel_labels: Json,
    pub channel_meta: Json,
    pub channels_by_id: Json,
    pub channel_accounts: Json,
    pub channel_default_account_id: Json,
}

pub open spec fn labels_view(ids: Seq<Seq<char>>) -> JsonModel {
    JsonModel::Object(per_channel(ids, |id: Seq<char>| JsonModel::Text(label_of(id))))
}

pub open spec fn metas_view(entries: Seq<JsonModel>, ids: Seq<Seq<char>>) -> JsonModel {
    JsonModel::Object(per_channel(ids, |id: Seq<char>| meta_view(entries, id)))
}

pub open spec fn summaries_view(entries: Seq<JsonModel>, ids: Seq<Seq<char>>) -> JsonModel {
    JsonModel::Object(per_channel(ids, |id: Seq<char>| summary_view(entries, id)))
}

pub open spec fn all_accounts_view(entries: Seq<JsonModel>, ids: Seq<Seq<char>>) -> JsonModel {
    JsonModel::Object(per_channel(ids, |id: Seq<char>| accounts_view(entries, id)))
}

pub open spec fn defaults_view(entries: Seq<JsonModel>, ids: Seq<Seq<char>>) -> JsonModel {
    JsonModel::Object(
        per_channel(ids, |id: Seq<char>| JsonModel::Text(default_account(entries, id))),
    )
}

/// A channel is among the ids exactly where it has an entry.
pub proof fn lemma_channel_ids(entries: Seq<JsonModel>, id: Seq<char>)
    ensures
        channel_ids(entries).contains(id) <==> of_channel(entries, id).len() > 0,
    decreases entries.len(),
{
    if entries.len() > 0 {
        let earlier = channel_ids(entries.drop_last());
        lemma_channel_ids(entries.drop_last(), id);
        match id_of(entries.last()) {
            Some(last) => {
                let now = earlier.push(last);
                assert(now[earlier.len() as int] == last);
                if earlier.contains(id) {
                    let k = choose|k: int| 0 <= k < earlier.len() && earlier[k] == id;
                    assert(now[k] == id);
                }
                if now.contains(id) && id != last {
                    let k = choose|k: int| 0 <= k < now.len() && now[k] == id;
                    assert(earlier[k] == id);
                }
            },
            None => {},
        }
    }
}

/// The ids of the channels, each where it first occurs.
pub fn channel_order(channels: &Vec<Json>) -> (r: Vec<String>)
    ensures
        texts(r@) == channel_ids(models(channels@)),
{
    let ghost all = models(channels@);
    let mut out: Vec<String> = Vec::new();
    let mut i: usize = 0;
    proof {
        lemma_models(channels@);
        assert(all.take(0).len() == 0);
        assert(texts(out@) =~= channel_ids(all.take(0)));
    }
    while i < channels.len()
        invariant
            i <= channels@.len(),
            all == models(channels@),
            texts(out@) == channel_ids(all.take(i as int)),
        decreases channels@.len() - i,
    {
        let ghost so_far = out@;
        proof {
            let t = all.take(i + 1);
            assert(t.drop_last() =~= all.take(i as int));
            assert(t.last() == channels@[i as int]@);
        }
        if let Some(id) = channel_id(&channels[i]) {
            if !listed(id.as_str(), &out) {
                out.push(id);
                assert(texts(out@) =~= texts(so_far).push(id@));
            }
        }
        i = i + 1;
    }
    assert(all.take(i as int) =~= all);
    out
}

/// What there is to say of one channel.
struct ChannelSides {
    kind: String,
    connected: bool,
    account: String,
    accounts: Vec<Json>,
}

fn account_json(entry: &Json) -> (r: Json)
    ensures
        r@ == account_view(entry@),
{
    let account = or_text(channel_account_id(entry), "default");
    let logged_out = match entry.get("loggedOutAtMs") {
        Some(value) => value.copy(),
        None => Json::Null,
    };
    let mut o = object();
    set_field(&mut o, "accountId", text(account.as_str()));
    set_field(&mut o, "connected", Json::Bool(channel_connected(entry)));
    set_field(&mut o, "kind", text(channel_kind(entry).as_str()));
    set_field(&mut o, "loggedOutAtMs", logged_out);
    Json::Object(o)
}

fn channel_sides(channels: &Vec<Json>, id: &str) -> (r: ChannelSides)
    requires
        of_channel(models(channels@), id@).len() > 0,
    ensures
        r.kind@ == kind_of(of_channel(models(channels@), id@)[0]),
        r.connected == any_connected(models(channels@), id@),
        r.account@ == default_account(models(channels@), id@),
        JsonModel::Array(models(r.accounts@)) == accounts_view(models(channels@), id@),
{
    let ghost all = models(channels@);
    let mut kind: Option<String> = None;
    let mut connected = false;
    let mut account: Option<String> = None;
    let mut accounts: Vec<Json> = Vec::new();
    let mut i: usize = 0;
    proof {
        lemma_models(channels@);
        assert(all.take(0).len() == 0);
        lemma_models(accounts@);
        assert(models(accounts@) =~= of_channel(all.take(0), id@).map_values(
            |e: JsonModel| account_view(e),
        ));
    }
    while i < channels.len()
        invariant
            i <= channels@.len(),
            all == models(channels@),
            kind is Some <==> of_channel(all.take(i as int), id@).len() > 0,
            account is Some <==> of_channel(all.take(i as int), id@).len() > 0,
            kind is Some ==> kind->0@ == kind_of(of_channel(all.take(i as int), id@)[0]),
            connected == any_connected(all.take(i as int), id@),
            account is Some ==> account->0@ == default_account(all.take(i as int), id@),
            JsonModel::Array(models(accounts@)) == accounts_view(all.take(i as int), id@),
        decreases channels@.len() - i,
    {
        let entry = &channels[i];
        let ghost shorter = of_channel(all.take(i as int), id@);
        let ghost longer = of_channel(all.take(i + 1), id@);
        let ghost accounts_before = accounts@;
        proof {
            let t = all.take(i + 1);
            assert(t.drop_last() =~= all.take(i as int));
            assert(t.last() == channels@[i as int]@);
        }
        let is_its = match channel_id(entry) {
            Some(other) => same(other.as_str(), id),
            None => false,
        };
        if is_its {
            let ghost was_connected = connected;
            proof {
                assert(longer == shorter.push(entry@));
                assert(longer[shorter.len() as int] == entry@);
                assert forall|k: int| 0 <= k < shorter.len() implies longer[k] == shorter[k] by {}
            }
            if channel_connected(entry) {
                connected = true;
            }
            proof {
                if was_connected {
                    let k = choose|k: int| 0 <= k < shorter.len() && is_connected(#[trigger] shorter[k]);
                    assert(is_connected(longer[k]));
                }
                if any_connected(all.take(i + 1), id@) && !was_connected {
                    let k = choose|k: int| 0 <= k < longer.len() && is_connected(#[trigger] longer[k]);
                    if k < shorter.len() {
                        assert(is_connected(shorter[k]));
                    }
                }
            }
            if kind.is_none() {
                kind = Some(channel_kind(entry));
            }
            let own = or_text(channel_account_id(entry), "default");
            proof {
                if has_default(all.take(i as int), id@) {
                    let k = choose|k: int| 0 <= k < shorter.len() && account_or_default(#[trigger] shorter[k]) == "default"@;
                    assert(account_or_default(longer[k]) == "default"@);
                }
                if has_default(all.take(i + 1), id@) && own@ != "default"@ {
                    let k = choose|k: int| 0 <= k < longer.len() && account_or_default(#[trigger] longer[k]) == "default"@;
                    assert(account_or_default(shorter[k]) == "default"@);
                }
            }
            if account.is_none() || same(own.as_str(), "default") {
                account = Some(own);
            }
            accounts.push(account_json(entry));
            proof {
                lemma_models(accounts@);
                lemma_models(accounts_before);
                assert(models(accounts@) =~= models(accounts_before).push(account_view(entry@)));
                assert(longer.map_values(|e: JsonModel| account_view(e)) =~= shorter.map_values(
                    |e: JsonModel| account_view(e),
                ).push(account_view(entry@)));
            }
        }
        i = i + 1;
    }
    assert(all.take(i as int) =~= all);
    ChannelSides {
        kind: or_text(kind, "unknown"),
        connected,
        account: or_text(account, "default"),
        accounts,
    }
}

/// One more channel among those of which something is said.
proof fn lemma_one_more(ids: Seq<Seq<char>>, i: int, f: spec_fn(Seq<char>) -> JsonModel)
    requires
        0 <= i < ids.len(),
    ensures
        per_channel(ids.take(i + 1), f) == per_channel(ids.take(i), f).insert(ids[i], f(ids[i])),
{
    let shorter = ids.take(i);
    let longer = ids.take(i + 1);
    assert forall|id: Seq<char>| #[trigger] longer.contains(id) <==> shorter.contains(id) || id
        == ids[i] by {
        if shorter.contains(id) {
            let k = choose|k: int| 0 <= k < shorter.len() && shorter[k] == id;
            assert(longer[k] == id);
        }
        if longer.contains(id) {
            let k = choose|k: int| 0 <= k < longer.len() && longer[k] == id;
            if k < i {
                assert(shorter[k] == id);
            }
        }
        assert(longer[i] == ids[i]);
    }
    assert(per_channel(longer, f) =~= per_channel(shorter, f).insert(ids[i], f(ids[i])));
}

/// How channels stand, from several sides.
pub fn build_channel_views(channels: &Vec<Json>) -> (r: ChannelViews)
    ensures
        ({
            let entries = models(channels@);
            let ids = channel_ids(entries);
            &&& texts(r.channel_order@) == ids
            &&& r.channel_labels@ == labels_view(ids)
            &&& r.channel_meta@ == metas_view(entries, ids)
            &&& r.channels_by_id@ == summaries_view(entries, ids)
            &&& r.channel_accounts@ == all_accounts_view(entries, ids)
            &&& r.channel_default_account_id@ == defaults_view(entries, ids)
        }),
{
    let order = channel_order(channels);
    let ghost entries = models(channels@);
    let ghost ids = texts(order@);
    let mut labels = object();
    let mut meta = object();
    let mut summaries = object();
    let mut accounts = object();
    let mut defaults = object();
    let ghost f_label = |id: Seq<char>| JsonModel::Text(label_of(id));
    let ghost f_meta = |id: Seq<char>| meta_view(entries, id);
    let ghost f_summary = |id: Seq<char>| summary_view(entries, id);
    let ghost f_accounts = |id: Seq<char>| accounts_view(entries, id);
    let ghost f_default = |id: Seq<char>| JsonModel::Text(default_account(entries, id));
    let mut i: usize = 0;
    proof {
        assert(ids.take(0) =~= Seq::<Seq<char>>::empty());
        assert(per_channel(ids.take(0), f_label) =~= no_fields());
        assert(per_channel(ids.take(0), f_meta) =~= no_fields());
        assert(per_channel(ids.take(0), f_summary) =~= no_fields());
        assert(per_channel(ids.take(0), f_accounts) =~= no_fields());
        assert(per_channel(ids.take(0), f_default) =~= no_fields());
    }
    while i < order.len()
        invariant
            i <= order@.len(),
            entries == models(channels@),
            ids == texts(order@),
            ids == channel_ids(entries),
            f_label == (|id: Seq<char>| JsonModel::Text(label_of(id))),
            f_meta == (|id: Seq<char>| meta_view(entries, id)),
            f_summary == (|id: Seq<char>| summary_view(entries, id)),
            f_accounts == (|id: Seq<char>| accounts_view(entries, id)),
            f_default == (|id: Seq<char>| JsonModel::Text(default_account(entries, id))),
            fields(labels) == per_channel(ids.take(i as int), f_label),
            fields(meta) == per_channel(ids.take(i as int), f_meta),
            fields(summaries) == per_channel(ids.take(i as int), f_summary),
            fields(accounts) == per_channel(ids.take(i as int), f_accounts),
            fields(defaults) == per_channel(ids.take(i as int), f_default),
        decreases order@.len() - i,
    {
        let id = order[i].as_str();
        proof {
            assert(ids[i as int] == id@);
            assert(ids.contains(id@));
            lemma_channel_ids(entries, id@);
            lemma_one_more(ids, i as int, f_label);
            lemma_one_more(ids, i as int, f_meta);
            lemma_one_more(ids, i as int, f_summary);
            lemma_one_more(ids, i as int, f_accounts);
            lemma_one_more(ids, i as int, f_default);
        }
        let sides = channel_sides(channels, id);
        let label = channel_label(id);
        let mut its_meta = object();
        set_field(&mut its_meta, "kind", text(sides.kind.as_str()));
        set_field(&mut its_meta, "label", text(label.as_str()));
        let mut summary = object();
        set_field(&mut summary, "connected", Json::Bool(sides.connected));
        set_field(&mut summary, "kind", text(sides.kind.as_str()));
        set_field(&mut labels, id, text(label.as_str()));
        set_field(&mut meta, id, Json::Object(its_meta));
        set_field(&mut summaries, id, Json::Object(summary));
        set_field(&mut accounts, id, Json::Array(sides.accounts));
        set_field(&mut defaults, id, text(sides.account.as_str()));
        i = i + 1;
    }
    assert(ids.take(i as int) =~= ids);
    ChannelViews {
        channel_order: order,
        channel_labels: Json::Object(labels),
        channel_meta: Json::Object(meta),
        channels_by_id: Json::Object(summaries),
        channel_accounts: Json::Object(accounts),
        channel_default_account_id: Json::Object(defaults),
    }
}

/// The entries of connected channels.
pub open spec fn connected_only(entries: Seq<JsonModel>) -> Seq<JsonModel>
    decreases entries.len(),
{
    if entries.len() == 0 {
        entries
    } else if is_connected(entries.last()) {
        connected_only(entries.drop_last()).push(entries.last())
    } else {
        connected_only(entries.drop_last())
    }
}

fn retain_connected(channels: Vec<Json>) -> (r: Vec<Json>)
    ensures
        models(r@) == connected_only(models(channels@)),
{
    let ghost all = models(channels@);
    let mut out: Vec<Json> = Vec::new();
    let mut i: usize = 0;
    proof {
        lemma_models(channels@);
        lemma_models(out@);
        assert(all.take(0).len() == 0);
        assert(models(out@) =~= connected_only(all.take(0)));
    }
    while i < channels.len()
        invariant
            i <= channels@.len(),
            all == models(channels@),
            models(out@) == connected_only(all.take(i as int)),
        decreases channels@.len() - i,
    {
        let ghost so_far = out@;
        proof {
            let t = all.take(i + 1);
            assert(t.drop_last() =~= all.take(i as int));
            assert(t.last() == channels@[i as int]@);
        }
        if channel_connected(&channels[i]) {
            out.push(channels[i].copy());
            proof {
                lemma_models_push(so_far, out@.last());
            }
        }
        i = i + 1;
    }
    assert(all.take(i as int) =~= all);
    out
}

/// The channels by what is stored of them, over the configured ones.
pub open spec fn known_channels(config: RuntimeConfig, persisted: Option<JsonModel>) -> Seq<
    JsonModel,
> {
    merged(
        ordered_values(default_channels(config)),
        entries_of(
            match persisted {
                Some(value) => value,
                None => JsonModel::Array(Seq::empty()),
            },
        ),
    )
}

fn load_channels(config: &RuntimeConfig, persisted: Option<Json>) -> (r: Vec<Json>)
    ensures
        models(r@) == known_channels(*config, crate::json::opt_model(persisted)),
{
    let stored = match persisted {
        Some(value) => value,
        None => {
            let none: Vec<Json> = Vec::new();
            proof {
                lemma_models(none@);
                assert(models(none@) =~= Seq::<JsonModel>::empty());
            }
            Json::Array(none)
        },
    };
    let defaults = configured_default_channels(config);
    let overrides = as_channel_array(stored);
    merge_channel_entries(&defaults, &overrides)
}

/// How all channels stand.
pub open spec fn status_answer(entries: Seq<JsonModel>, now: u64) -> JsonModel {
    let ids = channel_ids(entries);
    JsonModel::Object(
        no_fields().insert("ts"@, JsonModel::Unsigned(now)).insert(
            "channels"@,
            JsonModel::Array(entries),
        ).insert("channelOrder"@, text_array(ids)).insert("channelLabels"@, labels_view(ids)).insert(
            "channelMeta"@,
            metas_view(entries, ids),
        ).insert("channelsById"@, summaries_view(entries, ids)).insert(
            "channelAccounts"@,
            all_accounts_view(entries, ids),
        ).insert("channelDefaultAccountId"@, defaults_view(entries, ids)),
    )
}

/// How all channels stand; those that are not connected are left out where that is asked for.
pub fn handle_status(
    config: &RuntimeConfig,
    include_disabled: Option<bool>,
    persisted: Option<Json>,
    now: u64,
) -> (r: Json)
    ensures
        r@ == ({
            let all = known_channels(*config, crate::json::opt_model(persisted));
            status_answer(
                if include_disabled == Some(false) {
                    connected_only(all)
                } else {
                    all
                },
                now,
            )
        }),
{
    let all = load_channels(config, persisted);
    let channels = match include_disabled {
        Some(false) => retain_connected(all),
        _ => all,
    };
    let views = build_channel_views(&channels);
    let mut o = object();
    set_field(&mut o, "ts", Json::Unsigned(now));
    set_field(&mut o, "channels", Json::Array(channels));
    set_field(&mut o, "channelOrder", texts_json(&views.channel_order));
    set_field(&mut o, "channelLabels", views.channel_labels);
    set_field(&mut o, "channelMeta", views.channel_meta);
    set_field(&mut o, "channelsById", views.channels_by_id);
    set_field(&mut o, "channelAccounts", views.channel_accounts);
    set_field(&mut o, "channelDefaultAccountId", views.channel_default_account_id);
    Json::Object(o)
}

// ---------------------------------------------------------------------------------------------
// Leaving a channel
// ---------------------------------------------------------------------------------------------
/// Which channel is left.
pub struct ChannelsLogoutParams {
    pub channel: Option<String>,
    pub id: Option<String>,
    pub account_id: Option<String>,
}

/// The channel that is named.
pub open spec fn logout_channel(params: ChannelsLogoutParams) -> Option<Seq<char>> {
    kept_opt(first_of(opt_text(params.channel), opt_text(params.id)))
}

/// The account that is named; the default one where none is.
pub open spec fn logout_account(params: ChannelsLogoutParams) -> Seq<char> {
    text_or(kept_opt(opt_text(params.account_id)), "default"@)
}

/// An entry is the one of the channel and account.
pub open spec fn is_entry_of(entry: JsonModel, channel: Seq<char>, account: Seq<char>) -> bool {
    &&& text_of(member(entry, "id"@)) == Some(channel)
    &&& account_or_default(entry) == account
}

/// An entry after its channel was left.
pub open spec fn left_entry(entry: JsonModel, account: Seq<char>, now: u64) -> JsonModel {
    match entry {
        JsonModel::Object(m) => JsonModel::Object(
            m.insert("connected"@, JsonModel::Bool(false)).insert(
                "loggedOutAtMs"@,
                JsonModel::Unsigned(now),
            ).insert("accountId"@, JsonModel::Text(account)),
        ),
        other => other,
    }
}

/// An entry after a channel was left.
pub open spec fn entry_after(
    entry: JsonModel,
    channel: Seq<char>,
    account: Seq<char>,
    now: u64,
) -> JsonModel {
    if is_entry_of(entry, channel, account) {
        left_entry(entry, account, now)
    } else {
        entry
    }
}

/// One of the entries is the one of the channel and account.
pub open spec fn any_entry_of(
    entries: Seq<JsonModel>,
    channel: Seq<char>,
    account: Seq<char>,
) -> bool {
    exists|i: int| 0 <= i < entries.len() && is_entry_of(#[trigger] entries[i], channel, account)
}

/// The entries after a channel was left; there is one more where there was none of it.
pub open spec fn channels_after(
    entries: Seq<JsonModel>,
    channel: Seq<char>,
    account: Seq<char>,
    now: u64,
) -> Seq<JsonModel> {
    let changed = Seq::new(
        entries.len(),
        |i: int| entry_after(entries[i], channel, account, now),
    );
    if any_entry_of(entries, channel, account) {
        changed
    } else {
        changed.push(
            JsonModel::Object(
                no_fields().insert("id"@, JsonModel::Text(channel)).insert(
                    "accountId"@,
                    JsonModel::Text(account),
                ).insert("connected"@, JsonModel::Bool(false)).insert(
                    "loggedOutAtMs"@,
                    JsonModel::Unsigned(now),
                ),
            ),
        )
    }
}

/// What is stored and answered when a channel is left.
pub fn handle_logout(
    config: &RuntimeConfig,
    params: ChannelsLogoutParams,
    persisted: Option<Json>,
    now: u64,
) -> (r: Result<(Json, Json), ErrorShape>)
    ensures
        match logout_channel(params) {
            None => r is Err && r->Err_0@ == invalid(
                "invalid channels.logout params: channel is required"@,
            ),
            Some(channel) => {
                &&& r is Ok
                &&& r->Ok_0.0@ == JsonModel::Array(
                    channels_after(
                        known_channels(*config, crate::json::opt_model(persisted)),
                        channel,
                        logout_account(params),
                        now,
                    ),
                )
                &&& r->Ok_0.1@ == JsonModel::Object(
                    no_fields().insert("ok"@, JsonModel::Bool(true)).insert(
                        "channel"@,
                        JsonModel::Text(channel),
                    ).insert("accountId"@, JsonModel::Text(logout_account(params))).insert(
                        "loggedOut"@,
                        JsonModel::Bool(true),
                    ),
                )
            },
        },
{
    let account = or_text(trim_non_empty_opt(&params.account_id), "default");
    let channel = match trim_non_empty_opt(&either(params.channel, params.id)) {
        Some(channel) => channel,
        None => {
            return Err(invalid_request("invalid channels.logout params: channel is required"));
        },
    };
    let channels = load_channels(config, persisted);
    let ghost entries = models(channels@);
    let mut out: Vec<Json> = Vec::new();
    let mut matched = false;
    let mut i: usize = 0;
    proof {
        lemma_models(channels@);
    }
    while i < channels.len()
        invariant
            i <= channels@.len(),
            entries == models(channels@),
            out@.len() == i,
            forall|k: int|
                0 <= k < i ==> (#[trigger] out@[k])@ == entry_after(
                    entries[k],
                    channel@,
                    account@,
                    now,
                ),
            matched == exists|k: int|
                0 <= k < i && is_entry_of(#[trigger] entries[k], channel@, account@),
        decreases channels@.len() - i,
    {
        let entry = &channels[i];
        assert(entries[i as int] == entry@);
        let named = match entry.get_text("id") {
            Some(id) => same(id.as_str(), channel.as_str()),
            None => false,
        };
        let own = or_text(channel_account_id(entry), "default");
        if named && same(own.as_str(), account.as_str()) {
            matched = true;
            match entry {
                Json::Object(m) => {
                    let mut m = crate::json::copy_object(m);
                    set_field(&mut m, "connected", Json::Bool(false));
                    set_field(&mut m, "loggedOutAtMs", Json::Unsigned(now));
                    set_field(&mut m, "accountId", text(account.as_str()));
                    out.push(Json::Object(m));
                },
                other => {
                    out.push(other.copy());
                },
            }
        } else {
            out.push(entry.copy());
        }
        i = i + 1;
    }
    let ghost changed = out@;
    if !matched {
        let mut o = object();
        set_field(&mut o, "id", text(channel.as_str()));
        set_field(&mut o, "accountId", text(account.as_str()));
        set_field(&mut o, "connected", Json::Bool(false));
        set_field(&mut o, "loggedOutAtMs", Json::Unsigned(now));
        out.push(Json::Object(o));
    }
    proof {
        lemma_models(out@);
        assert(models(out@) =~= channels_after(entries, channel@, account@, now));
    }
    let mut answer = object();
    set_field(&mut answer, "ok", Json::Bool(true));
    set_field(&mut answer, "channel", text(channel.as_str()));
    set_field(&mut answer, "accountId", text(account.as_str()));
    set_field(&mut answer, "loggedOut", Json::Bool(true));
    Ok((Json::Array(out), Json::Object(answer)))
}

// ---------------------------------------------------------------------------------------------
// Laws
// ---------------------------------------------------------------------------------------------
/// A channel that was left has an entry which says that it is not connected, and since when.
pub proof fn law_left_channels_are_disconnected(
    entries: Seq<JsonModel>,
    channel: Seq<char>,
    account: Seq<char>,
    now: u64,
    i: int,
)
    requires
        0 <= i < channels_after(entries, channel, account, now).len(),
        i < entries.len() ==> is_entry_of(entries[i], channel, account),
    ensures
        !is_connected(channels_after(entries, channel, account, now)[i]),
        member(channels_after(entries, channel, account, now)[i], "loggedOutAtMs"@) == Some(
            JsonModel::Unsigned(now),
        ),
{
    reveal_strlit("connected");
    reveal_strlit("loggedOutAtMs");
    reveal_strlit("accountId");
    assert("connected"@.len() == 9 && "loggedOutAtMs"@.len() == 13 && "accountId"@.len() == 9);
    assert("connected"@[0] == 'c' && "accountId"@[0] == 'a');
}

/// Leaving a channel changes no entry of another channel or account.
pub proof fn law_other_channels_stay(
    entries: Seq<JsonModel>,
    channel: Seq<char>,
    account: Seq<char>,
    now: u64,
    i: int,
)
    requires
        0 <= i < entries.len(),
        !is_entry_of(entries[i], channel, account),
    ensures
        channels_after(entries, channel, account, now)[i] == entries[i],
{
}

/// What is stored of a channel goes over what is configured of it: a stored member wins, and one
/// that is not stored stays as it is configured.
pub proof fn law_stored_members_win(
    base: Map<Seq<char>, JsonModel>,
    stored: Map<Seq<char>, JsonModel>,
    name: Seq<char>,
)
    ensures
        member(over(Some(JsonModel::Object(base)), JsonModel::Object(stored)), name) == (
        if stored.contains_key(name) {
            Some(stored[name])
        } else {
            member(JsonModel::Object(base), name)
        }),
{
}

/// What an entry says of its channel: its id and its account where they are not blank, that it is
/// connected unless it says that it is not, and its kind.
pub proof fn law_what_entries_say(
    entry: &Json,
    id: Option<String>,
    account: Option<String>,
    connected: bool,
    kind: String,
    key: Option<String>,
)
    requires
        call_ensures(channel_id, (entry,), id),
        call_ensures(channel_account_id, (entry,), account),
        call_ensures(channel_connected, (entry,), connected),
        call_ensures(channel_kind, (entry,), kind),
        call_ensures(channel_entry_key, (entry,), key),
    ensures
        id is Some <==> says(entry@, "id"@),
        id is Some ==> id->0@ == trimmed(said(entry@, "id"@)),
        account is Some <==> says(entry@, "accountId"@),
        account is Some ==> account->0@ == trimmed(said(entry@, "accountId"@)),
        connected <==> member(entry@, "connected"@) != Some(JsonModel::Bool(false)),
        member(entry@, "kind"@) matches Some(JsonModel::Text(k)) ==> kind@ == k,
        !(member(entry@, "kind"@) is Some && member(entry@, "kind"@)->0 is Text) ==> kind@ == "unknown"@,
        key is Some <==> id is Some,
        key is Some && (account is None || account->0@ == "default"@) ==> key->0@ == id->0@,
        key is Some && account is Some && account->0@ != "default"@ ==> key->0@ == id->0@ + "::"@
            + account->0@,
{
    lemma_said(entry@, "id"@);
    lemma_said(entry@, "accountId"@);
    if text_of(member(entry@, "id"@)) is Some {
        lemma_kept(text_of(member(entry@, "id"@))->0);
    }
    if text_of(member(entry@, "accountId"@)) is Some {
        lemma_kept(text_of(member(entry@, "accountId"@))->0);
    }
}

/// The label of a channel is its id with spaces for dashes.
pub proof fn law_labels(id: &str, i: int, r: String)
    requires
        call_ensures(channel_label, (id,), r),
    ensures
        r@.len() == id@.len(),
        0 <= i < id@.len() && id@[i] == '-' ==> r@[i] == ' ',
        0 <= i < id@.len() && id@[i] != '-' ==> r@[i] == id@[i],
{
}

/// There is the chat of the web, the nodes, each adapter that is configured and each plugin, once each
/// and all connected, and no other channel.
pub proof fn law_channels_there_are(config: &RuntimeConfig, id: Seq<char>, i: int, r: Vec<Json>)
    requires
        call_ensures(configured_default_channels, (config,), r),
    ensures
        ({
            let own = id == "webchat"@ || id == "node"@;
            let adapter = (id == "telegram"@ && config.telegram_webhook_secret is Some) || (id
                == "discord"@ && config.discord_webhook_token is Some) || (id == "slack"@
                && config.slack_webhook_token is Some) || (id == "signal"@
                && config.signal_webhook_token is Some) || (id == "whatsapp"@
                && config.whatsapp_webhook_token is Some);
            let plugin = config.channel_webhook_plugins.keys().contains(id);
            &&& own || adapter || plugin ==> exists|k: int|
                0 <= k < r@.len() && member((#[trigger] r@[k])@, "id"@) == Some(JsonModel::Text(id))
            &&& 0 <= i < r@.len() && member(r@[i]@, "id"@) == Some(JsonModel::Text(id)) ==> {
                &&& own || adapter || plugin
                &&& member(r@[i]@, "connected"@) == Some(JsonModel::Bool(true))
                &&& member(r@[i]@, "kind"@) == Some(
                    JsonModel::Text(
                        if id == "webchat"@ {
                            "internal"@
                        } else if id == "node"@ {
                            "gateway"@
                        } else if adapter {
                            "adapter"@
                        } else {
                            "plugin"@
                        },
                    ),
                )
            }
        }),
{
    reveal_strlit("webchat");
    reveal_strlit("node");
    reveal_strlit("telegram");
    reveal_strlit("discord");
    reveal_strlit("slack");
    reveal_strlit("signal");
    reveal_strlit("whatsapp");
    assert("webchat"@.len() != "node"@.len());
    assert("webchat"@.len() != "telegram"@.len());
    assert("webchat"@[0] != "discord"@[0]);
    assert("webchat"@.len() != "slack"@.len());
    assert("webchat"@.len() != "signal"@.len());
    assert("webchat"@.len() != "whatsapp"@.len());
    assert("node"@.len() != "telegram"@.len());
    assert("node"@.len() != "discord"@.len());
    assert("node"@.len() != "slack"@.len());
    assert("node"@.len() != "signal"@.len());
    assert("node"@.len() != "whatsapp"@.len());
    assert("telegram"@.len() != "discord"@.len());
    assert("telegram"@.len() != "slack"@.len());
    assert("telegram"@.len() != "signal"@.len());
    assert("telegram"@[0] != "whatsapp"@[0]);
    assert("discord"@.len() != "slack"@.len());
    assert("discord"@.len() != "signal"@.len());
    assert("discord"@.len() != "whatsapp"@.len());
    assert("slack"@.len() != "signal"@.len());
    assert("slack"@.len() != "whatsapp"@.len());
    assert("signal"@.len() != "whatsapp"@.len());
    reveal_strlit("id");
    reveal_strlit("connected");
    reveal_strlit("kind");
    assert("id"@.len() != "connected"@.len());
    assert("id"@.len() != "kind"@.len());
    assert("connected"@.len() != "kind"@.len());
    let all = default_channels(*config);
    let keys = ordered_names(all);
    lemma_models(r@);
    assert forall|k: Seq<char>| #[trigger] all.contains_key(k) implies member(all[k], "id"@) == Some(
        JsonModel::Text(k),
    ) by {}
    if all.contains_key(id) {
        assert(keys.contains(id));
        let k = choose|k: int| 0 <= k < keys.len() && keys[k] == id;
        assert(models(r@)[k] == all[id]);
        assert(r@[k]@ == all[id]);
    }
    if 0 <= i < r@.len() && member(r@[i]@, "id"@) == Some(JsonModel::Text(id)) {
        assert(models(r@)[i] == r@[i]@);
        assert(r@[i]@ == all[keys[i]]);
        assert(keys.contains(keys[i]));
        assert(all.contains_key(keys[i]));
        assert(keys[i] == id);
    }
}

/// What is stored of a channel goes over what is configured of it, whatever else is stored: a stored
/// member wins, and one that is not stored stays. A channel of which nothing is stored stays as it
/// is, and one that is only stored is there too.
pub proof fn law_channels_are_merged(
    defaults: &Vec<Json>,
    overrides: &Vec<Json>,
    i: int,
    j: int,
    key: Seq<char>,
    name: Seq<char>,
    r: Vec<Json>,
)
    requires
        call_ensures(merge_channel_entries, (defaults, overrides), r),
    ensures
        0 <= i < defaults@.len() && key_of(defaults@[i]@) == Some(key) && last_with(
            models(defaults@),
            i,
            key,
        ) && none_with(models(overrides@), 0, key) ==> exists|p: int|
            0 <= p < r@.len() && (#[trigger] r@[p])@ == defaults@[i]@,
        0 <= j < overrides@.len() && key_of(overrides@[j]@) == Some(key) && last_with(
            models(overrides@),
            j,
            key,
        ) && none_with(models(overrides@).take(j), 0, key) && none_with(models(defaults@), 0, key)
            ==> exists|p: int| 0 <= p < r@.len() && (#[trigger] r@[p])@ == overrides@[j]@,
        0 <= i < defaults@.len() && key_of(defaults@[i]@) == Some(key) && last_with(
            models(defaults@),
            i,
            key,
        ) && 0 <= j < overrides@.len() && key_of(overrides@[j]@) == Some(key) && last_with(
            models(overrides@),
            j,
            key,
        ) && none_with(models(overrides@).take(j), 0, key) && defaults@[i]@ is Object
            && overrides@[j]@ is Object ==> exists|p: int|
            0 <= p < r@.len() && member((#[trigger] r@[p])@, name) == (if member(
                overrides@[j]@,
                name,
            ) is Some {
                member(overrides@[j]@, name)
            } else {
                member(defaults@[i]@, name)
            }) && r@[p]@ is Object,
{
    let first = models(defaults@);
    let second = models(overrides@);
    lemma_models(defaults@);
    lemma_models(overrides@);
    lemma_models(r@);
    let base = keyed(first);
    let all = overridden(base, second);
    let keys = ordered_names(all);
    assert(models(r@) == ordered_values(all));
    if all.contains_key(key) {
        assert(keys.contains(key));
        let p = choose|p: int| 0 <= p < keys.len() && keys[p] == key;
        assert(models(r@)[p] == all[key]);
        assert(r@[p]@ == all[key]);
    }
    if 0 <= i < defaults@.len() && key_of(defaults@[i]@) == Some(key) && last_with(first, i, key) {
        lemma_keyed_last(first, i, key);
    }
    if none_with(first, 0, key) {
        lemma_keyed_none(first, key);
    }
    if none_with(second, 0, key) {
        lemma_overridden_none(base, second, key);
    }
    if 0 <= j < overrides@.len() && key_of(overrides@[j]@) == Some(key) && last_with(second, j, key)
        && none_with(second.take(j), 0, key) {
        lemma_overridden_once(base, second, j, key);
    }
}

/// No entry from a place on has a key.
pub open spec fn none_with(entries: Seq<JsonModel>, from: int, key: Seq<char>) -> bool {
    forall|k: int| from <= k < entries.len() ==> key_of(#[trigger] entries[k]) != Some(key)
}

/// No entry behind a place has a key.
pub open spec fn last_with(entries: Seq<JsonModel>, at: int, key: Seq<char>) -> bool {
    none_with(entries, at + 1, key)
}

proof fn lemma_keyed_none(entries: Seq<JsonModel>, key: Seq<char>)
    requires
        none_with(entries, 0, key),
    ensures
        !keyed(entries).contains_key(key),
    decreases entries.len(),
{
    if entries.len() > 0 {
        let shorter = entries.drop_last();
        assert forall|k: int| 0 <= k < shorter.len() implies key_of(#[trigger] shorter[k]) != Some(key) by {
            assert(shorter[k] == entries[k]);
        }
        lemma_keyed_none(shorter, key);
        assert(key_of(entries[entries.len() - 1]) != Some(key));
    }
}

proof fn lemma_keyed_last(entries: Seq<JsonModel>, i: int, key: Seq<char>)
    requires
        0 <= i < entries.len(),
        key_of(entries[i]) == Some(key),
        last_with(entries, i, key),
    ensures
        keyed(entries).contains_key(key),
        keyed(entries)[key] == entries[i],
    decreases entries.len(),
{
    if i < entries.len() - 1 {
        let shorter = entries.drop_last();
        assert forall|k: int| i + 1 <= k < shorter.len() implies key_of(#[trigger] shorter[k]) != Some(key) by {
            assert(shorter[k] == entries[k]);
        }
        lemma_keyed_last(shorter, i, key);
        assert(key_of(entries[entries.len() - 1]) != Some(key));
    }
}

proof fn lemma_overridden_none(base: Map<Seq<char>, JsonModel>, entries: Seq<JsonModel>, key: Seq<char>)
    requires
        none_with(entries, 0, key),
    ensures
        crate::json::field(overridden(base, entries), key) == crate::json::field(base, key),
    decreases entries.len(),
{
    if entries.len() > 0 {
        let shorter = entries.drop_last();
        assert forall|k: int| 0 <= k < shorter.len() implies key_of(#[trigger] shorter[k]) != Some(key) by {
            assert(shorter[k] == entries[k]);
        }
        lemma_overridden_none(base, shorter, key);
        assert(key_of(entries[entries.len() - 1]) != Some(key));
    }
}

proof fn lemma_overridden_once(
    base: Map<Seq<char>, JsonModel>,
    entries: Seq<JsonModel>,
    j: int,
    key: Seq<char>,
)
    requires
        0 <= j < entries.len(),
        key_of(entries[j]) == Some(key),
        last_with(entries, j, key),
        none_with(entries.take(j), 0, key),
    ensures
        overridden(base, entries).contains_key(key),
        overridden(base, entries)[key] == over(crate::json::field(base, key), entries[j]),
    decreases entries.len(),
{
    let shorter = entries.drop_last();
    if j == entries.len() - 1 {
        assert(shorter =~= entries.take(j));
        lemma_overridden_none(base, shorter, key);
    } else {
        assert(shorter.take(j) =~= entries.take(j));
        assert forall|k: int| j + 1 <= k < shorter.len() implies key_of(#[trigger] shorter[k]) != Some(key) by {
            assert(shorter[k] == entries[k]);
        }
        lemma_overridden_once(base, shorter, j, key);
        assert(key_of(entries[entries.len() - 1]) != Some(key));
    }
}

/// Channels are listed by their ids, each once and every one that an entry names.
pub proof fn law_order_of_channels(channels: &Vec<Json>, i: int, j: int, r: Vec<String>)
    requires
        call_ensures(channel_order, (channels,), r),
    ensures
        0 <= i < channels@.len() && says(channels@[i]@, "id"@) ==> texts(r@).contains(
            trimmed(said(channels@[i]@, "id"@)),
        ),
        0 <= i < r@.len() ==> exists|k: int|
            0 <= k < channels@.len() && id_of((#[trigger] channels@[k])@) == Some(r@[i]@),
        0 <= i < j < r@.len() ==> r@[i]@ != r@[j]@,
{
    let entries = models(channels@);
    let ids = texts(r@);
    lemma_models(channels@);
    lemma_ids_of_channels(entries);
    assert(ids.len() == r@.len());
    if 0 <= i < channels@.len() && says(channels@[i]@, "id"@) {
        lemma_said(channels@[i]@, "id"@);
        lemma_kept(said(channels@[i]@, "id"@));
        assert(entries[i] == channels@[i]@);
        assert(id_of(entries[i]) is Some);
    }
    if 0 <= i < r@.len() {
        assert(ids[i] == r@[i]@);
        assert(ids.contains(ids[i]));
        let k = choose|k: int| 0 <= k < entries.len() && id_of(#[trigger] entries[k]) == Some(ids[i]);
        assert(channels@[k]@ == entries[k]);
        if i < j < r@.len() {
            assert(ids[j] == r@[j]@);
        }
    }
}

proof fn lemma_ids_of_channels(entries: Seq<JsonModel>)
    ensures
        channel_ids(entries).no_duplicates(),
        forall|k: int|
            0 <= k < entries.len() && id_of(#[trigger] entries[k]) is Some ==> channel_ids(entries).contains(
                id_of(entries[k])->0,
            ),
        forall|id: Seq<char>| #[trigger]
            channel_ids(entries).contains(id) ==> exists|k: int|
                0 <= k < entries.len() && id_of(#[trigger] entries[k]) == Some(id),
    decreases entries.len(),
{
    if entries.len() > 0 {
        let shorter = entries.drop_last();
        let earlier = channel_ids(shorter);
        let ids = channel_ids(entries);
        lemma_ids_of_channels(shorter);
        let last = id_of(entries.last());
        assert forall|k: int| 0 <= k < entries.len() && id_of(#[trigger] entries[k]) is Some implies ids.contains(
            id_of(entries[k])->0,
        ) by {
            if k < entries.len() - 1 {
                assert(shorter[k] == entries[k]);
                assert(earlier.contains(id_of(entries[k])->0));
                let p = choose|p: int| 0 <= p < earlier.len() && earlier[p] == id_of(entries[k])->0;
                assert(ids[p] == earlier[p]);
            } else if !earlier.contains(last->0) {
                assert(ids[earlier.len() as int] == last->0);
            }
        }
        assert forall|id: Seq<char>| #[trigger] ids.contains(id) implies exists|k: int|
            0 <= k < entries.len() && id_of(#[trigger] entries[k]) == Some(id) by {
            let p = choose|p: int| 0 <= p < ids.len() && ids[p] == id;
            if p < earlier.len() {
                assert(earlier[p] == id);
                assert(earlier.contains(id));
                let k = choose|k: int| 0 <= k < shorter.len() && id_of(#[trigger] shorter[k]) == Some(id);
                assert(entries[k] == shorter[k]);
            } else {
                assert(id_of(entries[entries.len() - 1]) == Some(id));
            }
        }
        if last is Some && !earlier.contains(last->0) {
            assert forall|a: int, b: int| 0 <= a < b < ids.len() implies ids[a] != ids[b] by {
                if b == earlier.len() {
                    assert(earlier.contains(earlier[a]));
                }
            }
        }
    }
}

/// A channel is shown as connected exactly where one of its entries is, each of its entries is one of
/// its accounts, and it has its label.
pub proof fn law_channels_are_shown(channels: &Vec<Json>, i: int, r: ChannelViews)
    requires
        call_ensures(build_channel_views, (channels,), r),
        0 <= i < channels@.len(),
        says(channels@[i]@, "id"@),
    ensures
        ({
            let id = trimmed(said(channels@[i]@, "id"@));
            let shown = member(r.channels_by_id@, id)->0;
            let account = if says(channels@[i]@, "accountId"@) {
                trimmed(said(channels@[i]@, "accountId"@))
            } else {
                "default"@
            };
            &&& texts(r.channel_order@).contains(id)
            &&& member(r.channel_labels@, id) is Some && member(r.channel_meta@, id) is Some
            &&& member(r.channels_by_id@, id) is Some
            &&& member(channels@[i]@, "connected"@) != Some(JsonModel::Bool(false)) ==> member(
                shown,
                "connected"@,
            ) == Some(JsonModel::Bool(true))
            &&& (forall|k: int|
                0 <= k < channels@.len() && id_of((#[trigger] channels@[k])@) == Some(id) ==> member(
                    channels@[k]@,
                    "connected"@,
                ) == Some(JsonModel::Bool(false))) ==> member(shown, "connected"@) == Some(
                JsonModel::Bool(false),
            )
            &&& member(r.channel_accounts@, id) is Some && shows_account(
                member(r.channel_accounts@, id)->0,
                account,
                member(channels@[i]@, "connected"@) != Some(JsonModel::Bool(false)),
            )
            &&& account == "default"@ ==> member(r.channel_default_account_id@, id) == Some(
                JsonModel::Text("default"@),
            )
        }),
{
    let entries = models(channels@);
    lemma_models(channels@);
    let entry = channels@[i]@;
    let id = trimmed(said(entry, "id"@));
    lemma_said(entry, "id"@);
    lemma_kept(said(entry, "id"@));
    lemma_said(entry, "accountId"@);
    if says(entry, "accountId"@) {
        lemma_kept(said(entry, "accountId"@));
    }
    if text_of(member(entry, "accountId"@)) is Some {
        lemma_kept(text_of(member(entry, "accountId"@))->0);
    }
    assert(entries[i] == entry);
    assert(id_of(entry) == Some(id));
    lemma_ids_of_channels(entries);
    let ids = channel_ids(entries);
    assert(ids.contains(id));
    lemma_of_channel(entries, id);
    let mine = of_channel(entries, id);
    assert(mine.contains(entries[i]));
    let p = choose|p: int| 0 <= p < mine.len() && mine[p] == entry;
    let accounts = mine.map_values(|e: JsonModel| account_view(e));
    assert(accounts[p] == account_view(entry));
    assert(member(r.channel_accounts@, id) == Some(JsonModel::Array(accounts)));
    assert(member(r.channels_by_id@, id) == Some(summary_view(entries, id)));
    assert(of_channel(entries, id)[p] == entry);
    if is_connected(entry) {
        assert(any_connected(entries, id));
    }
    if account_or_default(entry) == "default"@ {
        assert(has_default(entries, id));
    }
    if forall|k: int|
        0 <= k < channels@.len() && id_of((#[trigger] channels@[k])@) == Some(id) ==> member(
            channels@[k]@,
            "connected"@,
        ) == Some(JsonModel::Bool(false)) {
        assert forall|q: int| 0 <= q < mine.len() implies !is_connected(#[trigger] mine[q]) by {
            assert(mine.contains(mine[q]));
            let k = choose|k: int| 0 <= k < entries.len() && #[trigger] entries[k] == mine[q] && id_of(
                entries[k],
            ) == Some(id);
            assert(channels@[k]@ == entries[k]);
        }
        assert(!any_connected(entries, id));
    }
    reveal_strlit("connected");
    reveal_strlit("kind");
    reveal_strlit("accountId");
    reveal_strlit("loggedOutAtMs");
    reveal_strlit("label");
    assert("connected"@.len() != "kind"@.len());
    assert("connected"@[0] != "accountId"@[0]);
    assert("connected"@.len() != "loggedOutAtMs"@.len());
    assert("connected"@.len() != "label"@.len());
    assert("kind"@.len() != "accountId"@.len());
    assert("kind"@.len() != "loggedOutAtMs"@.len());
    assert("kind"@.len() != "label"@.len());
    assert("accountId"@.len() != "loggedOutAtMs"@.len());
    assert("accountId"@.len() != "label"@.len());
    assert("loggedOutAtMs"@.len() != "label"@.len());
    assert(member(accounts[p], "accountId"@) == Some(JsonModel::Text(account_or_default(entry))));
    assert(member(accounts[p], "connected"@) == Some(JsonModel::Bool(is_connected(entry))));
    assert(shows_account(JsonModel::Array(accounts), account_or_default(entry), is_connected(entry)));
    assert(member(summary_view(entries, id), "connected"@) == Some(
        JsonModel::Bool(any_connected(entries, id)),
    ));
}

/// One of the accounts that are shown is this one, connected or not.
pub open spec fn shows_account(shown: JsonModel, account: Seq<char>, connected: bool) -> bool {
    shown is Array && exists|k: int|
        0 <= k < shown->Array_0.len() && member(#[trigger] shown->Array_0[k], "accountId"@) == Some(
            JsonModel::Text(account),
        ) && member(shown->Array_0[k], "connected"@) == Some(JsonModel::Bool(connected))
}

proof fn lemma_of_channel(entries: Seq<JsonModel>, id: Seq<char>)
    ensures
        forall|k: int|
            0 <= k < entries.len() && id_of(#[trigger] entries[k]) == Some(id) ==> of_channel(
                entries,
                id,
            ).contains(entries[k]),
        forall|e: JsonModel| #[trigger]
            of_channel(entries, id).contains(e) ==> exists|k: int|
                0 <= k < entries.len() && #[trigger] entries[k] == e && id_of(entries[k]) == Some(id),
    decreases entries.len(),
{
    if entries.len() > 0 {
        let shorter = entries.drop_last();
        let earlier = of_channel(shorter, id);
        let mine = of_channel(entries, id);
        lemma_of_channel(shorter, id);
        assert forall|k: int| 0 <= k < entries.len() && id_of(#[trigger] entries[k]) == Some(id) implies mine.contains(
            entries[k],
        ) by {
            if k < entries.len() - 1 {
                assert(shorter[k] == entries[k]);
                assert(earlier.contains(entries[k]));
                let p = choose|p: int| 0 <= p < earlier.len() && earlier[p] == entries[k];
                assert(mine[p] == earlier[p]);
            } else {
                assert(mine[earlier.len() as int] == entries[k]);
            }
        }
        assert forall|e: JsonModel| #[trigger] mine.contains(e) implies exists|k: int|
            0 <= k < entries.len() && #[trigger] entries[k] == e && id_of(entries[k]) == Some(id) by {
            let p = choose|p: int| 0 <= p < mine.len() && mine[p] == e;
            if p < earlier.len() {
                assert(earlier[p] == e);
                assert(earlier.contains(e));
                let k = choose|k: int|
                    0 <= k < shorter.len() && #[trigger] shorter[k] == e && id_of(shorter[k]) == Some(id);
                assert(entries[k] == shorter[k]);
            } else {
                assert(entries[entries.len() - 1] == e);
            }
        }
    }
}

/// Where those that are not connected are not wanted, what is shown is what is shown else without
/// them.
pub proof fn law_connected_channels(
    config: &RuntimeConfig,
    persisted: Option<Json>,
    now: u64,
    i: int,
    all: Json,
    r: Json,
)
    requires
        call_ensures(handle_status, (config, None, persisted, now), all),
        call_ensures(handle_status, (config, Some(false), persisted, now), r),
    ensures
        member(r@, "ts"@) == Some(JsonModel::Unsigned(now)),
        member(all@, "channels"@) matches Some(JsonModel::Array(before)) && (member(r@, "channels"@) matches Some(
            JsonModel::Array(after),
        ) && {
            &&& 0 <= i < before.len() && member(before[i], "connected"@) != Some(JsonModel::Bool(false))
                ==> after.contains(before[i])
            &&& 0 <= i < after.len() ==> before.contains(after[i]) && member(after[i], "connected"@)
                != Some(JsonModel::Bool(false))
        }),
{
    reveal_strlit("ts");
    reveal_strlit("channels");
    reveal_strlit("channelOrder");
    reveal_strlit("channelLabels");
    reveal_strlit("channelMeta");
    reveal_strlit("channelsById");
    reveal_strlit("channelAccounts");
    reveal_strlit("channelDefaultAccountId");
    assert("ts"@.len() != "channels"@.len());
    assert("ts"@.len() != "channelOrder"@.len());
    assert("ts"@.len() != "channelLabels"@.len());
    assert("ts"@.len() != "channelMeta"@.len());
    assert("ts"@.len() != "channelsById"@.len());
    assert("ts"@.len() != "channelAccounts"@.len());
    assert("ts"@.len() != "channelDefaultAccountId"@.len());
    assert("channels"@.len() != "channelOrder"@.len());
    assert("channels"@.len() != "channelLabels"@.len());
    assert("channels"@.len() != "channelMeta"@.len());
    assert("channels"@.len() != "channelsById"@.len());
    assert("channels"@.len() != "channelAccounts"@.len());
    assert("channels"@.len() != "channelDefaultAccountId"@.len());
    assert("channelOrder"@.len() != "channelLabels"@.len());
    assert("channelOrder"@.len() != "channelMeta"@.len());
    assert("channelOrder"@[7] != "channelsById"@[7]);
    assert("channelOrder"@.len() != "channelAccounts"@.len());
    assert("channelOrder"@.len() != "channelDefaultAccountId"@.len());
    assert("channelLabels"@.len() != "channelMeta"@.len());
    assert("channelLabels"@.len() != "channelsById"@.len());
    assert("channelLabels"@.len() != "channelAccounts"@.len());
    assert("channelLabels"@.len() != "channelDefaultAccountId"@.len());
    assert("channelMeta"@.len() != "channelsById"@.len());
    assert("channelMeta"@.len() != "channelAccounts"@.len());
    assert("channelMeta"@.len() != "channelDefaultAccountId"@.len());
    assert("channelsById"@.len() != "channelAccounts"@.len());
    assert("channelsById"@.len() != "channelDefaultAccountId"@.len());
    assert("channelAccounts"@.len() != "channelDefaultAccountId"@.len());
    let entries = known_channels(*config, crate::json::opt_model(persisted));
    lemma_connected_only(entries);
    let some = connected_only(entries);
    if 0 <= i < some.len() {
        assert(some.contains(some[i]));
    }
}

proof fn lemma_connected_only(entries: Seq<JsonModel>)
    ensures
        forall|k: int|
            0 <= k < entries.len() && is_connected(#[trigger] entries[k]) ==> connected_only(entries).contains(
                entries[k],
            ),
        forall|e: JsonModel| #[trigger]
            connected_only(entries).contains(e) ==> entries.contains(e) && is_connected(e),
    decreases entries.len(),
{
    if entries.len() > 0 {
        let shorter = entries.drop_last();
        let earlier = connected_only(shorter);
        let some = connected_only(entries);
        lemma_connected_only(shorter);
        assert forall|k: int| 0 <= k < entries.len() && is_connected(#[trigger] entries[k]) implies some.contains(
            entries[k],
        ) by {
            if k < entries.len() - 1 {
                assert(shorter[k] == entries[k]);
                assert(earlier.contains(entries[k]));
                let p = choose|p: int| 0 <= p < earlier.len() && earlier[p] == entries[k];
                assert(some[p] == earlier[p]);
            } else {
                assert(some[earlier.len() as int] == entries[k]);
            }
        }
        assert forall|e: JsonModel| #[trigger] some.contains(e) implies entries.contains(e) && is_connected(e) by {
            let p = choose|p: int| 0 <= p < some.len() && some[p] == e;
            if p < earlier.len() {
                assert(earlier[p] == e);
                assert(earlier.contains(e));
                let k = choose|k: int| 0 <= k < shorter.len() && shorter[k] == e;
                assert(entries[k] == e);
            } else {
                assert(entries[entries.len() - 1] == e);
            }
        }
    }
}

/// Leaving a channel disconnects its entry of that account, and adds one that is disconnected where
/// there is none. What is shown of the others stays.
pub proof fn law_leaving_channels(
    config: &RuntimeConfig,
    params: ChannelsLogoutParams,
    persisted: Option<Json>,
    now: u64,
    i: int,
    all: Json,
    r: Result<(Json, Json), ErrorShape>,
)
    requires
        call_ensures(handle_status, (config, None, persisted, now), all),
        call_ensures(handle_logout, (config, params, persisted, now), r),
    ensures
        ({
            let named = if params.channel is Some {
                params.channel
            } else {
                params.id
            };
            let channel = trimmed(named->0@);
            let account = if is_given(params.account_id) {
                trimmed(params.account_id->0@)
            } else {
                "default"@
            };
            &&& r is Ok <==> is_given(named)
            &&& r is Ok ==> {
                &&& member(r->Ok_0.1@, "channel"@) == Some(JsonModel::Text(channel))
                &&& member(r->Ok_0.1@, "accountId"@) == Some(JsonModel::Text(account))
                &&& member(all@, "channels"@) matches Some(JsonModel::Array(before)) && (
                r->Ok_0.0@ matches JsonModel::Array(after) && {
                    &&& before.len() <= after.len() <= before.len() + 1
                    &&& exists|k: int|
                        0 <= k < after.len() && member(#[trigger] after[k], "id"@) == Some(
                            JsonModel::Text(channel),
                        ) && member(after[k], "accountId"@) == Some(JsonModel::Text(account)) && member(
                            after[k],
                            "connected"@,
                        ) == Some(JsonModel::Bool(false))
                    &&& 0 <= i < before.len() && member(before[i], "id"@) != Some(
                        JsonModel::Text(channel),
                    ) ==> after[i] == before[i]
                })
            }
        }),
{
    reveal_strlit("ts");
    reveal_strlit("channels");
    reveal_strlit("channelOrder");
    reveal_strlit("channelLabels");
    reveal_strlit("channelMeta");
    reveal_strlit("channelsById");
    reveal_strlit("channelAccounts");
    reveal_strlit("channelDefaultAccountId");
    assert("ts"@.len() != "channels"@.len());
    assert("ts"@.len() != "channelOrder"@.len());
    assert("ts"@.len() != "channelLabels"@.len());
    assert("ts"@.len() != "channelMeta"@.len());
    assert("ts"@.len() != "channelsById"@.len());
    assert("ts"@.len() != "channelAccounts"@.len());
    assert("ts"@.len() != "channelDefaultAccountId"@.len());
    assert("channels"@.len() != "channelOrder"@.len());
    assert("channels"@.len() != "channelLabels"@.len());
    assert("channels"@.len() != "channelMeta"@.len());
    assert("channels"@.len() != "channelsById"@.len());
    assert("channels"@.len() != "channelAccounts"@.len());
    assert("channels"@.len() != "channelDefaultAccountId"@.len());
    assert("channelOrder"@.len() != "channelLabels"@.len());
    assert("channelOrder"@.len() != "channelMeta"@.len());
    assert("channelOrder"@[7] != "channelsById"@[7]);
    assert("channelOrder"@.len() != "channelAccounts"@.len());
    assert("channelOrder"@.len() != "channelDefaultAccountId"@.len());
    assert("channelLabels"@.len() != "channelMeta"@.len());
    assert("channelLabels"@.len() != "channelsById"@.len());
    assert("channelLabels"@.len() != "channelAccounts"@.len());
    assert("channelLabels"@.len() != "channelDefaultAccountId"@.len());
    assert("channelMeta"@.len() != "channelsById"@.len());
    assert("channelMeta"@.len() != "channelAccounts"@.len());
    assert("channelMeta"@.len() != "channelDefaultAccountId"@.len());
    assert("channelsById"@.len() != "channelAccounts"@.len());
    assert("channelsById"@.len() != "channelDefaultAccountId"@.len());
    assert("channelAccounts"@.len() != "channelDefaultAccountId"@.len());
    reveal_strlit("ok");
    reveal_strlit("channel");
    reveal_strlit("accountId");
    reveal_strlit("loggedOut");
    reveal_strlit("id");
    reveal_strlit("connected");
    reveal_strlit("loggedOutAtMs");
    assert("ok"@.len() != "channel"@.len());
    assert("ok"@.len() != "accountId"@.len());
    assert("ok"@.len() != "loggedOut"@.len());
    assert("ok"@[0] != "id"@[0]);
    assert("ok"@.len() != "connected"@.len());
    assert("ok"@.len() != "loggedOutAtMs"@.len());
    assert("channel"@.len() != "accountId"@.len());
    assert("channel"@.len() != "loggedOut"@.len());
    assert("channel"@.len() != "id"@.len());
    assert("channel"@.len() != "connected"@.len());
    assert("channel"@.len() != "loggedOutAtMs"@.len());
    assert("accountId"@[0] != "loggedOut"@[0]);
    assert("accountId"@.len() != "id"@.len());
    assert("accountId"@[0] != "connected"@[0]);
    assert("accountId"@.len() != "loggedOutAtMs"@.len());
    assert("loggedOut"@.len() != "id"@.len());
    assert("loggedOut"@[0] != "connected"@[0]);
    assert("loggedOut"@.len() != "loggedOutAtMs"@.len());
    assert("id"@.len() != "connected"@.len());
    assert("id"@.len() != "loggedOutAtMs"@.len());
    assert("connected"@.len() != "loggedOutAtMs"@.len());
    lemma_is_given(params.channel);
    lemma_is_given(params.id);
    lemma_is_given(params.account_id);
    if r is Ok {
        let before = known_channels(*config, crate::json::opt_model(persisted));
        let channel = logout_channel(params)->0;
        let account = logout_account(params);
        let after = channels_after(before, channel, account, now);
        if any_entry_of(before, channel, account) {
            let k = choose|k: int| 0 <= k < before.len() && is_entry_of(#[trigger] before[k], channel, account);
            assert(after[k] == left_entry(before[k], account, now));
            assert(before[k] is Object);
        } else {
            let k = before.len() as int;
            assert(member(after[k], "id"@) == Some(JsonModel::Text(channel)));
        }
    }
}

} // verus!
