//! Devices: who asks to be paired, who is paired, and the tokens of those who are.
use crate::domain::models::NodePairRequestRecord;
use crate::json::{
    lemma_models, member, models, no_fields, number_or_null, object, opt_number_json, opt_text_json,
    set_field, text, text_array, text_or_null, texts_json, Json, JsonModel,
};
use crate::lists::{is_sorted_set, lemma_sorted_of, sorted_set};
use crate::protocol::errors::{invalid, invalid_request, unavailable, ErrorModel, ErrorShape, ERROR_UNAVAILABLE};
use crate::rpc::methods::{field_missing, listed, required_text};
use crate::application::state::copy_texts;
use crate::sorted_map::SortedMap;
use crate::text::{cat, kept, lemma_kept, not_blank, opt_text, same, texts, trimmed};
use vstd::prelude::*;

verus! {

broadcast use vstd::seq::group_seq_axioms;

pub const DEVICE_STATE_KEY: &'static str = "runtime/device/state";

// ---------------------------------------------------------------------------------------------
// Records
// ---------------------------------------------------------------------------------------------
/// A device that asks to be paired.
pub struct DevicePairRequest {
    pub request_id: String,
    pub device_id: String,
    pub display_name: Option<String>,
    pub role: Option<String>,
    pub scopes: Vec<String>,
    pub created_at_ms: u64,
}

/// The JSON of the record.
pub open spec fn device_pair_request_json(r: DevicePairRequest) -> JsonModel {
    JsonModel::Object(
        no_fields().insert("requestId"@, JsonModel::Text(r.request_id@)).insert("deviceId"@, JsonModel::Text(r.device_id@)).insert("displayName"@, text_or_null(opt_text(r.display_name))).insert("role"@, text_or_null(opt_text(r.role))).insert("scopes"@, text_array(texts(r.scopes@))).insert("createdAtMs"@, JsonModel::Unsigned(r.created_at_ms)),
    )
}

impl DevicePairRequest {
    /// The JSON of the record.
    pub fn to_json(&self) -> (r: Json)
        ensures
            r@ == device_pair_request_json(*self),
    {
        let mut o = object();
        set_field(&mut o, "requestId", text(self.request_id.as_str()));
        set_field(&mut o, "deviceId", text(self.device_id.as_str()));
        set_field(&mut o, "displayName", opt_text_json(&self.display_name));
        set_field(&mut o, "role", opt_text_json(&self.role));
        set_field(&mut o, "scopes", texts_json(&self.scopes));
        set_field(&mut o, "createdAtMs", Json::Unsigned(self.created_at_ms));
        Json::Object(o)
    }
}

/// A token of a device.
pub struct DeviceAuthToken {
    pub role: String,
    pub token: String,
    pub scopes: Vec<String>,
    pub created_at_ms: u64,
    pub rotated_at_ms: Option<u64>,
    pub revoked_at_ms: Option<u64>,
}

/// The JSON of the record.
pub open spec fn device_auth_token_json(r: DeviceAuthToken) -> JsonModel {
    JsonModel::Object(
        no_fields().insert("role"@, JsonModel::Text(r.role@)).insert("token"@, JsonModel::Text(r.token@)).insert("scopes"@, text_array(texts(r.scopes@))).insert("createdAtMs"@, JsonModel::Unsigned(r.created_at_ms)).insert("rotatedAtMs"@, number_or_null(r.rotated_at_ms)).insert("revokedAtMs"@, number_or_null(r.revoked_at_ms)),
    )
}

impl DeviceAuthToken {
    /// The JSON of the record.
    pub fn to_json(&self) -> (r: Json)
        ensures
            r@ == device_auth_token_json(*self),
    {
        let mut o = object();
        set_field(&mut o, "role", text(self.role.as_str()));
        set_field(&mut o, "token", text(self.token.as_str()));
        set_field(&mut o, "scopes", texts_json(&self.scopes));
        set_field(&mut o, "createdAtMs", Json::Unsigned(self.created_at_ms));
        set_field(&mut o, "rotatedAtMs", opt_number_json(self.rotated_at_ms));
        set_field(&mut o, "revokedAtMs", opt_number_json(self.revoked_at_ms));
        Json::Object(o)
    }
}

/// A device that is paired, with its tokens by their roles.
pub struct PairedDevice {
    pub device_id: String,
    pub display_name: Option<String>,
    pub role: Option<String>,
    pub scopes: Vec<String>,
    pub approved_scopes: Vec<String>,
    pub paired_at_ms: u64,
    pub tokens: SortedMap<DeviceAuthToken>,
}

/// Tokens by their roles, as they are stored.
pub open spec fn tokens_json(tokens: Map<Seq<char>, DeviceAuthToken>) -> JsonModel {
    JsonModel::Object(
        Map::new(
            |role: Seq<char>| tokens.contains_key(role),
            |role: Seq<char>| device_auth_token_json(tokens[role]),
        ),
    )
}

/// A paired device, as it is stored.
pub open spec fn paired_device_json(d: PairedDevice) -> JsonModel {
    JsonModel::Object(
        no_fields()
            .insert("deviceId"@, JsonModel::Text(d.device_id@))
            .insert("displayName"@, text_or_null(opt_text(d.display_name)))
            .insert("role"@, text_or_null(opt_text(d.role)))
            .insert("scopes"@, text_array(texts(d.scopes@)))
            .insert("approvedScopes"@, text_array(texts(d.approved_scopes@)))
            .insert("pairedAtMs"@, JsonModel::Unsigned(d.paired_at_ms))
            .insert("tokens"@, tokens_json(d.tokens@)),
    )
}

fn tokens_to_json(tokens: &SortedMap<DeviceAuthToken>) -> (r: Json)
    ensures
        r@ == tokens_json(tokens@),
{
    let mut o = object();
    let n: usize = tokens.len();
    let ghost entries = tokens.entries();
    let mut i: usize = 0;
    proof {
        assert(entries.take(0) =~= Seq::<(String, DeviceAuthToken)>::empty());
        assert(crate::sorted_map::entries_map(entries.take(0)) =~= Map::empty());
        assert(crate::json::fields(o) =~= tokens_json(
            crate::sorted_map::entries_map(entries.take(0)),
        )->Object_0);
    }
    while i < n
        invariant
            n == tokens.keys().len(),
            entries == tokens.entries(),
            i <= n,
            JsonModel::Object(crate::json::fields(o)) == tokens_json(
                crate::sorted_map::entries_map(entries.take(i as int)),
            ),
        decreases n - i,
    {
        let (role, token) = tokens.entry(i);
        let ghost so_far = crate::sorted_map::entries_map(entries.take(i as int));
        proof {
            let longer = entries.take(i + 1);
            assert(longer.drop_last() =~= entries.take(i as int));
            assert(longer.last() == entries[i as int]);
        }
        set_field(&mut o, role.as_str(), token.to_json());
        proof {
            let next = so_far.insert(role@, *token);
            assert(crate::sorted_map::entries_map(entries.take(i + 1)) == next);
            assert(crate::json::fields(o) =~= tokens_json(next)->Object_0);
        }
        i = i + 1;
    }
    assert(entries.take(n as int) =~= entries);
    Json::Object(o)
}

impl PairedDevice {
    /// The device, as it is stored.
    pub fn to_json(&self) -> (r: Json)
        ensures
            r@ == paired_device_json(*self),
    {
        let mut o = object();
        set_field(&mut o, "deviceId", text(self.device_id.as_str()));
        set_field(&mut o, "displayName", opt_text_json(&self.display_name));
        set_field(&mut o, "role", opt_text_json(&self.role));
        set_field(&mut o, "scopes", texts_json(&self.scopes));
        set_field(&mut o, "approvedScopes", texts_json(&self.approved_scopes));
        set_field(&mut o, "pairedAtMs", Json::Unsigned(self.paired_at_ms));
        set_field(&mut o, "tokens", tokens_to_json(&self.tokens));
        Json::Object(o)
    }
}

/// Requests as JSON.
pub open spec fn pending_json(items: Seq<DevicePairRequest>) -> Seq<JsonModel> {
    items.map_values(|item: DevicePairRequest| device_pair_request_json(item))
}

/// Requests as JSON.
pub fn pending_to_json(items: &Vec<DevicePairRequest>) -> (r: Json)
    ensures
        r@ == JsonModel::Array(pending_json(items@)),
{
    let mut out: Vec<Json> = Vec::new();
    let mut i: usize = 0;
    while i < items.len()
        invariant
            i <= items@.len(),
            out@.len() == i,
            forall|k: int| 0 <= k < i ==> (#[trigger] out@[k])@ == device_pair_request_json(items@[k]),
        decreases items@.len() - i,
    {
        out.push(items[i].to_json());
        i = i + 1;
    }
    proof {
        crate::json::lemma_models(out@);
        assert(crate::json::models(out@) =~= pending_json(items@));
    }
    Json::Array(out)
}

/// Paired devices as JSON.
pub open spec fn paired_json(items: Seq<PairedDevice>) -> Seq<JsonModel> {
    items.map_values(|item: PairedDevice| paired_device_json(item))
}

/// Paired devices as JSON.
pub fn paired_to_json(items: &Vec<PairedDevice>) -> (r: Json)
    ensures
        r@ == JsonModel::Array(paired_json(items@)),
{
    let mut out: Vec<Json> = Vec::new();
    let mut i: usize = 0;
    while i < items.len()
        invariant
            i <= items@.len(),
            out@.len() == i,
            forall|k: int| 0 <= k < i ==> (#[trigger] out@[k])@ == paired_device_json(items@[k]),
        decreases items@.len() - i,
    {
        out.push(items[i].to_json());
        i = i + 1;
    }
    proof {
        crate::json::lemma_models(out@);
        assert(crate::json::models(out@) =~= paired_json(items@));
    }
    Json::Array(out)
}

/// The devices that ask to be paired, and those that are.
pub struct DeviceState {
    pub pending: Vec<DevicePairRequest>,
    pub paired: Vec<PairedDevice>,
}

/// The devices, as they are stored.
pub open spec fn device_state_json(s: DeviceState) -> JsonModel {
    JsonModel::Object(
        no_fields()
            .insert("pending"@, JsonModel::Array(pending_json(s.pending@)))
            .insert("paired"@, JsonModel::Array(paired_json(s.paired@))),
    )
}

impl DeviceState {
    /// The devices, as they are stored.
    pub fn to_json(&self) -> (r: Json)
        ensures
            r@ == device_state_json(*self),
    {
        let mut o = object();
        set_field(&mut o, "pending", pending_to_json(&self.pending));
        set_field(&mut o, "paired", paired_to_json(&self.paired));
        Json::Object(o)
    }
}

/// The devices, from what was read of the store.
pub fn load_device_state(stored: Option<Result<DeviceState, String>>) -> (r: Result<
    DeviceState,
    ErrorShape,
>)
    ensures
        match stored {
            None => r is Ok && r->Ok_0.pending@.len() == 0 && r->Ok_0.paired@.len() == 0,
            Some(Ok(state)) => r == Ok::<DeviceState, ErrorShape>(state),
            Some(Err(error)) => r is Err && r->Err_0@ == unavailable(
                "failed to decode device state: "@ + error@,
            ),
        },
{
    match stored {
        None => Ok(DeviceState { pending: Vec::new(), paired: Vec::new() }),
        Some(Ok(state)) => Ok(state),
        Some(Err(error)) => Err(
            ErrorShape::new(
                ERROR_UNAVAILABLE,
                cat("failed to decode device state: ", error.as_str()).as_str(),
            ),
        ),
    }
}

// ---------------------------------------------------------------------------------------------
// Looking up
// ---------------------------------------------------------------------------------------------
/// The place of a request; behind the last one where there is none of the id.
pub open spec fn request_place(pending: Seq<DevicePairRequest>, id: Seq<char>) -> nat
    decreases pending.len(),
{
    if pending.len() == 0 || pending[0].request_id@ == id {
        0
    } else {
        1 + request_place(pending.skip(1), id)
    }
}

/// The place of a paired device; behind the last one where there is none of the id.
pub open spec fn device_place(paired: Seq<PairedDevice>, id: Seq<char>) -> nat
    decreases paired.len(),
{
    if paired.len() == 0 || paired[0].device_id@ == id {
        0
    } else {
        1 + device_place(paired.skip(1), id)
    }
}

/// A device asks to be paired under the id.
pub open spec fn asks(pending: Seq<DevicePairRequest>, id: Seq<char>) -> bool {
    request_place(pending, id) < pending.len()
}

/// A device of the id is paired.
pub open spec fn is_paired(paired: Seq<PairedDevice>, id: Seq<char>) -> bool {
    device_place(paired, id) < paired.len()
}

pub proof fn lemma_request_place(pending: Seq<DevicePairRequest>, id: Seq<char>)
    ensures
        request_place(pending, id) <= pending.len(),
        asks(pending, id) ==> pending[request_place(pending, id) as int].request_id@ == id,
        forall|k: int|
            0 <= k < request_place(pending, id) ==> (#[trigger] pending[k]).request_id@ != id,
    decreases pending.len(),
{
    if pending.len() > 0 && pending[0].request_id@ != id {
        let rest = pending.skip(1);
        lemma_request_place(rest, id);
        assert forall|k: int| 0 <= k < request_place(pending, id) implies (
        #[trigger] pending[k]).request_id@ != id by {
            if k > 0 {
                assert(rest[k - 1] == pending[k]);
            }
        }
    }
}

pub proof fn lemma_device_place(paired: Seq<PairedDevice>, id: Seq<char>)
    ensures
        device_place(paired, id) <= paired.len(),
        is_paired(paired, id) ==> paired[device_place(paired, id) as int].device_id@ == id,
        forall|k: int|
            0 <= k < device_place(paired, id) ==> (#[trigger] paired[k]).device_id@ != id,
    decreases paired.len(),
{
    if paired.len() > 0 && paired[0].device_id@ != id {
        let rest = paired.skip(1);
        lemma_device_place(rest, id);
        assert forall|k: int| 0 <= k < device_place(paired, id) implies (
        #[trigger] paired[k]).device_id@ != id by {
            if k > 0 {
                assert(rest[k - 1] == paired[k]);
            }
        }
    }
}

/// The place of a request; behind the last one where there is none of the id.
pub fn find_request(pending: &Vec<DevicePairRequest>, id: &str) -> (r: usize)
    ensures
        r == request_place(pending@, id@),
        r <= pending@.len(),
{
    let mut i: usize = 0;
    assert(pending@.skip(0) =~= pending@);
    while i < pending.len()
        invariant
            i <= pending@.len(),
            request_place(pending@, id@) == i + request_place(pending@.skip(i as int), id@),
        decreases pending@.len() - i,
    {
        let ghost rest = pending@.skip(i as int);
        assert(rest[0] == pending@[i as int]);
        if same(pending[i].request_id.as_str(), id) {
            return i;
        }
        assert(rest.skip(1) =~= pending@.skip(i + 1));
        i = i + 1;
    }
    i
}

/// The place of a paired device; behind the last one where there is none of the id.
pub fn find_device(paired: &Vec<PairedDevice>, id: &str) -> (r: usize)
    ensures
        r == device_place(paired@, id@),
        r <= paired@.len(),
        r < paired@.len() ==> paired@[r as int].device_id@ == id@,
{
    let mut i: usize = 0;
    assert(paired@.skip(0) =~= paired@);
    while i < paired.len()
        invariant
            i <= paired@.len(),
            device_place(paired@, id@) == i + device_place(paired@.skip(i as int), id@),
        decreases paired@.len() - i,
    {
        let ghost rest = paired@.skip(i as int);
        assert(rest[0] == paired@[i as int]);
        if same(paired[i].device_id.as_str(), id) {
            return i;
        }
        assert(rest.skip(1) =~= paired@.skip(i + 1));
        i = i + 1;
    }
    i
}

// ---------------------------------------------------------------------------------------------
// What is shown
// ---------------------------------------------------------------------------------------------
/// What is shown of a token: all but the token itself.
pub open spec fn token_summary(token: DeviceAuthToken) -> JsonModel {
    JsonModel::Object(
        no_fields()
            .insert("role"@, JsonModel::Text(token.role@))
            .insert("scopes"@, text_array(texts(token.scopes@)))
            .insert("createdAtMs"@, JsonModel::Unsigned(token.created_at_ms))
            .insert("rotatedAtMs"@, number_or_null(token.rotated_at_ms))
            .insert("revokedAtMs"@, number_or_null(token.revoked_at_ms))
            .insert("tokenPresent"@, JsonModel::Bool(token.token@.len() > 0)),
    )
}

/// What is shown of the tokens, in the order of their roles.
pub open spec fn token_summaries(entries: Seq<(String, DeviceAuthToken)>) -> Seq<JsonModel> {
    entries.map_values(|entry: (String, DeviceAuthToken)| token_summary(entry.1))
}

/// What is shown of a paired device.
pub open spec fn redacted(d: PairedDevice) -> JsonModel {
    JsonModel::Object(
        no_fields()
            .insert("deviceId"@, JsonModel::Text(d.device_id@))
            .insert("displayName"@, text_or_null(opt_text(d.display_name)))
            .insert("role"@, text_or_null(opt_text(d.role)))
            .insert("scopes"@, text_array(texts(d.scopes@)))
            .insert("approvedScopes"@, text_array(texts(d.approved_scopes@)))
            .insert("pairedAtMs"@, JsonModel::Unsigned(d.paired_at_ms))
            .insert("tokens"@, JsonModel::Array(token_summaries(d.tokens.entries()))),
    )
}

/// What is shown of a paired device.
pub fn redact_paired_device(device: &PairedDevice) -> (r: Json)
    ensures
        r@ == redacted(*device),
{
    let n: usize = device.tokens.len();
    let mut out: Vec<Json> = Vec::new();
    let mut i: usize = 0;
    while i < n
        invariant
            n == device.tokens.keys().len(),
            i <= n,
            out@.len() == i,
            forall|k: int|
                0 <= k < i ==> (#[trigger] out@[k])@ == token_summary(
                    device.tokens.entries()[k].1,
                ),
        decreases n - i,
    {
        let (_, token) = device.tokens.entry(i);
        let mut o = object();
        set_field(&mut o, "role", text(token.role.as_str()));
        set_field(&mut o, "scopes", texts_json(&token.scopes));
        set_field(&mut o, "createdAtMs", Json::Unsigned(token.created_at_ms));
        set_field(&mut o, "rotatedAtMs", opt_number_json(token.rotated_at_ms));
        set_field(&mut o, "revokedAtMs", opt_number_json(token.revoked_at_ms));
        set_field(&mut o, "tokenPresent", Json::Bool(!token.token.as_str().is_empty()));
        out.push(Json::Object(o));
        i = i + 1;
    }
    proof {
        lemma_models(out@);
        assert(models(out@) =~= token_summaries(device.tokens.entries()));
    }
    let mut o = object();
    set_field(&mut o, "deviceId", text(device.device_id.as_str()));
    set_field(&mut o, "displayName", opt_text_json(&device.display_name));
    set_field(&mut o, "role", opt_text_json(&device.role));
    set_field(&mut o, "scopes", texts_json(&device.scopes));
    set_field(&mut o, "approvedScopes", texts_json(&device.approved_scopes));
    set_field(&mut o, "pairedAtMs", Json::Unsigned(device.paired_at_ms));
    set_field(&mut o, "tokens", Json::Array(out));
    Json::Object(o)
}

/// A node that asks to be paired, as a device that does.
pub open spec fn node_candidate(node: NodePairRequestRecord) -> JsonModel {
    JsonModel::Object(
        no_fields()
            .insert("requestId"@, JsonModel::Text(node.request_id@))
            .insert("deviceId"@, JsonModel::Text(node.node_id@))
            .insert("displayName"@, JsonModel::Text(node.display_name@))
            .insert("role"@, JsonModel::Text("node"@))
            .insert("scopes"@, text_array(Seq::empty()))
            .insert("createdAtMs"@, JsonModel::Unsigned(node.created_at_ms)),
    )
}

/// The ids of requests.
pub open spec fn request_ids(pending: Seq<DevicePairRequest>) -> Seq<Seq<char>> {
    pending.map_values(|request: DevicePairRequest| request.request_id@)
}

/// The requests of nodes that are added to those of devices: those that are open and whose ids are
/// not there yet. They come with all ids that are then there.
pub open spec fn node_candidates(
    known: Seq<Seq<char>>,
    nodes: Seq<NodePairRequestRecord>,
) -> (Seq<Seq<char>>, Seq<JsonModel>)
    decreases nodes.len(),
{
    if nodes.len() == 0 {
        (known, Seq::empty())
    } else {
        let (ids, items) = node_candidates(known, nodes.drop_last());
        let node = nodes.last();
        if node.status@ == "pending"@ && !ids.contains(node.request_id@) {
            (ids.push(node.request_id@), items.push(node_candidate(node)))
        } else {
            (ids, items)
        }
    }
}

/// The devices that ask to be paired, with the nodes that do, and the devices that are.
pub fn handle_pair_list(state: &DeviceState, nodes: &Vec<NodePairRequestRecord>) -> (r: Json)
    ensures
        r@ == JsonModel::Object(
            no_fields()
                .insert("pending"@, JsonModel::Array(pending_json(state.pending@) + node_candidates(request_ids(state.pending@), nodes@).1))
                .insert("paired"@, JsonModel::Array(state.paired@.map_values(|d: PairedDevice| redacted(d)))),
        ),
{
    let mut ids: Vec<String> = Vec::new();
    let mut pending: Vec<Json> = Vec::new();
    let mut i: usize = 0;
    while i < state.pending.len()
        invariant
            i <= state.pending@.len(),
            ids@.len() == i,
            pending@.len() == i,
            forall|k: int|
                0 <= k < i ==> (#[trigger] ids@[k])@ == state.pending@[k].request_id@,
            forall|k: int|
                0 <= k < i ==> (#[trigger] pending@[k])@ == device_pair_request_json(
                    state.pending@[k],
                ),
        decreases state.pending@.len() - i,
    {
        ids.push(state.pending[i].request_id.clone());
        pending.push(state.pending[i].to_json());
        i = i + 1;
    }
    let ghost known = request_ids(state.pending@);
    let ghost first = pending_json(state.pending@);
    proof {
        lemma_models(pending@);
        assert(models(pending@) =~= first + node_candidates(known, nodes@.take(0)).1);
        assert(texts(ids@) =~= node_candidates(known, nodes@.take(0)).0);
    }
    let mut k: usize = 0;
    while k < nodes.len()
        invariant
            k <= nodes@.len(),
            texts(ids@) == node_candidates(known, nodes@.take(k as int)).0,
            models(pending@) == first + node_candidates(known, nodes@.take(k as int)).1,
        decreases nodes@.len() - k,
    {
        let node = &nodes[k];
        let ghost ids_before = ids@;
        let ghost before = pending@;
        proof {
            let t = nodes@.take(k + 1);
            assert(t.drop_last() =~= nodes@.take(k as int));
            assert(t.last() == nodes@[k as int]);
        }
        if same(node.status.as_str(), "pending") && !listed(node.request_id.as_str(), &ids) {
            let none: Vec<String> = Vec::new();
            assert(texts(none@) =~= Seq::<Seq<char>>::empty());
            let mut o = object();
            set_field(&mut o, "requestId", text(node.request_id.as_str()));
            set_field(&mut o, "deviceId", text(node.node_id.as_str()));
            set_field(&mut o, "displayName", text(node.display_name.as_str()));
            set_field(&mut o, "role", text("node"));
            set_field(&mut o, "scopes", texts_json(&none));
            set_field(&mut o, "createdAtMs", Json::Unsigned(node.created_at_ms));
            pending.push(Json::Object(o));
            ids.push(node.request_id.clone());
            proof {
                lemma_models(pending@);
                lemma_models(before);
                assert(models(pending@) =~= models(before).push(node_candidate(*node)));
                assert(texts(ids@) =~= texts(ids_before).push(node.request_id@));
                assert(first + node_candidates(known, nodes@.take(k as int)).1.push(
                    node_candidate(*node),
                ) =~= (first + node_candidates(known, nodes@.take(k as int)).1).push(
                    node_candidate(*node),
                ));
            }
        }
        k = k + 1;
    }
    assert(nodes@.take(k as int) =~= nodes@);
    let mut paired: Vec<Json> = Vec::new();
    let mut j: usize = 0;
    while j < state.paired.len()
        invariant
            j <= state.paired@.len(),
            paired@.len() == j,
            forall|k: int| 0 <= k < j ==> (#[trigger] paired@[k])@ == redacted(state.paired@[k]),
        decreases state.paired@.len() - j,
    {
        paired.push(redact_paired_device(&state.paired[j]));
        j = j + 1;
    }
    proof {
        lemma_models(paired@);
        assert(models(paired@) =~= state.paired@.map_values(|d: PairedDevice| redacted(d)));
    }
    let mut o = object();
    set_field(&mut o, "pending", Json::Array(pending));
    set_field(&mut o, "paired", Json::Array(paired));
    Json::Object(o)
}

// ---------------------------------------------------------------------------------------------
// Pairing
// ---------------------------------------------------------------------------------------------
/// The devices with one more in them, in place of another of its id.
pub open spec fn with_paired(paired: Seq<PairedDevice>, device: PairedDevice) -> Seq<PairedDevice> {
    if is_paired(paired, device.device_id@) {
        paired.update(device_place(paired, device.device_id@) as int, device)
    } else {
        paired.push(device)
    }
}

/// Puts a device among the paired ones, in place of another of its id.
pub fn insert_or_replace_paired(entries: &mut Vec<PairedDevice>, candidate: PairedDevice)
    ensures
        final(entries)@ == with_paired(old(entries)@, candidate),
{
    let ghost before = entries@;
    let at: usize = find_device(entries, candidate.device_id.as_str());
    if at < entries.len() {
        let ghost new = candidate;
        let _ = entries.remove(at);
        entries.insert(at, candidate);
        assert(entries@ =~= before.update(at as int, new));
    } else {
        entries.push(candidate);
    }
}

/// A device as it is once a request was approved.
pub open spec fn is_paired_from(
    device: PairedDevice,
    id: Seq<char>,
    name: Option<Seq<char>>,
    role: Option<Seq<char>>,
    scopes: Seq<Seq<char>>,
    now: u64,
) -> bool {
    &&& device.device_id@ == id
    &&& opt_text(device.display_name) == name
    &&& opt_text(device.role) == role
    &&& texts(device.scopes@) == scopes
    &&& texts(device.approved_scopes@) == scopes
    &&& device.paired_at_ms == now
    &&& device.tokens@ == Map::<Seq<char>, DeviceAuthToken>::empty()
}

/// The id of a request, or a refusal.
pub fn pair_request_id(method: &str, raw: &str) -> (r: Result<String, ErrorShape>)
    ensures
        match kept(raw@) {
            Some(id) => r is Ok && r->Ok_0@ == id,
            None => r is Err && r->Err_0@ == field_missing(method@, "requestId"@),
        },
{
    required_text(method, "requestId", raw)
}

/// Whether a device asks to be paired under the id.
pub fn is_pending(state: &DeviceState, request_id: &str) -> (r: bool)
    ensures
        r == asks(state.pending@, request_id@),
{
    find_request(&state.pending, request_id) < state.pending.len()
}

/// Approves a request: that of a device where there is one, and else that of a node where one was
/// approved. The devices afterwards, and the answer.
pub fn handle_pair_approve(
    state: DeviceState,
    request_id: &str,
    node: Option<NodePairRequestRecord>,
    now: u64,
) -> (r: Result<(DeviceState, Json), ErrorShape>)
    ensures
        match (asks(state.pending@, request_id@), node) {
            (false, None) => r is Err && r->Err_0@ == invalid("unknown requestId"@),
            (found, _) => {
                &&& r is Ok
                &&& exists|device: PairedDevice|
                    {
                        &&& #[trigger] with_paired(state.paired@, device) == r->Ok_0.0.paired@
                        &&& r->Ok_0.1@ == JsonModel::Object(
                            no_fields()
                                .insert("requestId"@, JsonModel::Text(request_id@))
                                .insert("device"@, redacted(device)),
                        )
                        &&& if found {
                            let at = request_place(state.pending@, request_id@) as int;
                            let request = state.pending@[at];
                            &&& r->Ok_0.0.pending@ == state.pending@.remove(at)
                            &&& is_paired_from(
                                device,
                                request.device_id@,
                                opt_text(request.display_name),
                                opt_text(request.role),
                                texts(request.scopes@),
                                now,
                            )
                        } else {
                            &&& r->Ok_0.0.pending@ == state.pending@
                            &&& is_paired_from(
                                device,
                                node->0.node_id@,
                                Some(node->0.display_name@),
                                Some("node"@),
                                Seq::empty(),
                                now,
                            )
                        }
                    }
            },
        },
{
    let mut pending = state.pending;
    let mut paired = state.paired;
    let at: usize = find_request(&pending, request_id);
    let device = if at < pending.len() {
        let request = pending.remove(at);
        let approved = copy_texts(&request.scopes);
        PairedDevice {
            device_id: request.device_id,
            display_name: request.display_name,
            role: request.role,
            scopes: request.scopes,
            approved_scopes: approved,
            paired_at_ms: now,
            tokens: SortedMap::new(),
        }
    } else {
        match node {
            Some(node) => {
                let none: Vec<String> = Vec::new();
                let none_too: Vec<String> = Vec::new();
                assert(texts(none@) =~= Seq::<Seq<char>>::empty());
                assert(texts(none_too@) =~= Seq::<Seq<char>>::empty());
                PairedDevice {
                    device_id: node.node_id,
                    display_name: Some(node.display_name),
                    role: Some("node".to_owned()),
                    scopes: none,
                    approved_scopes: none_too,
                    paired_at_ms: now,
                    tokens: SortedMap::new(),
                }
            },
            None => {
                return Err(invalid_request("unknown requestId"));
            },
        }
    };
    let shown = redact_paired_device(&device);
    let ghost new = device;
    insert_or_replace_paired(&mut paired, device);
    assert(with_paired(state.paired@, new) == paired@);
    let mut o = object();
    set_field(&mut o, "requestId", text(request_id));
    set_field(&mut o, "device", shown);
    Ok((DeviceState { pending, paired }, Json::Object(o)))
}

/// Rejects a request: that of a device where there is one, and else that of a node where one was
/// rejected. The devices afterwards, and the answer.
pub fn handle_pair_reject(
    state: DeviceState,
    request_id: &str,
    node: Option<NodePairRequestRecord>,
) -> (r: Result<(DeviceState, Json), ErrorShape>)
    ensures
        match (asks(state.pending@, request_id@), node) {
            (false, None) => r is Err && r->Err_0@ == invalid("unknown requestId"@),
            (found, _) => {
                let at = request_place(state.pending@, request_id@) as int;
                let device_id = if found {
                    state.pending@[at].device_id@
                } else {
                    node->0.node_id@
                };
                &&& r is Ok
                &&& r->Ok_0.0.paired@ == state.paired@
                &&& r->Ok_0.0.pending@ == (if found {
                    state.pending@.remove(at)
                } else {
                    state.pending@
                })
                &&& r->Ok_0.1@ == JsonModel::Object(
                    no_fields()
                        .insert("ok"@, JsonModel::Bool(true))
                        .insert("requestId"@, JsonModel::Text(request_id@))
                        .insert("deviceId"@, JsonModel::Text(device_id))
                        .insert("status"@, JsonModel::Text("rejected"@)),
                )
            },
        },
{
    let mut pending = state.pending;
    let at: usize = find_request(&pending, request_id);
    let device_id = if at < pending.len() {
        pending.remove(at).device_id
    } else {
        match node {
            Some(node) => node.node_id,
            None => {
                return Err(invalid_request("unknown requestId"));
            },
        }
    };
    let mut o = object();
    set_field(&mut o, "ok", Json::Bool(true));
    set_field(&mut o, "requestId", text(request_id));
    set_field(&mut o, "deviceId", text(device_id.as_str()));
    set_field(&mut o, "status", text("rejected"));
    Ok((DeviceState { pending, paired: state.paired }, Json::Object(o)))
}

/// The devices that do not have the id.
pub open spec fn without_device(paired: Seq<PairedDevice>, id: Seq<char>) -> Seq<PairedDevice>
    decreases paired.len(),
{
    if paired.len() == 0 {
        paired
    } else if paired[0].device_id@ == id {
        without_device(paired.skip(1), id)
    } else {
        seq![paired[0]] + without_device(paired.skip(1), id)
    }
}

/// Removes the devices of the id. The devices afterwards, and the answer.
pub fn handle_pair_remove(state: DeviceState, device_id: &str, now: u64) -> (r: Result<
    (DeviceState, Json),
    ErrorShape,
>)
    ensures
        match kept(device_id@) {
            None => r is Err && r->Err_0@ == field_missing(
                "device.pair.remove"@,
                "deviceId"@,
            ),
            Some(id) => if is_paired(state.paired@, id) {
                &&& r is Ok
                &&& r->Ok_0.0.pending@ == state.pending@
                &&& r->Ok_0.0.paired@ == without_device(state.paired@, id)
                &&& r->Ok_0.1@ == JsonModel::Object(
                    no_fields()
                        .insert("ok"@, JsonModel::Bool(true))
                        .insert("deviceId"@, JsonModel::Text(id))
                        .insert("removedAtMs"@, JsonModel::Unsigned(now)),
                )
            } else {
                r is Err && r->Err_0@ == invalid("unknown deviceId"@)
            },
        },
{
    let id = required_text("device.pair.remove", "deviceId", device_id)?;
    let mut paired = state.paired;
    if find_device(&paired, id.as_str()) == paired.len() {
        return Err(invalid_request("unknown deviceId"));
    }
    let ghost all = paired@;
    let mut i: usize = 0;
    assert(all.skip(0) =~= all);
    assert(without_device(all, id@) =~= all.take(0) + without_device(all, id@));
    while i < paired.len()
        invariant
            i <= paired@.len(),
            without_device(all, id@) == paired@.take(i as int) + without_device(
                paired@.skip(i as int),
                id@,
            ),
        decreases paired@.len() - i,
    {
        let ghost before = paired@;
        let ghost rest = before.skip(i as int);
        assert(rest[0] == before[i as int]);
        if same(paired[i].device_id.as_str(), id.as_str()) {
            let _ = paired.remove(i);
            assert(paired@.take(i as int) =~= before.take(i as int));
            assert(paired@.skip(i as int) =~= rest.skip(1));
        } else {
            assert(before.skip(i + 1) =~= rest.skip(1));
            assert(before.take(i + 1) =~= before.take(i as int) + seq![rest[0]]);
            i = i + 1;
        }
    }
    assert(paired@.skip(i as int) =~= Seq::<PairedDevice>::empty());
    assert(paired@.take(i as int) =~= paired@);
    let mut o = object();
    set_field(&mut o, "ok", Json::Bool(true));
    set_field(&mut o, "deviceId", text(id.as_str()));
    set_field(&mut o, "removedAtMs", Json::Unsigned(now));
    Ok((DeviceState { pending: state.pending, paired }, Json::Object(o)))
}

// ---------------------------------------------------------------------------------------------
// Tokens
// ---------------------------------------------------------------------------------------------
/// Which token is made anew, and for what.
pub struct DeviceTokenRotateParams {
    pub device_id: String,
    pub role: String,
    pub scopes: Option<Vec<String>>,
}

/// Why no token can be looked up.
pub open spec fn token_refusal(
    method: Seq<char>,
    device_id: Seq<char>,
    role: Seq<char>,
) -> Option<ErrorModel> {
    if kept(device_id) is None {
        Some(field_missing(method, "deviceId"@))
    } else if kept(role) is None {
        Some(field_missing(method, "role"@))
    } else {
        None
    }
}

/// A token that was made anew. Its scopes are those that are asked for, or those of the device.
pub open spec fn is_rotated(
    token: DeviceAuthToken,
    role: Seq<char>,
    id: Seq<char>,
    scopes: Seq<Seq<char>>,
    now: u64,
) -> bool {
    &&& token.role@ == role
    &&& token.token@ == "dtk_"@ + id
    &&& is_sorted_set(texts(token.scopes@), scopes)
    &&& token.created_at_ms == now
    &&& token.rotated_at_ms == Some(now)
    &&& token.revoked_at_ms is None
}

/// Makes a token of a device anew, in place of another of its role. The devices afterwards, and
/// the answer, which alone shows the token.
pub fn handle_token_rotate(
    state: DeviceState,
    params: &DeviceTokenRotateParams,
    token_id: &str,
    now: u64,
) -> (r: Result<(DeviceState, Json), ErrorShape>)
    ensures
        match token_refusal("device.token.rotate"@, params.device_id@, params.role@) {
            Some(error) => r is Err && r->Err_0@ == error,
            None => {
                let id = kept(params.device_id@)->0;
                let role = kept(params.role@)->0;
                let at = device_place(state.paired@, id) as int;
                if !is_paired(state.paired@, id) {
                    r is Err && r->Err_0@ == invalid("unknown deviceId/role"@)
                } else {
                    let old = state.paired@[at];
                    let new = r->Ok_0.0.paired@[at];
                    let token = new.tokens@[role];
                    &&& r is Ok
                    &&& r->Ok_0.0.pending@ == state.pending@
                    &&& r->Ok_0.0.paired@ == state.paired@.update(at, new)
                    &&& new == (PairedDevice { tokens: new.tokens, ..old })
                    &&& new.tokens@ == old.tokens@.insert(role, token)
                    &&& is_rotated(
                        token,
                        role,
                        token_id@,
                        match params.scopes {
                            Some(scopes) => texts(scopes@),
                            None => texts(old.scopes@),
                        },
                        now,
                    )
                    &&& r->Ok_0.1@ == JsonModel::Object(
                        no_fields()
                            .insert("deviceId"@, JsonModel::Text(id))
                            .insert("role"@, JsonModel::Text(role))
                            .insert("token"@, JsonModel::Text("dtk_"@ + token_id@))
                            .insert("scopes"@, text_array(texts(token.scopes@)))
                            .insert("rotatedAtMs"@, JsonModel::Unsigned(now)),
                    )
                }
            },
        },
{
    let id = required_text("device.token.rotate", "deviceId", params.device_id.as_str())?;
    let role = required_text("device.token.rotate", "role", params.role.as_str())?;
    let mut paired = state.paired;
    let ghost before = paired@;
    let at: usize = find_device(&paired, id.as_str());
    if at == paired.len() {
        return Err(invalid_request("unknown deviceId/role"));
    }
    let device = paired.remove(at);
    let scopes = match &params.scopes {
        Some(scopes) => sorted_set(scopes),
        None => sorted_set(&device.scopes),
    };
    let token = cat("dtk_", token_id);
    let mut o = object();
    set_field(&mut o, "deviceId", text(id.as_str()));
    set_field(&mut o, "role", text(role.as_str()));
    set_field(&mut o, "token", text(token.as_str()));
    set_field(&mut o, "scopes", texts_json(&scopes));
    set_field(&mut o, "rotatedAtMs", Json::Unsigned(now));
    let entry = DeviceAuthToken {
        role: role.clone(),
        token,
        scopes,
        created_at_ms: now,
        rotated_at_ms: Some(now),
        revoked_at_ms: None,
    };
    let mut tokens = device.tokens;
    tokens.insert(role, entry);
    let changed = PairedDevice {
        device_id: device.device_id,
        display_name: device.display_name,
        role: device.role,
        scopes: device.scopes,
        approved_scopes: device.approved_scopes,
        paired_at_ms: device.paired_at_ms,
        tokens,
    };
    paired.insert(at, changed);
    assert(paired@ =~= before.update(at as int, paired@[at as int]));
    Ok((DeviceState { pending: state.pending, paired }, Json::Object(o)))
}

/// Revokes a token of a device. The devices afterwards, and the answer.
pub fn handle_token_revoke(state: DeviceState, device_id: &str, role: &str, now: u64) -> (r: Result<
    (DeviceState, Json),
    ErrorShape,
>)
    ensures
        match token_refusal("device.token.revoke"@, device_id@, role@) {
            Some(error) => r is Err && r->Err_0@ == error,
            None => {
                let id = kept(device_id@)->0;
                let role = kept(role@)->0;
                let at = device_place(state.paired@, id) as int;
                if !is_paired(state.paired@, id) || !state.paired@[at].tokens@.contains_key(role) {
                    r is Err && r->Err_0@ == invalid("unknown deviceId/role"@)
                } else {
                    let old = state.paired@[at];
                    let new = r->Ok_0.0.paired@[at];
                    &&& r is Ok
                    &&& r->Ok_0.0.pending@ == state.pending@
                    &&& r->Ok_0.0.paired@ == state.paired@.update(at, new)
                    &&& new == (PairedDevice { tokens: new.tokens, ..old })
                    &&& new.tokens@ == old.tokens@.remove(role)
                    &&& r->Ok_0.1@ == JsonModel::Object(
                        no_fields()
                            .insert("deviceId"@, JsonModel::Text(id))
                            .insert("role"@, JsonModel::Text(role))
                            .insert("revokedAtMs"@, JsonModel::Unsigned(now)),
                    )
                }
            },
        },
{
    let id = required_text("device.token.revoke", "deviceId", device_id)?;
    let role = required_text("device.token.revoke", "role", role)?;
    let mut paired = state.paired;
    let ghost before = paired@;
    let at: usize = find_device(&paired, id.as_str());
    if at == paired.len() {
        return Err(invalid_request("unknown deviceId/role"));
    }
    let device = paired.remove(at);
    let mut tokens = device.tokens;
    if tokens.remove(role.as_str()).is_none() {
        return Err(invalid_request("unknown deviceId/role"));
    }
    let changed = PairedDevice {
        device_id: device.device_id,
        display_name: device.display_name,
        role: device.role,
        scopes: device.scopes,
        approved_scopes: device.approved_scopes,
        paired_at_ms: device.paired_at_ms,
        tokens,
    };
    paired.insert(at, changed);
    assert(paired@ =~= before.update(at as int, paired@[at as int]));
    let mut o = object();
    set_field(&mut o, "deviceId", text(id.as_str()));
    set_field(&mut o, "role", text(role.as_str()));
    set_field(&mut o, "revokedAtMs", Json::Unsigned(now));
    Ok((DeviceState { pending: state.pending, paired }, Json::Object(o)))
}

// ---------------------------------------------------------------------------------------------
// Laws
// ---------------------------------------------------------------------------------------------
/// What is shown of a token does not depend on the token, but for whether there is one.
pub proof fn law_tokens_are_not_shown(a: DeviceAuthToken, b: DeviceAuthToken)
    requires
        a == (DeviceAuthToken { token: a.token, ..b }),
        a.token@.len() > 0 <==> b.token@.len() > 0,
    ensures
        token_summary(a) == token_summary(b),
{
}

/// No two paired devices have one id.
pub open spec fn devices_differ(paired: Seq<PairedDevice>) -> bool {
    forall|i: int, j: int|
        #![trigger paired[i], paired[j]]
        0 <= i < j < paired.len() ==> paired[i].device_id@ != paired[j].device_id@
}

/// Pairing a device keeps the ids of the paired devices apart, and the device is paired then.
pub proof fn law_pairing_keeps_devices_apart(paired: Seq<PairedDevice>, device: PairedDevice)
    requires
        devices_differ(paired),
    ensures
        devices_differ(with_paired(paired, device)),
        is_paired(with_paired(paired, device), device.device_id@),
{
    let id = device.device_id@;
    let after = with_paired(paired, device);
    lemma_device_place(paired, id);
    lemma_device_place(after, id);
    let at = device_place(paired, id) as int;
    assert forall|i: int, j: int| #![trigger after[i], after[j]] 0 <= i < j < after.len() implies after[i].device_id@
        != after[j].device_id@ by {
        if is_paired(paired, id) {
            assert(paired[i].device_id@ != paired[j].device_id@);
        } else {
            assert(after[i] == paired[i]);
            if j < paired.len() {
                assert(after[j] == paired[j]);
            } else {
                assert(paired[i].device_id@ != id);
            }
        }
    }
    let there = if is_paired(paired, id) {
        at
    } else {
        paired.len() as int
    };
    assert(after[there].device_id@ == id);
    if !is_paired(after, id) {
        assert(after[there].device_id@ != id);
    }
}

/// A removed device is not paired any more.
pub proof fn law_removed_devices_are_gone(paired: Seq<PairedDevice>, id: Seq<char>)
    ensures
        !is_paired(without_device(paired, id), id),
    decreases paired.len(),
{
    if paired.len() > 0 {
        law_removed_devices_are_gone(paired.skip(1), id);
        if paired[0].device_id@ != id {
            let rest = without_device(paired.skip(1), id);
            let all = seq![paired[0]] + rest;
            assert(all[0] == paired[0]);
            assert(all.skip(1) =~= rest);
        }
    }
}

/// Each member of the JSON of a request of a device is what the record holds under that name.
pub proof fn law_json_of_device_requests(record: &DevicePairRequest, r: Json)
    requires
        call_ensures(DevicePairRequest::to_json, (record,), r),
    ensures
        member(r@, "requestId"@) == Some(JsonModel::Text(record.request_id@)),
        member(r@, "deviceId"@) == Some(JsonModel::Text(record.device_id@)),
        member(r@, "displayName"@) == Some(
            if record.display_name is Some {
                JsonModel::Text(record.display_name->0@)
            } else {
                JsonModel::Null
            },
        ),
        member(r@, "role"@) == Some(
            if record.role is Some {
                JsonModel::Text(record.role->0@)
            } else {
                JsonModel::Null
            },
        ),
        member(r@, "scopes"@) == Some(text_array(texts(record.scopes@))),
        member(r@, "createdAtMs"@) == Some(JsonModel::Unsigned(record.created_at_ms)),
{
    reveal_strlit("requestId");
    reveal_strlit("deviceId");
    reveal_strlit("displayName");
    reveal_strlit("role");
    reveal_strlit("scopes");
    reveal_strlit("createdAtMs");
    assert("requestId"@.len() != "deviceId"@.len());
    assert("requestId"@.len() != "displayName"@.len());
    assert("requestId"@.len() != "role"@.len());
    assert("requestId"@.len() != "scopes"@.len());
    assert("requestId"@.len() != "createdAtMs"@.len());
    assert("deviceId"@.len() != "displayName"@.len());
    assert("deviceId"@.len() != "role"@.len());
    assert("deviceId"@.len() != "scopes"@.len());
    assert("deviceId"@.len() != "createdAtMs"@.len());
    assert("displayName"@.len() != "role"@.len());
    assert("displayName"@.len() != "scopes"@.len());
    assert("displayName"@[0] != "createdAtMs"@[0]);
    assert("role"@.len() != "scopes"@.len());
    assert("role"@.len() != "createdAtMs"@.len());
    assert("scopes"@.len() != "createdAtMs"@.len());
}

/// Each member of the JSON of a token is what the record holds under that name.
pub proof fn law_json_of_tokens(record: &DeviceAuthToken, r: Json)
    requires
        call_ensures(DeviceAuthToken::to_json, (record,), r),
    ensures
        member(r@, "role"@) == Some(JsonModel::Text(record.role@)),
        member(r@, "token"@) == Some(JsonModel::Text(record.token@)),
        member(r@, "scopes"@) == Some(text_array(texts(record.scopes@))),
        member(r@, "createdAtMs"@) == Some(JsonModel::Unsigned(record.created_at_ms)),
        member(r@, "rotatedAtMs"@) == Some(
            if record.rotated_at_ms is Some {
                JsonModel::Unsigned(record.rotated_at_ms->0)
            } else {
                JsonModel::Null
            },
        ),
        member(r@, "revokedAtMs"@) == Some(
            if record.revoked_at_ms is Some {
                JsonModel::Unsigned(record.revoked_at_ms->0)
            } else {
                JsonModel::Null
            },
        ),
{
    reveal_strlit("role");
    reveal_strlit("token");
    reveal_strlit("scopes");
    reveal_strlit("createdAtMs");
    reveal_strlit("rotatedAtMs");
    reveal_strlit("revokedAtMs");
    assert("role"@.len() != "token"@.len());
    assert("role"@.len() != "scopes"@.len());
    assert("role"@.len() != "createdAtMs"@.len());
    assert("role"@.len() != "rotatedAtMs"@.len());
    assert("role"@.len() != "revokedAtMs"@.len());
    assert("token"@.len() != "scopes"@.len());
    assert("token"@.len() != "createdAtMs"@.len());
    assert("token"@.len() != "rotatedAtMs"@.len());
    assert("token"@.len() != "revokedAtMs"@.len());
    assert("scopes"@.len() != "createdAtMs"@.len());
    assert("scopes"@.len() != "rotatedAtMs"@.len());
    assert("scopes"@.len() != "revokedAtMs"@.len());
    assert("createdAtMs"@[0] != "rotatedAtMs"@[0]);
    assert("createdAtMs"@[0] != "revokedAtMs"@[0]);
    assert("rotatedAtMs"@[1] != "revokedAtMs"@[1]);
}

/// A device is found at the first place where its id stands, and behind the end where it does not.
pub proof fn law_devices_are_found(paired: &Vec<PairedDevice>, id: &str, i: int, r: usize)
    requires
        call_ensures(find_device, (paired, id), r),
    ensures
        0 <= i < paired@.len() && paired@[i].device_id@ == id@ ==> r <= i && paired@[r as int].device_id@
            == id@,
        r < paired@.len() ==> paired@[r as int].device_id@ == id@,
{
    if 0 <= i < paired@.len() && paired@[i].device_id@ == id@ {
        lemma_device_is_first(paired@, id@, i);
    }
}

proof fn lemma_device_is_first(paired: Seq<PairedDevice>, id: Seq<char>, i: int)
    requires
        0 <= i < paired.len(),
        paired[i].device_id@ == id,
    ensures
        device_place(paired, id) <= i,
        paired[device_place(paired, id) as int].device_id@ == id,
    decreases paired.len(),
{
    if paired[0].device_id@ != id {
        assert(paired.skip(1)[i - 1] == paired[i]);
        lemma_device_is_first(paired.skip(1), id, i - 1);
        assert(paired.skip(1)[device_place(paired.skip(1), id) as int] == paired[device_place(
            paired,
            id,
        ) as int]);
    }
}

proof fn lemma_request_is_first(pending: Seq<DevicePairRequest>, id: Seq<char>, i: int)
    requires
        0 <= i < pending.len(),
        pending[i].request_id@ == id,
        forall|k: int| 0 <= k < i ==> (#[trigger] pending[k]).request_id@ != id,
    ensures
        request_place(pending, id) == i,
    decreases pending.len(),
{
    if i > 0 {
        assert(pending[0].request_id@ != id);
        assert(pending.skip(1)[i - 1] == pending[i]);
        assert forall|k: int| 0 <= k < i - 1 implies (#[trigger] pending.skip(1)[k]).request_id@ != id by {
            assert(pending.skip(1)[k] == pending[k + 1]);
        }
        lemma_request_is_first(pending.skip(1), id, i - 1);
    }
}

/// Approving a request that waits takes it from those that wait and pairs its device: with its name,
/// its role and the scopes that it asked for, and without tokens. Every other device stays as it
/// is.
pub proof fn law_approving(
    state: DeviceState,
    request_id: &str,
    node: Option<NodePairRequestRecord>,
    now: u64,
    i: int,
    k: int,
    r: Result<(DeviceState, Json), ErrorShape>,
)
    requires
        call_ensures(handle_pair_approve, (state, request_id, node, now), r),
        0 <= i < state.pending@.len(),
        state.pending@[i].request_id@ == request_id@,
        forall|j: int| 0 <= j < i ==> (#[trigger] state.pending@[j]).request_id@ != request_id@,
    ensures
        r is Ok,
        ({
            let request = state.pending@[i];
            let after = r->Ok_0.0;
            &&& after.pending@ == state.pending@.take(i) + state.pending@.skip(i + 1)
            &&& exists|p: int|
                0 <= p < after.paired@.len() && (#[trigger] after.paired@[p]).device_id@
                    == request.device_id@ && opt_text(after.paired@[p].role) == opt_text(request.role)
                    && opt_text(after.paired@[p].display_name) == opt_text(request.display_name)
                    && texts(after.paired@[p].scopes@) == texts(request.scopes@) && texts(
                    after.paired@[p].approved_scopes@,
                ) == texts(request.scopes@) && after.paired@[p].paired_at_ms == now
                    && after.paired@[p].tokens@ == Map::<Seq<char>, DeviceAuthToken>::empty()
            &&& 0 <= k < state.paired@.len() && state.paired@[k].device_id@ != request.device_id@
                ==> after.paired@[k] == state.paired@[k]
            &&& member(r->Ok_0.1@, "requestId"@) == Some(JsonModel::Text(request_id@))
        }),
{
    lemma_request_is_first(state.pending@, request_id@, i);
    let request = state.pending@[i];
    let after = r->Ok_0.0;
    let device = choose|device: PairedDevice|
        {
            &&& #[trigger] with_paired(state.paired@, device) == after.paired@
            &&& r->Ok_0.1@ == JsonModel::Object(
                no_fields()
                    .insert("requestId"@, JsonModel::Text(request_id@))
                    .insert("device"@, redacted(device)),
            )
            &&& after.pending@ == state.pending@.remove(i)
            &&& is_paired_from(
                device,
                request.device_id@,
                opt_text(request.display_name),
                opt_text(request.role),
                texts(request.scopes@),
                now,
            )
        };
    assert(state.pending@.remove(i) =~= state.pending@.take(i) + state.pending@.skip(i + 1));
    let at = device_place(state.paired@, request.device_id@) as int;
    if is_paired(state.paired@, request.device_id@) {
        assert(after.paired@[at] == device);
        lemma_place_has_device(state.paired@, request.device_id@);
    } else {
        assert(after.paired@[state.paired@.len() as int] == device);
    }
    reveal_strlit("requestId");
    reveal_strlit("device");
    assert("requestId"@.len() != "device"@.len());
}

proof fn lemma_place_has_device(paired: Seq<PairedDevice>, id: Seq<char>)
    requires
        is_paired(paired, id),
    ensures
        paired[device_place(paired, id) as int].device_id@ == id,
    decreases paired.len(),
{
    if paired[0].device_id@ != id {
        lemma_place_has_device(paired.skip(1), id);
        assert(paired.skip(1)[device_place(paired.skip(1), id) as int] == paired[device_place(
            paired,
            id,
        ) as int]);
    }
}

/// Rejecting a request that waits takes it from those that wait and pairs nobody.
pub proof fn law_rejecting(
    state: DeviceState,
    request_id: &str,
    node: Option<NodePairRequestRecord>,
    i: int,
    r: Result<(DeviceState, Json), ErrorShape>,
)
    requires
        call_ensures(handle_pair_reject, (state, request_id, node), r),
        0 <= i < state.pending@.len(),
        state.pending@[i].request_id@ == request_id@,
        forall|j: int| 0 <= j < i ==> (#[trigger] state.pending@[j]).request_id@ != request_id@,
    ensures
        r is Ok,
        r->Ok_0.0.paired@ == state.paired@,
        r->Ok_0.0.pending@ == state.pending@.take(i) + state.pending@.skip(i + 1),
        member(r->Ok_0.1@, "deviceId"@) == Some(JsonModel::Text(state.pending@[i].device_id@)),
        member(r->Ok_0.1@, "status"@) == Some(JsonModel::Text("rejected"@)),
{
    lemma_request_is_first(state.pending@, request_id@, i);
    assert(state.pending@.remove(i) =~= state.pending@.take(i) + state.pending@.skip(i + 1));
    reveal_strlit("ok");
    reveal_strlit("requestId");
    reveal_strlit("deviceId");
    reveal_strlit("status");
    assert("ok"@.len() != "requestId"@.len());
    assert("ok"@.len() != "deviceId"@.len());
    assert("ok"@.len() != "status"@.len());
    assert("requestId"@.len() != "deviceId"@.len());
    assert("requestId"@.len() != "status"@.len());
    assert("deviceId"@.len() != "status"@.len());
}

/// A request that is not there can neither be approved nor rejected.
pub proof fn law_unknown_requests(
    state: DeviceState,
    request_id: &str,
    now: u64,
    approved: Result<(DeviceState, Json), ErrorShape>,
    rejected: Result<(DeviceState, Json), ErrorShape>,
)
    requires
        call_ensures(handle_pair_approve, (state, request_id, None, now), approved),
        call_ensures(handle_pair_reject, (state, request_id, None), rejected),
        forall|j: int| 0 <= j < state.pending@.len() ==> (#[trigger] state.pending@[j]).request_id@ != request_id@,
    ensures
        approved is Err && approved->Err_0.code@ == "INVALID_REQUEST"@,
        rejected is Err && rejected->Err_0.code@ == "INVALID_REQUEST"@,
{
    lemma_no_request(state.pending@, request_id@);
}

proof fn lemma_no_request(pending: Seq<DevicePairRequest>, id: Seq<char>)
    requires
        forall|j: int| 0 <= j < pending.len() ==> (#[trigger] pending[j]).request_id@ != id,
    ensures
        !asks(pending, id),
    decreases pending.len(),
{
    if pending.len() > 0 {
        assert(pending[0].request_id@ != id);
        assert forall|j: int| 0 <= j < pending.skip(1).len() implies (#[trigger] pending.skip(1)[j]).request_id@ != id by {
            assert(pending.skip(1)[j] == pending[j + 1]);
        }
        lemma_no_request(pending.skip(1), id);
    }
}

/// A removed device is gone, every other one stays, and one that is not paired cannot be removed.
pub proof fn law_removing(
    state: DeviceState,
    device_id: &str,
    now: u64,
    i: int,
    r: Result<(DeviceState, Json), ErrorShape>,
)
    requires
        call_ensures(handle_pair_remove, (state, device_id, now), r),
        0 <= i < state.paired@.len(),
    ensures
        not_blank(device_id@) && state.paired@[i].device_id@ == trimmed(device_id@) ==> r is Ok,
        r is Ok && state.paired@[i].device_id@ != trimmed(device_id@) ==> r->Ok_0.0.paired@.contains(
            state.paired@[i],
        ),
        r is Ok ==> not_blank(device_id@) && r->Ok_0.0.pending@ == state.pending@,
        r is Ok ==> forall|k: int|
            0 <= k < r->Ok_0.0.paired@.len() ==> (#[trigger] r->Ok_0.0.paired@[k]).device_id@ != trimmed(
                device_id@,
            ),
        r is Ok ==> member(r->Ok_0.1@, "deviceId"@) == Some(JsonModel::Text(trimmed(device_id@))),
{
    lemma_kept(device_id@);
    let id = trimmed(device_id@);
    if state.paired@[i].device_id@ == id {
        lemma_device_is_first(state.paired@, id, i);
    } else {
        lemma_others_stay(state.paired@, id, i);
    }
    lemma_removed_are_gone(state.paired@, id);
    reveal_strlit("ok");
    reveal_strlit("deviceId");
    reveal_strlit("removedAtMs");
    assert("ok"@.len() != "deviceId"@.len());
    assert("ok"@.len() != "removedAtMs"@.len());
    assert("deviceId"@.len() != "removedAtMs"@.len());
}

proof fn lemma_others_stay(paired: Seq<PairedDevice>, id: Seq<char>, i: int)
    requires
        0 <= i < paired.len(),
        paired[i].device_id@ != id,
    ensures
        without_device(paired, id).contains(paired[i]),
    decreases paired.len(),
{
    let rest = paired.skip(1);
    if i == 0 {
        assert(without_device(paired, id)[0] == paired[0]);
    } else {
        assert(rest[i - 1] == paired[i]);
        lemma_others_stay(rest, id, i - 1);
        let k = choose|k: int| 0 <= k < without_device(rest, id).len() && without_device(rest, id)[k] == paired[i];
        if paired[0].device_id@ == id {
            assert(without_device(paired, id)[k] == paired[i]);
        } else {
            assert(without_device(paired, id)[k + 1] == paired[i]);
        }
    }
}

proof fn lemma_removed_are_gone(paired: Seq<PairedDevice>, id: Seq<char>)
    ensures
        forall|k: int|
            0 <= k < without_device(paired, id).len() ==> (#[trigger] without_device(paired, id)[k]).device_id@ != id,
    decreases paired.len(),
{
    if paired.len() > 0 {
        lemma_removed_are_gone(paired.skip(1), id);
    }
}

/// A new token of a device takes the place of the one of its role. It has the scopes that are asked
/// for, or else the device's, each once and in order. Nothing else changes.
pub proof fn law_new_tokens(
    state: DeviceState,
    params: &DeviceTokenRotateParams,
    token_id: &str,
    now: u64,
    i: int,
    role: Seq<char>,
    tidy: Vec<String>,
    r: Result<(DeviceState, Json), ErrorShape>,
)
    requires
        call_ensures(handle_token_rotate, (state, params, token_id, now), r),
        0 <= i < state.paired@.len(),
        devices_differ(state.paired@),
        params.scopes is Some ==> call_ensures(sorted_set, (&params.scopes->0,), tidy),
        params.scopes is None ==> call_ensures(sorted_set, (&state.paired@[i].scopes,), tidy),
    ensures
        r is Ok ==> not_blank(params.device_id@) && not_blank(params.role@) && r->Ok_0.0.pending@
            == state.pending@ && r->Ok_0.0.paired@.len() == state.paired@.len(),
        r is Ok && state.paired@[i].device_id@ != trimmed(params.device_id@) ==> r->Ok_0.0.paired@[i]
            == state.paired@[i],
        not_blank(params.device_id@) && not_blank(params.role@) && state.paired@[i].device_id@ == trimmed(
            params.device_id@,
        ) ==> {
            let old = state.paired@[i];
            let new = r->Ok_0.0.paired@[i];
            let token = new.tokens@[trimmed(params.role@)];
            &&& r is Ok
            &&& new.device_id == old.device_id && new.role == old.role && new.scopes == old.scopes
                && new.approved_scopes == old.approved_scopes && new.paired_at_ms == old.paired_at_ms
            &&& role != trimmed(params.role@) ==> (new.tokens@.contains_key(role)
                <==> old.tokens@.contains_key(role)) && new.tokens@[role] == old.tokens@[role]
            &&& new.tokens@.contains_key(trimmed(params.role@))
            &&& token.role@ == trimmed(params.role@)
            &&& token.token@ == "dtk_"@ + token_id@
            &&& token.revoked_at_ms is None && token.rotated_at_ms == Some(now)
            &&& texts(token.scopes@) == texts(tidy@)
            &&& member(r->Ok_0.1@, "token"@) == Some(JsonModel::Text("dtk_"@ + token_id@))
        },
{
    lemma_kept(params.device_id@);
    lemma_kept(params.role@);
    let id = trimmed(params.device_id@);
    lemma_one_place(state.paired@, id, i);
    let wanted = match params.scopes {
        Some(scopes) => texts(scopes@),
        None => texts(state.paired@[i].scopes@),
    };
    assert forall|a: Seq<Seq<char>>| #[trigger] is_sorted_set(a, wanted) implies a == texts(tidy@) by {
        lemma_sorted_of(a, wanted);
        lemma_sorted_of(texts(tidy@), wanted);
    }
    reveal_strlit("deviceId");
    reveal_strlit("role");
    reveal_strlit("token");
    reveal_strlit("scopes");
    reveal_strlit("rotatedAtMs");
    assert("deviceId"@.len() != "role"@.len());
    assert("deviceId"@.len() != "token"@.len());
    assert("deviceId"@.len() != "scopes"@.len());
    assert("deviceId"@.len() != "rotatedAtMs"@.len());
    assert("role"@.len() != "token"@.len());
    assert("role"@.len() != "scopes"@.len());
    assert("role"@.len() != "rotatedAtMs"@.len());
    assert("token"@.len() != "scopes"@.len());
    assert("token"@.len() != "rotatedAtMs"@.len());
    assert("scopes"@.len() != "rotatedAtMs"@.len());
}

/// Where devices differ one has only one place.
proof fn lemma_one_place(paired: Seq<PairedDevice>, id: Seq<char>, i: int)
    requires
        devices_differ(paired),
        0 <= i < paired.len(),
    ensures
        paired[i].device_id@ == id ==> device_place(paired, id) == i,
        paired[i].device_id@ != id && is_paired(paired, id) ==> device_place(paired, id) != i,
{
    if paired[i].device_id@ == id {
        lemma_device_is_first(paired, id, i);
        let p = device_place(paired, id) as int;
        if p < i {
            assert(paired[p].device_id@ != paired[i].device_id@);
        }
    } else if is_paired(paired, id) {
        lemma_place_has_device(paired, id);
    }
}

/// A revoked token is gone from its device, and nothing else changes. One that is not there cannot be
/// revoked.
pub proof fn law_revoking(
    state: DeviceState,
    device_id: &str,
    role: &str,
    now: u64,
    i: int,
    other: Seq<char>,
    r: Result<(DeviceState, Json), ErrorShape>,
)
    requires
        call_ensures(handle_token_revoke, (state, device_id, role, now), r),
        0 <= i < state.paired@.len(),
        devices_differ(state.paired@),
    ensures
        r is Ok && state.paired@[i].device_id@ != trimmed(device_id@) ==> r->Ok_0.0.paired@[i]
            == state.paired@[i],
        not_blank(device_id@) && not_blank(role@) && state.paired@[i].device_id@ == trimmed(device_id@)
            ==> {
            let old = state.paired@[i];
            let new = r->Ok_0.0.paired@[i];
            &&& r is Ok <==> old.tokens@.contains_key(trimmed(role@))
            &&& r is Ok ==> !new.tokens@.contains_key(trimmed(role@)) && new.device_id == old.device_id
                && new.scopes == old.scopes
            &&& r is Ok && other != trimmed(role@) ==> (new.tokens@.contains_key(other)
                <==> old.tokens@.contains_key(other)) && new.tokens@[other] == old.tokens@[other]
        },
{
    lemma_kept(device_id@);
    lemma_kept(role@);
    lemma_one_place(state.paired@, trimmed(device_id@), i);
}

/// A device is shown with everything but its tokens: of a token its role, its scopes and its times are
/// shown, and whether there is one.
pub proof fn law_devices_are_shown(device: &PairedDevice, i: int, r: Json)
    requires
        call_ensures(redact_paired_device, (device,), r),
    ensures
        member(r@, "deviceId"@) == Some(JsonModel::Text(device.device_id@)),
        member(r@, "scopes"@) == Some(text_array(texts(device.scopes@))),
        member(r@, "approvedScopes"@) == Some(text_array(texts(device.approved_scopes@))),
        member(r@, "pairedAtMs"@) == Some(JsonModel::Unsigned(device.paired_at_ms)),
        ({
            let shown = member(r@, "tokens"@)->0->Array_0;
            let kept_tokens = device.tokens.entries();
            &&& member(r@, "tokens"@) is Some && member(r@, "tokens"@)->0 is Array
            &&& shown.len() == kept_tokens.len()
            &&& 0 <= i < shown.len() ==> {
                &&& member(shown[i], "token"@) is None
                &&& member(shown[i], "role"@) == Some(JsonModel::Text(kept_tokens[i].1.role@))
                &&& member(shown[i], "scopes"@) == Some(text_array(texts(kept_tokens[i].1.scopes@)))
                &&& member(shown[i], "tokenPresent"@) == Some(
                    JsonModel::Bool(kept_tokens[i].1.token@.len() > 0),
                )
            }
        }),
{
    reveal_strlit("deviceId");
    reveal_strlit("displayName");
    reveal_strlit("role");
    reveal_strlit("scopes");
    reveal_strlit("approvedScopes");
    reveal_strlit("pairedAtMs");
    reveal_strlit("tokens");
    reveal_strlit("token");
    reveal_strlit("createdAtMs");
    reveal_strlit("rotatedAtMs");
    reveal_strlit("revokedAtMs");
    reveal_strlit("tokenPresent");
    assert("deviceId"@.len() != "displayName"@.len());
    assert("deviceId"@.len() != "role"@.len());
    assert("deviceId"@.len() != "scopes"@.len());
    assert("deviceId"@.len() != "approvedScopes"@.len());
    assert("deviceId"@.len() != "pairedAtMs"@.len());
    assert("deviceId"@.len() != "tokens"@.len());
    assert("deviceId"@.len() != "token"@.len());
    assert("deviceId"@.len() != "createdAtMs"@.len());
    assert("deviceId"@.len() != "rotatedAtMs"@.len());
    assert("deviceId"@.len() != "revokedAtMs"@.len());
    assert("deviceId"@.len() != "tokenPresent"@.len());
    assert("displayName"@.len() != "role"@.len());
    assert("displayName"@.len() != "scopes"@.len());
    assert("displayName"@.len() != "approvedScopes"@.len());
    assert("displayName"@.len() != "pairedAtMs"@.len());
    assert("displayName"@.len() != "tokens"@.len());
    assert("displayName"@.len() != "token"@.len());
    assert("displayName"@[0] != "createdAtMs"@[0]);
    assert("displayName"@[0] != "rotatedAtMs"@[0]);
    assert("displayName"@[0] != "revokedAtMs"@[0]);
    assert("displayName"@.len() != "tokenPresent"@.len());
    assert("role"@.len() != "scopes"@.len());
    assert("role"@.len() != "approvedScopes"@.len());
    assert("role"@.len() != "pairedAtMs"@.len());
    assert("role"@.len() != "tokens"@.len());
    assert("role"@.len() != "token"@.len());
    assert("role"@.len() != "createdAtMs"@.len());
    assert("role"@.len() != "rotatedAtMs"@.len());
    assert("role"@.len() != "revokedAtMs"@.len());
    assert("role"@.len() != "tokenPresent"@.len());
    assert("scopes"@.len() != "approvedScopes"@.len());
    assert("scopes"@.len() != "pairedAtMs"@.len());
    assert("scopes"@[0] != "tokens"@[0]);
    assert("scopes"@.len() != "token"@.len());
    assert("scopes"@.len() != "createdAtMs"@.len());
    assert("scopes"@.len() != "rotatedAtMs"@.len());
    assert("scopes"@.len() != "revokedAtMs"@.len());
    assert("scopes"@.len() != "tokenPresent"@.len());
    assert("approvedScopes"@.len() != "pairedAtMs"@.len());
    assert("approvedScopes"@.len() != "tokens"@.len());
    assert("approvedScopes"@.len() != "token"@.len());
    assert("approvedScopes"@.len() != "createdAtMs"@.len());
    assert("approvedScopes"@.len() != "rotatedAtMs"@.len());
    assert("approvedScopes"@.len() != "revokedAtMs"@.len());
    assert("approvedScopes"@.len() != "tokenPresent"@.len());
    assert("pairedAtMs"@.len() != "tokens"@.len());
    assert("pairedAtMs"@.len() != "token"@.len());
    assert("pairedAtMs"@.len() != "createdAtMs"@.len());
    assert("pairedAtMs"@.len() != "rotatedAtMs"@.len());
    assert("pairedAtMs"@.len() != "revokedAtMs"@.len());
    assert("pairedAtMs"@.len() != "tokenPresent"@.len());
    assert("tokens"@.len() != "token"@.len());
    assert("tokens"@.len() != "createdAtMs"@.len());
    assert("tokens"@.len() != "rotatedAtMs"@.len());
    assert("tokens"@.len() != "revokedAtMs"@.len());
    assert("tokens"@.len() != "tokenPresent"@.len());
    assert("token"@.len() != "createdAtMs"@.len());
    assert("token"@.len() != "rotatedAtMs"@.len());
    assert("token"@.len() != "revokedAtMs"@.len());
    assert("token"@.len() != "tokenPresent"@.len());
    assert("createdAtMs"@[0] != "rotatedAtMs"@[0]);
    assert("createdAtMs"@[0] != "revokedAtMs"@[0]);
    assert("createdAtMs"@.len() != "tokenPresent"@.len());
    assert("rotatedAtMs"@[1] != "revokedAtMs"@[1]);
    assert("rotatedAtMs"@.len() != "tokenPresent"@.len());
    assert("revokedAtMs"@.len() != "tokenPresent"@.len());
}

/// What waits to be paired and what is paired is listed: first the devices that wait, in their order,
/// and every device that is paired at its place.
pub proof fn law_devices_are_listed(
    state: &DeviceState,
    nodes: &Vec<NodePairRequestRecord>,
    i: int,
    j: int,
    request: Json,
    device: Json,
    r: Json,
)
    requires
        call_ensures(handle_pair_list, (state, nodes), r),
        0 <= i < state.pending@.len(),
        0 <= j < state.paired@.len(),
        call_ensures(DevicePairRequest::to_json, (&state.pending@[i],), request),
        call_ensures(redact_paired_device, (&state.paired@[j],), device),
    ensures
        member(r@, "pending"@) matches Some(JsonModel::Array(items)) && items.len()
            >= state.pending@.len() && items[i] == request@,
        member(r@, "paired"@) matches Some(JsonModel::Array(items)) && items.len() == state.paired@.len()
            && items[j] == device@,
{
    reveal_strlit("pending");
    reveal_strlit("paired");
    assert("pending"@.len() != "paired"@.len());
}

/// The state of the devices is what is stored, and empty where nothing is.
pub proof fn law_stored_devices(stored: Option<Result<DeviceState, String>>, r: Result<DeviceState, ErrorShape>)
    requires
        call_ensures(load_device_state, (stored,), r),
    ensures
        r is Err <==> stored is Some && stored->0 is Err,
        stored is None ==> r->Ok_0.pending@.len() == 0 && r->Ok_0.paired@.len() == 0,
        stored is Some && stored->0 is Ok ==> r->Ok_0 == stored->0->Ok_0,
{
}

} // verus!
