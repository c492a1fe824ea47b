//! JSON values as the gateway reads and builds them.
use crate::lists::{ascending, keys_of, law_sorted_set_is_unique};
use crate::sorted_map::{entries_map, lemma_entries_map, SortedMap};
use crate::text::{opt_text, texts};
use vstd::prelude::*;

verus! {

broadcast use vstd::seq::group_seq_axioms;

/// A JSON value. The members of an object stand in the order of their names.
pub enum Json {
    Null,
    Bool(bool),
    /// A whole number that is not negative.
    Unsigned(u64),
    /// A negative whole number.
    Negative(i64),
    /// Any other number, as it was read.
    Fraction(serde_json::Number),
    Text(String),
    Array(Vec<Json>),
    Object(SortedMap<Json>),
}

/// What a JSON value says.
#[verifier::ext_equal]
pub enum JsonModel {
    Null,
    Bool(bool),
    Unsigned(u64),
    Negative(i64),
    Fraction(serde_json::Number),
    Text(Seq<char>),
    Array(Seq<JsonModel>),
    Object(Map<Seq<char>, JsonModel>),
}

/// What the values of an array say.
pub open spec fn models(items: Seq<Json>) -> Seq<JsonModel>
    decreases items,
{
    Seq::new(
        items.len(),
        |i: int|
            if 0 <= i < items.len() {
                items[i].view()
            } else {
                JsonModel::Null
            },
    )
}

/// What the members of an object say.
pub open spec fn members(entries: Seq<(String, Json)>) -> Map<Seq<char>, JsonModel>
    decreases entries,
{
    if entries.len() == 0 {
        Map::empty()
    } else {
        members(entries.drop_last()).insert(entries.last().0@, entries.last().1.view())
    }
}

/// What an object says.
pub open spec fn fields(object: SortedMap<Json>) -> Map<Seq<char>, JsonModel> {
    members(object.entries())
}

/// What an optional value says.
pub open spec fn opt_model(value: Option<Json>) -> Option<JsonModel> {
    match value {
        Some(json) => Some(json@),
        None => None,
    }
}

/// The value of a member, where the value is an object that has it.
pub open spec fn member(value: JsonModel, name: Seq<char>) -> Option<JsonModel> {
    match value {
        JsonModel::Object(m) => if m.contains_key(name) {
            Some(m[name])
        } else {
            None
        },
        _ => None,
    }
}

/// A member of a set of fields.
pub open spec fn field(m: Map<Seq<char>, JsonModel>, name: Seq<char>) -> Option<JsonModel> {
    if m.contains_key(name) {
        Some(m[name])
    } else {
        None
    }
}

/// The text of a value that is a text.
pub open spec fn text_of(value: Option<JsonModel>) -> Option<Seq<char>> {
    match value {
        Some(JsonModel::Text(s)) => Some(s),
        _ => None,
    }
}

/// The truth value of a value that is one.
pub open spec fn bool_of(value: Option<JsonModel>) -> Option<bool> {
    match value {
        Some(JsonModel::Bool(b)) => Some(b),
        _ => None,
    }
}

/// The items of a value that is an array.
pub open spec fn array_of(value: Option<JsonModel>) -> Option<Seq<JsonModel>> {
    match value {
        Some(JsonModel::Array(items)) => Some(items),
        _ => None,
    }
}

/// The JSON of an optional text: the text, or null.
pub open spec fn text_or_null(value: Option<Seq<char>>) -> JsonModel {
    match value {
        Some(s) => JsonModel::Text(s),
        None => JsonModel::Null,
    }
}

/// The JSON of an optional number: the number, or null.
pub open spec fn number_or_null(value: Option<u64>) -> JsonModel {
    match value {
        Some(n) => JsonModel::Unsigned(n),
        None => JsonModel::Null,
    }
}

/// The JSON of an optional truth value: it, or null.
pub open spec fn bool_or_null(value: Option<bool>) -> JsonModel {
    match value {
        Some(b) => JsonModel::Bool(b),
        None => JsonModel::Null,
    }
}

/// The JSON of an optional value: the value, or null.
pub open spec fn value_or_null(value: Option<JsonModel>) -> JsonModel {
    match value {
        Some(v) => v,
        None => JsonModel::Null,
    }
}

/// The array of texts.
pub open spec fn text_array(values: Seq<Seq<char>>) -> JsonModel {
    JsonModel::Array(Seq::new(values.len(), |i: int| JsonModel::Text(values[i])))
}

/// No fields.
pub open spec fn no_fields() -> Map<Seq<char>, JsonModel> {
    Map::empty()
}

impl Json {
    /// What the value says.
    pub open spec fn view(&self) -> JsonModel
        decreases self,
    {
        match self {
            Json::Null => JsonModel::Null,
            Json::Bool(b) => JsonModel::Bool(*b),
            Json::Unsigned(n) => JsonModel::Unsigned(*n),
            Json::Negative(n) => JsonModel::Negative(*n),
            Json::Fraction(n) => JsonModel::Fraction(*n),
            Json::Text(s) => JsonModel::Text(s@),
            Json::Array(items) => JsonModel::Array(models(items@)),
            Json::Object(object) => {
                proof {
                    object.lemma_entries_smaller();
                }
                JsonModel::Object(members(object.entries()))
            },
        }
    }
}

// ---------------------------------------------------------------------------------------------
// The outside crate
// ---------------------------------------------------------------------------------------------
/// A JSON value of `serde_json`.
#[verifier::external_type_specification]
#[verifier::external_body]
pub struct ExValue(serde_json::Value);

/// A number of `serde_json`.
#[verifier::external_type_specification]
#[verifier::external_body]
pub struct ExNumber(serde_json::Number);

/// The value of `serde_json` that says the same.
pub uninterp spec fn value_of(model: JsonModel) -> serde_json::Value;

/// What a value of `serde_json` says.
pub uninterp spec fn model_of(value: serde_json::Value) -> JsonModel;

/// The text that `serde_json::to_string` writes for a value.
pub uninterp spec fn value_text(value: serde_json::Value) -> Seq<char>;

/// What `serde_json::from_slice` reads from bytes: the value, or the text of the error.
pub uninterp spec fn bytes_read(bytes: Seq<u8>) -> Result<serde_json::Value, Seq<char>>;

/// `<serde_json::Number as Clone>::clone`. Claimed: the copy is the number.
#[verifier::external_body]
fn copy_number(number: &serde_json::Number) -> (r: serde_json::Number)
    ensures
        r == *number,
{
    number.clone()
}

/// Builds the value of `serde_json` that says the same, variant by variant, with `Value::from` for
/// whole numbers; a fraction is the number itself. Claimed: the result depends on what the value
/// says alone, and reads back as it (see `from_value`) where no fraction is in it.
#[verifier::external_body]
pub(crate) fn into_value(json: Json) -> (r: serde_json::Value)
    ensures
        r == value_of(json@),
        whole(json@) ==> model_of(r) == json@,
{
    match json {
        Json::Null => serde_json::Value::Null,
        Json::Bool(b) => serde_json::Value::Bool(b),
        Json::Unsigned(n) => serde_json::Value::from(n),
        Json::Negative(n) => serde_json::Value::from(n),
        Json::Fraction(n) => serde_json::Value::Number(n),
        Json::Text(s) => serde_json::Value::String(s),
        Json::Array(items) => items.into_iter().map(into_value).collect(),
        Json::Object(o) => o.items.into_iter().map(|(k, v)| (k, into_value(v))).collect(),
    }
}

/// Takes a value of `serde_json` apart, variant by variant. A number is taken by `as_u64` or
/// `as_i64`, and as it is where both refuse. Claimed: the result depends on the value alone, and
/// the value that is built of it (see `into_value`) is the same one again. `serde_json::Map` is a
/// `BTreeMap` (the feature `preserve_order` is off), so that its entries come in the order of their
/// keys, each key once.
#[verifier::external_body]
pub(crate) fn from_value(value: serde_json::Value) -> (r: Json)
    ensures
        r@ == model_of(value),
        value_of(r@) == value,
{
    match value {
        serde_json::Value::Null => Json::Null,
        serde_json::Value::Bool(b) => Json::Bool(b),
        serde_json::Value::Number(n) => n.as_u64().map(Json::Unsigned).or(n.as_i64().map(Json::Negative)).unwrap_or(Json::Fraction(n)),
        serde_json::Value::String(s) => Json::Text(s),
        serde_json::Value::Array(items) => Json::Array(items.into_iter().map(from_value).collect()),
        serde_json::Value::Object(m) => Json::Object(SortedMap { items: m.into_iter().map(|(k, v)| (k, from_value(v))).collect() }),
    }
}

/// `serde_json::to_string` on a value. It fails on no value: every key is a text. Claimed: the
/// text depends on the value alone.
#[verifier::external_body]
fn write_value(value: &serde_json::Value) -> (r: String)
    ensures
        r@ == value_text(*value),
{
    serde_json::to_string(value).unwrap_or_default()
}

/// `serde_json::from_slice` into a value, with the text of the error where it fails. Claimed: both
/// depend on the bytes alone.
#[verifier::external_body]
fn read_value(bytes: &[u8]) -> (r: Result<serde_json::Value, String>)
    ensures
        match r {
            Ok(value) => bytes_read(bytes@) == Ok::<serde_json::Value, Seq<char>>(value),
            Err(error) => bytes_read(bytes@) == Err::<serde_json::Value, Seq<char>>(error@),
        },
{
    serde_json::from_slice(bytes).map_err(|error| error.to_string())
}

/// No fraction is in the value, and each negative number is below zero.
pub open spec fn whole(model: JsonModel) -> bool
    decreases model,
{
    match model {
        JsonModel::Fraction(_) => false,
        JsonModel::Negative(n) => n < 0,
        JsonModel::Array(items) => forall|i: int| 0 <= i < items.len() ==> whole(#[trigger] items[i]),
        JsonModel::Object(m) => forall|k: Seq<char>| #[trigger] m.contains_key(k) ==> whole(m[k]),
        _ => true,
    }
}

/// What is read from bytes that are the text of a value.
pub open spec fn json_read(bytes: Seq<u8>) -> Option<JsonModel> {
    match bytes_read(bytes) {
        Ok(value) => Some(model_of(value)),
        Err(_) => None,
    }
}

/// The text of a value.
pub open spec fn json_text_of(model: JsonModel) -> Seq<char> {
    value_text(value_of(model))
}

impl Json {
    /// The text of the value.
    pub fn to_text(&self) -> (r: String)
        ensures
            r@ == json_text_of(self@),
    {
        write_value(&into_value(self.copy()))
    }

    /// The value as one of `serde_json`.
    pub fn to_value(&self) -> (r: serde_json::Value)
        ensures
            r == value_of(self@),
            whole(self@) ==> model_of(r) == self@,
    {
        into_value(self.copy())
    }

    /// A value of `serde_json` as one of the gateway's.
    pub fn of_value(value: serde_json::Value) -> (r: Json)
        ensures
            r@ == model_of(value),
            value_of(r@) == value,
    {
        from_value(value)
    }

    /// The value that the bytes are the text of, or what is wrong with them.
    pub fn read(bytes: &[u8]) -> (r: Result<Json, String>)
        ensures
            match bytes_read(bytes@) {
                Ok(value) => r is Ok && r->Ok_0@ == model_of(value) && value_of(r->Ok_0@) == value,
                Err(error) => r is Err && r->Err_0@ == error,
            },
    {
        match read_value(bytes) {
            Ok(value) => Ok(from_value(value)),
            Err(error) => Err(error),
        }
    }
}

// ---------------------------------------------------------------------------------------------
// Reading and building
// ---------------------------------------------------------------------------------------------
/// The members of an object are those of the map, each value by what it says.
pub proof fn lemma_members(entries: Seq<(String, Json)>)
    ensures
        members(entries).dom() == entries_map(entries).dom(),
        forall|k: Seq<char>| #[trigger]
            members(entries).contains_key(k) ==> members(entries)[k] == entries_map(entries)[k]@,
    decreases entries.len(),
{
    if entries.len() > 0 {
        lemma_members(entries.drop_last());
    }
    assert(members(entries).dom() =~= entries_map(entries).dom());
}

pub proof fn lemma_models(items: Seq<Json>)
    ensures
        models(items).len() == items.len(),
        forall|i: int| 0 <= i < items.len() ==> #[trigger] models(items)[i] == items[i]@,
{
}

/// What an array says with one more item.
pub proof fn lemma_models_push(items: Seq<Json>, item: Json)
    ensures
        models(items.push(item)) == models(items).push(item@),
{
    assert(models(items.push(item)) =~= models(items).push(item@));
}

/// The value of a member of an object.
pub fn get_field<'a>(object: &'a SortedMap<Json>, name: &str) -> (r: Option<&'a Json>)
    ensures
        match r {
            Some(v) => fields(*object).contains_key(name@) && fields(*object)[name@] == v@,
            None => !fields(*object).contains_key(name@),
        },
{
    proof {
        lemma_members(object.entries());
    }
    object.get(name)
}

/// Puts a member into an object, in place of any other of that name.
pub fn set_field(object: &mut SortedMap<Json>, name: &str, value: Json)
    ensures
        fields(*final(object)) == fields(*old(object)).insert(name@, value@),
{
    proof {
        lemma_members(object.entries());
    }
    let ghost model = value@;
    object.insert(name.to_owned(), value);
    proof {
        lemma_members(object.entries());
        assert(fields(*object) =~= fields(*old(object)).insert(name@, model));
    }
}

/// Takes a member out of an object.
pub fn remove_field(object: &mut SortedMap<Json>, name: &str)
    ensures
        fields(*final(object)) == fields(*old(object)).remove(name@),
{
    proof {
        lemma_members(object.entries());
    }
    let _ = object.remove(name);
    proof {
        lemma_members(object.entries());
        assert(fields(*object) =~= fields(*old(object)).remove(name@));
    }
}

/// An object without members.
pub fn object() -> (r: SortedMap<Json>)
    ensures
        fields(r) == no_fields(),
{
    let r: SortedMap<Json> = SortedMap::new();
    proof {
        lemma_members(r.entries());
        assert(fields(r) =~= no_fields());
    }
    r
}

/// The object with one more member.
pub fn with(object: SortedMap<Json>, name: &str, value: Json) -> (r: SortedMap<Json>)
    ensures
        fields(r) == fields(object).insert(name@, value@),
{
    let mut r = object;
    set_field(&mut r, name, value);
    r
}

/// The JSON of a text.
pub fn text(s: &str) -> (r: Json)
    ensures
        r@ == JsonModel::Text(s@),
{
    Json::Text(s.to_owned())
}

/// The JSON of an optional text: the text, or null.
pub fn opt_text_json(value: &Option<String>) -> (r: Json)
    ensures
        r@ == text_or_null(opt_text(*value)),
{
    match value {
        Some(s) => text(s.as_str()),
        None => Json::Null,
    }
}

/// The JSON of an optional number: the number, or null.
pub fn opt_number_json(value: Option<u64>) -> (r: Json)
    ensures
        r@ == number_or_null(value),
{
    match value {
        Some(n) => Json::Unsigned(n),
        None => Json::Null,
    }
}

/// The JSON of an optional value: the value, or null.
pub fn opt_json(value: Option<Json>) -> (r: Json)
    ensures
        r@ == value_or_null(opt_model(value)),
{
    match value {
        Some(json) => json,
        None => Json::Null,
    }
}

/// The JSON of an optional truth value: it, or null.
pub fn opt_bool_json(value: Option<bool>) -> (r: Json)
    ensures
        r@ == bool_or_null(value),
{
    match value {
        Some(b) => Json::Bool(b),
        None => Json::Null,
    }
}

/// A copy of an optional value.
pub fn copy_opt(value: &Option<Json>) -> (r: Option<Json>)
    ensures
        opt_model(r) == opt_model(*value),
{
    match value {
        Some(json) => Some(json.copy()),
        None => None,
    }
}

/// The array of texts.
pub fn texts_json(values: &Vec<String>) -> (r: Json)
    ensures
        r@ == text_array(texts(values@)),
{
    let mut items: Vec<Json> = Vec::new();
    let mut i: usize = 0;
    while i < values.len()
        invariant
            i <= values@.len(),
            items@.len() == i,
            forall|k: int| 0 <= k < i ==> #[trigger] items@[k]@ == JsonModel::Text(values@[k]@),
        decreases values@.len() - i,
    {
        items.push(text(values[i].as_str()));
        i = i + 1;
    }
    proof {
        lemma_models(items@);
        assert forall|k: int| 0 <= k < items@.len() implies models(items@)[k] == JsonModel::Text(
            texts(values@)[k],
        ) by {
            assert(items@[k]@ == JsonModel::Text(values@[k]@));
        }
        assert(models(items@) =~= text_array(texts(values@))->Array_0);
    }
    Json::Array(items)
}

/// A copy of an object.
pub fn copy_object(object: &SortedMap<Json>) -> (r: SortedMap<Json>)
    ensures
        fields(r) == fields(*object),
    decreases object,
{
    let mut r: SortedMap<Json> = self::object();
    let n: usize = object.len();
    let ghost entries = object.entries();
    proof {
        lemma_members(entries);
        lemma_entries_map(entries);
        assert(entries.take(0) =~= Seq::<(String, Json)>::empty());
    }
    let mut i: usize = 0;
    while i < n
        invariant
            n == object.keys().len(),
            entries == object.entries(),
            i <= n,
            fields(r) == members(entries.take(i as int)),
        decreases n - i,
    {
        let (name, value) = object.entry(i);
        proof {
            object.lemma_entries_smaller();
            assert(entries[i as int].1 == *value);
        }
        let value = value.copy();
        set_field(&mut r, name.as_str(), value);
        proof {
            let longer = entries.take(i + 1);
            assert(longer.drop_last() =~= entries.take(i as int));
            assert(longer.last() == entries[i as int]);
        }
        i = i + 1;
    }
    assert(entries.take(n as int) =~= entries);
    r
}

/// A copy of a run of values.
pub fn copy_items(items: &Vec<Json>) -> (r: Vec<Json>)
    ensures
        models(r@) == models(items@),
    decreases items,
{
    let mut r: Vec<Json> = Vec::new();
    let mut i: usize = 0;
    while i < items.len()
        invariant
            i <= items@.len(),
            r@.len() == i,
            forall|k: int| 0 <= k < i ==> #[trigger] r@[k]@ == items@[k]@,
        decreases items@.len() - i,
    {
        r.push(items[i].copy());
        i = i + 1;
    }
    proof {
        lemma_models(r@);
        lemma_models(items@);
        assert forall|k: int| 0 <= k < items@.len() implies models(r@)[k] == models(items@)[k] by {
            assert(r@[k]@ == items@[k]@);
        }
        assert(models(r@) =~= models(items@));
    }
    r
}

impl Json {
    /// A copy of the value.
    pub fn copy(&self) -> (r: Json)
        ensures
            r@ == self@,
        decreases self,
    {
        match self {
            Json::Null => Json::Null,
            Json::Bool(b) => Json::Bool(*b),
            Json::Unsigned(n) => Json::Unsigned(*n),
            Json::Negative(n) => Json::Negative(*n),
            Json::Fraction(n) => Json::Fraction(copy_number(n)),
            Json::Text(s) => Json::Text(s.clone()),
            Json::Array(items) => Json::Array(copy_items(items)),
            Json::Object(object) => Json::Object(copy_object(object)),
        }
    }

    /// The value of a member, where the value is an object that has it.
    pub fn get(&self, name: &str) -> (r: Option<&Json>)
        ensures
            match r {
                Some(v) => member(self@, name@) == Some(v@),
                None => member(self@, name@) is None,
            },
    {
        match self {
            Json::Object(object) => get_field(object, name),
            _ => None,
        }
    }

    /// The text of a value that is a text.
    pub fn as_str(&self) -> (r: Option<&str>)
        ensures
            match r {
                Some(s) => self@ == JsonModel::Text(s@),
                None => !(self@ is Text),
            },
    {
        match self {
            Json::Text(s) => Some(s.as_str()),
            _ => None,
        }
    }

    /// The truth value of a value that is one.
    pub fn as_bool(&self) -> (r: Option<bool>)
        ensures
            r == bool_of(Some(self@)),
    {
        match self {
            Json::Bool(b) => Some(*b),
            _ => None,
        }
    }

    /// The items of a value that is an array.
    pub fn as_array(&self) -> (r: Option<&Vec<Json>>)
        ensures
            match r {
                Some(items) => self@ == JsonModel::Array(models(items@)),
                None => !(self@ is Array),
            },
    {
        match self {
            Json::Array(items) => Some(items),
            _ => None,
        }
    }

    /// Whether the value is an object.
    pub fn is_object(&self) -> (r: bool)
        ensures
            r == (self@ is Object),
    {
        matches!(self, Json::Object(_))
    }

    /// The text of a member that is a text.
    pub fn get_text(&self, name: &str) -> (r: Option<String>)
        ensures
            opt_text(r) == text_of(member(self@, name@)),
    {
        match self.get(name) {
            Some(value) => match value.as_str() {
                Some(s) => Some(s.to_owned()),
                None => None,
            },
            None => None,
        }
    }
}

// ---------------------------------------------------------------------------------------------
// Members in order
// ---------------------------------------------------------------------------------------------
/// The texts are the names of the fields, in their order.
pub open spec fn names_of(keys: Seq<Seq<char>>, m: Map<Seq<char>, JsonModel>) -> bool {
    &&& ascending(keys)
    &&& forall|t: Seq<char>| #[trigger] keys.contains(t) <==> m.contains_key(t)
}

/// The names of the fields, in their order.
pub open spec fn ordered_names(m: Map<Seq<char>, JsonModel>) -> Seq<Seq<char>> {
    choose|keys: Seq<Seq<char>>| names_of(keys, m)
}

/// The values of the fields, in the order of their names.
pub open spec fn ordered_values(m: Map<Seq<char>, JsonModel>) -> Seq<JsonModel> {
    Seq::new(ordered_names(m).len(), |i: int| m[ordered_names(m)[i]])
}

/// There is only one order of the names.
pub proof fn lemma_ordered_names(keys: Seq<Seq<char>>, m: Map<Seq<char>, JsonModel>)
    requires
        names_of(keys, m),
    ensures
        ordered_names(m) == keys,
{
    let other = ordered_names(m);
    assert(names_of(other, m));
    assert forall|t: Seq<char>| #[trigger] keys.contains(t) <==> other.contains(t) by {
        assert(other.contains(t) <==> m.contains_key(t));
    }
    law_sorted_set_is_unique(keys, other);
}

/// The names of an object's members, in their order.
pub fn field_names(object: &SortedMap<Json>) -> (r: Vec<String>)
    ensures
        texts(r@) == ordered_names(fields(*object)),
        texts(r@) == object.keys(),
        names_of(texts(r@), fields(*object)),
{
    let r = keys_of(object);
    proof {
        lemma_members(object.entries());
        assert forall|t: Seq<char>| #[trigger] texts(r@).contains(t) <==> fields(
            *object,
        ).contains_key(t) by {
            assert(texts(r@).contains(t) <==> object@.contains_key(t));
        }
        lemma_ordered_names(texts(r@), fields(*object));
    }
    r
}

/// The values of an object's members, in the order of their names.
pub fn field_values(object: &SortedMap<Json>) -> (r: Vec<Json>)
    ensures
        models(r@) == ordered_values(fields(*object)),
        names_of(ordered_names(fields(*object)), fields(*object)),
{
    let names = field_names(object);
    let n: usize = object.len();
    let mut out: Vec<Json> = Vec::new();
    let mut i: usize = 0;
    proof {
        lemma_members(object.entries());
    }
    while i < n
        invariant
            n == object.keys().len(),
            i <= n,
            out@.len() == i,
            fields(*object).dom() == object@.dom(),
            forall|k: Seq<char>| #[trigger]
                fields(*object).contains_key(k) ==> fields(*object)[k] == object@[k]@,
            forall|k: int|
                0 <= k < i ==> (#[trigger] out@[k])@ == fields(*object)[object.keys()[k]],
        decreases n - i,
    {
        let (key, value) = object.entry(i);
        assert(object@.dom().contains(key@));
        assert(fields(*object).contains_key(key@));
        out.push(value.copy());
        i = i + 1;
    }
    proof {
        lemma_models(out@);
        assert(models(out@) =~= ordered_values(fields(*object)));
    }
    out
}

/// Puts the members of one object into another, in place of those of the same names.
pub fn overlay(base: &mut SortedMap<Json>, over: &SortedMap<Json>)
    ensures
        fields(*final(base)) == fields(*old(base)).union_prefer_right(fields(*over)),
{
    let n: usize = over.len();
    let ghost entries = over.entries();
    let ghost start = fields(*base);
    proof {
        lemma_members(entries.take(0));
        assert(entries.take(0) =~= Seq::<(String, Json)>::empty());
        assert(start =~= start.union_prefer_right(members(entries.take(0))));
    }
    let mut i: usize = 0;
    while i < n
        invariant
            n == over.keys().len(),
            entries == over.entries(),
            i <= n,
            fields(*base) == start.union_prefer_right(members(entries.take(i as int))),
        decreases n - i,
    {
        let (name, value) = over.entry(i);
        let ghost so_far = members(entries.take(i as int));
        proof {
            assert(entries[i as int].1 == *value);
            let longer = entries.take(i + 1);
            assert(longer.drop_last() =~= entries.take(i as int));
            assert(longer.last() == entries[i as int]);
        }
        set_field(base, name.as_str(), value.copy());
        proof {
            let next = so_far.insert(name@, value@);
            assert(members(entries.take(i + 1)) == next);
            assert(start.union_prefer_right(so_far).insert(name@, value@)
                =~= start.union_prefer_right(next));
        }
        i = i + 1;
    }
    assert(entries.take(n as int) =~= entries);
}

} // verus!
