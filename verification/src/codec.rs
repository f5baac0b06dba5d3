//! JSON text, read and written by `serde_json`.
use vstd::prelude::*;

use crate::json::{put, Json, JsonNumber, JsonView, NumberView};
use crate::text::{decimal_text, integer_text};

verus! {

/// A document of `serde_json`.
#[verifier::external_type_specification]
#[verifier::external_body]
pub struct ExValue(serde_json::Value);

/// A JSON number of `serde_json`.
#[verifier::external_type_specification]
#[verifier::external_body]
pub struct ExNumber(serde_json::Number);

/// The fields of an object of `serde_json`.
#[verifier::external_type_specification]
#[verifier::external_body]
#[verifier::reject_recursive_types(K)]
#[verifier::reject_recursive_types(V)]
pub struct ExMap<K, V>(serde_json::Map<K, V>);

/// Why `serde_json` could not read or write.
#[verifier::external_type_specification]
#[verifier::external_body]
pub struct ExError(serde_json::Error);

/// What `serde_json::Number::as_u64` returns.
pub uninterp spec fn number_unsigned(number: serde_json::Number) -> Option<u64>;

/// What `serde_json::Number::as_i64` returns.
pub uninterp spec fn number_signed(number: serde_json::Number) -> Option<i64>;

/// The text that a number of `serde_json` is displayed as.
pub uninterp spec fn number_display(number: serde_json::Number) -> Seq<char>;

/// The fields that a map of `serde_json` holds.
pub uninterp spec fn map_fields(map: serde_json::Map<String, serde_json::Value>) -> Map<
    Seq<char>,
    serde_json::Value,
>;

/// The document that a value of `serde_json` holds.
pub uninterp spec fn value_document(value: serde_json::Value) -> JsonView;

/// The document that `serde_json::from_str` reads from a text, where it reads one.
pub uninterp spec fn parsed(text: Seq<char>) -> Option<JsonView>;

/// The text that `serde_json::to_string` writes for a document.
pub uninterp spec fn written(document: JsonView) -> Seq<char>;

/// What a number of `serde_json` stands for: an integer where it can be read as one.
pub open spec fn number_value(number: serde_json::Number) -> NumberView {
    match number_unsigned(number) {
        Some(n) => NumberView::Integer(n as int),
        None => match number_signed(number) {
            Some(n) => NumberView::Integer(n as int),
            None => NumberView::Float(number),
        },
    }
}

/// `serde_json::Number::as_u64` depends on the number alone. What it does not read, `as_i64` reads
/// as a negative integer or not at all.
pub assume_specification[ serde_json::Number::as_u64 ](number: &serde_json::Number) -> (n: Option<
    u64,
>)
    ensures
        n == number_unsigned(*number),
        n is None ==> (number_signed(*number) matches Some(i) ==> i < 0),
;

/// `serde_json::Number::as_i64` depends on the number alone.
pub assume_specification[ serde_json::Number::as_i64 ](number: &serde_json::Number) -> (n: Option<
    i64,
>)
    ensures
        n == number_signed(*number),
;

/// `serde_json::Map::new` makes a map without fields.
pub assume_specification[ serde_json::Map::<String, serde_json::Value>::new ]() -> (fresh:
    serde_json::Map<String, serde_json::Value>)
    ensures
        map_fields(fresh) == entries_map(Seq::empty()),
;

/// `serde_json::Map::insert` sets one field, and returns what the field held before.
pub assume_specification[ serde_json::Map::<String, serde_json::Value>::insert ](
    map: &mut serde_json::Map<String, serde_json::Value>,
    k: String,
    v: serde_json::Value,
) -> (before: Option<serde_json::Value>)
    ensures
        map_fields(*final(map)) == map_fields(*old(map)).insert(k@, v),
        before == (if map_fields(*old(map)).contains_key(k@) {
            Some(map_fields(*old(map))[k@])
        } else {
            None
        }),
;

/// `serde_json::Number::clone` gives back the same number.
#[verifier::external_body]
pub(crate) fn copy_number(number: &serde_json::Number) -> (copy: serde_json::Number)
    ensures
        copy == *number,
{
    number.clone()
}

/// The `Display` text of a `serde_json::Number` depends on the number alone.
#[verifier::external_body]
fn display_number(number: &serde_json::Number) -> (text: String)
    ensures
        text@ == number_display(*number),
{
    number.to_string()
}

/// `serde_json::Number::from` of a `u64` is the number with that value.
#[verifier::external_body]
fn unsigned_number(n: u64) -> (number: serde_json::Number)
    ensures
        number_value(number) == NumberView::Integer(n as int),
{
    serde_json::Number::from(n)
}

/// `serde_json::Number::from` of an `i64` is the number with that value.
#[verifier::external_body]
fn signed_number(n: i64) -> (number: serde_json::Number)
    ensures
        number_value(number) == NumberView::Integer(n as int),
{
    serde_json::Number::from(n)
}

/// The outermost layer of a document of `serde_json`.
pub enum Layer {
    Null,
    Bool(bool),
    Number(serde_json::Number),
    Text(String),
    Array(Vec<serde_json::Value>),
    Object(serde_json::Map<String, serde_json::Value>),
}

/// The document that starts with a layer.
pub open spec fn layer_document(layer: Layer) -> JsonView {
    match layer {
        Layer::Null => JsonView::Null,
        Layer::Bool(b) => JsonView::Bool(b),
        Layer::Number(n) => JsonView::Number(number_value(n)),
        Layer::Text(s) => JsonView::Text(s@),
        Layer::Array(items) => JsonView::Array(
            items@.map_values(|value: serde_json::Value| value_document(value)),
        ),
        Layer::Object(map) => JsonView::Object(
            map_fields(map).map_values(|value: serde_json::Value| value_document(value)),
        ),
    }
}

/// The variants of `serde_json::Value`, taken apart: each holds what its layer holds.
#[verifier::external_body]
fn open_value(value: serde_json::Value) -> (layer: Layer)
    ensures
        layer_document(layer) == value_document(value),
{
    match value {
        serde_json::Value::Null => Layer::Null,
        serde_json::Value::Bool(b) => Layer::Bool(b),
        serde_json::Value::Number(n) => Layer::Number(n),
        serde_json::Value::String(s) => Layer::Text(s),
        serde_json::Value::Array(items) => Layer::Array(items),
        serde_json::Value::Object(map) => Layer::Object(map),
    }
}

/// The variants of `serde_json::Value`, put together: each holds what its layer holds.
#[verifier::external_body]
fn close_value(layer: Layer) -> (value: serde_json::Value)
    ensures
        value_document(value) == layer_document(layer),
{
    match layer {
        Layer::Null => serde_json::Value::Null,
        Layer::Bool(b) => serde_json::Value::Bool(b),
        Layer::Number(n) => serde_json::Value::Number(n),
        Layer::Text(s) => serde_json::Value::String(s),
        Layer::Array(items) => serde_json::Value::Array(items),
        Layer::Object(map) => serde_json::Value::Object(map),
    }
}

/// The map that a list of fields makes; a later field replaces an earlier one of its name.
pub open spec fn entries_map(entries: Seq<(String, serde_json::Value)>) -> Map<
    Seq<char>,
    serde_json::Value,
>
    decreases entries.len(),
{
    if entries.len() == 0 {
        Map::empty()
    } else {
        entries_map(entries.drop_last()).insert(entries.last().0@, entries.last().1)
    }
}

/// `serde_json::Map::into_iter` hands out each field of the map once, name and value.
#[verifier::external_body]
fn map_entries(map: serde_json::Map<String, serde_json::Value>) -> (entries: Vec<
    (String, serde_json::Value),
>)
    ensures
        entries_map(entries@) == map_fields(map),
        forall|i: int, j: int|
            0 <= i < j < entries@.len() ==> (#[trigger] entries@[i]).0@ != (
            #[trigger] entries@[j]).0@,
{
    map.into_iter().collect()
}

/// `serde_json::from_str` reads a value from a text, or fails; which of the two, and the value,
/// depend on the text alone. Nothing is said of the error.
#[verifier::external_body]
fn parse_value(text: &str) -> (value: Result<serde_json::Value, serde_json::Error>)
    ensures
        value matches Ok(v) ==> parsed(text@) == Some(value_document(v)),
        value is Err ==> parsed(text@) is None,
{
    serde_json::from_str(text)
}

/// `serde_json::to_string` writes any value, since its writer and the value's own serialisation
/// never fail. The text depends on the document alone, and is a single line: line feeds in texts
/// and names are escaped, and nothing is put between tokens. That it depends on the document alone
/// rests on the default features of `serde_json`, under which a map keeps its fields sorted by
/// name; with `preserve_order` the text would also tell in which order they were put in.
#[verifier::external_body]
fn write_value(value: &serde_json::Value) -> (text: Result<String, serde_json::Error>)
    ensures
        text is Ok,
        text->Ok_0@ == written(value_document(*value)),
        !text->Ok_0@.contains('\n'),
{
    serde_json::to_string(value)
}

/// The plain number that a number of `serde_json` stands for.
fn plain_number(number: serde_json::Number) -> (plain: JsonNumber)
    ensures
        plain@ == number_value(number),
{
    match number.as_u64() {
        Some(n) => JsonNumber::Unsigned(n),
        None => match number.as_i64() {
            Some(n) => JsonNumber::Signed(n),
            None => JsonNumber::Other(number),
        },
    }
}

/// The plain document that a value of `serde_json` stands for.
fn plain_document(source: serde_json::Value) -> (json: Json)
    ensures
        json@ == value_document(source),
    decreases value_document(source),
{
    let ghost whole = value_document(source);
    match open_value(source) {
        Layer::Null => Json::Null,
        Layer::Bool(b) => Json::Bool(b),
        Layer::Number(n) => Json::Number(plain_number(n)),
        Layer::Text(s) => Json::Text(s),
        Layer::Array(items) => {
            let ghost all = items@;
            let mut plain: Vec<Json> = Vec::new();
            proof {
                assert(decreases_to!(whole => whole->Array_0));
                assert(crate::json::documents(plain@) =~= whole->Array_0.take(0));
            }
            for value in it: items
                invariant
                    it.seq() == all,
                    whole == value_document(source),
                    whole->Array_0 == all.map_values(
                        |value: serde_json::Value| value_document(value),
                    ),
                    decreases_to!(whole => whole->Array_0),
                    crate::json::documents(plain@) == whole->Array_0.take(it.index()),
            {
                proof {
                    assert(value_document(value) == whole->Array_0[it.index()]);
                    assert(decreases_to!(whole->Array_0 => whole->Array_0[it.index()]));
                }
                let item = plain_document(value);
                proof {
                    crate::json::lemma_documents_push(plain@, item);
                    assert(whole->Array_0.take(it.index() + 1) =~= whole->Array_0.take(
                        it.index(),
                    ).push(item@));
                }
                plain.push(item);
            }
            assert(whole->Array_0.take(all.len() as int) =~= whole->Array_0);
            Json::Array(plain)
        },
        Layer::Object(map) => {
            let ghost fields = map_fields(map);
            let entries = map_entries(map);
            let ghost all = entries@;
            let mut plain: Vec<(String, Json)> = Vec::new();
            proof {
                assert(decreases_to!(whole => whole->Object_0));
            }
            for entry in it: entries
                invariant
                    it.seq() == all,
                    whole == value_document(source),
                    entries_map(all) == fields,
                    forall|i: int, j: int|
                        0 <= i < j < all.len() ==> (#[trigger] all[i]).0@ != (#[trigger] all[j]).0@,
                    whole->Object_0 == fields.map_values(
                        |value: serde_json::Value| value_document(value),
                    ),
                    decreases_to!(whole => whole->Object_0),
                    crate::json::fields_map(plain@) == entries_map(all.take(it.index())).map_values(
                        |value: serde_json::Value| value_document(value),
                    ),
            {
                proof {
                    lemma_entry_in_map(all, it.index());
                    lemma_entries_finite(all);
                    assert(whole->Object_0.dom() =~= fields.dom());
                    assert(whole->Object_0.contains_key(entry.0@));
                    assert(value_document(entry.1) == whole->Object_0[entry.0@]);
                    assert(decreases_to!(whole->Object_0 => whole->Object_0[entry.0@]));
                }
                let value = plain_document(entry.1);
                proof {
                    assert(all.take(it.index() + 1).drop_last() =~= all.take(it.index()));
                }
                put(&mut plain, entry.0.as_str(), value);
                assert(crate::json::fields_map(plain@) =~= entries_map(
                    all.take(it.index() + 1),
                ).map_values(|value: serde_json::Value| value_document(value)));
            }
            assert(all.take(all.len() as int) =~= all);
            Json::Object(plain)
        },
    }
}

/// A list of fields makes a finite map.
proof fn lemma_entries_finite(entries: Seq<(String, serde_json::Value)>)
    ensures
        entries_map(entries).dom().finite(),
    decreases entries.len(),
{
    if entries.len() > 0 {
        lemma_entries_finite(entries.drop_last());
    }
}

/// Where no two fields share a name, each field is in the map that they make.
proof fn lemma_entry_in_map(entries: Seq<(String, serde_json::Value)>, k: int)
    requires
        0 <= k < entries.len(),
        forall|i: int, j: int|
            0 <= i < j < entries.len() ==> (#[trigger] entries[i]).0@ != (
            #[trigger] entries[j]).0@,
    ensures
        entries_map(entries).contains_key(entries[k].0@),
        entries_map(entries)[entries[k].0@] == entries[k].1,
    decreases entries.len(),
{
    if k < entries.len() - 1 {
        lemma_entry_in_map(entries.drop_last(), k);
        assert(entries.drop_last()[k] == entries[k]);
        assert(entries[k].0@ != entries[entries.len() - 1].0@);
    }
}

/// The number of `serde_json` that a plain number stands for.
fn outside_number(number: &JsonNumber) -> (outside: serde_json::Number)
    ensures
        number_value(outside) == number@,
{
    match number {
        JsonNumber::Unsigned(n) => unsigned_number(*n),
        JsonNumber::Signed(n) => signed_number(*n),
        JsonNumber::Other(n) => copy_number(n),
    }
}

/// The value of `serde_json` that a plain document stands for.
fn outside_value(json: &Json) -> (value: serde_json::Value)
    ensures
        value_document(value) == json@,
    decreases json,
{
    match json {
        Json::Null => close_value(Layer::Null),
        Json::Bool(b) => close_value(Layer::Bool(*b)),
        Json::Number(n) => close_value(Layer::Number(outside_number(n))),
        Json::Text(s) => close_value(Layer::Text(s.clone())),
        Json::Array(items) => {
            let mut values: Vec<serde_json::Value> = Vec::new();
            let mut i: usize = 0;
            while i < items.len()
                invariant
                    i <= items@.len(),
                    *json == Json::Array(*items),
                    values@.map_values(|value: serde_json::Value| value_document(value))
                        == crate::json::documents(items@.take(i as int)),
                decreases items@.len() - i,
            {
                proof {
                    assert(decreases_to!(items@ => items@[i as int]));
                    assert(decreases_to!(*items => items@));
                    assert(decreases_to!(*json => json->Array_0));
                    crate::json::lemma_documents_push(items@.take(i as int), items@[i as int]);
                    assert(items@.take(i + 1) =~= items@.take(i as int).push(items@[i as int]));
                }
                let ghost before = values@;
                let value = outside_value(&items[i]);
                values.push(value);
                assert(values@.map_values(|value: serde_json::Value| value_document(value))
                    =~= before.map_values(
                    |value: serde_json::Value| value_document(value),
                ).push(value_document(value)));
                i += 1;
            }
            assert(items@.take(i as int) =~= items@);
            close_value(Layer::Array(values))
        },
        Json::Object(fields) => {
            let mut map = serde_json::Map::new();
            let mut i: usize = 0;
            assert(map_fields(map).map_values(
                |value: serde_json::Value| value_document(value),
            ) =~= crate::json::fields_map(fields@.take(0)));
            while i < fields.len()
                invariant
                    i <= fields@.len(),
                    *json == Json::Object(*fields),
                    map_fields(map).map_values(|value: serde_json::Value| value_document(value))
                        == crate::json::fields_map(fields@.take(i as int)),
                decreases fields@.len() - i,
            {
                proof {
                    assert(decreases_to!(fields@[i as int] => fields@[i as int].1));
                    assert(decreases_to!(fields@ => fields@[i as int]));
                    assert(decreases_to!(*fields => fields@));
                    assert(decreases_to!(*json => json->Object_0));
                    crate::json::lemma_fields_push(fields@.take(i as int), fields@[i as int]);
                    assert(fields@.take(i + 1) =~= fields@.take(i as int).push(fields@[i as int]));
                }
                let ghost before = map_fields(map);
                let value = outside_value(&fields[i].1);
                map.insert(fields[i].0.clone(), value);
                assert(map_fields(map).map_values(
                    |value: serde_json::Value| value_document(value),
                ) =~= before.map_values(|value: serde_json::Value| value_document(value)).insert(
                    fields@[i as int].0@,
                    value_document(value),
                ));
                i += 1;
            }
            assert(fields@.take(i as int) =~= fields@);
            close_value(Layer::Object(map))
        },
    }
}

/// Reads a document from a JSON text.
pub fn from_line(text: &str) -> (json: Option<Json>)
    ensures
        match json {
            Some(j) => parsed(text@) == Some(j@),
            None => parsed(text@) is None,
        },
{
    match parse_value(text) {
        Ok(value) => Some(plain_document(value)),
        Err(_) => None,
    }
}

/// Writes a document as JSON text, in a single line.
pub fn to_line(json: &Json) -> (text: String)
    ensures
        text@ == written(json@),
        !text@.contains('\n'),
{
    match write_value(&outside_value(json)) {
        Ok(text) => text,
        // Never reached: a value can always be written.
        Err(_) => String::new(),
    }
}

/// The text that a number is displayed as.
pub open spec fn number_text(number: NumberView) -> Seq<char> {
    match number {
        NumberView::Integer(n) => crate::text::integer(n),
        NumberView::Float(n) => number_display(n),
    }
}

impl JsonNumber {
    /// The text that the number is displayed as.
    pub fn to_text(&self) -> (text: String)
        ensures
            text@ == number_text(self@),
    {
        match self {
            JsonNumber::Unsigned(n) => decimal_text(*n),
            JsonNumber::Signed(n) => integer_text(*n),
            JsonNumber::Other(n) => match n.as_u64() {
                Some(u) => decimal_text(u),
                None => match n.as_i64() {
                    Some(i) => integer_text(i),
                    None => display_number(n),
                },
            },
        }
    }
}

impl Json {
    /// The number, if the document is an integer that fits in 64 unsigned bits.
    pub fn as_u64(&self) -> (n: Option<u64>)
        ensures
            n == self@.as_unsigned(),
    {
        match self {
            Json::Number(JsonNumber::Unsigned(n)) => Some(*n),
            Json::Number(JsonNumber::Signed(n)) => if *n >= 0 {
                Some(*n as u64)
            } else {
                None
            },
            Json::Number(JsonNumber::Other(n)) => n.as_u64(),
            _ => None,
        }
    }
}

}
