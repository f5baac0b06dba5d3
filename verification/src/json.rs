//! JSON documents as plain values.
use vstd::prelude::*;

use crate::codec::copy_number;
use crate::text::same_text;

verus! {

/// A JSON number. `Other` holds what is no 64-bit integer, and is carried along unread.
#[derive(Debug)]
pub enum JsonNumber {
    Unsigned(u64),
    Signed(i64),
    Other(serde_json::Number),
}

/// A JSON document. Of two fields of an object with the same name the later one counts.
#[derive(Debug)]
pub enum Json {
    Null,
    Bool(bool),
    Number(JsonNumber),
    Text(String),
    Array(Vec<Json>),
    Object(Vec<(String, Json)>),
}

/// What a JSON number stands for.
pub enum NumberView {
    Integer(int),
    Float(serde_json::Number),
}

/// What a JSON document stands for: an object is a map from names to documents.
#[verifier::ext_equal]
pub enum JsonView {
    Null,
    Bool(bool),
    Number(NumberView),
    Text(Seq<char>),
    Array(Seq<JsonView>),
    Object(Map<Seq<char>, JsonView>),
}

impl View for JsonNumber {
    type V = NumberView;

    open spec fn view(&self) -> NumberView {
        match *self {
            JsonNumber::Unsigned(n) => NumberView::Integer(n as int),
            JsonNumber::Signed(n) => NumberView::Integer(n as int),
            JsonNumber::Other(n) => crate::codec::number_value(n),
        }
    }
}

impl View for Json {
    type V = JsonView;

    open spec fn view(&self) -> JsonView {
        document(*self)
    }
}

/// What a document stands for.
pub open spec fn document(json: Json) -> JsonView
    decreases json,
{
    match json {
        Json::Null => JsonView::Null,
        Json::Bool(b) => JsonView::Bool(b),
        Json::Number(n) => JsonView::Number(n@),
        Json::Text(s) => JsonView::Text(s@),
        Json::Array(items) => JsonView::Array(documents(items@)),
        Json::Object(fields) => JsonView::Object(fields_map(fields@)),
    }
}

/// What the documents of a list stand for, one by one.
pub open spec fn documents(items: Seq<Json>) -> Seq<JsonView>
    decreases items,
{
    if items.len() == 0 {
        Seq::empty()
    } else {
        documents(items.drop_last()).push(document(items.last()))
    }
}

/// The map that a list of fields stands for; a later field replaces an earlier one of its name.
pub open spec fn fields_map(fields: Seq<(String, Json)>) -> Map<Seq<char>, JsonView>
    decreases fields,
{
    if fields.len() == 0 {
        Map::empty()
    } else {
        fields_map(fields.drop_last()).insert(fields.last().0@, document(fields.last().1))
    }
}

impl JsonView {
    /// The value of a named field. Only an object has fields.
    pub open spec fn field(self, key: Seq<char>) -> Option<JsonView> {
        match self {
            JsonView::Object(fields) => if fields.contains_key(key) {
                Some(fields[key])
            } else {
                None
            },
            _ => None,
        }
    }

    /// Whether there is a field of that name.
    pub open spec fn has(self, key: Seq<char>) -> bool {
        self.field(key) is Some
    }

    /// The text, if the document is one.
    pub open spec fn as_text(self) -> Option<Seq<char>> {
        match self {
            JsonView::Text(text) => Some(text),
            _ => None,
        }
    }

    /// The number, if the document is an integer that fits in 64 unsigned bits.
    pub open spec fn as_unsigned(self) -> Option<u64> {
        match self {
            JsonView::Number(NumberView::Integer(n)) => if 0 <= n <= u64::MAX {
                Some(n as u64)
            } else {
                None
            },
            _ => None,
        }
    }

    /// The text in a named field.
    pub open spec fn text_at(self, key: Seq<char>) -> Option<Seq<char>> {
        match self.field(key) {
            Some(value) => value.as_text(),
            None => None,
        }
    }

    /// The value of a named field, or null.
    pub open spec fn field_or_null(self, key: Seq<char>) -> JsonView {
        match self.field(key) {
            Some(value) => value,
            None => JsonView::Null,
        }
    }
}

/// The documents of a longer list.
pub proof fn lemma_documents_push(items: Seq<Json>, item: Json)
    ensures
        documents(items.push(item)) == documents(items).push(document(item)),
{
    assert(items.push(item).drop_last() =~= items);
}

/// One more field replaces what its name stood for.
pub proof fn lemma_fields_push(fields: Seq<(String, Json)>, field: (String, Json))
    ensures
        fields_map(fields.push(field)) == fields_map(fields).insert(field.0@, document(field.1)),
{
    assert(fields.push(field).drop_last() =~= fields);
}

/// Puts one more field behind the fields of an object.
pub fn put(fields: &mut Vec<(String, Json)>, key: &str, value: Json)
    ensures
        fields_map(final(fields)@) == fields_map(old(fields)@).insert(key@, value@),
{
    let key_text = key.to_string();
    proof {
        lemma_fields_push(fields@, (key_text, value));
    }
    fields.push((key_text, value));
}

impl JsonNumber {
    /// A number with the same value.
    pub fn copy(&self) -> (number: JsonNumber)
        ensures
            number@ == self@,
    {
        match self {
            JsonNumber::Unsigned(n) => JsonNumber::Unsigned(*n),
            JsonNumber::Signed(n) => JsonNumber::Signed(*n),
            JsonNumber::Other(n) => JsonNumber::Other(copy_number(n)),
        }
    }
}

impl Json {
    /// A text document.
    pub fn text(text: &str) -> (json: Json)
        ensures
            json@ == JsonView::Text(text@),
    {
        Json::Text(text.to_string())
    }

    /// A document that stands for the same.
    pub fn copy(&self) -> (json: Json)
        ensures
            json@ == self@,
        decreases self,
    {
        match self {
            Json::Null => Json::Null,
            Json::Bool(b) => Json::Bool(*b),
            Json::Number(n) => Json::Number(n.copy()),
            Json::Text(s) => Json::Text(s.clone()),
            Json::Array(items) => {
                let mut copies: Vec<Json> = Vec::new();
                let mut i: usize = 0;
                while i < items.len()
                    invariant
                        i <= items@.len(),
                        *self == Json::Array(*items),
                        documents(copies@) == documents(items@.take(i as int)),
                    decreases items@.len() - i,
                {
                    proof {
                        assert(decreases_to!(items@ => items@[i as int]));
                        assert(decreases_to!(*items => items@));
                        assert(decreases_to!(*self => self->Array_0));
                    }
                    let item = items[i].copy();
                    proof {
                        lemma_documents_push(copies@, item);
                        lemma_documents_push(items@.take(i as int), items@[i as int]);
                        assert(items@.take(i + 1) =~= items@.take(i as int).push(items@[i as int]));
                    }
                    copies.push(item);
                    i += 1;
                }
                assert(items@.take(i as int) =~= items@);
                Json::Array(copies)
            },
            Json::Object(fields) => {
                let mut copies: Vec<(String, Json)> = Vec::new();
                let mut i: usize = 0;
                while i < fields.len()
                    invariant
                        i <= fields@.len(),
                        *self == Json::Object(*fields),
                        fields_map(copies@) == fields_map(fields@.take(i as int)),
                    decreases fields@.len() - i,
                {
                    proof {
                        assert(decreases_to!(fields@[i as int] => fields@[i as int].1));
                        assert(decreases_to!(fields@ => fields@[i as int]));
                        assert(decreases_to!(*fields => fields@));
                        assert(decreases_to!(*self => self->Object_0));
                    }
                    let value = fields[i].1.copy();
                    proof {
                        lemma_fields_push(fields@.take(i as int), fields@[i as int]);
                        assert(fields@.take(i + 1) =~= fields@.take(i as int).push(
                            fields@[i as int],
                        ));
                    }
                    put(&mut copies, fields[i].0.as_str(), value);
                    i += 1;
                }
                assert(fields@.take(i as int) =~= fields@);
                Json::Object(copies)
            },
        }
    }

    /// The value of a named field of an object.
    pub fn get(&self, key: &str) -> (value: Option<&Json>)
        ensures
            match value {
                Some(json) => self@.field(key@) == Some(json@),
                None => self@.field(key@) is None,
            },
    {
        match self {
            Json::Object(fields) => {
                let mut i: usize = fields.len();
                assert(fields@.take(i as int) =~= fields@);
                while i > 0
                    invariant
                        i <= fields@.len(),
                        *self == Json::Object(*fields),
                        fields_map(fields@).contains_key(key@) <==> fields_map(
                            fields@.take(i as int),
                        ).contains_key(key@),
                        fields_map(fields@).contains_key(key@) ==> fields_map(fields@)[key@]
                            == fields_map(fields@.take(i as int))[key@],
                    decreases i,
                {
                    i -= 1;
                    proof {
                        assert(fields@.take(i + 1).drop_last() =~= fields@.take(i as int));
                        assert(fields@.take(i + 1).last() == fields@[i as int]);
                    }
                    if same_text(fields[i].0.as_str(), key) {
                        return Some(&fields[i].1);
                    }
                }
                None
            },
            _ => None,
        }
    }

    /// The text, if the document is one.
    pub fn as_str(&self) -> (text: Option<&str>)
        ensures
            match text {
                Some(s) => self@.as_text() == Some(s@),
                None => self@.as_text() is None,
            },
    {
        match self {
            Json::Text(s) => Some(s.as_str()),
            _ => None,
        }
    }

    /// The value of a named field, or null.
    pub fn get_or_null(&self, key: &str) -> (value: Json)
        ensures
            value@ == self@.field_or_null(key@),
    {
        match self.get(key) {
            Some(value) => value.copy(),
            None => Json::Null,
        }
    }
}

impl Clone for JsonNumber {
    fn clone(&self) -> (number: JsonNumber)
        ensures
            number@ == self@,
    {
        self.copy()
    }
}

impl Clone for Json {
    fn clone(&self) -> (json: Json)
        ensures
            json@ == self@,
    {
        self.copy()
    }
}

/// The text in a named field of a document.
pub fn string_at(value: &Json, key: &str) -> (text: Option<String>)
    ensures
        match text {
            Some(s) => value@.text_at(key@) == Some(s@),
            None => value@.text_at(key@) is None,
        },
{
    match value.get(key) {
        Some(json) => match json.as_str() {
            Some(s) => Some(s.to_string()),
            None => None,
        },
        None => None,
    }
}

}
