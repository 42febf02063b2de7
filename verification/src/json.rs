//! JSON documents, as far as the library reads them: the members of a top-level object.
use crate::text::{opt, same_text};
use serde_json::Value;
use vstd::prelude::*;

verus! {

/// One item of a JSON array: its text where it is a string, and its compact JSON form.
pub struct JsonItem {
    pub text: Option<String>,
    pub source: String,
}

/// The value of one member of an object. A nested object is known to be one and not looked into.
pub enum JsonField {
    Null,
    Bool(bool),
    Number(Option<u64>),
    Text(String),
    List(Vec<JsonItem>),
    Object,
}

/// A parsed document: the members of an object, or a value of another type.
pub enum JsonDocument {
    Object(Vec<(String, JsonField)>),
    Other,
}

/// What an array item holds.
pub struct ItemView {
    pub text: Option<Seq<char>>,
    pub source: Seq<char>,
}

/// What a member's value holds.
pub enum FieldView {
    Null,
    Bool(bool),
    Number(Option<u64>),
    Text(Seq<char>),
    List(Seq<ItemView>),
    Object,
}

/// What a document holds.
pub enum JsonView {
    Object(Seq<(Seq<char>, FieldView)>),
    Other,
}

impl View for JsonItem {
    type V = ItemView;

    open spec fn view(&self) -> ItemView {
        ItemView { text: opt(self.text), source: self.source@ }
    }
}

impl View for JsonField {
    type V = FieldView;

    open spec fn view(&self) -> FieldView {
        match self {
            JsonField::Null => FieldView::Null,
            JsonField::Bool(value) => FieldView::Bool(*value),
            JsonField::Number(value) => FieldView::Number(*value),
            JsonField::Text(text) => FieldView::Text(text@),
            JsonField::List(items) => FieldView::List(items@.map_values(|item: JsonItem| item@)),
            JsonField::Object => FieldView::Object,
        }
    }
}

/// The members of an object, each by its name and what it holds.
pub open spec fn members(fields: Seq<(String, JsonField)>) -> Seq<(Seq<char>, FieldView)> {
    fields.map_values(|field: (String, JsonField)| (field.0@, field.1@))
}

impl View for JsonDocument {
    type V = JsonView;

    open spec fn view(&self) -> JsonView {
        match self {
            JsonDocument::Object(fields) => JsonView::Object(members(fields@)),
            JsonDocument::Other => JsonView::Other,
        }
    }
}

/// The document that some bytes spell in JSON, or what is wrong with them.
pub uninterp spec fn json_document(bytes: Seq<u8>) -> Result<JsonView, Seq<char>>;

/// The view of a parse result.
pub open spec fn parse_view(r: Result<JsonDocument, String>) -> Result<JsonView, Seq<char>> {
    match r {
        Ok(document) => Ok(document@),
        Err(message) => Err(message@),
    }
}

/// `serde_json::from_slice` into a `serde_json::Value`, whose top two levels are carried over; an
/// array item also by its own compact form, which is what `Value::to_string` prints. The result,
/// and the error's text, depend on the bytes alone.
#[verifier::external_body]
pub(crate) fn parse_json(bytes: &[u8]) -> (r: Result<JsonDocument, String>)
    ensures
        parse_view(r) == json_document(bytes@),
{
    let Value::Object(map) = serde_json::from_slice(bytes).map_err(|e| e.to_string())? else {
        return Ok(JsonDocument::Other);
    };
    Ok(JsonDocument::Object(map.into_iter().map(|(name, field)| (name, match field {
        Value::Null => JsonField::Null,
        Value::Bool(value) => JsonField::Bool(value),
        Value::Number(value) => JsonField::Number(value.as_u64()),
        Value::String(text) => JsonField::Text(text),
        Value::Array(items) => JsonField::List(items.iter().map(|item| JsonItem {
            text: item.as_str().map(String::from),
            source: item.to_string(),
        }).collect()),
        Value::Object(_) => JsonField::Object,
    })).collect()))
}

/// The value of the member `name`, the first of that name.
pub open spec fn member(fields: Seq<(Seq<char>, FieldView)>, name: Seq<char>) -> Option<FieldView>
    decreases fields.len(),
{
    if fields.len() == 0 {
        None
    } else if fields[0].0 == name {
        Some(fields[0].1)
    } else {
        member(fields.drop_first(), name)
    }
}

impl JsonView {
    /// The value of the member `name`, where the document is an object that has it.
    pub open spec fn get(self, name: Seq<char>) -> Option<FieldView> {
        match self {
            JsonView::Object(fields) => member(fields, name),
            JsonView::Other => None,
        }
    }

    /// The text of the member `name`, where it is a string.
    pub open spec fn get_str(self, name: Seq<char>) -> Option<Seq<char>> {
        match self.get(name) {
            Some(FieldView::Text(text)) => Some(text),
            _ => None,
        }
    }

    /// The number of the member `name`, where it is one that a `u64` holds.
    pub open spec fn get_u64(self, name: Seq<char>) -> Option<u64> {
        match self.get(name) {
            Some(FieldView::Number(value)) => value,
            _ => None,
        }
    }
}

impl JsonDocument {
    pub fn is_object(&self) -> (r: bool)
        ensures
            r == (self@ is Object),
    {
        match self {
            JsonDocument::Object(_) => true,
            JsonDocument::Other => false,
        }
    }

    pub fn get(&self, name: &str) -> (r: Option<&JsonField>)
        ensures
            (match r {
                Some(field) => Some(field@),
                None => None,
            }) == self@.get(name@),
    {
        match self {
            JsonDocument::Other => None,
            JsonDocument::Object(fields) => {
                let mut i: usize = 0;
                let ghost all = members(fields@);
                assert(all.skip(0) =~= all);
                while i < fields.len()
                    invariant
                        i <= fields.len(),
                        all == members(fields@),
                        self@ == JsonView::Object(all),
                        member(all, name@) == member(all.skip(i as int), name@),
                    decreases fields.len() - i,
                {
                    assert(all.skip(i as int)[0] == all[i as int]);
                    if same_text(fields[i].0.as_str(), name) {
                        return Some(&fields[i].1);
                    }
                    assert(all.skip(i as int).drop_first() =~= all.skip(i + 1));
                    i = i + 1;
                }
                None
            },
        }
    }

    pub fn get_str(&self, name: &str) -> (r: Option<&str>)
        ensures
            crate::text::opt_str(r) == self@.get_str(name@),
    {
        match self.get(name) {
            Some(JsonField::Text(text)) => Some(text.as_str()),
            _ => None,
        }
    }

    pub fn get_u64(&self, name: &str) -> (r: Option<u64>)
        ensures
            r == self@.get_u64(name@),
    {
        match self.get(name) {
            Some(JsonField::Number(value)) => *value,
            _ => None,
        }
    }
}

} // verus!
