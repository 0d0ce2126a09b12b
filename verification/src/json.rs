//! The shape of a parsed catalog document.
//!
//! A catalog document is one JSON array of records. The catalog only ever
//! reads scalar record fields, so a parsed document keeps scalars whole and
//! keeps nested containers by kind alone: a field holding an array or an
//! object is never read further, only recognised and either skipped (an
//! unknown key) or rejected (a known key of the wrong type).

use serde_json::Value;
use vstd::prelude::*;

verus! {

/// One record field's value: a scalar kept whole, or a nested container
/// kept by kind alone. A number is kept as its decimal text.
pub enum JsonField {
    Null,
    Bool(bool),
    Num(String),
    Str(String),
    Arr,
    Obj,
}

/// One element of the document's top-level array: a JSON object's fields
/// in order, or something other than an object.
pub enum JsonItem {
    Record(Vec<(String, JsonField)>),
    NotRecord,
}

/// A whole parsed document: not JSON at all, JSON but not an array, or an
/// array of items.
pub enum JsonDoc {
    Invalid,
    NotArray,
    Records(Vec<JsonItem>),
}

/// The mathematical shape of a field value.
pub enum FieldV {
    Null,
    Bool(bool),
    Num(Seq<char>),
    Str(Seq<char>),
    Arr,
    Obj,
}

/// The mathematical shape of a top-level array element.
pub enum ItemV {
    Record(Seq<(Seq<char>, FieldV)>),
    NotRecord,
}

/// The mathematical shape of a whole parsed document.
pub enum DocV {
    Invalid,
    NotArray,
    Records(Seq<ItemV>),
}

impl View for JsonField {
    type V = FieldV;

    open spec fn view(&self) -> FieldV {
        match self {
            JsonField::Null => FieldV::Null,
            JsonField::Bool(b) => FieldV::Bool(*b),
            JsonField::Num(s) => FieldV::Num(s@),
            JsonField::Str(s) => FieldV::Str(s@),
            JsonField::Arr => FieldV::Arr,
            JsonField::Obj => FieldV::Obj,
        }
    }
}

impl View for JsonItem {
    type V = ItemV;

    open spec fn view(&self) -> ItemV {
        match self {
            JsonItem::Record(fields) => ItemV::Record(
                fields@.map_values(|p: (String, JsonField)| (p.0@, p.1@)),
            ),
            JsonItem::NotRecord => ItemV::NotRecord,
        }
    }
}

impl View for JsonDoc {
    type V = DocV;

    open spec fn view(&self) -> DocV {
        match self {
            JsonDoc::Invalid => DocV::Invalid,
            JsonDoc::NotArray => DocV::NotArray,
            JsonDoc::Records(items) => DocV::Records(items@.map_values(|it: JsonItem| it@)),
        }
    }
}

/// The shape that parsing a given text yields. Parsing is a function of
/// the text alone; this name stands for its result.
pub uninterp spec fn catalog_doc_of(s: Seq<char>) -> DocV;

/// Relies on serde_json::from_str::<Value>: accepts a text exactly when it
/// is one well-formed JSON document whose numbers are representable, and
/// returns that document's value. The value is converted variant for
/// variant: a number becomes its decimal text (serde_json::Number's
/// Display, deterministic), object fields keep the order the parsed map
/// hands out (sorted by key, deterministic), and nested containers below a
/// record field are kept by kind alone. All of that is a function of the
/// text.
#[verifier::external_body]
pub(crate) fn parse_catalog_text(s: &str) -> (r: JsonDoc)
    ensures
        r@ == catalog_doc_of(s@),
{
    match serde_json::from_str::<Value>(s) {
        Err(_) => JsonDoc::Invalid,
        Ok(Value::Array(items)) => JsonDoc::Records(items.into_iter().map(|item| match item {
            Value::Object(fields) => JsonItem::Record(fields.into_iter().map(|(k, v)| (k, match v {
                Value::Null => JsonField::Null, Value::Bool(b) => JsonField::Bool(b),
                Value::Number(n) => JsonField::Num(n.to_string()),
                Value::String(t) => JsonField::Str(t),
                Value::Array(_) => JsonField::Arr, Value::Object(_) => JsonField::Obj,
            })).collect()),
            _ => JsonItem::NotRecord,
        }).collect()),
        Ok(_) => JsonDoc::NotArray,
    }
}

} // verus!
