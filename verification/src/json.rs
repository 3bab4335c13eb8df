//! The JSON shapes that metadata values arrive in, held as plain values.
//!
//! The decoders of this crate look at a JSON value only so far as to tell a
//! null, a string and an array apart, and to read the strings; every other
//! value (a boolean, a number, an object, or, inside an array, anything but a
//! string) they only ever use through its compact JSON text. So that is what
//! these types hold.

use vstd::prelude::*;

verus! {

#[verifier::external_type_specification]
#[verifier::external_body]
pub struct ExJsonValue(serde_json::Value);

/// An element of a JSON array.
#[derive(Debug, Clone, PartialEq)]
pub enum JsonItem {
    /// A JSON string, by its content.
    Str(String),
    /// Any other JSON value, by its compact JSON text.
    Other(String),
}

/// A JSON value.
#[derive(Debug, Clone, PartialEq)]
pub enum JsonValue {
    /// `null`.
    Null,
    /// A JSON string, by its content.
    Str(String),
    /// A JSON array, by its elements in order.
    Array(Vec<JsonItem>),
    /// A boolean, a number or an object, by its compact JSON text.
    Other(String),
}

/// The mathematical content of a [`JsonItem`].
pub enum JsonItemView {
    Str(Seq<char>),
    Other(Seq<char>),
}

/// The mathematical content of a [`JsonValue`].
pub enum JsonValueView {
    Null,
    Str(Seq<char>),
    Array(Seq<JsonItemView>),
    Other(Seq<char>),
}

impl JsonItemView {
    /// The item as text: a string's content, any other value's JSON text.
    pub open spec fn text(self) -> Seq<char> {
        match self {
            JsonItemView::Str(s) => s,
            JsonItemView::Other(t) => t,
        }
    }
}

impl View for JsonItem {
    type V = JsonItemView;

    open spec fn view(&self) -> JsonItemView {
        match self {
            JsonItem::Str(s) => JsonItemView::Str(s@),
            JsonItem::Other(t) => JsonItemView::Other(t@),
        }
    }
}

/// The views of a sequence of items.
pub open spec fn item_views(items: Seq<JsonItem>) -> Seq<JsonItemView> {
    items.map_values(|it: JsonItem| it@)
}

impl View for JsonValue {
    type V = JsonValueView;

    open spec fn view(&self) -> JsonValueView {
        match self {
            JsonValue::Null => JsonValueView::Null,
            JsonValue::Str(s) => JsonValueView::Str(s@),
            JsonValue::Array(items) => JsonValueView::Array(item_views(items@)),
            JsonValue::Other(t) => JsonValueView::Other(t@),
        }
    }
}

/// The top level of a `serde_json::Value`, with array elements left as they are.
enum Shape {
    Null,
    Str(String),
    Array(Vec<serde_json::Value>),
    Other(String),
}

/// Tells the variants of a `serde_json::Value` apart: `Null`, `String` and
/// `Array` are handed on, and any other value is rendered with serde_json's
/// `Display` (its compact JSON text). Nothing is stated of the result: the
/// input is opaque here.
#[verifier::external_body]
fn shape_of(value: serde_json::Value) -> Shape {
    match value {
        serde_json::Value::Null => Shape::Null,
        serde_json::Value::String(s) => Shape::Str(s),
        serde_json::Value::Array(a) => Shape::Array(a),
        other => Shape::Other(other.to_string()),
    }
}

/// An element of a `serde_json::Value` array: a `String` is handed on, and any
/// other value is rendered with serde_json's `Display` (its compact JSON
/// text). Nothing is stated of the result: the input is opaque here.
#[verifier::external_body]
fn item_of(value: serde_json::Value) -> JsonItem {
    match value {
        serde_json::Value::String(s) => JsonItem::Str(s),
        other => JsonItem::Other(other.to_string()),
    }
}

/// Reads the elements of a serde_json array, every one of them, in order: one
/// item per element.
fn items_of(elements: Vec<serde_json::Value>) -> (items: Vec<JsonItem>)
    ensures
        items@.len() == elements@.len(),
{
    let ghost count = elements@.len();
    let mut rest = elements;
    let mut items: Vec<JsonItem> = Vec::new();
    while rest.len() > 0
        invariant
            items@.len() + rest@.len() == count,
        decreases rest.len(),
    {
        let element = rest.remove(0);
        items.push(item_of(element));
    }
    items
}

impl JsonValue {
    /// Reads a `serde_json::Value` into the shape the decoders look at.
    pub fn from_serde(value: serde_json::Value) -> JsonValue {
        match shape_of(value) {
            Shape::Null => JsonValue::Null,
            Shape::Str(s) => JsonValue::Str(s),
            Shape::Other(t) => JsonValue::Other(t),
            Shape::Array(elements) => JsonValue::Array(items_of(elements)),
        }
    }
}

} // verus!
