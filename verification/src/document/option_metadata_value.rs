//! Optional metadata values: `null`, a string, or an array of strings.

use vstd::prelude::*;
use crate::document::{decode_metadata_value, lemma_decode_metadata_value_cases, lemma_decode_of_to_json, lemma_to_json_writes_strings, MetadataValue, MetadataValueError, MetadataValueView};
use crate::json::{JsonItemView, JsonValue, JsonValueView};

verus! {

/// The views of an optional metadata value.
pub open spec fn optional_view(v: Option<MetadataValue>) -> Option<MetadataValueView> {
    match v {
        Some(m) => Some(m@),
        None => None,
    }
}

/// Reads an optional metadata value: `null` is no value, and anything else is
/// read as a metadata value is.
pub open spec fn decode_optional(json: JsonValueView) -> Result<Option<MetadataValueView>, MetadataValueError> {
    match json {
        JsonValueView::Null => Ok(None),
        _ => match decode_metadata_value(json) {
            Ok(m) => Ok(Some(m)),
            Err(e) => Err(e),
        },
    }
}

/// The JSON shape in which an optional metadata value is written: `null`
/// for no value.
pub open spec fn encode_optional(v: Option<MetadataValueView>) -> JsonValueView {
    match v {
        Some(m) => m.to_json(),
        None => JsonValueView::Null,
    }
}

/// Reading back what was written gives the value: the JSON shape of an
/// optional metadata value (`null` for none) decodes to that same value.
pub proof fn lemma_decode_of_encode(v: Option<MetadataValueView>)
    ensures
        decode_optional(encode_optional(v)) == Ok::<Option<MetadataValueView>, MetadataValueError>(v),
{
    if let Some(m) = v {
        lemma_decode_of_to_json(m);
    }
}

/// `null` reads as no value; a JSON string as `Some(Single)`; a JSON array
/// whose items are all strings, of any length, as `Some(Many)` of those
/// strings in order; an array with an item that is not a string is refused
/// with `ExpectedStringElement`; every other value with `ExpectedStringOrArray`.
pub proof fn lemma_decode_optional_cases(json: JsonValueView)
    ensures
        json is Null ==> decode_optional(json) == Ok::<Option<MetadataValueView>, MetadataValueError>(None),
        json matches JsonValueView::Str(s) ==> decode_optional(json)
            == Ok::<Option<MetadataValueView>, MetadataValueError>(Some(MetadataValueView::Single(s))),
        json matches JsonValueView::Array(items) ==> (
            (forall|i: int| 0 <= i < items.len() ==> #[trigger] items[i] is Str) ==> {
                &&& decode_optional(json) matches Ok(Some(MetadataValueView::Many(v)))
                &&& v.len() == items.len()
                &&& forall|i: int| 0 <= i < items.len() ==> #[trigger] items[i] == JsonItemView::Str(v[i])
            }),
        json matches JsonValueView::Array(items) ==> (
            (exists|i: int| 0 <= i < items.len() && #[trigger] items[i] is Other) ==> decode_optional(json)
                == Err::<Option<MetadataValueView>, MetadataValueError>(MetadataValueError::ExpectedStringElement)),
        json is Other ==> decode_optional(json)
            == Err::<Option<MetadataValueView>, MetadataValueError>(MetadataValueError::ExpectedStringOrArray),
{
    lemma_decode_metadata_value_cases(json);
}

/// No value is written as `null`; a value as a JSON string (`Single`) or as a
/// JSON array with one string item per value, in order (`Many`, of any length).
pub proof fn lemma_encode_optional_writes_strings(v: Option<MetadataValueView>)
    ensures
        v is None ==> encode_optional(v) == JsonValueView::Null,
        v matches Some(MetadataValueView::Single(s)) ==> encode_optional(v) == JsonValueView::Str(s),
        v matches Some(MetadataValueView::Many(xs)) ==> {
            &&& encode_optional(v) matches JsonValueView::Array(items)
            &&& items.len() == xs.len()
            &&& forall|i: int| 0 <= i < xs.len() ==> #[trigger] items[i] == JsonItemView::Str(xs[i])
        },
{
    if let Some(m) = v {
        lemma_to_json_writes_strings(m);
    }
}

/// Reads an optional metadata value from its JSON shape: `null` gives `None`,
/// a string or an array of strings gives the value, and anything else is
/// refused.
pub fn from_json(json: &JsonValue) -> (r: Result<Option<MetadataValue>, MetadataValueError>)
    ensures
        match r {
            Ok(v) => decode_optional(json@) == Ok::<Option<MetadataValueView>, MetadataValueError>(optional_view(v)),
            Err(e) => decode_optional(json@) == Err::<Option<MetadataValueView>, MetadataValueError>(e),
        },
{
    match json {
        JsonValue::Null => Ok(None),
        _ => match MetadataValue::from_json(json) {
            Ok(m) => Ok(Some(m)),
            Err(e) => Err(e),
        },
    }
}

/// Deserializes an `Option<MetadataValue>` from a JSON value (one read from
/// serde_json by [`JsonValue::from_serde`]) that is `null`, a string, or an
/// array of strings; any other value is refused.
pub fn deserialize(value: JsonValue) -> (r: Result<Option<MetadataValue>, MetadataValueError>)
    ensures
        match r {
            Ok(v) => decode_optional(value@) == Ok::<Option<MetadataValueView>, MetadataValueError>(optional_view(v)),
            Err(e) => decode_optional(value@) == Err::<Option<MetadataValueView>, MetadataValueError>(e),
        },
{
    from_json(&value)
}

/// Serializes an `Option<MetadataValue>`: the value's own JSON shape, or
/// `null` for `None`.
pub fn serialize(value: &Option<MetadataValue>) -> (json: JsonValue)
    ensures
        json@ == encode_optional(optional_view(*value)),
{
    match value {
        Some(v) => v.to_json(),
        None => JsonValue::Null,
    }
}

} // verus!
