//! Reading metadata fields that may arrive as either a single JSON string or
//! an array of strings, into an `Option<String>`.
//!
//! Some pages carry duplicate meta tags (several `viewport` or
//! `twitter:image` tags, for instance), which the scraper collects into a
//! JSON array. Arrays are joined with `", "`, so that call-sites that expect
//! `Option<String>` keep working.

use vstd::prelude::*;
use crate::document::{MetadataValueError, MetadataValueView};
use crate::document::option_metadata_value::decode_optional;
use crate::json::{JsonItem, JsonItemView, JsonValue, JsonValueView, item_views};
use crate::text::{comma_space, join_comma_space, join_seq, string_views};

verus! {

/// The views of an optional JSON value.
pub open spec fn optional_json_view(value: Option<JsonValue>) -> Option<JsonValueView> {
    match value {
        Some(v) => Some(v@),
        None => None,
    }
}

/// The views of an optional string.
pub open spec fn optional_string_view(value: Option<String>) -> Option<Seq<char>> {
    match value {
        Some(s) => Some(s@),
        None => None,
    }
}

/// The string that a flexible field holds:
///
/// *  `"hello"`           -> `Some("hello")`
/// *  `["a", "b"]`        -> `Some("a, b")` (a non-string element by its JSON text)
/// *  `[]`                -> `None`
/// *  `null` / absent key -> `None`
/// *  any other value     -> `Some` of its JSON text
pub open spec fn flexible_text(value: Option<JsonValueView>) -> Option<Seq<char>> {
    match value {
        None => None,
        Some(JsonValueView::Null) => None,
        Some(JsonValueView::Str(s)) => Some(s),
        Some(JsonValueView::Array(items)) => if items.len() == 0 {
            None
        } else {
            Some(join_seq(items.map_values(|it: JsonItemView| it.text()), comma_space()))
        },
        Some(JsonValueView::Other(t)) => Some(t),
    }
}

/// The flexible reader agrees with the metadata-value reader: on every JSON
/// value that reads as an optional metadata value, it gives that value's
/// single-string form (`Single(s)` as `s`, `Many` as its values joined with
/// `", "`), and no value for `null` and for an empty array.
pub proof fn lemma_flexible_text_agrees_with_decode(json: JsonValueView, v: Option<MetadataValueView>)
    requires
        decode_optional(json) == Ok::<Option<MetadataValueView>, MetadataValueError>(v),
    ensures
        flexible_text(Some(json)) == match v {
            None => None,
            Some(m) => if m is Many && m->Many_0.len() == 0 {
                None
            } else {
                Some(m.lossy())
            },
        },
{
}

/// A string reads as itself, `null` and absence as no value, any other
/// non-array value as its JSON text; a non-empty array as all its items, in
/// order, each a string's content or another value's JSON text, with `", "`
/// between neighbours: one more item adds `", "` and that item's text.
pub proof fn lemma_flexible_text_cases(json: JsonValueView, items: Seq<JsonItemView>, it: JsonItemView)
    ensures
        flexible_text(None) == None::<Seq<char>>,
        flexible_text(Some(JsonValueView::Null)) == None::<Seq<char>>,
        json matches JsonValueView::Str(s) ==> flexible_text(Some(json)) == Some(s),
        json matches JsonValueView::Other(t) ==> flexible_text(Some(json)) == Some(t),
        flexible_text(Some(JsonValueView::Array(Seq::<JsonItemView>::empty()))) == None::<Seq<char>>,
        it matches JsonItemView::Str(s) ==> flexible_text(Some(JsonValueView::Array(seq![it]))) == Some(s),
        it matches JsonItemView::Other(t) ==> flexible_text(Some(JsonValueView::Array(seq![it]))) == Some(t),
        items.len() > 0 ==> {
            &&& flexible_text(Some(JsonValueView::Array(items))) matches Some(before)
            &&& flexible_text(Some(JsonValueView::Array(items.push(it)))) == Some(
                before + seq![',', ' '] + (match it {
                    JsonItemView::Str(s) => s,
                    JsonItemView::Other(t) => t,
                }),
            )
        },
{
    let one = seq![it].map_values(|x: JsonItemView| x.text());
    assert(one =~= seq![it.text()]);
    crate::text::lemma_join_empty_and_single(it.text(), comma_space());
    if items.len() > 0 {
        let texts = items.map_values(|x: JsonItemView| x.text());
        assert(items.push(it).map_values(|x: JsonItemView| x.text()) =~= texts.push(it.text()));
        crate::text::lemma_join_push(texts, it.text(), comma_space());
    }
}

/// Reads an `Option<String>` from a JSON value that may be a string, an array
/// of strings, or `null`, as [`flexible_text`] says.
pub fn flexible_string_from_json(value: &Option<JsonValue>) -> (r: Option<String>)
    ensures
        optional_string_view(r) == flexible_text(optional_json_view(*value)),
{
    match value {
        None => None,
        Some(JsonValue::Null) => None,
        Some(JsonValue::Str(s)) => Some(s.clone()),
        Some(JsonValue::Other(t)) => Some(t.clone()),
        Some(JsonValue::Array(items)) => {
            let ghost views = item_views(items@);
            let n = items.len();
            let mut strings: Vec<String> = Vec::new();
            let mut i: usize = 0;
            while i < n
                invariant
                    n == items@.len(),
                    views == item_views(items@),
                    i <= n,
                    strings@.len() == i,
                    forall|j: int| 0 <= j < i ==> #[trigger] strings@[j]@ == views[j].text(),
                decreases n - i,
            {
                assert(views[i as int] == items@[i as int]@);
                match &items[i] {
                    JsonItem::Str(s) => strings.push(s.clone()),
                    JsonItem::Other(t) => strings.push(t.clone()),
                }
                i = i + 1;
            }
            assert(string_views(strings@) =~= views.map_values(|it: JsonItemView| it.text()));
            if n == 0 {
                None
            } else {
                Some(join_comma_space(&strings))
            }
        },
    }
}

/// Deserializes an `Option<String>` from a JSON value (one read from
/// serde_json by [`JsonValue::from_serde`]) that may be a string, an array of
/// strings, or `null`, as [`flexible_text`] says; an absent value gives `None`.
pub fn deserialize_flexible_string(value: Option<JsonValue>) -> (r: Option<String>)
    ensures
        optional_string_view(r) == flexible_text(optional_json_view(value)),
{
    flexible_string_from_json(&value)
}

} // verus!
