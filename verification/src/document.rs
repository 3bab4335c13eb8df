//! A metadata value: one string, or the list of strings that duplicate meta
//! tags with the same name produce.

pub mod option_metadata_value;

use vstd::prelude::*;
use crate::json::{item_views, JsonItem, JsonItemView, JsonValue, JsonValueView};
use crate::text::{comma_space, join_comma_space, join_seq, string_views};

verus! {

/// A metadata value that can be either a single string or a list of strings.
///
/// The API returns metadata values as strings for unique meta tags, but as
/// arrays when a page has duplicate meta tags with the same name (several
/// `viewport` or `twitter:image` tags, for instance).
#[derive(Debug, Clone, PartialEq)]
pub enum MetadataValue {
    /// A single string value.
    Single(String),
    /// Multiple values from duplicate meta tags.
    Many(Vec<String>),
}

/// The mathematical content of a [`MetadataValue`].
pub enum MetadataValueView {
    Single(Seq<char>),
    Many(Seq<Seq<char>>),
}

impl View for MetadataValue {
    type V = MetadataValueView;

    open spec fn view(&self) -> MetadataValueView {
        match self {
            MetadataValue::Single(s) => MetadataValueView::Single(s@),
            MetadataValue::Many(v) => MetadataValueView::Many(string_views(v@)),
        }
    }
}

/// Why a JSON value could not be read as a metadata value.
#[derive(Debug, Clone, Copy, PartialEq, Eq, Structural)]
pub enum MetadataValueError {
    /// The value is neither a string nor an array (nor null, where null is allowed).
    ExpectedStringOrArray,
    /// The value is an array, and one of its elements is not a string.
    ExpectedStringElement,
}

impl MetadataValueView {
    /// All the values held, in order.
    pub open spec fn values(self) -> Seq<Seq<char>> {
        match self {
            MetadataValueView::Single(s) => seq![s],
            MetadataValueView::Many(v) => v,
        }
    }

    /// The value as one string: a single value as it is, several joined with `", "`.
    pub open spec fn lossy(self) -> Seq<char> {
        match self {
            MetadataValueView::Single(s) => s,
            MetadataValueView::Many(v) => join_seq(v, comma_space()),
        }
    }

    /// The first value; the empty string when there is none.
    pub open spec fn first(self) -> Seq<char> {
        match self {
            MetadataValueView::Single(s) => s,
            MetadataValueView::Many(v) => if v.len() > 0 {
                v[0]
            } else {
                Seq::empty()
            },
        }
    }

    /// The JSON shape in which the value is written: a string, or an array of strings.
    pub open spec fn to_json(self) -> JsonValueView {
        match self {
            MetadataValueView::Single(s) => JsonValueView::Str(s),
            MetadataValueView::Many(v) => JsonValueView::Array(
                v.map_values(|s: Seq<char>| JsonItemView::Str(s)),
            ),
        }
    }
}

/// Reads a metadata value from the JSON shape of a string or an array of strings.
pub open spec fn decode_metadata_value(json: JsonValueView) -> Result<MetadataValueView, MetadataValueError> {
    match json {
        JsonValueView::Str(s) => Ok(MetadataValueView::Single(s)),
        JsonValueView::Array(items) => if all_strings(items) {
            Ok(MetadataValueView::Many(items.map_values(|it: JsonItemView| it.text())))
        } else {
            Err(MetadataValueError::ExpectedStringElement)
        },
        _ => Err(MetadataValueError::ExpectedStringOrArray),
    }
}

/// Every item of `items` is a JSON string.
pub open spec fn all_strings(items: Seq<JsonItemView>) -> bool {
    forall|i: int| 0 <= i < items.len() ==> #[trigger] items[i] is Str
}


/// Reading back what was written gives the value: the JSON shape of a
/// metadata value decodes to that same value.
pub proof fn lemma_decode_of_to_json(m: MetadataValueView)
    ensures
        decode_metadata_value(m.to_json()) == Ok::<MetadataValueView, MetadataValueError>(m),
{
    match m {
        MetadataValueView::Single(s) => {},
        MetadataValueView::Many(v) => {
            let items = v.map_values(|s: Seq<char>| JsonItemView::Str(s));
            assert(all_strings(items));
            assert(items.map_values(|it: JsonItemView| it.text()) =~= v);
        },
    }
}

/// The single-string form of a value is all of its values joined with `", "`.
pub proof fn lemma_lossy_joins_values(m: MetadataValueView)
    ensures
        m.lossy() == join_seq(m.values(), comma_space()),
{
    match m {
        MetadataValueView::Single(s) => {
            assert(join_seq(seq![s], comma_space()) == s);
        },
        MetadataValueView::Many(v) => {},
    }
}

/// The first value is the head of all the values, or the empty string when
/// there are none.
pub proof fn lemma_first_is_head_of_values(m: MetadataValueView)
    ensures
        m.first() == (if m.values().len() > 0 { m.values()[0] } else { Seq::<char>::empty() }),
{
}

/// Converting a string or a list of strings into a metadata value and taking
/// all its values back gives what was put in.
pub proof fn lemma_values_of_from(s: String, v: Vec<String>)
    ensures
        (MetadataValue::Single(s))@.values() == seq![s@],
        (MetadataValue::Many(v))@.values() == string_views(v@),
{
}


/// A metadata value is written as a JSON string (`Single`) or as a JSON array
/// with one string item per value, in order (`Many`, of any length): no item
/// is ever written as anything but a JSON string.
pub proof fn lemma_to_json_writes_strings(m: MetadataValueView)
    ensures
        m matches MetadataValueView::Single(s) ==> m.to_json() == JsonValueView::Str(s),
        m matches MetadataValueView::Many(v) ==> {
            &&& m.to_json() matches JsonValueView::Array(items)
            &&& items.len() == v.len()
            &&& forall|i: int| 0 <= i < v.len() ==> #[trigger] items[i] == JsonItemView::Str(v[i])
        },
{
}

/// A JSON string reads as `Single`; a JSON array whose items are all strings,
/// of any length, reads as `Many` of those strings in order; an array with an
/// item that is not a string is refused with `ExpectedStringElement`; `null`
/// and every other value are refused with `ExpectedStringOrArray`.
pub proof fn lemma_decode_metadata_value_cases(json: JsonValueView)
    ensures
        json matches JsonValueView::Str(s) ==> decode_metadata_value(json)
            == Ok::<MetadataValueView, MetadataValueError>(MetadataValueView::Single(s)),
        json matches JsonValueView::Array(items) ==> (
            (forall|i: int| 0 <= i < items.len() ==> #[trigger] items[i] is Str) ==> {
                &&& decode_metadata_value(json) matches Ok(MetadataValueView::Many(v))
                &&& v.len() == items.len()
                &&& forall|i: int| 0 <= i < items.len() ==> #[trigger] items[i] == JsonItemView::Str(v[i])
            }),
        json matches JsonValueView::Array(items) ==> (
            (exists|i: int| 0 <= i < items.len() && #[trigger] items[i] is Other) ==> decode_metadata_value(json)
                == Err::<MetadataValueView, MetadataValueError>(MetadataValueError::ExpectedStringElement)),
        (json is Null || json is Other) ==> decode_metadata_value(json)
            == Err::<MetadataValueView, MetadataValueError>(MetadataValueError::ExpectedStringOrArray),
{
    if let JsonValueView::Array(items) = json {
        if forall|i: int| 0 <= i < items.len() ==> #[trigger] items[i] is Str {
            assert(all_strings(items));
            let v = items.map_values(|it: JsonItemView| it.text());
            assert forall|i: int| 0 <= i < items.len() implies #[trigger] items[i] == JsonItemView::Str(v[i]) by {
                assert(items[i] is Str);
            }
        }
        if exists|i: int| 0 <= i < items.len() && #[trigger] items[i] is Other {
            let k = choose|i: int| 0 <= i < items.len() && #[trigger] items[i] is Other;
            assert(!(items[k] is Str));
            assert(!all_strings(items));
        }
    }
}

/// The single-string form of several values is built by adding `", "` and the
/// next value, for every value however many there are: for a non-empty list,
/// one more value makes the form of the list, then `", "`, then that value.
pub proof fn lemma_lossy_of_one_more_value(v: Seq<Seq<char>>, s: Seq<char>)
    ensures
        MetadataValueView::Many(seq![s]).lossy() == s,
        MetadataValueView::Many(Seq::<Seq<char>>::empty()).lossy() == Seq::<char>::empty(),
        v.len() > 0 ==> MetadataValueView::Many(v.push(s)).lossy()
            == MetadataValueView::Many(v).lossy() + seq![',', ' '] + s,
{
    crate::text::lemma_join_empty_and_single(s, comma_space());
    if v.len() > 0 {
        crate::text::lemma_join_push(v, s, comma_space());
    }
}

impl MetadataValue {
    /// Returns the value as a single string.
    ///
    /// For `Single`, returns the contained string.
    /// For `Many`, joins the values with `", "`.
    pub fn as_str_lossy(&self) -> (s: String)
        ensures
            s@ == self@.lossy(),
    {
        match self {
            MetadataValue::Single(s) => s.clone(),
            MetadataValue::Many(v) => join_comma_space(v),
        }
    }

    /// Returns the first value, regardless of variant.
    pub fn first(&self) -> (s: &str)
        ensures
            s@ == self@.first(),
    {
        proof {
            reveal_strlit("");
        }
        match self {
            MetadataValue::Single(s) => s.as_str(),
            MetadataValue::Many(v) => {
                if v.len() > 0 {
                    v[0].as_str()
                } else {
                    ""
                }
            },
        }
    }

    /// Returns all values as a `Vec<String>`.
    pub fn to_vec(&self) -> (values: Vec<String>)
        ensures
            string_views(values@) == self@.values(),
    {
        match self {
            MetadataValue::Single(s) => {
                let mut values = Vec::new();
                values.push(s.clone());
                assert(string_views(values@) =~= seq![s@]);
                values
            },
            MetadataValue::Many(v) => {
                let values = v.clone();
                assert(values@ =~= v@);
                values
            },
        }
    }


    /// Writes the value in its JSON shape: a string for `Single`, an array of
    /// strings for `Many`.
    pub fn to_json(&self) -> (json: JsonValue)
        ensures
            json@ == self@.to_json(),
    {
        match self {
            MetadataValue::Single(s) => JsonValue::Str(s.clone()),
            MetadataValue::Many(v) => {
                let n = v.len();
                let mut items: Vec<JsonItem> = Vec::new();
                let mut i: usize = 0;
                while i < n
                    invariant
                        n == v@.len(),
                        i <= n,
                        items@.len() == i,
                        forall|j: int| 0 <= j < i ==> #[trigger] items@[j]@ == JsonItemView::Str(v@[j]@),
                    decreases n - i,
                {
                    items.push(JsonItem::Str(v[i].clone()));
                    i = i + 1;
                }
                let json = JsonValue::Array(items);
                assert(item_views(items@) =~= string_views(v@).map_values(|s: Seq<char>| JsonItemView::Str(s)));
                json
            },
        }
    }

    /// Reads a metadata value from a JSON string (`Single`) or a JSON array
    /// of strings (`Many`); any other value is refused.
    pub fn from_json(json: &JsonValue) -> (r: Result<MetadataValue, MetadataValueError>)
        ensures
            match r {
                Ok(m) => decode_metadata_value(json@) == Ok::<MetadataValueView, MetadataValueError>(m@),
                Err(e) => decode_metadata_value(json@) == Err::<MetadataValueView, MetadataValueError>(e),
            },
    {
        match json {
            JsonValue::Str(s) => Ok(MetadataValue::Single(s.clone())),
            JsonValue::Array(items) => {
                let ghost views = item_views(items@);
                let n = items.len();
                let mut values: Vec<String> = Vec::new();
                let mut i: usize = 0;
                while i < n
                    invariant
                        n == items@.len(),
                        views == item_views(items@),
                        json@ == JsonValueView::Array(views),
                        i <= n,
                        values@.len() == i,
                        forall|j: int| 0 <= j < i ==> #[trigger] views[j] is Str,
                        forall|j: int| 0 <= j < i ==> #[trigger] values@[j]@ == views[j].text(),
                    decreases n - i,
                {
                    match &items[i] {
                        JsonItem::Str(s) => {
                            assert(views[i as int] == items@[i as int]@);
                            values.push(s.clone());
                        },
                        JsonItem::Other(_) => {
                            assert(views[i as int] == items@[i as int]@);
                            assert(!all_strings(views));
                            return Err(MetadataValueError::ExpectedStringElement);
                        },
                    }
                    i = i + 1;
                }
                assert(string_views(values@) =~= views.map_values(|it: JsonItemView| it.text()));
                Ok(MetadataValue::Many(values))
            },
            _ => Err(MetadataValueError::ExpectedStringOrArray),
        }
    }

    /// Deserializes a metadata value from a JSON value (one read from serde_json
    /// by [`JsonValue::from_serde`]): a string gives `Single`, an array of
    /// strings gives `Many`, and any other value is refused.
    pub fn deserialize(value: JsonValue) -> (r: Result<MetadataValue, MetadataValueError>)
        ensures
            match r {
                Ok(m) => decode_metadata_value(value@) == Ok::<MetadataValueView, MetadataValueError>(m@),
                Err(e) => decode_metadata_value(value@) == Err::<MetadataValueView, MetadataValueError>(e),
            },
    {
        MetadataValue::from_json(&value)
    }

    /// The value as text: the same string as [`MetadataValue::as_str_lossy`].
    pub fn to_string(&self) -> (s: String)
        ensures
            s@ == self@.lossy(),
    {
        self.as_str_lossy()
    }
}

impl Default for MetadataValue {
    /// A single empty string.
    fn default() -> (v: Self)
        ensures
            v@ == MetadataValueView::Single(Seq::empty()),
    {
        MetadataValue::Single(String::new())
    }
}

impl From<String> for MetadataValue {
    fn from(s: String) -> (v: Self) {
        MetadataValue::Single(s)
    }
}

impl vstd::std_specs::convert::FromSpecImpl<String> for MetadataValue {
    open spec fn obeys_from_spec() -> bool {
        true
    }

    open spec fn from_spec(s: String) -> Self {
        MetadataValue::Single(s)
    }
}

impl From<Vec<String>> for MetadataValue {
    fn from(v: Vec<String>) -> (m: Self) {
        MetadataValue::Many(v)
    }
}

impl vstd::std_specs::convert::FromSpecImpl<Vec<String>> for MetadataValue {
    open spec fn obeys_from_spec() -> bool {
        true
    }

    open spec fn from_spec(v: Vec<String>) -> Self {
        MetadataValue::Many(v)
    }
}

} // verus!
