//! JSON values. A `serde_json::Value` is carried through as it is. The
//! builders read two things of it: its compact text, and its items where it is
//! an array. A reply's text is read into one.

use vstd::prelude::*;

verus! {

#[verifier::external_type_specification]
#[verifier::external_body]
pub struct ExValue(serde_json::Value);

/// The value that `serde_json` reads a text as, and `None` for a text that it
/// refuses.
pub uninterp spec fn json_parsed(text: Seq<char>) -> Option<serde_json::Value>;

/// The compact text of a value, as its `Display` writes it.
pub uninterp spec fn json_text(v: serde_json::Value) -> Seq<char>;

/// The items of a value that is an array, and `None` for any other value.
pub uninterp spec fn json_items(v: serde_json::Value) -> Option<Seq<serde_json::Value>>;

/// `Value::to_string`, which goes through the value's `Display`: the compact
/// serialisation, the same for the same value.
#[verifier::external_body]
pub(crate) fn value_text(v: &serde_json::Value) -> (r: String)
    ensures
        r@ == json_text(*v),
{
    v.to_string()
}

/// `serde_json::from_str` for a `Value`: the value that the text stands for,
/// and nothing where the crate refuses the text. The same text gives the same
/// value.
#[verifier::external_body]
pub(crate) fn parse_value(text: &str) -> (r: Option<serde_json::Value>)
    ensures
        r == json_parsed(text@),
{
    serde_json::from_str::<serde_json::Value>(text).ok()
}

/// `Value::as_array`, the items copied out: `Some` exactly for an array.
#[verifier::external_body]
pub(crate) fn value_items(v: &serde_json::Value) -> (r: Option<Vec<serde_json::Value>>)
    ensures
        match r {
            Some(items) => json_items(*v) == Some(items@),
            None => json_items(*v) is None,
        },
{
    v.as_array().cloned()
}

/// `Value::clone`: a value equal to the one given.
pub assume_specification[ <serde_json::Value as Clone>::clone ](v: &serde_json::Value) -> (r:
    serde_json::Value)
    ensures
        r == *v,
;

/// The compact texts of the items, in order.
pub open spec fn item_texts(items: Seq<serde_json::Value>) -> Seq<Seq<char>> {
    items.map_values(|v: serde_json::Value| json_text(v))
}

/// Whether the value is an array.
pub fn is_array(v: &serde_json::Value) -> (r: bool)
    ensures
        r == (json_items(*v) is Some),
{
    value_items(v).is_some()
}

/// The texts of an array's items: `None` where the value is no array.
pub fn array_texts(v: &serde_json::Value) -> (r: Option<Vec<String>>)
    ensures
        r.deep_view() == match json_items(*v) {
            Some(items) => Some(item_texts(items)),
            None => None,
        },
{
    match value_items(v) {
        None => None,
        Some(items) => {
            let mut texts: Vec<String> = Vec::new();
            let mut i: usize = 0;
            while i < items.len()
                invariant
                    i <= items.len(),
                    texts.len() == i,
                    forall|j: int| 0 <= j < i ==> (#[trigger] texts[j])@ == json_text(items[j]),
                decreases items.len() - i,
            {
                let t = value_text(&items[i]);
                texts.push(t);
                i = i + 1;
            }
            assert(texts.deep_view() =~= item_texts(items@));
            Some(texts)
        },
    }
}

} // verus!
