//! Trusted boundary to the JSON serializer.
//!
//! Model mappings and plugin lists are embedded into artifacts as JSON
//! fragments. The serializer is the `serde_json` crate; what it produces for
//! a given sequence of entries is deterministic, so the results are named by
//! the two uninterpreted functions below and contracts elsewhere speak of
//! those names.

use vstd::prelude::*;

verus! {

/// The JSON object text that the serializer produces for these entries.
pub uninterp spec fn json_object_of(entries: Seq<(Seq<char>, Seq<char>)>) -> Seq<char>;

/// The JSON array text that the serializer produces for these strings.
pub uninterp spec fn json_array_of(items: Seq<Seq<char>>) -> Seq<char>;

/// The views of a sequence of string pairs.
pub open spec fn spec_pairs_view(s: Seq<(String, String)>) -> Seq<(Seq<char>, Seq<char>)> {
    s.map_values(|p: (String, String)| (p.0@, p.1@))
}

/// The views of a sequence of strings.
pub open spec fn spec_strings_view(s: Seq<String>) -> Seq<Seq<char>> {
    s.map_values(|x: String| x@)
}

/// Relies on `serde_json::to_string` over a `Value::Object` with string
/// values: serializing an object cannot fail, an empty object serializes to
/// `{}`, and the text depends on the entries alone.
#[verifier::external_body]
pub fn json_of_string_map(entries: &Vec<(String, String)>) -> (r: String)
    ensures
        r@ == json_object_of(spec_pairs_view(entries@)),
        entries@.len() == 0 ==> r@ == "{}"@,
{
    let mut m = serde_json::Map::new();
    for (k, v) in entries.iter() {
        m.insert(k.clone(), serde_json::Value::String(v.clone()));
    }
    serde_json::to_string(&serde_json::Value::Object(m)).unwrap_or_default()
}

/// Relies on `serde_json::to_string` over a `Value::Array` of strings:
/// serializing such an array cannot fail, an empty array serializes to `[]`,
/// and the text depends on the items alone.
#[verifier::external_body]
pub fn json_of_string_list(items: &Vec<String>) -> (r: String)
    ensures
        r@ == json_array_of(spec_strings_view(items@)),
        items@.len() == 0 ==> r@ == "[]"@,
{
    let values: Vec<serde_json::Value> = items.iter().map(
        |s| serde_json::Value::String(s.clone()),
    ).collect();
    serde_json::to_string(&serde_json::Value::Array(values)).unwrap_or_default()
}

} // verus!
