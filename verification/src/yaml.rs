//! Trusted boundary to the YAML parser.
//!
//! The document's serialization format is handled by the `serde_yaml` crate.
//! The one wrapper here parses a text and hands the result over as a
//! [`YamlNode`]: a tree of plain values that verified code can take apart.
//! What a given text parses to is a function of the text alone, so the
//! result is named by the uninterpreted [`yaml_tree_of`]; every contract
//! about parsing speaks of that name, and everything after the parse is
//! verified.

use vstd::prelude::*;

verus! {

/// A parsed document: a tree of plain values.
///
/// Tagged values are unwrapped to the value they tag; mapping keys are kept
/// as nodes, so what to make of a non-string key is the reader's (verified)
/// decision.
#[derive(Debug)]
pub enum YamlNode {
    /// The null scalar.
    Null,
    /// A boolean scalar.
    Bool(bool),
    /// A numeric scalar, carried as its display text.
    Num(String),
    /// A string scalar.
    Str(String),
    /// A sequence.
    List(Vec<YamlNode>),
    /// A mapping, in document order.
    Mapping(Vec<(YamlNode, YamlNode)>),
}

/// The tree that a text parses to: `Some` exactly for well-formed YAML.
pub uninterp spec fn yaml_tree_of(text: Seq<char>) -> Option<YamlNode>;

/// The parser's own value type (`serde_yaml::Value`), declared so the
/// conversion below can take it; it never crosses into verified code.
#[verifier::external_type_specification]
#[verifier::external_body]
pub struct ExYamlValue(serde_yaml::Value);

/// One node of the parsed value, moved into a [`YamlNode`]: one arm per
/// variant, fields moved, tagged values unwrapped.
#[verifier::external_body]
fn node_of_value(v: serde_yaml::Value) -> YamlNode {
    match v {
        serde_yaml::Value::Null => YamlNode::Null,
        serde_yaml::Value::Bool(b) => YamlNode::Bool(b),
        serde_yaml::Value::Number(n) => YamlNode::Num(n.to_string()),
        serde_yaml::Value::String(s) => YamlNode::Str(s),
        serde_yaml::Value::Sequence(items) => YamlNode::List(
            items.into_iter().map(node_of_value).collect(),
        ),
        serde_yaml::Value::Mapping(m) => YamlNode::Mapping(
            m.into_iter().map(|(k, val)| (node_of_value(k), node_of_value(val))).collect(),
        ),
        serde_yaml::Value::Tagged(t) => node_of_value(t.value),
    }
}

/// Relies on `serde_yaml::from_str::<Value>`: the parse of a document is a
/// function of its text alone, `Some` exactly for well-formed YAML.
#[verifier::external_body]
pub fn yaml_parse_tree(text: &str) -> (r: Option<YamlNode>)
    ensures
        r == yaml_tree_of(text@),
{
    match serde_yaml::from_str::<serde_yaml::Value>(text) {
        Ok(v) => Some(node_of_value(v)),
        Err(_) => None,
    }
}

} // verus!
