//! The YAML documents of the catalog, read through `yaml_rust`.
//!
//! `yaml_rust::Yaml` is opaque to the verifier. `yaml_node` names the tree
//! that a `Yaml` value holds, in the shape that this library reads:
//! strings, sequences, and string-keyed mappings; every other node
//! (numbers, booleans, null, aliases, the `BadValue` of a failed lookup)
//! is `Other`.
use vstd::prelude::*;
use yaml_rust::scanner::ScanError;
use yaml_rust::{Yaml, YamlLoader};

verus! {

#[verifier::external_type_specification]
#[verifier::external_body]
pub struct ExYaml(Yaml);

#[verifier::external_type_specification]
#[verifier::external_body]
pub struct ExScanError(ScanError);

/// A YAML node as this library sees it.
pub enum YamlNode {
    /// `Yaml::String`: a scalar that is neither a number, a boolean nor null.
    Text(Seq<char>),
    /// `Yaml::Array`, in document order.
    List(Seq<YamlNode>),
    /// `Yaml::Hash`, restricted to its entries whose key is a string.
    Table(Map<Seq<char>, YamlNode>),
    /// Any other node.
    Other,
}

/// The tree that a `yaml_rust::Yaml` value holds.
pub uninterp spec fn yaml_node(y: Yaml) -> YamlNode;

/// The documents that `YamlLoader::load_from_str` finds in a text, or `None`
/// where it reports a scan error.
pub uninterp spec fn yaml_documents(text: Seq<char>) -> Option<Seq<YamlNode>>;

/// The value under a string key, as `Index<&str>` for `Yaml` gives it:
/// `Other` (its `BadValue`) when the node is no mapping or lacks the key.
pub open spec fn node_field(node: YamlNode, key: Seq<char>) -> YamlNode {
    match node {
        YamlNode::Table(m) => if m.contains_key(key) {
            m[key]
        } else {
            YamlNode::Other
        },
        _ => YamlNode::Other,
    }
}

/// Relies on `YamlLoader::load_from_str`: the documents of the text in order,
/// or its scan error.
#[verifier::external_body]
pub(crate) fn load_yaml(text: &str) -> (r: Result<Vec<Yaml>, ScanError>)
    ensures
        match r {
            Ok(docs) => yaml_documents(text@) == Some(docs@.map_values(|d: Yaml| yaml_node(d))),
            Err(_) => yaml_documents(text@) is None,
        },
{
    YamlLoader::load_from_str(text)
}

/// Relies on `Index<&str> for Yaml`: the value under `key` in a mapping,
/// `BadValue` otherwise.
#[verifier::external_body]
pub(crate) fn yaml_field<'a>(y: &'a Yaml, key: &str) -> (r: &'a Yaml)
    ensures
        yaml_node(*r) == node_field(yaml_node(*y), key@),
{
    &y[key]
}

/// Relies on `Yaml::as_str`: the string of a `Yaml::String`, `None` otherwise.
#[verifier::external_body]
pub(crate) fn yaml_as_str(y: &Yaml) -> (r: Option<&str>)
    ensures
        match r {
            Some(s) => yaml_node(*y) == YamlNode::Text(s@),
            None => !(yaml_node(*y) is Text),
        },
{
    y.as_str()
}

/// Relies on `Yaml::as_vec`: the items of a `Yaml::Array`, `None` otherwise.
#[verifier::external_body]
pub(crate) fn yaml_as_vec(y: &Yaml) -> (r: Option<&Vec<Yaml>>)
    ensures
        match r {
            Some(v) => yaml_node(*y) == YamlNode::List(v@.map_values(|e: Yaml| yaml_node(e))),
            None => !(yaml_node(*y) is List),
        },
{
    y.as_vec()
}

} // verus!
