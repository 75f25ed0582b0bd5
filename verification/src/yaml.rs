//! Reading YAML text into a [`Document`].
//!
//! The parser is `serde_yaml`. Its values are opaque here: the functions of
//! this module copy what the parser produced, node by node, into a
//! [`Document`].

use crate::document::{entries_view, lemma_mapping_view, Document, Node};
use vstd::prelude::*;

verus! {

/// `serde_yaml::Value`, a parsed YAML value. Nothing inside it is visible
/// here; [`yaml_tree`] names the document it holds.
#[verifier::external_type_specification]
#[verifier::external_body]
pub struct ExYamlValue(serde_yaml::Value);

/// `serde_yaml::Error`, why the parser rejected a text. Nothing is read of
/// it.
#[verifier::external_type_specification]
#[verifier::external_body]
pub struct ExYamlError(serde_yaml::Error);

/// The document that a `serde_yaml::Value` holds: `Text` for a string,
/// `Mapping` with the entries in insertion order for a mapping, `Other` for
/// every other variant.
pub uninterp spec fn yaml_tree(value: serde_yaml::Value) -> Node;

/// The document that `serde_yaml::from_str` reads from a text, `None` where
/// it rejects the text.
pub uninterp spec fn parsed_yaml(text: Seq<char>) -> Option<Node>;

/// Calls `serde_yaml::from_str` for a `serde_yaml::Value`.
///
/// Trusted: the parser is a function of the text alone, so what it returns is
/// what [`parsed_yaml`] names.
#[verifier::external_body]
fn parse_value(text: &str) -> (r: Result<serde_yaml::Value, serde_yaml::Error>)
    ensures
        r matches Ok(value) ==> parsed_yaml(text@) == Some(yaml_tree(value)),
        r is Err ==> parsed_yaml(text@) is None,
{
    serde_yaml::from_str::<serde_yaml::Value>(text)
}

/// Calls `serde_yaml::Value::as_str`.
///
/// Trusted: it returns the string of a `Value::String` and `None` for every
/// other variant.
#[verifier::external_body]
fn value_text(value: &serde_yaml::Value) -> (r: Option<&str>)
    ensures
        r matches Some(s) ==> yaml_tree(*value) == Node::Text(s@),
        r is None ==> !(yaml_tree(*value) is Text),
{
    value.as_str()
}

/// The documents that a list of borrowed entries holds, entry by entry.
pub open spec fn entry_trees(pairs: Seq<(&serde_yaml::Value, &serde_yaml::Value)>) -> Seq<
    (Node, Node),
> {
    Seq::new(pairs.len(), |i: int| (yaml_tree(*pairs[i].0), yaml_tree(*pairs[i].1)))
}

/// Calls `serde_yaml::Value::as_mapping` and collects what
/// `serde_yaml::Mapping::iter` yields.
///
/// Trusted: `as_mapping` returns the mapping of a `Value::Mapping` and `None`
/// for every other variant; `iter` visits every entry once, in insertion
/// order.
#[verifier::external_body]
fn value_entries(value: &serde_yaml::Value) -> (r: Option<
    Vec<(&serde_yaml::Value, &serde_yaml::Value)>,
>)
    ensures
        r matches Some(pairs) ==> yaml_tree(*value) == Node::Mapping(entry_trees(pairs@)),
        r is None ==> !(yaml_tree(*value) is Mapping),
{
    value.as_mapping().map(|mapping| mapping.iter().collect())
}

/// Copies a parsed value into a document.
pub fn document_of(value: &serde_yaml::Value) -> (r: Document)
    ensures
        r@ == yaml_tree(*value),
    decreases yaml_tree(*value),
{
    if let Some(s) = value_text(value) {
        return Document::Text(String::from_str(s));
    }
    match value_entries(value) {
        None => Document::Other,
        Some(pairs) => {
            let ghost entries = entry_trees(pairs@);
            let mut copied: Vec<(Document, Document)> = Vec::new();
            let mut i: usize = 0;
            while i < pairs.len()
                invariant
                    i <= pairs.len(),
                    copied.len() == i,
                    entries == entry_trees(pairs@),
                    yaml_tree(*value) == Node::Mapping(entries),
                    forall|j: int|
                        0 <= j < i ==> ((#[trigger] copied@[j]).0@, copied@[j].1@) == entries[j],
                decreases pairs.len() - i,
            {
                proof {
                    let under = yaml_tree(*value)->Mapping_0;
                    assert(decreases_to!(yaml_tree(*value) => under));
                    assert(decreases_to!(under => under[i as int]));
                    assert(decreases_to!(under[i as int] => under[i as int].0));
                    assert(decreases_to!(under[i as int] => under[i as int].1));
                    assert(under[i as int] == (
                        yaml_tree(*pairs@[i as int].0),
                        yaml_tree(*pairs@[i as int].1),
                    ));
                }
                let key = document_of(pairs[i].0);
                let value_copy = document_of(pairs[i].1);
                copied.push((key, value_copy));
                i += 1;
            }
            proof {
                lemma_mapping_view(copied);
                assert(entries_view(copied@) =~= entries);
            }
            Document::Mapping(copied)
        },
    }
}

/// Parses YAML text into a document; `None` where the text is not
/// well-formed YAML.
pub fn parse_document(text: &str) -> (r: Option<Document>)
    ensures
        r matches Some(document) ==> parsed_yaml(text@) == Some(document@),
        r is None ==> parsed_yaml(text@) is None,
{
    match parse_value(text) {
        Ok(value) => Some(document_of(&value)),
        Err(_) => None,
    }
}

} // verus!
