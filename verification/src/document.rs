//! Structured documents as the outside parsers hand them over. A parsed
//! value stays in the parser's own type; what it holds is described by a
//! mathematical tree, and the accessors say how each read relates to it.

use vstd::prelude::*;

verus! {

/// What a document value holds.
pub ghost enum Node {
    /// A string.
    Text(Seq<char>),
    /// An integer.
    Integer(int),
    /// A floating-point number, by the bits of its 64-bit encoding.
    Real(u64),
    /// A boolean.
    Flag(bool),
    /// A date or time; its parts are never read.
    Moment,
    /// An ordered list of values.
    List(Seq<Node>),
    /// A table from keys to values.
    Record(Map<Seq<char>, Node>),
}

/// The value under `key` where `node` is a table (of finitely many keys)
/// that has the key.
pub open spec fn node_field(node: Node, key: Seq<char>) -> Option<Node> {
    match node {
        Node::Record(entries) => if entries.dom().finite() && entries.dom().contains(key) {
            Some(entries[key])
        } else {
            None
        },
        _ => None,
    }
}

#[verifier::external_type_specification]
#[verifier::external_body]
pub struct ExTomlValue(toml::Value);

/// What a TOML value holds.
pub uninterp spec fn toml_node(value: toml::Value) -> Node;

/// What the TOML parser makes of a document text: the tree of its root
/// table, or the parser's message where the text is not a document.
pub uninterp spec fn toml_parsed(text: Seq<char>) -> Result<Node, Seq<char>>;

/// `toml::from_str` at `toml::Value`, the error rendered with its `Display`
/// form. The outcome is a function of the text alone: the value handed back
/// holds the tree named by `toml_parsed`, and an error carries the named
/// message.
#[verifier::external_body]
pub(crate) fn toml_parse(text: &str) -> (parsed: Result<toml::Value, String>)
    ensures
        match (parsed, toml_parsed(text@)) {
            (Ok(value), Ok(node)) => toml_node(value) == node,
            (Err(message), Err(expected)) => message@ == expected,
            _ => false,
        },
{
    toml::from_str::<toml::Value>(text).map_err(|e| e.to_string())
}

/// `toml::Value::as_str`: the string of a string value, `None` for every
/// other kind of value.
#[verifier::external_body]
pub(crate) fn toml_text(value: &toml::Value) -> (text: Option<&str>)
    ensures
        match text {
            Some(s) => toml_node(*value) == Node::Text(s@),
            None => !(toml_node(*value) is Text),
        },
{
    value.as_str()
}

/// `toml::Value::as_integer`: the number of an integer value, `None` for
/// every other kind of value.
#[verifier::external_body]
pub(crate) fn toml_integer(value: &toml::Value) -> (number: Option<i64>)
    ensures
        match number {
            Some(i) => toml_node(*value) == Node::Integer(i as int),
            None => !(toml_node(*value) is Integer),
        },
{
    value.as_integer()
}

/// `toml::Value::as_float`, handed on as the bits of the number: `None` for
/// every kind of value but a float.
#[verifier::external_body]
pub(crate) fn toml_real(value: &toml::Value) -> (bits: Option<u64>)
    ensures
        match bits {
            Some(b) => toml_node(*value) == Node::Real(b),
            None => !(toml_node(*value) is Real),
        },
{
    value.as_float().map(|x| x.to_bits())
}

/// `toml::Value::as_bool`: the truth value of a boolean, `None` for every
/// other kind of value.
#[verifier::external_body]
pub(crate) fn toml_flag(value: &toml::Value) -> (flag: Option<bool>)
    ensures
        match flag {
            Some(b) => toml_node(*value) == Node::Flag(b),
            None => !(toml_node(*value) is Flag),
        },
{
    value.as_bool()
}

/// `toml::Value::as_array`: the items of an array in their order, `None`
/// for every other kind of value.
#[verifier::external_body]
pub(crate) fn toml_list(value: &toml::Value) -> (items: Option<&Vec<toml::Value>>)
    ensures
        match items {
            Some(list) => toml_node(*value) matches Node::List(nodes) && nodes.len() == list@.len()
                && forall|i: int| 0 <= i < nodes.len() ==> toml_node(#[trigger] list@[i]) == nodes[i],
            None => !(toml_node(*value) is List),
        },
{
    value.as_array()
}

/// `toml::Value::get` with a string index: the value under `key` where
/// `value` is a table that has the key, `None` in every other case.
#[verifier::external_body]
pub(crate) fn toml_get<'a>(value: &'a toml::Value, key: &str) -> (found: Option<&'a toml::Value>)
    ensures
        match found {
            Some(inner) => node_field(toml_node(*value), key@) == Some(toml_node(*inner)),
            None => node_field(toml_node(*value), key@) is None,
        },
{
    value.get(key)
}

#[verifier::external_type_specification]
#[verifier::external_body]
pub struct ExJsonValue(serde_json::Value);

/// What a JSON value holds.
pub uninterp spec fn json_node(value: serde_json::Value) -> Node;

/// What the JSON parser makes of a text: the tree of the value, or the
/// parser's message where the text is not JSON.
pub uninterp spec fn json_parsed(text: Seq<char>) -> Result<Node, Seq<char>>;

/// `serde_json::from_str` at `serde_json::Value`, the error rendered with
/// its `Display` form. The outcome is a function of the text alone: the
/// value handed back holds the tree named by `json_parsed`, and an error
/// carries the named message.
#[verifier::external_body]
pub(crate) fn json_parse(text: &str) -> (parsed: Result<serde_json::Value, String>)
    ensures
        match (parsed, json_parsed(text@)) {
            (Ok(value), Ok(node)) => json_node(value) == node,
            (Err(message), Err(expected)) => message@ == expected,
            _ => false,
        },
{
    serde_json::from_str::<serde_json::Value>(text).map_err(|e| e.to_string())
}

/// `serde_json::Value::as_str`: the string of a string value, `None` for
/// every other kind of value.
#[verifier::external_body]
pub(crate) fn json_text(value: &serde_json::Value) -> (text: Option<&str>)
    ensures
        match text {
            Some(s) => json_node(*value) == Node::Text(s@),
            None => !(json_node(*value) is Text),
        },
{
    value.as_str()
}

/// `serde_json::Value::as_array`: the items of an array in their order,
/// `None` for every other kind of value.
#[verifier::external_body]
pub(crate) fn json_list(value: &serde_json::Value) -> (items: Option<&Vec<serde_json::Value>>)
    ensures
        match items {
            Some(list) => json_node(*value) matches Node::List(nodes) && nodes.len() == list@.len()
                && forall|i: int| 0 <= i < nodes.len() ==> json_node(#[trigger] list@[i]) == nodes[i],
            None => !(json_node(*value) is List),
        },
{
    value.as_array()
}

/// `serde_json::Value::get` with a string index: the value under `key`
/// where `value` is an object that has the key, `None` in every other case.
#[verifier::external_body]
pub(crate) fn json_get<'a>(value: &'a serde_json::Value, key: &str) -> (found: Option<
    &'a serde_json::Value,
>)
    ensures
        match found {
            Some(inner) => node_field(json_node(*value), key@) == Some(json_node(*inner)),
            None => node_field(json_node(*value), key@) is None,
        },
{
    value.get(key)
}

} // verus!
