//! The parsed configuration tree, as the `toml` crate hands it out, and the
//! few operations on it that credential loading needs.
//!
//! A `toml::Value` is opaque to the verifier. Its contents are described by
//! [`Node`]: a string leaf, a table of named children, or any other kind of
//! value (number, boolean, date, array), which this library never reads.

use vstd::prelude::*;

verus! {

#[verifier::external_type_specification]
#[verifier::external_body]
pub struct ExValue(toml::Value);

#[verifier::external_type_specification]
#[verifier::external_body]
pub struct ExDeError(toml::de::Error);

/// What a configuration value holds, as far as credential loading reads it.
pub enum Node {
    /// A string value.
    Text(Seq<char>),
    /// A table, from key to child value.
    Table(Map<Seq<char>, Node>),
    /// Any value that is neither a string nor a table.
    Other,
}

/// The contents of a `toml::Value`.
pub uninterp spec fn value_model(v: toml::Value) -> Node;

/// The tree that a TOML document parses to, or `None` when the text is not
/// valid TOML.
pub uninterp spec fn document_of(text: Seq<char>) -> Option<Node>;

/// Relies on `toml::from_str` (through `FromStr for toml::Table`): parses a
/// whole document into its top-level table, or fails on text that is not TOML.
#[verifier::external_body]
pub(crate) fn parse_document(text: &str) -> (r: Result<toml::Value, toml::de::Error>)
    ensures
        r is Ok <==> document_of(text@) is Some,
        r is Ok ==> value_model(r->Ok_0) == document_of(text@)->0,
        r is Ok ==> value_model(r->Ok_0) is Table,
{
    text.parse::<toml::Table>().map(toml::Value::Table)
}

/// Relies on `toml::Value::get` with a string index: the child under `key`
/// when the value is a table that has it, and `None` otherwise.
#[verifier::external_body]
pub(crate) fn value_get<'a>(v: &'a toml::Value, key: &str) -> (r: Option<&'a toml::Value>)
    ensures
        r is Some <==> (value_model(*v) is Table && value_model(*v)->Table_0.contains_key(key@)),
        r is Some ==> value_model(*r->0) == value_model(*v)->Table_0[key@],
{
    v.get(key)
}

/// Relies on `toml::Value::as_str`: the text of a string value, and `None`
/// for any other kind of value.
#[verifier::external_body]
pub(crate) fn value_as_string(v: &toml::Value) -> (r: Option<String>)
    ensures
        r is Some <==> value_model(*v) is Text,
        r is Some ==> r->0@ == value_model(*v)->Text_0,
{
    v.as_str().map(String::from)
}

/// Relies on the `Clone` impl that `toml::Value` derives: the copy holds the
/// same contents.
pub assume_specification[ <toml::Value as Clone>::clone ](v: &toml::Value) -> (r: toml::Value)
    ensures
        value_model(r) == value_model(*v),
;

/// The child of a table under `key`; `None` when the node is not a table or
/// has no such key.
pub open spec fn child(n: Node, key: Seq<char>) -> Option<Node> {
    match n {
        Node::Table(m) => if m.contains_key(key) {
            Some(m[key])
        } else {
            None
        },
        _ => None,
    }
}

/// The string under `key` in a table; `None` when there is no such child or
/// it is not a string.
pub open spec fn text_at(n: Node, key: Seq<char>) -> Option<Seq<char>> {
    match child(n, key) {
        Some(Node::Text(t)) => Some(t),
        _ => None,
    }
}

/// Looks up the string stored under `key` in a table value.
pub fn lookup_text(v: &toml::Value, key: &str) -> (r: Option<String>)
    ensures
        r matches Some(s) ==> text_at(value_model(*v), key@) == Some(s@),
        r is None ==> text_at(value_model(*v), key@) is None,
{
    match value_get(v, key) {
        Some(c) => value_as_string(c),
        None => None,
    }
}

} // verus!
