//! The parsed document, reduced to the shapes the schema can hold, and the
//! trusted boundary to the TOML parser that produces it.

use vstd::prelude::*;

verus! {

/// One value of the source document: a string, a table with its entries in
/// source order, or any other value (which the schema always rejects).
#[derive(Debug, PartialEq, Eq)]
pub enum Node {
    Str(String),
    Table(Vec<(String, Node)>),
    Other,
}

/// What TOML parsing yields on a given text: `None` when the text is not
/// well-formed TOML, otherwise the top-level table reduced to `Node`s.
pub uninterp spec fn toml_of(s: Seq<char>) -> Option<Node>;

#[verifier::external_type_specification]
#[verifier::external_body]
pub struct ExTomlValue(toml::Value);

/// Relies on `toml::Value`: moves each variant one-for-one into `Node` —
/// strings and tables keep their content (table entries in order, the crate
/// being built with `preserve_order`); every other variant becomes
/// `Node::Other`.
#[verifier::external_body]
fn convert_value(v: toml::Value) -> Node {
    match v {
        toml::Value::String(s) => Node::Str(s),
        toml::Value::Table(t) => Node::Table(
            t.into_iter().map(|(k, inner)| (k, convert_value(inner))).collect(),
        ),
        _ => Node::Other,
    }
}

/// Relies on `toml::Table::from_str`: parses the text as TOML, a function of
/// the text alone; success yields the top-level table.
#[verifier::external_body]
pub(crate) fn parse_toml(s: &str) -> (r: Result<Node, String>)
    ensures
        r matches Ok(doc) ==> toml_of(s@) == Some(doc) && doc is Table,
        r is Err ==> toml_of(s@) is None,
        toml_of(s@) is None ==> r is Err,
{
    match s.parse::<toml::Table>() {
        Ok(t) => Ok(convert_value(toml::Value::Table(t))),
        Err(e) => Err(e.to_string()),
    }
}

} // verus!
