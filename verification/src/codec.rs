//! The wire codec: one JSON value per line. Serialization and parsing are
//! done by serde_json behind the trusted items of this module; everything
//! that reads or builds a document is verified code elsewhere.
//!
//! Two names stand for what serde_json computes: `text_of` for the compact
//! text that serialization produces from a document's model, and `parse_of`
//! for the outcome of parsing one line. The one fact linking them, stated on
//! the encoder, is that a well-formed document parses back to its own model:
//! serde_json documents that its compact output is valid JSON and that
//! parsing it restores the same value, and the conversions on either side of
//! the calls below are inverse to one another on well-formed documents.

use vstd::prelude::*;
use crate::wire::{Doc, Node, NodeModel, Scalar, wf_doc};

verus! {

#[verifier::external_type_specification]
#[verifier::external_body]
pub struct ExValue(serde_json::Value);

/// What parsing one line yields: not JSON at all, a JSON value that is not
/// an object, or a document.
#[derive(Debug, PartialEq)]
pub enum ParsedLine {
    Invalid,
    NonDoc,
    Doc(Doc),
}

/// The model of a parse outcome.
pub enum ParseOutcome {
    Invalid,
    NonDoc,
    Doc(Map<Seq<char>, NodeModel>),
}

impl View for ParsedLine {
    type V = ParseOutcome;

    open spec fn view(&self) -> ParseOutcome {
        match self {
            ParsedLine::Invalid => ParseOutcome::Invalid,
            ParsedLine::NonDoc => ParseOutcome::NonDoc,
            ParsedLine::Doc(d) => ParseOutcome::Doc(d@),
        }
    }
}

/// The outcome of parsing a line of text as JSON. It is a function of the
/// text alone: serde_json parses deterministically.
pub uninterp spec fn parse_of(s: Seq<char>) -> ParseOutcome;

/// The compact text that serializing a document produces. It is a function
/// of the document's model alone: field order cannot show through, because
/// serde_json's object holds its entries sorted by key, and the kinds whose
/// values the model drops are serialized as null.
pub uninterp spec fn text_of(d: Map<Seq<char>, NodeModel>) -> Seq<char>;

#[verifier::external_body]
fn scalar_from_value(v: serde_json::Value) -> Scalar {
    match v {
        serde_json::Value::Null => Scalar::Null,
        serde_json::Value::Bool(b) => Scalar::Bool(b),
        serde_json::Value::Number(n) => match (n.as_u64(), n.as_i64()) {
            (Some(u), _) => Scalar::UInt(u),
            (None, Some(i)) => Scalar::Int(i),
            _ => Scalar::Float,
        },
        serde_json::Value::String(s) => Scalar::Text(s),
        _ => Scalar::Nested,
    }
}

#[verifier::external_body]
fn node_from_value(v: serde_json::Value) -> Node {
    match v {
        serde_json::Value::Array(items) => {
            Node::Arr(items.into_iter().map(|it| scalar_from_value(it)).collect())
        },
        serde_json::Value::Object(m) => {
            Node::Obj(m.into_iter().map(|(k, it)| (k, scalar_from_value(it))).collect())
        },
        other => Node::Prim(scalar_from_value(other)),
    }
}

/// Relies on serde_json::from_str: parsing is deterministic in the text, an
/// object's entries come back sorted with a later duplicate key winning, and
/// a number is an integer exactly when it fits i64 or u64.
#[verifier::external_body]
pub fn parse_line(line: &str) -> (r: ParsedLine)
    ensures
        r@ == parse_of(line@),
{
    let v: serde_json::Value = match serde_json::from_str(line) {
        Ok(v) => v,
        Err(_) => return ParsedLine::Invalid,
    };
    let m = match v {
        serde_json::Value::Object(m) => m,
        _ => return ParsedLine::NonDoc,
    };
    let mut fields: Vec<(String, Node)> = Vec::new();
    for (k, inner) in m {
        fields.push((k, node_from_value(inner)));
    }
    ParsedLine::Doc(Doc { fields })
}

#[verifier::external_body]
fn value_of_scalar(s: &Scalar) -> serde_json::Value {
    match s {
        Scalar::Null | Scalar::Float | Scalar::Nested => serde_json::Value::Null,
        Scalar::Bool(b) => serde_json::Value::Bool(*b),
        Scalar::Int(i) => serde_json::Value::from(*i),
        Scalar::UInt(u) => serde_json::Value::from(*u),
        Scalar::Milli(m) => serde_json::from_str(&format!("{}.{:03}", m / 1000, m % 1000)).unwrap(),
        Scalar::Text(t) => serde_json::Value::String(t.clone()),
    }
}

#[verifier::external_body]
fn value_of_node(n: &Node) -> serde_json::Value {
    match n {
        Node::Prim(s) => value_of_scalar(s),
        Node::Arr(elems) => {
            serde_json::Value::Array(elems.iter().map(|e| value_of_scalar(e)).collect())
        },
        Node::Obj(fields) => {
            serde_json::Value::Object(
                fields.iter().map(|(k, s)| (k.clone(), value_of_scalar(s))).collect(),
            )
        },
    }
}

/// Relies on serde_json::to_string on a Value built from the document: the
/// compact form carries no raw newline (newlines inside strings are escaped),
/// and parsing the text of a well-formed document restores its model.
#[verifier::external_body]
pub fn encode_doc(d: &Doc) -> (r: String)
    ensures
        r@ == text_of(d@),
        wf_doc(d@) ==> parse_of(r@) == ParseOutcome::Doc(d@),
        forall|i: int| 0 <= i < r@.len() ==> r@[i] != '\n',
{
    let mut m = serde_json::Map::new();
    for (k, n) in d.fields.iter() {
        m.insert(k.clone(), value_of_node(n));
    }
    serde_json::to_string(&serde_json::Value::Object(m)).unwrap()
}

} // verus!
