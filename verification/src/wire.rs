//! The wire tree: a JSON-shaped node model the codec encodes values into,
//! plus the trusted bridge between that tree and JSON text.
//!
//! The tree distinguishes the three number shapes the wire can carry: a
//! signed 64-bit integer, an unsigned integer beyond the signed range, and a
//! float (held as the `serde_json::Number` that represents it). Text
//! parsing and rendering are delegated to `serde_json`; everything the codec
//! states and proves is over the tree.

use vstd::prelude::*;

use serde_json::Number;
use serde_json::Value;

verus! {

broadcast use vstd::std_specs::vec::axiom_vec_index_decreases;

/// Declares `serde_json::Value` so the trusted bridge can name it.
#[verifier::external_type_specification]
#[verifier::external_body]
pub struct ExSerdeValue(serde_json::Value);

/// Declares `serde_json::Number` so float payloads can be carried opaquely.
#[verifier::external_type_specification]
#[verifier::external_body]
pub struct ExSerdeNumber(serde_json::Number);


/// Relies on `serde_json::Number`'s derived `Clone`: cloning yields an equal
/// number value.
pub assume_specification[ <serde_json::Number as Clone>::clone ](n: &serde_json::Number) -> (r:
    serde_json::Number)
    ensures
        r == *n,
;

/// One key/value entry of a wire object. Entries built by the encoder keep
/// their insertion order; entries of a parsed object arrive in the JSON
/// map's iteration order, which sorts keys.
#[derive(Debug)]
pub struct Entry {
    /// The object key.
    pub key: String,
    /// The value under that key.
    pub value: JsonValue,
}

/// One node of the wire tree.
#[derive(Debug)]
pub enum JsonValue {
    /// The wire's `null`.
    Null,
    /// A wire boolean.
    Bool(bool),
    /// A wire number that fits a signed 64-bit integer.
    Int(i64),
    /// A wire integer above `i64::MAX`, fitting an unsigned 64-bit integer.
    Uint(u64),
    /// Any other wire number, held as the number value itself.
    Float(serde_json::Number),
    /// A wire string.
    Text(String),
    /// A wire array.
    Arr(Vec<JsonValue>),
    /// A wire object: ordered string-keyed entries.
    Obj(Vec<Entry>),
}

/// The mathematical model of a wire node.
pub enum WireModel {
    /// Model of `JsonValue::Null`.
    Null,
    /// Model of `JsonValue::Bool`.
    Bool(bool),
    /// Model of `JsonValue::Int`.
    Int(i64),
    /// Model of `JsonValue::Uint`.
    Uint(u64),
    /// Model of `JsonValue::Float`.
    Float(serde_json::Number),
    /// Model of `JsonValue::Text`.
    Text(Seq<char>),
    /// Model of `JsonValue::Arr`.
    Arr(Seq<WireModel>),
    /// Model of `JsonValue::Obj`.
    Obj(Seq<(Seq<char>, WireModel)>),
}

/// The model of one wire node.
pub open spec fn wmodel(w: JsonValue) -> WireModel
    decreases w,
{
    match w {
        JsonValue::Null => WireModel::Null,
        JsonValue::Bool(b) => WireModel::Bool(b),
        JsonValue::Int(i) => WireModel::Int(i),
        JsonValue::Uint(u) => WireModel::Uint(u),
        JsonValue::Float(n) => WireModel::Float(n),
        JsonValue::Text(s) => WireModel::Text(s@),
        JsonValue::Arr(xs) => WireModel::Arr(wmodel_seq(xs)),
        JsonValue::Obj(es) => WireModel::Obj(wmodel_entries(es)),
    }
}

/// The models of a vector of wire nodes, in order.
pub open spec fn wmodel_seq(xs: Vec<JsonValue>) -> Seq<WireModel>
    decreases xs,
{
    Seq::new(xs@.len(), |i: int| if 0 <= i < xs@.len() { wmodel(xs[i]) } else { WireModel::Null })
}

/// The models of a vector of object entries, in order.
pub open spec fn wmodel_entries(es: Vec<Entry>) -> Seq<(Seq<char>, WireModel)>
    decreases es,
{
    Seq::new(es@.len(), |i: int| if 0 <= i < es@.len() { (es[i].key@, wmodel(es[i].value)) } else { (Seq::empty(), WireModel::Null) })
}

impl View for JsonValue {
    type V = WireModel;

    open spec fn view(&self) -> WireModel {
        wmodel(*self)
    }
}

/// The value under the first entry whose key is `key`, if any.
pub open spec fn obj_get(es: Seq<(Seq<char>, WireModel)>, key: Seq<char>) -> Option<WireModel>
    decreases es.len(),
{
    if es.len() == 0 {
        None
    } else if es[0].0 == key {
        Some(es[0].1)
    } else {
        obj_get(es.drop_first(), key)
    }
}

/// The wire tree that JSON text `s` parses to, or `None` where the text is
/// not valid JSON. A function of the text alone.
pub uninterp spec fn wire_parse(s: Seq<char>) -> Option<WireModel>;

/// The JSON text a wire tree renders to. A function of the tree alone.
pub uninterp spec fn wire_text(w: WireModel) -> Seq<char>;

/// Relies on `serde_json::from_str::<serde_json::Value>`: parses JSON text
/// into a tree, or fails exactly on malformed JSON; the result is a function
/// of the text alone. The error case carries serde's message.
#[verifier::external_body]
pub fn parse_wire(s: &str) -> (r: Result<JsonValue, String>)
    ensures
        (r is Ok <==> wire_parse(s@) is Some),
        (r matches Ok(j) ==> wire_parse(s@) == Some(j@)),
{
    match serde_json::from_str::<serde_json::Value>(s) {
        Ok(v) => Ok(from_serde(v)),
        Err(e) => Err(e.to_string()),
    }
}

/// Relies on `serde_json::to_string`: renders a JSON tree to text, a function
/// of the tree alone. Serializing a JSON tree cannot fail: its keys are
/// strings and its `Serialize` impl never errors.
#[verifier::external_body]
pub fn write_wire(w: &JsonValue) -> (r: Result<String, String>)
    ensures
        r is Ok,
        (r matches Ok(s) ==> s@ == wire_text(w@)),
{
    serde_json::to_string(&to_serde(w)).map_err(|e| e.to_string())
}

/// Conversion half of `parse_wire`: maps a parsed `serde_json::Value` onto
/// the wire tree one node for one node, classifying each number as the
/// decode policy requires (signed first, then unsigned, then float).
#[verifier::external_body]
fn from_serde(v: Value) -> JsonValue {
    match v {
        Value::Null => JsonValue::Null,
        Value::Bool(b) => JsonValue::Bool(b),
        Value::Number(n) => num_node(n),
        Value::String(s) => JsonValue::Text(s),
        Value::Array(a) => JsonValue::Arr(a.into_iter().map(from_serde).collect()),
        Value::Object(m) => JsonValue::Obj(
            m.into_iter().map(|(k, v)| Entry { key: k, value: from_serde(v) }).collect(),
        ),
    }
}

/// Number classification half of `from_serde`: a signed integer first,
/// then an unsigned one, else the float itself.
#[verifier::external_body]
fn num_node(n: Number) -> JsonValue {
    match (n.as_i64(), n.as_u64()) {
        (Some(i), _) => JsonValue::Int(i),
        (None, Some(u)) => JsonValue::Uint(u),
        _ => JsonValue::Float(n),
    }
}

/// Conversion half of `write_wire`: maps the wire tree onto a
/// `serde_json::Value` one node for one node.
#[verifier::external_body]
fn to_serde(w: &JsonValue) -> Value {
    match w {
        JsonValue::Arr(xs) => Value::Array(xs.iter().map(to_serde).collect()),
        JsonValue::Obj(es) => Value::Object(
            es.iter().map(|e| (e.key.clone(), to_serde(&e.value))).collect(),
        ),
        other => leaf_serde(other),
    }
}

/// Leaf half of `to_serde`: the nodes without children.
#[verifier::external_body]
fn leaf_serde(w: &JsonValue) -> Value {
    match w {
        JsonValue::Bool(b) => Value::Bool(*b),
        JsonValue::Int(i) => Value::Number((*i).into()),
        JsonValue::Uint(u) => Value::Number((*u).into()),
        JsonValue::Float(n) => Value::Number(n.clone()),
        JsonValue::Text(s) => Value::String(s.clone()),
        _ => Value::Null,
    }
}

} // verus!
