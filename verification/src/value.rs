//! The dynamic value model: the closed set of runtime value variants the
//! interpreter exchanges with its host, together with its mathematical model.
//!
//! A `MontyValue` is pure data; the codec maps it onto a JSON-shaped wire tree and
//! back without loss (see `codec`). Floating-point payloads are carried as
//! `serde_json::Number` values, which the codec moves through unchanged.

use vstd::prelude::*;

use crate::exc::ExcKind;

verus! {

broadcast use vstd::std_specs::vec::axiom_vec_index_decreases;

/// An arbitrary-precision integer in canonical decimal form: a sign and the
/// decimal digits, most significant first, each in `0..=9`.
///
/// Canonical means: at least one digit, no leading zero unless the value is
/// the single digit zero, and zero is never negative. `big_ok` states this.
#[derive(Debug)]
pub struct BigNum {
    /// True for a strictly negative value.
    pub neg: bool,
    /// Decimal digits, most significant first, each in `0..=9`.
    pub digits: Vec<u8>,
}

/// One key/value entry of an insertion-ordered dictionary.
#[derive(Debug)]
pub struct Pair {
    /// The entry's key; any value, compared by value equality.
    pub key: MontyValue,
    /// The entry's value.
    pub val: MontyValue,
}

/// One runtime value of the interpreter's dynamic type system.
#[derive(Debug)]
pub enum MontyValue {
    /// The `None` singleton.
    NoneVal,
    /// A boolean.
    Bool(bool),
    /// A machine-width signed integer.
    Int(i64),
    /// An IEEE double, carried as the wire number that represents it.
    /// The payload must classify as a float (not an integer) on the wire,
    /// which holds for every number the codec itself produces.
    Float(serde_json::Number),
    /// An arbitrary-precision integer, used when magnitude exceeds `Int`.
    BigInt(BigNum),
    /// A text string.
    Str(String),
    /// A raw byte sequence.
    Bytes(Vec<u8>),
    /// A filesystem-path-flavored string, distinct from `Str`.
    Path(String),
    /// An ordered, mutable-flavored sequence.
    List(Vec<MontyValue>),
    /// An ordered, immutable-flavored sequence.
    Tuple(Vec<MontyValue>),
    /// An unordered mutable collection of unique elements.
    SetVal(Vec<MontyValue>),
    /// An unordered immutable collection of unique elements.
    FrozenSetVal(Vec<MontyValue>),
    /// An insertion-ordered mapping; pair order is significant and keys are
    /// values, not necessarily strings.
    Dict(Vec<Pair>),
    /// An exception: a kind from the fixed enumeration plus optional message.
    Exception {
        /// The exception's class.
        exc_type: ExcKind,
        /// The optional message argument.
        arg: Option<String>,
    },
    /// A named record with keyed attribute values.
    Dataclass {
        /// The record type's name.
        name: String,
        /// A non-negative numeric type identifier.
        type_id: u64,
        /// The field names, in declaration order.
        field_names: Vec<String>,
        /// The attribute values, as ordered key/value pairs.
        attrs: Vec<Pair>,
        /// Whether the record type is frozen.
        frozen: bool,
    },
    /// A named record with positional values.
    NamedTuple {
        /// The record type's name.
        ty_name: String,
        /// The field names, in order.
        field_names: Vec<String>,
        /// The values, positionally matching `field_names`.
        values: Vec<MontyValue>,
    },
    /// An opaque, already-stringified fallback representation.
    Repr(String),
    /// The singleton placeholder value.
    Ellipsis,
    /// A placeholder for a value that refers back to an ancestor: an identity
    /// token and a type-specific placeholder string.
    Cycle(u64, String),
}

/// The mathematical model of a `MontyValue`: the same tree over `Seq` and spec
/// scalars, so contracts quantify over it directly.
pub enum ValModel {
    /// Model of `MontyValue::NoneVal`.
    NoneVal,
    /// Model of `MontyValue::Bool`.
    Bool(bool),
    /// Model of `MontyValue::Int`.
    Int(i64),
    /// Model of `MontyValue::Float`: the wire number value itself.
    Float(serde_json::Number),
    /// Model of `MontyValue::BigInt`: sign and decimal digits.
    BigInt { neg: bool, digits: Seq<u8> },
    /// Model of `MontyValue::Str`.
    Str(Seq<char>),
    /// Model of `MontyValue::Bytes`.
    Bytes(Seq<u8>),
    /// Model of `MontyValue::Path`.
    Path(Seq<char>),
    /// Model of `MontyValue::List`.
    List(Seq<ValModel>),
    /// Model of `MontyValue::Tuple`.
    Tuple(Seq<ValModel>),
    /// Model of `MontyValue::SetVal`.
    SetVal(Seq<ValModel>),
    /// Model of `MontyValue::FrozenSetVal`.
    FrozenSetVal(Seq<ValModel>),
    /// Model of `MontyValue::Dict`.
    Dict(Seq<(ValModel, ValModel)>),
    /// Model of `MontyValue::Exception`.
    Exception {
        /// The exception's class.
        exc_type: ExcKind,
        /// The optional message argument.
        arg: Option<Seq<char>>,
    },
    /// Model of `MontyValue::Dataclass`.
    Dataclass {
        /// The record type's name.
        name: Seq<char>,
        /// The numeric type identifier.
        type_id: u64,
        /// The field names, in order.
        field_names: Seq<Seq<char>>,
        /// The attribute pairs, in order.
        attrs: Seq<(ValModel, ValModel)>,
        /// Whether the record type is frozen.
        frozen: bool,
    },
    /// Model of `MontyValue::NamedTuple`.
    NamedTuple {
        /// The record type's name.
        ty_name: Seq<char>,
        /// The field names, in order.
        field_names: Seq<Seq<char>>,
        /// The values, in order.
        values: Seq<ValModel>,
    },
    /// Model of `MontyValue::Repr`.
    Repr(Seq<char>),
    /// Model of `MontyValue::Ellipsis`.
    Ellipsis,
    /// Model of `MontyValue::Cycle`.
    Cycle(u64, Seq<char>),
}

/// The model of one value.
pub open spec fn vmodel(v: MontyValue) -> ValModel
    decreases v,
{
    match v {
        MontyValue::NoneVal => ValModel::NoneVal,
        MontyValue::Bool(b) => ValModel::Bool(b),
        MontyValue::Int(i) => ValModel::Int(i),
        MontyValue::Float(n) => ValModel::Float(n),
        MontyValue::BigInt(b) => ValModel::BigInt { neg: b.neg, digits: b.digits@ },
        MontyValue::Str(s) => ValModel::Str(s@),
        MontyValue::Bytes(b) => ValModel::Bytes(b@),
        MontyValue::Path(s) => ValModel::Path(s@),
        MontyValue::List(xs) => ValModel::List(vmodel_seq(xs)),
        MontyValue::Tuple(xs) => ValModel::Tuple(vmodel_seq(xs)),
        MontyValue::SetVal(xs) => ValModel::SetVal(vmodel_seq(xs)),
        MontyValue::FrozenSetVal(xs) => ValModel::FrozenSetVal(vmodel_seq(xs)),
        MontyValue::Dict(ps) => ValModel::Dict(vmodel_pairs(ps)),
        MontyValue::Exception { exc_type, arg } => ValModel::Exception {
            exc_type,
            arg: match arg {
                Some(s) => Some(s@),
                None => None,
            },
        },
        MontyValue::Dataclass { name, type_id, field_names, attrs, frozen } => ValModel::Dataclass {
            name: name@,
            type_id,
            field_names: strings_model(field_names),
            attrs: vmodel_pairs(attrs),
            frozen,
        },
        MontyValue::NamedTuple { ty_name, field_names, values } => ValModel::NamedTuple {
            ty_name: ty_name@,
            field_names: strings_model(field_names),
            values: vmodel_seq(values),
        },
        MontyValue::Repr(s) => ValModel::Repr(s@),
        MontyValue::Ellipsis => ValModel::Ellipsis,
        MontyValue::Cycle(id, s) => ValModel::Cycle(id, s@),
    }
}

/// The models of a vector of values, in order.
pub open spec fn vmodel_seq(xs: Vec<MontyValue>) -> Seq<ValModel>
    decreases xs,
{
    Seq::new(xs@.len(), |i: int| if 0 <= i < xs@.len() { vmodel(xs[i]) } else { ValModel::NoneVal })
}

/// The models of a vector of pairs, in order.
pub open spec fn vmodel_pairs(ps: Vec<Pair>) -> Seq<(ValModel, ValModel)>
    decreases ps,
{
    Seq::new(ps@.len(), |i: int| if 0 <= i < ps@.len() { (vmodel(ps[i].key), vmodel(ps[i].val)) } else { (ValModel::NoneVal, ValModel::NoneVal) })
}

/// The views of a vector of strings, in order.
pub open spec fn strings_model(ss: Vec<String>) -> Seq<Seq<char>> {
    Seq::new(ss@.len(), |i: int| ss[i]@)
}

impl View for MontyValue {
    type V = ValModel;

    open spec fn view(&self) -> ValModel {
        vmodel(*self)
    }
}

/// Canonical decimal form: at least one digit, all in `0..=9`, no leading
/// zero unless the single digit zero, and zero never negative.
pub open spec fn big_ok(neg: bool, digits: Seq<u8>) -> bool {
    &&& digits.len() >= 1
    &&& (forall|i: int| 0 <= i < digits.len() ==> 0 <= #[trigger] digits[i] <= 9)
    &&& (digits.len() > 1 ==> digits[0] != 0)
    &&& (digits == seq![0u8] ==> !neg)
}

impl BigNum {
    /// The model's well-formedness for this number.
    pub open spec fn ok(&self) -> bool {
        big_ok(self.neg, self.digits@)
    }
}

/// Well-formedness of a model value: every `BigInt` inside is canonical.
pub open spec fn wf(m: ValModel) -> bool
    decreases m,
{
    match m {
        ValModel::BigInt { neg, digits } => big_ok(neg, digits),
        ValModel::List(xs) => wf_seq(xs),
        ValModel::Tuple(xs) => wf_seq(xs),
        ValModel::SetVal(xs) => wf_seq(xs),
        ValModel::FrozenSetVal(xs) => wf_seq(xs),
        ValModel::Dict(ps) => wf_pairs(ps),
        ValModel::Dataclass { attrs, .. } => wf_pairs(attrs),
        ValModel::NamedTuple { values, .. } => wf_seq(values),
        _ => true,
    }
}

/// `wf` for every element.
pub open spec fn wf_seq(xs: Seq<ValModel>) -> bool
    decreases xs,
{
    forall|i: int| 0 <= i < xs.len() ==> wf(#[trigger] xs[i])
}

/// `wf` for every key and value.
pub open spec fn wf_pairs(ps: Seq<(ValModel, ValModel)>) -> bool
    decreases ps,
{
    forall|i: int| 0 <= i < ps.len() ==> wf(#[trigger] ps[i].0) && wf(ps[i].1)
}

/// True iff the value contains no `Ellipsis` and no `Cycle` anywhere: the
/// variants whose encoding is deliberately one-way.
pub open spec fn lossless(m: ValModel) -> bool
    decreases m,
{
    match m {
        ValModel::Ellipsis => false,
        ValModel::Cycle(_, _) => false,
        ValModel::List(xs) => lossless_seq(xs),
        ValModel::Tuple(xs) => lossless_seq(xs),
        ValModel::SetVal(xs) => lossless_seq(xs),
        ValModel::FrozenSetVal(xs) => lossless_seq(xs),
        ValModel::Dict(ps) => lossless_pairs(ps),
        ValModel::Dataclass { attrs, .. } => lossless_pairs(attrs),
        ValModel::NamedTuple { values, .. } => lossless_seq(values),
        _ => true,
    }
}

/// `lossless` for every element.
pub open spec fn lossless_seq(xs: Seq<ValModel>) -> bool
    decreases xs,
{
    forall|i: int| 0 <= i < xs.len() ==> lossless(#[trigger] xs[i])
}

/// `lossless` for every key and value.
pub open spec fn lossless_pairs(ps: Seq<(ValModel, ValModel)>) -> bool
    decreases ps,
{
    forall|i: int| 0 <= i < ps.len() ==> lossless(#[trigger] ps[i].0) && lossless(ps[i].1)
}

} // verus!
