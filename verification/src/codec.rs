//! The canonical codec: a bidirectional, order-preserving mapping between
//! the value model and the wire tree, with a proved round-trip theorem.
//!
//! Encoding is total: every value maps to one wire node, variants the wire
//! cannot represent natively going through a single-key marker object.
//! Decoding is partial and rejects malformed payloads. `lemma_round_trip`
//! proves `dec(enc(v)) == Some(v)` for every well-formed value that contains
//! no `Ellipsis` and no `Cycle` — the two deliberately one-way variants.

use vstd::prelude::*;

use crate::exc::{exc_name, exc_parse, lemma_exc_name_round_trip, ExcKind};
use crate::value::{big_ok, lossless, lossless_pairs, lossless_seq, wf, wf_pairs, wf_seq, Pair, ValModel};
use crate::wire::{obj_get, WireModel};

verus! {

broadcast use vstd::seq::axiom_seq_index_decreases;

// ---------------------------------------------------------------------------
// Decimal digits
// ---------------------------------------------------------------------------

/// The character for one decimal digit.
pub open spec fn digit_char(d: u8) -> char {
    if d == 0 {
        '0'
    } else if d == 1 {
        '1'
    } else if d == 2 {
        '2'
    } else if d == 3 {
        '3'
    } else if d == 4 {
        '4'
    } else if d == 5 {
        '5'
    } else if d == 6 {
        '6'
    } else if d == 7 {
        '7'
    } else if d == 8 {
        '8'
    } else {
        '9'
    }
}

/// The digit for one character, `None` where the character is no digit.
pub open spec fn char_digit(c: char) -> Option<u8> {
    if c == '0' {
        Some(0)
    } else if c == '1' {
        Some(1)
    } else if c == '2' {
        Some(2)
    } else if c == '3' {
        Some(3)
    } else if c == '4' {
        Some(4)
    } else if c == '5' {
        Some(5)
    } else if c == '6' {
        Some(6)
    } else if c == '7' {
        Some(7)
    } else if c == '8' {
        Some(8)
    } else if c == '9' {
        Some(9)
    } else {
        None
    }
}

/// The decimal digits of `n`, most significant first.
pub open spec fn u64_digits(n: u64) -> Seq<u8>
    decreases n,
{
    if n < 10 {
        seq![n as u8]
    } else {
        u64_digits(n / 10).push((n % 10) as u8)
    }
}

/// The decimal rendering of a sign/digits pair.
pub open spec fn big_chars(neg: bool, ds: Seq<u8>) -> Seq<char> {
    (if neg {
        seq!['-']
    } else {
        Seq::empty()
    }) + Seq::new(ds.len(), |i: int| digit_char(ds[i]))
}

/// Leading zeros stripped, keeping the final digit of an all-zero sequence.
pub open spec fn strip_zeros(ds: Seq<u8>) -> Seq<u8>
    decreases ds.len(),
{
    if ds.len() > 1 && ds[0] == 0 {
        strip_zeros(ds.drop_first())
    } else {
        ds
    }
}

/// Whether a decimal literal carries a minus sign.
pub open spec fn big_sign(s: Seq<char>) -> bool {
    s.len() > 0 && s[0] == '-'
}

/// A decimal literal with its optional sign character stripped.
pub open spec fn big_rest(s: Seq<char>) -> Seq<char> {
    if s.len() > 0 && (s[0] == '-' || s[0] == '+') {
        s.drop_first()
    } else {
        s
    }
}

/// The digit values of the (sign-stripped) literal, in order.
pub open spec fn big_digit_values(s: Seq<char>) -> Seq<u8> {
    Seq::new(
        big_rest(s).len(),
        |i: int| match char_digit(big_rest(s)[i]) {
            Some(d) => d,
            None => 0,
        },
    )
}

/// The canonical sign/digits pair a decimal integer literal parses to:
/// an optional `+` or `-` sign, then one or more decimal digits. Leading
/// zeros are dropped and a zero value is never negative.
pub open spec fn big_parse(s: Seq<char>) -> Option<(bool, Seq<u8>)> {
    if big_rest(s).len() >= 1 && (forall|i: int|
        0 <= i < big_rest(s).len() ==> char_digit(#[trigger] big_rest(s)[i]) is Some) {
        let ds = strip_zeros(big_digit_values(s));
        Some(((big_sign(s) && !(ds == seq![0u8])), ds))
    } else {
        None
    }
}

// ---------------------------------------------------------------------------
// Spec encoder
// ---------------------------------------------------------------------------

/// A single-entry marker object.
pub open spec fn tag_obj(tag: Seq<char>, payload: WireModel) -> WireModel {
    WireModel::Obj(seq![(tag, payload)])
}

/// The wire number carrying a `u64`.
pub open spec fn num_u64(u: u64) -> WireModel {
    if u <= (i64::MAX as u64) {
        WireModel::Int(u as i64)
    } else {
        WireModel::Uint(u)
    }
}

/// The wire nodes of a byte sequence: one integer per byte, in order.
pub open spec fn byte_nodes(bs: Seq<u8>) -> Seq<WireModel> {
    Seq::new(bs.len(), |i: int| WireModel::Int(bs[i] as i64))
}

/// The wire nodes of a string sequence, in order.
pub open spec fn text_nodes(ss: Seq<Seq<char>>) -> Seq<WireModel> {
    Seq::new(ss.len(), |i: int| WireModel::Text(ss[i]))
}

/// The inner object of an encoded exception.
pub open spec fn exc_entries(k: ExcKind, arg: Option<Seq<char>>) -> Seq<(Seq<char>, WireModel)> {
    match arg {
        Some(m) => seq![
            ("type"@, WireModel::Text(exc_name(k))),
            ("message"@, WireModel::Text(m)),
        ],
        None => seq![("type"@, WireModel::Text(exc_name(k)))],
    }
}

/// The wire node one value encodes to. Total: every value has an encoding,
/// `Ellipsis` and `Cycle` deliberately collapsing to a `$repr` marker.
pub open spec fn enc(m: ValModel) -> WireModel
    decreases m,
{
    match m {
        ValModel::NoneVal => WireModel::Null,
        ValModel::Bool(b) => WireModel::Bool(b),
        ValModel::Int(i) => WireModel::Int(i),
        ValModel::Float(n) => WireModel::Float(n),
        ValModel::BigInt { neg, digits } => tag_obj(
            "$bigint"@,
            WireModel::Text(big_chars(neg, digits)),
        ),
        ValModel::Str(s) => WireModel::Text(s),
        ValModel::Bytes(bs) => tag_obj("$bytes"@, WireModel::Arr(byte_nodes(bs))),
        ValModel::Path(s) => tag_obj("$path"@, WireModel::Text(s)),
        ValModel::List(xs) => WireModel::Arr(enc_seq(xs)),
        ValModel::Tuple(xs) => tag_obj("$tuple"@, WireModel::Arr(enc_seq(xs))),
        ValModel::SetVal(xs) => tag_obj("$set"@, WireModel::Arr(enc_seq(xs))),
        ValModel::FrozenSetVal(xs) => tag_obj("$frozenset"@, WireModel::Arr(enc_seq(xs))),
        ValModel::Dict(ps) => tag_obj("$dict"@, WireModel::Arr(enc_pairs(ps))),
        ValModel::Exception { exc_type, arg } => tag_obj(
            "$exception"@,
            WireModel::Obj(exc_entries(exc_type, arg)),
        ),
        ValModel::Dataclass { name, type_id, field_names, attrs, frozen } => tag_obj(
            "$dataclass"@,
            WireModel::Obj(
                seq![
                    ("name"@, WireModel::Text(name)),
                    ("type_id"@, num_u64(type_id)),
                    ("field_names"@, WireModel::Arr(text_nodes(field_names))),
                    ("attrs"@, WireModel::Arr(enc_pairs(attrs))),
                    ("frozen"@, WireModel::Bool(frozen)),
                ],
            ),
        ),
        ValModel::NamedTuple { ty_name, field_names, values } => tag_obj(
            "$named_tuple"@,
            WireModel::Obj(
                seq![
                    ("type"@, WireModel::Text(ty_name)),
                    ("field_names"@, WireModel::Arr(text_nodes(field_names))),
                    ("values"@, WireModel::Arr(enc_seq(values))),
                ],
            ),
        ),
        ValModel::Repr(s) => tag_obj("$repr"@, WireModel::Text(s)),
        ValModel::Ellipsis => tag_obj("$repr"@, WireModel::Text("..."@)),
        ValModel::Cycle(_, placeholder) => tag_obj("$repr"@, WireModel::Text(placeholder)),
    }
}

/// The encodings of a sequence of values, in order.
pub open spec fn enc_seq(xs: Seq<ValModel>) -> Seq<WireModel>
    decreases xs,
{
    Seq::new(
        xs.len(),
        |i: int| if 0 <= i < xs.len() {
            enc(xs[i])
        } else {
            WireModel::Null
        },
    )
}

/// The encodings of a sequence of pairs: each pair one two-element array.
pub open spec fn enc_pairs(ps: Seq<(ValModel, ValModel)>) -> Seq<WireModel>
    decreases ps,
{
    Seq::new(
        ps.len(),
        |i: int| if 0 <= i < ps.len() {
            WireModel::Arr(seq![enc(ps[i].0), enc(ps[i].1)])
        } else {
            WireModel::Null
        },
    )
}

// ---------------------------------------------------------------------------
// Spec decoder
// ---------------------------------------------------------------------------

/// Where `obj_get` finds a value, that value stands at some entry of the
/// object, so it is structurally below the entry sequence.
pub proof fn lemma_obj_get_index(es: Seq<(Seq<char>, WireModel)>, key: Seq<char>)
    ensures
        (obj_get(es, key) matches Some(p) ==> exists|i: int|
            0 <= i < es.len() && #[trigger] es[i].1 == p),
    decreases es.len(),
{
    reveal_with_fuel(obj_get, 2);
    if es.len() > 0 && !(es[0].0 == key) {
        lemma_obj_get_index(es.drop_first(), key);
        if let Some(p) = obj_get(es, key) {
            let i = choose|i: int|
                0 <= i < es.drop_first().len() && #[trigger] es.drop_first()[i].1 == p;
            assert(es.drop_first()[i] == es[i + 1]);
            assert(es[i + 1].1 == p);
        }
    }
}

/// The value `obj_get` finds is structurally below the entry sequence.
pub proof fn lemma_obj_get_decreases(es: Seq<(Seq<char>, WireModel)>, key: Seq<char>)
    ensures
        (obj_get(es, key) matches Some(p) ==> decreases_to!(es => p)),
{
    lemma_obj_get_index(es, key);
    if let Some(p) = obj_get(es, key) {
        let i = choose|i: int| 0 <= i < es.len() && #[trigger] es[i].1 == p;
        assert(decreases_to!(es => es[i]));
        assert(decreases_to!(es[i] => es[i].1));
        assert(decreases_to!(es => p));
    }
}

/// The value a `u64`-shaped wire number decodes to: `Int` where it fits the
/// signed range, else a non-negative `BigInt`.
pub open spec fn dec_uint(u: u64) -> ValModel {
    if u <= (i64::MAX as u64) {
        ValModel::Int(u as i64)
    } else {
        ValModel::BigInt { neg: false, digits: u64_digits(u) }
    }
}

/// The value one wire node decodes to, or `None` where the node is rejected.
///
/// An object is a tagged escape exactly where one of the reserved marker keys
/// is present, tried in a fixed priority order; an object with no marker key
/// decodes as a string-keyed `Dict` in entry order.
pub open spec fn dec(w: WireModel) -> Option<ValModel>
    decreases w,
    via dec_via
{
    match w {
        WireModel::Null => Some(ValModel::NoneVal),
        WireModel::Bool(b) => Some(ValModel::Bool(b)),
        WireModel::Int(i) => Some(ValModel::Int(i)),
        WireModel::Uint(u) => Some(dec_uint(u)),
        WireModel::Float(n) => Some(ValModel::Float(n)),
        WireModel::Text(s) => Some(ValModel::Str(s)),
        WireModel::Arr(xs) => match dec_seq(xs) {
            Some(vs) => Some(ValModel::List(vs)),
            None => None,
        },
        WireModel::Obj(es) => match obj_get(es, "$tuple"@) {
            Some(p) => dec_elems(p, CollectionKind::Tuple),
            None => match obj_get(es, "$bytes"@) {
                Some(p) => dec_bytes_payload(p),
                None => match obj_get(es, "$set"@) {
                    Some(p) => dec_elems(p, CollectionKind::SetVal),
                    None => match obj_get(es, "$frozenset"@) {
                        Some(p) => dec_elems(p, CollectionKind::FrozenSetVal),
                        None => match obj_get(es, "$dict"@) {
                            Some(p) => dec_dict_payload(p),
                            None => match obj_get(es, "$bigint"@) {
                                Some(p) => dec_bigint_payload(p),
                                None => match obj_get(es, "$path"@) {
                                    Some(p) => dec_text_payload(p, true),
                                    None => match obj_get(es, "$repr"@) {
                                        Some(p) => dec_text_payload(p, false),
                                        None => match obj_get(es, "$exception"@) {
                                            Some(p) => dec_exception_payload(p),
                                            None => match obj_get(es, "$dataclass"@) {
                                                Some(p) => dec_dataclass_payload(p),
                                                None => match obj_get(es, "$named_tuple"@) {
                                                    Some(p) => dec_named_tuple_payload(p),
                                                    None => dec_bare(es),
                                                },
                                            },
                                        },
                                    },
                                },
                            },
                        },
                    },
                },
            },
        },
    }
}

#[via_fn]
proof fn dec_via(w: WireModel) {
    if let WireModel::Obj(es) = w {
        lemma_obj_get_decreases(es, "$tuple"@);
        lemma_obj_get_decreases(es, "$bytes"@);
        lemma_obj_get_decreases(es, "$set"@);
        lemma_obj_get_decreases(es, "$frozenset"@);
        lemma_obj_get_decreases(es, "$dict"@);
        lemma_obj_get_decreases(es, "$bigint"@);
        lemma_obj_get_decreases(es, "$path"@);
        lemma_obj_get_decreases(es, "$repr"@);
        lemma_obj_get_decreases(es, "$exception"@);
        lemma_obj_get_decreases(es, "$dataclass"@);
        lemma_obj_get_decreases(es, "$named_tuple"@);
    }
}

/// The collection kinds that share the element-array payload shape.
pub enum CollectionKind {
    /// Decode as `Tuple`.
    Tuple,
    /// Decode as `SetVal`.
    SetVal,
    /// Decode as `FrozenSetVal`.
    FrozenSetVal,
}

/// Decodes an element-array payload into the collection `kind` names.
pub open spec fn dec_elems(p: WireModel, kind: CollectionKind) -> Option<ValModel>
    decreases p,
{
    match p {
        WireModel::Arr(xs) => match dec_seq(xs) {
            Some(vs) => Some(
                match kind {
                    CollectionKind::Tuple => ValModel::Tuple(vs),
                    CollectionKind::SetVal => ValModel::SetVal(vs),
                    CollectionKind::FrozenSetVal => ValModel::FrozenSetVal(vs),
                },
            ),
            None => None,
        },
        _ => None,
    }
}

/// Decodes a `$bytes` payload: an array of integers, each in `0..=255`.
pub open spec fn dec_bytes_payload(p: WireModel) -> Option<ValModel> {
    match p {
        WireModel::Arr(xs) => if forall|i: int|
            0 <= i < xs.len() ==> match #[trigger] xs[i] {
                WireModel::Int(b) => 0 <= b <= 255,
                _ => false,
            } {
            Some(
                ValModel::Bytes(
                    Seq::new(
                        xs.len(),
                        |i: int| match xs[i] {
                            WireModel::Int(b) => b as u8,
                            _ => 0,
                        },
                    ),
                ),
            )
        } else {
            None
        },
        _ => None,
    }
}

/// Decodes a `$dict` payload: an array of two-element key/value arrays.
pub open spec fn dec_dict_payload(p: WireModel) -> Option<ValModel>
    decreases p,
{
    match p {
        WireModel::Arr(xs) => match dec_pairs(xs) {
            Some(ps) => Some(ValModel::Dict(ps)),
            None => None,
        },
        _ => None,
    }
}

/// Decodes a `$bigint` payload: a decimal integer literal string.
pub open spec fn dec_bigint_payload(p: WireModel) -> Option<ValModel> {
    match p {
        WireModel::Text(s) => match big_parse(s) {
            Some((neg, ds)) => Some(ValModel::BigInt { neg, digits: ds }),
            None => None,
        },
        _ => None,
    }
}

/// Decodes a `$path` (`as_path` true) or `$repr` payload: a single string.
pub open spec fn dec_text_payload(p: WireModel, as_path: bool) -> Option<ValModel> {
    match p {
        WireModel::Text(s) => Some(
            if as_path {
                ValModel::Path(s)
            } else {
                ValModel::Repr(s)
            },
        ),
        _ => None,
    }
}

/// The optional `message` string of an exception's inner object: present
/// exactly where the key holds a string.
pub open spec fn dec_exc_msg(inner: Seq<(Seq<char>, WireModel)>) -> Option<Seq<char>> {
    match obj_get(inner, "message"@) {
        Some(WireModel::Text(m)) => Some(m),
        _ => None,
    }
}

/// Decodes a `$exception` payload: an object with a known `type` name and an
/// optional `message` string.
pub open spec fn dec_exception_payload(p: WireModel) -> Option<ValModel> {
    match p {
        WireModel::Obj(inner) => match obj_get(inner, "type"@) {
            Some(WireModel::Text(t)) => match exc_parse(t) {
                Some(k) => Some(ValModel::Exception { exc_type: k, arg: dec_exc_msg(inner) }),
                None => None,
            },
            _ => None,
        },
        _ => None,
    }
}

/// The `u64` a wire number field decodes to, `None` for any other node.
pub open spec fn dec_u64_field(p: Option<WireModel>) -> Option<u64> {
    match p {
        Some(WireModel::Int(i)) => if i >= 0 {
            Some(i as u64)
        } else {
            None
        },
        Some(WireModel::Uint(u)) => Some(u),
        _ => None,
    }
}

/// The string sequence an array of strings decodes to.
pub open spec fn dec_texts(xs: Seq<WireModel>) -> Option<Seq<Seq<char>>> {
    if forall|i: int| 0 <= i < xs.len() ==> (#[trigger] xs[i]) is Text {
        Some(
            Seq::new(
                xs.len(),
                |i: int| match xs[i] {
                    WireModel::Text(s) => s,
                    _ => Seq::empty(),
                },
            ),
        )
    } else {
        None
    }
}

/// Decodes a `$dataclass` payload: an object with `name`, `type_id`,
/// `field_names`, `attrs` and an optional `frozen` flag (false by default).
pub open spec fn dec_dataclass_payload(p: WireModel) -> Option<ValModel>
    decreases p,
    via dec_dataclass_via
{
    match p {
        WireModel::Obj(inner) => match obj_get(inner, "name"@) {
            Some(WireModel::Text(nm)) => match dec_u64_field(obj_get(inner, "type_id"@)) {
                Some(tid) => match obj_get(inner, "field_names"@) {
                    Some(WireModel::Arr(fs)) => match dec_texts(fs) {
                        Some(names) => match obj_get(inner, "attrs"@) {
                            Some(WireModel::Arr(axs)) => match dec_pairs(axs) {
                                Some(attrs) => Some(
                                    ValModel::Dataclass {
                                        name: nm,
                                        type_id: tid,
                                        field_names: names,
                                        attrs,
                                        frozen: match obj_get(inner, "frozen"@) {
                                            Some(WireModel::Bool(b)) => b,
                                            _ => false,
                                        },
                                    },
                                ),
                                None => None,
                            },
                            _ => None,
                        },
                        None => None,
                    },
                    _ => None,
                },
                None => None,
            },
            _ => None,
        },
        _ => None,
    }
}

#[via_fn]
proof fn dec_dataclass_via(p: WireModel) {
    if let WireModel::Obj(inner) = p {
        lemma_obj_get_decreases(inner, "attrs"@);
    }
}

/// Decodes a `$named_tuple` payload: an object with `type`, `field_names`
/// and positional `values`.
pub open spec fn dec_named_tuple_payload(p: WireModel) -> Option<ValModel>
    decreases p,
    via dec_named_tuple_via
{
    match p {
        WireModel::Obj(inner) => match obj_get(inner, "type"@) {
            Some(WireModel::Text(tn)) => match obj_get(inner, "field_names"@) {
                Some(WireModel::Arr(fs)) => match dec_texts(fs) {
                    Some(names) => match obj_get(inner, "values"@) {
                        Some(WireModel::Arr(vs)) => match dec_seq(vs) {
                            Some(values) => Some(
                                ValModel::NamedTuple { ty_name: tn, field_names: names, values },
                            ),
                            None => None,
                        },
                        _ => None,
                    },
                    None => None,
                },
                _ => None,
            },
            _ => None,
        },
        _ => None,
    }
}

#[via_fn]
proof fn dec_named_tuple_via(p: WireModel) {
    if let WireModel::Obj(inner) = p {
        lemma_obj_get_decreases(inner, "values"@);
    }
}

/// Decodes an object with no marker key: a `Dict` whose keys are the
/// object's string keys, in entry order.
pub open spec fn dec_bare(es: Seq<(Seq<char>, WireModel)>) -> Option<ValModel>
    decreases es,
{
    if forall|i: int| 0 <= i < es.len() ==> dec(#[trigger] es[i].1) is Some {
        Some(
            ValModel::Dict(
                Seq::new(
                    es.len(),
                    |i: int| if 0 <= i < es.len() {
                        (
                            ValModel::Str(es[i].0),
                            match dec(es[i].1) {
                                Some(v) => v,
                                None => ValModel::NoneVal,
                            },
                        )
                    } else {
                        (ValModel::NoneVal, ValModel::NoneVal)
                    },
                ),
            ),
        )
    } else {
        None
    }
}

/// The values a node sequence decodes to, where every node decodes.
pub open spec fn dec_seq(xs: Seq<WireModel>) -> Option<Seq<ValModel>>
    decreases xs,
{
    if forall|i: int| 0 <= i < xs.len() ==> dec(#[trigger] xs[i]) is Some {
        Some(
            Seq::new(
                xs.len(),
                |i: int| if 0 <= i < xs.len() {
                    match dec(xs[i]) {
                        Some(v) => v,
                        None => ValModel::NoneVal,
                    }
                } else {
                    ValModel::NoneVal
                },
            ),
        )
    } else {
        None
    }
}

/// Whether one node is a well-shaped `$dict` entry: a two-element array
/// whose key and value both decode.
pub open spec fn pair_node_ok(e: WireModel) -> bool
    decreases e,
{
    match e {
        WireModel::Arr(kv) => kv.len() == 2 && dec(kv[0]) is Some && dec(kv[1]) is Some,
        _ => false,
    }
}

/// The pair one well-shaped `$dict` entry decodes to.
pub open spec fn dec_pair_node(e: WireModel) -> (ValModel, ValModel)
    decreases e,
{
    match e {
        WireModel::Arr(kv) => if kv.len() == 2 {
            (
                match dec(kv[0]) {
                    Some(k) => k,
                    None => ValModel::NoneVal,
                },
                match dec(kv[1]) {
                    Some(v) => v,
                    None => ValModel::NoneVal,
                },
            )
        } else {
            (ValModel::NoneVal, ValModel::NoneVal)
        },
        _ => (ValModel::NoneVal, ValModel::NoneVal),
    }
}

/// The pairs a `$dict` entry array decodes to, where every entry is
/// well-shaped.
pub open spec fn dec_pairs(xs: Seq<WireModel>) -> Option<Seq<(ValModel, ValModel)>>
    decreases xs,
{
    if forall|i: int| 0 <= i < xs.len() ==> pair_node_ok(#[trigger] xs[i]) {
        Some(
            Seq::new(
                xs.len(),
                |i: int| if 0 <= i < xs.len() {
                    dec_pair_node(xs[i])
                } else {
                    (ValModel::NoneVal, ValModel::NoneVal)
                },
            ),
        )
    } else {
        None
    }
}


// ---------------------------------------------------------------------------
// Round trip
// ---------------------------------------------------------------------------

/// Concrete facts about the reserved marker keys and inner field keys:
/// enough lengths and characters to tell any two of them apart.
pub proof fn lemma_tag_facts()
    ensures
        "$tuple"@.len() == 6,
        "$tuple"@[1] == 't',
        "$bytes"@.len() == 6,
        "$bytes"@[1] == 'b',
        "$set"@.len() == 4,
        "$set"@[1] == 's',
        "$frozenset"@.len() == 10,
        "$frozenset"@[1] == 'f',
        "$dict"@.len() == 5,
        "$dict"@[1] == 'd',
        "$exception"@.len() == 10,
        "$exception"@[1] == 'e',
        "$repr"@.len() == 5,
        "$repr"@[1] == 'r',
        "$path"@.len() == 5,
        "$path"@[1] == 'p',
        "$bigint"@.len() == 7,
        "$bigint"@[1] == 'b',
        "$dataclass"@.len() == 10,
        "$dataclass"@[1] == 'd',
        "$named_tuple"@.len() == 12,
        "$named_tuple"@[1] == 'n',
        "type"@.len() == 4,
        "type"@[1] == 'y',
        "message"@.len() == 7,
        "message"@[1] == 'e',
        "name"@.len() == 4,
        "name"@[1] == 'a',
        "type_id"@.len() == 7,
        "type_id"@[1] == 'y',
        "field_names"@.len() == 11,
        "field_names"@[1] == 'i',
        "attrs"@.len() == 5,
        "attrs"@[1] == 't',
        "frozen"@.len() == 6,
        "frozen"@[1] == 'r',
        "values"@.len() == 6,
        "values"@[1] == 'a',
{
    reveal_strlit("$tuple");
    reveal_strlit("$bytes");
    reveal_strlit("$set");
    reveal_strlit("$frozenset");
    reveal_strlit("$dict");
    reveal_strlit("$exception");
    reveal_strlit("$repr");
    reveal_strlit("$path");
    reveal_strlit("$bigint");
    reveal_strlit("$dataclass");
    reveal_strlit("$named_tuple");
    reveal_strlit("type");
    reveal_strlit("message");
    reveal_strlit("name");
    reveal_strlit("type_id");
    reveal_strlit("field_names");
    reveal_strlit("attrs");
    reveal_strlit("frozen");
    reveal_strlit("values");
}

/// Lookup in a single-entry object: the payload under its own key, nothing
/// under any other key.
pub proof fn lemma_obj_get_single(tag: Seq<char>, p: WireModel, key: Seq<char>)
    ensures
        obj_get(seq![(tag, p)], key) == if tag == key {
            Some(p)
        } else {
            None::<WireModel>
        },
{
    reveal_with_fuel(obj_get, 3);
    assert(seq![(tag, p)].drop_first() =~= Seq::<(Seq<char>, WireModel)>::empty());
}

/// Dispatch over a single-entry marker object: lookups of every reserved
/// marker resolve by comparing the one key.
pub proof fn lemma_single_dispatch(tag: Seq<char>, p: WireModel)
    ensures
        obj_get(seq![(tag, p)], "$tuple"@) == if tag == "$tuple"@ { Some(p) } else { None::<WireModel> },
        obj_get(seq![(tag, p)], "$bytes"@) == if tag == "$bytes"@ { Some(p) } else { None::<WireModel> },
        obj_get(seq![(tag, p)], "$set"@) == if tag == "$set"@ { Some(p) } else { None::<WireModel> },
        obj_get(seq![(tag, p)], "$frozenset"@) == if tag == "$frozenset"@ { Some(p) } else { None::<WireModel> },
        obj_get(seq![(tag, p)], "$dict"@) == if tag == "$dict"@ { Some(p) } else { None::<WireModel> },
        obj_get(seq![(tag, p)], "$exception"@) == if tag == "$exception"@ { Some(p) } else { None::<WireModel> },
        obj_get(seq![(tag, p)], "$repr"@) == if tag == "$repr"@ { Some(p) } else { None::<WireModel> },
        obj_get(seq![(tag, p)], "$path"@) == if tag == "$path"@ { Some(p) } else { None::<WireModel> },
        obj_get(seq![(tag, p)], "$bigint"@) == if tag == "$bigint"@ { Some(p) } else { None::<WireModel> },
        obj_get(seq![(tag, p)], "$dataclass"@) == if tag == "$dataclass"@ { Some(p) } else { None::<WireModel> },
        obj_get(seq![(tag, p)], "$named_tuple"@) == if tag == "$named_tuple"@ { Some(p) } else { None::<WireModel> },
{
    lemma_obj_get_single(tag, p, "$tuple"@);
    lemma_obj_get_single(tag, p, "$bytes"@);
    lemma_obj_get_single(tag, p, "$set"@);
    lemma_obj_get_single(tag, p, "$frozenset"@);
    lemma_obj_get_single(tag, p, "$dict"@);
    lemma_obj_get_single(tag, p, "$exception"@);
    lemma_obj_get_single(tag, p, "$repr"@);
    lemma_obj_get_single(tag, p, "$path"@);
    lemma_obj_get_single(tag, p, "$bigint"@);
    lemma_obj_get_single(tag, p, "$dataclass"@);
    lemma_obj_get_single(tag, p, "$named_tuple"@);
}

/// Leading-zero stripping leaves a canonical digit sequence unchanged.
pub proof fn lemma_strip_zeros_canonical(ds: Seq<u8>)
    requires
        ds.len() >= 1,
        ds.len() > 1 ==> ds[0] != 0,
    ensures
        strip_zeros(ds) == ds,
{
}

/// A canonical decimal rendering parses back to the same sign and digits.
pub proof fn lemma_big_round_trip(neg: bool, ds: Seq<u8>)
    requires
        big_ok(neg, ds),
    ensures
        big_parse(big_chars(neg, ds)) == Some((neg, ds)),
{
    let s = big_chars(neg, ds);
    let digits_part = Seq::new(ds.len(), |i: int| digit_char(ds[i]));
    assert(digit_char(ds[0]) != '-' && digit_char(ds[0]) != '+');
    let rest = big_rest(s);
    if neg {
        assert(s[0] == '-');
        assert(rest =~= digits_part);
    } else {
        assert(s =~= digits_part);
        assert(s[0] == digit_char(ds[0]));
        assert(rest =~= digits_part);
    }
    assert(big_sign(s) == neg);
    assert forall|i: int| 0 <= i < rest.len() implies char_digit(#[trigger] rest[i]) is Some by {
        assert(rest[i] == digit_char(ds[i]));
        assert(0 <= ds[i] <= 9);
    }
    let parsed = big_digit_values(s);
    assert forall|i: int| 0 <= i < parsed.len() implies parsed[i] == ds[i] by {
        assert(rest[i] == digit_char(ds[i]));
        assert(0 <= ds[i] <= 9);
    }
    assert(parsed =~= ds);
    lemma_strip_zeros_canonical(ds);
    if ds == seq![0u8] {
        assert(!neg);
    } else {
        assert(!(strip_zeros(parsed) == seq![0u8]));
    }
}

/// String arrays decode back to the same strings.
pub proof fn lemma_texts_round_trip(ss: Seq<Seq<char>>)
    ensures
        dec_texts(text_nodes(ss)) == Some(ss),
{
    let ns = text_nodes(ss);
    assert(forall|i: int| 0 <= i < ns.len() ==> (#[trigger] ns[i]) is Text);
    let r = Seq::new(
        ns.len(),
        |i: int| match ns[i] {
            WireModel::Text(s) => s,
            _ => Seq::empty(),
        },
    );
    assert(r =~= ss);
}

/// Element sequences round-trip: mutual with `lemma_round_trip`.
pub proof fn lemma_seq_round_trip(xs: Seq<ValModel>)
    requires
        wf_seq(xs),
        lossless_seq(xs),
    ensures
        dec_seq(enc_seq(xs)) == Some(xs),
    decreases xs,
{
    let es = enc_seq(xs);
    assert forall|i: int| 0 <= i < es.len() implies dec(#[trigger] es[i]) is Some by {
        assert(decreases_to!(xs => xs[i]));
        lemma_round_trip(xs[i]);
        assert(es[i] == enc(xs[i]));
    }
    let r = Seq::new(
        es.len(),
        |i: int| if 0 <= i < es.len() {
            match dec(es[i]) {
                Some(v) => v,
                None => ValModel::NoneVal,
            }
        } else {
            ValModel::NoneVal
        },
    );
    assert forall|i: int| 0 <= i < xs.len() implies r[i] == xs[i] by {
        assert(decreases_to!(xs => xs[i]));
        lemma_round_trip(xs[i]);
        assert(es[i] == enc(xs[i]));
    }
    assert(r =~= xs);
}

/// Pair sequences round-trip: mutual with `lemma_round_trip`.
pub proof fn lemma_pairs_round_trip(ps: Seq<(ValModel, ValModel)>)
    requires
        wf_pairs(ps),
        lossless_pairs(ps),
    ensures
        dec_pairs(enc_pairs(ps)) == Some(ps),
    decreases ps,
{
    let es = enc_pairs(ps);
    assert forall|i: int| 0 <= i < es.len() implies pair_node_ok(#[trigger] es[i]) by {
        assert(decreases_to!(ps => ps[i]));
        assert(decreases_to!(ps[i] => ps[i].0));
        assert(decreases_to!(ps[i] => ps[i].1));
        lemma_round_trip(ps[i].0);
        lemma_round_trip(ps[i].1);
        assert(es[i] == WireModel::Arr(seq![enc(ps[i].0), enc(ps[i].1)]));
        assert(seq![enc(ps[i].0), enc(ps[i].1)][0] == enc(ps[i].0));
        assert(seq![enc(ps[i].0), enc(ps[i].1)][1] == enc(ps[i].1));
    }
    let r = Seq::new(
        es.len(),
        |i: int| if 0 <= i < es.len() {
            dec_pair_node(es[i])
        } else {
            (ValModel::NoneVal, ValModel::NoneVal)
        },
    );
    assert forall|i: int| 0 <= i < ps.len() implies r[i] == ps[i] by {
        assert(decreases_to!(ps => ps[i]));
        assert(decreases_to!(ps[i] => ps[i].0));
        assert(decreases_to!(ps[i] => ps[i].1));
        lemma_round_trip(ps[i].0);
        lemma_round_trip(ps[i].1);
        assert(es[i] == WireModel::Arr(seq![enc(ps[i].0), enc(ps[i].1)]));
        assert(seq![enc(ps[i].0), enc(ps[i].1)][0] == enc(ps[i].0));
        assert(seq![enc(ps[i].0), enc(ps[i].1)][1] == enc(ps[i].1));
    }
    assert(r =~= ps);
}

/// The codec's round-trip theorem: decoding the encoding of any well-formed
/// value that contains no `Ellipsis` and no `Cycle` yields that same value.
/// `Ellipsis` and `Cycle` encode as inert `$repr` text and are deliberately
/// one-way; they are the only exceptions.
#[verifier::rlimit(100)]
pub proof fn lemma_round_trip(m: ValModel)
    requires
        wf(m),
        lossless(m),
    ensures
        dec(enc(m)) == Some(m),
    decreases m,
{
    lemma_tag_facts();
    reveal_with_fuel(obj_get, 7);
    match m {
        ValModel::BigInt { neg, digits } => {
            lemma_single_dispatch("$bigint"@, WireModel::Text(big_chars(neg, digits)));
            lemma_big_round_trip(neg, digits);
        },
        ValModel::Bytes(bs) => {
            let ns = byte_nodes(bs);
            lemma_single_dispatch("$bytes"@, WireModel::Arr(ns));
            assert(forall|i: int| 0 <= i < ns.len() ==> match #[trigger] ns[i] {
                WireModel::Int(b) => 0 <= b <= 255,
                _ => false,
            });
            let r = Seq::new(
                ns.len(),
                |i: int| match ns[i] {
                    WireModel::Int(b) => b as u8,
                    _ => 0u8,
                },
            );
            assert(r =~= bs);
        },
        ValModel::Path(s) => {
            lemma_single_dispatch("$path"@, WireModel::Text(s));
        },
        ValModel::Repr(s) => {
            lemma_single_dispatch("$repr"@, WireModel::Text(s));
        },
        ValModel::List(xs) => {
            assert(decreases_to!(m => xs));
            lemma_seq_round_trip(xs);
        },
        ValModel::Tuple(xs) => {
            lemma_single_dispatch("$tuple"@, WireModel::Arr(enc_seq(xs)));
            assert(decreases_to!(m => xs));
            lemma_seq_round_trip(xs);
        },
        ValModel::SetVal(xs) => {
            lemma_single_dispatch("$set"@, WireModel::Arr(enc_seq(xs)));
            assert(decreases_to!(m => xs));
            lemma_seq_round_trip(xs);
        },
        ValModel::FrozenSetVal(xs) => {
            lemma_single_dispatch("$frozenset"@, WireModel::Arr(enc_seq(xs)));
            assert(decreases_to!(m => xs));
            lemma_seq_round_trip(xs);
        },
        ValModel::Dict(ps) => {
            lemma_single_dispatch("$dict"@, WireModel::Arr(enc_pairs(ps)));
            assert(decreases_to!(m => ps));
            lemma_pairs_round_trip(ps);
        },
        ValModel::Exception { exc_type, arg } => {
            let inner = exc_entries(exc_type, arg);
            lemma_single_dispatch("$exception"@, WireModel::Obj(inner));
            lemma_exc_name_round_trip(exc_type);
            match arg {
                Some(msg) => {
                    assert(inner.drop_first() =~= seq![("message"@, WireModel::Text(msg))]);
                    assert(seq![("message"@, WireModel::Text(msg))].drop_first()
                        =~= Seq::<(Seq<char>, WireModel)>::empty());
                    assert(obj_get(inner, "type"@) == Some(WireModel::Text(exc_name(exc_type))));
                    assert(obj_get(inner, "message"@) == Some(WireModel::Text(msg)));
                },
                None => {
                    assert(inner.drop_first() =~= Seq::<(Seq<char>, WireModel)>::empty());
                    assert(obj_get(inner, "type"@) == Some(WireModel::Text(exc_name(exc_type))));
                    assert(obj_get(inner, "message"@) is None);
                },
            }
        },
        ValModel::Dataclass { name, type_id, field_names, attrs, frozen } => {
            let e0 = ("name"@, WireModel::Text(name));
            let e1 = ("type_id"@, num_u64(type_id));
            let e2 = ("field_names"@, WireModel::Arr(text_nodes(field_names)));
            let e3 = ("attrs"@, WireModel::Arr(enc_pairs(attrs)));
            let e4 = ("frozen"@, WireModel::Bool(frozen));
            let inner = seq![e0, e1, e2, e3, e4];
            lemma_single_dispatch("$dataclass"@, WireModel::Obj(inner));
            assert(inner.drop_first() =~= seq![e1, e2, e3, e4]);
            assert(seq![e1, e2, e3, e4].drop_first() =~= seq![e2, e3, e4]);
            assert(seq![e2, e3, e4].drop_first() =~= seq![e3, e4]);
            assert(seq![e3, e4].drop_first() =~= seq![e4]);
            assert(seq![e4].drop_first() =~= Seq::<(Seq<char>, WireModel)>::empty());
            assert(obj_get(inner, "name"@) == Some(e0.1));
            assert(obj_get(inner, "type_id"@) == Some(e1.1));
            assert(obj_get(inner, "field_names"@) == Some(e2.1));
            assert(obj_get(inner, "attrs"@) == Some(e3.1));
            assert(obj_get(inner, "frozen"@) == Some(e4.1));
            assert(dec_u64_field(Some(num_u64(type_id))) == Some(type_id));
            lemma_texts_round_trip(field_names);
            assert(decreases_to!(m => attrs));
            lemma_pairs_round_trip(attrs);
        },
        ValModel::NamedTuple { ty_name, field_names, values } => {
            let e0 = ("type"@, WireModel::Text(ty_name));
            let e1 = ("field_names"@, WireModel::Arr(text_nodes(field_names)));
            let e2 = ("values"@, WireModel::Arr(enc_seq(values)));
            let inner = seq![e0, e1, e2];
            lemma_single_dispatch("$named_tuple"@, WireModel::Obj(inner));
            assert(inner.drop_first() =~= seq![e1, e2]);
            assert(seq![e1, e2].drop_first() =~= seq![e2]);
            assert(seq![e2].drop_first() =~= Seq::<(Seq<char>, WireModel)>::empty());
            assert(obj_get(inner, "type"@) == Some(e0.1));
            assert(obj_get(inner, "field_names"@) == Some(e1.1));
            assert(obj_get(inner, "values"@) == Some(e2.1));
            lemma_texts_round_trip(field_names);
            assert(decreases_to!(m => values));
            lemma_seq_round_trip(values);
        },
        _ => {},
    }
}


// ---------------------------------------------------------------------------
// Stated laws
// ---------------------------------------------------------------------------

/// Encoding preserves element and pair order exactly: a sequence-bearing
/// value encodes its children positionally, the encoding of child `i`
/// standing at index `i` of the wire array, and a dictionary's pairs keep
/// their insertion order as two-element arrays.
pub proof fn lemma_encode_preserves_order(xs: Seq<ValModel>, ps: Seq<(ValModel, ValModel)>)
    ensures
        enc(ValModel::List(xs)) == WireModel::Arr(enc_seq(xs)),
        enc(ValModel::Tuple(xs)) == tag_obj("$tuple"@, WireModel::Arr(enc_seq(xs))),
        enc(ValModel::Dict(ps)) == tag_obj("$dict"@, WireModel::Arr(enc_pairs(ps))),
        enc_seq(xs).len() == xs.len(),
        forall|i: int| 0 <= i < xs.len() ==> #[trigger] enc_seq(xs)[i] == enc(xs[i]),
        enc_pairs(ps).len() == ps.len(),
        forall|i: int| 0 <= i < ps.len() ==> #[trigger] enc_pairs(ps)[i] == WireModel::Arr(
            seq![enc(ps[i].0), enc(ps[i].1)],
        ),
{
}

/// Decoding returns a dictionary's pairs in the order they were encoded,
/// duplicates included: the codec neither reorders nor deduplicates.
pub proof fn lemma_dict_order_round_trip(ps: Seq<(ValModel, ValModel)>)
    requires
        wf_pairs(ps),
        lossless_pairs(ps),
    ensures
        dec(enc(ValModel::Dict(ps))) == Some(ValModel::Dict(ps)),
{
    lemma_round_trip(ValModel::Dict(ps));
}

/// The wire-number decoding policy: a number in the signed 64-bit range
/// decodes as `Int`; an unsigned one beyond it decodes as a non-negative
/// `BigInt` carrying its decimal digits; any other number stays a `Float`,
/// never collapsing into an integer.
pub proof fn lemma_number_policy(i: i64, u: u64, n: serde_json::Number)
    ensures
        dec(WireModel::Int(i)) == Some(ValModel::Int(i)),
        u <= (i64::MAX as u64) ==> dec(WireModel::Uint(u)) == Some(ValModel::Int(u as i64)),
        u > (i64::MAX as u64) ==> dec(WireModel::Uint(u)) == Some(
            ValModel::BigInt { neg: false, digits: u64_digits(u) },
        ),
        dec(WireModel::Float(n)) == Some(ValModel::Float(n)),
{
}

} // verus!

