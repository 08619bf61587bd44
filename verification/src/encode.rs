//! The executable encoder: values to wire trees, and wire trees to JSON
//! text through the trusted bridge.

use vstd::prelude::*;

use crate::codec::{
    big_chars, byte_nodes, digit_char, enc, enc_pairs, enc_seq, exc_entries, num_u64, tag_obj,
    text_nodes,
};
use crate::error::FfiError;
use crate::value::{strings_model, vmodel_pairs, vmodel_seq, MontyValue, Pair};
use crate::wire::{wire_text, wmodel, wmodel_entries, wmodel_seq, write_wire, Entry, JsonValue, WireModel};

verus! {

broadcast use vstd::std_specs::vec::axiom_vec_index_decreases;

/// The one-character string for a decimal digit; digits above nine render
/// as the encoder's saturating `'9'`.
fn digit_str(d: u8) -> (r: &'static str)
    ensures
        r@ == seq![digit_char(d)],
{
    proof {
        reveal_strlit("0");
        reveal_strlit("1");
        reveal_strlit("2");
        reveal_strlit("3");
        reveal_strlit("4");
        reveal_strlit("5");
        reveal_strlit("6");
        reveal_strlit("7");
        reveal_strlit("8");
        reveal_strlit("9");
    }
    if d == 0 {
        let r = "0";
        assert(r@ =~= seq![digit_char(d)]);
        r
    } else if d == 1 {
        let r = "1";
        assert(r@ =~= seq![digit_char(d)]);
        r
    } else if d == 2 {
        let r = "2";
        assert(r@ =~= seq![digit_char(d)]);
        r
    } else if d == 3 {
        let r = "3";
        assert(r@ =~= seq![digit_char(d)]);
        r
    } else if d == 4 {
        let r = "4";
        assert(r@ =~= seq![digit_char(d)]);
        r
    } else if d == 5 {
        let r = "5";
        assert(r@ =~= seq![digit_char(d)]);
        r
    } else if d == 6 {
        let r = "6";
        assert(r@ =~= seq![digit_char(d)]);
        r
    } else if d == 7 {
        let r = "7";
        assert(r@ =~= seq![digit_char(d)]);
        r
    } else if d == 8 {
        let r = "8";
        assert(r@ =~= seq![digit_char(d)]);
        r
    } else {
        let r = "9";
        assert(r@ =~= seq![digit_char(d)]);
        r
    }
}

/// Renders a sign/digits pair as a decimal literal.
pub fn big_to_string(neg: bool, digits: &Vec<u8>) -> (r: String)
    ensures
        r@ == big_chars(neg, digits@),
{
    proof {
        reveal_strlit("-");
        reveal_strlit("0");
        reveal_strlit("1");
        reveal_strlit("2");
        reveal_strlit("3");
        reveal_strlit("4");
        reveal_strlit("5");
        reveal_strlit("6");
        reveal_strlit("7");
        reveal_strlit("8");
        reveal_strlit("9");
    }
    let ghost sign: Seq<char> = if neg {
        seq!['-']
    } else {
        Seq::empty()
    };
    let mut s = String::new();
    if neg {
        s.append("-");
    }
    assert(s@ =~= sign);
    let mut i: usize = 0;
    while i < digits.len()
        invariant
            i <= digits.len(),
            s@.len() == sign.len() + i,
            s@ =~= sign + Seq::new(i as nat, |j: int| digit_char(digits@[j])),
        decreases digits.len() - i,
    {
        let d = digits[i];
        let dstr = digit_str(d);
        let ghost prevs = s@;
        s.append(dstr);
        proof {
            let target = sign + Seq::new((i + 1) as nat, |j: int| digit_char(digits@[j]));
            assert(s@.len() == target.len());
            assert forall|j: int| 0 <= j < s@.len() implies s@[j] == target[j] by {
                if j < prevs.len() {
                    assert(s@[j] == prevs[j]);
                }
            }
            assert(s@ =~= target);
        }
        i = i + 1;
    }
    assert(s@ =~= big_chars(neg, digits@));
    s
}

/// A single-entry marker object around a payload.
fn tag_node(tag: &str, payload: JsonValue) -> (r: JsonValue)
    ensures
        r@ == tag_obj(tag@, payload@),
{
    let mut es: Vec<Entry> = Vec::new();
    let ghost pm = payload@;
    es.push(Entry { key: tag.to_owned(), value: payload });
    assert(wmodel_entries(es) =~= seq![(tag@, pm)]);
    JsonValue::Obj(es)
}

impl MontyValue {
    /// Encodes one value as its wire tree. Total: every value encodes,
    /// `Ellipsis` and `Cycle` collapsing to inert `$repr` text.
    pub fn encode_wire(&self) -> (r: JsonValue)
        ensures
            r@ == enc(self@),
        decreases *self,
    {
        match self {
            MontyValue::NoneVal => JsonValue::Null,
            MontyValue::Bool(b) => JsonValue::Bool(*b),
            MontyValue::Int(i) => JsonValue::Int(*i),
            MontyValue::Float(n) => JsonValue::Float(n.clone()),
            MontyValue::BigInt(b) => tag_node(
                "$bigint",
                JsonValue::Text(big_to_string(b.neg, &b.digits)),
            ),
            MontyValue::Str(s) => JsonValue::Text(s.clone()),
            MontyValue::Bytes(bs) => {
                let mut ns: Vec<JsonValue> = Vec::new();
                let mut i: usize = 0;
                while i < bs.len()
                    invariant
                        i <= bs.len(),
                        ns@.len() == i,
                        wmodel_seq(ns) =~= byte_nodes(bs@).take(i as int),
                    decreases bs.len() - i,
                {
                    let ghost prev = ns@;
                    ns.push(JsonValue::Int(bs[i] as i64));
                    proof {
                        assert forall|j: int| 0 <= j < i + 1 implies wmodel_seq(ns)[j]
                            == byte_nodes(bs@).take(i + 1 as int)[j] by {
                            if j < i {
                                assert(ns@[j] == prev[j]);
                            }
                            assert(wmodel_seq(ns)[j] == wmodel(ns@[j]));
                        }
                        assert(wmodel_seq(ns) =~= byte_nodes(bs@).take(i + 1 as int));
                    }
                    i = i + 1;
                }
                assert(wmodel_seq(ns) =~= byte_nodes(bs@));
                tag_node("$bytes", JsonValue::Arr(ns))
            },
            MontyValue::Path(s) => tag_node("$path", JsonValue::Text(s.clone())),
            MontyValue::List(xs) => JsonValue::Arr(encode_seq_wire(xs)),
            MontyValue::Tuple(xs) => tag_node("$tuple", JsonValue::Arr(encode_seq_wire(xs))),
            MontyValue::SetVal(xs) => tag_node("$set", JsonValue::Arr(encode_seq_wire(xs))),
            MontyValue::FrozenSetVal(xs) => tag_node(
                "$frozenset",
                JsonValue::Arr(encode_seq_wire(xs)),
            ),
            MontyValue::Dict(ps) => tag_node("$dict", JsonValue::Arr(encode_pairs_wire(ps))),
            MontyValue::Exception { exc_type, arg } => {
                let mut inner: Vec<Entry> = Vec::new();
                inner.push(
                    Entry { key: "type".to_owned(), value: JsonValue::Text(exc_type.name_string()) },
                );
                match arg {
                    Some(msg) => {
                        inner.push(
                            Entry { key: "message".to_owned(), value: JsonValue::Text(msg.clone()) },
                        );
                        assert(wmodel_entries(inner) =~= exc_entries(*exc_type, Some(msg@)));
                    },
                    None => {
                        assert(wmodel_entries(inner) =~= exc_entries(*exc_type, None));
                    },
                }
                tag_node("$exception", JsonValue::Obj(inner))
            },
            MontyValue::Dataclass { name, type_id, field_names, attrs, frozen } => {
                let mut inner: Vec<Entry> = Vec::new();
                inner.push(Entry { key: "name".to_owned(), value: JsonValue::Text(name.clone()) });
                inner.push(Entry { key: "type_id".to_owned(), value: encode_u64_node(*type_id) });
                inner.push(
                    Entry {
                        key: "field_names".to_owned(),
                        value: JsonValue::Arr(encode_texts_wire(field_names)),
                    },
                );
                inner.push(
                    Entry { key: "attrs".to_owned(), value: JsonValue::Arr(encode_pairs_wire(attrs)) },
                );
                inner.push(Entry { key: "frozen".to_owned(), value: JsonValue::Bool(*frozen) });
                assert(wmodel_entries(inner) =~= seq![
                    ("name"@, WireModel::Text(name@)),
                    ("type_id"@, num_u64(*type_id)),
                    ("field_names"@, WireModel::Arr(text_nodes(strings_model(*field_names)))),
                    ("attrs"@, WireModel::Arr(enc_pairs(vmodel_pairs(*attrs)))),
                    ("frozen"@, WireModel::Bool(*frozen)),
                ]);
                tag_node("$dataclass", JsonValue::Obj(inner))
            },
            MontyValue::NamedTuple { ty_name, field_names, values } => {
                let mut inner: Vec<Entry> = Vec::new();
                inner.push(Entry { key: "type".to_owned(), value: JsonValue::Text(ty_name.clone()) });
                inner.push(
                    Entry {
                        key: "field_names".to_owned(),
                        value: JsonValue::Arr(encode_texts_wire(field_names)),
                    },
                );
                inner.push(
                    Entry { key: "values".to_owned(), value: JsonValue::Arr(encode_seq_wire(values)) },
                );
                assert(wmodel_entries(inner) =~= seq![
                    ("type"@, WireModel::Text(ty_name@)),
                    ("field_names"@, WireModel::Arr(text_nodes(strings_model(*field_names)))),
                    ("values"@, WireModel::Arr(enc_seq(vmodel_seq(*values)))),
                ]);
                tag_node("$named_tuple", JsonValue::Obj(inner))
            },
            MontyValue::Repr(s) => tag_node("$repr", JsonValue::Text(s.clone())),
            MontyValue::Ellipsis => tag_node("$repr", JsonValue::Text("...".to_owned())),
            MontyValue::Cycle(_, placeholder) => tag_node(
                "$repr",
                JsonValue::Text(placeholder.clone()),
            ),
        }
    }
}

/// The wire number node carrying a `u64`.
fn encode_u64_node(u: u64) -> (r: JsonValue)
    ensures
        r@ == num_u64(u),
{
    if u <= (i64::MAX as u64) {
        JsonValue::Int(u as i64)
    } else {
        JsonValue::Uint(u)
    }
}

/// Encodes every element of a vector, in order.
fn encode_seq_wire(xs: &Vec<MontyValue>) -> (r: Vec<JsonValue>)
    ensures
        wmodel_seq(r) == enc_seq(vmodel_seq(*xs)),
    decreases *xs,
{
    let mut r: Vec<JsonValue> = Vec::new();
    let mut i: usize = 0;
    while i < xs.len()
        invariant
            i <= xs.len(),
            r@.len() == i,
            wmodel_seq(r) =~= enc_seq(vmodel_seq(*xs)).take(i as int),
        decreases xs.len() - i,
    {
        let ghost prev = r@;
        r.push(xs[i].encode_wire());
        proof {
            assert forall|j: int| 0 <= j < i + 1 implies wmodel_seq(r)[j] == enc_seq(
                vmodel_seq(*xs),
            ).take(i + 1 as int)[j] by {
                if j < i {
                    assert(r@[j] == prev[j]);
                }
                assert(wmodel_seq(r)[j] == wmodel(r@[j]));
            }
            assert(wmodel_seq(r) =~= enc_seq(vmodel_seq(*xs)).take(i + 1 as int));
        }
        i = i + 1;
    }
    assert(wmodel_seq(r) =~= enc_seq(vmodel_seq(*xs)));
    r
}

/// Encodes every pair of a vector as a two-element array, in order.
fn encode_pairs_wire(ps: &Vec<Pair>) -> (r: Vec<JsonValue>)
    ensures
        wmodel_seq(r) == enc_pairs(vmodel_pairs(*ps)),
    decreases *ps,
{
    let mut r: Vec<JsonValue> = Vec::new();
    let mut i: usize = 0;
    while i < ps.len()
        invariant
            i <= ps.len(),
            r@.len() == i,
            wmodel_seq(r) =~= enc_pairs(vmodel_pairs(*ps)).take(i as int),
        decreases ps.len() - i,
    {
        let mut kv: Vec<JsonValue> = Vec::new();
        kv.push(ps[i].key.encode_wire());
        kv.push(ps[i].val.encode_wire());
        assert(wmodel_seq(kv) =~= seq![
            enc(vmodel_pairs(*ps)[i as int].0),
            enc(vmodel_pairs(*ps)[i as int].1),
        ]);
        let ghost prev = r@;
        r.push(JsonValue::Arr(kv));
        proof {
            assert forall|j: int| 0 <= j < i + 1 implies wmodel_seq(r)[j] == enc_pairs(
                vmodel_pairs(*ps),
            ).take(i + 1 as int)[j] by {
                if j < i {
                    assert(r@[j] == prev[j]);
                }
                assert(wmodel_seq(r)[j] == wmodel(r@[j]));
            }
            assert(wmodel_seq(r) =~= enc_pairs(vmodel_pairs(*ps)).take(i + 1 as int));
        }
        i = i + 1;
    }
    assert(wmodel_seq(r) =~= enc_pairs(vmodel_pairs(*ps)));
    r
}

/// Encodes every string of a vector as a text node, in order.
fn encode_texts_wire(ss: &Vec<String>) -> (r: Vec<JsonValue>)
    ensures
        wmodel_seq(r) == text_nodes(strings_model(*ss)),
{
    let mut r: Vec<JsonValue> = Vec::new();
    let mut i: usize = 0;
    while i < ss.len()
        invariant
            i <= ss.len(),
            r@.len() == i,
            wmodel_seq(r) =~= text_nodes(strings_model(*ss)).take(i as int),
        decreases ss.len() - i,
    {
        let ghost prev = r@;
        r.push(JsonValue::Text(ss[i].clone()));
        proof {
            assert forall|j: int| 0 <= j < i + 1 implies wmodel_seq(r)[j] == text_nodes(
                strings_model(*ss),
            ).take(i + 1 as int)[j] by {
                if j < i {
                    assert(r@[j] == prev[j]);
                }
                assert(wmodel_seq(r)[j] == wmodel(r@[j]));
            }
            assert(wmodel_seq(r) =~= text_nodes(strings_model(*ss)).take(i + 1 as int));
        }
        i = i + 1;
    }
    assert(wmodel_seq(r) =~= text_nodes(strings_model(*ss)));
    r
}

/// Encodes one value as JSON text.
pub fn encode_object(value: &MontyValue) -> (r: Result<String, FfiError>)
    ensures
        r matches Ok(s) && s@ == wire_text(enc(value@)),
{
    let tree = value.encode_wire();
    match write_wire(&tree) {
        Ok(s) => Ok(s),
        Err(e) => Err(FfiError::Message(e)),
    }
}

/// Encodes an ordered list of values as a JSON array text.
pub fn encode_objects(values: &Vec<MontyValue>) -> (r: Result<String, FfiError>)
    ensures
        r matches Ok(s) && s@ == wire_text(
            WireModel::Arr(enc_seq(vmodel_seq(*values))),
        ),
{
    let tree = JsonValue::Arr(encode_seq_wire(values));
    match write_wire(&tree) {
        Ok(s) => Ok(s),
        Err(e) => Err(FfiError::Message(e)),
    }
}

/// Encodes an ordered list of key/value pairs as a JSON array of two-element
/// arrays — the `$dict` pair shape without the marker wrapper.
pub fn encode_kwargs(values: &Vec<Pair>) -> (r: Result<String, FfiError>)
    ensures
        r matches Ok(s) && s@ == wire_text(
            WireModel::Arr(enc_pairs(vmodel_pairs(*values))),
        ),
{
    let tree = JsonValue::Arr(encode_pairs_wire(values));
    match write_wire(&tree) {
        Ok(s) => Ok(s),
        Err(e) => Err(FfiError::Message(e)),
    }
}

/// The wire nodes of a `u32` sequence, in order.
pub open spec fn u32_nodes(us: Seq<u32>) -> Seq<crate::wire::WireModel> {
    Seq::new(us.len(), |i: int| WireModel::Int(us[i] as i64))
}

/// Encodes a list of call identifiers as a JSON array of numbers.
pub fn encode_u32_slice(values: &Vec<u32>) -> (r: Result<String, FfiError>)
    ensures
        r matches Ok(s) && s@ == wire_text(WireModel::Arr(u32_nodes(values@))),
{
    let mut ns: Vec<JsonValue> = Vec::new();
    let mut i: usize = 0;
    while i < values.len()
        invariant
            i <= values.len(),
            ns@.len() == i,
            wmodel_seq(ns) =~= u32_nodes(values@).take(i as int),
        decreases values.len() - i,
    {
        let ghost prev = ns@;
        ns.push(JsonValue::Int(values[i] as i64));
        proof {
            assert(ns@ == prev.push(JsonValue::Int(values@[i as int] as i64)));
            assert(ns@.len() == i + 1);
            assert forall|j: int| 0 <= j < i + 1 implies wmodel_seq(ns)[j] == u32_nodes(
                values@,
            ).take(i + 1 as int)[j] by {
                if j < i {
                    assert(ns@[j] == prev[j]);
                    assert(wmodel_seq(ns)[j] == wmodel(ns@[j]));
                } else {
                    assert(wmodel_seq(ns)[j] == wmodel(ns@[j]));
                }
            }
            assert(wmodel_seq(ns) =~= u32_nodes(values@).take(i + 1 as int));
        }
        i = i + 1;
    }
    assert(wmodel_seq(ns) =~= u32_nodes(values@));
    match write_wire(&JsonValue::Arr(ns)) {
        Ok(s) => Ok(s),
        Err(e) => Err(FfiError::Message(e)),
    }
}

} // verus!
