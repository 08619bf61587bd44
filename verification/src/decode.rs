//! The executable decoder: JSON text through the trusted bridge into wire
//! trees, and wire trees into values, rejecting malformed payloads with a
//! descriptive error naming the marker and the expectation that failed.

use vstd::prelude::*;

use crate::codec::{big_parse, big_rest, big_sign, big_digit_values, char_digit, dec, dec_bare, dec_bytes_payload, dec_dataclass_payload, dec_elems, dec_exc_msg, dec_exception_payload, dec_named_tuple_payload, dec_pair_node, dec_pairs, dec_seq, dec_texts, dec_uint, strip_zeros, u64_digits, CollectionKind};
use crate::error::FfiError;
use crate::exc::ExcKind;
use crate::value::{vmodel, vmodel_pairs, vmodel_seq, BigNum, MontyValue, Pair};
use crate::wire::{obj_get, wire_parse, wmodel, wmodel_entries, wmodel_seq, Entry, JsonValue,
    WireModel};

verus! {

broadcast use vstd::std_specs::vec::axiom_vec_index_decreases, vstd::seq::axiom_seq_index_decreases;

// ---------------------------------------------------------------------------
// Key lookup
// ---------------------------------------------------------------------------

/// Skipping entries whose keys all differ from `key` leaves the lookup
/// result unchanged.
proof fn lemma_obj_get_skip(es: Seq<(Seq<char>, WireModel)>, key: Seq<char>, j: int)
    requires
        0 <= j <= es.len(),
        forall|k: int| 0 <= k < j ==> (#[trigger] es[k]).0 != key,
    ensures
        obj_get(es, key) == obj_get(es.skip(j), key),
    decreases j,
{
    if j > 0 {
        lemma_obj_get_skip(es.drop_first(), key, j - 1);
        assert(es.drop_first().skip(j - 1) =~= es.skip(j));
        assert(es.skip(0) =~= es);
    } else {
        assert(es.skip(0) =~= es);
    }
}

/// Finds the first entry under `key`, tying the result to `obj_get` on the
/// object's model.
pub(crate) fn obj_find(es: &Vec<Entry>, key: &str) -> (r: Option<usize>)
    ensures
        (r matches Some(i) ==> i < es.len() && es@[i as int].key@ == key@ && obj_get(
            wmodel_entries(*es),
            key@,
        ) == Some(wmodel(es@[i as int].value))),
        (r is None ==> obj_get(wmodel_entries(*es), key@) is None),
{
    let ks: String = key.to_owned();
    let ghost m = wmodel_entries(*es);
    let mut j: usize = 0;
    while j < es.len()
        invariant
            j <= es.len(),
            ks@ == key@,
            m == wmodel_entries(*es),
            forall|k: int| 0 <= k < j ==> (#[trigger] m[k]).0 != key@,
        decreases es.len() - j,
    {
        if es[j].key == ks {
            proof {
                lemma_obj_get_skip(m, key@, j as int);
                assert(m.skip(j as int)[0] == m[j as int]);
                assert(m.skip(j as int).len() > 0);
            }
            return Some(j);
        }
        assert(m[j as int].0 != key@);
        j = j + 1;
    }
    proof {
        lemma_obj_get_skip(m, key@, es@.len() as int);
        assert(m.skip(es@.len() as int) =~= Seq::<(Seq<char>, WireModel)>::empty());
    }
    None
}

// ---------------------------------------------------------------------------
// Decimal digits
// ---------------------------------------------------------------------------

/// The decimal digits of a `u64`, most significant first.
pub fn u64_to_digits(n: u64) -> (r: Vec<u8>)
    ensures
        r@ == u64_digits(n),
    decreases n,
{
    if n < 10 {
        let mut v: Vec<u8> = Vec::new();
        v.push(n as u8);
        assert(v@ =~= u64_digits(n));
        v
    } else {
        let mut v = u64_to_digits(n / 10);
        v.push((n % 10) as u8);
        assert(v@ =~= u64_digits(n));
        v
    }
}

/// Stripping exactly the leading zeros is what `strip_zeros` does.
proof fn lemma_strip_skip(ds: Seq<u8>, k: int)
    requires
        0 <= k < ds.len(),
        forall|j: int| 0 <= j < k ==> ds[j] == 0,
        k == ds.len() - 1 || ds[k] != 0,
    ensures
        strip_zeros(ds) == ds.skip(k),
    decreases k,
{
    if k == 0 {
        assert(ds.skip(0) =~= ds);
    } else {
        lemma_strip_skip(ds.drop_first(), k - 1);
        assert(ds.drop_first().skip(k - 1) =~= ds.skip(k));
    }
}

/// Parses a decimal integer literal into canonical sign/digits form:
/// an optional sign, then one or more digits; leading zeros dropped and a
/// zero value never negative.
pub fn parse_bigint(s: &String) -> (r: Option<BigNum>)
    ensures
        (r matches Some(b) ==> big_parse(s@) == Some((b.neg, b.digits@)) && b.ok()),
        (r is None ==> big_parse(s@) is None),
{
    let n = s.as_str().unicode_len();
    let mut start: usize = 0;
    let mut neg = false;
    if n > 0 {
        let c0 = s.as_str().get_char(0);
        if c0 == '-' {
            neg = true;
            start = 1;
        } else if c0 == '+' {
            start = 1;
        }
    }
    let ghost rest: Seq<char> = big_rest(s@);
    assert(rest.len() == s@.len() - start);
    assert(forall|j: int| 0 <= j < rest.len() ==> rest[j] == s@[start + j]);
    if start >= n {
        assert(rest.len() == 0);
        return None;
    }
    let mut raw: Vec<u8> = Vec::new();
    let mut i = start;
    while i < n
        invariant
            start <= i <= n,
            n == s@.len(),
            start < n,
            neg == big_sign(s@),
            rest == big_rest(s@),
            raw@.len() == i - start,
            rest.len() == n - start,
            forall|j: int| 0 <= j < rest.len() ==> rest[j] == s@[start + j],
            forall|j: int| 0 <= j < i - start ==> char_digit(#[trigger] rest[j]) == Some(
                raw@[j],
            ),
        decreases n - i,
    {
        let c = s.as_str().get_char(i);
        let d: u8 = if c == '0' {
            0
        } else if c == '1' {
            1
        } else if c == '2' {
            2
        } else if c == '3' {
            3
        } else if c == '4' {
            4
        } else if c == '5' {
            5
        } else if c == '6' {
            6
        } else if c == '7' {
            7
        } else if c == '8' {
            8
        } else if c == '9' {
            9
        } else {
            proof {
                assert(char_digit(rest[i - start]) is None);
                assert(0 <= i - start < rest.len());
                assert(!(forall|j: int|
                    0 <= j < rest.len() ==> char_digit(#[trigger] rest[j]) is Some));
                assert(big_parse(s@) is None);
            }
            return None;
        };
        assert(char_digit(rest[i - start]) == Some(d));
        raw.push(d);
        i = i + 1;
    }
    let ghost mapped = big_digit_values(s@);
    proof {
        assert(mapped =~= raw@);
    }
    let mut k: usize = 0;
    while k + 1 < raw.len() && raw[k] == 0
        invariant
            k < raw.len(),
            raw@.len() >= 1,
            forall|j: int| 0 <= j < k ==> raw@[j] == 0,
        decreases raw.len() - k,
    {
        k = k + 1;
    }
    proof {
        lemma_strip_skip(raw@, k as int);
    }
    let mut digits: Vec<u8> = Vec::new();
    let mut t = k;
    while t < raw.len()
        invariant
            k <= t <= raw@.len(),
            digits@ =~= raw@.subrange(k as int, t as int),
        decreases raw.len() - t,
    {
        digits.push(raw[t]);
        assert(digits@ =~= raw@.subrange(k as int, t + 1 as int));
        t = t + 1;
    }
    assert(digits@ =~= raw@.skip(k as int));
    let zero = digits.len() == 1 && digits[0] == 0;
    proof {
        if zero {
            assert(digits@ =~= seq![0u8]);
        } else {
            assert(!(digits@ == seq![0u8]));
        }
    }
    let b = BigNum { neg: neg && !zero, digits };
    assert(big_parse(s@) == Some((b.neg, b.digits@)));
    Some(b)
}

/// The value a `u64`-shaped wire number decodes to.
fn decode_uint(u: u64) -> (r: MontyValue)
    ensures
        r@ == dec_uint(u),
{
    if u <= (i64::MAX as u64) {
        MontyValue::Int(u as i64)
    } else {
        MontyValue::BigInt(BigNum { neg: false, digits: u64_to_digits(u) })
    }
}

// ---------------------------------------------------------------------------
// Tree decoding
// ---------------------------------------------------------------------------

impl JsonValue {
    /// Decodes one wire node into a value, or rejects it with a descriptive
    /// error. Succeeds exactly where the codec's `dec` accepts the node, and
    /// then returns exactly the value `dec` names.
    pub fn decode_wire(&self) -> (r: Result<MontyValue, FfiError>)
        ensures
            (r matches Ok(v) ==> dec(self@) == Some(v@)),
            (r is Err ==> dec(self@) is None),
        decreases *self,
    {
        match self {
            JsonValue::Null => Ok(MontyValue::NoneVal),
            JsonValue::Bool(b) => Ok(MontyValue::Bool(*b)),
            JsonValue::Int(i) => Ok(MontyValue::Int(*i)),
            JsonValue::Uint(u) => Ok(decode_uint(*u)),
            JsonValue::Float(n) => Ok(MontyValue::Float(n.clone())),
            JsonValue::Text(s) => Ok(MontyValue::Str(s.clone())),
            JsonValue::Arr(xs) => match decode_seq(xs) {
                Ok(vs) => Ok(MontyValue::List(vs)),
                Err(e) => Err(e),
            },
            JsonValue::Obj(es) => decode_obj(es),
        }
    }
}

/// Decodes every node of an array, in order.
fn decode_seq(xs: &Vec<JsonValue>) -> (r: Result<Vec<MontyValue>, FfiError>)
    ensures
        (r matches Ok(vs) ==> dec_seq(wmodel_seq(*xs)) == Some(vmodel_seq(vs))),
        (r is Err ==> dec_seq(wmodel_seq(*xs)) is None),
    decreases *xs,
{
    let ghost m = wmodel_seq(*xs);
    let mut out: Vec<MontyValue> = Vec::new();
    let mut i: usize = 0;
    while i < xs.len()
        invariant
            i <= xs.len(),
            out@.len() == i,
            m == wmodel_seq(*xs),
            m.len() == xs@.len(),
            forall|j: int| 0 <= j < i ==> dec(#[trigger] m[j]) == Some(vmodel(out@[j])),
        decreases xs.len() - i,
    {
        match xs[i].decode_wire() {
            Ok(v) => {
                proof {
                    assert(m[i as int] == wmodel(xs@[i as int]));
                }
                out.push(v);
            },
            Err(e) => {
                proof {
                    assert(dec(m[i as int]) is None);
                    assert(!(forall|j: int| 0 <= j < m.len() ==> dec(#[trigger] m[j]) is Some));
                }
                return Err(e);
            },
        }
        i = i + 1;
    }
    proof {
        assert(forall|j: int| 0 <= j < m.len() ==> dec(#[trigger] m[j]) is Some);
        let inner = Seq::new(
            m.len(),
            |j: int| if 0 <= j < m.len() {
                match dec(m[j]) {
                    Some(v) => v,
                    None => crate::value::ValModel::NoneVal,
                }
            } else {
                crate::value::ValModel::NoneVal
            },
        );
        assert(vmodel_seq(out) =~= inner);
    }
    Ok(out)
}

/// Decodes every `[key, value]` entry of a `$dict`-shaped array, in order.
fn decode_pairs(xs: &Vec<JsonValue>) -> (r: Result<Vec<Pair>, FfiError>)
    ensures
        (r matches Ok(ps) ==> dec_pairs(wmodel_seq(*xs)) == Some(vmodel_pairs(ps))),
        (r is Err ==> dec_pairs(wmodel_seq(*xs)) is None),
    decreases *xs,
{
    let ghost m = wmodel_seq(*xs);
    let mut out: Vec<Pair> = Vec::new();
    let mut i: usize = 0;
    while i < xs.len()
        invariant
            i <= xs.len(),
            out@.len() == i,
            m == wmodel_seq(*xs),
            m.len() == xs@.len(),
            forall|j: int| 0 <= j < i ==> crate::codec::pair_node_ok(#[trigger] m[j])
                && dec_pair_node(m[j]) == (vmodel(out@[j].key), vmodel(out@[j].val)),
        decreases xs.len() - i,
    {
        proof {
            assert(m[i as int] == wmodel(xs@[i as int]));
        }
        match &xs[i] {
            JsonValue::Arr(kv) => {
                if kv.len() != 2 {
                    proof {
                        assert(!crate::codec::pair_node_ok(m[i as int]));
                        assert(!(forall|j: int|
                            0 <= j < m.len() ==> crate::codec::pair_node_ok(#[trigger] m[j])));
                    }
                    return Err(FfiError::Message("invalid $dict entry".to_owned()));
                }
                proof {
                    assert(wmodel_seq(*kv)[0] == wmodel(kv@[0]));
                    assert(wmodel_seq(*kv)[1] == wmodel(kv@[1]));
                }
                let key = match kv[0].decode_wire() {
                    Ok(v) => v,
                    Err(e) => {
                        proof {
                            assert(!crate::codec::pair_node_ok(m[i as int]));
                            assert(!(forall|j: int|
                                0 <= j < m.len() ==> crate::codec::pair_node_ok(
                                    #[trigger] m[j],
                                )));
                        }
                        return Err(e);
                    },
                };
                let val = match kv[1].decode_wire() {
                    Ok(v) => v,
                    Err(e) => {
                        proof {
                            assert(!crate::codec::pair_node_ok(m[i as int]));
                            assert(!(forall|j: int|
                                0 <= j < m.len() ==> crate::codec::pair_node_ok(
                                    #[trigger] m[j],
                                )));
                        }
                        return Err(e);
                    },
                };
                proof {
                    assert(crate::codec::pair_node_ok(m[i as int]));
                }
                out.push(Pair { key, val });
            },
            _ => {
                proof {
                    assert(!crate::codec::pair_node_ok(m[i as int]));
                    assert(!(forall|j: int|
                        0 <= j < m.len() ==> crate::codec::pair_node_ok(#[trigger] m[j])));
                }
                return Err(FfiError::Message("invalid $dict entry".to_owned()));
            },
        }
        i = i + 1;
    }
    proof {
        let inner = Seq::new(
            m.len(),
            |j: int| if 0 <= j < m.len() {
                dec_pair_node(m[j])
            } else {
                (crate::value::ValModel::NoneVal, crate::value::ValModel::NoneVal)
            },
        );
        assert(vmodel_pairs(out) =~= inner);
    }
    Ok(out)
}


/// Decodes an array-of-strings payload, in order.
fn decode_texts(xs: &Vec<JsonValue>, err: &str) -> (r: Result<Vec<String>, FfiError>)
    ensures
        (r matches Ok(ss) ==> dec_texts(wmodel_seq(*xs)) == Some(crate::value::strings_model(ss))),
        (r is Err ==> dec_texts(wmodel_seq(*xs)) is None),
{
    let ghost m = wmodel_seq(*xs);
    let mut out: Vec<String> = Vec::new();
    let mut i: usize = 0;
    while i < xs.len()
        invariant
            i <= xs.len(),
            out@.len() == i,
            m == wmodel_seq(*xs),
            m.len() == xs@.len(),
            forall|j: int| 0 <= j < i ==> ((#[trigger] m[j]) matches WireModel::Text(t)
                && out@[j]@ == t),
        decreases xs.len() - i,
    {
        proof {
            assert(m[i as int] == wmodel(xs@[i as int]));
        }
        match &xs[i] {
            JsonValue::Text(s) => {
                out.push(s.clone());
            },
            _ => {
                proof {
                    assert(!((#[trigger] m[i as int]) is Text));
                    assert(!(forall|j: int| 0 <= j < m.len() ==> (#[trigger] m[j]) is Text));
                }
                return Err(FfiError::Message(err.to_owned()));
            },
        }
        i = i + 1;
    }
    proof {
        assert(forall|j: int| 0 <= j < m.len() ==> (#[trigger] m[j]) is Text);
        let inner = Seq::new(
            m.len(),
            |j: int| match m[j] {
                WireModel::Text(s) => s,
                _ => Seq::<char>::empty(),
            },
        );
        assert(crate::value::strings_model(out) =~= inner);
    }
    Ok(out)
}

/// Decodes an element-array payload into the collection `kind` names.
fn decode_elems(p: &JsonValue, kind: CollectionKind, err: &str) -> (r: Result<
    MontyValue,
    FfiError,
>)
    ensures
        (r matches Ok(v) ==> dec_elems(p@, kind) == Some(v@)),
        (r is Err ==> dec_elems(p@, kind) is None),
    decreases *p,
{
    match p {
        JsonValue::Arr(xs) => match decode_seq(xs) {
            Ok(vs) => Ok(
                match kind {
                    CollectionKind::Tuple => MontyValue::Tuple(vs),
                    CollectionKind::SetVal => MontyValue::SetVal(vs),
                    CollectionKind::FrozenSetVal => MontyValue::FrozenSetVal(vs),
                },
            ),
            Err(e) => Err(e),
        },
        _ => Err(FfiError::Message(err.to_owned())),
    }
}

/// Decodes a `$bytes` payload: integers in `0..=255`, one per byte.
fn decode_bytes_payload(p: &JsonValue) -> (r: Result<MontyValue, FfiError>)
    ensures
        (r matches Ok(v) ==> dec_bytes_payload(p@) == Some(v@)),
        (r is Err ==> dec_bytes_payload(p@) is None),
{
    match p {
        JsonValue::Arr(xs) => {
            let ghost m = wmodel_seq(*xs);
            proof {
                assert(*p == JsonValue::Arr(*xs));
                assert(p@ == WireModel::Arr(m));
            }
            let mut out: Vec<u8> = Vec::new();
            let mut i: usize = 0;
            while i < xs.len()
                invariant
                    i <= xs.len(),
                    out@.len() == i,
                    m == wmodel_seq(*xs),
                    m.len() == xs@.len(),
                    p@ == WireModel::Arr(m),
                    forall|j: int| 0 <= j < i ==> ((#[trigger] m[j]) matches WireModel::Int(b)
                        && 0 <= b <= 255 && out@[j] == b as u8),
                decreases xs.len() - i,
            {
                proof {
                    assert(m[i as int] == wmodel(xs@[i as int]));
                }
                match &xs[i] {
                    JsonValue::Int(b) => {
                        if *b < 0 || *b > 255 {
                            proof {
                                bytes_reject(m, i as int);
                            }
                            return Err(FfiError::Message("$bytes expects integers".to_owned()));
                        }
                        out.push(*b as u8);
                    },
                    _ => {
                        proof {
                            bytes_reject(m, i as int);
                        }
                        return Err(FfiError::Message("$bytes expects integers".to_owned()));
                    },
                }
                i = i + 1;
            }
            proof {
                assert(forall|j: int| 0 <= j < m.len() ==> match #[trigger] m[j] {
                    WireModel::Int(b) => 0 <= b <= 255,
                    _ => false,
                });
                let inner = Seq::new(
                    m.len(),
                    |j: int| match m[j] {
                        WireModel::Int(b) => b as u8,
                        _ => 0u8,
                    },
                );
                assert(out@ =~= inner);
            }
            Ok(MontyValue::Bytes(out))
        },
        _ => Err(FfiError::Message("$bytes must be an array".to_owned())),
    }
}

/// One rejected element refutes the all-elements condition of `$bytes`.
proof fn bytes_reject(m: Seq<WireModel>, i: int)
    requires
        0 <= i < m.len(),
        !match m[i] {
            WireModel::Int(b) => 0 <= b <= 255,
            _ => false,
        },
    ensures
        !(forall|j: int| 0 <= j < m.len() ==> match #[trigger] m[j] {
            WireModel::Int(b) => 0 <= b <= 255,
            _ => false,
        }),
{
}

/// Decodes a `$exception` payload.
fn decode_exception_payload(p: &JsonValue) -> (r: Result<MontyValue, FfiError>)
    ensures
        (r matches Ok(v) ==> dec_exception_payload(p@) == Some(v@)),
        (r is Err ==> dec_exception_payload(p@) is None),
{
    match p {
        JsonValue::Obj(inner) => {
            let ghost im = wmodel_entries(*inner);
            let t = match obj_find(inner, "type") {
                Some(i) => match &inner[i].value {
                    JsonValue::Text(t) => t.clone(),
                    _ => {
                        return Err(FfiError::Message("$exception.type missing".to_owned()));
                    },
                },
                None => {
                    return Err(FfiError::Message("$exception.type missing".to_owned()));
                },
            };
            let k = match ExcKind::parse_name(&t) {
                Some(k) => k,
                None => {
                    return Err(FfiError::Message("unknown exception type".to_owned()));
                },
            };
            let arg: Option<String> = match obj_find(inner, "message") {
                Some(i) => match &inner[i].value {
                    JsonValue::Text(msg) => Some(msg.clone()),
                    _ => None,
                },
                None => None,
            };
            proof {
                match &arg {
                    Some(msg) => assert(dec_exc_msg(im) == Some(msg@)),
                    None => assert(dec_exc_msg(im) is None),
                }
            }
            Ok(MontyValue::Exception { exc_type: k, arg })
        },
        _ => Err(FfiError::Message("$exception must be an object".to_owned())),
    }
}

/// Decodes a `$dataclass` payload.
fn decode_dataclass_payload(p: &JsonValue) -> (r: Result<MontyValue, FfiError>)
    ensures
        (r matches Ok(v) ==> dec_dataclass_payload(p@) == Some(v@)),
        (r is Err ==> dec_dataclass_payload(p@) is None),
    decreases *p,
{
    match p {
        JsonValue::Obj(inner) => {
            let name = match obj_find(inner, "name") {
                Some(i) => match &inner[i].value {
                    JsonValue::Text(t) => t.clone(),
                    _ => {
                        return Err(FfiError::Message("$dataclass.name missing".to_owned()));
                    },
                },
                None => {
                    return Err(FfiError::Message("$dataclass.name missing".to_owned()));
                },
            };
            let type_id: u64 = match obj_find(inner, "type_id") {
                Some(i) => match &inner[i].value {
                    JsonValue::Int(x) => {
                        if *x >= 0 {
                            *x as u64
                        } else {
                            return Err(
                                FfiError::Message("$dataclass.type_id missing".to_owned()),
                            );
                        }
                    },
                    JsonValue::Uint(u) => *u,
                    _ => {
                        return Err(FfiError::Message("$dataclass.type_id missing".to_owned()));
                    },
                },
                None => {
                    return Err(FfiError::Message("$dataclass.type_id missing".to_owned()));
                },
            };
            let field_names = match obj_find(inner, "field_names") {
                Some(i) => match &inner[i].value {
                    JsonValue::Arr(fs) => match decode_texts(fs, "invalid field_names") {
                        Ok(ss) => ss,
                        Err(e) => {
                            return Err(e);
                        },
                    },
                    _ => {
                        return Err(
                            FfiError::Message("$dataclass.field_names missing".to_owned()),
                        );
                    },
                },
                None => {
                    return Err(FfiError::Message("$dataclass.field_names missing".to_owned()));
                },
            };
            let attrs = match obj_find(inner, "attrs") {
                Some(i) => match &inner[i].value {
                    JsonValue::Arr(axs) => match decode_pairs(axs) {
                        Ok(ps) => ps,
                        Err(e) => {
                            return Err(e);
                        },
                    },
                    _ => {
                        return Err(FfiError::Message("$dict must be an array".to_owned()));
                    },
                },
                None => {
                    return Err(FfiError::Message("$dataclass.attrs missing".to_owned()));
                },
            };
            let frozen: bool = match obj_find(inner, "frozen") {
                Some(i) => match &inner[i].value {
                    JsonValue::Bool(b) => *b,
                    _ => false,
                },
                None => false,
            };
            Ok(MontyValue::Dataclass { name, type_id, field_names, attrs, frozen })
        },
        _ => Err(FfiError::Message("$dataclass must be an object".to_owned())),
    }
}

/// Decodes a `$named_tuple` payload.
fn decode_named_tuple_payload(p: &JsonValue) -> (r: Result<MontyValue, FfiError>)
    ensures
        (r matches Ok(v) ==> dec_named_tuple_payload(p@) == Some(v@)),
        (r is Err ==> dec_named_tuple_payload(p@) is None),
    decreases *p,
{
    match p {
        JsonValue::Obj(inner) => {
            let ty_name = match obj_find(inner, "type") {
                Some(i) => match &inner[i].value {
                    JsonValue::Text(t) => t.clone(),
                    _ => {
                        return Err(FfiError::Message("$named_tuple.type missing".to_owned()));
                    },
                },
                None => {
                    return Err(FfiError::Message("$named_tuple.type missing".to_owned()));
                },
            };
            let field_names = match obj_find(inner, "field_names") {
                Some(i) => match &inner[i].value {
                    JsonValue::Arr(fs) => match decode_texts(fs, "invalid field_names") {
                        Ok(ss) => ss,
                        Err(e) => {
                            return Err(e);
                        },
                    },
                    _ => {
                        return Err(
                            FfiError::Message("$named_tuple.field_names missing".to_owned()),
                        );
                    },
                },
                None => {
                    return Err(
                        FfiError::Message("$named_tuple.field_names missing".to_owned()),
                    );
                },
            };
            let values = match obj_find(inner, "values") {
                Some(i) => match &inner[i].value {
                    JsonValue::Arr(vs) => match decode_seq(vs) {
                        Ok(out) => out,
                        Err(e) => {
                            return Err(e);
                        },
                    },
                    _ => {
                        return Err(FfiError::Message("$named_tuple.values missing".to_owned()));
                    },
                },
                None => {
                    return Err(FfiError::Message("$named_tuple.values missing".to_owned()));
                },
            };
            Ok(MontyValue::NamedTuple { ty_name, field_names, values })
        },
        _ => Err(FfiError::Message("$named_tuple must be an object".to_owned())),
    }
}

/// Decodes an object with no marker key as a string-keyed `Dict`.
fn decode_bare(es: &Vec<Entry>) -> (r: Result<MontyValue, FfiError>)
    ensures
        (r matches Ok(v) ==> dec_bare(wmodel_entries(*es)) == Some(v@)),
        (r is Err ==> dec_bare(wmodel_entries(*es)) is None),
    decreases *es, 0int,
{
    let ghost m = wmodel_entries(*es);
    let mut out: Vec<Pair> = Vec::new();
    let mut i: usize = 0;
    while i < es.len()
        invariant
            i <= es.len(),
            out@.len() == i,
            m == wmodel_entries(*es),
            m.len() == es@.len(),
            forall|j: int| 0 <= j < i ==> dec((#[trigger] m[j]).1) is Some,
            forall|j: int| 0 <= j < i ==> (vmodel((#[trigger] out@[j]).key), vmodel(
                out@[j].val,
            )) == (
                crate::value::ValModel::Str(m[j].0),
                match dec(m[j].1) {
                    Some(v) => v,
                    None => crate::value::ValModel::NoneVal,
                },
            ),
        decreases es.len() - i,
    {
        proof {
            assert(m[i as int] == (es@[i as int].key@, wmodel(es@[i as int].value)));
        }
        match es[i].value.decode_wire() {
            Ok(v) => {
                out.push(Pair { key: MontyValue::Str(es[i].key.clone()), val: v });
            },
            Err(e) => {
                proof {
                    assert(dec(m[i as int].1) is None);
                    assert(!(forall|j: int| 0 <= j < m.len() ==> dec(
                        #[trigger] m[j].1,
                    ) is Some));
                }
                return Err(e);
            },
        }
        i = i + 1;
    }
    proof {
        assert(forall|j: int| 0 <= j < m.len() ==> dec(#[trigger] m[j].1) is Some);
        if let Some(crate::value::ValModel::Dict(ps)) = dec_bare(m) {
            assert(vmodel_pairs(out) =~= ps);
        }
    }
    Ok(MontyValue::Dict(out))
}

/// Decodes an object node: a tagged escape where a reserved marker key is
/// present (tried in fixed priority order), else a bare string-keyed `Dict`.
fn decode_obj(es: &Vec<Entry>) -> (r: Result<MontyValue, FfiError>)
    ensures
        (r matches Ok(v) ==> dec(WireModel::Obj(wmodel_entries(*es))) == Some(v@)),
        (r is Err ==> dec(WireModel::Obj(wmodel_entries(*es))) is None),
    decreases *es, 1int,
{
    if let Some(i) = obj_find(es, "$tuple") {
        decode_elems(&es[i].value, CollectionKind::Tuple, "$tuple must be an array")
    } else if let Some(i) = obj_find(es, "$bytes") {
        decode_bytes_payload(&es[i].value)
    } else if let Some(i) = obj_find(es, "$set") {
        decode_elems(&es[i].value, CollectionKind::SetVal, "expected array")
    } else if let Some(i) = obj_find(es, "$frozenset") {
        decode_elems(&es[i].value, CollectionKind::FrozenSetVal, "expected array")
    } else if let Some(i) = obj_find(es, "$dict") {
        match &es[i].value {
            JsonValue::Arr(xs) => match decode_pairs(xs) {
                Ok(ps) => Ok(MontyValue::Dict(ps)),
                Err(e) => Err(e),
            },
            _ => Err(FfiError::Message("$dict must be an array".to_owned())),
        }
    } else if let Some(i) = obj_find(es, "$bigint") {
        match &es[i].value {
            JsonValue::Text(s) => match parse_bigint(s) {
                Some(b) => Ok(MontyValue::BigInt(b)),
                None => Err(FfiError::Message("invalid bigint literal".to_owned())),
            },
            _ => Err(FfiError::Message("$bigint must be a string".to_owned())),
        }
    } else if let Some(i) = obj_find(es, "$path") {
        match &es[i].value {
            JsonValue::Text(s) => Ok(MontyValue::Path(s.clone())),
            _ => Err(FfiError::Message("$path must be a string".to_owned())),
        }
    } else if let Some(i) = obj_find(es, "$repr") {
        match &es[i].value {
            JsonValue::Text(s) => Ok(MontyValue::Repr(s.clone())),
            _ => Err(FfiError::Message("$repr must be a string".to_owned())),
        }
    } else if let Some(i) = obj_find(es, "$exception") {
        decode_exception_payload(&es[i].value)
    } else if let Some(i) = obj_find(es, "$dataclass") {
        decode_dataclass_payload(&es[i].value)
    } else if let Some(i) = obj_find(es, "$named_tuple") {
        decode_named_tuple_payload(&es[i].value)
    } else {
        decode_bare(es)
    }
}

// ---------------------------------------------------------------------------
// Public text entry points
// ---------------------------------------------------------------------------

/// Decodes one wire tree into a value.
pub fn decode_value(value: JsonValue) -> (r: Result<MontyValue, FfiError>)
    ensures
        (r matches Ok(v) ==> dec(value@) == Some(v@)),
        (r is Err ==> dec(value@) is None),
{
    value.decode_wire()
}

/// Decodes one JSON text into a value.
pub fn decode_object(json: &str) -> (r: Result<MontyValue, FfiError>)
    ensures
        (r matches Ok(v) ==> wire_parse(json@) matches Some(w) && dec(w) == Some(v@)),
        (r is Err ==> match wire_parse(json@) {
            Some(w) => dec(w) is None,
            None => true,
        }),
{
    match crate::wire::parse_wire(json) {
        Ok(tree) => tree.decode_wire(),
        Err(e) => Err(FfiError::Message(e)),
    }
}

/// True iff the text is empty or all ASCII whitespace.
pub open spec fn is_blank(s: Seq<char>) -> bool {
    forall|i: int| 0 <= i < s.len() ==> (#[trigger] s[i] == ' ' || s[i] == '\t' || s[i] == '\n'
        || s[i] == '\r')
}

/// Decodes the inputs text: blank text means no inputs; otherwise a JSON
/// array whose elements each decode.
pub fn decode_inputs(json: &str) -> (r: Result<Vec<MontyValue>, FfiError>)
    ensures
        (is_blank(json@) ==> (r matches Ok(vs) && vs@.len() == 0)),
        (!is_blank(json@) ==> match wire_parse(json@) {
            Some(w) => match w {
                WireModel::Arr(xs) => match dec_seq(xs) {
                    Some(ms) => r matches Ok(vs) && vmodel_seq(vs) == ms,
                    None => r is Err,
                },
                _ => r is Err,
            },
            None => r is Err,
        }),
{
    let n = json.unicode_len();
    let mut i: usize = 0;
    let mut blank = true;
    while i < n && blank
        invariant
            i <= n,
            n == json@.len(),
            blank ==> forall|j: int| 0 <= j < i ==> (#[trigger] json@[j] == ' ' || json@[j]
                == '\t' || json@[j] == '\n' || json@[j] == '\r'),
            !blank ==> !is_blank(json@),
        decreases n - i,
    {
        let c = json.get_char(i);
        if !(c == ' ' || c == '\t' || c == '\n' || c == '\r') {
            blank = false;
            assert(!is_blank(json@));
        }
        i = i + 1;
    }
    if blank {
        assert(is_blank(json@));
        return Ok(Vec::new());
    }
    match crate::wire::parse_wire(json) {
        Ok(tree) => match tree {
            JsonValue::Arr(xs) => match decode_seq(&xs) {
                Ok(vs) => Ok(vs),
                Err(e) => Err(e),
            },
            _ => Err(FfiError::Message("expected JSON array for inputs".to_owned())),
        },
        Err(e) => Err(FfiError::Message(e)),
    }
}

} // verus!
