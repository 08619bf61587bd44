//! Codec behavior: round trips, number decoding policy, payload rejection.

use monty_ffi::decode::decode_object;
use monty_ffi::encode::{encode_kwargs, encode_object, encode_objects, encode_u32_slice};
use monty_ffi::exc::ExcKind;
use monty_ffi::value::{BigNum, MontyValue, Pair};

fn round_trip(v: &MontyValue) -> MontyValue {
    let text = encode_object(v).expect("encode");
    decode_object(&text).expect("decode")
}

fn assert_same_wire(a: &MontyValue, b: &MontyValue) {
    assert_eq!(
        encode_object(a).expect("encode a"),
        encode_object(b).expect("encode b")
    );
}

#[test]
fn scalars_round_trip() {
    let cases = vec![
        MontyValue::NoneVal,
        MontyValue::Bool(true),
        MontyValue::Bool(false),
        MontyValue::Int(0),
        MontyValue::Int(-5),
        MontyValue::Int(i64::MAX),
        MontyValue::Int(i64::MIN),
        MontyValue::Str("hello".to_owned()),
        MontyValue::Str(String::new()),
        MontyValue::Path("/tmp/x".to_owned()),
        MontyValue::Repr("<function f>".to_owned()),
    ];
    for v in &cases {
        let back = round_trip(v);
        assert_same_wire(v, &back);
    }
}

#[test]
fn containers_round_trip_preserving_order() {
    let dict = MontyValue::Dict(vec![
        Pair { key: MontyValue::Str("b".to_owned()), val: MontyValue::Int(1) },
        Pair { key: MontyValue::Str("a".to_owned()), val: MontyValue::Int(2) },
    ]);
    let back = round_trip(&dict);
    match &back {
        MontyValue::Dict(ps) => {
            assert_eq!(ps.len(), 2);
            assert!(matches!(&ps[0].key, MontyValue::Str(s) if s == "b"));
            assert!(matches!(&ps[0].val, MontyValue::Int(1)));
            assert!(matches!(&ps[1].key, MontyValue::Str(s) if s == "a"));
            assert!(matches!(&ps[1].val, MontyValue::Int(2)));
        }
        other => panic!("expected dict, got {:?}", encode_object(other)),
    }

    let tup = MontyValue::Tuple(vec![
        MontyValue::Int(3),
        MontyValue::Str("x".to_owned()),
        MontyValue::List(vec![MontyValue::Bool(false)]),
    ]);
    assert_same_wire(&tup, &round_trip(&tup));

    let set = MontyValue::SetVal(vec![MontyValue::Int(1), MontyValue::Int(2)]);
    assert_same_wire(&set, &round_trip(&set));
    let fset = MontyValue::FrozenSetVal(vec![MontyValue::Int(9)]);
    assert_same_wire(&fset, &round_trip(&fset));
}

#[test]
fn bigint_round_trips_past_64_bits() {
    // 2^100 in decimal, both signs.
    let text = "1267650600228229401496703205376";
    let pos = decode_object(&format!("{{\"$bigint\":\"{}\"}}", text)).expect("decode");
    match &pos {
        MontyValue::BigInt(b) => {
            assert!(!b.neg);
            assert_eq!(b.digits.len(), text.len());
        }
        _ => panic!("expected bigint"),
    }
    assert_eq!(
        encode_object(&pos).unwrap(),
        format!("{{\"$bigint\":\"{}\"}}", text)
    );
    let neg = decode_object(&format!("{{\"$bigint\":\"-{}\"}}", text)).expect("decode");
    assert_eq!(
        encode_object(&neg).unwrap(),
        format!("{{\"$bigint\":\"-{}\"}}", text)
    );
}

#[test]
fn bigint_literals_normalize() {
    let v = decode_object("{\"$bigint\":\"+0007\"}").expect("decode");
    assert_eq!(encode_object(&v).unwrap(), "{\"$bigint\":\"7\"}");
    let z = decode_object("{\"$bigint\":\"-0\"}").expect("decode");
    assert_eq!(encode_object(&z).unwrap(), "{\"$bigint\":\"0\"}");
    assert!(decode_object("{\"$bigint\":\"\"}").is_err());
    assert!(decode_object("{\"$bigint\":\"12a\"}").is_err());
    assert!(decode_object("{\"$bigint\":3}").is_err());
}

#[test]
fn number_decoding_policy() {
    // Max i64 stays Int.
    match decode_object("9223372036854775807").unwrap() {
        MontyValue::Int(i) => assert_eq!(i, i64::MAX),
        _ => panic!("expected Int"),
    }
    // Max u64 becomes BigInt.
    match decode_object("18446744073709551615").unwrap() {
        MontyValue::BigInt(b) => {
            assert!(!b.neg);
            assert_eq!(b.digits, vec![1, 8, 4, 4, 6, 7, 4, 4, 0, 7, 3, 7, 0, 9, 5, 5, 1, 6, 1, 5]);
        }
        _ => panic!("expected BigInt"),
    }
    // Floats stay floats, even integral ones.
    assert!(matches!(decode_object("1.5").unwrap(), MontyValue::Float(_)));
    assert!(matches!(decode_object("1.0").unwrap(), MontyValue::Float(_)));
    let one = decode_object("1.0").unwrap();
    assert_eq!(encode_object(&one).unwrap(), "1.0");
}

#[test]
fn bytes_round_trip_and_rejection() {
    let v = decode_object("{\"$bytes\":[0,255,128]}").expect("decode");
    match &v {
        MontyValue::Bytes(bs) => assert_eq!(bs, &vec![0u8, 255, 128]),
        _ => panic!("expected bytes"),
    }
    assert_eq!(encode_object(&v).unwrap(), "{\"$bytes\":[0,255,128]}");
    let too_big = decode_object("{\"$bytes\":[256]}");
    assert!(too_big.is_err());
    assert!(too_big.unwrap_err().message().contains("$bytes"));
    assert!(decode_object("{\"$bytes\":[-1]}").is_err());
    assert!(decode_object("{\"$bytes\":[1.5]}").is_err());
    assert!(decode_object("{\"$bytes\":3}").is_err());
}

#[test]
fn dict_shape_keeps_duplicate_keys_in_order() {
    let v = decode_object("{\"$dict\":[[1,\"a\"],[1,\"b\"]]}").expect("decode");
    match &v {
        MontyValue::Dict(ps) => {
            assert_eq!(ps.len(), 2);
            assert!(matches!(ps[0].key, MontyValue::Int(1)));
            assert!(matches!(&ps[0].val, MontyValue::Str(s) if s == "a"));
            assert!(matches!(ps[1].key, MontyValue::Int(1)));
            assert!(matches!(&ps[1].val, MontyValue::Str(s) if s == "b"));
        }
        _ => panic!("expected dict"),
    }
    assert!(decode_object("{\"$dict\":[[1,\"a\",2]]}").is_err());
    assert!(decode_object("{\"$dict\":7}").is_err());
}

#[test]
fn bare_objects_become_string_keyed_dicts() {
    let v = decode_object("{\"x\":1,\"y\":[true,null]}").expect("decode");
    match &v {
        MontyValue::Dict(ps) => {
            assert_eq!(ps.len(), 2);
            assert!(matches!(&ps[0].key, MontyValue::Str(s) if s == "x"));
            assert!(matches!(&ps[1].key, MontyValue::Str(s) if s == "y"));
        }
        _ => panic!("expected dict"),
    }
}

#[test]
fn exceptions_round_trip_by_kind_name() {
    let v = MontyValue::Exception {
        exc_type: ExcKind::ValueError,
        arg: Some("bad value".to_owned()),
    };
    let text = encode_object(&v).unwrap();
    assert_eq!(
        text,
        "{\"$exception\":{\"message\":\"bad value\",\"type\":\"ValueError\"}}"
    );
    assert_same_wire(&v, &round_trip(&v));

    let bare = MontyValue::Exception { exc_type: ExcKind::JsonDecodeError, arg: None };
    assert_eq!(
        encode_object(&bare).unwrap(),
        "{\"$exception\":{\"type\":\"json.JSONDecodeError\"}}"
    );
    assert_same_wire(&bare, &round_trip(&bare));

    let unknown = decode_object("{\"$exception\":{\"type\":\"NoSuchError\"}}");
    assert!(unknown.is_err());
    assert!(unknown.unwrap_err().message().contains("unknown exception type"));
    assert!(decode_object("{\"$exception\":{}}").is_err());
}

#[test]
fn dataclass_and_named_tuple_round_trip() {
    let dc = MontyValue::Dataclass {
        name: "Point".to_owned(),
        type_id: 7,
        field_names: vec!["x".to_owned(), "y".to_owned()],
        attrs: vec![
            Pair { key: MontyValue::Str("x".to_owned()), val: MontyValue::Int(1) },
            Pair { key: MontyValue::Str("y".to_owned()), val: MontyValue::Int(2) },
        ],
        frozen: true,
    };
    assert_same_wire(&dc, &round_trip(&dc));

    let nt = MontyValue::NamedTuple {
        ty_name: "os.stat_result".to_owned(),
        field_names: vec!["st_mode".to_owned()],
        values: vec![MontyValue::Int(33188)],
    };
    assert_same_wire(&nt, &round_trip(&nt));

    assert!(decode_object("{\"$dataclass\":{\"name\":\"P\"}}").is_err());
    assert!(decode_object("{\"$named_tuple\":{\"type\":\"T\"}}").is_err());
}

#[test]
fn ellipsis_and_cycle_are_one_way() {
    let e = encode_object(&MontyValue::Ellipsis).unwrap();
    assert_eq!(e, "{\"$repr\":\"...\"}");
    assert!(matches!(
        decode_object(&e).unwrap(),
        MontyValue::Repr(s) if s == "..."
    ));
    let c = encode_object(&MontyValue::Cycle(3, "[...]".to_owned())).unwrap();
    assert_eq!(c, "{\"$repr\":\"[...]\"}");
    assert!(matches!(
        decode_object(&c).unwrap(),
        MontyValue::Repr(s) if s == "[...]"
    ));
}

#[test]
fn floats_round_trip_through_serde_numbers() {
    let n = serde_json::Number::from_f64(2.5).unwrap();
    let v = MontyValue::Float(n);
    let text = encode_object(&v).unwrap();
    assert_eq!(text, "2.5");
    assert!(matches!(decode_object(&text).unwrap(), MontyValue::Float(_)));
}

#[test]
fn batch_encoders() {
    let vals = vec![MontyValue::Int(1), MontyValue::Str("a".to_owned())];
    assert_eq!(encode_objects(&vals).unwrap(), "[1,\"a\"]");
    let kwargs = vec![Pair {
        key: MontyValue::Str("k".to_owned()),
        val: MontyValue::Bool(true),
    }];
    assert_eq!(encode_kwargs(&kwargs).unwrap(), "[[\"k\",true]]");
    assert_eq!(encode_u32_slice(&vec![1, 2, 3]).unwrap(), "[1,2,3]");
    assert_eq!(encode_u32_slice(&Vec::new()).unwrap(), "[]");
}

#[test]
fn decode_inputs_accepts_blank_and_arrays() {
    assert_eq!(monty_ffi::decode::decode_inputs("").unwrap().len(), 0);
    assert_eq!(monty_ffi::decode::decode_inputs("  \n\t ").unwrap().len(), 0);
    let vs = monty_ffi::decode::decode_inputs("[1,true]").unwrap();
    assert_eq!(vs.len(), 2);
    assert!(matches!(vs[0], MontyValue::Int(1)));
    assert!(matches!(vs[1], MontyValue::Bool(true)));
    assert!(monty_ffi::decode::decode_inputs("{\"a\":1}").is_err());
    assert!(monty_ffi::decode::decode_inputs("not json").is_err());
}

#[test]
fn marker_with_extra_keys_still_dispatches() {
    let v = decode_object("{\"$tuple\":[1],\"junk\":true}").expect("decode");
    assert!(matches!(&v, MontyValue::Tuple(xs) if xs.len() == 1));
}

#[test]
fn nested_structures_round_trip() {
    let v = MontyValue::List(vec![
        MontyValue::Dict(vec![Pair {
            key: MontyValue::Tuple(vec![MontyValue::Int(1), MontyValue::Int(2)]),
            val: MontyValue::Bytes(vec![7, 8]),
        }]),
        MontyValue::BigInt(BigNum { neg: true, digits: vec![4, 2] }),
        MontyValue::SetVal(vec![MontyValue::Str("s".to_owned())]),
    ]);
    assert_same_wire(&v, &round_trip(&v));
}
