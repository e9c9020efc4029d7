use vortex_wasm::error::Error;
use vortex_wasm::project::{to_js_val, widen_value, HostValue, Number};
use vortex_wasm::scalar::{PType, PValue, Scalar};

fn as_double(n: Number) -> f64 {
    match n {
        Number::Unsigned(v) => v as f64,
        Number::Signed(v) => v as f64,
        Number::Single(bits) => f32::from_bits(bits) as f64,
        Number::Double(bits) => f64::from_bits(bits),
    }
}

fn fields(value: &HostValue) -> Vec<(String, &HostValue)> {
    let record = match value {
        HostValue::Object(record) => record,
        other => panic!("unexpected {:?}", other),
    };
    let mut out = Vec::new();
    for i in 0..record.len() {
        out.push((record.name(i).unwrap().clone(), record.value(i).unwrap()));
    }
    out
}

#[test]
fn null_type_projects_to_null() {
    assert_eq!(to_js_val(&Scalar::Null), Ok(HostValue::Null));
}

#[test]
fn bool_projects_to_bool_or_null() {
    assert_eq!(to_js_val(&Scalar::Bool(Some(true))), Ok(HostValue::Bool(true)));
    assert_eq!(to_js_val(&Scalar::Bool(Some(false))), Ok(HostValue::Bool(false)));
    assert_eq!(to_js_val(&Scalar::Bool(None)), Ok(HostValue::Null));
}

#[test]
fn unsigned_integers_widen() {
    let cases = vec![
        (PType::U8, PValue::U8(255), 255u64),
        (PType::U16, PValue::U16(65535), 65535),
        (PType::U32, PValue::U32(4_000_000_000), 4_000_000_000),
        (PType::U64, PValue::U64(u64::MAX), u64::MAX),
    ];
    for (ptype, value, expected) in cases {
        let out = to_js_val(&Scalar::Primitive(ptype, Some(value)));
        assert_eq!(out, Ok(HostValue::Number(Number::Unsigned(expected))));
    }
}

#[test]
fn signed_integers_widen_with_their_sign() {
    let cases = vec![
        (PType::I8, PValue::I8(-128), -128i64),
        (PType::I16, PValue::I16(-2), -2),
        (PType::I32, PValue::I32(i32::MIN), i32::MIN as i64),
        (PType::I64, PValue::I64(i64::MIN), i64::MIN),
    ];
    for (ptype, value, expected) in cases {
        let out = to_js_val(&Scalar::Primitive(ptype, Some(value)));
        assert_eq!(out, Ok(HostValue::Number(Number::Signed(expected))));
    }
}

#[test]
fn floats_keep_their_value() {
    let single = to_js_val(&Scalar::Primitive(PType::F32, Some(PValue::F32(1.5f32.to_bits()))));
    match single {
        Ok(HostValue::Number(n)) => assert_eq!(as_double(n), 1.5),
        other => panic!("unexpected {:?}", other),
    }
    let double = to_js_val(&Scalar::Primitive(PType::F64, Some(PValue::F64((-0.25f64).to_bits()))));
    match double {
        Ok(HostValue::Number(n)) => assert_eq!(as_double(n), -0.25),
        other => panic!("unexpected {:?}", other),
    }
}

#[test]
fn null_primitive_projects_to_null() {
    let ptypes = vec![
        PType::U8,
        PType::U16,
        PType::U32,
        PType::U64,
        PType::I8,
        PType::I16,
        PType::I32,
        PType::I64,
        PType::F32,
        PType::F64,
    ];
    for ptype in ptypes {
        let out = to_js_val(&Scalar::Primitive(ptype, None));
        assert_eq!(out, Ok(HostValue::Null));
        assert_ne!(out, Ok(HostValue::Number(Number::Unsigned(0))));
    }
}

#[test]
fn half_precision_is_unsupported() {
    assert_eq!(to_js_val(&Scalar::Primitive(PType::F16, None)), Err(Error::UnsupportedType));
    assert_eq!(
        to_js_val(&Scalar::Primitive(PType::F16, Some(PValue::F16(0x3c00)))),
        Err(Error::UnsupportedType)
    );
    assert_eq!(widen_value(PValue::F16(0)), None);
}

#[test]
fn widen_value_keeps_the_number() {
    assert_eq!(widen_value(PValue::U8(7)), Some(Number::Unsigned(7)));
    assert_eq!(widen_value(PValue::I16(-7)), Some(Number::Signed(-7)));
    assert_eq!(widen_value(PValue::F32(0x3f800000)), Some(Number::Single(0x3f800000)));
    assert_eq!(widen_value(PValue::F64(1)), Some(Number::Double(1)));
}

#[test]
fn ptype_of_value() {
    assert_eq!(PValue::U8(1).ptype(), PType::U8);
    assert_eq!(PValue::I64(1).ptype(), PType::I64);
    assert_eq!(PValue::F16(1).ptype(), PType::F16);
    assert_eq!(PValue::F64(1).ptype(), PType::F64);
}

#[test]
fn utf8_projects_to_text_or_null() {
    let out = to_js_val(&Scalar::Utf8(Some(String::from("hello"))));
    assert_eq!(out, Ok(HostValue::Text(String::from("hello"))));
    assert_eq!(to_js_val(&Scalar::Utf8(None)), Ok(HostValue::Null));
}

#[test]
fn binary_projects_to_a_copy_or_null() {
    let source = Scalar::Binary(Some(vec![0, 1, 254, 255]));
    assert_eq!(to_js_val(&source), Ok(HostValue::Bytes(vec![0, 1, 254, 255])));
    assert_eq!(to_js_val(&Scalar::Binary(Some(vec![]))), Ok(HostValue::Bytes(vec![])));
    assert_eq!(to_js_val(&Scalar::Binary(None)), Ok(HostValue::Null));
}

#[test]
fn struct_projects_fields_in_declared_order() {
    let scalar = Scalar::Struct(
        vec![String::from("a"), String::from("b")],
        Some(vec![
            Scalar::Primitive(PType::U8, Some(PValue::U8(1))),
            Scalar::Utf8(Some(String::from("x"))),
        ]),
    );
    let out = to_js_val(&scalar).unwrap();
    let entries = fields(&out);
    assert_eq!(entries.len(), 2);
    assert_eq!(entries[0].0, "a");
    match entries[0].1 {
        HostValue::Number(n) => assert_eq!(as_double(*n), 1.0),
        other => panic!("unexpected {:?}", other),
    }
    assert_eq!(entries[1].0, "b");
    assert_eq!(entries[1].1, &HostValue::Text(String::from("x")));
}

#[test]
fn record_has_nothing_past_its_last_field() {
    let scalar = Scalar::Struct(vec![String::from("a")], Some(vec![Scalar::Bool(Some(true))]));
    let out = to_js_val(&scalar).unwrap();
    let record = match &out {
        HostValue::Object(record) => record,
        other => panic!("unexpected {:?}", other),
    };
    assert_eq!(record.len(), 1);
    assert_eq!(record.name(0), Some(&String::from("a")));
    assert_eq!(record.value(0), Some(&HostValue::Bool(true)));
    assert_eq!(record.name(1), None);
    assert_eq!(record.value(1), None);
}

#[test]
fn struct_without_fields_is_null() {
    let scalar = Scalar::Struct(vec![String::from("a")], None);
    assert_eq!(to_js_val(&scalar), Ok(HostValue::Null));
}

#[test]
fn empty_struct_is_an_empty_object() {
    let scalar = Scalar::Struct(vec![], Some(vec![]));
    let out = to_js_val(&scalar).unwrap();
    assert_eq!(fields(&out).len(), 0);
}

#[test]
fn nested_struct_is_projected_recursively() {
    let inner = Scalar::Struct(
        vec![String::from("flag")],
        Some(vec![Scalar::Bool(Some(true))]),
    );
    let outer = Scalar::Struct(
        vec![String::from("inner"), String::from("none")],
        Some(vec![inner, Scalar::Utf8(None)]),
    );
    let out = to_js_val(&outer).unwrap();
    let entries = fields(&out);
    assert_eq!(entries.len(), 2);
    assert_eq!(entries[0].0, "inner");
    let nested = fields(entries[0].1);
    assert_eq!(nested, vec![(String::from("flag"), &HostValue::Bool(true))]);
    assert_eq!(entries[1], (String::from("none"), &HostValue::Null));
}

#[test]
fn struct_pairs_names_with_values_by_position() {
    let more_names = Scalar::Struct(
        vec![String::from("a"), String::from("b")],
        Some(vec![Scalar::Bool(Some(true))]),
    );
    let out = to_js_val(&more_names).unwrap();
    assert_eq!(fields(&out), vec![(String::from("a"), &HostValue::Bool(true))]);
    let more_values = Scalar::Struct(
        vec![String::from("a")],
        Some(vec![Scalar::Bool(Some(true)), Scalar::List]),
    );
    let out = to_js_val(&more_values).unwrap();
    assert_eq!(fields(&out), vec![(String::from("a"), &HostValue::Bool(true))]);
}

#[test]
fn struct_with_an_unsupported_field_fails() {
    let scalar = Scalar::Struct(
        vec![String::from("a"), String::from("b")],
        Some(vec![Scalar::Bool(Some(true)), Scalar::List]),
    );
    assert_eq!(to_js_val(&scalar), Err(Error::UnsupportedType));
}

#[test]
fn list_is_unsupported() {
    assert_eq!(to_js_val(&Scalar::List), Err(Error::UnsupportedType));
}

#[test]
fn extension_is_unsupported() {
    assert_eq!(to_js_val(&Scalar::Extension), Err(Error::UnsupportedType));
}

#[test]
fn error_messages_differ_by_kind() {
    assert_eq!(Error::Io.message(), "i/o error");
    assert_eq!(Error::Decode.message(), "decode error");
    assert_eq!(Error::UnsupportedType.message(), "unsupported type");
    assert_eq!(Error::Bounds.message(), "index out of bounds");
    assert_eq!(Error::ProtocolViolation.message(), "protocol violation");
}
