use aws_backend::error::{AwsError, Type};
use aws_backend::ffi::{
    convert_param, to_json, to_native, FunctionRecord, JsonValue, Value, WasmFFIConverter,
};
use aws_backend::signature::{format_signature, format_type_list, parse_signature};

fn record(signature: &str) -> FunctionRecord {
    FunctionRecord { id: 1, module_id: 1, name: "add".to_string(), signature: signature.to_string() }
}

#[test]
fn signature_round_trip_example() {
    let (p, r) = parse_signature("i32,i32->i32").unwrap();
    assert_eq!(p, vec![Type::I32, Type::I32]);
    assert_eq!(r, vec![Type::I32]);
    assert_eq!(format_signature(&p, &r).unwrap(), "i32,i32->i32");
}

#[test]
fn signature_round_trip_mixed_and_empty() {
    for s in ["->", "f32->", "->i32", "i32,f32,f32->f32,i32"] {
        let (p, r) = parse_signature(s).unwrap();
        assert_eq!(format_signature(&p, &r).unwrap(), s);
    }
}

#[test]
fn signature_without_arrow_is_invalid() {
    match parse_signature("i32,i32") {
        Err(AwsError::InvalidSignature(s)) => assert_eq!(s, "i32,i32"),
        other => panic!("unexpected {:?}", other),
    }
}

#[test]
fn signature_with_unknown_tag_is_invalid() {
    assert!(matches!(parse_signature("i32,i64->i32"), Err(AwsError::InvalidSignature(_))));
    assert!(matches!(parse_signature("i32->x"), Err(AwsError::InvalidSignature(_))));
}

#[test]
fn signature_skips_empty_pieces() {
    let (p, r) = parse_signature("i32,,f32->").unwrap();
    assert_eq!(p, vec![Type::I32, Type::F32]);
    assert!(r.is_empty());
}

#[test]
fn format_refuses_unsupported_type() {
    assert!(matches!(format_type_list(&vec![Type::I32, Type::I64]), Err(AwsError::UnimplementedWasmType)));
    assert_eq!(format_type_list(&vec![]).unwrap(), "");
}

#[test]
fn tags_convert_both_ways() {
    assert_eq!(Type::from_tag("f32").unwrap(), Type::F32);
    assert!(matches!(Type::from_tag("F32"), Err(AwsError::UnimplementedWasmType)));
    assert_eq!(Type::I32.tag().unwrap(), "i32");
    assert!(Type::V128.tag().is_err());
}

#[test]
fn string_for_i32_is_rejected() {
    assert!(matches!(
        convert_param(&JsonValue::Str, Type::I32),
        Err(AwsError::UnimplementedWasmType)
    ));
    let f = record("i32,i32->i32");
    assert!(matches!(
        f.to_wasm_params(&vec![JsonValue::PosInt(2), JsonValue::Str]),
        Err(AwsError::UnimplementedWasmType)
    ));
}

#[test]
fn float_for_i32_is_wrong_type() {
    assert!(matches!(
        convert_param(&JsonValue::Float(1.5f32.to_bits()), Type::I32),
        Err(AwsError::WasmWrongParameterType((Type::I32, Type::F32)))
    ));
    assert!(matches!(
        convert_param(&JsonValue::PosInt(3), Type::F32),
        Err(AwsError::WasmWrongParameterType((Type::F32, Type::I32)))
    ));
}

#[test]
fn integers_out_of_range_fail_conversion() {
    assert!(matches!(
        convert_param(&JsonValue::PosInt(1 << 31), Type::I32),
        Err(AwsError::WasmTypeConversionError)
    ));
    assert!(matches!(
        convert_param(&JsonValue::NegInt(-(1 << 31) - 1), Type::I32),
        Err(AwsError::WasmTypeConversionError)
    ));
    assert_eq!(convert_param(&JsonValue::NegInt(-(1 << 31)), Type::I32).unwrap(), Value::I32(i32::MIN));
}

#[test]
fn arguments_marshal_in_order() {
    let f = record("i32,f32->i32");
    let bits = 2.5f32.to_bits();
    let v = f.to_wasm_params(&vec![JsonValue::PosInt(7), JsonValue::Float(bits)]).unwrap();
    assert_eq!(v, vec![Value::I32(7), Value::F32(bits)]);
    assert_eq!(f.get_param_types().unwrap(), vec![Type::I32, Type::F32]);
    assert_eq!(f.get_ret_types().unwrap(), vec![Type::I32]);
}

#[test]
fn argument_count_must_match() {
    assert!(matches!(
        to_native(&vec![JsonValue::PosInt(1)], &vec![Type::I32, Type::I32]),
        Err(AwsError::UnimplementedWasmType)
    ));
}

#[test]
fn bad_signature_fails_marshalling() {
    assert!(matches!(record("i32").to_wasm_params(&vec![]), Err(AwsError::InvalidSignature(_))));
}

#[test]
fn results_convert_to_json() {
    let js = to_json(&vec![Value::I32(5), Value::I32(-3), Value::F32(7)]).unwrap();
    assert_eq!(js, vec![JsonValue::PosInt(5), JsonValue::NegInt(-3), JsonValue::Float(7)]);
    assert!(matches!(to_json(&vec![Value::I64(1)]), Err(AwsError::UnimplementedWasmType)));
}
