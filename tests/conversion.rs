use json_scalar::datum::Datum;
use json_scalar::error::{Unexpected, ValueError};
use json_scalar::number::Number;
use json_scalar::ser::{to_scalar_or_array_value, to_scalar_value};
use json_scalar::value::{ScalarOrArrayValue, ScalarValue};

const NUMBER_TOKEN: &str = "$serde_json::private::Number";
const RAW_TOKEN: &str = "$serde_json::private::RawValue";

fn s(text: &str) -> Datum {
    Datum::Str(text.to_string())
}

fn escape(token: &str, value: Datum) -> Datum {
    Datum::Struct(token.to_string(), vec![(token.to_string(), value)])
}

#[test]
fn primitives_convert_in_both_shapes() {
    assert_eq!(to_scalar_value(&Datum::Bool(true)), Ok(ScalarValue::Bool(true)));
    assert_eq!(
        to_scalar_value(&Datum::I64(-7)),
        Ok(ScalarValue::Number(Number::NegInt(-7)))
    );
    assert_eq!(
        to_scalar_value(&Datum::I64(7)),
        Ok(ScalarValue::Number(Number::PosInt(7)))
    );
    assert_eq!(
        to_scalar_or_array_value(&Datum::U64(u64::MAX)),
        Ok(ScalarOrArrayValue::Number(Number::PosInt(u64::MAX)))
    );
    assert_eq!(
        to_scalar_value(&Datum::F64(1.5f64.to_bits())),
        Ok(ScalarValue::Number(Number::Float(1.5f64.to_bits())))
    );
    assert_eq!(to_scalar_value(&s("hi")), Ok(ScalarValue::String("hi".to_string())));
    assert_eq!(to_scalar_value(&Datum::Char('x')), Ok(ScalarValue::String("x".to_string())));
}

#[test]
fn non_finite_floats_become_null() {
    for f in [f64::NAN, f64::INFINITY, f64::NEG_INFINITY] {
        assert_eq!(to_scalar_value(&Datum::F64(f.to_bits())), Ok(ScalarValue::Null));
        assert_eq!(
            to_scalar_or_array_value(&Datum::F64(f.to_bits())),
            Ok(ScalarOrArrayValue::Null)
        );
    }
}

#[test]
fn units_and_options_become_null() {
    assert_eq!(to_scalar_value(&Datum::Unit), Ok(ScalarValue::Null));
    assert_eq!(to_scalar_value(&Datum::Absent), Ok(ScalarValue::Null));
    assert_eq!(to_scalar_value(&Datum::UnitStruct), Ok(ScalarValue::Null));
    assert_eq!(
        to_scalar_value(&Datum::Present(Box::new(Datum::U64(3)))),
        Ok(ScalarValue::Number(Number::PosInt(3)))
    );
    assert_eq!(
        to_scalar_value(&Datum::NewtypeStruct(Box::new(s("w")))),
        Ok(ScalarValue::String("w".to_string()))
    );
}

#[test]
fn nested_sequence_becomes_nested_array() {
    let d = Datum::Sequence(vec![
        Datum::I64(1),
        s("a"),
        Datum::Sequence(vec![Datum::I64(2), Datum::I64(3)]),
    ]);
    let expected = ScalarOrArrayValue::Array(vec![
        ScalarOrArrayValue::Number(Number::PosInt(1)),
        ScalarOrArrayValue::String("a".to_string()),
        ScalarOrArrayValue::Array(vec![
            ScalarOrArrayValue::Number(Number::PosInt(2)),
            ScalarOrArrayValue::Number(Number::PosInt(3)),
        ]),
    ]);
    assert_eq!(to_scalar_or_array_value(&d), Ok(expected));
}

#[test]
fn first_failing_element_decides() {
    let d = Datum::Sequence(vec![
        Datum::I64(1),
        Datum::U128(u128::MAX),
        Datum::NewtypeVariant("V".to_string(), Box::new(Datum::Unit)),
    ]);
    assert_eq!(to_scalar_or_array_value(&d), Err(ValueError::NumberOutOfRange));
}

#[test]
fn bytes_become_numbers_or_fail() {
    assert_eq!(
        to_scalar_or_array_value(&Datum::Bytes(vec![0, 255])),
        Ok(ScalarOrArrayValue::Array(vec![
            ScalarOrArrayValue::Number(Number::PosInt(0)),
            ScalarOrArrayValue::Number(Number::PosInt(255)),
        ]))
    );
    assert_eq!(
        to_scalar_value(&Datum::Bytes(vec![1])),
        Err(ValueError::InvalidType(Unexpected::Bytes))
    );
}

#[test]
fn wide_integers_fit_or_fail() {
    assert_eq!(
        to_scalar_value(&Datum::I128(-5)),
        Ok(ScalarValue::Number(Number::NegInt(-5)))
    );
    assert_eq!(
        to_scalar_value(&Datum::I128(u64::MAX as i128)),
        Ok(ScalarValue::Number(Number::PosInt(u64::MAX)))
    );
    assert_eq!(
        to_scalar_value(&Datum::I128(i64::MIN as i128 - 1)),
        Err(ValueError::NumberOutOfRange)
    );
    assert_eq!(
        to_scalar_value(&Datum::I128(u64::MAX as i128 + 1)),
        Err(ValueError::NumberOutOfRange)
    );
    assert_eq!(
        to_scalar_value(&Datum::U128(u64::MAX as u128 + 1)),
        Err(ValueError::NumberOutOfRange)
    );
}

#[test]
fn scalar_shape_refuses_compound_shapes() {
    let seq = Datum::Sequence(vec![Datum::I64(1)]);
    assert_eq!(to_scalar_value(&seq), Err(ValueError::InvalidType(Unexpected::Sequence)));
    let empty_seq = Datum::Sequence(vec![]);
    assert_eq!(to_scalar_value(&empty_seq), Err(ValueError::InvalidType(Unexpected::Sequence)));
    let map = Datum::Entries(vec![(s("k"), Datum::I64(1))]);
    assert_eq!(to_scalar_value(&map), Err(ValueError::InvalidType(Unexpected::Object)));
    let empty_map = Datum::Entries(vec![]);
    assert_eq!(to_scalar_value(&empty_map), Err(ValueError::InvalidType(Unexpected::Object)));
    let st = Datum::Struct("Point".to_string(), vec![("x".to_string(), Datum::I64(1))]);
    assert_eq!(to_scalar_value(&st), Err(ValueError::InvalidType(Unexpected::Object)));
}

#[test]
fn unit_variant_becomes_its_name() {
    let d = Datum::UnitVariant("Foo".to_string());
    assert_eq!(to_scalar_value(&d), Ok(ScalarValue::String("Foo".to_string())));
}

#[test]
fn maps_and_variants_fail_in_array_shape() {
    let map = Datum::Entries(vec![(s("k"), Datum::I64(1))]);
    assert_eq!(
        to_scalar_or_array_value(&map),
        Err(ValueError::InvalidType(Unexpected::Object))
    );
    let nv = Datum::NewtypeVariant("V".to_string(), Box::new(Datum::I64(1)));
    assert_eq!(to_scalar_or_array_value(&nv), Err(ValueError::InvalidType(Unexpected::Object)));
    let tv = Datum::TupleVariant("V".to_string(), vec![Datum::I64(1)]);
    assert_eq!(to_scalar_or_array_value(&tv), Err(ValueError::InvalidType(Unexpected::Object)));
    let sv = Datum::StructVariant("V".to_string(), vec![("a".to_string(), Datum::I64(1))]);
    assert_eq!(to_scalar_or_array_value(&sv), Err(ValueError::InvalidType(Unexpected::Object)));
}

#[test]
fn map_key_errors_come_first() {
    let unit_key = Datum::Entries(vec![(Datum::Unit, Datum::I64(1))]);
    assert_eq!(to_scalar_or_array_value(&unit_key), Err(ValueError::KeyMustBeAString));
    let nan_key = Datum::Entries(vec![(Datum::F64(f64::NAN.to_bits()), Datum::I64(1))]);
    assert_eq!(to_scalar_value(&nan_key), Err(ValueError::FloatKeyMustBeFinite));
}

#[test]
fn raw_value_escape_matches_direct_sequence() {
    let raw = escape(RAW_TOKEN, s("[1,2,3]"));
    let direct = Datum::Sequence(vec![Datum::I64(1), Datum::I64(2), Datum::I64(3)]);
    let from_raw = to_scalar_or_array_value(&raw);
    assert!(from_raw.is_ok());
    assert_eq!(from_raw, to_scalar_or_array_value(&direct));
}

#[test]
fn raw_value_escape_reads_scalars_and_floats() {
    assert_eq!(
        to_scalar_value(&escape(RAW_TOKEN, s(" \"txt\" "))),
        Ok(ScalarValue::String("txt".to_string()))
    );
    assert_eq!(
        to_scalar_or_array_value(&escape(RAW_TOKEN, s("[1.5, -2, null, true]"))),
        Ok(ScalarOrArrayValue::Array(vec![
            ScalarOrArrayValue::Number(Number::Float(1.5f64.to_bits())),
            ScalarOrArrayValue::Number(Number::NegInt(-2)),
            ScalarOrArrayValue::Null,
            ScalarOrArrayValue::Bool(true),
        ]))
    );
}

#[test]
fn raw_value_escape_errors() {
    assert_eq!(
        to_scalar_value(&escape(RAW_TOKEN, Datum::I64(1))),
        Err(ValueError::ExpectedSomeValue)
    );
    let wrong_field = Datum::Struct(RAW_TOKEN.to_string(), vec![("other".to_string(), s("1"))]);
    assert_eq!(to_scalar_value(&wrong_field), Err(ValueError::ExpectedSomeValue));
    assert_eq!(to_scalar_value(&escape(RAW_TOKEN, s("[1,"))), Err(ValueError::Syntax));
    assert_eq!(
        to_scalar_value(&escape(RAW_TOKEN, s("[1]"))),
        Err(ValueError::InvalidType(Unexpected::Sequence))
    );
    assert_eq!(
        to_scalar_or_array_value(&escape(RAW_TOKEN, s("{\"a\":1}"))),
        Err(ValueError::InvalidType(Unexpected::Object))
    );
}

#[test]
fn number_escape_reads_numerals() {
    assert_eq!(
        to_scalar_value(&escape(NUMBER_TOKEN, s("12"))),
        Ok(ScalarValue::Number(Number::PosInt(12)))
    );
    assert_eq!(
        to_scalar_value(&escape(NUMBER_TOKEN, s("-3"))),
        Ok(ScalarValue::Number(Number::NegInt(-3)))
    );
    assert_eq!(
        to_scalar_value(&escape(NUMBER_TOKEN, s("2.5"))),
        Ok(ScalarValue::Number(Number::Float(2.5f64.to_bits())))
    );
}

#[test]
fn number_escape_errors() {
    assert_eq!(to_scalar_value(&escape(NUMBER_TOKEN, s("abc"))), Err(ValueError::InvalidNumber));
    assert_eq!(to_scalar_value(&escape(NUMBER_TOKEN, Datum::I64(3))), Err(ValueError::InvalidNumber));
    let wrong_field = Datum::Struct(NUMBER_TOKEN.to_string(), vec![("n".to_string(), s("1"))]);
    assert_eq!(to_scalar_value(&wrong_field), Err(ValueError::InvalidNumber));
}

#[test]
fn identity_conversion_is_lossless() {
    let v = ScalarOrArrayValue::Array(vec![
        ScalarOrArrayValue::Null,
        ScalarOrArrayValue::Bool(false),
        ScalarOrArrayValue::Number(Number::NegInt(-1)),
        ScalarOrArrayValue::Number(Number::Float(0.25f64.to_bits())),
        ScalarOrArrayValue::Array(vec![ScalarOrArrayValue::String("z".to_string())]),
    ]);
    let again = to_scalar_or_array_value(&v.to_datum());
    assert_eq!(again, Ok(v));
    let s = ScalarValue::Number(Number::PosInt(9));
    assert_eq!(to_scalar_value(&s.to_datum()), Ok(s));
}

#[test]
fn single_precision_floats_widen_exactly() {
    let samples: [f32; 9] = [
        1.5,
        -0.1,
        0.0,
        -0.0,
        f32::MAX,
        f32::MIN_POSITIVE,
        f32::from_bits(1),
        f32::from_bits(0x0040_0001),
        3.4e-39,
    ];
    for f in samples {
        assert_eq!(
            json_scalar::number::f32_bits_widened(f.to_bits()),
            (f as f64).to_bits(),
            "widening {:e}",
            f
        );
        assert_eq!(
            to_scalar_value(&Datum::F32(f.to_bits())),
            Ok(ScalarValue::Number(Number::Float((f as f64).to_bits())))
        );
    }
    assert_eq!(to_scalar_value(&Datum::F32(f32::NAN.to_bits())), Ok(ScalarValue::Null));
    assert_eq!(to_scalar_value(&Datum::F32(f32::INFINITY.to_bits())), Ok(ScalarValue::Null));
}

#[test]
fn raw_value_fragment_keeps_its_numbers_and_order() {
    assert_eq!(
        to_scalar_value(&escape(RAW_TOKEN, s("5"))),
        Ok(ScalarValue::Number(Number::PosInt(5)))
    );
    assert_eq!(
        to_scalar_or_array_value(&escape(RAW_TOKEN, s("[[1],[\"b\"]]"))),
        Ok(ScalarOrArrayValue::Array(vec![
            ScalarOrArrayValue::Array(vec![ScalarOrArrayValue::Number(Number::PosInt(1))]),
            ScalarOrArrayValue::Array(vec![ScalarOrArrayValue::String("b".to_string())]),
        ]))
    );
    assert_eq!(
        to_scalar_or_array_value(&escape(RAW_TOKEN, s("[1, {\"a\": 2}]"))),
        Err(ValueError::InvalidType(Unexpected::Object))
    );
}

#[test]
fn reserved_structs_without_fields_are_detected() {
    let empty_raw = Datum::Struct(RAW_TOKEN.to_string(), vec![]);
    assert!(!empty_raw.is_well_formed());
    let nested = Datum::Sequence(vec![Datum::Struct(NUMBER_TOKEN.to_string(), vec![])]);
    assert!(!nested.is_well_formed());
    assert!(escape(RAW_TOKEN, s("1")).is_well_formed());
    assert!(Datum::Struct("Plain".to_string(), vec![]).is_well_formed());
}
