use json_scalar::datum::Datum;
use json_scalar::error::{
    float_key_must_be_finite, invalid_number, invalid_raw_value, key_must_be_a_string, ValueError,
};
use json_scalar::key::{classify_key, decimal_i128, decimal_u128, KeyClass, KeyText, MapKeySerializer};

fn render(k: &KeyText) -> String {
    match k {
        KeyText::Text(s) => s.clone(),
        KeyText::Float(bits) => ryu::Buffer::new().format_finite(f64::from_bits(*bits)).to_owned(),
        KeyText::Float32(bits) => ryu::Buffer::new().format_finite(f32::from_bits(*bits)).to_owned(),
    }
}

#[test]
fn finite_float_key_renders_shortest() {
    let k = MapKeySerializer::serialize(&Datum::F64(1.5f64.to_bits())).unwrap();
    assert_eq!(k, KeyText::Float(1.5f64.to_bits()));
    assert_eq!(render(&k), "1.5");
    let k = MapKeySerializer::serialize_f64(0.1f64.to_bits()).unwrap();
    assert_eq!(render(&k), "0.1");
}

#[test]
fn non_finite_float_key_fails() {
    for f in [f64::NAN, f64::INFINITY, f64::NEG_INFINITY] {
        assert_eq!(
            MapKeySerializer::serialize(&Datum::F64(f.to_bits())),
            Err(ValueError::FloatKeyMustBeFinite)
        );
    }
}

#[test]
fn integer_and_bool_keys_render_as_decimal_text() {
    assert_eq!(
        MapKeySerializer::serialize(&Datum::I64(-42)),
        Ok(KeyText::Text("-42".to_string()))
    );
    assert_eq!(
        MapKeySerializer::serialize(&Datum::U64(0)),
        Ok(KeyText::Text("0".to_string()))
    );
    assert_eq!(MapKeySerializer::serialize_u8(255), Ok(KeyText::Text("255".to_string())));
    assert_eq!(MapKeySerializer::serialize_i8(-128), Ok(KeyText::Text("-128".to_string())));
    assert_eq!(
        MapKeySerializer::serialize_bool(true),
        Ok(KeyText::Text("true".to_string()))
    );
    assert_eq!(decimal_i128(i128::MIN), i128::MIN.to_string());
    assert_eq!(decimal_u128(u128::MAX), u128::MAX.to_string());
    assert_eq!(decimal_u128(1_000_000), "1000000");
}

#[test]
fn string_like_keys_keep_their_text() {
    assert_eq!(
        MapKeySerializer::serialize(&Datum::Char('k')),
        Ok(KeyText::Text("k".to_string()))
    );
    assert_eq!(
        MapKeySerializer::serialize(&Datum::Str("key".to_string())),
        Ok(KeyText::Text("key".to_string()))
    );
    assert_eq!(
        MapKeySerializer::serialize(&Datum::UnitVariant("V".to_string())),
        Ok(KeyText::Text("V".to_string()))
    );
    assert_eq!(
        MapKeySerializer::serialize(&Datum::NewtypeStruct(Box::new(Datum::U64(5)))),
        Ok(KeyText::Text("5".to_string()))
    );
}

#[test]
fn compound_keys_are_refused() {
    let refused = [
        Datum::Unit,
        Datum::Absent,
        Datum::Present(Box::new(Datum::U64(1))),
        Datum::Bytes(vec![1]),
        Datum::Sequence(vec![]),
        Datum::Entries(vec![]),
        Datum::Struct("S".to_string(), vec![]),
    ];
    for d in refused.iter() {
        assert_eq!(MapKeySerializer::serialize(d), Err(ValueError::KeyMustBeAString));
    }
}

#[test]
fn key_classifier_recognises_reserved_tokens() {
    assert_eq!(
        classify_key("$serde_json::private::Number".to_string()),
        KeyClass::ReservedNumber
    );
    assert_eq!(
        classify_key("$serde_json::private::RawValue".to_string()),
        KeyClass::ReservedRawValue
    );
    assert_eq!(
        classify_key("name".to_string()),
        KeyClass::Ordinary("name".to_string())
    );
}

#[test]
fn error_constructors_give_their_kinds() {
    assert_eq!(key_must_be_a_string(), ValueError::KeyMustBeAString);
    assert_eq!(float_key_must_be_finite(), ValueError::FloatKeyMustBeFinite);
    assert_eq!(invalid_number(), ValueError::InvalidNumber);
    assert_eq!(invalid_raw_value(), ValueError::ExpectedSomeValue);
}

#[test]
fn single_precision_keys_keep_their_width() {
    let k = MapKeySerializer::serialize(&Datum::F32(1.1f32.to_bits())).unwrap();
    assert_eq!(k, KeyText::Float32(1.1f32.to_bits()));
    assert_eq!(render(&k), "1.1");
    assert_eq!(render(&MapKeySerializer::serialize_f32(1.5f32.to_bits()).unwrap()), "1.5");
    assert_eq!(
        MapKeySerializer::serialize(&Datum::F32(f32::NAN.to_bits())),
        Err(ValueError::FloatKeyMustBeFinite)
    );
}
