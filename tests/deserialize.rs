use json_scalar::datum::Datum;
use json_scalar::de::{classify_first_key, from_escape, from_visit, object_refused, Request, Visit, VisitRef};
use json_scalar::error::{Unexpected, ValueError};
use json_scalar::key::{classify_key, KeyClass};
use json_scalar::number::Number;
use json_scalar::ser::{to_scalar_or_array_value, to_scalar_value};
use json_scalar::value::{eq_bool, eq_i64, eq_str, eq_u64, ScalarOrArrayValue, ScalarValue, Shape};

fn num(u: u64) -> ScalarOrArrayValue {
    ScalarOrArrayValue::Number(Number::PosInt(u))
}

#[test]
fn primitives_round_trip_through_any() {
    let v = to_scalar_value(&Datum::Bool(true)).unwrap();
    assert_eq!(v.deserialize(&Request::Any), Ok(Visit::Bool(true)));
    let v = to_scalar_value(&Datum::I64(-9)).unwrap();
    assert_eq!(v.deserialize(&Request::Any), Ok(Visit::I64(-9)));
    let v = to_scalar_value(&Datum::I64(9)).unwrap();
    assert_eq!(v.deserialize(&Request::Any), Ok(Visit::U64(9)));
    let v = to_scalar_value(&Datum::U64(u64::MAX)).unwrap();
    assert_eq!(v.deserialize(&Request::Any), Ok(Visit::U64(u64::MAX)));
    let v = to_scalar_value(&Datum::F64((-2.75f64).to_bits())).unwrap();
    assert_eq!(v.deserialize(&Request::Any), Ok(Visit::F64((-2.75f64).to_bits())));
    let v = to_scalar_value(&Datum::Str("s".to_string())).unwrap();
    assert_eq!(v.deserialize(&Request::Any), Ok(Visit::Str("s".to_string())));
}

#[test]
fn visitor_rebuilds_primitives() {
    assert_eq!(from_visit(Visit::Unit, Shape::Scalar), Ok(ScalarOrArrayValue::Null));
    assert_eq!(from_visit(Visit::I64(-1), Shape::Scalar), Ok(ScalarOrArrayValue::Number(Number::NegInt(-1))));
    assert_eq!(from_visit(Visit::I64(1), Shape::Scalar), Ok(num(1)));
    assert_eq!(from_visit(Visit::F64(f64::NAN.to_bits()), Shape::Scalar), Ok(ScalarOrArrayValue::Null));
    assert_eq!(
        from_visit(Visit::Sequence(vec![num(1)]), Shape::Scalar),
        Err(ValueError::InvalidType(Unexpected::Sequence))
    );
    assert_eq!(
        from_visit(Visit::Sequence(vec![num(1)]), Shape::ScalarOrArray),
        Ok(ScalarOrArrayValue::Array(vec![num(1)]))
    );
}

#[test]
fn sequence_request_keeps_order() {
    let d = Datum::Sequence(vec![
        Datum::I64(1),
        Datum::Str("a".to_string()),
        Datum::Sequence(vec![Datum::I64(2), Datum::I64(3)]),
    ]);
    let v = to_scalar_or_array_value(&d).unwrap();
    let inner = ScalarOrArrayValue::Array(vec![num(2), num(3)]);
    assert_eq!(
        v.deserialize(&Request::Sequence),
        Ok(Visit::Sequence(vec![num(1), ScalarOrArrayValue::String("a".to_string()), inner]))
    );
}

#[test]
fn identity_deserialization_is_lossless() {
    let tree = ScalarOrArrayValue::Array(vec![num(4), ScalarOrArrayValue::Bool(true)]);
    let same = ScalarOrArrayValue::Array(vec![num(4), ScalarOrArrayValue::Bool(true)]);
    let visit = tree.deserialize(&Request::Any).unwrap();
    assert_eq!(from_visit(visit, Shape::ScalarOrArray), Ok(same));
}

#[test]
fn unit_variant_round_trips_in_scalar_shape() {
    let v = to_scalar_value(&Datum::UnitVariant("Foo".to_string())).unwrap();
    assert_eq!(v.deserialize(&Request::Enum), Ok(Visit::UnitVariant("Foo".to_string())));
}

#[test]
fn requests_that_do_not_fit_are_mismatches() {
    assert_eq!(
        ScalarValue::Bool(true).deserialize(&Request::Number),
        Err(ValueError::InvalidType(Unexpected::Bool(true)))
    );
    assert_eq!(
        ScalarValue::Null.deserialize(&Request::Str),
        Err(ValueError::InvalidType(Unexpected::Unit))
    );
    assert_eq!(
        ScalarValue::Number(Number::NegInt(-2)).deserialize(&Request::Enum),
        Err(ValueError::InvalidType(Unexpected::Signed(-2)))
    );
    assert_eq!(
        ScalarValue::String("x".to_string()).deserialize(&Request::Sequence),
        Err(ValueError::InvalidType(Unexpected::Str))
    );
    assert_eq!(
        ScalarOrArrayValue::Array(vec![]).deserialize(&Request::MapOrStruct),
        Err(ValueError::InvalidType(Unexpected::Sequence))
    );
    assert_eq!(
        ScalarValue::Number(Number::PosInt(3)).deserialize(&Request::Bool),
        Err(ValueError::InvalidType(Unexpected::Unsigned(3)))
    );
}

#[test]
fn option_newtype_and_ignored_requests() {
    assert_eq!(ScalarValue::Null.deserialize(&Request::Optional), Ok(Visit::Nothing));
    assert_eq!(ScalarValue::Bool(false).deserialize(&Request::Optional), Ok(Visit::Something(ScalarOrArrayValue::Bool(false))));
    assert_eq!(
        ScalarValue::Bool(false).deserialize(&Request::NewtypeStruct("Wrapper".to_string())),
        Ok(Visit::NewtypeStruct(ScalarOrArrayValue::Bool(false)))
    );
    assert_eq!(
        ScalarValue::Bool(false)
            .deserialize(&Request::NewtypeStruct("$serde_json::private::RawValue".to_string())),
        Ok(Visit::RawText(ScalarOrArrayValue::Bool(false)))
    );
    assert_eq!(ScalarValue::Bool(false).deserialize(&Request::IgnoredAny), Ok(Visit::Unit));
    assert_eq!(ScalarValue::Null.deserialize(&Request::Unit), Ok(Visit::Unit));
}

#[test]
fn map_escapes_in_the_visitor() {
    let number = classify_key("$serde_json::private::Number".to_string());
    assert_eq!(from_escape(number, "-12", Shape::Scalar), Ok(ScalarOrArrayValue::Number(Number::NegInt(-12))));
    let number = classify_key("$serde_json::private::Number".to_string());
    assert_eq!(from_escape(number, "x", Shape::Scalar), Err(ValueError::InvalidNumber));
    let raw = classify_key("$serde_json::private::RawValue".to_string());
    assert_eq!(
        from_escape(raw, "[true]", Shape::ScalarOrArray),
        Ok(ScalarOrArrayValue::Array(vec![ScalarOrArrayValue::Bool(true)]))
    );
    let plain = classify_key("a".to_string());
    assert_eq!(from_escape(plain, "1", Shape::Scalar), Err(object_refused()));
}

#[test]
fn equality_against_native_values() {
    assert!(eq_i64(&num(5), 5));
    assert!(eq_i64(&ScalarOrArrayValue::Number(Number::NegInt(-5)), -5));
    assert!(!eq_i64(&num(u64::MAX), -1));
    assert!(eq_u64(&num(7), 7));
    assert!(!eq_u64(&ScalarOrArrayValue::Number(Number::NegInt(-7)), 7));
    assert!(eq_bool(&ScalarOrArrayValue::Bool(true), true));
    assert!(!eq_bool(&ScalarOrArrayValue::Null, false));
    assert!(eq_str(&ScalarOrArrayValue::String("ab".to_string()), "ab"));
    assert!(!eq_str(&ScalarOrArrayValue::String("ab".to_string()), "a"));
}

#[test]
fn numeral_reading() {
    assert_eq!(Number::from_numeral("18446744073709551615"), Some(Number::PosInt(u64::MAX)));
    assert_eq!(Number::from_numeral("-1"), Some(Number::NegInt(-1)));
    assert_eq!(Number::from_numeral("1e2"), Some(Number::Float(100f64.to_bits())));
    assert_eq!(Number::from_numeral(" 1"), None);
    assert_eq!(Number::from_numeral("1e400"), None);
    assert_eq!(Number::from_f64_bits(f64::NAN.to_bits()), None);
}

#[test]
fn borrowed_reads_hand_out_strings_and_elements_in_place() {
    let text = ScalarOrArrayValue::String("in place".to_string());
    assert_eq!(text.deserialize_ref(&Request::Any), Ok(VisitRef::Str("in place")));
    assert_eq!(text.deserialize_ref(&Request::Enum), Ok(VisitRef::UnitVariant("in place")));
    let arr = ScalarOrArrayValue::Array(vec![num(1), num(2)]);
    let elements = vec![num(1), num(2)];
    assert_eq!(arr.deserialize_ref(&Request::Sequence), Ok(VisitRef::Sequence(&elements)));
    assert_eq!(arr.deserialize_ref(&Request::Optional), Ok(VisitRef::Something(&arr)));
    assert_eq!(
        arr.deserialize_ref(&Request::Bool),
        Err(ValueError::InvalidType(Unexpected::Sequence))
    );
    assert_eq!(ScalarOrArrayValue::Null.deserialize_ref(&Request::Optional), Ok(VisitRef::Nothing));
}

#[test]
fn raw_value_key_in_the_visitor_follows_the_shape() {
    let raw = classify_key("$serde_json::private::RawValue".to_string());
    assert_eq!(from_escape(raw, "5", Shape::Scalar), Ok(num(5)));
    let raw = classify_key("$serde_json::private::RawValue".to_string());
    assert_eq!(
        from_escape(raw, "[1,2,3]", Shape::Scalar),
        Err(ValueError::InvalidType(Unexpected::Sequence))
    );
    let raw = classify_key("$serde_json::private::RawValue".to_string());
    assert_eq!(from_escape(raw, "[1,", Shape::ScalarOrArray), Err(ValueError::Syntax));
}

#[test]
fn first_key_of_a_map_decides() {
    assert_eq!(classify_first_key(None), Err(ValueError::InvalidType(Unexpected::Object)));
    assert_eq!(
        classify_first_key(Some("k".to_string())),
        Err(ValueError::InvalidType(Unexpected::Object))
    );
    assert_eq!(
        classify_first_key(Some("$serde_json::private::Number".to_string())),
        Ok(KeyClass::ReservedNumber)
    );
    assert_eq!(
        classify_first_key(Some("$serde_json::private::RawValue".to_string())),
        Ok(KeyClass::ReservedRawValue)
    );
}
