use vstd::prelude::*;
use crate::datum::{Datum, number_token, raw_token};
use crate::error::{ValueError, key_must_be_a_string, float_key_must_be_finite};
use crate::number::{is_finite_bits, is_finite_f32_bits};

verus! {

/// The two reserved names differ.
pub proof fn lemma_tokens_differ()
    ensures
        number_token() != raw_token(),
{
    reveal_strlit("$serde_json::private::Number");
    reveal_strlit("$serde_json::private::RawValue");
    assert(number_token().len() != raw_token().len());
}

pub fn is_number_token(s: &str) -> (r: bool)
    ensures
        r == (s@ == number_token()),
{
    let t = number_token_text();
    let s = s.to_owned();
    s == t
}

pub fn is_raw_token(s: &str) -> (r: bool)
    ensures
        r == (s@ == raw_token()),
{
    let t = raw_token_text();
    let s = s.to_owned();
    s == t
}

/// The reserved name of the number escape.
pub fn number_token_text() -> (r: String)
    ensures
        r@ == number_token(),
{
    "$serde_json::private::Number".to_owned()
}

/// The reserved name of the raw-value escape.
pub fn raw_token_text() -> (r: String)
    ensures
        r@ == raw_token(),
{
    "$serde_json::private::RawValue".to_owned()
}

/// How the first key of a map read during deserialization is taken.
#[derive(Clone, Debug, PartialEq, Eq)]
pub enum KeyClass {
    /// An ordinary key, carried forward unchanged.
    Ordinary(String),
    /// The map hands over a number as its numeral text.
    ReservedNumber,
    /// The map hands over a fragment of encoded JSON text.
    ReservedRawValue,
}

/// Classifies the first key of a map.
pub fn classify_key(s: String) -> (r: KeyClass)
    ensures
        r is ReservedNumber <==> s@ == number_token(),
        r is ReservedRawValue <==> s@ == raw_token(),
        r matches KeyClass::Ordinary(k) ==> k@ == s@,
{
    proof {
        lemma_tokens_differ();
    }
    if is_number_token(s.as_str()) {
        KeyClass::ReservedNumber
    } else if is_raw_token(s.as_str()) {
        KeyClass::ReservedRawValue
    } else {
        KeyClass::Ordinary(s)
    }
}

pub open spec fn digit_char(d: nat) -> char {
    if d == 0 {
        '0'
    } else if d == 1 {
        '1'
    } else if d == 2 {
        '2'
    } else if d == 3 {
        '3'
    } else if d == 4 {
        '4'
    } else if d == 5 {
        '5'
    } else if d == 6 {
        '6'
    } else if d == 7 {
        '7'
    } else if d == 8 {
        '8'
    } else {
        '9'
    }
}

/// The decimal digits of a natural number, most significant first, without leading zeros.
pub open spec fn digits(n: nat) -> Seq<char>
    decreases n,
{
    if n < 10 {
        seq![digit_char(n)]
    } else {
        digits(n / 10).push(digit_char(n % 10))
    }
}

/// The decimal text of an integer, with a leading minus sign when it is negative.
pub open spec fn decimal(n: int) -> Seq<char> {
    if n < 0 {
        seq!['-'] + digits((-n) as nat)
    } else {
        digits(n as nat)
    }
}

/// Relies on std's `String::push`: appends one character to the string.
#[verifier::external_body]
pub(crate) fn push_char(s: &mut String, c: char)
    ensures
        final(s)@ == old(s)@.push(c),
{
    s.push(c);
}

fn digit(d: u128) -> (c: char)
    requires
        d < 10,
    ensures
        c == digit_char(d as nat),
{
    if d == 0 {
        '0'
    } else if d == 1 {
        '1'
    } else if d == 2 {
        '2'
    } else if d == 3 {
        '3'
    } else if d == 4 {
        '4'
    } else if d == 5 {
        '5'
    } else if d == 6 {
        '6'
    } else if d == 7 {
        '7'
    } else if d == 8 {
        '8'
    } else {
        '9'
    }
}

fn push_digits(s: &mut String, n: u128)
    ensures
        final(s)@ == old(s)@ + digits(n as nat),
    decreases n,
{
    if n >= 10 {
        push_digits(s, n / 10);
        push_char(s, digit(n % 10));
        proof {
            assert(final(s)@ =~= old(s)@ + digits(n as nat));
        }
    } else {
        push_char(s, digit(n));
        proof {
            assert(final(s)@ =~= old(s)@ + digits(n as nat));
        }
    }
}

/// The decimal text of a signed integer.
pub fn decimal_i128(v: i128) -> (r: String)
    ensures
        r@ == decimal(v as int),
{
    let mut s = String::new();
    if v < 0 {
        push_char(&mut s, '-');
        let m: u128 = (-(v + 1)) as u128 + 1;
        push_digits(&mut s, m);
        proof {
            assert(s@ =~= decimal(v as int));
        }
    } else {
        push_digits(&mut s, v as u128);
        proof {
            assert(s@ =~= decimal(v as int));
        }
    }
    s
}

/// The decimal text of an unsigned integer.
pub fn decimal_u128(v: u128) -> (r: String)
    ensures
        r@ == decimal(v as int),
{
    let mut s = String::new();
    push_digits(&mut s, v);
    proof {
        assert(s@ =~= decimal(v as int));
    }
    s
}

/// The text of a map key, or a finite float whose shortest round-trip decimal text is
/// the key. Rendering a float is left to the caller, which holds the float itself.
#[derive(Clone, Debug, PartialEq, Eq)]
pub enum KeyText {
    Text(String),
    /// A finite double, by its binary64 bit pattern.
    Float(u64),
    /// A finite single, by its binary32 bit pattern.
    Float32(u32),
}

/// The model of a map key.
pub enum KeyModel {
    Text(Seq<char>),
    Float(u64),
    Float32(u32),
}

impl View for KeyText {
    type V = KeyModel;

    open spec fn view(&self) -> KeyModel {
        match self {
            KeyText::Text(s) => KeyModel::Text(s@),
            KeyText::Float(b) => KeyModel::Float(*b),
            KeyText::Float32(b) => KeyModel::Float32(*b),
        }
    }
}

pub open spec fn bool_text(b: bool) -> Seq<char> {
    if b {
        "true"@
    } else {
        "false"@
    }
}

/// What a value used as a map key becomes: primitives and strings give their text,
/// compound shapes, bytes, units and options are refused.
pub open spec fn key_of(d: Datum) -> Result<KeyModel, ValueError>
    decreases d,
{
    match d {
        Datum::Bool(b) => Ok(KeyModel::Text(bool_text(b))),
        Datum::I64(v) => Ok(KeyModel::Text(decimal(v as int))),
        Datum::U64(v) => Ok(KeyModel::Text(decimal(v as int))),
        Datum::I128(v) => Ok(KeyModel::Text(decimal(v as int))),
        Datum::U128(v) => Ok(KeyModel::Text(decimal(v as int))),
        Datum::F64(bits) => if is_finite_bits(bits) {
            Ok(KeyModel::Float(bits))
        } else {
            Err(ValueError::FloatKeyMustBeFinite)
        },
        Datum::F32(bits) => if is_finite_f32_bits(bits) {
            Ok(KeyModel::Float32(bits))
        } else {
            Err(ValueError::FloatKeyMustBeFinite)
        },
        Datum::Char(c) => Ok(KeyModel::Text(seq![c])),
        Datum::Str(s) => Ok(KeyModel::Text(s@)),
        Datum::UnitVariant(name) => Ok(KeyModel::Text(name@)),
        Datum::NewtypeStruct(x) => key_of(*x),
        _ => Err(ValueError::KeyMustBeAString),
    }
}

/// The error that encoding a map key gives, if any.
pub open spec fn key_error(d: Datum) -> Option<ValueError> {
    match key_of(d) {
        Ok(_) => None,
        Err(e) => Some(e),
    }
}

pub open spec fn key_result_view(r: Result<KeyText, ValueError>) -> Result<KeyModel, ValueError> {
    match r {
        Ok(k) => Ok(k@),
        Err(e) => Err(e),
    }
}

fn text_of_str(s: &str) -> (r: String)
    ensures
        r@ == s@,
{
    s.to_owned()
}

/// The key encoder: turns a map or struct key into its text.
pub struct MapKeySerializer;

impl MapKeySerializer {
    pub fn serialize_bool(v: bool) -> (r: Result<KeyText, ValueError>)
        ensures
            key_result_view(r) == Ok::<KeyModel, ValueError>(KeyModel::Text(bool_text(v))),
    {
        if v {
            Ok(KeyText::Text(text_of_str("true")))
        } else {
            Ok(KeyText::Text(text_of_str("false")))
        }
    }

    pub fn serialize_i8(v: i8) -> (r: Result<KeyText, ValueError>)
        ensures
            key_result_view(r) == Ok::<KeyModel, ValueError>(KeyModel::Text(decimal(v as int))),
    {
        Ok(KeyText::Text(decimal_i128(v as i128)))
    }

    pub fn serialize_i16(v: i16) -> (r: Result<KeyText, ValueError>)
        ensures
            key_result_view(r) == Ok::<KeyModel, ValueError>(KeyModel::Text(decimal(v as int))),
    {
        Ok(KeyText::Text(decimal_i128(v as i128)))
    }

    pub fn serialize_i32(v: i32) -> (r: Result<KeyText, ValueError>)
        ensures
            key_result_view(r) == Ok::<KeyModel, ValueError>(KeyModel::Text(decimal(v as int))),
    {
        Ok(KeyText::Text(decimal_i128(v as i128)))
    }

    pub fn serialize_i64(v: i64) -> (r: Result<KeyText, ValueError>)
        ensures
            key_result_view(r) == Ok::<KeyModel, ValueError>(KeyModel::Text(decimal(v as int))),
    {
        Ok(KeyText::Text(decimal_i128(v as i128)))
    }

    pub fn serialize_u8(v: u8) -> (r: Result<KeyText, ValueError>)
        ensures
            key_result_view(r) == Ok::<KeyModel, ValueError>(KeyModel::Text(decimal(v as int))),
    {
        Ok(KeyText::Text(decimal_u128(v as u128)))
    }

    pub fn serialize_u16(v: u16) -> (r: Result<KeyText, ValueError>)
        ensures
            key_result_view(r) == Ok::<KeyModel, ValueError>(KeyModel::Text(decimal(v as int))),
    {
        Ok(KeyText::Text(decimal_u128(v as u128)))
    }

    pub fn serialize_u32(v: u32) -> (r: Result<KeyText, ValueError>)
        ensures
            key_result_view(r) == Ok::<KeyModel, ValueError>(KeyModel::Text(decimal(v as int))),
    {
        Ok(KeyText::Text(decimal_u128(v as u128)))
    }

    pub fn serialize_u64(v: u64) -> (r: Result<KeyText, ValueError>)
        ensures
            key_result_view(r) == Ok::<KeyModel, ValueError>(KeyModel::Text(decimal(v as int))),
    {
        Ok(KeyText::Text(decimal_u128(v as u128)))
    }

    pub fn serialize_i128(v: i128) -> (r: Result<KeyText, ValueError>)
        ensures
            key_result_view(r) == Ok::<KeyModel, ValueError>(KeyModel::Text(decimal(v as int))),
    {
        Ok(KeyText::Text(decimal_i128(v)))
    }

    pub fn serialize_u128(v: u128) -> (r: Result<KeyText, ValueError>)
        ensures
            key_result_view(r) == Ok::<KeyModel, ValueError>(KeyModel::Text(decimal(v as int))),
    {
        Ok(KeyText::Text(decimal_u128(v)))
    }

    /// A float key, by its binary64 bit pattern, must be finite.
    pub fn serialize_f64(bits: u64) -> (r: Result<KeyText, ValueError>)
        ensures
            key_result_view(r) == key_of(Datum::F64(bits)),
    {
        if (bits >> 52u64) & 0x7ffu64 != 0x7ffu64 {
            Ok(KeyText::Float(bits))
        } else {
            Err(float_key_must_be_finite())
        }
    }

    /// A single-precision float key, by its binary32 bit pattern, must be finite.
    pub fn serialize_f32(bits: u32) -> (r: Result<KeyText, ValueError>)
        ensures
            key_result_view(r) == key_of(Datum::F32(bits)),
    {
        if (bits >> 23u32) & 0xffu32 != 0xffu32 {
            Ok(KeyText::Float32(bits))
        } else {
            Err(float_key_must_be_finite())
        }
    }

    pub fn serialize_char(c: char) -> (r: Result<KeyText, ValueError>)
        ensures
            key_result_view(r) == Ok::<KeyModel, ValueError>(KeyModel::Text(seq![c])),
    {
        let mut s = String::new();
        push_char(&mut s, c);
        proof {
            assert(s@ =~= seq![c]);
        }
        Ok(KeyText::Text(s))
    }

    pub fn serialize_str(s: &str) -> (r: Result<KeyText, ValueError>)
        ensures
            key_result_view(r) == Ok::<KeyModel, ValueError>(KeyModel::Text(s@)),
    {
        Ok(KeyText::Text(text_of_str(s)))
    }

    /// Text that a key writes of itself.
    pub fn collect_str(s: String) -> (r: Result<KeyText, ValueError>)
        ensures
            key_result_view(r) == Ok::<KeyModel, ValueError>(KeyModel::Text(s@)),
    {
        Ok(KeyText::Text(s))
    }

    /// A unit variant key is its name.
    pub fn serialize_unit_variant(variant: &str) -> (r: Result<KeyText, ValueError>)
        ensures
            key_result_view(r) == Ok::<KeyModel, ValueError>(KeyModel::Text(variant@)),
    {
        Ok(KeyText::Text(text_of_str(variant)))
    }

    pub fn serialize_bytes() -> (r: Result<KeyText, ValueError>)
        ensures
            r == Err::<KeyText, ValueError>(ValueError::KeyMustBeAString),
    {
        Err(key_must_be_a_string())
    }

    pub fn serialize_unit() -> (r: Result<KeyText, ValueError>)
        ensures
            r == Err::<KeyText, ValueError>(ValueError::KeyMustBeAString),
    {
        Err(key_must_be_a_string())
    }

    pub fn serialize_unit_struct() -> (r: Result<KeyText, ValueError>)
        ensures
            r == Err::<KeyText, ValueError>(ValueError::KeyMustBeAString),
    {
        Err(key_must_be_a_string())
    }

    pub fn serialize_none() -> (r: Result<KeyText, ValueError>)
        ensures
            r == Err::<KeyText, ValueError>(ValueError::KeyMustBeAString),
    {
        Err(key_must_be_a_string())
    }

    pub fn serialize_some() -> (r: Result<KeyText, ValueError>)
        ensures
            r == Err::<KeyText, ValueError>(ValueError::KeyMustBeAString),
    {
        Err(key_must_be_a_string())
    }

    pub fn serialize_newtype_variant() -> (r: Result<KeyText, ValueError>)
        ensures
            r == Err::<KeyText, ValueError>(ValueError::KeyMustBeAString),
    {
        Err(key_must_be_a_string())
    }

    pub fn serialize_seq() -> (r: Result<KeyText, ValueError>)
        ensures
            r == Err::<KeyText, ValueError>(ValueError::KeyMustBeAString),
    {
        Err(key_must_be_a_string())
    }

    pub fn serialize_tuple() -> (r: Result<KeyText, ValueError>)
        ensures
            r == Err::<KeyText, ValueError>(ValueError::KeyMustBeAString),
    {
        Err(key_must_be_a_string())
    }

    pub fn serialize_tuple_struct() -> (r: Result<KeyText, ValueError>)
        ensures
            r == Err::<KeyText, ValueError>(ValueError::KeyMustBeAString),
    {
        Err(key_must_be_a_string())
    }

    pub fn serialize_tuple_variant() -> (r: Result<KeyText, ValueError>)
        ensures
            r == Err::<KeyText, ValueError>(ValueError::KeyMustBeAString),
    {
        Err(key_must_be_a_string())
    }

    pub fn serialize_map() -> (r: Result<KeyText, ValueError>)
        ensures
            r == Err::<KeyText, ValueError>(ValueError::KeyMustBeAString),
    {
        Err(key_must_be_a_string())
    }

    pub fn serialize_struct() -> (r: Result<KeyText, ValueError>)
        ensures
            r == Err::<KeyText, ValueError>(ValueError::KeyMustBeAString),
    {
        Err(key_must_be_a_string())
    }

    pub fn serialize_struct_variant() -> (r: Result<KeyText, ValueError>)
        ensures
            r == Err::<KeyText, ValueError>(ValueError::KeyMustBeAString),
    {
        Err(key_must_be_a_string())
    }

    /// Encodes a described key.
    pub fn serialize(d: &Datum) -> (r: Result<KeyText, ValueError>)
        ensures
            key_result_view(r) == key_of(*d),
        decreases d,
    {
        match d {
            Datum::Bool(b) => MapKeySerializer::serialize_bool(*b),
            Datum::I64(v) => MapKeySerializer::serialize_i64(*v),
            Datum::U64(v) => MapKeySerializer::serialize_u64(*v),
            Datum::I128(v) => MapKeySerializer::serialize_i128(*v),
            Datum::U128(v) => MapKeySerializer::serialize_u128(*v),
            Datum::F64(bits) => MapKeySerializer::serialize_f64(*bits),
            Datum::F32(bits) => MapKeySerializer::serialize_f32(*bits),
            Datum::Char(c) => MapKeySerializer::serialize_char(*c),
            Datum::Str(s) => MapKeySerializer::serialize_str(s.as_str()),
            Datum::UnitVariant(name) => MapKeySerializer::serialize_unit_variant(name.as_str()),
            Datum::NewtypeStruct(x) => MapKeySerializer::serialize(x),
            Datum::Bytes(_) => MapKeySerializer::serialize_bytes(),
            Datum::Unit => MapKeySerializer::serialize_unit(),
            Datum::UnitStruct => MapKeySerializer::serialize_unit_struct(),
            Datum::Absent => MapKeySerializer::serialize_none(),
            Datum::Present(_) => MapKeySerializer::serialize_some(),
            Datum::NewtypeVariant(_, _) => MapKeySerializer::serialize_newtype_variant(),
            Datum::Sequence(_) => MapKeySerializer::serialize_seq(),
            Datum::TupleVariant(_, _) => MapKeySerializer::serialize_tuple_variant(),
            Datum::Entries(_) => MapKeySerializer::serialize_map(),
            Datum::Struct(_, _) => MapKeySerializer::serialize_struct(),
            Datum::StructVariant(_, _) => MapKeySerializer::serialize_struct_variant(),
        }
    }
}

} // verus!
