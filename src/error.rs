use vstd::prelude::*;

verus! {

/// What a failed conversion found in place of what it expected.
#[derive(Clone, Copy, Debug, PartialEq, Eq, Structural)]
pub enum Unexpected {
    Unit,
    Bool(bool),
    Unsigned(u64),
    Signed(i64),
    /// A float, by its binary64 bit pattern.
    Float(u64),
    Str,
    Bytes,
    Sequence,
    Object,
    UnitVariant,
}

/// The ways a conversion into or out of a value tree can fail.
#[derive(Clone, Copy, Debug, PartialEq, Eq, Structural)]
pub enum ValueError {
    /// A shape that the target cannot represent, or that the consumer did not ask for.
    InvalidType(Unexpected),
    /// A 128-bit integer outside the 64-bit signed and unsigned ranges.
    NumberOutOfRange,
    /// The number escape received something other than a numeral string.
    InvalidNumber,
    /// A map key that is not string-like.
    KeyMustBeAString,
    /// A NaN or infinite float used as a map key.
    FloatKeyMustBeFinite,
    /// The raw-value escape received something other than a string.
    ExpectedSomeValue,
    /// A pre-encoded fragment that is not well-formed JSON text.
    Syntax,
}

pub fn key_must_be_a_string() -> (e: ValueError)
    ensures
        e == ValueError::KeyMustBeAString,
{
    ValueError::KeyMustBeAString
}

pub fn float_key_must_be_finite() -> (e: ValueError)
    ensures
        e == ValueError::FloatKeyMustBeFinite,
{
    ValueError::FloatKeyMustBeFinite
}

pub fn invalid_number() -> (e: ValueError)
    ensures
        e == ValueError::InvalidNumber,
{
    ValueError::InvalidNumber
}

pub fn invalid_raw_value() -> (e: ValueError)
    ensures
        e == ValueError::ExpectedSomeValue,
{
    ValueError::ExpectedSomeValue
}

} // verus!
