use vstd::prelude::*;

verus! {

/// One value as the generic serialization protocol describes it: the call a
/// serializable type makes for itself, with everything nested in it.
///
/// Integers narrower than 64 bits are described by their 64-bit widening, and a float
/// by its bit pattern. Names that no rule reads (of unit
/// structs, of newtype structs, the index of a variant) are left out.
#[derive(Debug, PartialEq, Eq)]
pub enum Datum {
    Bool(bool),
    I64(i64),
    U64(u64),
    I128(i128),
    U128(u128),
    F64(u64),
    /// A single-precision float, by its binary32 bit pattern.
    F32(u32),
    Char(char),
    Str(String),
    Bytes(Vec<u8>),
    Unit,
    /// `None` of an option.
    Absent,
    /// `Some` of an option.
    Present(Box<Datum>),
    UnitStruct,
    /// A unit variant, by its name.
    UnitVariant(String),
    NewtypeStruct(Box<Datum>),
    /// A newtype variant: its name and its payload.
    NewtypeVariant(String, Box<Datum>),
    /// A sequence, tuple or tuple struct, by its elements in order.
    Sequence(Vec<Datum>),
    /// A tuple variant: its name and its fields.
    TupleVariant(String, Vec<Datum>),
    /// A map, by its entries in order.
    Entries(Vec<(Datum, Datum)>),
    /// A struct: its name and its named fields in order.
    Struct(String, Vec<(String, Datum)>),
    /// A struct variant: its name and its named fields.
    StructVariant(String, Vec<(String, Datum)>),
}

/// The struct name (and field name) by which a serialized value hands over a number as
/// its numeral text.
pub open spec fn number_token() -> Seq<char> {
    "$serde_json::private::Number"@
}

/// The struct name (and field name) by which a serialized value hands over a fragment
/// of already encoded JSON text.
pub open spec fn raw_token() -> Seq<char> {
    "$serde_json::private::RawValue"@
}

pub open spec fn is_reserved_name(name: Seq<char>) -> bool {
    name == number_token() || name == raw_token()
}

impl Datum {
    /// A struct under a reserved name carries at least one field. Serializing one that
    /// carries none breaks the protocol of the escape and is not a data error.
    pub open spec fn well_formed(&self) -> bool
        decreases self,
    {
        match self {
            Datum::Present(x) => x.well_formed(),
            Datum::NewtypeStruct(x) => x.well_formed(),
            Datum::NewtypeVariant(_, x) => x.well_formed(),
            Datum::Sequence(v) => forall|i: int| 0 <= i < v.len() ==> v@[i].well_formed(),
            Datum::TupleVariant(_, v) => forall|i: int|
                0 <= i < v.len() ==> v@[i].well_formed(),
            Datum::Entries(v) => forall|i: int|
                0 <= i < v.len() ==> v@[i].0.well_formed() && v@[i].1.well_formed(),
            Datum::Struct(name, v) => (is_reserved_name(name@) ==> v.len() > 0) && forall|i: int|
                0 <= i < v.len() ==> v@[i].1.well_formed(),
            Datum::StructVariant(_, v) => forall|i: int|
                0 <= i < v.len() ==> v@[i].1.well_formed(),
            _ => true,
        }
    }
}

} // verus!
