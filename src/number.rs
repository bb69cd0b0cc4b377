use vstd::prelude::*;

verus! {

/// True when a binary64 bit pattern encodes a finite float (neither NaN nor infinite):
/// its exponent field is not all ones.
pub open spec fn is_finite_bits(bits: u64) -> bool {
    (bits >> 52u64) & 0x7ffu64 != 0x7ffu64
}

/// True when a binary32 bit pattern encodes a finite float.
pub open spec fn is_finite_f32_bits(bits: u32) -> bool {
    (bits >> 23u32) & 0xffu32 != 0xffu32
}

/// The highest set bit of `m` at or below position `i`, or 0 when there is none.
pub open spec fn top_bit_at_most(m: u32, i: nat) -> nat
    decreases i,
{
    if (m >> (i as u32)) & 1u32 == 1u32 {
        i
    } else if i == 0 {
        0
    } else {
        top_bit_at_most(m, (i - 1) as nat)
    }
}

/// The binary64 bit pattern of the exact widening of a binary32 float: the sign is kept,
/// the exponent is rebased, the fraction is moved to the top of the wider field, and a
/// subnormal single becomes a normal double.
pub open spec fn f32_to_f64_bits(b: u32) -> u64 {
    let sign = ((b >> 31u32) as u64) << 63u64;
    let exp = (b >> 23u32) & 0xffu32;
    let man = b & 0x7f_ffffu32;
    if exp == 0xffu32 {
        sign | 0x7ff0_0000_0000_0000u64 | ((man as u64) << 29u64)
    } else if exp == 0u32 {
        if man == 0u32 {
            sign
        } else {
            let k = top_bit_at_most(man, 22);
            sign | (((k + 874) as u64) << 52u64) | (((man ^ (1u32 << (k as u32))) as u64) << ((
            52 - k) as u64))
        }
    } else {
        sign | ((((exp as u64) + 896u64) as u64) << 52u64) | ((man as u64) << 29u64)
    }
}

fn top_bit(m: u32) -> (k: u32)
    ensures
        k as nat == top_bit_at_most(m, 22),
        k <= 22,
{
    let mut i: u32 = 22;
    loop
        invariant
            i <= 22,
            top_bit_at_most(m, 22) == top_bit_at_most(m, i as nat),
        decreases i,
    {
        if (m >> i) & 1u32 == 1u32 {
            return i;
        }
        if i == 0 {
            return 0;
        }
        i = i - 1;
    }
}

/// Widens a binary32 float, by its bit pattern, to the binary64 bit pattern of the same value.
pub fn f32_bits_widened(b: u32) -> (r: u64)
    ensures
        r == f32_to_f64_bits(b),
{
    let sign = ((b >> 31u32) as u64) << 63u64;
    let exp = (b >> 23u32) & 0xffu32;
    let man = b & 0x7f_ffffu32;
    if exp == 0xffu32 {
        sign | 0x7ff0_0000_0000_0000u64 | ((man as u64) << 29u64)
    } else if exp == 0u32 {
        if man == 0u32 {
            sign
        } else {
            let k = top_bit(man);
            sign | (((k as u64) + 874u64) << 52u64) | (((man ^ (1u32 << k)) as u64) << (52u64
                - k as u64))
        }
    } else {
        sign | (((exp as u64) + 896u64) << 52u64) | ((man as u64) << 29u64)
    }
}

/// A JSON number: an unsigned integer, a signed integer, or a finite float.
///
/// A float is held by its binary64 bit pattern. Equality is structural, so two
/// floats are equal when their bit patterns are.
#[derive(Clone, Copy, Debug, PartialEq, Eq, Hash, Structural)]
pub enum Number {
    PosInt(u64),
    NegInt(i64),
    Float(u64),
}

/// The number that an `i64` becomes: a non-negative value is held as unsigned.
pub open spec fn number_of_i64(v: i64) -> Number {
    if v < 0 {
        Number::NegInt(v)
    } else {
        Number::PosInt(v as u64)
    }
}

/// The number that a float becomes, given by its bit pattern; none for NaN or infinity.
pub open spec fn number_of_f64_bits(bits: u64) -> Option<Number> {
    if is_finite_bits(bits) {
        Some(Number::Float(bits))
    } else {
        None
    }
}

/// What a numeral string reads as, when it is one.
pub uninterp spec fn parsed_numeral(text: Seq<char>) -> Option<Number>;

/// Relies on serde_json's `FromStr for Number`: it reads one JSON numeral and nothing
/// else, keeps an integer that fits 64 bits as an integer (unsigned first), and turns any
/// other numeral into a finite binary64 float; out-of-range floats are rejected. A
/// number that is not unsigned but signed is negative.
#[verifier::external_body]
fn parse_numeral(text: &str) -> (r: Option<Number>)
    ensures
        r == parsed_numeral(text@),
        r matches Some(n) ==> n.wf(),
{
    let n = text.parse::<serde_json::Number>().ok()?;
    match (n.as_u64(), n.as_i64()) {
        (Some(u), _) => Some(Number::PosInt(u)),
        (None, Some(i)) => Some(Number::NegInt(i)),
        (None, None) => n.as_f64().map(|f| Number::Float(f.to_bits())),
    }
}

impl Number {
    /// A negative integer is held as signed, any other integer as unsigned, and a float
    /// is finite.
    pub open spec fn wf(&self) -> bool {
        match self {
            Number::NegInt(i) => *i < 0,
            Number::Float(bits) => is_finite_bits(*bits),
            _ => true,
        }
    }

    /// The integer that the number holds, if it is an integer.
    pub open spec fn int_value(&self) -> Option<int> {
        match self {
            Number::PosInt(u) => Some(*u as int),
            Number::NegInt(i) => Some(*i as int),
            Number::Float(_) => None,
        }
    }

    pub fn from_i64(v: i64) -> (r: Number)
        ensures
            r == number_of_i64(v),
            r.wf(),
    {
        if v < 0 {
            Number::NegInt(v)
        } else {
            Number::PosInt(v as u64)
        }
    }

    pub fn from_u64(v: u64) -> (r: Number)
        ensures
            r == Number::PosInt(v),
            r.wf(),
    {
        Number::PosInt(v)
    }

    /// Builds a float number from its bit pattern; NaN and infinities give none.
    pub fn from_f64_bits(bits: u64) -> (r: Option<Number>)
        ensures
            r == number_of_f64_bits(bits),
            r matches Some(n) ==> n.wf(),
    {
        if (bits >> 52u64) & 0x7ffu64 != 0x7ffu64 {
            Some(Number::Float(bits))
        } else {
            None
        }
    }

    /// Reads a numeral string as a number; none when the text is not one JSON numeral.
    pub fn from_numeral(text: &str) -> (r: Option<Number>)
        ensures
            r == parsed_numeral(text@),
            r matches Some(n) ==> n.wf(),
    {
        parse_numeral(text)
    }

    /// The number as an `i64`, when it is an integer in that range.
    pub fn as_i64(&self) -> (r: Option<i64>)
        ensures
            r matches Some(i) ==> self.int_value() == Some(i as int),
            r is None ==> !(self.int_value() matches Some(k) && i64::MIN <= k <= i64::MAX),
    {
        match self {
            Number::PosInt(u) => {
                if *u <= 0x7fff_ffff_ffff_ffffu64 {
                    Some(*u as i64)
                } else {
                    None
                }
            },
            Number::NegInt(i) => Some(*i),
            Number::Float(_) => None,
        }
    }

    /// The number as a `u64`, when it is held as an unsigned integer.
    pub fn as_u64(&self) -> (r: Option<u64>)
        ensures
            r == (match self {
                Number::PosInt(u) => Some(*u),
                _ => None::<u64>,
            }),
    {
        match self {
            Number::PosInt(u) => Some(*u),
            _ => None,
        }
    }
}

} // verus!
