use vstd::prelude::*;
use crate::datum::{Datum, number_token, raw_token};
use crate::error::{ValueError, Unexpected, invalid_number, invalid_raw_value};
use crate::json::{tree_of_json_text, value_from_json_text};
use crate::key::{KeyText, MapKeySerializer, key_error, key_of, is_number_token, is_raw_token, lemma_tokens_differ};
use crate::number::{Number, number_of_i64, number_of_f64_bits, parsed_numeral, f32_to_f64_bits};
use crate::value::{ScalarOrArrayValue, ScalarValue, Shape, Tree, result_view, views_of};

verus! {

/// The number that a 128-bit signed integer becomes, when it fits 64 bits.
pub open spec fn number_of_i128(v: i128) -> Option<Number> {
    if 0 <= v <= u64::MAX {
        Some(Number::PosInt(v as u64))
    } else if i64::MIN <= v < 0 {
        Some(number_of_i64(v as i64))
    } else {
        None
    }
}

/// The number that a 128-bit unsigned integer becomes, when it fits 64 bits.
pub open spec fn number_of_u128(v: u128) -> Option<Number> {
    if v <= u64::MAX {
        Some(Number::PosInt(v as u64))
    } else {
        None
    }
}

/// A byte string as an array of numbers, one per byte.
pub open spec fn bytes_tree(b: Seq<u8>) -> Seq<Tree> {
    b.map_values(|x: u8| Tree::Number(Number::PosInt(x as u64)))
}

/// What one field handed to the number escape gives.
pub open spec fn number_field(key: Seq<char>, value: Datum) -> Result<Number, ValueError> {
    if key != number_token() {
        Err(ValueError::InvalidNumber)
    } else {
        match value {
            Datum::Str(s) => match parsed_numeral(s@) {
                Some(n) => Ok(n),
                None => Err(ValueError::InvalidNumber),
            },
            _ => Err(ValueError::InvalidNumber),
        }
    }
}

/// The number escape after its first `n` fields: the last number emitted, or the first error.
pub open spec fn number_prefix(fields: Seq<(String, Datum)>, n: nat) -> Result<Option<Number>, ValueError>
    decreases n,
{
    if n == 0 || n > fields.len() {
        Ok(None)
    } else {
        match number_prefix(fields, (n - 1) as nat) {
            Err(e) => Err(e),
            Ok(_) => match number_field(fields[n - 1].0@, fields[n - 1].1) {
                Ok(x) => Ok(Some(x)),
                Err(e) => Err(e),
            },
        }
    }
}

pub open spec fn number_escape(fields: Seq<(String, Datum)>) -> Result<Tree, ValueError> {
    match number_prefix(fields, fields.len()) {
        Err(e) => Err(e),
        Ok(Some(n)) => Ok(Tree::Number(n)),
        Ok(None) => Err(ValueError::InvalidNumber),
    }
}

/// What one field handed to the raw-value escape gives: the tree its fragment reads as.
pub open spec fn raw_field(key: Seq<char>, value: Datum, shape: Shape) -> Result<Tree, ValueError> {
    if key != raw_token() {
        Err(ValueError::ExpectedSomeValue)
    } else {
        match value {
            Datum::Str(s) => tree_of_json_text(s@, shape),
            _ => Err(ValueError::ExpectedSomeValue),
        }
    }
}

/// The raw-value escape after its first `n` fields: the last tree emitted, or the first error.
pub open spec fn raw_prefix(fields: Seq<(String, Datum)>, shape: Shape, n: nat) -> Result<
    Option<Tree>,
    ValueError,
>
    decreases n,
{
    if n == 0 || n > fields.len() {
        Ok(None)
    } else {
        match raw_prefix(fields, shape, (n - 1) as nat) {
            Err(e) => Err(e),
            Ok(_) => match raw_field(fields[n - 1].0@, fields[n - 1].1, shape) {
                Ok(t) => Ok(Some(t)),
                Err(e) => Err(e),
            },
        }
    }
}

pub open spec fn raw_escape(fields: Seq<(String, Datum)>, shape: Shape) -> Result<Tree, ValueError> {
    match raw_prefix(fields, shape, fields.len()) {
        Err(e) => Err(e),
        Ok(Some(t)) => Ok(t),
        Ok(None) => Err(ValueError::ExpectedSomeValue),
    }
}

/// The elements of a sequence after its first `n` elements are converted: the trees so far,
/// or the first error.
pub open spec fn built_items(items: Seq<Datum>, shape: Shape, n: nat) -> Result<
    Seq<Tree>,
    ValueError,
>
    decreases items, n,
{
    if n == 0 || n > items.len() {
        Ok(Seq::empty())
    } else {
        match built_items(items, shape, (n - 1) as nat) {
            Ok(ts) => match built(items[n - 1], shape) {
                Ok(t) => Ok(ts.push(t)),
                Err(e) => Err(e),
            },
            Err(e) => Err(e),
        }
    }
}

/// What converting a described value into a tree of the shape gives.
pub open spec fn built(d: Datum, shape: Shape) -> Result<Tree, ValueError>
    decreases d, 0nat,
{
    match d {
        Datum::Bool(b) => Ok(Tree::Bool(b)),
        Datum::I64(v) => Ok(Tree::Number(number_of_i64(v))),
        Datum::U64(v) => Ok(Tree::Number(Number::PosInt(v))),
        Datum::I128(v) => match number_of_i128(v) {
            Some(n) => Ok(Tree::Number(n)),
            None => Err(ValueError::NumberOutOfRange),
        },
        Datum::U128(v) => match number_of_u128(v) {
            Some(n) => Ok(Tree::Number(n)),
            None => Err(ValueError::NumberOutOfRange),
        },
        Datum::F64(bits) => Ok(float_tree(bits)),
        Datum::F32(bits) => Ok(float_tree(f32_to_f64_bits(bits))),
        Datum::Char(c) => Ok(Tree::Str(seq![c])),
        Datum::Str(s) => Ok(Tree::Str(s@)),
        Datum::Bytes(b) => if shape.permits_array() {
            Ok(Tree::Array(bytes_tree(b@)))
        } else {
            Err(ValueError::InvalidType(Unexpected::Bytes))
        },
        Datum::Unit => Ok(Tree::Null),
        Datum::Absent => Ok(Tree::Null),
        Datum::UnitStruct => Ok(Tree::Null),
        Datum::Present(x) => built(*x, shape),
        Datum::UnitVariant(name) => Ok(Tree::Str(name@)),
        Datum::NewtypeStruct(x) => built(*x, shape),
        Datum::NewtypeVariant(_, _) => Err(ValueError::InvalidType(Unexpected::Object)),
        Datum::Sequence(items) => if !shape.permits_array() {
            Err(ValueError::InvalidType(Unexpected::Sequence))
        } else {
            match built_items(items@, shape, items@.len()) {
                Ok(ts) => Ok(Tree::Array(ts)),
                Err(e) => Err(e),
            }
        },
        Datum::TupleVariant(_, _) => Err(ValueError::InvalidType(Unexpected::Object)),
        Datum::Entries(es) => Err(
            if es.len() > 0 && key_error(es@[0].0) is Some {
                key_error(es@[0].0)->Some_0
            } else {
                ValueError::InvalidType(Unexpected::Object)
            },
        ),
        Datum::Struct(name, fields) => if name@ == number_token() {
            number_escape(fields@)
        } else if name@ == raw_token() {
            raw_escape(fields@, shape)
        } else {
            Err(ValueError::InvalidType(Unexpected::Object))
        },
        Datum::StructVariant(_, _) => Err(ValueError::InvalidType(Unexpected::Object)),
    }
}

/// What a float, by its binary64 bit pattern, becomes: a number when finite, null otherwise.
pub open spec fn float_tree(bits: u64) -> Tree {
    match number_of_f64_bits(bits) {
        Some(n) => Tree::Number(n),
        None => Tree::Null,
    }
}

/// Once the elements so far have failed, or rest on the outside parser, further elements
/// change nothing.
pub proof fn lemma_items_settled(items: Seq<Datum>, shape: Shape, k: nat, n: nat)
    requires
        k <= n <= items.len(),
        built_items(items, shape, k) is Err,
    ensures
        built_items(items, shape, n) == built_items(items, shape, k),
    decreases n - k,
{
    if n > k {
        lemma_items_settled(items, shape, k, (n - 1) as nat);
    }
}

/// Once a field has failed, further fields change nothing.
pub proof fn lemma_number_settled(fields: Seq<(String, Datum)>, k: nat, n: nat)
    requires
        k <= n <= fields.len(),
        number_prefix(fields, k) is Err,
    ensures
        number_prefix(fields, n) == number_prefix(fields, k),
    decreases n - k,
{
    if n > k {
        lemma_number_settled(fields, k, (n - 1) as nat);
    }
}

/// Once a field has failed, further fields change nothing.
pub proof fn lemma_raw_settled(fields: Seq<(String, Datum)>, shape: Shape, k: nat, n: nat)
    requires
        k <= n <= fields.len(),
        raw_prefix(fields, shape, k) is Err,
    ensures
        raw_prefix(fields, shape, n) == raw_prefix(fields, shape, k),
    decreases n - k,
{
    if n > k {
        lemma_raw_settled(fields, shape, k, (n - 1) as nat);
    }
}

/// The tree an optional value holds.
pub open spec fn option_view(o: Option<ScalarOrArrayValue>) -> Option<Tree> {
    match o {
        Some(v) => Some(v@),
        None => None,
    }
}

/// Takes the one field of the number escape: a numeral string.
pub struct NumberValueEmitter;

impl NumberValueEmitter {
    pub fn serialize(d: &Datum) -> (r: Result<Number, ValueError>)
        ensures
            r == (match *d {
                Datum::Str(s) => match parsed_numeral(s@) {
                    Some(n) => Ok(n),
                    None => Err(ValueError::InvalidNumber),
                },
                _ => Err(ValueError::InvalidNumber),
            }),
            r matches Ok(n) ==> n.wf(),
    {
        match d {
            Datum::Str(s) => match Number::from_numeral(s.as_str()) {
                Some(n) => Ok(n),
                None => Err(invalid_number()),
            },
            _ => Err(invalid_number()),
        }
    }
}

/// Takes the one field of the raw-value escape: a fragment of encoded JSON text, read
/// into a tree of the shape.
pub struct RawValueEmitter;

impl RawValueEmitter {
    pub fn serialize(d: &Datum, shape: Shape) -> (r: Result<ScalarOrArrayValue, ValueError>)
        ensures
            result_view(r) == match *d {
                Datum::Str(s) => tree_of_json_text(s@, shape),
                _ => Err(ValueError::ExpectedSomeValue),
            },
            r matches Ok(v) ==> v@.wf(shape),
    {
        match d {
            Datum::Str(s) => value_from_json_text(s.as_str(), shape),
            _ => Err(invalid_raw_value()),
        }
    }
}

/// The value builder: converts a described value into a tree of its shape.
#[derive(Clone, Copy, Debug)]
pub struct Serializer {
    pub shape: Shape,
}

/// Collects the elements of a sequence.
#[derive(Debug)]
pub struct SerializeVec {
    pub shape: Shape,
    pub vec: Vec<ScalarOrArrayValue>,
}

/// A map or struct under construction. Only the two escapes can complete; an ordinary
/// map or struct is refused since neither shape holds objects.
#[derive(Debug)]
pub enum SerializeMap {
    /// An ordinary map or struct, with the last key encoded.
    Object { next_key: Option<KeyText> },
    /// The number escape, with the number emitted so far.
    Number { out_value: Option<Number> },
    /// The raw-value escape, with the tree emitted so far.
    RawValue { shape: Shape, out_value: Option<ScalarOrArrayValue> },
}

impl SerializeVec {
    /// The elements hold to the shape, which permits arrays.
    pub open spec fn wf(&self) -> bool {
        &&& self.shape.permits_array()
        &&& forall|i: int| 0 <= i < self.vec@.len() ==> (#[trigger] self.vec@[i])@.wf(self.shape)
    }

    /// Converts one element and appends it.
    pub fn serialize_element(&mut self, d: &Datum) -> (r: Result<(), ValueError>)
        requires
            old(self).wf(),
            d.well_formed(),
        ensures
            final(self).wf(),
            final(self).shape == old(self).shape,
            r is Ok ==> final(self).vec@.len() == old(self).vec@.len() + 1 && final(self).vec@.subrange(0, old(self).vec@.len() as int) == old(self).vec@,
            built(*d, old(self).shape) matches Ok(t) ==> (r is Ok && final(self).vec@.last()@
                == t),
            built(*d, old(self).shape) matches Err(e) ==> r == Err::<(), ValueError>(e),
            r is Err ==> final(self).vec@ == old(self).vec@,
        decreases d, 3nat,
    {
        let ser = Serializer { shape: self.shape };
        match ser.serialize(d) {
            Ok(v) => {
                self.vec.push(v);
                assert(self.vec@.subrange(0, old(self).vec@.len() as int) =~= old(self).vec@);
                Ok(())
            },
            Err(e) => Err(e),
        }
    }

    /// The array of the elements, in order.
    pub fn end(self) -> (r: ScalarOrArrayValue)
        requires
            self.wf(),
        ensures
            r@ == Tree::Array(views_of(self.vec@)),
            r@.wf(self.shape),
    {
        let shape = self.shape;
        let r = ScalarOrArrayValue::array(self.vec);
        proof {
            let ts = r@->Array_0;
            assert forall|j: int| 0 <= j < ts.len() implies #[trigger] ts[j].wf(shape) by {
                assert(ts[j] == self.vec@[j]@);
            }
        }
        r
    }
}

impl SerializeMap {
    /// The raw-value escape holds a tree of its shape.
    pub open spec fn holds_emitted(&self) -> bool {
        self matches SerializeMap::RawValue { shape, out_value: Some(v) } && v@.wf(*shape)
    }

    /// Encodes the key of the next entry.
    pub fn serialize_key(&mut self, key: &Datum) -> (r: Result<(), ValueError>)
        requires
            *old(self) is Object,
        ensures
            *final(self) is Object,
            r is Err ==> *final(self) == *old(self),
            r == (match key_error(*key) {
                Some(e) => Err(e),
                None => Ok(()),
            }),
            key_of(*key) matches Ok(k) ==> ((*final(self)) matches SerializeMap::Object {
                next_key: Some(t),
            } && t@ == k),
    {
        match MapKeySerializer::serialize(key) {
            Ok(k) => {
                *self = SerializeMap::Object { next_key: Some(k) };
                Ok(())
            },
            Err(e) => Err(e),
        }
    }

    /// The value of an entry: an object cannot be held.
    pub fn serialize_value(&mut self, value: &Datum) -> (r: Result<(), ValueError>)
        requires
            *old(self) is Object,
        ensures
            r == Err::<(), ValueError>(ValueError::InvalidType(Unexpected::Object)),
            *final(self) == *old(self),
    {
        Err(ValueError::InvalidType(Unexpected::Object))
    }

    /// One field of a struct: refused for an ordinary struct, handed to the emitter of an
    /// escape when its name is the reserved one.
    pub fn serialize_field(&mut self, key: &str, value: &Datum) -> (r: Result<(), ValueError>)
        ensures
            *old(self) is Object ==> r == Err::<(), ValueError>(
                ValueError::InvalidType(Unexpected::Object),
            ),
            r is Err ==> *final(self) == *old(self),
            *old(self) is Number ==> {
                &&& r is Ok ==> ((*final(self))->Number_out_value matches Some(n) && n.wf())
                &&& match number_field(key@, *value) {
                    Ok(n) => r is Ok && *final(self) == (SerializeMap::Number { out_value: Some(n) }),
                    Err(e) => r == Err::<(), ValueError>(e),
                }
            },
            *old(self) is RawValue ==> {
                &&& r is Ok ==> final(self).holds_emitted()
                &&& match raw_field(key@, *value, (*old(self))->RawValue_shape) {
                    Ok(t) => r is Ok && *final(self) is RawValue && (*final(self))->RawValue_shape
                        == (*old(self))->RawValue_shape && option_view(
                        (*final(self))->RawValue_out_value,
                    ) == Some(t),
                    Err(e) => r == Err::<(), ValueError>(e),
                }
            },
    {
        match self {
            SerializeMap::Object { .. } => Err(ValueError::InvalidType(Unexpected::Object)),
            SerializeMap::Number { out_value } => {
                if is_number_token(key) {
                    match NumberValueEmitter::serialize(value) {
                        Ok(n) => {
                            *out_value = Some(n);
                            Ok(())
                        },
                        Err(e) => Err(e),
                    }
                } else {
                    Err(invalid_number())
                }
            },
            SerializeMap::RawValue { shape, out_value } => {
                if is_raw_token(key) {
                    match RawValueEmitter::serialize(value, *shape) {
                        Ok(v) => {
                            *out_value = Some(v);
                            Ok(())
                        },
                        Err(e) => Err(e),
                    }
                } else {
                    Err(invalid_raw_value())
                }
            },
        }
    }
}

impl SerializeMap {
    /// Completes the map or struct: an ordinary one is refused, an escape yields what its
    /// field emitted.
    pub fn end(self) -> (r: Result<ScalarOrArrayValue, ValueError>)
        requires
            self is Number ==> self->Number_out_value is Some,
            self is RawValue ==> self.holds_emitted(),
        ensures
            self is Object ==> r == Err::<ScalarOrArrayValue, ValueError>(
                ValueError::InvalidType(Unexpected::Object),
            ),
            self matches SerializeMap::Number { out_value: Some(n) } ==> (r matches Ok(v) && v@
                == Tree::Number(n)),
            self matches SerializeMap::RawValue { out_value: Some(t), .. } ==> (r matches Ok(v)
                && v@ == t@),
    {
        match self {
            SerializeMap::Object { .. } => Err(ValueError::InvalidType(Unexpected::Object)),
            SerializeMap::Number { out_value } => match out_value {
                Some(n) => Ok(ScalarOrArrayValue::Number(n)),
                None => Err(invalid_number()),
            },
            SerializeMap::RawValue { out_value, .. } => match out_value {
                Some(v) => Ok(v),
                None => Err(invalid_raw_value()),
            },
        }
    }
}

impl Serializer {
    pub fn serialize_bool(&self, v: bool) -> (r: Result<ScalarOrArrayValue, ValueError>)
        ensures
            ok_tree(r, Tree::Bool(v)),
    {
        Ok(ScalarOrArrayValue::Bool(v))
    }

    pub fn serialize_i8(&self, v: i8) -> (r: Result<ScalarOrArrayValue, ValueError>)
        ensures
            ok_tree(r, Tree::Number(number_of_i64(v as i64))),
    {
        self.serialize_i64(v as i64)
    }

    pub fn serialize_i16(&self, v: i16) -> (r: Result<ScalarOrArrayValue, ValueError>)
        ensures
            ok_tree(r, Tree::Number(number_of_i64(v as i64))),
    {
        self.serialize_i64(v as i64)
    }

    pub fn serialize_i32(&self, v: i32) -> (r: Result<ScalarOrArrayValue, ValueError>)
        ensures
            ok_tree(r, Tree::Number(number_of_i64(v as i64))),
    {
        self.serialize_i64(v as i64)
    }

    pub fn serialize_i64(&self, v: i64) -> (r: Result<ScalarOrArrayValue, ValueError>)
        ensures
            ok_tree(r, Tree::Number(number_of_i64(v))),
    {
        Ok(ScalarOrArrayValue::Number(Number::from_i64(v)))
    }

    /// A 128-bit integer is kept when it fits 64 bits, unsigned first.
    pub fn serialize_i128(&self, v: i128) -> (r: Result<ScalarOrArrayValue, ValueError>)
        ensures
            result_view(r) == match number_of_i128(v) {
                Some(n) => Ok(Tree::Number(n)),
                None => Err(ValueError::NumberOutOfRange),
            },
    {
        if 0 <= v && v <= 0xffff_ffff_ffff_ffffi128 {
            self.serialize_u64(v as u64)
        } else if -0x8000_0000_0000_0000i128 <= v && v < 0 {
            self.serialize_i64(v as i64)
        } else {
            Err(ValueError::NumberOutOfRange)
        }
    }

    pub fn serialize_u8(&self, v: u8) -> (r: Result<ScalarOrArrayValue, ValueError>)
        ensures
            ok_tree(r, Tree::Number(Number::PosInt(v as u64))),
    {
        self.serialize_u64(v as u64)
    }

    pub fn serialize_u16(&self, v: u16) -> (r: Result<ScalarOrArrayValue, ValueError>)
        ensures
            ok_tree(r, Tree::Number(Number::PosInt(v as u64))),
    {
        self.serialize_u64(v as u64)
    }

    pub fn serialize_u32(&self, v: u32) -> (r: Result<ScalarOrArrayValue, ValueError>)
        ensures
            ok_tree(r, Tree::Number(Number::PosInt(v as u64))),
    {
        self.serialize_u64(v as u64)
    }

    pub fn serialize_u64(&self, v: u64) -> (r: Result<ScalarOrArrayValue, ValueError>)
        ensures
            ok_tree(r, Tree::Number(Number::PosInt(v))),
    {
        Ok(ScalarOrArrayValue::Number(Number::from_u64(v)))
    }

    /// A 128-bit unsigned integer is kept when it fits 64 bits.
    pub fn serialize_u128(&self, v: u128) -> (r: Result<ScalarOrArrayValue, ValueError>)
        ensures
            result_view(r) == match number_of_u128(v) {
                Some(n) => Ok(Tree::Number(n)),
                None => Err(ValueError::NumberOutOfRange),
            },
    {
        if v <= 0xffff_ffff_ffff_ffffu128 {
            self.serialize_u64(v as u64)
        } else {
            Err(ValueError::NumberOutOfRange)
        }
    }

    /// A float, by its binary64 bit pattern: a number when finite, null otherwise.
    pub fn serialize_f64(&self, bits: u64) -> (r: Result<ScalarOrArrayValue, ValueError>)
        ensures
            ok_tree(
                r,
                match number_of_f64_bits(bits) {
                    Some(n) => Tree::Number(n),
                    None => Tree::Null,
                },
            ),
    {
        match Number::from_f64_bits(bits) {
            Some(n) => Ok(ScalarOrArrayValue::Number(n)),
            None => Ok(ScalarOrArrayValue::Null),
        }
    }

    /// A single-precision float, by its binary32 bit pattern: widened exactly, then as a
    /// double.
    pub fn serialize_f32(&self, bits: u32) -> (r: Result<ScalarOrArrayValue, ValueError>)
        ensures
            ok_tree(r, float_tree(f32_to_f64_bits(bits))),
    {
        self.serialize_f64(crate::number::f32_bits_widened(bits))
    }

    pub fn serialize_char(&self, c: char) -> (r: Result<ScalarOrArrayValue, ValueError>)
        ensures
            ok_tree(r, Tree::Str(seq![c])),
    {
        let mut s = String::new();
        crate::key::push_char(&mut s, c);
        assert(s@ =~= seq![c]);
        Ok(ScalarOrArrayValue::String(s))
    }

    pub fn serialize_str(&self, s: &str) -> (r: Result<ScalarOrArrayValue, ValueError>)
        ensures
            ok_tree(r, Tree::Str(s@)),
    {
        Ok(ScalarOrArrayValue::String(s.to_owned()))
    }

    /// Text that a value writes of itself.
    pub fn collect_str(&self, s: String) -> (r: Result<ScalarOrArrayValue, ValueError>)
        ensures
            ok_tree(r, Tree::Str(s@)),
    {
        Ok(ScalarOrArrayValue::String(s))
    }

    pub fn serialize_unit(&self) -> (r: Result<ScalarOrArrayValue, ValueError>)
        ensures
            ok_tree(r, Tree::Null),
    {
        Ok(ScalarOrArrayValue::Null)
    }

    pub fn serialize_unit_struct(&self) -> (r: Result<ScalarOrArrayValue, ValueError>)
        ensures
            ok_tree(r, Tree::Null),
    {
        self.serialize_unit()
    }

    pub fn serialize_none(&self) -> (r: Result<ScalarOrArrayValue, ValueError>)
        ensures
            ok_tree(r, Tree::Null),
    {
        self.serialize_unit()
    }

    /// A unit variant becomes its name.
    pub fn serialize_unit_variant(&self, variant: &str) -> (r: Result<ScalarOrArrayValue, ValueError>)
        ensures
            ok_tree(r, Tree::Str(variant@)),
    {
        self.serialize_str(variant)
    }

    /// A newtype variant would need an object around its payload.
    pub fn serialize_newtype_variant(&self) -> (r: Result<ScalarOrArrayValue, ValueError>)
        ensures
            r == Err::<ScalarOrArrayValue, ValueError>(ValueError::InvalidType(Unexpected::Object)),
    {
        Err(ValueError::InvalidType(Unexpected::Object))
    }

    /// A tuple variant would need an object around its fields.
    pub fn serialize_tuple_variant(&self) -> (r: Result<SerializeVec, ValueError>)
        ensures
            r == Err::<SerializeVec, ValueError>(ValueError::InvalidType(Unexpected::Object)),
    {
        Err(ValueError::InvalidType(Unexpected::Object))
    }

    /// A struct variant would need an object around its fields.
    pub fn serialize_struct_variant(&self) -> (r: Result<SerializeMap, ValueError>)
        ensures
            r == Err::<SerializeMap, ValueError>(ValueError::InvalidType(Unexpected::Object)),
    {
        Err(ValueError::InvalidType(Unexpected::Object))
    }

    /// Begins a sequence; the scalar shape refuses it at once.
    pub fn serialize_seq(&self) -> (r: Result<SerializeVec, ValueError>)
        ensures
            !self.shape.permits_array() ==> r == Err::<SerializeVec, ValueError>(
                ValueError::InvalidType(Unexpected::Sequence),
            ),
            self.shape.permits_array() ==> (r matches Ok(sv) && sv.wf() && sv.shape == self.shape
                && sv.vec@.len() == 0),
    {
        match self.shape {
            Shape::Scalar => Err(ValueError::InvalidType(Unexpected::Sequence)),
            Shape::ScalarOrArray => Ok(SerializeVec { shape: self.shape, vec: Vec::new() }),
        }
    }

    /// Begins a map.
    pub fn serialize_map(&self) -> (r: SerializeMap)
        ensures
            r == (SerializeMap::Object { next_key: None }),
    {
        SerializeMap::Object { next_key: None }
    }

    /// The state in which a struct of the given name begins.
    pub open spec fn serialize_struct_spec(&self, name: Seq<char>) -> SerializeMap {
        if name == number_token() {
            SerializeMap::Number { out_value: None }
        } else if name == raw_token() {
            SerializeMap::RawValue { shape: self.shape, out_value: None }
        } else {
            SerializeMap::Object { next_key: None }
        }
    }

    /// Begins a struct; a reserved name begins the matching escape.
    pub fn serialize_struct(&self, name: &str) -> (r: SerializeMap)
        ensures
            r == self.serialize_struct_spec(name@),
    {
        proof {
            lemma_tokens_differ();
        }
        if is_number_token(name) {
            SerializeMap::Number { out_value: None }
        } else if is_raw_token(name) {
            SerializeMap::RawValue { shape: self.shape, out_value: None }
        } else {
            self.serialize_map()
        }
    }

    /// Bytes become an array of numbers, one per byte; the scalar shape refuses them.
    pub fn serialize_bytes(&self, b: &[u8]) -> (r: Result<ScalarOrArrayValue, ValueError>)
        ensures
            self.shape.permits_array() ==> (r matches Ok(v) && v@ == Tree::Array(bytes_tree(b@))),
            r matches Ok(v) ==> v@.wf(self.shape),
            !self.shape.permits_array() ==> r == Err::<ScalarOrArrayValue, ValueError>(
                ValueError::InvalidType(Unexpected::Bytes),
            ),
    {
        if self.shape == Shape::Scalar {
            return Err(ValueError::InvalidType(Unexpected::Bytes));
        }
        let mut out: Vec<ScalarOrArrayValue> = Vec::new();
        let mut i: usize = 0;
        while i < b.len()
            invariant
                i <= b.len(),
                out@.len() == i,
                forall|j: int|
                    0 <= j < i ==> (#[trigger] out@[j])@ == Tree::Number(
                        Number::PosInt(b@[j] as u64),
                    ),
            decreases b.len() - i,
        {
            out.push(ScalarOrArrayValue::Number(Number::PosInt(b[i] as u64)));
            i = i + 1;
        }
        assert(views_of(out@) =~= bytes_tree(b@));
        let shape = self.shape;
        let r = ScalarOrArrayValue::array(out);
        proof {
            let ts = r@->Array_0;
            assert forall|j: int| 0 <= j < ts.len() implies #[trigger] ts[j].wf(shape) by {
                assert(ts[j] == out@[j]@);
            }
            assert(shape.permits_array());
            reveal_with_fuel(Tree::wf, 2);
            assert(Tree::Array(ts).wf(shape));
            assert(r@ == Tree::Array(ts));
        }
        Ok(r)
    }

    fn serialize_items(&self, d: &Datum, items: &Vec<Datum>) -> (r: Result<
        ScalarOrArrayValue,
        ValueError,
    >)
        requires
            d.well_formed(),
            *d == Datum::Sequence(*items),
        ensures
            r matches Ok(v) ==> v@.wf(self.shape),
            result_view(r) == built(*d, self.shape),
        decreases d, 1nat,
    {
        let mut sv = match self.serialize_seq() {
            Ok(sv) => sv,
            Err(e) => return Err(e),
        };
        let shape = self.shape;
        let mut i: usize = 0;
        assert(views_of(sv.vec@) =~= Seq::<Tree>::empty());
        while i < items.len()
            invariant
                sv.wf(),
                sv.shape == shape,
                shape == self.shape,
                shape.permits_array(),
                i <= items.len(),
                d.well_formed(),
                *d == Datum::Sequence(*items),
                built_items(items@, shape, i as nat) == Ok::<Seq<Tree>, ValueError>(
                    views_of(sv.vec@),
                ),
            decreases items.len() - i,
        {
            assert(items@[i as int].well_formed());
            let ghost prev = sv.vec@;
            proof {
                assert(decreases_to!(*d => items@[i as int]));
            }
            match sv.serialize_element(&items[i]) {
                Ok(()) => {
                    proof {
                        assert(views_of(sv.vec@) =~= views_of(prev).push(sv.vec@.last()@));
                    }
                },
                Err(e) => {
                    proof {
                        lemma_items_settled(items@, shape, (i + 1) as nat, items@.len());
                    }
                    return Err(e);
                },
            }
            i = i + 1;
        }
        Ok(sv.end())
    }

    fn serialize_fields(&self, d: &Datum, name: &String, fields: &Vec<(String, Datum)>) -> (r:
        Result<ScalarOrArrayValue, ValueError>)
        requires
            d.well_formed(),
            *d == Datum::Struct(*name, *fields),
        ensures
            r matches Ok(v) ==> v@.wf(self.shape),
            result_view(r) == built(*d, self.shape),
    {
        proof {
            lemma_tokens_differ();
        }
        let mut m = self.serialize_struct(name.as_str());
        let ghost m0 = m;
        let mut i: usize = 0;
        while i < fields.len()
            invariant
                i <= fields.len(),
                d.well_formed(),
                *d == Datum::Struct(*name, *fields),
                m0 == self.serialize_struct_spec(name@),
                m0 is Object ==> i == 0,
                m0 is Number ==> m is Number && number_prefix(fields@, i as nat) == Ok::<
                    Option<Number>,
                    ValueError,
                >(m->Number_out_value) && (i > 0 ==> m->Number_out_value is Some) && (
                m->Number_out_value matches Some(n) ==> n.wf()),
                m0 is RawValue ==> m is RawValue && m->RawValue_shape == self.shape && raw_prefix(
                    fields@,
                    self.shape,
                    i as nat,
                ) == Ok::<Option<Tree>, ValueError>(option_view(m->RawValue_out_value)) && (i > 0
                    ==> m.holds_emitted()),
                i == 0 ==> m == m0,
            decreases fields.len() - i,
        {
            match m.serialize_field(fields[i].0.as_str(), &fields[i].1) {
                Ok(()) => {},
                Err(e) => {
                    proof {
                        if m0 is Number {
                            lemma_number_settled(fields@, (i + 1) as nat, fields@.len());
                        }
                        if m0 is RawValue {
                            lemma_raw_settled(fields@, self.shape, (i + 1) as nat, fields@.len());
                        }
                    }
                    return Err(e);
                },
            }
            i = i + 1;
        }
        m.end()
    }

    /// Converts a described value into a tree of the shape.
    pub fn serialize(&self, d: &Datum) -> (r: Result<ScalarOrArrayValue, ValueError>)
        requires
            d.well_formed(),
        ensures
            r matches Ok(v) ==> v@.wf(self.shape),
            result_view(r) == built(*d, self.shape),
        decreases d, 2nat,
    {
        match d {
            Datum::Bool(b) => self.serialize_bool(*b),
            Datum::I64(v) => self.serialize_i64(*v),
            Datum::U64(v) => self.serialize_u64(*v),
            Datum::I128(v) => self.serialize_i128(*v),
            Datum::U128(v) => self.serialize_u128(*v),
            Datum::F64(bits) => self.serialize_f64(*bits),
            Datum::F32(bits) => self.serialize_f32(*bits),
            Datum::Char(c) => self.serialize_char(*c),
            Datum::Str(s) => self.serialize_str(s.as_str()),
            Datum::Bytes(b) => self.serialize_bytes(b.as_slice()),
            Datum::Unit => self.serialize_unit(),
            Datum::Absent => self.serialize_none(),
            Datum::UnitStruct => self.serialize_unit_struct(),
            Datum::Present(x) => self.serialize(x),
            Datum::UnitVariant(name) => self.serialize_unit_variant(name.as_str()),
            Datum::NewtypeStruct(x) => self.serialize(x),
            Datum::NewtypeVariant(_, _) => self.serialize_newtype_variant(),
            Datum::TupleVariant(_, _) => match self.serialize_tuple_variant() {
                Ok(_) => Err(ValueError::InvalidType(Unexpected::Object)),
                Err(e) => Err(e),
            },
            Datum::StructVariant(_, _) => match self.serialize_struct_variant() {
                Ok(_) => Err(ValueError::InvalidType(Unexpected::Object)),
                Err(e) => Err(e),
            },
            Datum::Sequence(items) => self.serialize_items(d, items),
            Datum::Entries(es) => {
                let mut m = self.serialize_map();
                if es.len() > 0 {
                    match m.serialize_key(&es[0].0) {
                        Ok(()) => match m.serialize_value(&es[0].1) {
                            Ok(()) => Ok(ScalarOrArrayValue::Null),
                            Err(e) => Err(e),
                        },
                        Err(e) => Err(e),
                    }
                } else {
                    m.end()
                }
            },
            Datum::Struct(name, fields) => self.serialize_fields(d, name, fields),
        }
    }
}

/// The result is a value whose tree is `t`.
pub open spec fn ok_tree(r: Result<ScalarOrArrayValue, ValueError>, t: Tree) -> bool {
    r matches Ok(v) && v@ == t
}

/// A result of a conversion into a scalar value, seen through the view of the value.
pub open spec fn scalar_result_view(r: Result<ScalarValue, ValueError>) -> Result<Tree, ValueError> {
    match r {
        Ok(v) => Ok(v@),
        Err(e) => Err(e),
    }
}

/// Converts a described value into a value that may hold arrays.
pub fn to_scalar_or_array_value(d: &Datum) -> (r: Result<ScalarOrArrayValue, ValueError>)
    requires
        d.well_formed(),
    ensures
        r matches Ok(v) ==> v.wf(),
        result_view(r) == built(*d, Shape::ScalarOrArray),
{
    let ser = Serializer { shape: Shape::ScalarOrArray };
    ser.serialize(d)
}

/// Converts a described value into a scalar value.
pub fn to_scalar_value(d: &Datum) -> (r: Result<ScalarValue, ValueError>)
    requires
        d.well_formed(),
    ensures
        r matches Ok(v) ==> v.wf(),
        scalar_result_view(r) == built(*d, Shape::Scalar),
{
    let ser = Serializer { shape: Shape::Scalar };
    match ser.serialize(d) {
        Ok(v) => match ScalarValue::from_scalar_or_array(v) {
            Some(s) => Ok(s),
            None => Err(ValueError::InvalidType(Unexpected::Sequence)),
        },
        Err(e) => Err(e),
    }
}

/// How the elements convert depends only on the elements read.
pub proof fn lemma_items_prefix(a: Seq<Datum>, b: Seq<Datum>, shape: Shape, n: nat)
    requires
        n <= a.len(),
        n <= b.len(),
        a.subrange(0, n as int) == b.subrange(0, n as int),
    ensures
        built_items(a, shape, n) == built_items(b, shape, n),
    decreases n,
{
    if n > 0 {
        assert(a.subrange(0, n - 1) =~= a.subrange(0, n as int).subrange(0, n - 1));
        assert(b.subrange(0, n - 1) =~= b.subrange(0, n as int).subrange(0, n - 1));
        assert(a[n - 1] == a.subrange(0, n as int)[n - 1]);
        assert(b[n - 1] == b.subrange(0, n as int)[n - 1]);
        lemma_items_prefix(a, b, shape, (n - 1) as nat);
    }
}

impl ScalarOrArrayValue {
    /// Describes the value as the generic protocol would: null as unit, a number by its
    /// own kind at its full width, an array as a sequence of its elements.
    pub fn to_datum(&self) -> (d: Datum)
        ensures
            d.well_formed(),
            forall|shape: Shape| self@.wf(shape) ==> #[trigger] built(d, shape) == Ok::<Tree, ValueError>(
                self@,
            ),
            self@.wf(Shape::ScalarOrArray) && self@ is Array ==> d is Sequence && d->Sequence_0@.len()
                == self@->Array_0.len() && forall|i: int|
                0 <= i < self@->Array_0.len() ==> #[trigger] built(
                    d->Sequence_0@[i],
                    Shape::ScalarOrArray,
                ) == Ok::<Tree, ValueError>(self@->Array_0[i]),
        decreases self,
    {
        match self {
            ScalarOrArrayValue::Null => Datum::Unit,
            ScalarOrArrayValue::Bool(b) => Datum::Bool(*b),
            ScalarOrArrayValue::Number(Number::PosInt(u)) => Datum::U64(*u),
            ScalarOrArrayValue::Number(Number::NegInt(i)) => Datum::I64(*i),
            ScalarOrArrayValue::Number(Number::Float(b)) => Datum::F64(*b),
            ScalarOrArrayValue::String(s) => Datum::Str(s.clone()),
            ScalarOrArrayValue::Array(v) => {
                let ghost shape = Shape::ScalarOrArray;
                let mut ds: Vec<Datum> = Vec::new();
                let mut i: usize = 0;
                proof {
                    assert(self@->Array_0 =~= views_of(v@));
                    assert(views_of(v@).subrange(0, 0) =~= Seq::<Tree>::empty());
                }
                while i < v.len()
                    invariant
                        *self == ScalarOrArrayValue::Array(*v),
                        self@->Array_0 == views_of(v@),
                        i <= v.len(),
                        ds@.len() == i,
                        forall|j: int| 0 <= j < i ==> (#[trigger] ds@[j]).well_formed(),
                        self@.wf(shape) ==> forall|j: int|
                            0 <= j < i ==> #[trigger] built(ds@[j], shape) == Ok::<Tree, ValueError>(
                                v@[j]@,
                            ),
                        self@.wf(shape) ==> built_items(ds@, shape, i as nat) == Ok::<
                            Seq<Tree>,
                            ValueError,
                        >(views_of(v@).subrange(0, i as int)),
                    decreases v.len() - i,
                {
                    proof {
                        assert(decreases_to!(*self => v@[i as int]));
                    }
                    let x = v[i].to_datum();
                    let ghost before = ds@;
                    ds.push(x);
                    proof {
                        assert(before =~= ds@.subrange(0, i as int));
                        assert(before.subrange(0, i as int) =~= before);
                        lemma_items_prefix(before, ds@, shape, i as nat);
                        if self@.wf(shape) {
                            assert(self@->Array_0 =~= views_of(v@));
                            assert(self@->Array_0[i as int] == v@[i as int]@);
                            assert(v@[i as int]@.wf(shape));
                            assert(ds@[i as int] == x);
                            assert(built(x, shape) == Ok::<Tree, ValueError>(v@[i as int]@));
                            assert(built_items(ds@, shape, i as nat) == Ok::<Seq<Tree>, ValueError>(
                                views_of(v@).subrange(0, i as int),
                            ));
                            assert(views_of(v@).subrange(0, i + 1) =~= views_of(v@).subrange(
                                0,
                                i as int,
                            ).push(v@[i as int]@));
                        }
                    }
                    i = i + 1;
                }
                let d = Datum::Sequence(ds);
                proof {
                    assert(views_of(v@).subrange(0, v@.len() as int) =~= views_of(v@));
                    assert(self@->Array_0 =~= views_of(v@));
                    assert forall|sh: Shape| self@.wf(sh) implies #[trigger] built(d, sh) == Ok::<
                        Tree,
                        ValueError,
                    >(self@) by {
                        assert(sh == shape);
                    }
                }
                d
            },
        }
    }
}

impl ScalarValue {
    /// Describes the value as the generic protocol would.
    pub fn to_datum(&self) -> (d: Datum)
        ensures
            d.well_formed(),
            forall|shape: Shape| self@.wf(shape) ==> #[trigger] built(d, shape) == Ok::<Tree, ValueError>(
                self@,
            ),
    {
        match self {
            ScalarValue::Null => Datum::Unit,
            ScalarValue::Bool(b) => Datum::Bool(*b),
            ScalarValue::Number(Number::PosInt(u)) => Datum::U64(*u),
            ScalarValue::Number(Number::NegInt(i)) => Datum::I64(*i),
            ScalarValue::Number(Number::Float(b)) => Datum::F64(*b),
            ScalarValue::String(s) => Datum::Str(s.clone()),
        }
    }
}

fn elements_well_formed(d: &Datum, v: &Vec<Datum>) -> (r: bool)
    requires
        (*d is Sequence && d->Sequence_0 == *v) || (*d is TupleVariant && d->TupleVariant_1 == *v),
    ensures
        r == forall|j: int| 0 <= j < v@.len() ==> (#[trigger] v@[j]).well_formed(),
    decreases d, 0nat,
{
    let mut i: usize = 0;
    while i < v.len()
        invariant
            (*d is Sequence && d->Sequence_0 == *v) || (*d is TupleVariant && d->TupleVariant_1 == *v),
            i <= v.len(),
            forall|j: int| 0 <= j < i ==> (#[trigger] v@[j]).well_formed(),
        decreases v.len() - i,
    {
        proof {
            assert(decreases_to!(*d => v@[i as int]));
        }
        if !v[i].is_well_formed() {
            return false;
        }
        i = i + 1;
    }
    true
}

fn entries_well_formed(d: &Datum, v: &Vec<(Datum, Datum)>) -> (r: bool)
    requires
        *d is Entries && d->Entries_0 == *v,
    ensures
        r == forall|j: int|
            0 <= j < v@.len() ==> (#[trigger] v@[j]).0.well_formed() && v@[j].1.well_formed(),
    decreases d, 0nat,
{
    let mut i: usize = 0;
    while i < v.len()
        invariant
            *d is Entries && d->Entries_0 == *v,
            i <= v.len(),
            forall|j: int| 0 <= j < i ==> (#[trigger] v@[j]).0.well_formed() && v@[j].1.well_formed(),
        decreases v.len() - i,
    {
        proof {
            assert(decreases_to!(*d => v@[i as int].0));
            assert(decreases_to!(*d => v@[i as int].1));
        }
        if !v[i].0.is_well_formed() || !v[i].1.is_well_formed() {
            return false;
        }
        i = i + 1;
    }
    true
}

fn fields_well_formed(d: &Datum, v: &Vec<(String, Datum)>) -> (r: bool)
    requires
        (*d is Struct && d->Struct_1 == *v) || (*d is StructVariant && d->StructVariant_1 == *v),
    ensures
        r == forall|j: int| 0 <= j < v@.len() ==> (#[trigger] v@[j]).1.well_formed(),
    decreases d, 0nat,
{
    let mut i: usize = 0;
    while i < v.len()
        invariant
            (*d is Struct && d->Struct_1 == *v) || (*d is StructVariant && d->StructVariant_1
                == *v),
            i <= v.len(),
            forall|j: int| 0 <= j < i ==> (#[trigger] v@[j]).1.well_formed(),
        decreases v.len() - i,
    {
        proof {
            assert(decreases_to!(*d => v@[i as int].1));
        }
        if !v[i].1.is_well_formed() {
            return false;
        }
        i = i + 1;
    }
    true
}

impl Datum {
    /// Tests the rule that a struct under a reserved name carries a field, throughout.
    pub fn is_well_formed(&self) -> (r: bool)
        ensures
            r == self.well_formed(),
        decreases self, 1nat,
    {
        match self {
            Datum::Present(x) => x.is_well_formed(),
            Datum::NewtypeStruct(x) => x.is_well_formed(),
            Datum::NewtypeVariant(_, x) => x.is_well_formed(),
            Datum::Sequence(v) => elements_well_formed(self, v),
            Datum::TupleVariant(_, v) => elements_well_formed(self, v),
            Datum::Entries(v) => entries_well_formed(self, v),
            Datum::Struct(name, v) => {
                if v.len() == 0 && (is_number_token(name.as_str()) || is_raw_token(name.as_str())) {
                    false
                } else {
                    fields_well_formed(self, v)
                }
            },
            Datum::StructVariant(_, v) => fields_well_formed(self, v),
            _ => true,
        }
    }
}

} // verus!
