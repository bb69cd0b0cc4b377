use vstd::prelude::*;
use crate::datum::{number_token, raw_token};
use crate::error::{ValueError, Unexpected, invalid_number};
use crate::json::{tree_of_json_text, value_from_json_text};
use crate::key::{KeyClass, classify_key, is_raw_token};
use crate::number::{Number, number_of_i64, number_of_f64_bits, parsed_numeral};
use crate::value::{ScalarOrArrayValue, ScalarValue, Shape, Tree, result_view, views_of};

verus! {

/// What a consumer asks of the value-backed deserializer.
#[derive(Clone, Debug, PartialEq, Eq)]
pub enum Request {
    /// Whatever the value holds.
    Any,
    /// A number of any width.
    Number,
    Bool,
    /// A string, a character, an identifier or bytes.
    Str,
    /// A unit or unit struct.
    Unit,
    /// An option.
    Optional,
    /// An enum; only a unit variant, named by a string, can be found.
    Enum,
    /// A newtype struct, by its name.
    NewtypeStruct(String),
    /// A sequence, tuple or tuple struct.
    Sequence,
    /// A map or struct.
    MapOrStruct,
    /// Nothing: the value is discarded.
    IgnoredAny,
}

/// What the deserializer hands the consumer's visitor.
#[derive(Debug, PartialEq, Eq)]
pub enum Visit {
    Unit,
    Bool(bool),
    U64(u64),
    I64(i64),
    /// A float, by its binary64 bit pattern.
    F64(u64),
    Str(String),
    /// The option is empty.
    Nothing,
    /// The option holds the value itself, which the visitor deserializes again.
    Something(ScalarOrArrayValue),
    /// A unit variant, by its name.
    UnitVariant(String),
    /// The newtype struct wraps the value itself.
    NewtypeStruct(ScalarOrArrayValue),
    /// The raw-value consumer receives the value, to be rendered back to JSON text.
    RawText(ScalarOrArrayValue),
    /// The elements of an array, in order.
    Sequence(Vec<ScalarOrArrayValue>),
}

/// The model of what a visitor is handed.
pub enum VisitModel {
    Unit,
    Bool(bool),
    U64(u64),
    I64(i64),
    F64(u64),
    Str(Seq<char>),
    Nothing,
    Something(Tree),
    UnitVariant(Seq<char>),
    NewtypeStruct(Tree),
    RawText(Tree),
    Sequence(Seq<Tree>),
}

impl View for Visit {
    type V = VisitModel;

    open spec fn view(&self) -> VisitModel {
        match self {
            Visit::Unit => VisitModel::Unit,
            Visit::Bool(b) => VisitModel::Bool(*b),
            Visit::U64(u) => VisitModel::U64(*u),
            Visit::I64(i) => VisitModel::I64(*i),
            Visit::F64(b) => VisitModel::F64(*b),
            Visit::Str(s) => VisitModel::Str(s@),
            Visit::Nothing => VisitModel::Nothing,
            Visit::Something(v) => VisitModel::Something(v@),
            Visit::UnitVariant(s) => VisitModel::UnitVariant(s@),
            Visit::NewtypeStruct(v) => VisitModel::NewtypeStruct(v@),
            Visit::RawText(v) => VisitModel::RawText(v@),
            Visit::Sequence(v) => VisitModel::Sequence(views_of(v@)),
        }
    }
}

/// The model of a request.
pub enum RequestModel {
    Any,
    Number,
    Bool,
    Str,
    Unit,
    Optional,
    Enum,
    NewtypeStruct(Seq<char>),
    Sequence,
    MapOrStruct,
    IgnoredAny,
}

impl View for Request {
    type V = RequestModel;

    open spec fn view(&self) -> RequestModel {
        match self {
            Request::Any => RequestModel::Any,
            Request::Number => RequestModel::Number,
            Request::Bool => RequestModel::Bool,
            Request::Str => RequestModel::Str,
            Request::Unit => RequestModel::Unit,
            Request::Optional => RequestModel::Optional,
            Request::Enum => RequestModel::Enum,
            Request::NewtypeStruct(name) => RequestModel::NewtypeStruct(name@),
            Request::Sequence => RequestModel::Sequence,
            Request::MapOrStruct => RequestModel::MapOrStruct,
            Request::IgnoredAny => RequestModel::IgnoredAny,
        }
    }
}

/// How a value describes itself in a type mismatch.
pub open spec fn unexpected_of(t: Tree) -> Unexpected {
    match t {
        Tree::Null => Unexpected::Unit,
        Tree::Bool(b) => Unexpected::Bool(b),
        Tree::Number(Number::PosInt(u)) => Unexpected::Unsigned(u),
        Tree::Number(Number::NegInt(i)) => Unexpected::Signed(i),
        Tree::Number(Number::Float(b)) => Unexpected::Float(b),
        Tree::Str(_) => Unexpected::Str,
        Tree::Array(_) => Unexpected::Sequence,
    }
}

/// A number dispatches on its own kind, so integers and floats stay apart.
pub open spec fn number_visit(n: Number) -> VisitModel {
    match n {
        Number::PosInt(u) => VisitModel::U64(u),
        Number::NegInt(i) => VisitModel::I64(i),
        Number::Float(b) => VisitModel::F64(b),
    }
}

/// What the deserializer hands the visitor for a value and a request.
pub open spec fn dispatched(t: Tree, req: RequestModel) -> Result<VisitModel, ValueError> {
    let mismatch = Err(ValueError::InvalidType(unexpected_of(t)));
    match req {
        RequestModel::Any => Ok(
            match t {
                Tree::Null => VisitModel::Unit,
                Tree::Bool(b) => VisitModel::Bool(b),
                Tree::Number(n) => number_visit(n),
                Tree::Str(s) => VisitModel::Str(s),
                Tree::Array(items) => VisitModel::Sequence(items),
            },
        ),
        RequestModel::Number => match t {
            Tree::Number(n) => Ok(number_visit(n)),
            _ => mismatch,
        },
        RequestModel::Bool => match t {
            Tree::Bool(b) => Ok(VisitModel::Bool(b)),
            _ => mismatch,
        },
        RequestModel::Str => match t {
            Tree::Str(s) => Ok(VisitModel::Str(s)),
            _ => mismatch,
        },
        RequestModel::Unit => match t {
            Tree::Null => Ok(VisitModel::Unit),
            _ => mismatch,
        },
        RequestModel::Optional => match t {
            Tree::Null => Ok(VisitModel::Nothing),
            _ => Ok(VisitModel::Something(t)),
        },
        RequestModel::Enum => match t {
            Tree::Str(s) => Ok(VisitModel::UnitVariant(s)),
            _ => mismatch,
        },
        RequestModel::NewtypeStruct(name) => if name == raw_token() {
            Ok(VisitModel::RawText(t))
        } else {
            Ok(VisitModel::NewtypeStruct(t))
        },
        RequestModel::Sequence => match t {
            Tree::Array(items) => Ok(VisitModel::Sequence(items)),
            _ => mismatch,
        },
        RequestModel::MapOrStruct => mismatch,
        RequestModel::IgnoredAny => Ok(VisitModel::Unit),
    }
}

pub open spec fn visit_result_view(r: Result<Visit, ValueError>) -> Result<VisitModel, ValueError> {
    match r {
        Ok(v) => Ok(v@),
        Err(e) => Err(e),
    }
}

fn unexpected(v: &ScalarOrArrayValue) -> (r: Unexpected)
    ensures
        r == unexpected_of(v@),
{
    match v {
        ScalarOrArrayValue::Null => Unexpected::Unit,
        ScalarOrArrayValue::Bool(b) => Unexpected::Bool(*b),
        ScalarOrArrayValue::Number(Number::PosInt(u)) => Unexpected::Unsigned(*u),
        ScalarOrArrayValue::Number(Number::NegInt(i)) => Unexpected::Signed(*i),
        ScalarOrArrayValue::Number(Number::Float(b)) => Unexpected::Float(*b),
        ScalarOrArrayValue::String(_) => Unexpected::Str,
        ScalarOrArrayValue::Array(_) => Unexpected::Sequence,
    }
}

fn visit_number(n: Number) -> (r: Visit)
    ensures
        r@ == number_visit(n),
{
    match n {
        Number::PosInt(u) => Visit::U64(u),
        Number::NegInt(i) => Visit::I64(i),
        Number::Float(b) => Visit::F64(b),
    }
}

impl ScalarOrArrayValue {
    /// The value-backed deserializer: supplies the consumer with what the value holds, or
    /// fails with a type mismatch.
    pub fn deserialize(self, req: &Request) -> (r: Result<Visit, ValueError>)
        ensures
            visit_result_view(r) == dispatched(self@, req@),
    {
        let mismatch = ValueError::InvalidType(unexpected(&self));
        match req {
            Request::Any => match self {
                ScalarOrArrayValue::Null => Ok(Visit::Unit),
                ScalarOrArrayValue::Bool(b) => Ok(Visit::Bool(b)),
                ScalarOrArrayValue::Number(n) => Ok(visit_number(n)),
                ScalarOrArrayValue::String(s) => Ok(Visit::Str(s)),
                ScalarOrArrayValue::Array(v) => {
                    let ghost g = ScalarOrArrayValue::Array(v);
                    proof {
                        assert(g@->Array_0 =~= views_of(v@));
                    }
                    Ok(Visit::Sequence(v))
                },
            },
            Request::Number => match self {
                ScalarOrArrayValue::Number(n) => Ok(visit_number(n)),
                _ => Err(mismatch),
            },
            Request::Bool => match self {
                ScalarOrArrayValue::Bool(b) => Ok(Visit::Bool(b)),
                _ => Err(mismatch),
            },
            Request::Str => match self {
                ScalarOrArrayValue::String(s) => Ok(Visit::Str(s)),
                _ => Err(mismatch),
            },
            Request::Unit => match self {
                ScalarOrArrayValue::Null => Ok(Visit::Unit),
                _ => Err(mismatch),
            },
            Request::Optional => match self {
                ScalarOrArrayValue::Null => Ok(Visit::Nothing),
                other => Ok(Visit::Something(other)),
            },
            Request::Enum => match self {
                ScalarOrArrayValue::String(s) => Ok(Visit::UnitVariant(s)),
                _ => Err(mismatch),
            },
            Request::NewtypeStruct(name) => {
                if is_raw_token(name.as_str()) {
                    Ok(Visit::RawText(self))
                } else {
                    Ok(Visit::NewtypeStruct(self))
                }
            },
            Request::Sequence => match self {
                ScalarOrArrayValue::Array(v) => {
                    let ghost g = ScalarOrArrayValue::Array(v);
                    proof {
                        assert(g@->Array_0 =~= views_of(v@));
                    }
                    Ok(Visit::Sequence(v))
                },
                _ => Err(mismatch),
            },
            Request::MapOrStruct => Err(mismatch),
            Request::IgnoredAny => Ok(Visit::Unit),
        }
    }
}

/// What the deserializer hands the consumer's visitor when it reads a value in place.
#[derive(Debug, PartialEq, Eq)]
pub enum VisitRef<'a> {
    Unit,
    Bool(bool),
    U64(u64),
    I64(i64),
    /// A float, by its binary64 bit pattern.
    F64(u64),
    /// A string borrowed from the value.
    Str(&'a str),
    Nothing,
    Something(&'a ScalarOrArrayValue),
    UnitVariant(&'a str),
    NewtypeStruct(&'a ScalarOrArrayValue),
    RawText(&'a ScalarOrArrayValue),
    Sequence(&'a Vec<ScalarOrArrayValue>),
}

impl<'a> View for VisitRef<'a> {
    type V = VisitModel;

    open spec fn view(&self) -> VisitModel {
        match self {
            VisitRef::Unit => VisitModel::Unit,
            VisitRef::Bool(b) => VisitModel::Bool(*b),
            VisitRef::U64(u) => VisitModel::U64(*u),
            VisitRef::I64(i) => VisitModel::I64(*i),
            VisitRef::F64(b) => VisitModel::F64(*b),
            VisitRef::Str(s) => VisitModel::Str(s@),
            VisitRef::Nothing => VisitModel::Nothing,
            VisitRef::Something(v) => VisitModel::Something(v@),
            VisitRef::UnitVariant(s) => VisitModel::UnitVariant(s@),
            VisitRef::NewtypeStruct(v) => VisitModel::NewtypeStruct(v@),
            VisitRef::RawText(v) => VisitModel::RawText(v@),
            VisitRef::Sequence(v) => VisitModel::Sequence(views_of(v@)),
        }
    }
}

pub open spec fn visit_ref_result_view(r: Result<VisitRef, ValueError>) -> Result<
    VisitModel,
    ValueError,
> {
    match r {
        Ok(v) => Ok(v@),
        Err(e) => Err(e),
    }
}

fn visit_number_ref<'a>(n: Number) -> (r: VisitRef<'a>)
    ensures
        r@ == number_visit(n),
{
    match n {
        Number::PosInt(u) => VisitRef::U64(u),
        Number::NegInt(i) => VisitRef::I64(i),
        Number::Float(b) => VisitRef::F64(b),
    }
}

impl ScalarOrArrayValue {
    /// The value-backed deserializer over a borrowed value: the same dispatch, handing
    /// out strings and elements in place.
    pub fn deserialize_ref<'a>(&'a self, req: &Request) -> (r: Result<VisitRef<'a>, ValueError>)
        ensures
            visit_ref_result_view(r) == dispatched(self@, req@),
    {
        let mismatch = ValueError::InvalidType(unexpected(self));
        match req {
            Request::Any => match self {
                ScalarOrArrayValue::Null => Ok(VisitRef::Unit),
                ScalarOrArrayValue::Bool(b) => Ok(VisitRef::Bool(*b)),
                ScalarOrArrayValue::Number(n) => Ok(visit_number_ref(*n)),
                ScalarOrArrayValue::String(s) => Ok(VisitRef::Str(s.as_str())),
                ScalarOrArrayValue::Array(v) => {
                    proof {
                        assert(self@->Array_0 =~= views_of(v@));
                    }
                    Ok(VisitRef::Sequence(v))
                },
            },
            Request::Number => match self {
                ScalarOrArrayValue::Number(n) => Ok(visit_number_ref(*n)),
                _ => Err(mismatch),
            },
            Request::Bool => match self {
                ScalarOrArrayValue::Bool(b) => Ok(VisitRef::Bool(*b)),
                _ => Err(mismatch),
            },
            Request::Str => match self {
                ScalarOrArrayValue::String(s) => Ok(VisitRef::Str(s.as_str())),
                _ => Err(mismatch),
            },
            Request::Unit => match self {
                ScalarOrArrayValue::Null => Ok(VisitRef::Unit),
                _ => Err(mismatch),
            },
            Request::Optional => match self {
                ScalarOrArrayValue::Null => Ok(VisitRef::Nothing),
                _ => Ok(VisitRef::Something(self)),
            },
            Request::Enum => match self {
                ScalarOrArrayValue::String(s) => Ok(VisitRef::UnitVariant(s.as_str())),
                _ => Err(mismatch),
            },
            Request::NewtypeStruct(name) => {
                if is_raw_token(name.as_str()) {
                    Ok(VisitRef::RawText(self))
                } else {
                    Ok(VisitRef::NewtypeStruct(self))
                }
            },
            Request::Sequence => match self {
                ScalarOrArrayValue::Array(v) => {
                    proof {
                        assert(self@->Array_0 =~= views_of(v@));
                    }
                    Ok(VisitRef::Sequence(v))
                },
                _ => Err(mismatch),
            },
            Request::MapOrStruct => Err(mismatch),
            Request::IgnoredAny => Ok(VisitRef::Unit),
        }
    }
}

impl ScalarValue {
    /// The value-backed deserializer of the scalar shape.
    pub fn deserialize(self, req: &Request) -> (r: Result<Visit, ValueError>)
        ensures
            visit_result_view(r) == dispatched(self@, req@),
    {
        self.into_scalar_or_array().deserialize(req)
    }
}

/// What the value visitor builds from what it is handed. The visits that hand over the
/// value itself (an option's content, a newtype) are deserialized again by the caller.
pub open spec fn visited(v: VisitModel, shape: Shape) -> Result<Tree, ValueError> {
    match v {
        VisitModel::Unit => Ok(Tree::Null),
        VisitModel::Nothing => Ok(Tree::Null),
        VisitModel::Bool(b) => Ok(Tree::Bool(b)),
        VisitModel::U64(u) => Ok(Tree::Number(Number::PosInt(u))),
        VisitModel::I64(i) => Ok(Tree::Number(number_of_i64(i))),
        VisitModel::F64(b) => Ok(
            match number_of_f64_bits(b) {
                Some(n) => Tree::Number(n),
                None => Tree::Null,
            },
        ),
        VisitModel::Str(s) => Ok(Tree::Str(s)),
        VisitModel::Sequence(items) => if shape.permits_array() {
            Ok(Tree::Array(items))
        } else {
            Err(ValueError::InvalidType(Unexpected::Sequence))
        },
        _ => Err(ValueError::InvalidType(Unexpected::UnitVariant)),
    }
}

/// The visits that hand over the value itself rather than its content.
pub open spec fn hands_over_value(v: VisitModel) -> bool {
    v is Something || v is NewtypeStruct || v is RawText
}

/// The value visitor: builds a value of the shape from what a deserializer hands it.
pub fn from_visit(visit: Visit, shape: Shape) -> (r: Result<ScalarOrArrayValue, ValueError>)
    requires
        !hands_over_value(visit@),
        visit@ matches VisitModel::Sequence(items) ==> forall|i: int|
            0 <= i < items.len() ==> #[trigger] items[i].wf(shape),
    ensures
        result_view(r) == visited(visit@, shape),
        r matches Ok(v) ==> v@.wf(shape),
{
    match visit {
        Visit::Unit => Ok(ScalarOrArrayValue::Null),
        Visit::Nothing => Ok(ScalarOrArrayValue::Null),
        Visit::Bool(b) => Ok(ScalarOrArrayValue::Bool(b)),
        Visit::U64(u) => Ok(ScalarOrArrayValue::Number(Number::from_u64(u))),
        Visit::I64(i) => Ok(ScalarOrArrayValue::Number(Number::from_i64(i))),
        Visit::F64(b) => match Number::from_f64_bits(b) {
            Some(n) => Ok(ScalarOrArrayValue::Number(n)),
            None => Ok(ScalarOrArrayValue::Null),
        },
        Visit::Str(s) => Ok(ScalarOrArrayValue::String(s)),
        Visit::Sequence(items) => {
            if shape == Shape::ScalarOrArray {
                let ghost ts = views_of(items@);
                let r = ScalarOrArrayValue::array(items);
                proof {
                    crate::value::lemma_array_wf(ts, shape);
                }
                Ok(r)
            } else {
                Err(ValueError::InvalidType(Unexpected::Sequence))
            }
        },
        _ => Err(ValueError::InvalidType(Unexpected::UnitVariant)),
    }
}

/// A map whose first key is ordinary: neither shape holds objects.
pub fn object_refused() -> (e: ValueError)
    ensures
        e == ValueError::InvalidType(Unexpected::Object),
{
    ValueError::InvalidType(Unexpected::Object)
}

/// What a map whose first key is reserved gives, from the string that follows that key.
pub open spec fn escaped(class: KeyClass, text: Seq<char>, shape: Shape) -> Result<Tree, ValueError> {
    match class {
        KeyClass::ReservedNumber => match parsed_numeral(text) {
            Some(n) => Ok(Tree::Number(n)),
            None => Err(ValueError::InvalidNumber),
        },
        KeyClass::ReservedRawValue => tree_of_json_text(text, shape),
        KeyClass::Ordinary(_) => Err(ValueError::InvalidType(Unexpected::Object)),
    }
}

/// The value visitor on a map, by its first key: an empty map or an ordinary first key is
/// refused, since neither shape holds objects; a reserved key is handed back, for the
/// string that follows it to be read.
pub fn classify_first_key(first: Option<String>) -> (r: Result<KeyClass, ValueError>)
    ensures
        first is None ==> r == Err::<KeyClass, ValueError>(ValueError::InvalidType(Unexpected::Object)),
        first matches Some(k) ==> (if k@ == number_token() {
            r == Ok::<KeyClass, ValueError>(KeyClass::ReservedNumber)
        } else if k@ == raw_token() {
            r == Ok::<KeyClass, ValueError>(KeyClass::ReservedRawValue)
        } else {
            r == Err::<KeyClass, ValueError>(ValueError::InvalidType(Unexpected::Object))
        }),
{
    match first {
        None => Err(object_refused()),
        Some(k) => match classify_key(k) {
            KeyClass::Ordinary(_) => Err(object_refused()),
            reserved => Ok(reserved),
        },
    }
}

/// The value visitor on a map: the number escape reads a numeral, the raw-value escape
/// reads a fragment of JSON text, and an ordinary map is refused.
pub fn from_escape(class: KeyClass, text: &str, shape: Shape) -> (r: Result<
    ScalarOrArrayValue,
    ValueError,
>)
    ensures
        result_view(r) == escaped(class, text@, shape),
        r matches Ok(v) ==> v@.wf(shape),
{
    match class {
        KeyClass::ReservedNumber => match Number::from_numeral(text) {
            Some(n) => Ok(ScalarOrArrayValue::Number(n)),
            None => Err(invalid_number()),
        },
        KeyClass::ReservedRawValue => value_from_json_text(text, shape),
        KeyClass::Ordinary(_) => Err(object_refused()),
    }
}

} // verus!
