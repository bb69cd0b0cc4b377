use vstd::prelude::*;
use crate::number::Number;

verus! {

/// Which nodes a value tree may hold: scalars only, or scalars and arrays.
/// Neither shape holds objects.
#[derive(Clone, Copy, Debug, PartialEq, Eq, Structural)]
pub enum Shape {
    Scalar,
    ScalarOrArray,
}

impl Shape {
    pub open spec fn permits_array(self) -> bool {
        self == Shape::ScalarOrArray
    }
}

/// The mathematical model of a value tree.
pub enum Tree {
    Null,
    Bool(bool),
    Number(Number),
    Str(Seq<char>),
    Array(Seq<Tree>),
}

impl Tree {
    /// Every number is finite, and arrays appear only where the shape permits them.
    pub open spec fn wf(self, shape: Shape) -> bool
        decreases self,
    {
        match self {
            Tree::Number(n) => n.wf(),
            Tree::Array(items) => shape.permits_array() && forall|i: int|
                0 <= i < items.len() ==> (#[trigger] items[i]).wf(shape),
            _ => true,
        }
    }
}

/// An array is well formed when the shape permits arrays and each element is well formed.
pub proof fn lemma_array_wf(items: Seq<Tree>, shape: Shape)
    requires
        shape.permits_array(),
        forall|i: int| 0 <= i < items.len() ==> (#[trigger] items[i]).wf(shape),
    ensures
        Tree::Array(items).wf(shape),
{
    reveal_with_fuel(Tree::wf, 2);
    assert(Tree::Array(items).wf(shape));
}

/// A value of the shape that holds no arrays and no objects.
#[derive(Clone, Debug, PartialEq, Eq, Hash)]
pub enum ScalarValue {
    Null,
    Bool(bool),
    Number(Number),
    String(String),
}

/// A value of the shape that holds arrays but no objects.
#[derive(Debug, PartialEq, Eq, Hash)]
pub enum ScalarOrArrayValue {
    Null,
    Bool(bool),
    Number(Number),
    String(String),
    Array(Vec<ScalarOrArrayValue>),
}

impl View for ScalarValue {
    type V = Tree;

    open spec fn view(&self) -> Tree {
        match self {
            ScalarValue::Null => Tree::Null,
            ScalarValue::Bool(b) => Tree::Bool(*b),
            ScalarValue::Number(n) => Tree::Number(*n),
            ScalarValue::String(s) => Tree::Str(s@),
        }
    }
}

impl ScalarOrArrayValue {
    /// The tree that the value stands for.
    pub open spec fn tree(&self) -> Tree
        decreases self,
    {
        match self {
            ScalarOrArrayValue::Null => Tree::Null,
            ScalarOrArrayValue::Bool(b) => Tree::Bool(*b),
            ScalarOrArrayValue::Number(n) => Tree::Number(*n),
            ScalarOrArrayValue::String(s) => Tree::Str(s@),
            ScalarOrArrayValue::Array(v) => Tree::Array(
                Seq::new(
                    v.len() as nat,
                    |i: int|
                        if 0 <= i < v.len() {
                            v[i].tree()
                        } else {
                            Tree::Null
                        },
                ),
            ),
        }
    }
}

impl View for ScalarOrArrayValue {
    type V = Tree;

    open spec fn view(&self) -> Tree {
        self.tree()
    }
}

/// The trees of a sequence of values, in order.
pub open spec fn views_of(v: Seq<ScalarOrArrayValue>) -> Seq<Tree> {
    v.map_values(|x: ScalarOrArrayValue| x@)
}

impl ScalarOrArrayValue {
    /// An array node holding the given elements, in order.
    pub fn array(v: Vec<ScalarOrArrayValue>) -> (r: ScalarOrArrayValue)
        ensures
            r@ == Tree::Array(views_of(v@)),
    {
        let r = ScalarOrArrayValue::Array(v);
        proof {
            assert(r@->Array_0 =~= views_of(v@));
        }
        r
    }
}

/// A result of a conversion into a tree, seen through the view of the tree.
pub open spec fn result_view(r: Result<ScalarOrArrayValue, crate::error::ValueError>) -> Result<
    Tree,
    crate::error::ValueError,
> {
    match r {
        Ok(v) => Ok(v@),
        Err(e) => Err(e),
    }
}

impl ScalarValue {
    pub open spec fn wf(&self) -> bool {
        self@.wf(Shape::Scalar)
    }

    /// The same value, in the shape that also permits arrays.
    pub fn into_scalar_or_array(self) -> (r: ScalarOrArrayValue)
        ensures
            r@ == self@,
    {
        match self {
            ScalarValue::Null => ScalarOrArrayValue::Null,
            ScalarValue::Bool(b) => ScalarOrArrayValue::Bool(b),
            ScalarValue::Number(n) => ScalarOrArrayValue::Number(n),
            ScalarValue::String(s) => ScalarOrArrayValue::String(s),
        }
    }

    /// The value as a scalar, when it is not an array.
    pub fn from_scalar_or_array(v: ScalarOrArrayValue) -> (r: Option<ScalarValue>)
        ensures
            r matches Some(s) ==> s@ == v@,
            r is None <==> v@ is Array,
    {
        match v {
            ScalarOrArrayValue::Null => Some(ScalarValue::Null),
            ScalarOrArrayValue::Bool(b) => Some(ScalarValue::Bool(b)),
            ScalarOrArrayValue::Number(n) => Some(ScalarValue::Number(n)),
            ScalarOrArrayValue::String(s) => Some(ScalarValue::String(s)),
            ScalarOrArrayValue::Array(_) => None,
        }
    }
}

impl ScalarOrArrayValue {
    pub open spec fn wf(&self) -> bool {
        self@.wf(Shape::ScalarOrArray)
    }
}

/// The value is a number equal to the integer `other`.
pub fn eq_i64(value: &ScalarOrArrayValue, other: i64) -> (r: bool)
    ensures
        r == (value@ matches Tree::Number(n) && n.int_value() == Some(other as int)),
{
    match value {
        ScalarOrArrayValue::Number(n) => match n.as_i64() {
            Some(i) => i == other,
            None => false,
        },
        _ => false,
    }
}

/// The value is a number equal to the unsigned integer `other`.
pub fn eq_u64(value: &ScalarOrArrayValue, other: u64) -> (r: bool)
    ensures
        r == (value@ matches Tree::Number(n) && n == Number::PosInt(other)),
{
    match value {
        ScalarOrArrayValue::Number(n) => match n.as_u64() {
            Some(u) => u == other,
            None => false,
        },
        _ => false,
    }
}

/// The value is the boolean `other`.
pub fn eq_bool(value: &ScalarOrArrayValue, other: bool) -> (r: bool)
    ensures
        r == (value@ == Tree::Bool(other)),
{
    match value {
        ScalarOrArrayValue::Bool(b) => *b == other,
        _ => false,
    }
}

/// The value is a string with the characters of `other`.
pub fn eq_str(value: &ScalarOrArrayValue, other: &str) -> (r: bool)
    ensures
        r == (value@ == Tree::Str(other@)),
{
    match value {
        ScalarOrArrayValue::String(s) => {
            let o = other.to_owned();
            *s == o
        },
        _ => false,
    }
}

} // verus!
