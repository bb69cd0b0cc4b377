use vstd::prelude::*;
use crate::error::{ValueError, Unexpected};
use crate::number::{Number, number_of_i64, number_of_f64_bits};
use crate::value::{ScalarOrArrayValue, Shape, Tree, result_view, views_of, lemma_array_wf};

verus! {

/// serde_json's parsed document, carried opaquely.
#[verifier::external_type_specification]
#[verifier::external_body]
pub struct ExJsonValue(serde_json::Value);

/// A parsed JSON document, node for node. A number is held as the parser read it: an
/// unsigned integer, a signed integer, or a float by its bit pattern.
#[derive(Debug, PartialEq, Eq)]
pub enum Json {
    Null,
    Bool(bool),
    Number(Number),
    Str(String),
    Array(Vec<Json>),
    /// An object node; its entries are not read, since no shape holds objects.
    Object,
}

/// The model of a parsed document.
pub enum JsonModel {
    Null,
    Bool(bool),
    Number(Number),
    Str(Seq<char>),
    Array(Seq<JsonModel>),
    Object,
}

impl Json {
    pub open spec fn model(&self) -> JsonModel
        decreases self,
    {
        match self {
            Json::Null => JsonModel::Null,
            Json::Bool(b) => JsonModel::Bool(*b),
            Json::Number(n) => JsonModel::Number(*n),
            Json::Str(s) => JsonModel::Str(s@),
            Json::Array(v) => JsonModel::Array(
                Seq::new(
                    v.len() as nat,
                    |i: int|
                        if 0 <= i < v.len() {
                            v[i].model()
                        } else {
                            JsonModel::Null
                        },
                ),
            ),
            Json::Object => JsonModel::Object,
        }
    }
}

/// What a JSON text parses to, when it is one well-formed document.
pub uninterp spec fn parsed_json(text: Seq<char>) -> Option<JsonModel>;

/// Relies on serde_json::from_str into `serde_json::Value`: parses one document, with only
/// whitespace around it, into a node tree that depends on the text alone; none when the
/// text is not well-formed JSON or nests deeper than the parser's limit.
#[verifier::external_body]
fn parse_json(text: &str) -> (r: Option<Json>)
    ensures
        r matches Some(j) ==> parsed_json(text@) == Some(j.model()),
        r is None ==> parsed_json(text@) is None,
{
    serde_json::from_str::<serde_json::Value>(text).ok().map(|v| json_of(&v))
}

/// Relies on the variants of `serde_json::Value` and the accessors of `serde_json::Number`:
/// converts a parsed node into a `Json` node of the same variant, a number by the variant
/// it holds (unsigned first, then signed, else its float), an object without its entries.
#[verifier::external_body]
fn json_of(v: &serde_json::Value) -> Json {
    match v {
        serde_json::Value::Null => Json::Null,
        serde_json::Value::Bool(b) => Json::Bool(*b),
        serde_json::Value::Number(n) => Json::Number(match (n.as_u64(), n.as_i64()) {
            (Some(u), _) => Number::PosInt(u),
            (None, Some(i)) => Number::NegInt(i),
            (None, None) => Number::Float(n.as_f64().unwrap_or_default().to_bits()),
        }),
        serde_json::Value::String(s) => Json::Str(s.clone()),
        serde_json::Value::Array(a) => Json::Array(a.iter().map(json_of).collect()),
        serde_json::Value::Object(_) => Json::Object,
    }
}

/// What a number node becomes: integers by their sign, a float when finite, null otherwise.
pub open spec fn tree_of_json_number(n: Number) -> Tree {
    match n {
        Number::PosInt(u) => Tree::Number(Number::PosInt(u)),
        Number::NegInt(i) => Tree::Number(number_of_i64(i)),
        Number::Float(b) => match number_of_f64_bits(b) {
            Some(x) => Tree::Number(x),
            None => Tree::Null,
        },
    }
}

/// The elements of an array node after the first `n` convert: the trees so far, or the
/// first error.
pub open spec fn json_items(items: Seq<JsonModel>, shape: Shape, n: nat) -> Result<
    Seq<Tree>,
    ValueError,
>
    decreases items, n,
{
    if n == 0 || n > items.len() {
        Ok(Seq::empty())
    } else {
        match json_items(items, shape, (n - 1) as nat) {
            Ok(ts) => match tree_of_json(items[n - 1], shape) {
                Ok(t) => Ok(ts.push(t)),
                Err(e) => Err(e),
            },
            Err(e) => Err(e),
        }
    }
}

/// What a parsed document becomes in a tree of the shape: an array fails in the scalar
/// shape, an object fails in both.
pub open spec fn tree_of_json(j: JsonModel, shape: Shape) -> Result<Tree, ValueError>
    decreases j, 0nat,
{
    match j {
        JsonModel::Null => Ok(Tree::Null),
        JsonModel::Bool(b) => Ok(Tree::Bool(b)),
        JsonModel::Number(n) => Ok(tree_of_json_number(n)),
        JsonModel::Str(s) => Ok(Tree::Str(s)),
        JsonModel::Array(items) => if !shape.permits_array() {
            Err(ValueError::InvalidType(Unexpected::Sequence))
        } else {
            match json_items(items, shape, items.len()) {
                Ok(ts) => Ok(Tree::Array(ts)),
                Err(e) => Err(e),
            }
        },
        JsonModel::Object => Err(ValueError::InvalidType(Unexpected::Object)),
    }
}

/// What a fragment of JSON text becomes in a tree of the shape.
pub open spec fn tree_of_json_text(text: Seq<char>, shape: Shape) -> Result<Tree, ValueError> {
    match parsed_json(text) {
        Some(j) => tree_of_json(j, shape),
        None => Err(ValueError::Syntax),
    }
}

proof fn lemma_json_items_settled(items: Seq<JsonModel>, shape: Shape, k: nat, n: nat)
    requires
        k <= n <= items.len(),
        json_items(items, shape, k) is Err,
    ensures
        json_items(items, shape, n) == json_items(items, shape, k),
    decreases n - k,
{
    if n > k {
        lemma_json_items_settled(items, shape, k, (n - 1) as nat);
    }
}

fn number_tree(n: Number) -> (r: ScalarOrArrayValue)
    ensures
        r@ == tree_of_json_number(n),
        r@.wf(Shape::Scalar),
{
    match n {
        Number::PosInt(u) => ScalarOrArrayValue::Number(Number::PosInt(u)),
        Number::NegInt(i) => ScalarOrArrayValue::Number(Number::from_i64(i)),
        Number::Float(b) => match Number::from_f64_bits(b) {
            Some(x) => ScalarOrArrayValue::Number(x),
            None => ScalarOrArrayValue::Null,
        },
    }
}

/// Turns a parsed document into a tree of the shape.
pub fn from_json(j: &Json, shape: Shape) -> (r: Result<ScalarOrArrayValue, ValueError>)
    ensures
        result_view(r) == tree_of_json(j.model(), shape),
        r matches Ok(t) ==> t@.wf(shape),
    decreases j,
{
    match j {
        Json::Null => Ok(ScalarOrArrayValue::Null),
        Json::Bool(b) => Ok(ScalarOrArrayValue::Bool(*b)),
        Json::Number(n) => {
            let t = number_tree(*n);
            proof {
                if t@ is Number {
                    assert(t@.wf(shape));
                }
            }
            Ok(t)
        },
        Json::Str(s) => Ok(ScalarOrArrayValue::String(s.clone())),
        Json::Object => Err(ValueError::InvalidType(Unexpected::Object)),
        Json::Array(items) => {
            if shape == Shape::Scalar {
                return Err(ValueError::InvalidType(Unexpected::Sequence));
            }
            let ghost ms = j.model()->Array_0;
            proof {
                assert(ms.len() == items.len());
            }
            let mut out: Vec<ScalarOrArrayValue> = Vec::new();
            let mut i: usize = 0;
            assert(views_of(out@) =~= Seq::<Tree>::empty());
            while i < items.len()
                invariant
                    shape == Shape::ScalarOrArray,
                    *j == Json::Array(*items),
                    ms == j.model()->Array_0,
                    ms.len() == items.len(),
                    i <= items.len(),
                    json_items(ms, shape, i as nat) == Ok::<Seq<Tree>, ValueError>(
                        views_of(out@),
                    ),
                    forall|k: int| 0 <= k < out@.len() ==> (#[trigger] out@[k])@.wf(shape),
                decreases items.len() - i,
            {
                proof {
                    assert(decreases_to!(*j => items@[i as int]));
                    assert(ms[i as int] == items@[i as int].model());
                }
                match from_json(&items[i], shape) {
                    Ok(t) => {
                        let ghost prev = out@;
                        out.push(t);
                        proof {
                            assert(views_of(out@) =~= views_of(prev).push(t@));
                        }
                    },
                    Err(e) => {
                        proof {
                            lemma_json_items_settled(ms, shape, (i + 1) as nat, ms.len());
                        }
                        return Err(e);
                    },
                }
                i = i + 1;
            }
            let ghost ts = views_of(out@);
            proof {
                assert forall|k: int| 0 <= k < ts.len() implies (#[trigger] ts[k]).wf(shape) by {
                    assert(ts[k] == out@[k]@);
                }
                lemma_array_wf(ts, shape);
            }
            Ok(ScalarOrArrayValue::array(out))
        },
    }
}

/// Reads a fragment of encoded JSON text as a tree of the shape.
pub fn value_from_json_text(text: &str, shape: Shape) -> (r: Result<ScalarOrArrayValue, ValueError>)
    ensures
        result_view(r) == tree_of_json_text(text@, shape),
        r matches Ok(t) ==> t@.wf(shape),
{
    match parse_json(text) {
        Some(j) => from_json(&j, shape),
        None => Err(ValueError::Syntax),
    }
}

} // verus!
