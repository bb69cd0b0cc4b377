use vstd::prelude::*;
use crate::datum::{Datum, is_reserved_name};
use crate::de::{RequestModel, VisitModel, dispatched, hands_over_value, visited};
use crate::error::{ValueError, Unexpected};
use crate::key::{KeyModel, key_error, key_of};
use crate::number::{Number, is_finite_bits, is_finite_f32_bits};
use crate::ser::{built, built_items};
use crate::value::{Shape, Tree};

verus! {

/// The integer or float that a visit carries, compared with the primitive it came from.
pub open spec fn recovers(d: Datum, vis: VisitModel) -> bool {
    match d {
        Datum::Bool(b) => vis == VisitModel::Bool(b),
        Datum::I64(v) => vis == VisitModel::I64(v) || (v >= 0 && vis == VisitModel::U64(v as u64)),
        Datum::U64(v) => vis == VisitModel::U64(v),
        Datum::F64(bits) => vis == VisitModel::F64(bits),
        Datum::Str(s) => vis == VisitModel::Str(s@),
        _ => false,
    }
}

pub open spec fn is_round_trip_primitive(d: Datum) -> bool {
    match d {
        Datum::Bool(_) | Datum::I64(_) | Datum::U64(_) | Datum::Str(_) => true,
        Datum::F64(bits) => is_finite_bits(bits),
        _ => false,
    }
}

/// A boolean, a 64-bit integer, a finite float or a string, converted into a value of
/// either shape and handed back by the deserializer as whatever it holds, comes back
/// equal to itself; the value visitor then rebuilds the same tree.
pub proof fn lemma_primitive_round_trip(d: Datum, shape: Shape)
    requires
        is_round_trip_primitive(d),
    ensures
        built(d, shape) matches Ok(t) && dispatched(t, RequestModel::Any) matches Ok(vis)
            && recovers(d, vis) && visited(vis, shape) == Ok::<Tree, ValueError>(t),
{
}

/// A NaN or infinite float becomes null, never a number.
pub proof fn lemma_non_finite_float_is_null(bits: u64, shape: Shape)
    requires
        !is_finite_bits(bits),
    ensures
        built(Datum::F64(bits), shape) == Ok::<Tree, ValueError>(Tree::Null),
{
}

/// Converting a sequence whose elements convert keeps their order.
pub proof fn lemma_sequence_in_order(v: Vec<Datum>, ts: Seq<Tree>)
    requires
        v@.len() == ts.len(),
        forall|i: int|
            0 <= i < ts.len() ==> #[trigger] built(v@[i], Shape::ScalarOrArray) == Ok::<Tree, ValueError>(ts[i]),
    ensures
        built(Datum::Sequence(v), Shape::ScalarOrArray) == Ok::<Tree, ValueError>(Tree::Array(ts)),
{
    lemma_items_in_order(v@, ts, v@.len());
    assert(ts.subrange(0, ts.len() as int) =~= ts);
}

proof fn lemma_items_in_order(items: Seq<Datum>, ts: Seq<Tree>, n: nat)
    requires
        items.len() == ts.len(),
        n <= items.len(),
        forall|i: int|
            0 <= i < ts.len() ==> #[trigger] built(items[i], Shape::ScalarOrArray) == Ok::<Tree, ValueError>(ts[i]),
    ensures
        built_items(items, Shape::ScalarOrArray, n) == Ok::<Seq<Tree>, ValueError>(ts.subrange(0, n as int)),
    decreases n,
{
    if n > 0 {
        lemma_items_in_order(items, ts, (n - 1) as nat);
        assert(built(items[n - 1], Shape::ScalarOrArray) == Ok::<Tree, ValueError>(ts[n - 1]));
        assert(ts.subrange(0, n as int) =~= ts.subrange(0, n - 1).push(ts[n - 1]));
    } else {
        assert(ts.subrange(0, 0) =~= Seq::<Tree>::empty());
    }
}

/// An array handed to a consumer that asks for a sequence, or for anything, yields its
/// elements in stored order.
pub proof fn lemma_array_elements_in_order(items: Seq<Tree>)
    ensures
        dispatched(Tree::Array(items), RequestModel::Sequence) == Ok::<VisitModel, ValueError>(
            VisitModel::Sequence(items),
        ),
        dispatched(Tree::Array(items), RequestModel::Any) == Ok::<VisitModel, ValueError>(
            VisitModel::Sequence(items),
        ),
{
}

/// The scalar shape refuses every sequence, every ordinary struct, and every map whose
/// first key is string-like (or that is empty) with a type mismatch.
pub proof fn lemma_scalar_refuses_compound(d: Datum)
    requires
        d matches Datum::Sequence(_) || (d matches Datum::Struct(name, _) && !is_reserved_name(
            name@,
        )) || (d matches Datum::Entries(es) && (es@.len() == 0 || key_error(es@[0].0) is None)),
    ensures
        built(d, Shape::Scalar) matches Err(ValueError::InvalidType(_)),
{
}

/// In the scalar shape a unit variant becomes its name and is read back as that variant.
pub proof fn lemma_scalar_unit_variant_round_trip(name: String)
    ensures
        built(Datum::UnitVariant(name), Shape::Scalar) == Ok::<Tree, ValueError>(Tree::Str(name@)),
        dispatched(Tree::Str(name@), RequestModel::Enum) == Ok::<VisitModel, ValueError>(
            VisitModel::UnitVariant(name@),
        ),
{
}

/// A finite float key is accepted, to be written as its shortest round-trip text; a NaN or
/// infinite one fails.
pub proof fn lemma_float_key(bits: u64)
    ensures
        is_finite_bits(bits) ==> key_of(Datum::F64(bits)) == Ok::<KeyModel, ValueError>(
            KeyModel::Float(bits),
        ),
        !is_finite_bits(bits) ==> key_of(Datum::F64(bits)) == Err::<KeyModel, ValueError>(
            ValueError::FloatKeyMustBeFinite,
        ),
{
}

/// A finite single-precision key keeps its own width, to be written as its shortest
/// single-precision text; a NaN or infinite one fails.
pub proof fn lemma_f32_key(bits: u32)
    ensures
        is_finite_f32_bits(bits) ==> key_of(Datum::F32(bits)) == Ok::<KeyModel, ValueError>(
            KeyModel::Float32(bits),
        ),
        !is_finite_f32_bits(bits) ==> key_of(Datum::F32(bits)) == Err::<KeyModel, ValueError>(
            ValueError::FloatKeyMustBeFinite,
        ),
{
}

/// A NaN or infinite float handed to the value visitor becomes null, never a number.
pub proof fn lemma_visitor_non_finite_float_is_null(bits: u64, shape: Shape)
    requires
        !is_finite_bits(bits),
    ensures
        visited(VisitModel::F64(bits), shape) == Ok::<Tree, ValueError>(Tree::Null),
{
}

/// The value visitor of the scalar shape refuses every sequence with a type mismatch.
pub proof fn lemma_scalar_visitor_refuses_sequences(items: Seq<Tree>)
    ensures
        visited(VisitModel::Sequence(items), Shape::Scalar) == Err::<Tree, ValueError>(
            ValueError::InvalidType(Unexpected::Sequence),
        ),
{
}

/// Handing a legal tree to the value visitor through the deserializer rebuilds the
/// same tree.
pub proof fn lemma_identity_deserialize(t: Tree, shape: Shape)
    requires
        t.wf(shape),
    ensures
        dispatched(t, RequestModel::Any) matches Ok(vis) && !hands_over_value(vis) && visited(
            vis,
            shape,
        ) == Ok::<Tree, ValueError>(t),
{
    match t {
        Tree::Number(n) => {
            assert(n.wf());
        },
        Tree::Array(items) => {
            assert(shape.permits_array());
        },
        _ => {},
    }
}

} // verus!
