//! Structurally constrained JSON value trees, and the conversions between them and the
//! generic serialization protocol.
//!
//! Two shapes exist: the scalar shape (null, booleans, numbers, strings) and the
//! scalar-or-array shape, which adds arrays. Neither holds objects. A value that the
//! protocol describes (a `Datum`) converts into a tree of either shape, failing
//! predictably where the shape cannot hold it; a tree supplies a consumer with what it
//! holds, or fails with a type mismatch. Two reserved single-field structs carry a
//! numeral or a fragment of encoded JSON text through the protocol.
use vstd::prelude::*;

pub mod error;
pub mod number;
pub mod value;
pub mod datum;
pub mod key;
pub mod json;
pub mod ser;
pub mod de;
pub mod laws;

verus! {

} // verus!
