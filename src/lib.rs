//! A planar curve kernel: infinite lines, circles, and finite segments that
//! are straight or circular arcs, parametrised by arc length, with nearest
//! point projection and the biarc construction that joins two oriented points
//! with at most two segments.
//!
//! The geometry is generic over the number type (`scalar::Scalar`), whose
//! operations are named by spec functions. Each function here is proved to
//! compute exactly what its spec function states in terms of them, for every
//! such type: when a construction succeeds, the fields of what it builds, the
//! case that a biarc takes and that its chain joins its endpoints, and the
//! vector path text in terms of the text of each number.
use vstd::prelude::*;

pub mod curves;
pub mod scalar;
pub mod segment;
pub mod svg;
pub mod vector;

verus! {

} // verus!
