//! Rendering of planar geometries as plot primitives.
//!
//! A geometry is decomposed into an ordered list of draw calls, each either
//! a point set or a line path, that are appended to a [`surface::Surface`]. The
//! coordinate type is a parameter, so the same proofs cover any numeric
//! representation chosen by the caller; the style bag is a parameter too and
//! is handed unchanged to every call.
//!
//! Only the exterior ring of a polygon is drawn: interior rings (holes) are
//! deliberately left out, to stay compatible with existing plots.

pub mod geometry;
pub mod laws;
pub mod plot;
pub mod surface;
