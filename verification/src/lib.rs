//! Planar-geometry measurement primitives: signed area of two-dimensional
//! shapes, point-to-segment and point-to-linestring Euclidean distance, and
//! exact boundary-membership testing.
//!
//! Every formula is generic over a numeric abstraction ([`scalar::Scalar`],
//! [`scalar::MetricScalar`]); the contracts state, for each computation, the
//! exact expression it evaluates in the chosen scalar's arithmetic.

pub mod area;
pub mod containment;
pub mod distance;
pub mod geometry;
pub mod scalar;
