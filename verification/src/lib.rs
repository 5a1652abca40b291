//! Deterministic spherical sample grids.
//!
//! The crate generates symmetric grids of sample points in spherical
//! coordinate space (radius x longitude x latitude). Each axis is sampled
//! from a (range, resolution) pair; the grid is the cross product of the
//! per-axis samples, preceded by a single shared origin point. The central
//! invariant is that the point count computed up front always equals the
//! length of the generated sequence.
//!
//! Sample positions are kept symbolic: a grid point records which radial
//! step and which subdivision of each angular axis it lies on. Turning a
//! symbolic sample into a floating-point offset (and a Cartesian triple)
//! is a per-point map that callers perform; it cannot change how many
//! points exist or in what order they come.

pub mod axis;
pub mod grid;
