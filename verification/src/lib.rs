//! Measurements of plane shapes, built from small verified pieces.
//!
//! The crate verifies the parts of shape geometry that are exact: the
//! three-way ordering utility that triangle classification rests on, the
//! pairwise-equality classification of triangle sides, and the cyclic
//! vertex indexing of the polygon engine.

pub mod polygon;
pub mod triangle;
pub mod util;
