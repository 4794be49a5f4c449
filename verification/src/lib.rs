//! Code-synthesis engine for enum reflection operations.
//!
//! Given a structural descriptor of an enum — its variants, each variant's
//! fields, and per-field behavioral policies — this crate decides what source
//! text to emit for three reflective operations: reconstruction of a concrete
//! value from a dynamic representation, fallible merge-apply of a dynamic
//! source onto an existing instance, and structural (deep) clone.
//!
//! Code fragments are plain strings; an unverified host layer may splice them
//! into token streams for a macro backend.

pub mod builder;
pub mod laws;
pub mod model;
pub mod strategies;
pub mod text;
