//! Two-dimensional vectors over signed integer coordinates, with their
//! algebra proved against an integer model.
pub mod meta;
pub mod vectors;
pub mod laws;
