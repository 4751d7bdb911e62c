//! Symmetric difference of two attributed graphs kept in `petgraph` stable
//! graphs.
//!
//! Node and edge payloads are `u64` identity handles: two payloads are the
//! same payload exactly when their handles are equal.

pub mod difference;
pub mod edges;
pub mod error;
pub mod graphs;
pub mod hash;
pub mod laws;
pub mod lemmas;
pub mod model;
pub mod nodes;
pub mod store;
