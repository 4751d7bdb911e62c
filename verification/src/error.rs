//! The errors that end a symmetric difference.

use vstd::prelude::*;

verus! {

/// Why no graph was built.
#[derive(Clone, Copy, Debug, PartialEq, Eq, Structural)]
pub enum SymmetricDifferenceError {
    /// An edge chosen for the result has an endpoint, `handle`, that is no
    /// node of the first graph.
    EndpointNotFound { handle: usize },
    /// The two graphs do not have the same nodes, and the configuration asks
    /// that they do.
    NodeSetMismatch,
}

} // verus!
