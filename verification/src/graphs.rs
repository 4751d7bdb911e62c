//! The two entry points, one for undirected and one for directed graphs.

use crate::difference::{symmetric_difference, Configuration};
use crate::error::SymmetricDifferenceError;
use crate::model::{difference_result, occupied_edges, occupied_nodes};
use crate::store::{DirectedStore, GraphStore, UndirectedStore};
use vstd::prelude::*;

verus! {

/// An undirected graph with its attributes.
pub struct Graph {
    /// Nodes and edges; a payload is an identity handle.
    pub graph: UndirectedStore,
    /// Parallel edges are allowed.
    pub multigraph: bool,
    /// A node has been removed, so the node handles may have gaps.
    pub node_removed: bool,
}

/// A directed graph with its attributes.
pub struct DiGraph {
    /// Nodes and edges; a payload is an identity handle.
    pub graph: DirectedStore,
    /// Adding an edge checks that it closes no cycle.
    pub check_cycle: bool,
    /// A node has been removed, so the node handles may have gaps.
    pub node_removed: bool,
    /// Parallel edges are allowed.
    pub multigraph: bool,
}

/// The symmetric difference of two undirected graphs, as
/// `symmetric_difference` builds it. The new graph is a multigraph from
/// which no node has been removed. An undirected edge is compared as it is
/// stored, source before target.
pub fn graph_symmetric_difference(
    first: &Graph,
    second: &Graph,
    configuration: &Configuration,
) -> (result: Result<Graph, SymmetricDifferenceError>)
    ensures
        difference_result(
            occupied_nodes(first.graph.node_slots()),
            occupied_edges(first.graph.edge_slots()),
            occupied_nodes(second.graph.node_slots()),
            occupied_edges(second.graph.edge_slots()),
            configuration.enforce_identical_node_sets,
            match result {
                Ok(out) => Ok((out.graph.node_slots(), out.graph.edge_slots())),
                Err(error) => Err(error),
            },
        ),
        result matches Ok(out) ==> out.multigraph && !out.node_removed,
{
    match symmetric_difference(&first.graph, &second.graph, configuration) {
        Ok(graph) => Ok(Graph { graph, multigraph: true, node_removed: false }),
        Err(error) => Err(error),
    }
}

/// The symmetric difference of two directed graphs, as
/// `symmetric_difference` builds it. The new graph is a multigraph without
/// cycle checking, from which no node has been removed.
pub fn digraph_symmetric_difference(
    first: &DiGraph,
    second: &DiGraph,
    configuration: &Configuration,
) -> (result: Result<DiGraph, SymmetricDifferenceError>)
    ensures
        difference_result(
            occupied_nodes(first.graph.node_slots()),
            occupied_edges(first.graph.edge_slots()),
            occupied_nodes(second.graph.node_slots()),
            occupied_edges(second.graph.edge_slots()),
            configuration.enforce_identical_node_sets,
            match result {
                Ok(out) => Ok((out.graph.node_slots(), out.graph.edge_slots())),
                Err(error) => Err(error),
            },
        ),
        result matches Ok(out) ==> out.multigraph && !out.check_cycle && !out.node_removed,
{
    match symmetric_difference(&first.graph, &second.graph, configuration) {
        Ok(graph) => Ok(
            DiGraph { graph, check_cycle: false, node_removed: false, multigraph: true },
        ),
        Err(error) => Err(error),
    }
}

} // verus!
