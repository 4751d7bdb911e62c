//! The mathematical model: slot tables, occupied entries, the handle
//! correspondence and the set operations the contracts are stated over.

use crate::error::SymmetricDifferenceError;
use vstd::prelude::*;

verus! {

/// A node as the algorithm sees it: its handle and its payload.
pub type Node = (usize, u64);

/// An edge as the algorithm sees it: source handle, target handle, payload.
/// The edge's own handle is no part of it.
pub type Edge = (usize, usize, u64);

/// Largest capacity hint that is handed to an allocation: room for more
/// is not reserved ahead but grows as nodes and edges are added, so that a
/// hint never asks for more memory than can be addressed.
pub const CAPACITY_HINT_LIMIT: usize = 0x1_0000;

/// No slot of the table is vacant.
pub open spec fn all_occupied<T>(slots: Seq<Option<T>>) -> bool {
    forall|i: int| 0 <= i < slots.len() ==> (#[trigger] slots[i]) is Some
}

/// The nodes of a node slot table, in handle order. A node's handle is the
/// position of its slot.
pub open spec fn occupied_nodes(slots: Seq<Option<u64>>) -> Seq<Node>
    decreases slots.len(),
{
    if slots.len() == 0 {
        Seq::empty()
    } else {
        let earlier = occupied_nodes(slots.drop_last());
        match slots.last() {
            Some(payload) => earlier.push(((slots.len() - 1) as usize, payload)),
            None => earlier,
        }
    }
}

/// The edges of an edge slot table, in slot order.
pub open spec fn occupied_edges(slots: Seq<Option<Edge>>) -> Seq<Edge>
    decreases slots.len(),
{
    if slots.len() == 0 {
        Seq::empty()
    } else {
        let earlier = occupied_edges(slots.drop_last());
        match slots.last() {
            Some(edge) => earlier.push(edge),
            None => earlier,
        }
    }
}

/// Some node of `nodes` has the handle `handle`.
pub open spec fn has_handle(nodes: Seq<Node>, handle: usize) -> bool {
    exists|i: int| 0 <= i < nodes.len() && (#[trigger] nodes[i]).0 == handle
}

/// A position in `nodes` at which `handle` stands, if there is one.
pub open spec fn position_of(nodes: Seq<Node>, handle: usize) -> int {
    choose|i: int| 0 <= i < nodes.len() && (#[trigger] nodes[i]).0 == handle
}

/// The handle correspondence of a node copy: every handle of `nodes` is sent
/// to the position of its node, which is the node's handle in the copy.
pub open spec fn correspondence(nodes: Seq<Node>) -> Map<usize, usize> {
    Map::new(|h: usize| has_handle(nodes, h), |h: usize| position_of(nodes, h) as usize)
}

/// The slot table of a fresh copy of `nodes`: the payloads in order, none
/// vacant.
pub open spec fn copied_slots(nodes: Seq<Node>) -> Seq<Option<u64>> {
    nodes.map_values(|n: Node| Some(n.1))
}

/// The elements that are in exactly one of the two sets.
pub open spec fn symmetric_difference_of<T>(a: Set<T>, b: Set<T>) -> Set<T> {
    a.difference(b).union(b.difference(a))
}

/// Both endpoints of `edge` are handles of `nodes`.
pub open spec fn endpoints_present(nodes: Seq<Node>, edge: Edge) -> bool {
    has_handle(nodes, edge.0) && has_handle(nodes, edge.1)
}

/// `edge` with its endpoints renamed by `renaming`; the payload stays.
pub open spec fn translate(renaming: Map<usize, usize>, edge: Edge) -> Edge {
    (renaming[edge.0], renaming[edge.1], edge.2)
}

/// The endpoint of `edge` that `renaming` has no value for: the source where
/// it is missing, else the target where that is missing.
pub open spec fn missing_endpoint(renaming: Map<usize, usize>, edge: Edge) -> Option<usize> {
    if !renaming.contains_key(edge.0) {
        Some(edge.0)
    } else if !renaming.contains_key(edge.1) {
        Some(edge.1)
    } else {
        None
    }
}

/// `edges[k]` is the first edge of `edges` with an endpoint that `renaming`
/// has no value for.
pub open spec fn is_first_failure(renaming: Map<usize, usize>, edges: Seq<Edge>, k: int) -> bool {
    &&& 0 <= k < edges.len()
    &&& missing_endpoint(renaming, edges[k]) is Some
    &&& forall|i: int| 0 <= i < k ==> missing_endpoint(renaming, #[trigger] edges[i]) is None
}

/// The slots that the translations of `edges` fill, in order.
pub open spec fn translated_slots(renaming: Map<usize, usize>, edges: Seq<Edge>) -> Seq<
    Option<Edge>,
> {
    edges.map_values(|e: Edge| Some(translate(renaming, e)))
}

/// Every value of `renaming` is the handle of a node in `node_slots`.
pub open spec fn renames_into(renaming: Map<usize, usize>, node_slots: Seq<Option<u64>>) -> bool {
    forall|h: usize| #[trigger]
        renaming.contains_key(h) ==> renaming[h] < node_slots.len()
            && node_slots[renaming[h] as int] is Some
}

/// The handles of `nodes` grow strictly from each node to the next.
pub open spec fn handles_increase(nodes: Seq<Node>) -> bool {
    forall|i: int, j: int|
        0 <= i < j < nodes.len() ==> (#[trigger] nodes[i]).0 < (#[trigger] nodes[j]).0
}

/// No two nodes of `nodes` share a handle.
pub open spec fn handles_distinct(nodes: Seq<Node>) -> bool {
    forall|i: int, j: int|
        0 <= i < nodes.len() && 0 <= j < nodes.len() && i != j ==> (#[trigger] nodes[i]).0 != (
        #[trigger] nodes[j]).0
}

/// The edges that the result is built from: those that exactly one of the
/// two edge lists holds, whatever number of times it holds them.
pub open spec fn selected_edges(first_edges: Seq<Edge>, second_edges: Seq<Edge>) -> Set<Edge> {
    symmetric_difference_of(first_edges.to_set(), second_edges.to_set())
}

/// The two node lists do not hold the same nodes, by handle and payload.
pub open spec fn node_sets_differ(first_nodes: Seq<Node>, second_nodes: Seq<Node>) -> bool {
    first_nodes.to_set() != second_nodes.to_set()
}

/// `handle` is an endpoint of `edge` and no handle of `nodes`.
pub open spec fn dangling(nodes: Seq<Node>, edge: Edge, handle: usize) -> bool {
    (edge.0 == handle || edge.1 == handle) && !has_handle(nodes, handle)
}

/// The edges of the result: the selected edges, their endpoints renamed by
/// the correspondence of the first graph's nodes.
pub open spec fn translated_edges(first_nodes: Seq<Node>, selected: Set<Edge>) -> Set<Edge> {
    selected.map(|e: Edge| translate(correspondence(first_nodes), e))
}

/// What a symmetric difference may return. The first graph is given by its
/// nodes and edges, and so is the second; `enforce` asks for equal node sets.
/// A graph that is returned is given by its two slot tables. It holds a copy
/// of the first graph's nodes and, once each and in no fixed order, the
/// translations of the selected edges. It is returned exactly when no error
/// is due: `NodeSetMismatch` where equal node sets are asked for and the node
/// sets differ, else `EndpointNotFound` where a selected edge has an endpoint
/// that is no node of the first graph, with one such endpoint.
pub open spec fn difference_result(
    first_nodes: Seq<Node>,
    first_edges: Seq<Edge>,
    second_nodes: Seq<Node>,
    second_edges: Seq<Edge>,
    enforce: bool,
    result: Result<(Seq<Option<u64>>, Seq<Option<Edge>>), SymmetricDifferenceError>,
) -> bool {
    let selected = selected_edges(first_edges, second_edges);
    let mismatch = enforce && node_sets_differ(first_nodes, second_nodes);
    match result {
        Ok((node_slots, edge_slots)) => {
            &&& !mismatch
            &&& forall|e: Edge| #[trigger]
                selected.contains(e) ==> endpoints_present(first_nodes, e)
            &&& node_slots == copied_slots(first_nodes)
            &&& all_occupied(edge_slots)
            &&& occupied_edges(edge_slots).no_duplicates()
            &&& occupied_edges(edge_slots).to_set() == translated_edges(first_nodes, selected)
        },
        Err(SymmetricDifferenceError::NodeSetMismatch) => mismatch,
        Err(SymmetricDifferenceError::EndpointNotFound { handle }) => {
            &&& !mismatch
            &&& exists|e: Edge| #[trigger] selected.contains(e) && dangling(first_nodes, e, handle)
        },
    }
}

} // verus!
