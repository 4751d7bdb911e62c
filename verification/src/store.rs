//! The graph container as the algorithm uses it, and `petgraph`'s stable
//! graph behind it.
//!
//! What a stable graph holds is known through its two slot tables, and
//! through the contracts that the functions below the trait state over them
//! without proof. The graphs are indexed by `usize`, so that no index limit
//! stands below the size of memory.

use crate::model::{all_occupied, occupied_edges, occupied_nodes, Edge, Node, CAPACITY_HINT_LIMIT};
use petgraph::stable_graph::{NodeIndex, StableGraph};
use petgraph::visit::{EdgeRef, IntoEdgeReferences, IntoNodeReferences};
use petgraph::{Directed, Undirected};
use vstd::prelude::*;

verus! {

/// A graph container with stable handles. Its contents are two slot tables:
/// a node's handle is the position of its slot, and a removed node or edge
/// leaves its slot vacant.
pub trait GraphStore: Sized {
    /// The node slot table: the payload of each node, by handle.
    spec fn node_slots(&self) -> Seq<Option<u64>>;

    /// The edge slot table: source, target and payload of each edge.
    spec fn edge_slots(&self) -> Seq<Option<Edge>>;

    /// An empty graph with room for about `nodes` nodes and `edges` edges.
    fn with_capacity_hint(nodes: usize, edges: usize) -> (graph: Self)
        requires
            nodes <= CAPACITY_HINT_LIMIT,
            edges <= CAPACITY_HINT_LIMIT,
        ensures
            graph.node_slots() == Seq::<Option<u64>>::empty(),
            graph.edge_slots() == Seq::<Option<Edge>>::empty(),
    ;

    /// The nodes in handle order. Every handle fits `usize`.
    fn node_entries(&self) -> (entries: Vec<Node>)
        ensures
            entries@ == occupied_nodes(self.node_slots()),
            self.node_slots().len() <= usize::MAX,
    ;

    /// The edges in slot order.
    fn edge_entries(&self) -> (entries: Vec<Edge>)
        ensures
            entries@ == occupied_edges(self.edge_slots()),
    ;

    /// Appends a node to a graph without vacant node slots and returns its
    /// handle.
    fn push_node(&mut self, payload: u64) -> (handle: usize)
        requires
            all_occupied(old(self).node_slots()),
        ensures
            handle == old(self).node_slots().len(),
            final(self).node_slots() == old(self).node_slots().push(Some(payload)),
            final(self).edge_slots() == old(self).edge_slots(),
    ;

    /// Appends an edge between two existing nodes to a graph without vacant
    /// edge slots.
    fn push_edge(&mut self, source: usize, target: usize, payload: u64)
        requires
            all_occupied(old(self).edge_slots()),
            source < old(self).node_slots().len(),
            target < old(self).node_slots().len(),
            old(self).node_slots()[source as int] is Some,
            old(self).node_slots()[target as int] is Some,
        ensures
            final(self).edge_slots() == old(self).edge_slots().push(
                Some((source, target, payload)),
            ),
            final(self).node_slots() == old(self).node_slots(),
    ;
}

/// `petgraph::stable_graph::StableGraph`, as an opaque type: its contents
/// are known through the slot tables below only.
#[verifier::external_type_specification]
#[verifier::external_body]
#[verifier::reject_recursive_types(N)]
#[verifier::reject_recursive_types(E)]
#[verifier::reject_recursive_types(Ty)]
#[verifier::reject_recursive_types(Ix)]
pub struct ExStableGraph<N, E, Ty, Ix>(StableGraph<N, E, Ty, Ix>);

/// `petgraph::Directed`, the marker of graphs with directed edges. It has
/// no values.
#[verifier::external_type_specification]
#[verifier::external_body]
pub struct ExDirected(Directed);

/// `petgraph::Undirected`, the marker of graphs with undirected edges. It
/// has no values.
#[verifier::external_type_specification]
#[verifier::external_body]
pub struct ExUndirected(Undirected);

/// A directed stable graph of identity handles, indexed by `usize`.
pub type DirectedStore = StableGraph<u64, u64, Directed, usize>;

/// An undirected stable graph of identity handles, indexed by `usize`.
pub type UndirectedStore = StableGraph<u64, u64, Undirected, usize>;

/// The node slot table of a directed stable graph: the weight of node `i` at
/// position `i`, `None` where index `i` is vacant.
pub uninterp spec fn digraph_node_slots(graph: DirectedStore) -> Seq<Option<u64>>;

/// The edge slot table of a directed stable graph: source index, target index
/// and weight of edge `i` at position `i`, `None` where index `i` is vacant.
pub uninterp spec fn digraph_edge_slots(graph: DirectedStore) -> Seq<Option<Edge>>;

/// `StableGraph::with_capacity`: the new graph has no node and no edge slot.
#[verifier::external_body]
fn digraph_with_capacity(nodes: usize, edges: usize) -> (graph: DirectedStore)
    requires
        nodes <= CAPACITY_HINT_LIMIT,
        edges <= CAPACITY_HINT_LIMIT,
    ensures
        digraph_node_slots(graph) == Seq::<Option<u64>>::empty(),
        digraph_edge_slots(graph) == Seq::<Option<Edge>>::empty(),
{
    StableGraph::with_capacity(nodes, edges)
}

/// `IntoNodeReferences::node_references`: walks the node slots in index order
/// and yields index and weight of each occupied one. The slots are those of
/// a vector, so their number fits `usize`.
#[verifier::external_body]
fn digraph_node_entries(graph: &DirectedStore) -> (entries: Vec<Node>)
    ensures
        entries@ == occupied_nodes(digraph_node_slots(*graph)),
        entries.len() <= digraph_node_slots(*graph).len() <= usize::MAX,
{
    graph.node_references().map(|(index, weight)| (index.index(), *weight)).collect()
}

/// `IntoEdgeReferences::edge_references`: walks the edge slots in index order
/// and yields source, target and weight of each occupied one.
#[verifier::external_body]
fn digraph_edge_entries(graph: &DirectedStore) -> (entries: Vec<Edge>)
    ensures
        entries@ == occupied_edges(digraph_edge_slots(*graph)),
{
    graph.edge_references().map(|e| (e.source().index(), e.target().index(), *e.weight())).collect()
}

/// `StableGraph::add_node`: with no vacant node slot to reuse, the node gets
/// a new slot at the end and its index is returned. With `usize` indices no
/// index limit makes the call panic.
#[verifier::external_body]
fn digraph_add_node(graph: &mut DirectedStore, payload: u64) -> (handle: usize)
    requires
        all_occupied(digraph_node_slots(*old(graph))),
    ensures
        handle == digraph_node_slots(*old(graph)).len(),
        digraph_node_slots(*final(graph)) == digraph_node_slots(*old(graph)).push(Some(payload)),
        digraph_edge_slots(*final(graph)) == digraph_edge_slots(*old(graph)),
{
    graph.add_node(payload).index()
}

/// `StableGraph::add_edge`: with no vacant edge slot to reuse, the edge gets
/// a new slot at the end. With `usize` indices the call panics only when an
/// endpoint is no node of the graph.
#[verifier::external_body]
fn digraph_add_edge(graph: &mut DirectedStore, source: usize, target: usize, payload: u64)
    requires
        all_occupied(digraph_edge_slots(*old(graph))),
        source < digraph_node_slots(*old(graph)).len(),
        target < digraph_node_slots(*old(graph)).len(),
        digraph_node_slots(*old(graph))[source as int] is Some,
        digraph_node_slots(*old(graph))[target as int] is Some,
    ensures
        digraph_edge_slots(*final(graph)) == digraph_edge_slots(*old(graph)).push(
            Some((source, target, payload)),
        ),
        digraph_node_slots(*final(graph)) == digraph_node_slots(*old(graph)),
{
    graph.add_edge(NodeIndex::new(source), NodeIndex::new(target), payload);
}

impl GraphStore for DirectedStore {
    open spec fn node_slots(&self) -> Seq<Option<u64>> {
        digraph_node_slots(*self)
    }

    open spec fn edge_slots(&self) -> Seq<Option<Edge>> {
        digraph_edge_slots(*self)
    }

    fn with_capacity_hint(nodes: usize, edges: usize) -> (graph: Self) {
        digraph_with_capacity(nodes, edges)
    }

    fn node_entries(&self) -> (entries: Vec<Node>) {
        digraph_node_entries(self)
    }

    fn edge_entries(&self) -> (entries: Vec<Edge>) {
        digraph_edge_entries(self)
    }

    fn push_node(&mut self, payload: u64) -> (handle: usize) {
        digraph_add_node(self, payload)
    }

    fn push_edge(&mut self, source: usize, target: usize, payload: u64) {
        digraph_add_edge(self, source, target, payload)
    }
}

/// The node slot table of an undirected stable graph: the weight of node `i` at
/// position `i`, `None` where index `i` is vacant.
pub uninterp spec fn ungraph_node_slots(graph: UndirectedStore) -> Seq<Option<u64>>;

/// The edge slot table of an undirected stable graph: source index, target index
/// and weight of edge `i` at position `i`, `None` where index `i` is vacant.
pub uninterp spec fn ungraph_edge_slots(graph: UndirectedStore) -> Seq<Option<Edge>>;

/// `StableGraph::with_capacity`: the new graph has no node and no edge slot.
#[verifier::external_body]
fn ungraph_with_capacity(nodes: usize, edges: usize) -> (graph: UndirectedStore)
    requires
        nodes <= CAPACITY_HINT_LIMIT,
        edges <= CAPACITY_HINT_LIMIT,
    ensures
        ungraph_node_slots(graph) == Seq::<Option<u64>>::empty(),
        ungraph_edge_slots(graph) == Seq::<Option<Edge>>::empty(),
{
    StableGraph::with_capacity(nodes, edges)
}

/// `IntoNodeReferences::node_references`: walks the node slots in index order
/// and yields index and weight of each occupied one. The slots are those of
/// a vector, so their number fits `usize`.
#[verifier::external_body]
fn ungraph_node_entries(graph: &UndirectedStore) -> (entries: Vec<Node>)
    ensures
        entries@ == occupied_nodes(ungraph_node_slots(*graph)),
        entries.len() <= ungraph_node_slots(*graph).len() <= usize::MAX,
{
    graph.node_references().map(|(index, weight)| (index.index(), *weight)).collect()
}

/// `IntoEdgeReferences::edge_references`: walks the edge slots in index order
/// and yields source, target and weight of each occupied one.
#[verifier::external_body]
fn ungraph_edge_entries(graph: &UndirectedStore) -> (entries: Vec<Edge>)
    ensures
        entries@ == occupied_edges(ungraph_edge_slots(*graph)),
{
    graph.edge_references().map(|e| (e.source().index(), e.target().index(), *e.weight())).collect()
}

/// `StableGraph::add_node`: with no vacant node slot to reuse, the node gets
/// a new slot at the end and its index is returned. With `usize` indices no
/// index limit makes the call panic.
#[verifier::external_body]
fn ungraph_add_node(graph: &mut UndirectedStore, payload: u64) -> (handle: usize)
    requires
        all_occupied(ungraph_node_slots(*old(graph))),
    ensures
        handle == ungraph_node_slots(*old(graph)).len(),
        ungraph_node_slots(*final(graph)) == ungraph_node_slots(*old(graph)).push(Some(payload)),
        ungraph_edge_slots(*final(graph)) == ungraph_edge_slots(*old(graph)),
{
    graph.add_node(payload).index()
}

/// `StableGraph::add_edge`: with no vacant edge slot to reuse, the edge gets
/// a new slot at the end. With `usize` indices the call panics only when an
/// endpoint is no node of the graph.
#[verifier::external_body]
fn ungraph_add_edge(graph: &mut UndirectedStore, source: usize, target: usize, payload: u64)
    requires
        all_occupied(ungraph_edge_slots(*old(graph))),
        source < ungraph_node_slots(*old(graph)).len(),
        target < ungraph_node_slots(*old(graph)).len(),
        ungraph_node_slots(*old(graph))[source as int] is Some,
        ungraph_node_slots(*old(graph))[target as int] is Some,
    ensures
        ungraph_edge_slots(*final(graph)) == ungraph_edge_slots(*old(graph)).push(
            Some((source, target, payload)),
        ),
        ungraph_node_slots(*final(graph)) == ungraph_node_slots(*old(graph)),
{
    graph.add_edge(NodeIndex::new(source), NodeIndex::new(target), payload);
}

impl GraphStore for UndirectedStore {
    open spec fn node_slots(&self) -> Seq<Option<u64>> {
        ungraph_node_slots(*self)
    }

    open spec fn edge_slots(&self) -> Seq<Option<Edge>> {
        ungraph_edge_slots(*self)
    }

    fn with_capacity_hint(nodes: usize, edges: usize) -> (graph: Self) {
        ungraph_with_capacity(nodes, edges)
    }

    fn node_entries(&self) -> (entries: Vec<Node>) {
        ungraph_node_entries(self)
    }

    fn edge_entries(&self) -> (entries: Vec<Edge>) {
        ungraph_edge_entries(self)
    }

    fn push_node(&mut self, payload: u64) -> (handle: usize) {
        ungraph_add_node(self, payload)
    }

    fn push_edge(&mut self, source: usize, target: usize, payload: u64) {
        ungraph_add_edge(self, source, target, payload)
    }
}

} // verus!
