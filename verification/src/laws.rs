//! Laws of the symmetric difference, over everything a call may return.

use crate::error::SymmetricDifferenceError;
use crate::lemmas::lemma_full_table_len;
use crate::model::{
    all_occupied, copied_slots, difference_result, endpoints_present, occupied_edges,
    occupied_nodes, selected_edges, translated_edges, Edge, Node,
};
use vstd::prelude::*;

verus! {

/// A graph as `difference_result` takes it, or the error in its place.
pub type Outcome = Result<(Seq<Option<u64>>, Seq<Option<Edge>>), SymmetricDifferenceError>;

/// The nodes of the result are a renamed copy of the first graph's nodes:
/// as many, with the same payloads in the same order, under the handles
/// 0, 1, 2 and so on, and no handle is vacant.
pub proof fn lemma_copied_nodes(nodes: Seq<Node>)
    requires
        nodes.len() <= usize::MAX,
    ensures
        all_occupied(copied_slots(nodes)),
        occupied_nodes(copied_slots(nodes)).len() == nodes.len(),
        forall|i: int|
            0 <= i < nodes.len() ==> #[trigger] occupied_nodes(copied_slots(nodes))[i] == (
                i as usize,
                nodes[i].1,
            ),
    decreases nodes.len(),
{
    if nodes.len() > 0 {
        let shorter = nodes.drop_last();
        lemma_copied_nodes(shorter);
        assert(copied_slots(nodes).drop_last() =~= copied_slots(shorter));
    }
}

/// The order of the two graphs does not matter to the edges. Both orders
/// select the same edges, and a graph returned for either order holds these
/// edges under the handles of its own copy of the nodes. Where both graphs
/// have the same nodes, one order succeeds exactly when the other does, and
/// the graphs returned have the same nodes and the same set of edges.
pub proof fn lemma_difference_commutes(
    first_nodes: Seq<Node>,
    first_edges: Seq<Edge>,
    second_nodes: Seq<Node>,
    second_edges: Seq<Edge>,
    enforce: bool,
    forward: Outcome,
    backward: Outcome,
)
    requires
        difference_result(first_nodes, first_edges, second_nodes, second_edges, enforce, forward),
        difference_result(second_nodes, second_edges, first_nodes, first_edges, enforce, backward),
    ensures
        selected_edges(first_edges, second_edges) == selected_edges(second_edges, first_edges),
        forward matches Ok(graph) ==> occupied_edges(graph.1).to_set() == translated_edges(
            first_nodes,
            selected_edges(first_edges, second_edges),
        ),
        backward matches Ok(graph) ==> occupied_edges(graph.1).to_set() == translated_edges(
            second_nodes,
            selected_edges(first_edges, second_edges),
        ),
        first_nodes == second_nodes ==> (forward is Ok <==> backward is Ok),
        first_nodes == second_nodes ==> (forward matches Ok(one) ==> (backward matches Ok(other)
            ==> one.0 == other.0 && occupied_edges(one.1).to_set() == occupied_edges(
            other.1,
        ).to_set())),
{
    assert(selected_edges(first_edges, second_edges) =~= selected_edges(second_edges, first_edges));
}

/// The difference of a graph with itself always succeeds, and gives a graph
/// with a copy of the nodes and with no edge.
pub proof fn lemma_difference_with_itself(
    nodes: Seq<Node>,
    edges: Seq<Edge>,
    enforce: bool,
    result: Outcome,
)
    requires
        difference_result(nodes, edges, nodes, edges, enforce, result),
    ensures
        result matches Ok(graph) && graph.0 == copied_slots(nodes) && graph.1.len() == 0,
{
    assert(selected_edges(edges, edges) =~= Set::<Edge>::empty());
    if let Ok(graph) = result {
        let listed = occupied_edges(graph.1);
        if listed.len() > 0 {
            assert(listed.to_set().contains(listed[0]));
        }
        lemma_full_table_len(graph.1);
    }
}

/// The difference of a graph with an edgeless graph of the same nodes always
/// succeeds, and gives a graph with a copy of the nodes and with the set of
/// the first graph's edges, under the handles of the copy.
pub proof fn lemma_difference_with_edgeless(
    nodes: Seq<Node>,
    edges: Seq<Edge>,
    enforce: bool,
    result: Outcome,
)
    requires
        forall|i: int| 0 <= i < edges.len() ==> endpoints_present(nodes, #[trigger] edges[i]),
        difference_result(nodes, edges, nodes, Seq::<Edge>::empty(), enforce, result),
    ensures
        result matches Ok(graph) && graph.0 == copied_slots(nodes) && occupied_edges(
            graph.1,
        ).to_set() == translated_edges(nodes, edges.to_set()),
{
    let selected = selected_edges(edges, Seq::<Edge>::empty());
    assert(selected =~= edges.to_set());
}

} // verus!
