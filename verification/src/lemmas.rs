//! Lemmas about the model that the verified functions rest on.

use crate::model::{
    all_occupied, correspondence, endpoints_present, handles_distinct, handles_increase,
    has_handle, node_sets_differ, occupied_edges, occupied_nodes, position_of,
    symmetric_difference_of, translate, translated_edges, Edge, Node,
};
use vstd::prelude::*;

verus! {

/// A slot table without vacant slots has as many edges as slots.
pub proof fn lemma_full_table_len(slots: Seq<Option<Edge>>)
    requires
        all_occupied(slots),
    ensures
        occupied_edges(slots).len() == slots.len(),
    decreases slots.len(),
{
    if slots.len() > 0 {
        lemma_full_table_len(slots.drop_last());
    }
}

/// The nodes of a slot table stand at their handles, in handle order, and
/// every occupied slot is among them.
pub proof fn lemma_occupied_nodes(slots: Seq<Option<u64>>)
    requires
        slots.len() <= usize::MAX,
    ensures
        occupied_nodes(slots).len() <= slots.len(),
        handles_increase(occupied_nodes(slots)),
        forall|i: int|
            0 <= i < occupied_nodes(slots).len() ==> {
                let node = #[trigger] occupied_nodes(slots)[i];
                node.0 < slots.len() && slots[node.0 as int] == Some(node.1)
            },
        forall|h: int|
            0 <= h < slots.len() && (#[trigger] slots[h]) is Some ==> has_handle(
                occupied_nodes(slots),
                h as usize,
            ),
    decreases slots.len(),
{
    if slots.len() > 0 {
        let shorter = slots.drop_last();
        let earlier = occupied_nodes(shorter);
        let nodes = occupied_nodes(slots);
        lemma_occupied_nodes(shorter);
        assert forall|h: int|
            0 <= h < slots.len() && (#[trigger] slots[h]) is Some implies has_handle(
            nodes,
            h as usize,
        ) by {
            if h < shorter.len() {
                assert(shorter[h] is Some);
                let i = choose|i: int|
                    0 <= i < earlier.len() && (#[trigger] earlier[i]).0 == h as usize;
                assert(nodes[i].0 == h as usize);
            } else {
                assert(nodes[nodes.len() - 1].0 == h as usize);
            }
        }
    }
}

/// The edges of a slot table without vacant slots are its slots' contents.
pub proof fn lemma_occupied_edges_of_full(edges: Seq<Edge>)
    ensures
        occupied_edges(edges.map_values(|e: Edge| Some(e))) == edges,
    decreases edges.len(),
{
    let slots = edges.map_values(|e: Edge| Some(e));
    if edges.len() > 0 {
        lemma_occupied_edges_of_full(edges.drop_last());
        assert(slots.drop_last() =~= edges.drop_last().map_values(|e: Edge| Some(e)));
    }
}

/// The correspondence of nodes with distinct handles sends the handle of
/// the node at position `i` to `i`, and no two handles to one value.
pub proof fn lemma_correspondence(nodes: Seq<Node>)
    requires
        handles_distinct(nodes),
        nodes.len() <= usize::MAX,
    ensures
        forall|h: usize| correspondence(nodes).contains_key(h) <==> has_handle(nodes, h),
        forall|i: int|
            0 <= i < nodes.len() ==> correspondence(nodes).contains_key((#[trigger] nodes[i]).0)
                && correspondence(nodes)[nodes[i].0] == i,
        forall|h: usize| #[trigger]
            correspondence(nodes).contains_key(h) ==> correspondence(nodes)[h] < nodes.len()
                && nodes[correspondence(nodes)[h] as int].0 == h,
{
    assert forall|i: int| 0 <= i < nodes.len() implies correspondence(nodes).contains_key(
        (#[trigger] nodes[i]).0,
    ) && correspondence(nodes)[nodes[i].0] == i by {
        let j = position_of(nodes, nodes[i].0);
        assert(nodes[j].0 == nodes[i].0);
    }
    assert forall|h: usize| #[trigger] correspondence(nodes).contains_key(h) implies correspondence(
        nodes,
    )[h] < nodes.len() && nodes[correspondence(nodes)[h] as int].0 == h by {
        let j = position_of(nodes, h);
        assert(nodes[j].0 == h);
    }
}

/// Edges listed once each, all with their endpoints among nodes of distinct
/// handles, are still listed once each after translation, and the set of
/// the translations is the translation of their set.
pub proof fn lemma_translation_keeps_edges_apart(nodes: Seq<Node>, edges: Seq<Edge>)
    requires
        handles_distinct(nodes),
        nodes.len() <= usize::MAX,
        edges.no_duplicates(),
        forall|i: int| 0 <= i < edges.len() ==> endpoints_present(nodes, #[trigger] edges[i]),
    ensures
        edges.map_values(|e: Edge| translate(correspondence(nodes), e)).no_duplicates(),
        edges.map_values(|e: Edge| translate(correspondence(nodes), e)).to_set()
            == translated_edges(nodes, edges.to_set()),
{
    let renaming = correspondence(nodes);
    let rename = |e: Edge| translate(renaming, e);
    let renamed = edges.map_values(rename);
    lemma_correspondence(nodes);
    assert forall|i: int, j: int| 0 <= i < renamed.len() && 0 <= j < renamed.len() && i
        != j implies renamed[i] != renamed[j] by {
        let a = edges[i];
        let b = edges[j];
        assert(endpoints_present(nodes, a) && endpoints_present(nodes, b));
        if renamed[i] == renamed[j] {
            assert(a.0 == nodes[renaming[a.0] as int].0 == b.0);
            assert(a.1 == nodes[renaming[a.1] as int].0 == b.1);
            assert(a == b);
        }
    }
    edges.lemma_to_set_map_commutes(rename);
}

/// Node lists hold the same nodes exactly when no node is in only one of
/// them.
pub proof fn lemma_node_sets_differ(
    first_nodes: Seq<Node>,
    second_nodes: Seq<Node>,
    mismatched: Seq<Node>,
)
    requires
        mismatched.to_set() == symmetric_difference_of(first_nodes.to_set(), second_nodes.to_set()),
    ensures
        node_sets_differ(first_nodes, second_nodes) <==> mismatched.len() > 0,
{
    let a = first_nodes.to_set();
    let b = second_nodes.to_set();
    if mismatched.len() > 0 {
        assert(mismatched.to_set().contains(mismatched[0]));
        assert(a.contains(mismatched[0]) != b.contains(mismatched[0]));
    } else {
        assert forall|n: Node| a.contains(n) == b.contains(n) by {
            if a.contains(n) != b.contains(n) {
                assert(mismatched.to_set().contains(n));
            }
        }
        assert(a =~= b);
    }
}

} // verus!
