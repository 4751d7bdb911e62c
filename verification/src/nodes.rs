//! The node copier and the node-set comparator.

use crate::hash::{
    node_map_entries, node_map_insert, node_map_with_capacity, node_set_insert, node_set_items,
    node_set_new, node_set_symmetric_difference, NodeMap, NodeSet,
};
use crate::model::{
    copied_slots, correspondence, handles_distinct, has_handle, position_of,
    symmetric_difference_of, Edge, Node, CAPACITY_HINT_LIMIT,
};
use crate::store::GraphStore;
use vstd::prelude::*;

verus! {

/// `wanted`, or the largest capacity hint where `wanted` is above it.
pub fn capacity_hint(wanted: usize) -> (hint: usize)
    ensures
        hint == if wanted <= CAPACITY_HINT_LIMIT { wanted } else { CAPACITY_HINT_LIMIT },
{
    if wanted <= CAPACITY_HINT_LIMIT {
        wanted
    } else {
        CAPACITY_HINT_LIMIT
    }
}

/// A new graph with a copy of each node of `first_nodes`, in order, and
/// without edges, together with the correspondence from the handles in
/// `first_nodes` to the handles of the copies. `edge_capacity` is the number
/// of edges to make room for.
pub fn copy_nodes<G: GraphStore>(first_nodes: &Vec<Node>, edge_capacity: usize) -> (copy: (
    G,
    NodeMap,
))
    requires
        handles_distinct(first_nodes@),
    ensures
        copy.0.node_slots() == copied_slots(first_nodes@),
        copy.0.edge_slots() == Seq::<Option<Edge>>::empty(),
        node_map_entries(copy.1) == correspondence(first_nodes@),
{
    let mut out = G::with_capacity_hint(
        capacity_hint(first_nodes.len()),
        capacity_hint(edge_capacity),
    );
    let mut node_map = node_map_with_capacity(capacity_hint(first_nodes.len()));
    let mut i: usize = 0;
    while i < first_nodes.len()
        invariant
            i <= first_nodes.len(),
            handles_distinct(first_nodes@),
            out.node_slots() == copied_slots(first_nodes@.subrange(0, i as int)),
            out.edge_slots() == Seq::<Option<Edge>>::empty(),
            forall|h: usize|
                node_map_entries(node_map).contains_key(h) <==> has_handle(
                    first_nodes@.subrange(0, i as int),
                    h,
                ),
            forall|j: int|
                0 <= j < i ==> node_map_entries(node_map).contains_key(
                    (#[trigger] first_nodes@[j]).0,
                ) && node_map_entries(node_map)[first_nodes@[j].0] == j,
        decreases first_nodes.len() - i,
    {
        let handle = first_nodes[i].0;
        let payload = first_nodes[i].1;
        let ghost before = first_nodes@.subrange(0, i as int);
        let ghost after = first_nodes@.subrange(0, i as int + 1);
        let ghost old_map = node_map_entries(node_map);
        let new_handle = out.push_node(payload);
        node_map_insert(&mut node_map, handle, new_handle);
        proof {
            assert(out.node_slots() =~= copied_slots(after));
            assert(after[i as int].0 == handle);
            assert forall|h: usize|
                node_map_entries(node_map).contains_key(h) <==> has_handle(after, h) by {
                if has_handle(after, h) {
                    let j = choose|j: int| 0 <= j < after.len() && (#[trigger] after[j]).0 == h;
                    if j < i {
                        assert(before[j].0 == h);
                    }
                }
                if old_map.contains_key(h) {
                    let j = choose|j: int| 0 <= j < before.len() && (#[trigger] before[j]).0 == h;
                    assert(after[j].0 == h);
                }
            }
        }
        i += 1;
    }
    proof {
        let nodes = first_nodes@;
        assert(nodes.subrange(0, i as int) =~= nodes);
        assert forall|h: usize| has_handle(nodes, h) implies node_map_entries(node_map)[h]
            == position_of(nodes, h) as usize by {
            let j = position_of(nodes, h);
            assert(nodes[j].0 == h);
        }
        assert(node_map_entries(node_map) =~= correspondence(nodes));
    }
    (out, node_map)
}

/// The set of the nodes in `entries`.
fn collect_nodes(entries: &Vec<Node>) -> (set: NodeSet)
    ensures
        node_set_items(set) == entries@.to_set(),
{
    let mut set = node_set_new();
    let mut i: usize = 0;
    while i < entries.len()
        invariant
            i <= entries.len(),
            node_set_items(set) == entries@.subrange(0, i as int).to_set(),
        decreases entries.len() - i,
    {
        node_set_insert(&mut set, entries[i]);
        proof {
            let before = entries@.subrange(0, i as int);
            let after = entries@.subrange(0, i as int + 1);
            assert(after =~= before.push(entries@[i as int]));
            before.lemma_push_to_set_commute(entries@[i as int]);
        }
        i += 1;
    }
    proof {
        assert(entries@.subrange(0, i as int) =~= entries@);
    }
    set
}

/// The nodes, each by handle and payload, that exactly one of the two lists
/// holds. Each is listed once; the order is not fixed.
pub fn node_set_difference(first_nodes: &Vec<Node>, second_nodes: &Vec<Node>) -> (mismatched: Vec<
    Node,
>)
    ensures
        mismatched@.no_duplicates(),
        mismatched@.to_set() == symmetric_difference_of(
            first_nodes@.to_set(),
            second_nodes@.to_set(),
        ),
{
    let first_set = collect_nodes(first_nodes);
    let second_set = collect_nodes(second_nodes);
    node_set_symmetric_difference(&first_set, &second_set)
}

} // verus!
