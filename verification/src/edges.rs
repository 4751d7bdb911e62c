//! The edge-set comparator and the edge translator.

use crate::error::SymmetricDifferenceError;
use crate::hash::{
    edge_set_insert, edge_set_items, edge_set_new, edge_set_symmetric_difference, node_map_entries,
    node_map_get, EdgeSet, NodeMap,
};
use crate::model::{
    all_occupied, is_first_failure, missing_endpoint, renames_into, selected_edges, translate,
    translated_slots, Edge,
};
use crate::store::GraphStore;
use vstd::prelude::*;

verus! {

/// The set of the edges in `entries`.
fn collect_edges(entries: &Vec<Edge>) -> (set: EdgeSet)
    ensures
        edge_set_items(set) == entries@.to_set(),
{
    let mut set = edge_set_new();
    let mut i: usize = 0;
    while i < entries.len()
        invariant
            i <= entries.len(),
            edge_set_items(set) == entries@.subrange(0, i as int).to_set(),
        decreases entries.len() - i,
    {
        edge_set_insert(&mut set, entries[i]);
        proof {
            let before = entries@.subrange(0, i as int);
            let after = entries@.subrange(0, i as int + 1);
            assert(after =~= before.push(entries@[i as int]));
            before.lemma_push_to_set_commute(entries@[i as int]);
        }
        i += 1;
    }
    proof {
        assert(entries@.subrange(0, i as int) =~= entries@);
    }
    set
}

/// The edges, each by source, target and payload, that exactly one of the
/// two lists holds. Parallel edges with equal payloads count as one edge.
/// Each edge is listed once; the order is not fixed.
pub fn edge_set_difference(first_edges: &Vec<Edge>, second_edges: &Vec<Edge>) -> (selected: Vec<
    Edge,
>)
    ensures
        selected@.no_duplicates(),
        selected@.to_set() == selected_edges(first_edges@, second_edges@),
{
    let first_set = collect_edges(first_edges);
    let second_set = collect_edges(second_edges);
    edge_set_symmetric_difference(&first_set, &second_set)
}

/// Appends to `out` the edges of `selected` in order, each with its endpoints
/// renamed by `node_map`. Stops at the first edge with an endpoint that
/// `node_map` has no value for and reports that endpoint.
pub fn add_translated_edges<G: GraphStore>(
    out: &mut G,
    node_map: &NodeMap,
    selected: &Vec<Edge>,
) -> (result: Result<(), SymmetricDifferenceError>)
    requires
        all_occupied(old(out).edge_slots()),
        renames_into(node_map_entries(*node_map), old(out).node_slots()),
    ensures
        final(out).node_slots() == old(out).node_slots(),
        match result {
            Ok(()) => {
                &&& forall|i: int|
                    0 <= i < selected.len() ==> missing_endpoint(
                        node_map_entries(*node_map),
                        #[trigger] selected[i],
                    ) is None
                &&& final(out).edge_slots() == old(out).edge_slots() + translated_slots(
                    node_map_entries(*node_map),
                    selected@,
                )
            },
            Err(error) => exists|k: int|
                {
                    &&& #[trigger] is_first_failure(node_map_entries(*node_map), selected@, k)
                    &&& missing_endpoint(node_map_entries(*node_map), selected[k]) == Some(
                        error->handle,
                    )
                    &&& error is EndpointNotFound
                    &&& final(out).edge_slots() == old(out).edge_slots() + translated_slots(
                        node_map_entries(*node_map),
                        selected@.subrange(0, k),
                    )
                },
        },
{
    let ghost renaming = node_map_entries(*node_map);
    let ghost start = out.edge_slots();
    let mut i: usize = 0;
    while i < selected.len()
        invariant
            i <= selected.len(),
            renaming == node_map_entries(*node_map),
            start == old(out).edge_slots(),
            renames_into(renaming, out.node_slots()),
            out.node_slots() == old(out).node_slots(),
            all_occupied(out.edge_slots()),
            out.edge_slots() == start + translated_slots(renaming, selected@.subrange(0, i as int)),
            forall|j: int|
                0 <= j < i ==> missing_endpoint(renaming, #[trigger] selected[j]) is None,
        decreases selected.len() - i,
    {
        let edge = selected[i];
        let source = match node_map_get(node_map, edge.0) {
            Some(handle) => handle,
            None => {
                proof {
                    assert(is_first_failure(renaming, selected@, i as int));
                }
                return Err(SymmetricDifferenceError::EndpointNotFound { handle: edge.0 });
            },
        };
        let target = match node_map_get(node_map, edge.1) {
            Some(handle) => handle,
            None => {
                proof {
                    assert(is_first_failure(renaming, selected@, i as int));
                }
                return Err(SymmetricDifferenceError::EndpointNotFound { handle: edge.1 });
            },
        };
        out.push_edge(source, target, edge.2);
        proof {
            let before = selected@.subrange(0, i as int);
            let after = selected@.subrange(0, i as int + 1);
            assert(translated_slots(renaming, after) =~= translated_slots(renaming, before).push(
                Some(translate(renaming, edge)),
            ));
            assert(out.edge_slots() =~= start + translated_slots(renaming, after));
        }
        i += 1;
    }
    proof {
        assert(selected@.subrange(0, i as int) =~= selected@);
    }
    Ok(())
}

} // verus!
