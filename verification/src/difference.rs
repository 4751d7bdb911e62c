//! The symmetric difference of two graphs.

use crate::edges::{add_translated_edges, edge_set_difference};
use crate::error::SymmetricDifferenceError;
use crate::lemmas::{
    lemma_correspondence, lemma_node_sets_differ, lemma_occupied_edges_of_full,
    lemma_occupied_nodes, lemma_translation_keeps_edges_apart,
};
use crate::model::{
    correspondence, dangling, difference_result, endpoints_present, is_first_failure,
    missing_endpoint, occupied_edges, occupied_nodes, selected_edges, translate, Edge,
};
use crate::nodes::{capacity_hint, copy_nodes, node_set_difference};
use crate::store::GraphStore;
use vstd::prelude::*;

verus! {

/// How strictly the two graphs are compared before the difference is built.
#[derive(Clone, Copy, Debug)]
pub struct Configuration {
    /// Report `NodeSetMismatch` unless both graphs have the same nodes, by
    /// handle and payload.
    pub enforce_identical_node_sets: bool,
}

impl Default for Configuration {
    /// Node sets are not compared.
    fn default() -> (configuration: Self)
        ensures
            !configuration.enforce_identical_node_sets,
    {
        Configuration { enforce_identical_node_sets: false }
    }
}

/// The result of a call as `difference_result` takes it: a graph by its two
/// slot tables.
pub open spec fn slots_of<G: GraphStore>(result: Result<G, SymmetricDifferenceError>) -> Result<
    (Seq<Option<u64>>, Seq<Option<Edge>>),
    SymmetricDifferenceError,
> {
    match result {
        Ok(graph) => Ok((graph.node_slots(), graph.edge_slots())),
        Err(error) => Err(error),
    }
}

/// A new graph with a copy of every node of `first` and with the edges that
/// exactly one of `first` and `second` has. An edge is what its source
/// handle, its target handle and its payload are: parallel edges with equal
/// payloads count as one, and a handle of `second` names the node of `first`
/// with that handle.
pub fn symmetric_difference<G: GraphStore>(
    first: &G,
    second: &G,
    configuration: &Configuration,
) -> (result: Result<G, SymmetricDifferenceError>)
    ensures
        difference_result(
            occupied_nodes(first.node_slots()),
            occupied_edges(first.edge_slots()),
            occupied_nodes(second.node_slots()),
            occupied_edges(second.edge_slots()),
            configuration.enforce_identical_node_sets,
            slots_of(result),
        ),
{
    let first_nodes = first.node_entries();
    if configuration.enforce_identical_node_sets {
        let second_nodes = second.node_entries();
        let mismatched = node_set_difference(&first_nodes, &second_nodes);
        proof {
            lemma_node_sets_differ(first_nodes@, second_nodes@, mismatched@);
        }
        if mismatched.len() > 0 {
            return Err(SymmetricDifferenceError::NodeSetMismatch);
        }
    }
    let first_edges = first.edge_entries();
    let second_edges = second.edge_entries();
    let edge_capacity = capacity_hint(first_edges.len()) + capacity_hint(second_edges.len());
    proof {
        lemma_occupied_nodes(first.node_slots());
    }
    let (mut out, node_map) = copy_nodes::<G>(&first_nodes, edge_capacity);
    let selected = edge_set_difference(&first_edges, &second_edges);
    proof {
        lemma_correspondence(first_nodes@);
    }
    let built = add_translated_edges(&mut out, &node_map, &selected);
    proof {
        let renaming = correspondence(first_nodes@);
        let chosen = selected_edges(first_edges@, second_edges@);
        match built {
            Ok(()) => {
                assert forall|e: Edge| #[trigger] chosen.contains(e) implies endpoints_present(
                    first_nodes@,
                    e,
                ) by {
                    let i = choose|i: int| 0 <= i < selected.len() && selected[i] == e;
                    assert(missing_endpoint(renaming, selected[i]) is None);
                }
                assert forall|i: int| 0 <= i < selected.len() implies endpoints_present(
                    first_nodes@,
                    #[trigger] selected[i],
                ) by {
                    assert(missing_endpoint(renaming, selected[i]) is None);
                }
                lemma_translation_keeps_edges_apart(first_nodes@, selected@);
                let renamed = selected@.map_values(|e: Edge| translate(renaming, e));
                assert(out.edge_slots() =~= renamed.map_values(|e: Edge| Some(e)));
                lemma_occupied_edges_of_full(renamed);
            },
            Err(error) => {
                let k = choose|k: int| #[trigger]
                    is_first_failure(renaming, selected@, k) && missing_endpoint(
                        renaming,
                        selected[k],
                    ) == Some(error->handle);
                assert(selected@.to_set().contains(selected[k]));
                assert(chosen.contains(selected[k]) && dangling(
                    first_nodes@,
                    selected[k],
                    error->handle,
                ));
            },
        }
    }
    match built {
        Ok(()) => Ok(out),
        Err(error) => Err(error),
    }
}

} // verus!
