use graph_symdiff::difference::{symmetric_difference, Configuration};
use graph_symdiff::error::SymmetricDifferenceError;
use graph_symdiff::graphs::{
    digraph_symmetric_difference, graph_symmetric_difference, DiGraph, Graph,
};
use petgraph::stable_graph::{NodeIndex, StableGraph};
use petgraph::visit::{EdgeRef, IntoEdgeReferences, IntoNodeReferences};
use petgraph::{Directed, Undirected};

const X: u64 = 120;
const P: u64 = 112;
const Q: u64 = 113;

fn permissive() -> Configuration {
    Configuration { enforce_identical_node_sets: false }
}

fn strict() -> Configuration {
    Configuration { enforce_identical_node_sets: true }
}

fn directed(nodes: &[u64], edges: &[(usize, usize, u64)]) -> DiGraph {
    let mut graph: StableGraph<u64, u64, Directed, usize> = StableGraph::with_capacity(0, 0);
    for payload in nodes {
        graph.add_node(*payload);
    }
    for (source, target, payload) in edges {
        graph.add_edge(NodeIndex::new(*source), NodeIndex::new(*target), *payload);
    }
    DiGraph { graph, check_cycle: false, node_removed: false, multigraph: true }
}

fn undirected(nodes: &[u64], edges: &[(usize, usize, u64)]) -> Graph {
    let mut graph: StableGraph<u64, u64, Undirected, usize> = StableGraph::with_capacity(0, 0);
    for payload in nodes {
        graph.add_node(*payload);
    }
    for (source, target, payload) in edges {
        graph.add_edge(NodeIndex::new(*source), NodeIndex::new(*target), *payload);
    }
    Graph { graph, multigraph: true, node_removed: false }
}

fn directed_nodes(graph: &DiGraph) -> Vec<(usize, u64)> {
    graph.graph.node_references().map(|(index, payload)| (index.index(), *payload)).collect()
}

fn directed_edges(graph: &DiGraph) -> Vec<(usize, usize, u64)> {
    let mut edges: Vec<(usize, usize, u64)> = graph
        .graph
        .edge_references()
        .map(|e| (e.source().index(), e.target().index(), *e.weight()))
        .collect();
    edges.sort();
    edges
}

fn undirected_nodes(graph: &Graph) -> Vec<(usize, u64)> {
    graph.graph.node_references().map(|(index, payload)| (index.index(), *payload)).collect()
}

fn undirected_edges(graph: &Graph) -> Vec<(usize, usize, u64)> {
    let mut edges: Vec<(usize, usize, u64)> = graph
        .graph
        .edge_references()
        .map(|e| (e.source().index(), e.target().index(), *e.weight()))
        .collect();
    edges.sort();
    edges
}

#[test]
fn parallel_edges_with_equal_payloads_collapse() {
    let first = directed(&[10, 11], &[(0, 1, X), (0, 1, X)]);
    let second = directed(&[10, 11], &[(0, 1, X)]);
    let out = digraph_symmetric_difference(&first, &second, &permissive()).unwrap();
    assert_eq!(directed_nodes(&out), vec![(0, 10), (1, 11)]);
    assert_eq!(directed_edges(&out), vec![]);
}

#[test]
fn parallel_edges_only_in_one_graph_appear_once() {
    let first = directed(&[10, 11], &[(0, 1, X), (0, 1, X)]);
    let second = directed(&[10, 11], &[]);
    let out = digraph_symmetric_difference(&first, &second, &permissive()).unwrap();
    assert_eq!(directed_edges(&out), vec![(0, 1, X)]);
    assert_eq!(out.graph.edge_count(), 1);
}

#[test]
fn edges_with_different_payloads_both_stay() {
    let first = directed(&[10, 11], &[(0, 1, P)]);
    let second = directed(&[10, 11], &[(0, 1, Q)]);
    let out = digraph_symmetric_difference(&first, &second, &permissive()).unwrap();
    assert_eq!(directed_edges(&out), vec![(0, 1, P), (0, 1, Q)]);
}

#[test]
fn mismatched_node_sets_are_reported_in_strict_mode() {
    let first = directed(&[10, 11], &[(0, 1, X)]);
    let mut second = directed(&[10, 11, 12], &[(0, 2, X)]);
    second.graph.remove_node(NodeIndex::new(1));
    let result = digraph_symmetric_difference(&first, &second, &strict());
    assert!(matches!(result, Err(SymmetricDifferenceError::NodeSetMismatch)));
}

#[test]
fn edge_to_unknown_node_is_reported_in_permissive_mode() {
    let first = directed(&[10, 11], &[(0, 1, X)]);
    let mut second = directed(&[10, 11, 12], &[(0, 2, X)]);
    second.graph.remove_node(NodeIndex::new(1));
    let result = digraph_symmetric_difference(&first, &second, &permissive());
    assert!(matches!(result, Err(SymmetricDifferenceError::EndpointNotFound { handle: 2 })));
}

#[test]
fn mismatched_node_sets_without_dangling_edges_pass_in_permissive_mode() {
    let first = directed(&[10, 11, 12], &[(0, 1, X)]);
    let second = directed(&[10, 11], &[(1, 0, P)]);
    let out = digraph_symmetric_difference(&first, &second, &permissive()).unwrap();
    assert_eq!(directed_nodes(&out), vec![(0, 10), (1, 11), (2, 12)]);
    assert_eq!(directed_edges(&out), vec![(0, 1, X), (1, 0, P)]);
    let refused = digraph_symmetric_difference(&first, &second, &strict());
    assert!(matches!(refused, Err(SymmetricDifferenceError::NodeSetMismatch)));
}

#[test]
fn node_payloads_count_in_strict_mode() {
    let first = directed(&[10, 11], &[]);
    let second = directed(&[10, 99], &[]);
    let refused = digraph_symmetric_difference(&first, &second, &strict());
    assert!(matches!(refused, Err(SymmetricDifferenceError::NodeSetMismatch)));
    let out = digraph_symmetric_difference(&first, &second, &permissive()).unwrap();
    assert_eq!(directed_nodes(&out), vec![(0, 10), (1, 11)]);
}

#[test]
fn equal_node_sets_pass_in_strict_mode() {
    let first = directed(&[10, 11, 12], &[(0, 1, X), (1, 2, P)]);
    let second = directed(&[10, 11, 12], &[(1, 2, P), (2, 0, Q)]);
    let out = digraph_symmetric_difference(&first, &second, &strict()).unwrap();
    assert_eq!(directed_nodes(&out), vec![(0, 10), (1, 11), (2, 12)]);
    assert_eq!(directed_edges(&out), vec![(0, 1, X), (2, 0, Q)]);
}

#[test]
fn difference_is_commutative_on_equal_node_sets() {
    let first = directed(&[10, 11, 12], &[(0, 1, X), (1, 2, P), (2, 2, Q)]);
    let second = directed(&[10, 11, 12], &[(1, 2, P), (2, 0, Q), (0, 1, P)]);
    let forward = digraph_symmetric_difference(&first, &second, &strict()).unwrap();
    let backward = digraph_symmetric_difference(&second, &first, &strict()).unwrap();
    assert_eq!(directed_edges(&forward), directed_edges(&backward));
    assert_eq!(directed_edges(&forward), vec![(0, 1, P), (0, 1, X), (2, 0, Q), (2, 2, Q)]);
    assert_eq!(directed_nodes(&forward), directed_nodes(&backward));
}

#[test]
fn difference_with_itself_has_the_nodes_and_no_edge() {
    let first = directed(&[10, 11, 12], &[(0, 1, X), (1, 2, P), (0, 1, X)]);
    let out = digraph_symmetric_difference(&first, &first, &strict()).unwrap();
    assert_eq!(directed_nodes(&out), vec![(0, 10), (1, 11), (2, 12)]);
    assert_eq!(out.graph.edge_count(), 0);
}

#[test]
fn difference_with_edgeless_copy_keeps_the_edges() {
    let first = directed(&[10, 11, 12], &[(0, 1, X), (1, 2, P), (2, 0, Q)]);
    let second = directed(&[10, 11, 12], &[]);
    let out = digraph_symmetric_difference(&first, &second, &strict()).unwrap();
    assert_eq!(directed_nodes(&out), vec![(0, 10), (1, 11), (2, 12)]);
    assert_eq!(directed_edges(&out), vec![(0, 1, X), (1, 2, P), (2, 0, Q)]);
}

#[test]
fn empty_graphs_give_an_empty_graph() {
    let first = directed(&[], &[]);
    let second = directed(&[], &[]);
    let out = digraph_symmetric_difference(&first, &second, &strict()).unwrap();
    assert_eq!(out.graph.node_count(), 0);
    assert_eq!(out.graph.edge_count(), 0);
}

#[test]
fn handles_with_gaps_are_renamed_to_positions() {
    let mut first = directed(&[10, 11, 12, 13], &[(0, 2, X), (2, 3, P)]);
    first.graph.remove_node(NodeIndex::new(1));
    let mut second = directed(&[10, 11, 12, 13], &[(3, 0, Q), (2, 3, P)]);
    second.graph.remove_node(NodeIndex::new(1));
    let out = digraph_symmetric_difference(&first, &second, &strict()).unwrap();
    assert_eq!(directed_nodes(&out), vec![(0, 10), (1, 12), (2, 13)]);
    assert_eq!(directed_edges(&out), vec![(0, 1, X), (2, 0, Q)]);
}

#[test]
fn inputs_are_left_as_they_were() {
    let first = directed(&[10, 11], &[(0, 1, X)]);
    let second = directed(&[10, 11], &[(1, 0, P)]);
    let _ = digraph_symmetric_difference(&first, &second, &permissive()).unwrap();
    assert_eq!(directed_nodes(&first), vec![(0, 10), (1, 11)]);
    assert_eq!(directed_edges(&first), vec![(0, 1, X)]);
    assert_eq!(directed_nodes(&second), vec![(0, 10), (1, 11)]);
    assert_eq!(directed_edges(&second), vec![(1, 0, P)]);
}

#[test]
fn directed_result_is_a_multigraph_without_cycle_checking() {
    let mut first = directed(&[10, 11], &[(0, 1, X)]);
    first.multigraph = false;
    first.check_cycle = true;
    first.node_removed = true;
    let second = directed(&[10, 11], &[]);
    let out = digraph_symmetric_difference(&first, &second, &permissive()).unwrap();
    assert!(out.multigraph);
    assert!(!out.check_cycle);
    assert!(!out.node_removed);
}

#[test]
fn undirected_edges_are_compared_as_stored() {
    let first = undirected(&[10, 11], &[(0, 1, X)]);
    let second = undirected(&[10, 11], &[(1, 0, X)]);
    let out = graph_symmetric_difference(&first, &second, &permissive()).unwrap();
    assert_eq!(undirected_nodes(&out), vec![(0, 10), (1, 11)]);
    assert_eq!(undirected_edges(&out), vec![(0, 1, X), (1, 0, X)]);
}

#[test]
fn undirected_result_is_a_multigraph() {
    let mut first = undirected(&[10, 11], &[(0, 1, X), (0, 1, X)]);
    first.multigraph = false;
    first.node_removed = true;
    let second = undirected(&[10, 11], &[(0, 1, X)]);
    let out = graph_symmetric_difference(&first, &second, &strict()).unwrap();
    assert_eq!(undirected_nodes(&out), vec![(0, 10), (1, 11)]);
    assert_eq!(out.graph.edge_count(), 0);
    assert!(out.multigraph);
    assert!(!out.node_removed);
}

#[test]
fn undirected_mismatch_and_missing_endpoint() {
    let first = undirected(&[10, 11], &[(0, 1, X)]);
    let mut second = undirected(&[10, 11, 12], &[(0, 2, X)]);
    second.graph.remove_node(NodeIndex::new(1));
    let refused = graph_symmetric_difference(&first, &second, &strict());
    assert!(matches!(refused, Err(SymmetricDifferenceError::NodeSetMismatch)));
    let failed = graph_symmetric_difference(&first, &second, &permissive());
    assert!(matches!(failed, Err(SymmetricDifferenceError::EndpointNotFound { handle: 2 })));
}

#[test]
fn generic_difference_works_on_a_bare_stable_graph() {
    let first = directed(&[10, 11], &[(0, 1, P)]);
    let second = directed(&[10, 11], &[(0, 1, Q), (0, 1, P), (1, 1, X)]);
    let out = symmetric_difference(&first.graph, &second.graph, &permissive()).unwrap();
    let mut edges: Vec<(usize, usize, u64)> = out
        .edge_references()
        .map(|e| (e.source().index(), e.target().index(), *e.weight()))
        .collect();
    edges.sort();
    assert_eq!(edges, vec![(0, 1, Q), (1, 1, X)]);
}

#[test]
fn default_configuration_is_permissive() {
    assert!(!Configuration::default().enforce_identical_node_sets);
}

#[test]
fn errors_compare_by_kind_and_handle() {
    let one = SymmetricDifferenceError::EndpointNotFound { handle: 4 };
    assert_eq!(one, SymmetricDifferenceError::EndpointNotFound { handle: 4 });
    assert_ne!(one, SymmetricDifferenceError::EndpointNotFound { handle: 5 });
    assert_ne!(one, SymmetricDifferenceError::NodeSetMismatch);
}
