//! `hashbrown`'s hash set and hash map, holding handles and payloads.
//!
//! Each collection is kept in a private field of a struct that Verus does
//! not look into. What it holds is known through `node_set_items`,
//! `edge_set_items` and `node_map_entries`, and through the contracts that
//! the functions of this module state over them without proof.

use crate::model::{symmetric_difference_of, Edge, Node, CAPACITY_HINT_LIMIT};
use hashbrown::{HashMap, HashSet};
use vstd::prelude::*;

verus! {

/// A `hashbrown::HashSet` of nodes, compared by handle and payload.
#[verifier::external_body]
pub struct NodeSet {
    inner: HashSet<Node>,
}

/// A `hashbrown::HashSet` of edges, compared by source, target and payload.
#[verifier::external_body]
pub struct EdgeSet {
    inner: HashSet<Edge>,
}

/// A `hashbrown::HashMap` from the handles of one graph to the handles of
/// another.
#[verifier::external_body]
pub struct NodeMap {
    inner: HashMap<usize, usize>,
}

/// The nodes that a node set holds.
pub uninterp spec fn node_set_items(set: NodeSet) -> Set<Node>;

/// The edges that an edge set holds.
pub uninterp spec fn edge_set_items(set: EdgeSet) -> Set<Edge>;

/// The key-value pairs that a node map holds.
pub uninterp spec fn node_map_entries(table: NodeMap) -> Map<usize, usize>;

/// `HashSet::new`: the new set holds nothing.
#[verifier::external_body]
pub(crate) fn node_set_new() -> (set: NodeSet)
    ensures
        node_set_items(set) == Set::<Node>::empty(),
{
    NodeSet { inner: HashSet::new() }
}

/// `HashSet::insert`: afterwards the set holds `node` and what it held
/// before.
#[verifier::external_body]
pub(crate) fn node_set_insert(set: &mut NodeSet, node: Node)
    ensures
        node_set_items(*final(set)) == node_set_items(*old(set)).insert(node),
{
    set.inner.insert(node);
}

/// `HashSet::symmetric_difference`: yields, in no particular order and each
/// once, the values that exactly one of the two sets holds.
#[verifier::external_body]
pub(crate) fn node_set_symmetric_difference(first: &NodeSet, second: &NodeSet) -> (nodes: Vec<Node>)
    ensures
        nodes@.no_duplicates(),
        nodes@.to_set() == symmetric_difference_of(node_set_items(*first), node_set_items(*second)),
{
    first.inner.symmetric_difference(&second.inner).copied().collect()
}

/// `HashSet::new`: the new set holds nothing.
#[verifier::external_body]
pub(crate) fn edge_set_new() -> (set: EdgeSet)
    ensures
        edge_set_items(set) == Set::<Edge>::empty(),
{
    EdgeSet { inner: HashSet::new() }
}

/// `HashSet::insert`: afterwards the set holds `edge` and what it held
/// before.
#[verifier::external_body]
pub(crate) fn edge_set_insert(set: &mut EdgeSet, edge: Edge)
    ensures
        edge_set_items(*final(set)) == edge_set_items(*old(set)).insert(edge),
{
    set.inner.insert(edge);
}

/// `HashSet::symmetric_difference`: yields, in no particular order and each
/// once, the values that exactly one of the two sets holds.
#[verifier::external_body]
pub(crate) fn edge_set_symmetric_difference(first: &EdgeSet, second: &EdgeSet) -> (edges: Vec<Edge>)
    ensures
        edges@.no_duplicates(),
        edges@.to_set() == symmetric_difference_of(edge_set_items(*first), edge_set_items(*second)),
{
    first.inner.symmetric_difference(&second.inner).copied().collect()
}

/// `HashMap::with_capacity`: the new map has no key.
#[verifier::external_body]
pub(crate) fn node_map_with_capacity(capacity: usize) -> (table: NodeMap)
    requires
        capacity <= CAPACITY_HINT_LIMIT,
    ensures
        node_map_entries(table).dom() == Set::<usize>::empty(),
{
    NodeMap { inner: HashMap::with_capacity(capacity) }
}

/// `HashMap::insert`: afterwards `key` has the value `value`, and every other
/// key what it had before.
#[verifier::external_body]
pub(crate) fn node_map_insert(table: &mut NodeMap, key: usize, value: usize)
    ensures
        node_map_entries(*final(table)) == node_map_entries(*old(table)).insert(key, value),
{
    table.inner.insert(key, value);
}

/// `HashMap::get`: the value of `key`, or `None` where the map has no such
/// key.
#[verifier::external_body]
pub(crate) fn node_map_get(table: &NodeMap, key: usize) -> (value: Option<usize>)
    ensures
        value == (if node_map_entries(*table).contains_key(key) {
            Some(node_map_entries(*table)[key])
        } else {
            None
        }),
{
    table.inner.get(&key).copied()
}

} // verus!
