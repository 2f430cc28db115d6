//! A hierarchy of identifiers with associated data, whose structure is kept in a directed
//! acyclic graph of `daggy`, and its errors.

use vstd::prelude::*;
use std::collections::HashMap;
use std::hash::Hash;
use vstd::std_specs::hash::obeys_key_model;

verus! {

/// Describes possible errors when interacting with a hierarchy.
#[derive(Debug, Clone, Copy, PartialEq, Eq, Structural)]
pub enum HierarchyError {
    /// Returned when the requested key was not found.
    KeyNotFound,
    /// Returned when the requested key was found more than once.
    MultipleKeysFound,
    /// Returned if the requested node was not found.
    NodeNotFound,
}

impl HierarchyError {
    /// The message that describes the error.
    pub fn message(&self) -> (r: &'static str)
        ensures
            r@ == (match *self {
                HierarchyError::KeyNotFound => "The key was not found"@,
                HierarchyError::MultipleKeysFound => "The key was found more than once"@,
                HierarchyError::NodeNotFound => "The specified node was not found"@,
            }),
    {
        match self {
            HierarchyError::KeyNotFound => "The key was not found",
            HierarchyError::MultipleKeysFound => "The key was found more than once",
            HierarchyError::NodeNotFound => "The specified node was not found",
        }
    }
}

/// The structure of a hierarchy: a directed acyclic graph of `daggy` whose nodes and edges carry
/// no data. Verus refuses the declaration of `daggy::Dag` itself, so the graph is held here, and
/// the names and calls below speak of it.
#[verifier::external_body]
pub struct NodeGraph {
    dag: daggy::Dag<(), (), u32>,
}

/// The number of nodes of a graph; its nodes are indexed from zero up to this number.
pub uninterp spec fn dag_node_count(d: NodeGraph) -> nat;

/// The number of edges of a graph.
pub uninterp spec fn dag_edge_count(d: NodeGraph) -> nat;

/// The edges of a graph, each as the pair of its source and target node indices.
pub uninterp spec fn dag_edges(d: NodeGraph) -> Set<(int, int)>;

/// The node that takes the place of node `x` when node `removed` is taken out of a graph of
/// `count` nodes: the last node moves to the removed node's index, the others keep theirs.
pub open spec fn index_after_removal(x: int, removed: int, count: int) -> int {
    if x == count - 1 {
        removed
    } else {
        x
    }
}

/// The edges left when node `i` of a graph of `count` nodes is removed: those that touch it go,
/// and the others follow the last node to its new index.
pub open spec fn edges_after_removal(edges: Set<(int, int)>, i: int, count: int) -> Set<(int, int)> {
    Set::new(
        |e: (int, int)|
            exists|a: int, b: int|
                #![trigger edges.contains((a, b))]
                edges.contains((a, b)) && a != i && b != i && e == (index_after_removal(a, i, count), index_after_removal(b, i, count)),
    )
}

/// Calls `daggy::Dag::new`: a graph with no node and no edge.
#[verifier::external_body]
fn dag_new() -> (r: NodeGraph)
    ensures
        dag_node_count(r) == 0,
        dag_edge_count(r) == 0,
        dag_edges(r) == Set::<(int, int)>::empty(),
{
    NodeGraph { dag: daggy::Dag::new() }
}

/// Calls `daggy::Dag::clear`: all nodes and edges are removed.
#[verifier::external_body]
fn dag_clear(d: &mut NodeGraph)
    ensures
        dag_node_count(*final(d)) == 0,
        dag_edge_count(*final(d)) == 0,
        dag_edges(*final(d)) == Set::<(int, int)>::empty(),
{
    d.dag.clear()
}

/// Calls `daggy::Dag::add_node`: a node is added with the next index, which is returned; the
/// edges stay. It panics when the index type is exhausted, so fewer nodes than `u32::MAX` are
/// required.
#[verifier::external_body]
fn dag_add_node(d: &mut NodeGraph) -> (r: usize)
    requires
        dag_node_count(*old(d)) < u32::MAX,
    ensures
        r == dag_node_count(*old(d)),
        dag_node_count(*final(d)) == dag_node_count(*old(d)) + 1,
        dag_edge_count(*final(d)) == dag_edge_count(*old(d)),
        dag_edges(*final(d)) == dag_edges(*old(d)),
{
    d.dag.add_node(()).index()
}

/// Calls `daggy::Dag::add_child`: a node is added with the next index, which is returned, with
/// an edge from `parent` to it. It panics when `parent` is no node or an index type is
/// exhausted, which the requirements rule out.
#[verifier::external_body]
fn dag_add_child(d: &mut NodeGraph, parent: usize) -> (r: usize)
    requires
        parent < dag_node_count(*old(d)),
        dag_node_count(*old(d)) < u32::MAX,
        dag_edge_count(*old(d)) < u32::MAX,
    ensures
        r == dag_node_count(*old(d)),
        dag_node_count(*final(d)) == dag_node_count(*old(d)) + 1,
        dag_edge_count(*final(d)) == dag_edge_count(*old(d)) + 1,
        dag_edges(*final(d)) == dag_edges(*old(d)).insert((parent as int, r as int)),
{
    d.dag.add_child(daggy::NodeIndex::new(parent), (), ()).1.index()
}

/// Calls `daggy::Dag::remove_node` on node `i`: the edges that touch it are removed, and the
/// last node takes its index (`edges_after_removal`).
#[verifier::external_body]
fn dag_remove_node(d: &mut NodeGraph, i: usize)
    requires
        i < dag_node_count(*old(d)),
    ensures
        dag_node_count(*final(d)) == dag_node_count(*old(d)) - 1,
        dag_edge_count(*final(d)) <= dag_edge_count(*old(d)),
        dag_edges(*final(d)) == edges_after_removal(dag_edges(*old(d)), i as int, dag_node_count(*old(d)) as int),
{
    d.dag.remove_node(daggy::NodeIndex::new(i));
}

/// Calls `daggy::Dag::parents` and takes the first parent the walk yields: some node with an
/// edge to `i`, or `None` where no edge ends at `i`.
#[verifier::external_body]
fn dag_first_parent(d: &NodeGraph, i: usize) -> (r: Option<usize>)
    requires
        i < dag_node_count(*d),
    ensures
        r matches Some(p) ==> dag_edges(*d).contains((p as int, i as int)),
        r is None ==> forall|p: int| !#[trigger] dag_edges(*d).contains((p, i as int)),
{
    daggy::Walker::walk_next(&mut d.dag.parents(daggy::NodeIndex::new(i)), &d.dag).map(|(_, p)| p.index())
}

/// Calls `petgraph`'s breadth-first walk `Bfs` from `root` and returns the nodes in the order
/// visited: `root` first, each node once, each node after `root` reached by an edge from a node
/// visited before it, and every edge from a visited node leads to a visited node.
#[verifier::external_body]
fn dag_bfs(d: &NodeGraph, root: usize) -> (r: Vec<usize>)
    requires
        root < dag_node_count(*d),
    ensures
        r@.len() > 0,
        r@[0] == root,
        r@.no_duplicates(),
        forall|k: int| 0 <= k < r@.len() ==> #[trigger] r@[k] < dag_node_count(*d),
        forall|k: int|
            #![trigger r@[k]]
            0 < k < r@.len() ==> exists|j: int| #![trigger r@[j]] 0 <= j < k && dag_edges(*d).contains((r@[j] as int, r@[k] as int)),
        forall|a: int, b: int| #[trigger] dag_edges(*d).contains((a, b)) && r@.contains(a as usize) ==> r@.contains(b as usize),
{
    daggy::petgraph::visit::Walker::iter(daggy::petgraph::visit::Bfs::new(d.dag.graph(), daggy::NodeIndex::new(root)), d.dag.graph()).map(|n| n.index()).collect()
}

/// `p` is a path along `edges`: one node or more, each consecutive pair joined by an edge.
pub open spec fn is_path(edges: Set<(int, int)>, p: Seq<int>) -> bool {
    &&& p.len() >= 1
    &&& forall|k: int| #![trigger p[k]] 0 <= k < p.len() - 1 ==> edges.contains((p[k], p[k + 1]))
}

/// A path along `edges` leads from `x` to `y`; every node reaches itself.
pub open spec fn reachable(edges: Set<(int, int)>, x: int, y: int) -> bool {
    exists|p: Seq<int>| #[trigger] is_path(edges, p) && p[0] == x && p.last() == y
}

/// Some path of at least one edge along `edges` leads from a node back to it.
pub open spec fn has_cycle(edges: Set<(int, int)>) -> bool {
    exists|p: Seq<int>| #[trigger] is_path(edges, p) && p.len() >= 2 && p[0] == p.last()
}

/// The edges of a list of edges, as a set of pairs of node indices.
pub open spec fn edge_set(edges: Seq<(usize, usize)>) -> Set<(int, int)> {
    Set::new(|e: (int, int)| exists|j: int| 0 <= j < edges.len() && (#[trigger] edges[j]).0 as int == e.0 && edges[j].1 as int == e.1)
}

/// A path from `b` to `a` in a part of `edges`, which also holds the edge from `a` to `b`,
/// closes a cycle in `edges`.
proof fn lemma_edge_closes_cycle(part: Set<(int, int)>, edges: Set<(int, int)>, a: int, b: int)
    requires
        part.subset_of(edges),
        edges.contains((a, b)),
        reachable(part, b, a),
    ensures
        has_cycle(edges),
{
    let p = choose|p: Seq<int>| #[trigger] is_path(part, p) && p[0] == b && p.last() == a;
    let q = p.push(b);
    assert forall|k: int| #![trigger q[k]] 0 <= k < q.len() - 1 implies edges.contains((q[k], q[k + 1])) by {
        if k < p.len() - 1 {
            assert(p[k] == q[k] && p[k + 1] == q[k + 1]);
            assert(part.contains((p[k], p[k + 1])));
        } else {
            assert(q[k] == a && q[k + 1] == b);
        }
    }
    assert(is_path(edges, q));
}

/// Calls `daggy::Dag::add_edge` with an edge from `a` to `b`. `daggy` refuses the edge, and the
/// graph stays as it was, where a path already leads from `b` to `a`, so that the edge would close
/// a cycle; it may skip that search where the graph shows no such path can exist (`a` has no
/// parent, `b` has no child, or the edge is already there), which in a graph without cycles comes
/// to the same. Otherwise the edge is added. It panics when a node is missing or the edge index
/// type is exhausted, which the requirements rule out.
#[verifier::external_body]
fn dag_add_edge(d: &mut NodeGraph, a: usize, b: usize) -> (r: bool)
    requires
        a < dag_node_count(*old(d)),
        b < dag_node_count(*old(d)),
        dag_edge_count(*old(d)) < u32::MAX,
    ensures
        dag_node_count(*final(d)) == dag_node_count(*old(d)),
        r ==> dag_edges(*final(d)) == dag_edges(*old(d)).insert((a as int, b as int)) && dag_edge_count(*final(d))
            == dag_edge_count(*old(d)) + 1,
        !r ==> dag_edges(*final(d)) == dag_edges(*old(d)) && dag_edge_count(*final(d)) == dag_edge_count(*old(d)),
        !reachable(dag_edges(*old(d)), b as int, a as int) ==> r,
        reachable(dag_edges(*old(d)), b as int, a as int) && !has_cycle(dag_edges(*old(d))) ==> !r,
{
    d.dag.add_edge(daggy::NodeIndex::new(a), daggy::NodeIndex::new(b), ()).is_ok()
}

/// Calls `daggy::Dag::node_count` and `daggy::Dag::edge_count`: the numbers of nodes and edges.
#[verifier::external_body]
fn dag_size(d: &NodeGraph) -> (r: (usize, usize))
    ensures
        r.0 == dag_node_count(*d),
        r.1 == dag_edge_count(*d),
{
    (d.dag.node_count(), d.dag.edge_count())
}

/// Calls `daggy::Dag::raw_edges` and gives each edge as the pair of its source and target node
/// indices, in the order of the edges.
#[verifier::external_body]
fn dag_edge_list(d: &NodeGraph) -> (r: Vec<(usize, usize)>)
    ensures
        r@.len() == dag_edge_count(*d),
        forall|j: int| 0 <= j < r@.len() ==> dag_edges(*d).contains((#[trigger] r@[j].0 as int, r@[j].1 as int)),
        forall|a: int, b: int| #[trigger] dag_edges(*d).contains((a, b)) ==> exists|j: int| 0 <= j < r@.len() && (#[trigger] r@[j]).0 as int == a && r@[j].1 as int == b,
{
    d.dag.raw_edges().iter().map(|e| (e.source().index(), e.target().index())).collect()
}

/// The key type's `clone` gives back an equal value, as it does for integers and other plain
/// keys.
pub open spec fn clone_is_identity<K: Clone>() -> bool {
    forall|x: K, y: K| #[trigger] cloned(x, y) ==> x == y
}

/// The keys that the nodes hold.
pub open spec fn keys_of_nodes<K>(keys: Seq<Option<K>>) -> Set<K> {
    Set::new(|k: K| exists|j: int| 0 <= j < keys.len() && #[trigger] keys[j] == Some(k))
}

/// Given a set of identifying keys and corresponding data, `Hierarchy` allows users to establish
/// hierarchical relationships between individual instances of the data type.
///
/// Its nodes are those of a graph: an internal root node without key or data, and one node for
/// each key, with its data, as a child of the root or of another key's node. Node `i` of the
/// graph has the key and data at position `i` of `keys` and `data`; `index` finds a key's node.
pub struct Hierarchy<K, V> {
    root_idx: usize,
    index: HashMap<K, usize>,
    graph: NodeGraph,
    keys: Vec<Option<K>>,
    data: Vec<Option<V>>,
}

impl<K: Clone, V> Hierarchy<K, V> {
    /// The node that each key in the index leads to.
    pub closed spec fn key_map(&self) -> Map<K, usize> {
        self.index@
    }

    /// The keys of the nodes, by node index: `None` for the root node.
    pub closed spec fn node_keys(&self) -> Seq<Option<K>> {
        self.keys@
    }

    /// The data of the nodes, by node index: `None` for the root node.
    pub closed spec fn node_data(&self) -> Seq<Option<V>> {
        self.data@
    }

    /// The parent-child edges between nodes, as pairs of node indices.
    pub closed spec fn edges(&self) -> Set<(int, int)> {
        dag_edges(self.graph)
    }

    /// The index of the root node.
    pub closed spec fn root(&self) -> int {
        self.root_idx as int
    }

    /// A node can still be added: the graph's index type is not exhausted.
    pub closed spec fn has_room(&self) -> bool {
        &&& dag_node_count(self.graph) < u32::MAX
        &&& dag_edge_count(self.graph) < u32::MAX
    }

    /// The graph and the nodes agree: a node for each key and datum, the root node (the first)
    /// alone without them, every edge between nodes and into a node other than the root, and at
    /// most one parent for each node.
    pub closed spec fn graph_wf(&self) -> bool {
        let n = self.keys@.len();
        &&& dag_node_count(self.graph) == n
        &&& self.data@.len() == n
        &&& self.root_idx == 0
        &&& 0 < n
        &&& self.keys@[self.root_idx as int] is None
        &&& self.data@[self.root_idx as int] is None
        &&& forall|i: int| 0 <= i < n && i != self.root_idx ==> (#[trigger] self.keys@[i]) is Some && self.data@[i] is Some
        &&& forall|a: int, b: int| #[trigger] dag_edges(self.graph).contains((a, b)) ==> 0 <= a < n && 0 <= b < n && b != self.root_idx
        &&& forall|a: int, b: int, c: int|
            #![trigger dag_edges(self.graph).contains((a, b)), dag_edges(self.graph).contains((c, b))]
            dag_edges(self.graph).contains((a, b)) && dag_edges(self.graph).contains((c, b)) ==> a == c
    }

    /// The index leads each key to a node other than the root whose key it is a clone of.
    pub closed spec fn index_wf(&self) -> bool {
        forall|k: K|
            #[trigger] self.index@.contains_key(k) ==> self.index@[k] < self.keys@.len() && self.index@[k] != self.root_idx
                && cloned(self.keys@[self.index@[k] as int]->0, k)
    }

    /// The parts of the hierarchy agree: `graph_wf` and `index_wf`.
    pub closed spec fn wf(&self) -> bool {
        self.graph_wf() && self.index_wf()
    }

    /// A hierarchy with just the root node.
    pub fn new() -> (r: Self)
        ensures
            r.wf(),
            r.key_map() == Map::<K, usize>::empty(),
            r.node_keys() == seq![None::<K>],
            r.node_data() == seq![None::<V>],
            r.edges() == Set::<(int, int)>::empty(),
            r.root() == 0,
            r.has_room(),
    {
        let mut graph = dag_new();
        let root_idx = dag_add_node(&mut graph);
        let r = Hierarchy { root_idx, index: HashMap::new(), graph, keys: vec![None], data: vec![None] };
        assert(r.keys@ =~= seq![None::<K>]);
        r
    }
}

impl<K: Clone, V> Default for Hierarchy<K, V> {
    /// A hierarchy with just the root node.
    fn default() -> (r: Self)
        ensures
            r.wf(),
            r.key_map() == Map::<K, usize>::empty(),
            r.node_keys() == seq![None::<K>],
            r.node_data() == seq![None::<V>],
            r.edges() == Set::<(int, int)>::empty(),
            r.root() == 0,
            r.has_room(),
    {
        Hierarchy::new()
    }
}

impl<K: Clone + Eq + Hash, V> Hierarchy<K, V> {
    /// Removes all nodes and then creates a new root node.
    pub fn clear(&mut self)
        ensures
            final(self).wf(),
            final(self).key_map() == Map::<K, usize>::empty(),
            final(self).node_keys() == seq![None::<K>],
            final(self).node_data() == seq![None::<V>],
            final(self).edges() == Set::<(int, int)>::empty(),
            final(self).root() == 0,
            final(self).has_room(),
    {
        dag_clear(&mut self.graph);
        self.index.clear();
        self.root_idx = dag_add_node(&mut self.graph);
        self.keys = vec![None];
        self.data = vec![None];
        assert(self.keys@ =~= seq![None::<K>]);
    }

    /// Whether another node can be inserted: the graph's index types are not exhausted.
    pub fn can_grow(&self) -> (r: bool)
        ensures
            r == self.has_room(),
    {
        let (nodes, edges) = dag_size(&self.graph);
        nodes < 0xffff_ffff && edges < 0xffff_ffff
    }

    /// Whether `key` has a node in the hierarchy.
    pub fn has(&self, key: &K) -> (r: bool)
        requires
            obeys_key_model::<K>(),
        ensures
            r == self.key_map().contains_key(*key),
    {
        broadcast use vstd::std_specs::hash::group_hash_axioms;
        self.index.contains_key(key)
    }

    /// The number of keys in the hierarchy (the root node is not counted).
    pub fn len(&self) -> (r: usize)
        requires
            obeys_key_model::<K>(),
        ensures
            r == self.key_map().len(),
    {
        broadcast use vstd::std_specs::hash::group_hash_axioms;
        self.index.len()
    }

    /// Whether the hierarchy holds no key.
    pub fn is_empty(&self) -> (r: bool)
        ensures
            r == self.key_map().is_empty(),
    {
        self.index.is_empty()
    }

    /// The node of `key`, or `KeyNotFound`.
    fn get_index(&self, key: &K) -> (r: Result<usize, HierarchyError>)
        requires
            obeys_key_model::<K>(),
        ensures
            match r {
                Ok(i) => self.key_map().contains_key(*key) && i == self.key_map()[*key],
                Err(e) => e == HierarchyError::KeyNotFound && !self.key_map().contains_key(*key),
            },
    {
        broadcast use vstd::std_specs::hash::group_hash_axioms;
        match self.index.get(key) {
            Some(i) => Ok(*i),
            None => Err(HierarchyError::KeyNotFound),
        }
    }

    /// Adds a node for `child` with `data` as a child of node `parent`.
    fn insert_child_internal(&mut self, parent: usize, child: K, data: V)
        requires
            old(self).wf(),
            old(self).has_room(),
            parent < old(self).node_keys().len(),
            obeys_key_model::<K>(),
        ensures
            final(self).wf(),
            final(self).root() == old(self).root(),
            final(self).node_keys() == old(self).node_keys().push(Some(child)),
            final(self).node_data() == old(self).node_data().push(Some(data)),
            final(self).edges() == old(self).edges().insert((parent as int, old(self).node_keys().len() as int)),
            exists|k: K|
                #[trigger] cloned(child, k) && final(self).key_map() == old(self).key_map().insert(k, old(self).node_keys().len() as usize)
                    && final(self).key_map().len() == old(self).key_map().len() + (if old(self).key_map().contains_key(k) { 0int } else { 1int }),
            final(self).key_map().dom().finite(),
    {
        broadcast use vstd::std_specs::hash::group_hash_axioms;
        let key = child.clone();
        let idx = dag_add_child(&mut self.graph, parent);
        self.keys.push(Some(child));
        self.data.push(Some(data));
        self.index.insert(key, idx);
        assert(cloned(child, key));
        assert forall|k: K| #[trigger] self.index@.contains_key(k) implies self.index@[k] < self.keys@.len() && self.index@[k]
            != self.root_idx && cloned(self.keys@[self.index@[k] as int]->0, k) by {
            if k != key {
                assert(old(self).index@.contains_key(k));
            }
        }
        assert forall|a: int, b: int, c: int|
            #![trigger dag_edges(self.graph).contains((a, b)), dag_edges(self.graph).contains((c, b))]
            dag_edges(self.graph).contains((a, b)) && dag_edges(self.graph).contains((c, b)) implies a == c by {
            if b != idx {
                assert(dag_edges(old(self).graph).contains((a, b)));
                assert(dag_edges(old(self).graph).contains((c, b)));
            } else {
                if (a, b) != (parent as int, idx as int) {
                    assert(dag_edges(old(self).graph).contains((a, b)));
                }
                if (c, b) != (parent as int, idx as int) {
                    assert(dag_edges(old(self).graph).contains((c, b)));
                }
            }
        }
        assert forall|a: int, b: int| #[trigger] dag_edges(self.graph).contains((a, b)) implies 0 <= a < self.keys@.len() && 0 <= b
            < self.keys@.len() && b != self.root_idx by {
            if (a, b) != (parent as int, idx as int) {
                assert(dag_edges(old(self).graph).contains((a, b)));
            }
        }
        assert forall|i: int| 0 <= i < self.keys@.len() && i != self.root_idx implies (#[trigger] self.keys@[i]) is Some
            && self.data@[i] is Some by {
            if i < idx {
                assert(old(self).keys@[i] is Some);
            }
        }
    }

    /// Inserts a new node for `child` with `data` as a child of the root node.
    pub fn insert(&mut self, child: K, data: V)
        requires
            old(self).wf(),
            old(self).has_room(),
            obeys_key_model::<K>(),
        ensures
            final(self).wf(),
            final(self).root() == old(self).root(),
            final(self).node_keys() == old(self).node_keys().push(Some(child)),
            final(self).node_data() == old(self).node_data().push(Some(data)),
            final(self).edges() == old(self).edges().insert((old(self).root(), old(self).node_keys().len() as int)),
            exists|k: K|
                #[trigger] cloned(child, k) && final(self).key_map() == old(self).key_map().insert(k, old(self).node_keys().len() as usize)
                    && final(self).key_map().len() == old(self).key_map().len() + (if old(self).key_map().contains_key(k) { 0int } else { 1int }),
            final(self).key_map().dom().finite(),
    {
        let idx = self.root_idx;
        self.insert_child_internal(idx, child, data)
    }

    /// Inserts a new node for `child` with `data` as a child of the node of `parent`; fails with
    /// `KeyNotFound`, and leaves the hierarchy as it was, where `parent` has no node.
    pub fn insert_child(&mut self, parent: &K, child: K, data: V) -> (r: Result<(), HierarchyError>)
        requires
            old(self).wf(),
            old(self).has_room(),
            obeys_key_model::<K>(),
        ensures
            final(self).wf(),
            final(self).root() == old(self).root(),
            r is Err <==> !old(self).key_map().contains_key(*parent),
            final(self).key_map().dom().finite(),
            r is Err ==> r == Err::<(), HierarchyError>(HierarchyError::KeyNotFound) && *final(self) == *old(self),
            r is Ok ==> {
                &&& final(self).node_keys() == old(self).node_keys().push(Some(child))
                &&& final(self).node_data() == old(self).node_data().push(Some(data))
                &&& final(self).edges() == old(self).edges().insert((old(self).key_map()[*parent] as int, old(self).node_keys().len() as int))
                &&& exists|k: K|
                    #[trigger] cloned(child, k) && final(self).key_map() == old(self).key_map().insert(k, old(self).node_keys().len() as usize)
                        && final(self).key_map().len() == old(self).key_map().len() + (if old(self).key_map().contains_key(k) { 0int } else { 1int })
            },
    {
        let parent_idx = match self.get_index(parent) {
            Ok(i) => i,
            Err(e) => {
                return Err(e);
            },
        };
        self.insert_child_internal(parent_idx, child, data);
        Ok(())
    }
}

/// Where `x` goes when node `i` of `n` nodes is removed, two nodes other than `i` go to
/// different places, and every place is below `n - 1`.
proof fn lemma_index_after_removal(x: int, y: int, i: int, n: int)
    requires
        0 <= i < n,
        0 <= x < n,
        0 <= y < n,
        x != i,
        y != i,
    ensures
        0 <= index_after_removal(x, i, n) < n - 1,
        index_after_removal(x, i, n) == index_after_removal(y, i, n) ==> x == y,
{
}

impl<K: Clone + Eq + Hash, V> Hierarchy<K, V> {
    /// Removing node `i` (not the root) from a hierarchy whose graph and nodes agree leaves a
    /// graph and nodes that agree, with the last node moved to index `i`.
    proof fn lemma_removal_keeps_graph_wf(old_h: Self, new_h: Self, i: int)
        requires
            old_h.graph_wf(),
            0 < i < old_h.keys@.len(),
            new_h.root_idx == old_h.root_idx,
            dag_node_count(new_h.graph) == dag_node_count(old_h.graph) - 1,
            dag_edges(new_h.graph) == edges_after_removal(dag_edges(old_h.graph), i, old_h.keys@.len() as int),
            new_h.keys@ == old_h.keys@.update(i, old_h.keys@.last()).drop_last(),
            new_h.data@ == old_h.data@.update(i, old_h.data@.last()).drop_last(),
        ensures
            new_h.graph_wf(),
    {
        let n = old_h.keys@.len() as int;
        let old_e = dag_edges(old_h.graph);
        let new_e = dag_edges(new_h.graph);
        assert forall|j: int| 0 <= j < n - 1 && j != new_h.root_idx implies (#[trigger] new_h.keys@[j]) is Some && new_h.data@[j] is Some by {
            if j == i {
                assert(old_h.keys@[n - 1] is Some);
            } else {
                assert(old_h.keys@[j] is Some);
            }
        }
        assert forall|a: int, b: int| #[trigger] new_e.contains((a, b)) implies 0 <= a < n - 1 && 0 <= b < n - 1 && b != new_h.root_idx by {
            let (x, y) = choose|x: int, y: int|
                #![trigger old_e.contains((x, y))]
                old_e.contains((x, y)) && x != i && y != i && (a, b) == (index_after_removal(x, i, n), index_after_removal(y, i, n));
            lemma_index_after_removal(x, y, i, n);
            lemma_index_after_removal(y, x, i, n);
        }
        assert forall|a: int, b: int, c: int|
            #![trigger new_e.contains((a, b)), new_e.contains((c, b))]
            new_e.contains((a, b)) && new_e.contains((c, b)) implies a == c by {
            let (x, y) = choose|x: int, y: int|
                #![trigger old_e.contains((x, y))]
                old_e.contains((x, y)) && x != i && y != i && (a, b) == (index_after_removal(x, i, n), index_after_removal(y, i, n));
            let (u, w) = choose|u: int, w: int|
                #![trigger old_e.contains((u, w))]
                old_e.contains((u, w)) && u != i && w != i && (c, b) == (index_after_removal(u, i, n), index_after_removal(w, i, n));
            lemma_index_after_removal(y, w, i, n);
            assert(old_e.contains((x, y)) && old_e.contains((u, y)));
        }
    }

    /// Fills the index anew from the keys of the nodes.
    fn rebuild_index_internal(&mut self)
        requires
            old(self).graph_wf(),
            obeys_key_model::<K>(),
        ensures
            final(self).wf(),
            final(self).keys@ == old(self).keys@,
            final(self).data@ == old(self).data@,
            final(self).graph == old(self).graph,
            final(self).root_idx == old(self).root_idx,
            forall|i: int|
                #![trigger final(self).keys@[i]]
                0 <= i < final(self).keys@.len() && i != final(self).root_idx ==> exists|k: K|
                    #[trigger] cloned(final(self).keys@[i]->0, k) && final(self).index@.contains_key(k),
    {
        broadcast use vstd::std_specs::hash::group_hash_axioms;
        self.index.clear();
        let mut i: usize = 0;
        while i < self.keys.len()
            invariant
                self.graph_wf(),
                self.keys@ == old(self).keys@,
                self.data@ == old(self).data@,
                self.graph == old(self).graph,
                self.root_idx == old(self).root_idx,
                obeys_key_model::<K>(),
                i <= self.keys@.len(),
                forall|k: K|
                    #[trigger] self.index@.contains_key(k) ==> self.index@[k] < i && self.index@[k] != self.root_idx
                        && cloned(self.keys@[self.index@[k] as int]->0, k),
                forall|j: int|
                    #![trigger self.keys@[j]]
                    0 <= j < i && j != self.root_idx ==> exists|k: K| #[trigger] cloned(self.keys@[j]->0, k) && self.index@.contains_key(k),
            decreases self.keys@.len() - i,
        {
            match &self.keys[i] {
                Some(k) => {
                    let kc = k.clone();
                    let ghost before = self.index@;
                    self.index.insert(kc, i);
                    assert(cloned(self.keys@[i as int]->0, kc));
                    assert forall|j: int| #![trigger self.keys@[j]] 0 <= j < i + 1 && j != self.root_idx implies exists|k2: K|
                        #[trigger] cloned(self.keys@[j]->0, k2) && self.index@.contains_key(k2) by {
                        if j < i {
                            let k2 = choose|k2: K| #[trigger] cloned(self.keys@[j]->0, k2) && before.contains_key(k2);
                            assert(self.index@.contains_key(k2));
                        } else {
                            assert(self.index@.contains_key(kc));
                        }
                    }
                },
                None => {
                    assert(i == self.root_idx) by {
                        if i != self.root_idx {
                            assert(self.keys@[i as int] is Some);
                        }
                    }
                },
            }
            i = i + 1;
        }
    }

    /// Where the key type's clone gives back an equal value, an index filled anew holds
    /// exactly the keys of the nodes.
    proof fn lemma_index_holds_node_keys(h: Self)
        requires
            h.wf(),
            clone_is_identity::<K>(),
            forall|i: int|
                #![trigger h.keys@[i]]
                0 <= i < h.keys@.len() && i != h.root_idx ==> exists|k: K| #[trigger] cloned(h.keys@[i]->0, k) && h.index@.contains_key(k),
        ensures
            h.key_map().dom() == keys_of_nodes(h.node_keys()),
    {
        assert forall|k: K| h.index@.dom().contains(k) implies #[trigger] keys_of_nodes(h.keys@).contains(k) by {
            let i = h.index@[k] as int;
            assert(cloned(h.keys@[i]->0, k));
            assert(h.keys@[i] is Some);
            assert(h.keys@[i] == Some(k));
        }
        assert forall|k: K| #[trigger] keys_of_nodes(h.keys@).contains(k) implies h.index@.dom().contains(k) by {
            let j = choose|j: int| 0 <= j < h.keys@.len() && #[trigger] h.keys@[j] == Some(k);
            assert(j != h.root_idx);
            let k2 = choose|k2: K| #[trigger] cloned(h.keys@[j]->0, k2) && h.index@.contains_key(k2);
            assert(k2 == k);
        }
        assert(h.index@.dom() =~= keys_of_nodes(h.keys@));
    }

    /// Fills the index anew from the keys of the nodes: each key leads to a node whose key it is
    /// a clone of, and each node's key has a clone in the index.
    pub fn rebuild_index(&mut self)
        requires
            old(self).wf(),
            obeys_key_model::<K>(),
        ensures
            final(self).wf(),
            final(self).key_map().dom().finite(),
            clone_is_identity::<K>() ==> final(self).key_map().dom() == keys_of_nodes(final(self).node_keys()),
            final(self).node_keys() == old(self).node_keys(),
            final(self).node_data() == old(self).node_data(),
            final(self).edges() == old(self).edges(),
            final(self).root() == old(self).root(),
            forall|k: K| #[trigger] final(self).key_map().contains_key(k) ==> cloned(final(self).node_keys()[final(self).key_map()[k] as int]->0, k),
            forall|i: int|
                #![trigger final(self).node_keys()[i]]
                0 <= i < final(self).node_keys().len() && i != final(self).root() ==> exists|k: K|
                    #[trigger] cloned(final(self).node_keys()[i]->0, k) && final(self).key_map().contains_key(k),
    {
        broadcast use vstd::std_specs::hash::group_hash_axioms;
        self.rebuild_index_internal();
        proof {
            if clone_is_identity::<K>() {
                Self::lemma_index_holds_node_keys(*self);
            }
        }
    }

    /// Deletes the node of `key`; its child nodes stay, without a parent. The last node takes
    /// the removed node's index, and the index is filled anew (`rebuild_index`). Fails with
    /// `KeyNotFound`, and leaves the hierarchy as it was, where `key` has no node.
    pub fn remove(&mut self, key: K) -> (r: Result<(), HierarchyError>)
        requires
            old(self).wf(),
            obeys_key_model::<K>(),
        ensures
            final(self).wf(),
            final(self).root() == old(self).root(),
            r is Err <==> !old(self).key_map().contains_key(key),
            r is Err ==> r == Err::<(), HierarchyError>(HierarchyError::KeyNotFound) && *final(self) == *old(self),
            final(self).key_map().dom().finite(),
            r is Ok && clone_is_identity::<K>() ==> final(self).key_map().dom() == keys_of_nodes(final(self).node_keys()),
            r is Ok ==> {
                let i = old(self).key_map()[key] as int;
                let n = old(self).node_keys().len() as int;
                &&& final(self).node_keys() == old(self).node_keys().update(i, old(self).node_keys().last()).drop_last()
                &&& final(self).node_data() == old(self).node_data().update(i, old(self).node_data().last()).drop_last()
                &&& final(self).edges() == edges_after_removal(old(self).edges(), i, n)
                &&& forall|k: K| #[trigger] final(self).key_map().contains_key(k) ==> cloned(final(self).node_keys()[final(self).key_map()[k] as int]->0, k)
                &&& forall|j: int|
                    #![trigger final(self).node_keys()[j]]
                    0 <= j < final(self).node_keys().len() && j != final(self).root() ==> exists|k: K|
                        #[trigger] cloned(final(self).node_keys()[j]->0, k) && final(self).key_map().contains_key(k)
            },
    {
        let node_idx = match self.get_index(&key) {
            Ok(i) => i,
            Err(e) => {
                return Err(e);
            },
        };
        let ghost old_h = *self;
        dag_remove_node(&mut self.graph, node_idx);
        self.keys.swap_remove(node_idx);
        self.data.swap_remove(node_idx);
        proof {
            Self::lemma_removal_keeps_graph_wf(old_h, *self, node_idx as int);
        }
        self.rebuild_index_internal();
        proof {
            if clone_is_identity::<K>() {
                Self::lemma_index_holds_node_keys(*self);
            }
        }
        Ok(())
    }
}

/// `order` is a breadth-first order of the nodes reached from `root` along `edges`: `root`
/// first, each node once, each later node reached by an edge from a node before it, and every
/// edge from a node in the order leads to a node in it.
#[verifier::opaque]
pub open spec fn is_walk_order(edges: Set<(int, int)>, root: int, order: Seq<usize>) -> bool {
    &&& order.len() > 0
    &&& order[0] == root
    &&& order.no_duplicates()
    &&& forall|k: int|
        #![trigger order[k]]
        0 < k < order.len() ==> exists|j: int| #![trigger order[j]] 0 <= j < k && edges.contains((order[j] as int, order[k] as int))
    &&& forall|a: int, b: int| #[trigger] edges.contains((a, b)) && order.contains(a as usize) ==> order.contains(b as usize)
}

/// `pc` is the parent's data that a node is updated with: a clone of the parent's data, or the
/// data type's default where the parent is the root, which has none.
pub open spec fn parent_value<V: Clone + Default>(parent_data: Option<V>, pc: V) -> bool {
    match parent_data {
        Some(pv) => cloned(pv, pc),
        None => call_ensures(V::default, (), pc),
    }
}

/// `out` is the data of a node after its update: what `merge_fn` returns for the node's key,
/// its data and its parent's data, or the node's data where it returns `None`.
pub open spec fn merged<K, V, F: Fn(&K, &V, &V) -> Option<V>>(merge_fn: F, key: K, value: V, parent: V, out: V) -> bool {
    exists|r: Option<V>|
        #[trigger] call_ensures(merge_fn, (&key, &value, &parent), r) && out == (match r {
            Some(d) => d,
            None => value,
        })
}

/// The data of node `i` after the update, in `new_data`, follows from its data before, in
/// `old_data`: a node with a parent is updated with its parent's new data, a node without one
/// keeps its data.
#[verifier::opaque]
pub open spec fn updated_node<K, V: Clone + Default, F: Fn(&K, &V, &V) -> Option<V>>(
    edges: Set<(int, int)>,
    keys: Seq<Option<K>>,
    old_data: Seq<Option<V>>,
    new_data: Seq<Option<V>>,
    merge_fn: F,
    i: int,
) -> bool {
    &&& forall|p: int|
        #[trigger] edges.contains((p, i)) ==> exists|pc: V, out: V|
            #[trigger] parent_value(new_data[p], pc) && #[trigger] merged(merge_fn, keys[i]->0, old_data[i]->0, pc, out)
                && new_data[i] == Some(out)
    &&& (forall|p: int| !#[trigger] edges.contains((p, i))) ==> new_data[i] == old_data[i]
}

/// Every edge into a node has the same source.
pub open spec fn unique_parents(edges: Set<(int, int)>) -> bool {
    forall|a: int, b: int, c: int|
        #![trigger edges.contains((a, b)), edges.contains((c, b))]
        edges.contains((a, b)) && edges.contains((c, b)) ==> a == c
}

/// In a walk order over a graph whose nodes have at most one parent each, the parent of the
/// node at a later position stands at an earlier position.
proof fn lemma_parent_comes_first(edges: Set<(int, int)>, root: int, order: Seq<usize>, y: int, p: int)
    requires
        is_walk_order(edges, root, order),
        unique_parents(edges),
        0 <= y < order.len(),
        edges.contains((p, order[y] as int)),
        forall|a: int| !#[trigger] edges.contains((a, root)),
    ensures
        exists|j: int| 0 <= j < y && order[j] == p,
{
    reveal(is_walk_order);
    if y == 0 {
        assert(edges.contains((p, root)));
    } else {
        let j = choose|j: int| #![trigger order[j]] 0 <= j < y && edges.contains((order[j] as int, order[y] as int));
        assert(edges.contains((order[j] as int, order[y] as int)) && edges.contains((p, order[y] as int)));
    }
}

/// Changing the data of the node at position `x` of the walk keeps the updates of the nodes at
/// earlier positions.
proof fn lemma_update_keeps_earlier<K, V: Clone + Default, F: Fn(&K, &V, &V) -> Option<V>>(
    edges: Set<(int, int)>,
    root: int,
    keys: Seq<Option<K>>,
    old_data: Seq<Option<V>>,
    before: Seq<Option<V>>,
    after: Seq<Option<V>>,
    merge_fn: F,
    order: Seq<usize>,
    x: int,
)
    requires
        is_walk_order(edges, root, order),
        unique_parents(edges),
        forall|a: int| !#[trigger] edges.contains((a, root)),
        0 <= x < order.len(),
        after.len() == before.len(),
        forall|j: int| 0 <= j < before.len() && j != order[x] ==> #[trigger] after[j] == before[j],
        forall|a: int, b: int| #[trigger] edges.contains((a, b)) ==> 0 <= a < before.len() && 0 <= b < before.len(),
        forall|k: int| 0 <= k < order.len() ==> #[trigger] order[k] < before.len(),
        forall|y: int| 0 <= y < x ==> #[trigger] updated_node(edges, keys, old_data, before, merge_fn, order[y] as int),
    ensures
        forall|y: int| 0 <= y < x ==> #[trigger] updated_node(edges, keys, old_data, after, merge_fn, order[y] as int),
{
    reveal(updated_node);
    reveal(is_walk_order);
    assert forall|y: int| 0 <= y < x implies #[trigger] updated_node(edges, keys, old_data, after, merge_fn, order[y] as int) by {
        let i = order[y] as int;
        assert(updated_node(edges, keys, old_data, before, merge_fn, i));
        assert(order[y] != order[x]);
        assert forall|p: int| #[trigger] edges.contains((p, i)) implies exists|pc: V, out: V|
            #[trigger] parent_value(after[p], pc) && #[trigger] merged(merge_fn, keys[i]->0, old_data[i]->0, pc, out)
                && after[i] == Some(out) by {
            lemma_parent_comes_first(edges, root, order, y, p);
            let j = choose|j: int| 0 <= j < y && order[j] == p;
            assert(order[j] != order[x]);
            assert(after[p] == before[p]);
        }
    }
}

/// The node at position `x` of the walk is updated, after the nodes before it: its parent's
/// data is already final, and its own is still the old one.
proof fn lemma_update_at<K, V: Clone + Default, F: Fn(&K, &V, &V) -> Option<V>>(
    edges: Set<(int, int)>,
    root: int,
    keys: Seq<Option<K>>,
    old_data: Seq<Option<V>>,
    before: Seq<Option<V>>,
    after: Seq<Option<V>>,
    merge_fn: F,
    order: Seq<usize>,
    x: int,
)
    requires
        is_walk_order(edges, root, order),
        unique_parents(edges),
        forall|a: int| !#[trigger] edges.contains((a, root)),
        0 <= x < order.len(),
        before[order[x] as int] == old_data[order[x] as int],
        forall|p: int| 0 <= p < before.len() && p != order[x] ==> #[trigger] after[p] == before[p],
        forall|p: int|
            #[trigger] edges.contains((p, order[x] as int)) ==> exists|pc: V, out: V|
                #[trigger] parent_value(before[p], pc) && #[trigger] merged(merge_fn, keys[order[x] as int]->0, before[order[x] as int]->0, pc, out)
                    && after[order[x] as int] == Some(out),
        (forall|p: int| !#[trigger] edges.contains((p, order[x] as int))) ==> after[order[x] as int] == before[order[x] as int],
        forall|a: int, b: int| #[trigger] edges.contains((a, b)) ==> 0 <= a < before.len() && 0 <= b < before.len(),
        forall|k: int| 0 <= k < order.len() ==> #[trigger] order[k] < before.len(),
    ensures
        updated_node(edges, keys, old_data, after, merge_fn, order[x] as int),
{
    reveal(updated_node);
    let i = order[x] as int;
    assert forall|p: int| #[trigger] edges.contains((p, i)) implies exists|pc: V, out: V|
        #[trigger] parent_value(after[p], pc) && #[trigger] merged(merge_fn, keys[i]->0, old_data[i]->0, pc, out)
            && after[i] == Some(out) by {
        lemma_parent_comes_first(edges, root, order, x, p);
        reveal(is_walk_order);
        let j = choose|j: int| 0 <= j < x && order[j] == p;
        assert(order[j] != order[x]);
        assert(after[p] == before[p]);
    }
}

/// The walk order has no node twice, so the position `x` holds a node that no earlier
/// position holds.
proof fn lemma_walk_fresh(edges: Set<(int, int)>, root: int, order: Seq<usize>, x: int)
    requires
        is_walk_order(edges, root, order),
        0 <= x < order.len(),
    ensures
        !order.subrange(0, x).contains(order[x]),
        order[0] == root,
{
    reveal(is_walk_order);
    if order.subrange(0, x).contains(order[x]) {
        let j = choose|j: int| 0 <= j < x && order.subrange(0, x)[j] == order[x];
        assert(order[j] == order[x]);
    }
}

impl<K: Clone + Eq + Hash, V: Clone + Default> Hierarchy<K, V> {
    /// Updates node `i` with its parent's data, where it has a parent.
    fn update_one<F: Fn(&K, &V, &V) -> Option<V>>(keys: &Vec<Option<K>>, graph: &NodeGraph, data: &mut Vec<Option<V>>, i: usize, root: usize, merge_fn: &F)
        requires
            i < keys@.len(),
            old(data)@.len() == keys@.len(),
            dag_node_count(*graph) == keys@.len(),
            i != root ==> keys@[i as int] is Some && old(data)@[i as int] is Some,
            forall|a: int| !#[trigger] dag_edges(*graph).contains((a, root as int)),
            forall|a: int, b: int| #[trigger] dag_edges(*graph).contains((a, b)) ==> 0 <= a < keys@.len() && 0 <= b < keys@.len(),
            unique_parents(dag_edges(*graph)),
            forall|k: &K, v: &V, p: &V| call_requires(*merge_fn, (k, v, p)),
        ensures
            final(data)@.len() == old(data)@.len(),
            forall|p: int| 0 <= p < old(data)@.len() && p != i ==> #[trigger] final(data)@[p] == old(data)@[p],
            forall|p: int|
                #[trigger] dag_edges(*graph).contains((p, i as int)) ==> exists|pc: V, out: V|
                    #[trigger] parent_value(old(data)@[p], pc) && #[trigger] merged(*merge_fn, keys@[i as int]->0, old(data)@[i as int]->0, pc, out)
                        && final(data)@[i as int] == Some(out),
            (forall|p: int| !#[trigger] dag_edges(*graph).contains((p, i as int))) ==> final(data)@[i as int] == old(data)@[i as int],
    {
        match dag_first_parent(graph, i) {
            Some(p) => {
                let pc: V = match &data[p] {
                    Some(pv) => pv.clone(),
                    None => V::default(),
                };
                assert(parent_value(old(data)@[p as int], pc));
                assert(i != root);
                match (&keys[i], &data[i]) {
                    (Some(k), Some(v)) => {
                        let r = merge_fn(k, v, &pc);
                        let ghost out = if r is Some {
                            r->0
                        } else {
                            old(data)@[i as int]->0
                        };
                        assert(merged(*merge_fn, keys@[i as int]->0, old(data)@[i as int]->0, pc, out));
                        match r {
                            Some(d) => {
                                data.set(i, Some(d));
                            },
                            None => {},
                        }
                        assert(data@[i as int] == Some(out));
                        assert forall|q: int| #[trigger] dag_edges(*graph).contains((q, i as int)) implies exists|pc2: V, out2: V|
                            #[trigger] parent_value(old(data)@[q], pc2) && #[trigger] merged(*merge_fn, keys@[i as int]->0, old(data)@[i as int]->0, pc2, out2)
                                && data@[i as int] == Some(out2) by {
                            assert(dag_edges(*graph).contains((q, i as int)) && dag_edges(*graph).contains((p as int, i as int)));
                        }
                    },
                    _ => {
                        assert(false);
                    },
                }
            },
            None => {},
        }
    }

    /// Updates each node in breadth-first order from the root. Given a parent node's data, the
    /// child node's data is replaced by what `merge_fn` returns for the child's key, its data
    /// and the parent's data, if it returns anything. Nodes not reached from the root keep
    /// their data.
    pub fn update<F: Fn(&K, &V, &V) -> Option<V>>(&mut self, merge_fn: &F)
        requires
            old(self).wf(),
            forall|k: &K, v: &V, p: &V| call_requires(*merge_fn, (k, v, p)),
        ensures
            final(self).wf(),
            final(self).key_map() == old(self).key_map(),
            final(self).node_keys() == old(self).node_keys(),
            final(self).edges() == old(self).edges(),
            final(self).root() == old(self).root(),
            final(self).node_data().len() == old(self).node_data().len(),
            exists|order: Seq<usize>|
                {
                    &&& #[trigger] is_walk_order(old(self).edges(), old(self).root(), order)
                    &&& forall|i: int|
                        0 <= i < old(self).node_data().len() && order.contains(i as usize) ==> #[trigger] updated_node(
                            old(self).edges(),
                            old(self).node_keys(),
                            old(self).node_data(),
                            final(self).node_data(),
                            *merge_fn,
                            i,
                        )
                    &&& forall|i: int|
                        0 <= i < old(self).node_data().len() && !order.contains(i as usize) ==> #[trigger] final(self).node_data()[i]
                            == old(self).node_data()[i]
                },
    {
        let order = dag_bfs(&self.graph, self.root_idx);
        assert(is_walk_order(dag_edges(self.graph), self.root_idx as int, order@)) by {
            reveal(is_walk_order);
        }
        let mut data: Vec<Option<V>> = Vec::new();
        std::mem::swap(&mut data, &mut self.data);
        proof {
            Self::lemma_graph_facts(*old(self));
        }
        Self::walk_update(&self.keys, &self.graph, &mut data, &order, self.root_idx, merge_fn);
        self.data = data;
        proof {
            Self::lemma_update_result(*old(self), *self, *merge_fn, order@);
            assert(is_walk_order(old(self).edges(), old(self).root(), order@));
        }
    }

    /// Updates the nodes in the walk order, each after its parent.
    fn walk_update<F: Fn(&K, &V, &V) -> Option<V>>(
        keys: &Vec<Option<K>>,
        graph: &NodeGraph,
        data: &mut Vec<Option<V>>,
        order: &Vec<usize>,
        root: usize,
        merge_fn: &F,
    )
        requires
            is_walk_order(dag_edges(*graph), root as int, order@),
            unique_parents(dag_edges(*graph)),
            forall|a: int| !#[trigger] dag_edges(*graph).contains((a, root as int)),
            forall|a: int, b: int| #[trigger] dag_edges(*graph).contains((a, b)) ==> 0 <= a < keys@.len() && 0 <= b < keys@.len(),
            forall|k: int| 0 <= k < order@.len() ==> #[trigger] order@[k] < keys@.len(),
            forall|i: int| 0 <= i < keys@.len() && i != root ==> (#[trigger] keys@[i]) is Some && old(data)@[i] is Some,
            dag_node_count(*graph) == keys@.len(),
            old(data)@.len() == keys@.len(),
            root < keys@.len(),
            forall|k: &K, v: &V, p: &V| call_requires(*merge_fn, (k, v, p)),
        ensures
            final(data)@.len() == old(data)@.len(),
            forall|y: int|
                0 <= y < order@.len() ==> #[trigger] updated_node(dag_edges(*graph), keys@, old(data)@, final(data)@, *merge_fn, order@[y] as int),
            forall|i: int|
                0 <= i < keys@.len() && !order@.subrange(0, order@.len() as int).contains(i as usize) ==> #[trigger] final(data)@[i] == old(data)@[i],
    {
        let ghost edges = dag_edges(*graph);
        let ghost n = keys@.len();
        let ghost root_i = root as int;
        let ghost old_data = data@;
        let mut x: usize = 0;
        while x < order.len()
            invariant
                is_walk_order(edges, root_i, order@),
                unique_parents(edges),
                edges == dag_edges(*graph),
                forall|a: int| !#[trigger] edges.contains((a, root_i)),
                forall|a: int, b: int| #[trigger] edges.contains((a, b)) ==> 0 <= a < n && 0 <= b < n,
                forall|k: int| 0 <= k < order@.len() ==> #[trigger] order@[k] < n,
                forall|i: int| 0 <= i < n && i != root_i ==> (#[trigger] keys@[i]) is Some && old_data[i] is Some,
                dag_node_count(*graph) == n,
                n == keys@.len(),
                data@.len() == n,
                root_i == root,
                0 <= root_i < n,
                old_data == old(data)@,
                forall|k: &K, v: &V, p: &V| call_requires(*merge_fn, (k, v, p)),
                x <= order@.len(),
                forall|y: int| 0 <= y < x ==> #[trigger] updated_node(edges, keys@, old_data, data@, *merge_fn, order@[y] as int),
                forall|i: int| 0 <= i < n && !order@.subrange(0, x as int).contains(i as usize) ==> #[trigger] data@[i] == old_data[i],
            decreases order@.len() - x,
        {
            let i = order[x];
            let ghost before = data@;
            proof {
                lemma_walk_fresh(edges, root_i, order@, x as int);
            }
            Self::update_one(keys, graph, data, i, root, merge_fn);
            proof {
                lemma_update_at(edges, root_i, keys@, old_data, before, data@, *merge_fn, order@, x as int);
                lemma_update_keeps_earlier(edges, root_i, keys@, old_data, before, data@, *merge_fn, order@, x as int);
                assert forall|y: int| 0 <= y < x + 1 implies #[trigger] updated_node(edges, keys@, old_data, data@, *merge_fn, order@[y] as int) by {}
                assert forall|i2: int| 0 <= i2 < n && !order@.subrange(0, x + 1).contains(i2 as usize) implies #[trigger] data@[i2] == old_data[i2] by {
                    assert(order@.subrange(0, x + 1)[x as int] == i);
                    if order@.subrange(0, x as int).contains(i2 as usize) {
                        let j = choose|j: int| 0 <= j < x && order@.subrange(0, x as int)[j] == i2 as usize;
                        assert(order@.subrange(0, x + 1)[j] == i2 as usize);
                    }
                }
            }
            x = x + 1;
        }
    }

    /// The facts of `graph_wf` that the update walks on.
    proof fn lemma_graph_facts(h: Self)
        requires
            h.graph_wf(),
        ensures
            unique_parents(dag_edges(h.graph)),
            forall|a: int| !#[trigger] dag_edges(h.graph).contains((a, h.root_idx as int)),
            forall|a: int, b: int| #[trigger] dag_edges(h.graph).contains((a, b)) ==> 0 <= a < h.keys@.len() && 0 <= b < h.keys@.len(),
            forall|i: int| 0 <= i < h.keys@.len() && i != h.root_idx ==> (#[trigger] h.keys@[i]) is Some && h.data@[i] is Some,
            dag_node_count(h.graph) == h.keys@.len(),
            h.data@.len() == h.keys@.len(),
            h.root_idx < h.keys@.len(),
    {
    }

    /// What the walk over all nodes left: the graph and index unchanged, and each node updated
    /// or, where not reached, unchanged.
    proof fn lemma_update_result<F: Fn(&K, &V, &V) -> Option<V>>(old_h: Self, new_h: Self, merge_fn: F, order: Seq<usize>)
        requires
            old_h.wf(),
            new_h.keys@ == old_h.keys@,
            new_h.graph == old_h.graph,
            new_h.index@ == old_h.index@,
            new_h.root_idx == old_h.root_idx,
            new_h.data@.len() == old_h.data@.len(),
            is_walk_order(dag_edges(old_h.graph), old_h.root_idx as int, order),
            forall|k: int| 0 <= k < order.len() ==> #[trigger] order[k] < old_h.keys@.len(),
            forall|y: int|
                0 <= y < order.len() ==> #[trigger] updated_node(dag_edges(old_h.graph), old_h.keys@, old_h.data@, new_h.data@, merge_fn, order[y] as int),
            forall|i: int|
                0 <= i < old_h.keys@.len() && !order.subrange(0, order.len() as int).contains(i as usize) ==> #[trigger] new_h.data@[i] == old_h.data@[i],
        ensures
            new_h.wf(),
            forall|i: int|
                0 <= i < old_h.data@.len() && order.contains(i as usize) ==> #[trigger] updated_node(
                    dag_edges(old_h.graph),
                    old_h.keys@,
                    old_h.data@,
                    new_h.data@,
                    merge_fn,
                    i,
                ),
            forall|i: int| 0 <= i < old_h.data@.len() && !order.contains(i as usize) ==> #[trigger] new_h.data@[i] == old_h.data@[i],
    {
        let n = old_h.keys@.len() as int;
        let edges = dag_edges(old_h.graph);
        let root = old_h.root_idx as int;
        assert(order.subrange(0, order.len() as int) =~= order);
        assert(old_h.data@.len() == n);
        assert forall|i: int| 0 <= i < old_h.data@.len() && order.contains(i as usize) implies #[trigger] updated_node(
            edges,
            old_h.keys@,
            old_h.data@,
            new_h.data@,
            merge_fn,
            i,
        ) by {
            let y = choose|y: int| 0 <= y < order.len() && order[y] == i as usize;
            assert(updated_node(edges, old_h.keys@, old_h.data@, new_h.data@, merge_fn, order[y] as int));
            assert(i < old_h.keys.len());
            assert(order[y] as int == i);
        }
        assert forall|i: int| 0 <= i < old_h.data@.len() && !order.contains(i as usize) implies #[trigger] new_h.data@[i] == old_h.data@[i] by {
            assert(!order.subrange(0, order.len() as int).contains(i as usize));
        }
        assert forall|i: int| 0 <= i < n && i != root implies (#[trigger] new_h.keys@[i]) is Some && new_h.data@[i] is Some by {
            assert(old_h.keys@[i] is Some);
            assert(old_h.data@[i] is Some);
            if order.contains(i as usize) {
                assert(updated_node(edges, old_h.keys@, old_h.data@, new_h.data@, merge_fn, i));
                reveal(updated_node);
                if exists|p: int| edges.contains((p, i)) {
                    let p = choose|p: int| edges.contains((p, i));
                    assert(edges.contains((p, i)));
                } else {
                    assert forall|p: int| !#[trigger] edges.contains((p, i)) by {}
                }
            } else {
                assert(new_h.data@[i] == old_h.data@[i]);
            }
        }
        assert(order.len() > 0) by {
            reveal(is_walk_order);
        }
        assert(new_h.data@[root] is None) by {
            lemma_walk_fresh(edges, root, order, 0);
            assert(updated_node(edges, old_h.keys@, old_h.data@, new_h.data@, merge_fn, order[0] as int));
            reveal(updated_node);
            assert forall|p: int| !#[trigger] edges.contains((p, root)) by {}
        }
        assert(new_h.graph_wf());
        assert(new_h.index_wf());
    }
}


impl<K: Clone + Eq + Hash, V> Hierarchy<K, V> {
    /// The pairs of key and data of all nodes but the root, in the order of the nodes, whatever
    /// their place in the hierarchy.
    pub fn iter(&self) -> (r: Vec<(&K, &V)>)
        requires
            self.wf(),
        ensures
            r@.len() == self.node_keys().len() - 1,
            forall|j: int|
                0 <= j < r@.len() ==> *(#[trigger] r@[j]).0 == self.node_keys()[j + 1]->0 && *r@[j].1 == self.node_data()[j + 1]->0,
    {
        let mut r: Vec<(&K, &V)> = Vec::new();
        let mut i: usize = 1;
        while i < self.keys.len()
            invariant
                self.wf(),
                1 <= i <= self.keys@.len(),
                r@.len() == i - 1,
                forall|j: int| 0 <= j < r@.len() ==> *(#[trigger] r@[j]).0 == self.keys@[j + 1]->0 && *r@[j].1 == self.data@[j + 1]->0,
            decreases self.keys@.len() - i,
        {
            assert(self.keys@[i as int] is Some && self.data@[i as int] is Some);
            match (&self.keys[i], &self.data[i]) {
                (Some(k), Some(v)) => {
                    r.push((k, v));
                },
                _ => {},
            }
            i = i + 1;
        }
        r
    }
}

/// The parts of a hierarchy fit together: a key and a datum for every node but the root, which
/// is the first node and has neither, and edges between nodes, each into a node other than the
/// root that no other edge leads into.
pub open spec fn parts_fit<K, V>(root_idx: usize, keys: Seq<Option<K>>, data: Seq<Option<V>>, edges: Seq<(usize, usize)>) -> bool {
    &&& root_idx == 0
    &&& 0 < keys.len() < u32::MAX
    &&& data.len() == keys.len()
    &&& edges.len() < u32::MAX
    &&& keys[0] is None
    &&& data[0] is None
    &&& forall|i: int| 0 < i < keys.len() ==> (#[trigger] keys[i]) is Some && data[i] is Some
    &&& forall|j: int| 0 <= j < edges.len() ==> (#[trigger] edges[j]).0 < keys.len() && 0 < edges[j].1 < keys.len()
    &&& forall|j: int, k: int| 0 <= j < k < edges.len() ==> (#[trigger] edges[j]).1 != (#[trigger] edges[k]).1
}

impl<K: Clone + Eq + Hash, V> Hierarchy<K, V> {
    /// The index of the root node.
    pub fn root_index(&self) -> (r: usize)
        ensures
            r == self.root(),
    {
        self.root_idx
    }

    /// The key and data of every node, by node index: `None` for the root node.
    pub fn node_entries(&self) -> (r: Vec<Option<(&K, &V)>>)
        requires
            self.wf(),
        ensures
            r@.len() == self.node_keys().len(),
            forall|i: int|
                0 <= i < r@.len() ==> match #[trigger] r@[i] {
                    Some((k, v)) => self.node_keys()[i] == Some(*k) && self.node_data()[i] == Some(*v),
                    None => self.node_keys()[i] is None,
                },
    {
        let mut r: Vec<Option<(&K, &V)>> = Vec::new();
        let mut i: usize = 0;
        while i < self.keys.len()
            invariant
                self.wf(),
                i <= self.keys@.len(),
                r@.len() == i,
                forall|j: int|
                    0 <= j < r@.len() ==> match #[trigger] r@[j] {
                        Some((k, v)) => self.keys@[j] == Some(*k) && self.data@[j] == Some(*v),
                        None => self.keys@[j] is None,
                    },
            decreases self.keys@.len() - i,
        {
            match (&self.keys[i], &self.data[i]) {
                (Some(k), Some(v)) => {
                    r.push(Some((k, v)));
                },
                _ => {
                    assert(i == self.root_idx) by {
                        if i != self.root_idx {
                            assert(self.keys@[i as int] is Some);
                        }
                    }
                    r.push(None);
                },
            }
            i = i + 1;
        }
        r
    }

    /// The parent-child edges, each as the pair of parent and child node indices.
    pub fn edge_list(&self) -> (r: Vec<(usize, usize)>)
        ensures
            forall|j: int| 0 <= j < r@.len() ==> self.edges().contains((#[trigger] r@[j].0 as int, r@[j].1 as int)),
            forall|a: int, b: int| #[trigger] self.edges().contains((a, b)) ==> exists|j: int| 0 <= j < r@.len() && (#[trigger] r@[j]).0 as int == a && r@[j].1 as int == b,
    {
        dag_edge_list(&self.graph)
    }

    /// Builds a hierarchy from its parts, the key and data of each node by node index and the
    /// parent-child edges, and fills its index (`rebuild_index`). Gives `None` where the parts
    /// do not fit together (`parts_fit`), or where `daggy` refuses an edge as closing a cycle;
    /// parts that fit and whose edges close no cycle always give a hierarchy.
    pub fn from_parts(root_idx: usize, keys: Vec<Option<K>>, data: Vec<Option<V>>, edges: Vec<(usize, usize)>) -> (r: Option<Self>)
        requires
            obeys_key_model::<K>(),
        ensures
            r is Some ==> parts_fit(root_idx, keys@, data@, edges@),
            parts_fit(root_idx, keys@, data@, edges@) && !has_cycle(edge_set(edges@)) ==> r is Some,
            r matches Some(h) ==> {
                &&& h.wf()
                &&& h.key_map().dom().finite()
                &&& clone_is_identity::<K>() ==> h.key_map().dom() == keys_of_nodes(h.node_keys())
                &&& h.root() == root_idx
                &&& h.node_keys() == keys@
                &&& h.node_data() == data@
                &&& forall|j: int| 0 <= j < edges@.len() ==> h.edges().contains((#[trigger] edges@[j].0 as int, edges@[j].1 as int))
                &&& forall|a: int, b: int| #[trigger] h.edges().contains((a, b)) ==> exists|j: int| 0 <= j < edges@.len() && (#[trigger] edges@[j]).0 as int == a && edges@[j].1 as int == b
                &&& forall|k: K| #[trigger] h.key_map().contains_key(k) ==> cloned(h.node_keys()[h.key_map()[k] as int]->0, k)
                &&& forall|i: int|
                    #![trigger h.node_keys()[i]]
                    0 <= i < h.node_keys().len() && i != h.root() ==> exists|k: K| #[trigger] cloned(h.node_keys()[i]->0, k) && h.key_map().contains_key(k)
            },
    {
        let n = keys.len();
        if root_idx != 0 || n == 0 || n >= 0xffff_ffff || data.len() != n || edges.len() >= 0xffff_ffff {
            return None;
        }
        let mut i: usize = 0;
        while i < n
            invariant
                n == keys@.len(),
                n == data@.len(),
                i <= n,
                forall|j: int| 0 <= j < i ==> (if j == 0 { keys@[j] is None && data@[j] is None } else { (#[trigger] keys@[j]) is Some && data@[j] is Some }),
            decreases n - i,
        {
            let fits = if i == 0 {
                keys[i].is_none() && data[i].is_none()
            } else {
                keys[i].is_some() && data[i].is_some()
            };
            if !fits {
                return None;
            }
            i = i + 1;
        }
        let mut graph = dag_new();
        let mut m: usize = 0;
        while m < n
            invariant
                n < u32::MAX,
                m <= n,
                dag_node_count(graph) == m,
                dag_edge_count(graph) == 0,
                dag_edges(graph) == Set::<(int, int)>::empty(),
            decreases n - m,
        {
            dag_add_node(&mut graph);
            m = m + 1;
        }
        let mut e: usize = 0;
        while e < edges.len()
            invariant
                n == keys@.len(),
                n < u32::MAX,
                edges@.len() < u32::MAX,
                e <= edges@.len(),
                dag_node_count(graph) == n,
                dag_edge_count(graph) <= e,
                forall|j: int| 0 <= j < e ==> (#[trigger] edges@[j]).0 < n && 0 < edges@[j].1 < n,
                forall|j: int, k: int| 0 <= j < k < e ==> (#[trigger] edges@[j]).1 != (#[trigger] edges@[k]).1,
                forall|j: int| 0 <= j < e ==> dag_edges(graph).contains((#[trigger] edges@[j].0 as int, edges@[j].1 as int)),
                forall|a: int, b: int| #[trigger] dag_edges(graph).contains((a, b)) ==> exists|j: int| 0 <= j < e && (#[trigger] edges@[j]).0 as int == a && edges@[j].1 as int == b,
            decreases edges@.len() - e,
        {
            let (a, b) = edges[e];
            if a >= n || b == 0 || b >= n {
                assert(edges@[e as int] == (a, b));
                return None;
            }
            let ghost g0 = dag_edges(graph);
            match dag_first_parent(&graph, b) {
                Some(p) => {
                    proof {
                        assert(edges@[e as int] == (a, b));
                        assert(g0.contains((p as int, b as int)));
                        let j = choose|j: int| 0 <= j < e && (#[trigger] edges@[j]).0 as int == p as int && edges@[j].1 as int == b as int;
                        assert(edges@[j].1 == edges@[e as int].1);
                    }
                    return None;
                },
                None => {},
            }
            if !dag_add_edge(&mut graph, a, b) {
                proof {
                    let ghost all = edge_set(edges@);
                    assert(edges@[e as int] == (a, b));
                    assert(all.contains((a as int, b as int)));
                    assert forall|x: (int, int)| g0.contains(x) implies all.contains(x) by {
                        assert(g0.contains((x.0, x.1)));
                        let j = choose|j: int| 0 <= j < e && (#[trigger] edges@[j]).0 as int == x.0 && edges@[j].1 as int == x.1;
                        assert(0 <= j < edges@.len());
                    }
                    lemma_edge_closes_cycle(g0, all, a as int, b as int);
                }
                return None;
            }
            proof {
                assert(edges@[e as int] == (a, b));
                assert forall|j: int, k: int| 0 <= j < k < e + 1 implies (#[trigger] edges@[j]).1 != (#[trigger] edges@[k]).1 by {
                    if k == e {
                        assert(g0.contains((edges@[j].0 as int, edges@[j].1 as int)));
                    }
                }
                assert forall|j: int| 0 <= j < e + 1 implies dag_edges(graph).contains((#[trigger] edges@[j].0 as int, edges@[j].1 as int)) by {
                    if j < e {
                        assert(g0.contains((edges@[j].0 as int, edges@[j].1 as int)));
                    }
                }
                assert forall|x: int, y: int| #[trigger] dag_edges(graph).contains((x, y)) implies exists|j: int| 0 <= j < e + 1 && (#[trigger] edges@[j]).0 as int == x && edges@[j].1 as int == y by {
                    if (x, y) != (a as int, b as int) {
                        assert(g0.contains((x, y)));
                        let j = choose|j: int| 0 <= j < e && (#[trigger] edges@[j]).0 as int == x && edges@[j].1 as int == y;
                        assert(0 <= j < e + 1);
                    } else {
                        assert(edges@[e as int].0 as int == x && edges@[e as int].1 as int == y);
                    }
                }
            }
            e = e + 1;
        }
        let mut h = Hierarchy { root_idx: 0, index: HashMap::new(), graph, keys, data };
        proof {
            let g = dag_edges(h.graph);
            assert forall|x: int, y: int| #[trigger] g.contains((x, y)) implies 0 <= x < n && 0 <= y < n && y != 0 by {
                let j = choose|j: int| 0 <= j < edges@.len() && (#[trigger] edges@[j]).0 as int == x && edges@[j].1 as int == y;
                assert(edges@[j].0 < n);
            }
            assert forall|x: int, y: int, z: int|
                #![trigger g.contains((x, y)), g.contains((z, y))]
                g.contains((x, y)) && g.contains((z, y)) implies x == z by {
                let j = choose|j: int| 0 <= j < edges@.len() && (#[trigger] edges@[j]).0 as int == x && edges@[j].1 as int == y;
                let k = choose|k: int| 0 <= k < edges@.len() && (#[trigger] edges@[k]).0 as int == z && edges@[k].1 as int == y;
                assert(edges@[j].0 < n && edges@[k].0 < n && edges@[j].1 < n);
                if j < k {
                    assert(edges@[j].1 != edges@[k].1);
                } else if k < j {
                    assert(edges@[k].1 != edges@[j].1);
                }
            }
            assert forall|i2: int| 0 <= i2 < n && i2 != h.root_idx implies (#[trigger] h.keys@[i2]) is Some && h.data@[i2] is Some by {
                assert(i2 != 0);
            }
            assert(h.keys@[0] is None);
            assert(h.graph_wf());
        }
        h.rebuild_index_internal();
        proof {
            if clone_is_identity::<K>() {
                Self::lemma_index_holds_node_keys(h);
            }
        }
        Some(h)
    }
}

} // verus!
