use std::collections::HashMap;
use vstd::prelude::*;
use vstd::std_specs::iter::IteratorSpec;

use crate::shared::{BubbleData, BubbleEdge, F32Bits, MembraneType};

verus! {

broadcast use vstd::std_specs::hash::group_hash_axioms;

/// The bubble graph: the lit sanctuary world, as bubbles joined by edges.
///
/// Nodes and edges are keyed by id. Ids handed out by `generate_id` come
/// from one counter shared by nodes and edges.
#[derive(Clone, Debug)]
pub struct BubbleGraph {
    pub nodes: HashMap<u64, BubbleData>,
    pub edges: HashMap<u64, BubbleEdge>,
    pub(crate) next_id: u64,
}

impl BubbleGraph {
    /// The nodes, by id.
    pub open(crate) spec fn node_map(&self) -> Map<u64, BubbleData> {
        self.nodes@
    }

    /// The edges, by id.
    pub open(crate) spec fn edge_map(&self) -> Map<u64, BubbleEdge> {
        self.edges@
    }

    /// The id that the next call of `generate_id` hands out.
    pub open(crate) spec fn spec_next_id(&self) -> u64 {
        self.next_id
    }

    /// The graph's edges are sound: each is stored under its own id, both
    /// its ends are nodes of the graph, and its id is below the counter, so
    /// that no id the counter hands out later is already an edge's.
    pub open spec fn edges_linked(&self) -> bool {
        forall|k: u64| #[trigger]
            self.edge_map().contains_key(k) ==> {
                &&& self.edge_map()[k].id == k
                &&& self.node_map().contains_key(self.edge_map()[k].node_a)
                &&& self.node_map().contains_key(self.edge_map()[k].node_b)
                &&& k < self.spec_next_id()
            }
    }

    /// An empty graph whose first generated id is 1.
    pub fn new() -> (g: Self)
        ensures
            g.node_map() == Map::<u64, BubbleData>::empty(),
            g.edge_map() == Map::<u64, BubbleEdge>::empty(),
            g.spec_next_id() == 1,
            g.edges_linked(),
    {
        BubbleGraph { nodes: HashMap::new(), edges: HashMap::new(), next_id: 1 }
    }

    /// A graph made of the given parts.
    pub fn from_parts(nodes: HashMap<u64, BubbleData>, edges: HashMap<u64, BubbleEdge>, next_id: u64) -> (g: Self)
        ensures
            g.node_map() == nodes@,
            g.edge_map() == edges@,
            g.spec_next_id() == next_id,
    {
        BubbleGraph { nodes, edges, next_id }
    }

    /// The nodes, by id (the `nodes` field, for callers that reason about it).
    pub fn nodes(&self) -> (m: &HashMap<u64, BubbleData>)
        ensures
            m@ == self.node_map(),
    {
        &self.nodes
    }

    /// The edges, by id (the `edges` field, for callers that reason about it).
    pub fn edges(&self) -> (m: &HashMap<u64, BubbleEdge>)
        ensures
            m@ == self.edge_map(),
    {
        &self.edges
    }

    /// The id that the next call of `generate_id` hands out.
    pub fn next_id(&self) -> (id: u64)
        ensures
            id == self.spec_next_id(),
    {
        self.next_id
    }

    /// Hands out the counter's current value and advances it by one.
    pub fn generate_id(&mut self) -> (id: u64)
        requires
            old(self).spec_next_id() < u64::MAX,
        ensures
            id == old(self).spec_next_id(),
            final(self).spec_next_id() == old(self).spec_next_id() + 1,
            final(self).node_map() == old(self).node_map(),
            final(self).edge_map() == old(self).edge_map(),
            old(self).edges_linked() ==> final(self).edges_linked(),
    {
        let id = self.next_id;
        self.next_id = self.next_id + 1;
        id
    }

    /// Adds `node` under its own id, or under a freshly generated id when
    /// its id is 0 (the node's `id` is then set to that id). A node already
    /// stored under that id is replaced. Returns the id.
    pub fn add_node(&mut self, node: BubbleData) -> (id: u64)
        requires
            node.id == 0 ==> old(self).spec_next_id() < u64::MAX,
        ensures
            id == (if node.id == 0 { old(self).spec_next_id() } else { node.id }),
            final(self).spec_next_id() == (if node.id == 0 {
                old(self).spec_next_id() + 1
            } else {
                old(self).spec_next_id() as int
            }),
            final(self).node_map() == old(self).node_map().insert(id, BubbleData { id, ..node }),
            final(self).edge_map() == old(self).edge_map(),
            old(self).edges_linked() ==> final(self).edges_linked(),
    {
        let mut node = node;
        if node.id == 0 {
            node.id = self.generate_id();
        }
        let id = node.id;
        self.nodes.insert(id, node);
        id
    }

    /// Connects `node_a` and `node_b` by a new edge with the given membrane.
    ///
    /// An id is generated first, whether or not the edge can be made. When
    /// both nodes exist, the edge gets that id and the rest length that
    /// `rest_length` computes from the two nodes, in this order, and its id
    /// is returned; otherwise nothing else changes and `None` is returned.
    pub fn add_edge(
        &mut self,
        node_a: u64,
        node_b: u64,
        membrane: MembraneType,
        rest_length: impl Fn(&BubbleData, &BubbleData) -> F32Bits,
    ) -> (r: Option<u64>)
        requires
            old(self).spec_next_id() < u64::MAX,
            forall|a: &BubbleData, b: &BubbleData| #[trigger] rest_length.requires((a, b)),
        ensures
            final(self).spec_next_id() == old(self).spec_next_id() + 1,
            final(self).node_map() == old(self).node_map(),
            r is Some <==> old(self).node_map().contains_key(node_a) && old(self).node_map().contains_key(node_b),
            r is None ==> final(self).edge_map() == old(self).edge_map(),
            r matches Some(edge_id) ==> {
                let edge = final(self).edge_map()[edge_id];
                &&& edge_id == old(self).spec_next_id()
                &&& rest_length.ensures(
                    (&old(self).node_map()[node_a], &old(self).node_map()[node_b]),
                    edge.rest_length,
                )
                &&& final(self).edge_map() == old(self).edge_map().insert(
                    edge_id,
                    BubbleEdge { id: edge_id, node_a, node_b, membrane, rest_length: edge.rest_length },
                )
            },
            old(self).edges_linked() ==> {
                &&& final(self).edges_linked()
                // A new edge never replaces one: its id is not yet an edge's.
                &&& r matches Some(edge_id) ==> !old(self).edge_map().contains_key(edge_id)
                    && final(self).edge_map().len() == old(self).edge_map().len() + 1
            },
    {
        let edge_id = self.generate_id();
        let n1 = match self.nodes.get(&node_a) {
            Some(n) => n,
            None => return None,
        };
        let n2 = match self.nodes.get(&node_b) {
            Some(n) => n,
            None => return None,
        };
        let length = rest_length(n1, n2);
        let edge = BubbleEdge { id: edge_id, node_a, node_b, membrane, rest_length: length };
        self.edges.insert(edge_id, edge);
        Some(edge_id)
    }

    /// Whether some bubble is a safe, illuminated place for the point that
    /// `lit_and_inside` tests against: whether that test holds of some node.
    /// The test (light at least the threshold, point inside the bubble)
    /// is computed by the caller.
    pub fn is_in_safe_light(&self, lit_and_inside: impl Fn(&BubbleData) -> bool) -> (found: bool)
        requires
            forall|n: &BubbleData| #[trigger] lit_and_inside.requires((n,)),
        ensures
            found ==> exists|id: u64|
                #[trigger] self.node_map().contains_key(id) && lit_and_inside.ensures((&self.node_map()[id],), true),
            !found ==> forall|id: u64|
                #[trigger] self.node_map().contains_key(id) ==> lit_and_inside.ensures((&self.node_map()[id],), false),
    {
        let ghost nodes = self.nodes@;
        let ghost pairs = vstd::std_specs::hash::spec_hash_map_iter(&self.nodes).remaining();
        for (id, node) in it: self.nodes.iter()
            invariant
                it.seq() == pairs,
                pairs == vstd::std_specs::hash::spec_hash_map_iter(&self.nodes).remaining(),
                nodes == self.nodes@,
                forall|n: &BubbleData| #[trigger] lit_and_inside.requires((n,)),
                forall|j: int| 0 <= j < it.index() ==> lit_and_inside.ensures((&nodes[*#[trigger] pairs[j].0],), false),
        {
            let hit = lit_and_inside(node);
            if hit {
                assert(nodes.contains_key(*id) && nodes[*id] == *node);
                assert(lit_and_inside.ensures((&self.node_map()[*id],), true));
                return true;
            }
        }
        proof {
            assert forall|id: u64| #[trigger] nodes.contains_key(id) implies lit_and_inside.ensures((&nodes[id],), false) by {
                let j = pairs.index_of((&id, &nodes[id]));
                assert(*pairs[j].0 == id);
            }
        }
        false
    }
}

impl Default for BubbleGraph {
    /// An empty graph whose first generated id is 0.
    fn default() -> (g: Self)
        ensures
            g.node_map() == Map::<u64, BubbleData>::empty(),
            g.edge_map() == Map::<u64, BubbleEdge>::empty(),
            g.spec_next_id() == 0,
            g.edges_linked(),
    {
        BubbleGraph { nodes: HashMap::new(), edges: HashMap::new(), next_id: 0 }
    }
}

} // verus!
