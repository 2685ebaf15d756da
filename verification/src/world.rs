use std::collections::HashMap;
use vstd::prelude::*;
use vstd::std_specs::iter::IteratorSpec;

use crate::graph::BubbleGraph;
use crate::shared::{BubbleData, BubbleEdge, CreatureData, HasId, PlayerData, SeedData};

verus! {

broadcast use vstd::std_specs::hash::group_hash_axioms;

/// The map that a list of entities gives when each is stored under its id
/// in list order: where ids repeat, the last entity with that id stays.
pub open spec fn index_by_id<T: HasId>(items: Seq<T>) -> Map<u64, T>
    decreases items.len(),
{
    if items.len() == 0 {
        Map::empty()
    } else {
        index_by_id(items.drop_last()).insert(items.last().spec_entity_id(), items.last())
    }
}

/// What a query by `id` finds in `m`.
pub open spec fn lookup<T>(m: Map<u64, T>, id: u64) -> Option<T> {
    if m.contains_key(id) {
        Some(m[id])
    } else {
        None
    }
}

/// The value that a query result refers to.
pub open spec fn deref_found<T>(r: Option<&T>) -> Option<T> {
    match r {
        Some(x) => Some(*x),
        None => None,
    }
}

/// The edges of `edges` that do not have `node` as an end.
pub open spec fn edges_not_touching(edges: Map<u64, BubbleEdge>, node: u64) -> Map<u64, BubbleEdge> {
    Map::new(|k: u64| edges.contains_key(k) && !edges[k].touches(node), |k: u64| edges[k])
}

/// Stores each item under its id; where ids repeat, the last item wins.
fn collect_by_id<T: HasId>(items: Vec<T>) -> (m: HashMap<u64, T>)
    ensures
        m@ == index_by_id(items@),
{
    // Walking the list from its end, the first item met for an id is the
    // last one in the list: it is kept and earlier ones are skipped.
    let ghost all = items@;
    let mut rest = items;
    let mut m: HashMap<u64, T> = HashMap::new();
    while rest.len() > 0
        invariant
            index_by_id(all) == index_by_id(rest@).union_prefer_right(m@),
        decreases rest.len(),
    {
        let ghost before = rest@;
        let item = rest.pop().unwrap();
        proof {
            assert(before.drop_last() == rest@);
        }
        let id = item.entity_id();
        if !m.contains_key(&id) {
            let ghost old_m = m@;
            m.insert(id, item);
            assert(index_by_id(before).union_prefer_right(old_m) =~= index_by_id(rest@).union_prefer_right(m@));
        } else {
            assert(index_by_id(before).union_prefer_right(m@) =~= index_by_id(rest@).union_prefer_right(m@));
        }
    }
    assert(index_by_id(rest@) =~= Map::<u64, T>::empty());
    assert(index_by_id(rest@).union_prefer_right(m@) =~= m@);
    m
}

/// A query by id finds exactly what was last stored under that id, and
/// storing under one id leaves what a query finds under every other id.
pub proof fn law_query_after_update<T>(m: Map<u64, T>, id: u64, value: T, other: u64)
    ensures
        lookup(m.insert(id, value), id) == Some(value),
        other != id ==> lookup(m.insert(id, value), other) == lookup(m, other),
{
}

/// After a removal a query by that id finds nothing, and what a query
/// finds under every other id stays as it was.
pub proof fn law_query_after_remove<T>(m: Map<u64, T>, id: u64, other: u64)
    ensures
        lookup(m.remove(id), id) is None,
        other != id ==> lookup(m.remove(id), other) == lookup(m, other),
{
}

/// Removing a bubble's edges leaves no edge that has the bubble as an end,
/// keeps every other edge as it was, and adds none.
pub proof fn law_removed_bubble_has_no_edges(edges: Map<u64, BubbleEdge>, node: u64, k: u64)
    ensures
        edges_not_touching(edges, node).contains_key(k) ==> edges.contains_key(k)
            && !edges_not_touching(edges, node)[k].touches(node)
            && edges_not_touching(edges, node)[k] == edges[k],
        edges.contains_key(k) && !edges[k].touches(node) ==> edges_not_touching(edges, node).contains_key(k),
{
}

/// Loading a list keeps exactly the ids that occur in it.
pub proof fn law_load_keeps_listed_ids<T: HasId>(items: Seq<T>, id: u64)
    ensures
        index_by_id(items).contains_key(id) <==> exists|i: int|
            0 <= i < items.len() && #[trigger] items[i].spec_entity_id() == id,
    decreases items.len(),
{
    if items.len() > 0 {
        let init = items.drop_last();
        law_load_keeps_listed_ids(init, id);
        if index_by_id(init).contains_key(id) {
            let i = choose|i: int| 0 <= i < init.len() && #[trigger] init[i].spec_entity_id() == id;
            assert(items[i] == init[i]);
        }
        if exists|i: int| 0 <= i < items.len() && #[trigger] items[i].spec_entity_id() == id {
            let i = choose|i: int| 0 <= i < items.len() && #[trigger] items[i].spec_entity_id() == id;
            if i < items.len() - 1 {
                assert(items[i] == init[i]);
            }
        }
    }
}

/// Loading a list keeps, under each id, the last entity in the list with
/// that id.
pub proof fn law_load_keeps_last_of_each_id<T: HasId>(items: Seq<T>, i: int)
    requires
        0 <= i < items.len(),
        forall|j: int| i < j < items.len() ==> #[trigger] items[j].spec_entity_id() != items[i].spec_entity_id(),
    ensures
        index_by_id(items).contains_key(items[i].spec_entity_id()),
        index_by_id(items)[items[i].spec_entity_id()] == items[i],
    decreases items.len(),
{
    let last = items.len() - 1;
    if i < last {
        let init = items.drop_last();
        assert(init[i] == items[i]);
        assert forall|j: int| i < j < init.len() implies #[trigger] init[j].spec_entity_id() != init[i].spec_entity_id() by {
            assert(init[j] == items[j]);
        }
        assert(items[last].spec_entity_id() != items[i].spec_entity_id());
        law_load_keeps_last_of_each_id(init, i);
    }
}

/// Local copy of the game world.
///
/// The server is authoritative: this copy is replaced by snapshots and
/// patched by update messages. Entities are kept in maps keyed by their ids.
#[derive(Debug)]
pub struct ClientWorld {
    pub graph: BubbleGraph,
    pub players: HashMap<u64, PlayerData>,
    pub creatures: HashMap<u64, CreatureData>,
    pub seeds: HashMap<u64, SeedData>,
}

impl ClientWorld {
    /// An empty world; its graph is the default graph, whose first
    /// generated id is 0.
    pub fn new() -> (w: Self)
        ensures
            w.graph.node_map() == Map::<u64, BubbleData>::empty(),
            w.graph.edge_map() == Map::<u64, BubbleEdge>::empty(),
            w.graph.spec_next_id() == 0,
            w.players@ == Map::<u64, PlayerData>::empty(),
            w.creatures@ == Map::<u64, CreatureData>::empty(),
            w.seeds@ == Map::<u64, SeedData>::empty(),
    {
        ClientWorld::default()
    }

    /// Replaces the whole state: the graph as given, and each list stored
    /// under the entities' ids (where an id repeats, the last one stays).
    pub fn load_world(
        &mut self,
        graph: BubbleGraph,
        players: Vec<PlayerData>,
        seeds: Vec<SeedData>,
        creatures: Vec<CreatureData>,
    )
        ensures
            final(self).graph == graph,
            final(self).players@ == index_by_id(players@),
            final(self).seeds@ == index_by_id(seeds@),
            final(self).creatures@ == index_by_id(creatures@),
    {
        self.graph = graph;
        self.players = collect_by_id(players);
        self.seeds = collect_by_id(seeds);
        self.creatures = collect_by_id(creatures);
    }

    /// Stores `bubble` under its id, replacing any bubble stored there.
    pub fn update_bubble(&mut self, bubble: BubbleData)
        ensures
            final(self).graph.node_map() == old(self).graph.node_map().insert(bubble.id, bubble),
            final(self).graph.edge_map() == old(self).graph.edge_map(),
            final(self).graph.spec_next_id() == old(self).graph.spec_next_id(),
            final(self).players == old(self).players,
            final(self).creatures == old(self).creatures,
            final(self).seeds == old(self).seeds,
            old(self).graph.edges_linked() ==> final(self).graph.edges_linked(),
    {
        self.graph.nodes.insert(bubble.id, bubble);
    }

    /// Removes the bubble with this id, and every edge that has it as an end.
    pub fn remove_bubble(&mut self, id: u64)
        ensures
            final(self).graph.node_map() == old(self).graph.node_map().remove(id),
            final(self).graph.edge_map() == edges_not_touching(old(self).graph.edge_map(), id),
            final(self).graph.spec_next_id() == old(self).graph.spec_next_id(),
            final(self).players == old(self).players,
            final(self).creatures == old(self).creatures,
            final(self).seeds == old(self).seeds,
            old(self).graph.edges_linked() ==> final(self).graph.edges_linked(),
    {
        self.graph.nodes.remove(&id);
        let kept = retain_edges_not_touching(&self.graph.edges, id);
        self.graph.edges = kept;
    }

    /// Stores `edge` under its id, replacing any edge stored there.
    pub fn update_edge(&mut self, edge: BubbleEdge)
        ensures
            final(self).graph.node_map() == old(self).graph.node_map(),
            final(self).graph.edge_map() == old(self).graph.edge_map().insert(edge.id, edge),
            final(self).graph.spec_next_id() == old(self).graph.spec_next_id(),
            final(self).players == old(self).players,
            final(self).creatures == old(self).creatures,
            final(self).seeds == old(self).seeds,
    {
        self.graph.edges.insert(edge.id, edge);
    }

    /// Removes the edge with this id.
    pub fn remove_edge(&mut self, id: u64)
        ensures
            final(self).graph.node_map() == old(self).graph.node_map(),
            final(self).graph.edge_map() == old(self).graph.edge_map().remove(id),
            final(self).graph.spec_next_id() == old(self).graph.spec_next_id(),
            final(self).players == old(self).players,
            final(self).creatures == old(self).creatures,
            final(self).seeds == old(self).seeds,
            old(self).graph.edges_linked() ==> final(self).graph.edges_linked(),
    {
        self.graph.edges.remove(&id);
    }

    /// Stores `player` under its id, replacing any player stored there.
    pub fn update_player(&mut self, player: PlayerData)
        ensures
            final(self).graph == old(self).graph,
            final(self).players@ == old(self).players@.insert(player.id, player),
            final(self).creatures == old(self).creatures,
            final(self).seeds == old(self).seeds,
    {
        self.players.insert(player.id, player);
    }

    /// Removes the player with this id.
    pub fn remove_player(&mut self, id: u64)
        ensures
            final(self).graph == old(self).graph,
            final(self).players@ == old(self).players@.remove(id),
            final(self).creatures == old(self).creatures,
            final(self).seeds == old(self).seeds,
    {
        self.players.remove(&id);
    }

    /// Stores `creature` under its id, replacing any creature stored there.
    pub fn update_creature(&mut self, creature: CreatureData)
        ensures
            final(self).graph == old(self).graph,
            final(self).players == old(self).players,
            final(self).creatures@ == old(self).creatures@.insert(creature.id, creature),
            final(self).seeds == old(self).seeds,
    {
        self.creatures.insert(creature.id, creature);
    }

    /// Removes the creature with this id.
    pub fn remove_creature(&mut self, id: u64)
        ensures
            final(self).graph == old(self).graph,
            final(self).players == old(self).players,
            final(self).creatures@ == old(self).creatures@.remove(id),
            final(self).seeds == old(self).seeds,
    {
        self.creatures.remove(&id);
    }

    /// Stores `seed` under its id, replacing any seed stored there.
    pub fn update_seed(&mut self, seed: SeedData)
        ensures
            final(self).graph == old(self).graph,
            final(self).players == old(self).players,
            final(self).creatures == old(self).creatures,
            final(self).seeds@ == old(self).seeds@.insert(seed.id, seed),
    {
        self.seeds.insert(seed.id, seed);
    }

    /// Removes the seed with this id.
    pub fn remove_seed(&mut self, id: u64)
        ensures
            final(self).graph == old(self).graph,
            final(self).players == old(self).players,
            final(self).creatures == old(self).creatures,
            final(self).seeds@ == old(self).seeds@.remove(id),
    {
        self.seeds.remove(&id);
    }

    /// The bubble stored under this id, if any.
    pub fn bubble(&self, id: u64) -> (r: Option<&BubbleData>)
        ensures
            deref_found(r) == lookup(self.graph.node_map(), id),
    {
        self.graph.nodes.get(&id)
    }

    /// The player stored under this id, if any.
    pub fn player(&self, id: u64) -> (r: Option<&PlayerData>)
        ensures
            deref_found(r) == lookup(self.players@, id),
    {
        self.players.get(&id)
    }

    /// The creature stored under this id, if any.
    pub fn creature(&self, id: u64) -> (r: Option<&CreatureData>)
        ensures
            deref_found(r) == lookup(self.creatures@, id),
    {
        self.creatures.get(&id)
    }

    /// The seed stored under this id, if any.
    pub fn seed(&self, id: u64) -> (r: Option<&SeedData>)
        ensures
            deref_found(r) == lookup(self.seeds@, id),
    {
        self.seeds.get(&id)
    }
}

impl Default for ClientWorld {
    /// An empty world whose graph is the default graph.
    fn default() -> (w: Self)
        ensures
            w.graph.node_map() == Map::<u64, BubbleData>::empty(),
            w.graph.edge_map() == Map::<u64, BubbleEdge>::empty(),
            w.graph.spec_next_id() == 0,
            w.players@ == Map::<u64, PlayerData>::empty(),
            w.creatures@ == Map::<u64, CreatureData>::empty(),
            w.seeds@ == Map::<u64, SeedData>::empty(),
    {
        ClientWorld {
            graph: BubbleGraph::default(),
            players: HashMap::new(),
            creatures: HashMap::new(),
            seeds: HashMap::new(),
        }
    }
}

/// The edges of `edges` that do not have `node` as an end.
fn retain_edges_not_touching(edges: &HashMap<u64, BubbleEdge>, node: u64) -> (kept: HashMap<u64, BubbleEdge>)
    ensures
        kept@ == edges_not_touching(edges@, node),
{
    let mut kept: HashMap<u64, BubbleEdge> = HashMap::new();
    let ghost all = edges@;
    let ghost pairs = vstd::std_specs::hash::spec_hash_map_iter(edges).remaining();
    for (k, e) in it: edges.iter()
        invariant
            edges@ == all,
            it.seq() == pairs,
            pairs == vstd::std_specs::hash::spec_hash_map_iter(edges).remaining(),
            forall|key: u64| #[trigger] kept@.contains_key(key) ==> all.contains_key(key) && !all[key].touches(node) && kept@[key] == all[key],
            forall|j: int| 0 <= j < it.index() && !all[*pairs[j].0].touches(node) ==> kept@.contains_key(*#[trigger] pairs[j].0),
    {
        if e.node_a != node && e.node_b != node {
            kept.insert(*k, *e);
        }
    }
    proof {
        assert forall|key: u64| #[trigger] all.contains_key(key) && !all[key].touches(node) implies kept@.contains_key(key) by {
            let j = pairs.index_of((&key, &all[key]));
            assert(pairs[j].0 == key);
        }
    }
    assert(kept@ =~= edges_not_touching(all, node));
    kept
}

} // verus!
