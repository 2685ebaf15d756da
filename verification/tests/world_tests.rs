use bubble_world::graph::BubbleGraph;
use bubble_world::shared::{
    BubbleData, BubbleEdge, CreatureData, MathOp, MembraneType, PlayerData, SeedData, SeedState,
};
use bubble_world::world::ClientWorld;

fn bits(v: f32) -> u32 {
    v.to_bits()
}

fn bubble(id: u64, x: f32) -> BubbleData {
    BubbleData::new(id, bits(x), bits(0.0), bits(10.0), bits(1.0), [bits(1.0); 3])
}

fn edge(id: u64, a: u64, b: u64) -> BubbleEdge {
    BubbleEdge { id, node_a: a, node_b: b, membrane: MembraneType::Normal, rest_length: bits(20.0) }
}

fn player(id: u64, name: &str) -> PlayerData {
    PlayerData {
        id,
        name: name.to_string(),
        x: bits(1.0),
        y: bits(2.0),
        vx: bits(0.0),
        vy: bits(0.0),
        rotation: bits(0.5),
        current_light: bits(3.0),
        max_light: bits(5.0),
        carried_seed_id: None,
        attached_creatures: vec![4, 5],
    }
}

fn creature(id: u64, segments: usize) -> CreatureData {
    CreatureData {
        id,
        x: bits(1.0),
        y: bits(1.0),
        vx: bits(1.0),
        vy: bits(0.0),
        segments,
        color_bias: [bits(0.2); 3],
        attached_to_player: Some(1),
        stamina: bits(1.0),
    }
}

fn seed(id: u64, state: SeedState) -> SeedData {
    SeedData { id, x: bits(0.0), y: bits(0.0), state, required_op: Some(MathOp::Addition) }
}

#[test]
fn new_world_is_empty() {
    let mut w = ClientWorld::new();
    assert!(w.graph.nodes.is_empty());
    assert!(w.graph.edges.is_empty());
    assert!(w.players.is_empty() && w.creatures.is_empty() && w.seeds.is_empty());
    // the world's graph is the default one: ids start at 0
    assert_eq!(w.graph.generate_id(), 0);
}

#[test]
fn bubble_read_after_write_and_remove() {
    let mut w = ClientWorld::new();
    w.update_bubble(bubble(3, 1.0));
    assert_eq!(w.bubble(3).map(|b| f32::from_bits(b.x)), Some(1.0));
    w.update_bubble(bubble(3, 2.0));
    assert_eq!(w.bubble(3).map(|b| f32::from_bits(b.x)), Some(2.0));
    assert!(w.bubble(4).is_none());
    w.remove_bubble(3);
    assert!(w.bubble(3).is_none());
}

#[test]
fn removing_a_bubble_removes_its_edges_only() {
    let mut w = ClientWorld::new();
    for id in 1..=4 {
        w.update_bubble(bubble(id, id as f32));
    }
    w.update_edge(edge(10, 1, 2));
    w.update_edge(edge(11, 2, 3));
    w.update_edge(edge(12, 3, 4));
    w.update_edge(edge(13, 4, 2));
    w.remove_bubble(2);
    assert!(w.bubble(2).is_none());
    assert_eq!(w.graph.nodes.len(), 3);
    let mut left: Vec<u64> = w.graph.edges.keys().copied().collect();
    left.sort();
    assert_eq!(left, vec![12]);
    assert_eq!(w.graph.edges[&12].node_a, 3);
}

#[test]
fn removing_a_missing_bubble_still_prunes_dangling_edges() {
    let mut w = ClientWorld::new();
    w.update_edge(edge(10, 7, 8));
    w.update_edge(edge(11, 8, 9));
    w.remove_bubble(7);
    let left: Vec<u64> = w.graph.edges.keys().copied().collect();
    assert_eq!(left, vec![11]);
}

#[test]
fn edge_update_and_remove() {
    let mut w = ClientWorld::new();
    w.update_edge(edge(5, 1, 2));
    w.update_edge(edge(5, 1, 3));
    assert_eq!(w.graph.edges.len(), 1);
    assert_eq!(w.graph.edges[&5].node_b, 3);
    w.remove_edge(5);
    assert!(w.graph.edges.is_empty());
    w.remove_edge(5);
    assert!(w.graph.edges.is_empty());
}

#[test]
fn player_read_after_write_and_remove() {
    let mut w = ClientWorld::new();
    w.update_player(player(1, "ada"));
    w.update_player(player(2, "bob"));
    assert_eq!(w.player(1).map(|p| p.name.clone()), Some("ada".to_string()));
    w.update_player(player(1, "eve"));
    assert_eq!(w.player(1).map(|p| p.name.clone()), Some("eve".to_string()));
    w.remove_player(1);
    assert!(w.player(1).is_none());
    assert_eq!(w.player(2).map(|p| p.attached_creatures.clone()), Some(vec![4, 5]));
}

#[test]
fn creature_read_after_write_and_remove() {
    let mut w = ClientWorld::new();
    w.update_creature(creature(8, 3));
    assert_eq!(w.creature(8).map(|c| c.segments), Some(3));
    w.update_creature(creature(8, 5));
    assert_eq!(w.creature(8).map(|c| c.segments), Some(5));
    w.remove_creature(8);
    assert!(w.creature(8).is_none());
}

#[test]
fn seed_read_after_write_and_remove() {
    let mut w = ClientWorld::new();
    w.update_seed(seed(2, SeedState::Dormant));
    w.update_seed(seed(2, SeedState::CarriedByPlayer(9)));
    assert_eq!(w.seed(2).map(|s| s.state), Some(SeedState::CarriedByPlayer(9)));
    w.remove_seed(2);
    assert!(w.seed(2).is_none());
}

#[test]
fn load_world_keeps_the_last_of_repeated_ids() {
    let mut w = ClientWorld::new();
    w.update_player(player(99, "stale"));
    let mut g = BubbleGraph::new();
    g.add_node(bubble(0, 1.0));
    w.load_world(
        g,
        vec![player(1, "first"), player(2, "other"), player(1, "second")],
        vec![seed(5, SeedState::Planted), seed(5, SeedState::Awakening)],
        vec![creature(3, 1), creature(4, 2)],
    );
    assert_eq!(w.players.len(), 2);
    assert_eq!(w.player(1).map(|p| p.name.clone()), Some("second".to_string()));
    assert_eq!(w.player(2).map(|p| p.name.clone()), Some("other".to_string()));
    assert!(w.player(99).is_none());
    assert_eq!(w.seeds.len(), 1);
    assert_eq!(w.seed(5).map(|s| s.state), Some(SeedState::Awakening));
    assert_eq!(w.creatures.len(), 2);
    assert_eq!(w.graph.nodes.len(), 1);
    assert_eq!(w.graph.next_id(), 2);
}

#[test]
fn load_world_with_empty_lists_empties_the_maps() {
    let mut w = ClientWorld::new();
    w.update_seed(seed(1, SeedState::Dormant));
    w.load_world(BubbleGraph::new(), vec![], vec![], vec![]);
    assert!(w.seeds.is_empty() && w.players.is_empty() && w.creatures.is_empty());
}
