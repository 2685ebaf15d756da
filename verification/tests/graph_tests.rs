use bubble_world::graph::BubbleGraph;
use bubble_world::shared::{BubbleData, MathOp, MembraneType};

fn bubble(id: u64, x: f32, y: f32, radius: f32, light: f32) -> BubbleData {
    BubbleData::new(
        id,
        x.to_bits(),
        y.to_bits(),
        radius.to_bits(),
        light.to_bits(),
        [1.0f32.to_bits(), 0.5f32.to_bits(), 0.0f32.to_bits()],
    )
}

fn rest_length(a: &BubbleData, b: &BubbleData) -> u32 {
    let dx = f32::from_bits(a.x) - f32::from_bits(b.x);
    let dy = f32::from_bits(a.y) - f32::from_bits(b.y);
    let dist = (dx * dx + dy * dy).sqrt();
    dist.max(f32::from_bits(a.radius) + f32::from_bits(b.radius)).to_bits()
}

#[test]
fn new_graph_is_empty_and_counts_from_one() {
    let mut g = BubbleGraph::new();
    assert!(g.nodes.is_empty());
    assert!(g.edges.is_empty());
    assert_eq!(g.next_id(), 1);
    assert_eq!(g.generate_id(), 1);
    assert_eq!(g.generate_id(), 2);
    assert_eq!(g.next_id(), 3);
}

#[test]
fn default_graph_counts_from_zero() {
    let mut g = BubbleGraph::default();
    assert_eq!(g.next_id(), 0);
    assert_eq!(g.generate_id(), 0);
    assert_eq!(g.generate_id(), 1);
}

#[test]
fn bubble_new_sets_pressure_to_one() {
    let b = bubble(7, 1.5, -2.0, 30.0, 0.7);
    assert_eq!(f32::from_bits(b.pressure), 1.0);
    assert_eq!(b.id, 7);
    assert_eq!(b.position(), [1.5f32.to_bits(), (-2.0f32).to_bits()]);
}

#[test]
fn add_node_with_id_zero_gets_a_generated_id() {
    let mut g = BubbleGraph::new();
    let id = g.add_node(bubble(0, 0.0, 0.0, 10.0, 1.0));
    assert_eq!(id, 1);
    assert_eq!(g.nodes[&1].id, 1);
    assert_eq!(g.next_id(), 2);
    let id2 = g.add_node(bubble(0, 5.0, 0.0, 10.0, 1.0));
    assert_eq!(id2, 2);
}

#[test]
fn add_node_keeps_a_given_id_and_replaces() {
    let mut g = BubbleGraph::new();
    assert_eq!(g.add_node(bubble(42, 0.0, 0.0, 10.0, 1.0)), 42);
    assert_eq!(g.next_id(), 1);
    assert_eq!(g.add_node(bubble(42, 9.0, 0.0, 10.0, 1.0)), 42);
    assert_eq!(g.nodes.len(), 1);
    assert_eq!(f32::from_bits(g.nodes[&42].x), 9.0);
}

#[test]
fn add_edge_between_existing_nodes() {
    let mut g = BubbleGraph::new();
    let a = g.add_node(bubble(0, 0.0, 0.0, 10.0, 1.0));
    let b = g.add_node(bubble(0, 100.0, 0.0, 20.0, 1.0));
    let e = g.add_edge(a, b, MembraneType::Open, rest_length).unwrap();
    assert_eq!(e, 3);
    let edge = g.edges[&e];
    assert_eq!(edge.id, 3);
    assert_eq!(edge.node_a, a);
    assert_eq!(edge.node_b, b);
    assert_eq!(edge.membrane, MembraneType::Open);
    // distance 100 is larger than the radii's sum 30
    assert_eq!(f32::from_bits(edge.rest_length), 100.0);
    assert_eq!(g.next_id(), 4);
}

#[test]
fn add_edge_rest_length_at_least_the_radii() {
    let mut g = BubbleGraph::new();
    let a = g.add_node(bubble(0, 0.0, 0.0, 10.0, 1.0));
    let b = g.add_node(bubble(0, 3.0, 4.0, 20.0, 1.0));
    let e = g.add_edge(a, b, MembraneType::Normal, rest_length).unwrap();
    assert_eq!(f32::from_bits(g.edges[&e].rest_length), 30.0);
}

#[test]
fn add_edge_to_a_missing_node_fails_but_uses_an_id() {
    let mut g = BubbleGraph::new();
    let a = g.add_node(bubble(0, 0.0, 0.0, 10.0, 1.0));
    assert_eq!(g.add_edge(a, 99, MembraneType::Divided, rest_length), None);
    assert_eq!(g.add_edge(99, a, MembraneType::Divided, rest_length), None);
    assert!(g.edges.is_empty());
    assert_eq!(g.next_id(), 4);
    let b = g.add_node(bubble(0, 1.0, 0.0, 10.0, 1.0));
    assert_eq!(b, 4);
}

#[test]
fn safe_light_is_found_inside_a_lit_bubble() {
    let mut g = BubbleGraph::new();
    g.add_node(bubble(0, 0.0, 0.0, 10.0, 0.9));
    g.add_node(bubble(0, 100.0, 0.0, 10.0, 0.1));
    let test = |point: [f32; 2], threshold: f32| {
        move |n: &BubbleData| {
            let dx = f32::from_bits(n.x) - point[0];
            let dy = f32::from_bits(n.y) - point[1];
            f32::from_bits(n.light) >= threshold && (dx * dx + dy * dy).sqrt() <= f32::from_bits(n.radius)
        }
    };
    assert!(g.is_in_safe_light(test([1.0, 1.0], 0.5)));
    assert!(!g.is_in_safe_light(test([100.0, 0.0], 0.5)));
    assert!(g.is_in_safe_light(test([100.0, 0.0], 0.05)));
    assert!(!g.is_in_safe_light(test([50.0, 0.0], 0.0)));
    assert!(!BubbleGraph::new().is_in_safe_light(test([0.0, 0.0], 0.0)));
}

#[test]
fn from_parts_keeps_the_counter() {
    let g = BubbleGraph::from_parts(Default::default(), Default::default(), 17);
    assert_eq!(g.next_id(), 17);
}

#[test]
fn edges_keep_fresh_ids_and_existing_ends() {
    let mut g = BubbleGraph::new();
    let a = g.add_node(bubble(0, 0.0, 0.0, 10.0, 1.0));
    let b = g.add_node(bubble(0, 50.0, 0.0, 10.0, 1.0));
    let mut made = 0;
    for _ in 0..3 {
        if g.add_edge(a, b, MembraneType::Normal, rest_length).is_some() {
            made += 1;
        }
        assert_eq!(g.add_edge(a, 77, MembraneType::Normal, rest_length), None);
    }
    assert_eq!(g.edges.len(), made);
    for (k, e) in &g.edges {
        assert_eq!(e.id, *k);
        assert!(g.nodes.contains_key(&e.node_a) && g.nodes.contains_key(&e.node_b));
        assert!(*k < g.next_id());
    }
}

#[test]
fn default_colors_of_the_operations() {
    let rgb = |op: MathOp| op.default_color().map(f32::from_bits);
    assert_eq!(rgb(MathOp::Addition), [0.95, 0.90, 0.80]);
    assert_eq!(rgb(MathOp::Subtraction), [0.05, 0.10, 1.0]);
    assert_eq!(rgb(MathOp::Multiplication), [0.0, 1.0, 0.0]);
    assert_eq!(rgb(MathOp::Division), [1.00, 0.01, 0.05]);
    for op in [MathOp::Addition, MathOp::Subtraction, MathOp::Multiplication, MathOp::Division] {
        assert!(rgb(op).iter().all(|c| (0.0..=1.0).contains(c)));
    }
}

#[test]
fn accessors_show_the_fields() {
    let mut g = BubbleGraph::new();
    let a = g.add_node(bubble(0, 0.0, 0.0, 10.0, 1.0));
    g.add_edge(a, a, MembraneType::Normal, rest_length);
    assert_eq!(g.nodes().len(), 1);
    assert_eq!(g.edges().len(), 1);
    assert!(g.nodes().contains_key(&a));
}
