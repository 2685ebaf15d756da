use bubble_world::render::extraction::{extract_render_world, RenderBubble, RenderWorld};
use bubble_world::render::gpu_scene::GpuScene;
use bubble_world::render::gpu_texture::{encode_le_u16, encode_texel_row, TextureCapacity};
use bubble_world::render::gpu_types::{GpuBubble, COLOR_PRESSURE_FLOATS, INITIAL_BUBBLE_CAPACITY, POSITION_RADIUS_FLOATS};
use bubble_world::render::gpu_upload::build_gpu_scene;
use bubble_world::shared::{BubbleData, BubbleEdge, CreatureData, MembraneType, PlayerData, SeedData, SeedState};
use bubble_world::world::ClientWorld;

fn bits(v: f32) -> u32 {
    v.to_bits()
}

fn gpu_bubble(x: f32, color: [f32; 3]) -> GpuBubble {
    GpuBubble {
        x: bits(x),
        y: bits(2.0),
        radius: bits(3.0),
        light: bits(0.5),
        color: [bits(color[0]), bits(color[1]), bits(color[2]), bits(1.0)],
        pressure: bits(1.25),
    }
}

/// A stand-in conversion that halves each channel, so a test can tell
/// whether the bubble's color was converted.
fn halve_channels(c: [u32; 4]) -> [u32; 3] {
    [c[0], c[1], c[2]].map(|b| (f32::from_bits(b) / 2.0).to_bits())
}

#[test]
fn layout_constants() {
    assert_eq!(POSITION_RADIUS_FLOATS, 4);
    assert_eq!(COLOR_PRESSURE_FLOATS, 4);
    assert_eq!(INITIAL_BUBBLE_CAPACITY, 256);
}

#[test]
fn scene_packs_four_values_per_bubble() {
    let mut s = GpuScene::new();
    assert_eq!(s.bubble_count(), 0);
    s.reserve(8);
    s.push_bubble(gpu_bubble(1.0, [0.2, 0.4, 0.6]), halve_channels);
    s.push_bubble(gpu_bubble(7.0, [0.8, 1.0, 0.0]), halve_channels);
    assert_eq!(s.bubble_count(), 2);
    assert_eq!(
        s.position_radius_data(),
        &[bits(1.0), bits(2.0), bits(3.0), bits(0.5), bits(7.0), bits(2.0), bits(3.0), bits(0.5)]
    );
    assert_eq!(
        s.color_pressure_data(),
        &[bits(0.1), bits(0.2), bits(0.3), bits(1.25), bits(0.4), bits(0.5), bits(0.0), bits(1.25)]
    );
    s.reserve(100);
    assert_eq!(s.bubble_count(), 2);
    s.clear();
    assert_eq!(s.bubble_count(), 0);
    assert!(s.position_radius_data().is_empty());
    assert!(s.color_pressure_data().is_empty());
}

#[test]
fn new_texture_width_is_at_least_one() {
    let t = TextureCapacity::new(0);
    assert_eq!(t.capacity(), 0);
    assert_eq!(t.width(), 1);
    let t = TextureCapacity::new(256);
    assert_eq!((t.capacity(), t.width()), (256, 256));
}

#[test]
fn texture_keeps_its_size_when_it_suffices() {
    let mut t = TextureCapacity::new(256);
    assert_eq!(t.ensure_capacity(0), None);
    assert_eq!(t.ensure_capacity(256), None);
    assert_eq!((t.capacity(), t.width()), (256, 256));
}

#[test]
fn texture_grows_by_doubling_from_the_initial_capacity() {
    let mut t = TextureCapacity::new(0);
    assert_eq!(t.ensure_capacity(1), Some(256));
    assert_eq!((t.capacity(), t.width()), (256, 256));
    assert_eq!(t.ensure_capacity(257), Some(512));
    assert_eq!(t.ensure_capacity(1500), Some(2048));
    assert_eq!(t.ensure_capacity(2048), None);
    assert_eq!((t.capacity(), t.width()), (2048, 2048));
}

#[test]
fn texture_grows_by_doubling_its_own_capacity() {
    let mut t = TextureCapacity::new(300);
    assert_eq!(t.ensure_capacity(301), Some(600));
    assert_eq!(t.ensure_capacity(1201), Some(2400));
    let mut small = TextureCapacity::new(10);
    assert_eq!(small.ensure_capacity(11), Some(256));
}

#[test]
fn half_values_are_encoded_little_endian() {
    assert_eq!(encode_le_u16(&[]), Vec::<u8>::new());
    assert_eq!(encode_le_u16(&[0x3c00, 0x00ff, 0xabcd]), vec![0x00, 0x3c, 0xff, 0x00, 0xcd, 0xab]);
    let values = [0u16, 1, 255, 256, 0x7bff, 0xffff];
    let bytes = encode_le_u16(&values);
    for (i, v) in values.iter().enumerate() {
        assert_eq!(bytes[2 * i] as u16 + 256 * bytes[2 * i + 1] as u16, *v);
        assert_eq!(v.to_le_bytes(), [bytes[2 * i], bytes[2 * i + 1]]);
    }
}

fn world() -> ClientWorld {
    let mut w = ClientWorld::new();
    w.update_bubble(BubbleData::new(1, bits(1.0), bits(2.0), bits(30.0), bits(0.8), [bits(0.1), bits(0.2), bits(0.3)]));
    w.update_bubble(BubbleData::new(2, bits(-5.0), bits(4.0), bits(10.0), bits(0.2), [bits(0.9), bits(0.8), bits(0.7)]));
    w.update_player(PlayerData {
        id: 7,
        name: "p".to_string(),
        x: bits(3.0),
        y: bits(4.0),
        vx: bits(0.0),
        vy: bits(0.0),
        rotation: bits(1.5),
        current_light: bits(1.0),
        max_light: bits(1.0),
        carried_seed_id: None,
        attached_creatures: vec![],
    });
    w.update_creature(CreatureData {
        id: 9,
        x: bits(6.0),
        y: bits(7.0),
        vx: bits(0.0),
        vy: bits(2.0),
        segments: 4,
        color_bias: [bits(0.5), bits(0.6), bits(0.7)],
        attached_to_player: None,
        stamina: bits(1.0),
    });
    w
}

fn rotation(c: &CreatureData) -> u32 {
    f32::from_bits(c.vy).atan2(f32::from_bits(c.vx)).to_bits()
}

#[test]
fn extraction_copies_one_entry_per_entity() {
    let w = world();
    let r = extract_render_world(&w, rotation);
    assert_eq!(r.bubbles.len(), 2);
    let mut ids: Vec<u64> = r.bubbles.iter().map(|b| b.id).collect();
    ids.sort();
    assert_eq!(ids, vec![1, 2]);
    let b1 = r.bubbles.iter().find(|b| b.id == 1).unwrap();
    assert_eq!(b1.position, [bits(1.0), bits(2.0)]);
    assert_eq!(b1.radius, bits(30.0));
    assert_eq!(b1.light, bits(0.8));
    assert_eq!(b1.color, [bits(0.1), bits(0.2), bits(0.3), bits(1.0)]);
    assert_eq!(r.players.len(), 1);
    assert_eq!((r.players[0].id, r.players[0].position, r.players[0].rotation), (7, [bits(3.0), bits(4.0)], bits(1.5)));
    assert_eq!(r.creatures.len(), 1);
    let c = r.creatures[0];
    assert_eq!((c.id, c.position), (9, [bits(6.0), bits(7.0)]));
    assert_eq!(f32::from_bits(c.rotation), std::f32::consts::FRAC_PI_2);
    assert_eq!(c.color, [bits(0.5), bits(0.6), bits(0.7), bits(1.0)]);
}

#[test]
fn render_world_clear_empties_it() {
    let mut r = extract_render_world(&world(), rotation);
    r.clear();
    assert!(r.bubbles.is_empty() && r.players.is_empty() && r.creatures.is_empty());
    let d = RenderWorld::default();
    assert!(d.bubbles.is_empty() && d.players.is_empty() && d.creatures.is_empty());
}

fn fake_oklab(c: [u32; 4]) -> [u32; 3] {
    [c[2], c[1], c[0]]
}

#[test]
fn gpu_scene_is_built_from_the_render_world_in_order() {
    let mut r = RenderWorld::default();
    r.bubbles.push(RenderBubble { id: 1, position: [bits(1.0), bits(2.0)], radius: bits(3.0), light: bits(4.0), color: [bits(0.1), bits(0.2), bits(0.3), bits(1.0)] });
    r.bubbles.push(RenderBubble { id: 2, position: [bits(5.0), bits(6.0)], radius: bits(7.0), light: bits(8.0), color: [bits(0.4), bits(0.5), bits(0.6), bits(1.0)] });
    let mut s = GpuScene::new();
    s.push_bubble(gpu_bubble(100.0, [0.0, 0.0, 0.0]), halve_channels);
    build_gpu_scene(&r, &mut s, fake_oklab);
    assert_eq!(s.bubble_count(), 2);
    assert_eq!(
        s.position_radius_data(),
        &[bits(1.0), bits(2.0), bits(3.0), bits(4.0), bits(5.0), bits(6.0), bits(7.0), bits(8.0)]
    );
    assert_eq!(
        s.color_pressure_data(),
        &[bits(0.3), bits(0.2), bits(0.1), bits(1.0), bits(0.6), bits(0.5), bits(0.4), bits(1.0)]
    );
}

#[test]
fn texel_row_is_padded_with_zero_texels() {
    let row = encode_texel_row(&[0x3c00, 0x0001, 0x0203, 0xabcd, 0x1234], 3);
    assert_eq!(row.len(), 24);
    assert_eq!(&row[..10], &[0x00, 0x3c, 0x01, 0x00, 0x03, 0x02, 0xcd, 0xab, 0x34, 0x12]);
    assert!(row[10..].iter().all(|b| *b == 0));
    assert_eq!(encode_texel_row(&[], 1), vec![0u8; 8]);
    assert_eq!(encode_texel_row(&[1, 2, 3, 4], 1), encode_le_u16(&[1, 2, 3, 4]));
}

#[test]
fn texel_row_leaves_out_values_past_its_end() {
    assert_eq!(encode_texel_row(&[1, 2, 3, 4, 5], 1), encode_le_u16(&[1, 2, 3, 4]));
    assert_eq!(encode_texel_row(&[0xffff; 9], 2).len(), 16);
    assert_eq!(encode_texel_row(&[7, 8], 0), Vec::<u8>::new());
}

#[test]
fn texture_width_follows_capacity() {
    let mut t = TextureCapacity::new(1);
    assert_eq!(t.width(), 1);
    t.ensure_capacity(700);
    assert_eq!((t.capacity(), t.width()), (1024, 1024));
    assert!(t.width() as usize >= 700);
}

#[test]
fn extraction_ignores_edges_and_seeds() {
    let plain = world();
    let mut busy = world();
    busy.update_edge(BubbleEdge { id: 50, node_a: 1, node_b: 2, membrane: MembraneType::Open, rest_length: bits(3.0) });
    busy.update_seed(SeedData { id: 60, x: bits(0.0), y: bits(0.0), state: SeedState::Planted, required_op: None });
    let key = |r: &RenderWorld| {
        let mut b: Vec<_> = r.bubbles.iter().map(|b| (b.id, b.position, b.radius, b.light, b.color)).collect();
        b.sort();
        let mut p: Vec<_> = r.players.iter().map(|p| (p.id, p.position, p.rotation)).collect();
        p.sort();
        let mut c: Vec<_> = r.creatures.iter().map(|c| (c.id, c.position, c.rotation, c.color)).collect();
        c.sort();
        (b, p, c)
    };
    assert_eq!(key(&extract_render_world(&plain, rotation)), key(&extract_render_world(&busy, rotation)));
}

#[test]
fn growth_from_the_initial_capacity_stays_a_doubling_of_it() {
    let mut t = TextureCapacity::new(INITIAL_BUBBLE_CAPACITY);
    for required in [10usize, 257, 300, 1025, 5000, 5000, 70000] {
        t.ensure_capacity(required);
        let c = t.capacity();
        assert!(c >= required);
        assert_eq!(c % INITIAL_BUBBLE_CAPACITY, 0);
        assert!((c / INITIAL_BUBBLE_CAPACITY).is_power_of_two());
        assert_eq!(t.width() as usize, c);
    }
}
