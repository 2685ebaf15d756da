use vstd::prelude::*;
use vstd::std_specs::iter::IteratorSpec;

use crate::shared::{BubbleData, CreatureData, F32Bits, ONE_F32_BITS, PlayerData};
use crate::world::ClientWorld;

verus! {

broadcast use vstd::std_specs::hash::group_hash_axioms;

/// GPU-independent representation of a bubble.
#[derive(Clone, Copy, Debug)]
pub struct RenderBubble {
    pub id: u64,
    /// `[x, y]`
    pub position: [F32Bits; 2],
    pub radius: F32Bits,
    pub light: F32Bits,
    /// RGBA color.
    pub color: [F32Bits; 4],
}

/// GPU-independent representation of a player.
#[derive(Clone, Copy, Debug)]
pub struct RenderPlayer {
    pub id: u64,
    /// `[x, y]`
    pub position: [F32Bits; 2],
    pub rotation: F32Bits,
}

/// GPU-independent representation of a creature.
#[derive(Clone, Copy, Debug)]
pub struct RenderCreature {
    pub id: u64,
    /// `[x, y]`
    pub position: [F32Bits; 2],
    pub rotation: F32Bits,
    /// RGBA color.
    pub color: [F32Bits; 4],
}

/// Everything that the renderer needs for one frame.
///
/// No gameplay information appears here.
#[derive(Debug)]
pub struct RenderWorld {
    pub bubbles: Vec<RenderBubble>,
    pub players: Vec<RenderPlayer>,
    pub creatures: Vec<RenderCreature>,
}

/// How a bubble is rendered: its position, radius and light, and its color
/// made opaque.
pub open spec fn render_bubble_of(b: BubbleData, r: RenderBubble) -> bool {
    &&& r.id == b.id
    &&& r.position@ == seq![b.x, b.y]
    &&& r.radius == b.radius
    &&& r.light == b.light
    &&& r.color@ == seq![b.color[0], b.color[1], b.color[2], ONE_F32_BITS]
}

/// How a player is rendered: its position and rotation.
pub open spec fn render_player_of(p: PlayerData, r: RenderPlayer) -> bool {
    &&& r.id == p.id
    &&& r.position@ == seq![p.x, p.y]
    &&& r.rotation == p.rotation
}

/// How a creature is rendered: its position, the given rotation, and its
/// color bias made opaque.
pub open spec fn render_creature_of(c: CreatureData, rotation: F32Bits, r: RenderCreature) -> bool {
    &&& r.id == c.id
    &&& r.position@ == seq![c.x, c.y]
    &&& r.rotation == rotation
    &&& r.color@ == seq![c.color_bias[0], c.color_bias[1], c.color_bias[2], ONE_F32_BITS]
}

/// The relation between a bubble and its render bubble.
pub open spec fn bubble_rendering() -> spec_fn(BubbleData, RenderBubble) -> bool {
    |b: BubbleData, r: RenderBubble| render_bubble_of(b, r)
}

/// The relation between a player and its render player.
pub open spec fn player_rendering() -> spec_fn(PlayerData, RenderPlayer) -> bool {
    |p: PlayerData, r: RenderPlayer| render_player_of(p, r)
}

/// The relation between a creature and its render creature, whose rotation
/// is one that `rotation` returns for the creature.
pub open spec fn creature_rendering<F: Fn(&CreatureData) -> F32Bits>(rotation: F) -> spec_fn(
    CreatureData,
    RenderCreature,
) -> bool {
    |c: CreatureData, r: RenderCreature| rotation.ensures((&c,), r.rotation) && render_creature_of(c, r.rotation, r)
}

/// `render` is what extraction gives for `world`: one render bubble per
/// bubble, one render player per player and one render creature per
/// creature, each list in some order.
pub open spec fn extracted<F: Fn(&CreatureData) -> F32Bits>(render: RenderWorld, world: ClientWorld, rotation: F) -> bool {
    &&& one_each(render.bubbles@, world.graph.node_map(), bubble_rendering())
    &&& one_each(render.players@, world.players@, player_rendering())
    &&& one_each(render.creatures@, world.creatures@, creature_rendering(rotation))
}

/// `keys` lists each key of `m` once, and `out[i]` is related by `rel` to
/// the entry of `m` under `keys[i]`.
pub open spec fn lists_by_keys<V, R>(keys: Seq<u64>, out: Seq<R>, m: Map<u64, V>, rel: spec_fn(V, R) -> bool) -> bool {
    &&& keys.len() == out.len()
    &&& keys.no_duplicates()
    &&& forall|k: u64| #[trigger] keys.contains(k) <==> m.contains_key(k)
    &&& forall|i: int| 0 <= i < out.len() ==> #[trigger] rel(m[keys[i]], out[i])
}

/// `out` holds one entry for each entry of `m`, in some order, and each
/// entry of `out` is related by `rel` to its entry of `m`.
pub open spec fn one_each<V, R>(out: Seq<R>, m: Map<u64, V>, rel: spec_fn(V, R) -> bool) -> bool {
    exists|keys: Seq<u64>| lists_by_keys(keys, out, m, rel)
}

impl Default for RenderWorld {
    /// An empty render world.
    fn default() -> (w: Self)
        ensures
            w.bubbles@ == Seq::<RenderBubble>::empty(),
            w.players@ == Seq::<RenderPlayer>::empty(),
            w.creatures@ == Seq::<RenderCreature>::empty(),
    {
        RenderWorld { bubbles: Vec::new(), players: Vec::new(), creatures: Vec::new() }
    }
}

impl RenderWorld {
    /// Empties the three lists.
    pub fn clear(&mut self)
        ensures
            final(self).bubbles@ == Seq::<RenderBubble>::empty(),
            final(self).players@ == Seq::<RenderPlayer>::empty(),
            final(self).creatures@ == Seq::<RenderCreature>::empty(),
    {
        self.bubbles.clear();
        self.players.clear();
        self.creatures.clear();
    }
}

/// Converts gameplay state into render state: one render bubble per bubble,
/// one render player per player and one render creature per creature, each
/// list in the order in which its map is walked. A creature's rotation is
/// what `creature_rotation` computes from it (the angle of its velocity).
///
/// This copies the data that the renderer needs and holds no rendering logic.
pub fn extract_render_world(
    world: &ClientWorld,
    creature_rotation: impl Fn(&CreatureData) -> F32Bits,
) -> (render: RenderWorld)
    requires
        forall|c: &CreatureData| #[trigger] creature_rotation.requires((c,)),
    ensures
        extracted(render, *world, creature_rotation),
{
    let mut render = RenderWorld::default();

    // Bubbles
    render.bubbles.reserve(world.graph.nodes.len());
    let ghost nodes = world.graph.node_map();
    let ghost pairs = vstd::std_specs::hash::spec_hash_map_iter(&world.graph.nodes).remaining();
    for (_id, bubble) in it: world.graph.nodes.iter()
        invariant
            it.seq() == pairs,
            pairs == vstd::std_specs::hash::spec_hash_map_iter(&world.graph.nodes).remaining(),
            nodes == world.graph.node_map(),
            render.bubbles@.len() == it.index(),
            render.players@.len() == 0,
            render.creatures@.len() == 0,
            forall|i: int| 0 <= i < it.index() ==> #[trigger] render_bubble_of(nodes[*pairs[i].0], render.bubbles@[i]),
    {
        render.bubbles.push(
            RenderBubble {
                id: bubble.id,
                position: [bubble.x, bubble.y],
                radius: bubble.radius,
                light: bubble.light,
                color: [bubble.color[0], bubble.color[1], bubble.color[2], ONE_F32_BITS],
            },
        );
    }
    proof {
        lemma_pairs_enumerate(pairs, nodes);
        let keys = pairs.map_values(|p: (&u64, &BubbleData)| *p.0);
        assert(forall|i: int| 0 <= i < render.bubbles@.len() ==> keys[i] == *pairs[i].0);
        assert(lists_by_keys(keys, render.bubbles@, nodes, |b: BubbleData, r: RenderBubble| render_bubble_of(b, r)));
        assert(one_each(render.bubbles@, nodes, |b: BubbleData, r: RenderBubble| render_bubble_of(b, r)));
    }

    // Players
    render.players.reserve(world.players.len());
    let ghost players = world.players@;
    let ghost pairs = vstd::std_specs::hash::spec_hash_map_iter(&world.players).remaining();
    for (_id, player) in it: world.players.iter()
        invariant
            it.seq() == pairs,
            pairs == vstd::std_specs::hash::spec_hash_map_iter(&world.players).remaining(),
            players == world.players@,
            render.players@.len() == it.index(),
            render.creatures@.len() == 0,
            forall|i: int| 0 <= i < it.index() ==> #[trigger] render_player_of(players[*pairs[i].0], render.players@[i]),
            one_each(render.bubbles@, world.graph.node_map(), |b: BubbleData, r: RenderBubble| render_bubble_of(b, r)),
    {
        render.players.push(RenderPlayer { id: player.id, position: [player.x, player.y], rotation: player.rotation });
    }
    proof {
        lemma_pairs_enumerate(pairs, players);
        let keys = pairs.map_values(|p: (&u64, &PlayerData)| *p.0);
        assert(forall|i: int| 0 <= i < render.players@.len() ==> keys[i] == *pairs[i].0);
        assert(lists_by_keys(keys, render.players@, players, |p: PlayerData, r: RenderPlayer| render_player_of(p, r)));
        assert(one_each(render.players@, players, |p: PlayerData, r: RenderPlayer| render_player_of(p, r)));
    }

    // Creatures
    render.creatures.reserve(world.creatures.len());
    let ghost creatures = world.creatures@;
    let ghost pairs = vstd::std_specs::hash::spec_hash_map_iter(&world.creatures).remaining();
    for (_id, creature) in it: world.creatures.iter()
        invariant
            it.seq() == pairs,
            pairs == vstd::std_specs::hash::spec_hash_map_iter(&world.creatures).remaining(),
            creatures == world.creatures@,
            forall|c: &CreatureData| #[trigger] creature_rotation.requires((c,)),
            render.creatures@.len() == it.index(),
            forall|i: int| 0 <= i < it.index() ==> {
                let c = #[trigger] creatures[*pairs[i].0];
                let r = render.creatures@[i];
                creature_rotation.ensures((&c,), r.rotation) && render_creature_of(c, r.rotation, r)
            },
            one_each(render.bubbles@, world.graph.node_map(), |b: BubbleData, r: RenderBubble| render_bubble_of(b, r)),
            one_each(render.players@, world.players@, |p: PlayerData, r: RenderPlayer| render_player_of(p, r)),
    {
        let rotation = creature_rotation(creature);
        render.creatures.push(
            RenderCreature {
                id: creature.id,
                position: [creature.x, creature.y],
                rotation,
                color: [creature.color_bias[0], creature.color_bias[1], creature.color_bias[2], ONE_F32_BITS],
            },
        );
    }
    proof {
        lemma_pairs_enumerate(pairs, creatures);
        let keys = pairs.map_values(|p: (&u64, &CreatureData)| *p.0);
        assert(forall|i: int| 0 <= i < render.creatures@.len() ==> keys[i] == *pairs[i].0);
        assert(lists_by_keys(
            keys,
            render.creatures@,
            creatures,
            |c: CreatureData, r: RenderCreature|
                creature_rotation.ensures((&c,), r.rotation) && render_creature_of(c, r.rotation, r),
        ));
        assert(one_each(
            render.creatures@,
            creatures,
            |c: CreatureData, r: RenderCreature|
                creature_rotation.ensures((&c,), r.rotation) && render_creature_of(c, r.rotation, r),
        ));
    }

    proof {
        assert(bubble_rendering() =~= |b: BubbleData, r: RenderBubble| render_bubble_of(b, r));
        assert(player_rendering() =~= |p: PlayerData, r: RenderPlayer| render_player_of(p, r));
        assert(creature_rendering(creature_rotation) =~= |c: CreatureData, r: RenderCreature|
            creature_rotation.ensures((&c,), r.rotation) && render_creature_of(c, r.rotation, r));
    }
    render
}

/// Edges and seeds never reach the render world: extracting two worlds
/// whose bubbles, players and creatures agree gives the same render
/// bubbles, players and creatures, each as often, differing at most in
/// order (the creatures so when the rotation depends on the creature alone).
pub proof fn law_extraction_reads_only_render_data<F: Fn(&CreatureData) -> F32Bits>(
    w1: ClientWorld,
    w2: ClientWorld,
    r1: RenderWorld,
    r2: RenderWorld,
    rotation: F,
)
    requires
        w1.graph.node_map() == w2.graph.node_map(),
        w1.players@ == w2.players@,
        w1.creatures@ == w2.creatures@,
        extracted(r1, w1, rotation),
        extracted(r2, w2, rotation),
    ensures
        r1.bubbles@.to_multiset() == r2.bubbles@.to_multiset(),
        r1.players@.to_multiset() == r2.players@.to_multiset(),
        (forall|c: CreatureData, a: F32Bits, b: F32Bits|
            #[trigger] rotation.ensures((&c,), a) && #[trigger] rotation.ensures((&c,), b) ==> a == b)
            ==> r1.creatures@.to_multiset() == r2.creatures@.to_multiset(),
{
    broadcast use vstd::array::group_array_axioms;

    assert forall|v: BubbleData, a: RenderBubble, b: RenderBubble|
        #[trigger] bubble_rendering()(v, a) && #[trigger] bubble_rendering()(v, b) implies a == b by {
        assert(a.position =~= b.position);
        assert(a.color =~= b.color);
    }
    lemma_one_each_same_entries(r1.bubbles@, r2.bubbles@, w1.graph.node_map(), bubble_rendering());
    assert forall|v: PlayerData, a: RenderPlayer, b: RenderPlayer|
        #[trigger] player_rendering()(v, a) && #[trigger] player_rendering()(v, b) implies a == b by {
        assert(a.position =~= b.position);
    }
    lemma_one_each_same_entries(r1.players@, r2.players@, w1.players@, player_rendering());
    if forall|c: CreatureData, a: F32Bits, b: F32Bits|
        #[trigger] rotation.ensures((&c,), a) && #[trigger] rotation.ensures((&c,), b) ==> a == b {
        assert forall|v: CreatureData, a: RenderCreature, b: RenderCreature|
            #[trigger] creature_rendering(rotation)(v, a) && #[trigger] creature_rendering(rotation)(v, b)
            implies a == b by {
            assert(a.position =~= b.position);
            assert(a.color =~= b.color);
            assert(a.rotation == b.rotation);
        }
        lemma_one_each_same_entries(r1.creatures@, r2.creatures@, w1.creatures@, creature_rendering(rotation));
    }
}

/// Two lists that each hold one entry per entry of `m`, under a relation
/// that fixes the entry for each map entry, hold the same entries, each as
/// often: they differ at most in order.
pub proof fn lemma_one_each_same_entries<V, R>(
    out1: Seq<R>,
    out2: Seq<R>,
    m: Map<u64, V>,
    rel: spec_fn(V, R) -> bool,
)
    requires
        one_each(out1, m, rel),
        one_each(out2, m, rel),
        forall|v: V, a: R, b: R| #[trigger] rel(v, a) && #[trigger] rel(v, b) ==> a == b,
    ensures
        out1.to_multiset() == out2.to_multiset(),
    decreases out1.len(),
{
    broadcast use vstd::seq_lib::group_to_multiset_ensures, vstd::multiset::group_multiset_axioms;

    let keys1 = choose|keys: Seq<u64>| lists_by_keys(keys, out1, m, rel);
    let keys2 = choose|keys: Seq<u64>| lists_by_keys(keys, out2, m, rel);
    if out1.len() == 0 {
        if out2.len() > 0 {
            assert(keys2.contains(keys2[0]));
            assert(keys1.contains(keys2[0]));
        }
        assert(out1 =~= Seq::<R>::empty());
        assert(out2 =~= Seq::<R>::empty());
    } else {
        let n = out1.len() - 1;
        let k = keys1[n];
        assert(keys1.contains(k));
        assert(keys2.contains(k));
        let j = keys2.index_of(k);
        assert(rel(m[keys1[n]], out1[n]));
        assert(rel(m[keys2[j]], out2[j]));
        assert(out1[n] == out2[j]);

        let rest = m.remove(k);
        let keys1r = keys1.drop_last();
        let out1r = out1.drop_last();
        let keys2r = keys2.remove(j);
        let out2r = out2.remove(j);
        assert forall|x: u64| #[trigger] keys1r.contains(x) <==> rest.contains_key(x) by {
            if keys1r.contains(x) {
                let i = choose|i: int| 0 <= i < keys1r.len() && keys1r[i] == x;
                assert(keys1[i] == x);
                assert(keys1.contains(x));
            }
            if rest.contains_key(x) {
                assert(keys1.contains(x));
                let i = choose|i: int| 0 <= i < keys1.len() && keys1[i] == x;
                assert(i != n);
                assert(keys1r[i] == x);
            }
        }
        assert forall|i: int| 0 <= i < out1r.len() implies #[trigger] rel(rest[keys1r[i]], out1r[i]) by {
            assert(keys1r[i] == keys1[i]);
            assert(keys1[i] != keys1[n]);
            assert(rel(m[keys1[i]], out1[i]));
        }
        assert(lists_by_keys(keys1r, out1r, rest, rel));
        assert forall|x: u64| #[trigger] keys2r.contains(x) <==> rest.contains_key(x) by {
            if keys2r.contains(x) {
                let i = choose|i: int| 0 <= i < keys2r.len() && keys2r[i] == x;
                if i < j {
                    assert(keys2[i] == x);
                    assert(keys2.contains(x));
                } else {
                    assert(keys2[i + 1] == x);
                    assert(keys2.contains(x));
                }
            }
            if rest.contains_key(x) {
                assert(keys2.contains(x));
                let i = choose|i: int| 0 <= i < keys2.len() && keys2[i] == x;
                assert(i != j);
                if i < j {
                    assert(keys2r[i] == x);
                } else {
                    assert(keys2r[i - 1] == x);
                }
            }
        }
        assert forall|i: int| 0 <= i < out2r.len() implies #[trigger] rel(rest[keys2r[i]], out2r[i]) by {
            let i0 = if i < j { i } else { i + 1 };
            assert(keys2r[i] == keys2[i0] && out2r[i] == out2[i0]);
            assert(keys2[i0] != keys2[j]);
            assert(rel(m[keys2[i0]], out2[i0]));
        }
        assert(keys2r.no_duplicates()) by {
            assert forall|a: int, b: int| 0 <= a < keys2r.len() && 0 <= b < keys2r.len() && a != b implies keys2r[a] != keys2r[b] by {
                let a0 = if a < j { a } else { a + 1 };
                let b0 = if b < j { b } else { b + 1 };
                assert(keys2r[a] == keys2[a0] && keys2r[b] == keys2[b0]);
            }
        }
        assert(lists_by_keys(keys2r, out2r, rest, rel));
        lemma_one_each_same_entries(out1r, out2r, rest, rel);
        assert(out1 =~= out1r.push(out1[n]));
        assert(out2.to_multiset().count(out2[j]) > 0);
        assert(out2.to_multiset() =~= out2r.to_multiset().insert(out2[j]));
    }
}

/// Extraction copies each bubble field for field: the render bubbles are
/// listed by the keys of the world's bubbles, each key once, and the render
/// bubble listed under a key has that bubble's id, position `[x, y]`, radius
/// and light, bit for bit (a light above `1.0` stays as it is), and its
/// color with an alpha of `1.0` (opaque).
pub proof fn law_render_bubbles_copy_the_bubbles<F: Fn(&CreatureData) -> F32Bits>(
    world: ClientWorld,
    render: RenderWorld,
    rotation: F,
)
    requires
        extracted(render, world, rotation),
    ensures
        exists|keys: Seq<u64>|
            #![trigger keys.to_set()]
            {
                &&& keys.len() == render.bubbles@.len()
                &&& keys.no_duplicates()
                &&& keys.to_set() == world.graph.node_map().dom()
                &&& forall|i: int|
                    #![trigger render.bubbles@[i]]
                    0 <= i < keys.len() ==> {
                        let b = world.graph.node_map()[keys[i]];
                        let r = render.bubbles@[i];
                        &&& r.id == b.id
                        &&& r.position[0] == b.x
                        &&& r.position[1] == b.y
                        &&& r.radius == b.radius
                        &&& r.light == b.light
                        &&& r.color[0] == b.color[0]
                        &&& r.color[1] == b.color[1]
                        &&& r.color[2] == b.color[2]
                        &&& r.color[3] == ONE_F32_BITS
                    }
            },
{
    let m = world.graph.node_map();
    let out = render.bubbles@;
    let keys = choose|keys: Seq<u64>| lists_by_keys(keys, out, m, bubble_rendering());
    keys.unique_seq_to_set();
    assert(keys.to_set() =~= m.dom());
    assert forall|i: int| #![trigger out[i]] 0 <= i < keys.len() implies {
        let b = m[keys[i]];
        let r = out[i];
        &&& r.id == b.id
        &&& r.position[0] == b.x
        &&& r.position[1] == b.y
        &&& r.radius == b.radius
        &&& r.light == b.light
        &&& r.color[0] == b.color[0]
        &&& r.color[1] == b.color[1]
        &&& r.color[2] == b.color[2]
        &&& r.color[3] == ONE_F32_BITS
    } by {
        assert(bubble_rendering()(m[keys[i]], out[i]));
        assert(out[i].position@[0] == m[keys[i]].x && out[i].position@[1] == m[keys[i]].y);
        assert(out[i].color@[3] == ONE_F32_BITS);
    }
}

/// Extraction copies each player: the render players are listed by the keys
/// of the world's players, each key once, and the render player listed under
/// a key has that player's id, position `[x, y]` and rotation, bit for bit
/// (a negative rotation stays negative).
pub proof fn law_render_players_copy_the_players<F: Fn(&CreatureData) -> F32Bits>(
    world: ClientWorld,
    render: RenderWorld,
    rotation: F,
)
    requires
        extracted(render, world, rotation),
    ensures
        exists|keys: Seq<u64>|
            #![trigger keys.to_set()]
            {
                &&& keys.len() == render.players@.len()
                &&& keys.no_duplicates()
                &&& keys.to_set() == world.players@.dom()
                &&& forall|i: int|
                    #![trigger render.players@[i]]
                    0 <= i < keys.len() ==> {
                        let p = world.players@[keys[i]];
                        let r = render.players@[i];
                        &&& r.id == p.id
                        &&& r.position[0] == p.x
                        &&& r.position[1] == p.y
                        &&& r.rotation == p.rotation
                    }
            },
{
    let m = world.players@;
    let out = render.players@;
    let keys = choose|keys: Seq<u64>| lists_by_keys(keys, out, m, player_rendering());
    keys.unique_seq_to_set();
    assert(keys.to_set() =~= m.dom());
    assert forall|i: int| #![trigger out[i]] 0 <= i < keys.len() implies {
        let p = m[keys[i]];
        let r = out[i];
        &&& r.id == p.id
        &&& r.position[0] == p.x
        &&& r.position[1] == p.y
        &&& r.rotation == p.rotation
    } by {
        assert(player_rendering()(m[keys[i]], out[i]));
        assert(out[i].position@[0] == m[keys[i]].x && out[i].position@[1] == m[keys[i]].y);
    }
}

/// Extraction copies each creature: the render creatures are listed by the
/// keys of the world's creatures, each key once, and the render creature
/// listed under a key has that creature's id and position `[x, y]`, a
/// rotation that `rotation` gives for that creature, and its color bias with
/// an alpha of `1.0` (opaque), whatever else the creature holds (whether it
/// is attached to a player or not).
pub proof fn law_render_creatures_copy_the_creatures<F: Fn(&CreatureData) -> F32Bits>(
    world: ClientWorld,
    render: RenderWorld,
    rotation: F,
)
    requires
        extracted(render, world, rotation),
    ensures
        exists|keys: Seq<u64>|
            #![trigger keys.to_set()]
            {
                &&& keys.len() == render.creatures@.len()
                &&& keys.no_duplicates()
                &&& keys.to_set() == world.creatures@.dom()
                &&& forall|i: int|
                    #![trigger render.creatures@[i]]
                    0 <= i < keys.len() ==> {
                        let c = world.creatures@[keys[i]];
                        let r = render.creatures@[i];
                        &&& r.id == c.id
                        &&& r.position[0] == c.x
                        &&& r.position[1] == c.y
                        &&& rotation.ensures((&c,), r.rotation)
                        &&& r.color[0] == c.color_bias[0]
                        &&& r.color[1] == c.color_bias[1]
                        &&& r.color[2] == c.color_bias[2]
                        &&& r.color[3] == ONE_F32_BITS
                    }
            },
{
    let m = world.creatures@;
    let out = render.creatures@;
    let keys = choose|keys: Seq<u64>| lists_by_keys(keys, out, m, creature_rendering(rotation));
    keys.unique_seq_to_set();
    assert(keys.to_set() =~= m.dom());
    assert forall|i: int| #![trigger out[i]] 0 <= i < keys.len() implies {
        let c = m[keys[i]];
        let r = out[i];
        &&& r.id == c.id
        &&& r.position[0] == c.x
        &&& r.position[1] == c.y
        &&& rotation.ensures((&c,), r.rotation)
        &&& r.color[0] == c.color_bias[0]
        &&& r.color[1] == c.color_bias[1]
        &&& r.color[2] == c.color_bias[2]
        &&& r.color[3] == ONE_F32_BITS
    } by {
        assert(creature_rendering(rotation)(m[keys[i]], out[i]));
        assert(out[i].position@[0] == m[keys[i]].x && out[i].position@[1] == m[keys[i]].y);
        assert(out[i].color@[3] == ONE_F32_BITS);
    }
}

/// The keys of a walk over a map's entries are the map's keys, each once.
proof fn lemma_pairs_enumerate<V>(pairs: Seq<(&u64, &V)>, m: Map<u64, V>)
    requires
        pairs.no_duplicates(),
        pairs.len() == m.dom().len(),
        m.dom().finite(),
        forall|i: int| 0 <= i < pairs.len() ==> m.contains_key(*#[trigger] pairs[i].0) && m[*pairs[i].0] == *pairs[i].1,
        forall|k: u64| #[trigger] m.contains_key(k) ==> pairs.contains((&k, &m[k])),
    ensures
        ({
            let keys = pairs.map_values(|p: (&u64, &V)| *p.0);
            &&& keys.len() == pairs.len()
            &&& keys.no_duplicates()
            &&& forall|k: u64| #[trigger] keys.contains(k) <==> m.contains_key(k)
        }),
{
    let keys = pairs.map_values(|p: (&u64, &V)| *p.0);
    assert forall|i: int, j: int| 0 <= i < keys.len() && 0 <= j < keys.len() && i != j implies keys[i] != keys[j] by {
        if keys[i] == keys[j] {
            assert(pairs[i] == pairs[j]);
        }
    }
    assert forall|k: u64| #[trigger] keys.contains(k) <==> m.contains_key(k) by {
        if m.contains_key(k) {
            let i = pairs.index_of((&k, &m[k]));
            assert(keys[i] == k);
        }
        if keys.contains(k) {
            let i = choose|i: int| 0 <= i < keys.len() && keys[i] == k;
            assert(keys[i] == *pairs[i].0);
        }
    }
}

} // verus!
