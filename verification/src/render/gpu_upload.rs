use vstd::prelude::*;

use crate::render::extraction::{RenderBubble, RenderWorld};
use crate::render::gpu_scene::GpuScene;
use crate::render::gpu_types::GpuBubble;
use crate::shared::{F32Bits, ONE_F32_BITS};

verus! {

/// The four position-texture values of a render bubble: x, y, radius, light.
pub open spec fn position_texel(b: RenderBubble) -> Seq<F32Bits> {
    seq![b.position[0], b.position[1], b.radius, b.light]
}

/// `values` holds, for each bubble of `bubbles` in order, its four position
/// values.
pub open spec fn packs_positions(values: Seq<F32Bits>, bubbles: Seq<RenderBubble>) -> bool {
    &&& values.len() == 4 * bubbles.len()
    &&& forall|i: int| 0 <= i < bubbles.len() ==> #[trigger] values.subrange(4 * i, 4 * i + 4) == position_texel(bubbles[i])
}

/// Packing copies positions bit for bit: for each bubble `i`, the values at
/// `4 * i` to `4 * i + 3` are exactly its `x`, `y`, radius and light,
/// whatever their sign (a negative coordinate stays negative).
pub proof fn law_positions_are_copied_bit_for_bit(values: Seq<F32Bits>, bubbles: Seq<RenderBubble>)
    requires
        packs_positions(values, bubbles),
    ensures
        values.len() == 4 * bubbles.len(),
        forall|i: int|
            #![trigger bubbles[i]]
            0 <= i < bubbles.len() ==> {
                &&& values[4 * i] == bubbles[i].position[0]
                &&& values[4 * i + 1] == bubbles[i].position[1]
                &&& values[4 * i + 2] == bubbles[i].radius
                &&& values[4 * i + 3] == bubbles[i].light
            },
{
    assert forall|i: int| #![trigger bubbles[i]] 0 <= i < bubbles.len() implies {
        &&& values[4 * i] == bubbles[i].position[0]
        &&& values[4 * i + 1] == bubbles[i].position[1]
        &&& values[4 * i + 2] == bubbles[i].radius
        &&& values[4 * i + 3] == bubbles[i].light
    } by {
        let t = values.subrange(4 * i, 4 * i + 4);
        assert(t == position_texel(bubbles[i]));
        assert(t[0] == values[4 * i] && t[1] == values[4 * i + 1]);
        assert(t[2] == values[4 * i + 2] && t[3] == values[4 * i + 3]);
    }
}

/// `values` holds, for each bubble of `bubbles` in order, the Oklab form of
/// its color as `to_oklab` computes it, followed by a pressure of `1.0`.
pub open spec fn packs_colors(
    values: Seq<F32Bits>,
    bubbles: Seq<RenderBubble>,
    to_oklab: impl Fn([F32Bits; 4]) -> [F32Bits; 3],
) -> bool {
    &&& values.len() == 4 * bubbles.len()
    &&& forall|i: int|
        0 <= i < bubbles.len() ==> {
            &&& exists|lab: [F32Bits; 3]| #[trigger]
                to_oklab.ensures((bubbles[i].color,), lab) && lab@ == values.subrange(4 * i, 4 * i + 3)
            &&& #[trigger] values[4 * i + 3] == ONE_F32_BITS
        }
}

/// Converts the renderer-independent render world into GPU upload buffers:
/// the scene is emptied, then each render bubble is pushed in order, with a
/// pressure of `1.0` and its color converted by `to_oklab`.
///
/// This packs CPU-side data into GPU-friendly layouts and holds no
/// rendering code.
pub fn build_gpu_scene(
    render_world: &RenderWorld,
    gpu_scene: &mut GpuScene,
    to_oklab: impl Fn([F32Bits; 4]) -> [F32Bits; 3],
)
    requires
        16 * render_world.bubbles@.len() <= isize::MAX,
        forall|c: [F32Bits; 4]| #[trigger] to_oklab.requires((c,)),
    ensures
        final(gpu_scene).spec_bubble_count() == render_world.bubbles@.len(),
        packs_positions(final(gpu_scene).position_values(), render_world.bubbles@),
        packs_colors(final(gpu_scene).color_values(), render_world.bubbles@, to_oklab),
        forall|i: int|
            #![trigger render_world.bubbles@[i]]
            0 <= i < render_world.bubbles@.len() ==> {
                &&& final(gpu_scene).position_values()[4 * i] == render_world.bubbles@[i].position[0]
                &&& final(gpu_scene).position_values()[4 * i + 1] == render_world.bubbles@[i].position[1]
                &&& final(gpu_scene).position_values()[4 * i + 2] == render_world.bubbles@[i].radius
                &&& final(gpu_scene).position_values()[4 * i + 3] == render_world.bubbles@[i].light
                &&& final(gpu_scene).color_values()[4 * i + 3] == ONE_F32_BITS
            },
{
    gpu_scene.clear();
    gpu_scene.reserve(render_world.bubbles.len());
    let bubbles = &render_world.bubbles;
    let mut i: usize = 0;
    while i < bubbles.len()
        invariant
            i <= bubbles@.len(),
            gpu_scene.spec_bubble_count() == i,
            forall|c: [F32Bits; 4]| #[trigger] to_oklab.requires((c,)),
            packs_positions(gpu_scene.position_values(), bubbles@.take(i as int)),
            packs_colors(gpu_scene.color_values(), bubbles@.take(i as int), to_oklab),
        decreases bubbles@.len() - i,
    {
        let bubble = &bubbles[i];
        let ghost old_pos = gpu_scene.position_values();
        let ghost old_col = gpu_scene.color_values();
        gpu_scene.push_bubble(
            GpuBubble {
                x: bubble.position[0],
                y: bubble.position[1],
                radius: bubble.radius,
                light: bubble.light,
                color: bubble.color,
                pressure: ONE_F32_BITS,
            },
            &to_oklab,
        );
        proof {
            let done = bubbles@.take(i + 1);
            let pos = gpu_scene.position_values();
            let col = gpu_scene.color_values();
            assert forall|j: int| 0 <= j < done.len() implies #[trigger] pos.subrange(4 * j, 4 * j + 4)
                == position_texel(done[j]) by {
                if j < i {
                    assert(pos.subrange(4 * j, 4 * j + 4) =~= old_pos.subrange(4 * j, 4 * j + 4));
                    assert(done[j] == bubbles@.take(i as int)[j]);
                } else {
                    assert(pos.subrange(4 * j, 4 * j + 4) =~= position_texel(done[j]));
                }
            }
            assert forall|j: int| 0 <= j < done.len() implies {
                &&& exists|l: [F32Bits; 3]| #[trigger]
                    to_oklab.ensures((done[j].color,), l) && l@ == col.subrange(4 * j, 4 * j + 3)
                &&& #[trigger] col[4 * j + 3] == ONE_F32_BITS
            } by {
                if j < i {
                    assert(done[j] == bubbles@.take(i as int)[j]);
                    assert(col.subrange(4 * j, 4 * j + 3) =~= old_col.subrange(4 * j, 4 * j + 3));
                    assert(col[4 * j + 3] == old_col[4 * j + 3]);
                    let prev = bubbles@.take(i as int);
                    assert(0 <= j < prev.len());
                    let l = choose|l: [F32Bits; 3]| #[trigger]
                        to_oklab.ensures((prev[j].color,), l) && l@ == old_col.subrange(4 * j, 4 * j + 3);
                    assert(to_oklab.ensures((done[j].color,), l) && l@ == col.subrange(4 * j, 4 * j + 3));
                } else {
                    let lab = choose|lab: [F32Bits; 3]|
                        #[trigger] to_oklab.ensures((bubble.color,), lab) && col == old_col + seq![lab[0], lab[1], lab[2], ONE_F32_BITS];
                    assert(col.subrange(4 * j, 4 * j + 3) =~= lab@);
                    assert(done[j] == *bubble);
                    assert(to_oklab.ensures((done[j].color,), lab) && lab@ == col.subrange(4 * j, 4 * j + 3));
                }
            }
        }
        i = i + 1;
    }
    assert(bubbles@.take(i as int) =~= bubbles@);
    proof {
        law_positions_are_copied_bit_for_bit(gpu_scene.position_values(), bubbles@);
    }
}

} // verus!
