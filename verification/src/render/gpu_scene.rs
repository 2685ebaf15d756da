use vstd::prelude::*;

use crate::render::gpu_types::{COLOR_PRESSURE_FLOATS, GpuBubble, POSITION_RADIUS_FLOATS};
use crate::shared::F32Bits;

verus! {

/// CPU-side representation of all GPU upload buffers.
///
/// The layout mirrors the GPU textures: four values per bubble in each.
///
/// position_radius: x, y, radius, light
///
/// color_pressure: l, a, b, pressure (the color in Oklab)
pub struct GpuScene {
    position_radius: Vec<F32Bits>,
    color_pressure: Vec<F32Bits>,
    bubble_count: usize,
}

impl GpuScene {
    /// Each buffer holds four values per bubble.
    #[verifier::type_invariant]
    spec fn four_values_per_bubble(self) -> bool {
        &&& self.position_radius@.len() == POSITION_RADIUS_FLOATS * self.bubble_count
        &&& self.color_pressure@.len() == COLOR_PRESSURE_FLOATS * self.bubble_count
    }

    /// The position texture's values, four per bubble.
    pub closed spec fn position_values(&self) -> Seq<F32Bits> {
        self.position_radius@
    }

    /// The color texture's values, four per bubble.
    pub closed spec fn color_values(&self) -> Seq<F32Bits> {
        self.color_pressure@
    }

    /// Number of bubbles pushed since the scene was made or last cleared.
    pub closed spec fn spec_bubble_count(&self) -> nat {
        self.bubble_count as nat
    }

    /// An empty scene.
    pub fn new() -> (s: Self)
        ensures
            s.position_values() == Seq::<F32Bits>::empty(),
            s.color_values() == Seq::<F32Bits>::empty(),
            s.spec_bubble_count() == 0,
    {
        GpuScene::default()
    }

    /// Takes the buffers and the count out, leaving the scene empty; the
    /// scene is whole at every step, and the caller puts the parts back.
    fn take_parts(&mut self) -> (parts: (Vec<F32Bits>, Vec<F32Bits>, usize))
        ensures
            parts.0@ == old(self).position_values(),
            parts.1@ == old(self).color_values(),
            parts.2 == old(self).spec_bubble_count(),
            parts.0@.len() == 4 * parts.2,
            parts.1@.len() == 4 * parts.2,
    {
        let mut taken = GpuScene { position_radius: Vec::new(), color_pressure: Vec::new(), bubble_count: 0 };
        std::mem::swap(self, &mut taken);
        proof {
            use_type_invariant(&taken);
        }
        let GpuScene { position_radius, color_pressure, bubble_count } = taken;
        (position_radius, color_pressure, bubble_count)
    }

    /// Removes every bubble.
    pub fn clear(&mut self)
        ensures
            final(self).position_values() == Seq::<F32Bits>::empty(),
            final(self).color_values() == Seq::<F32Bits>::empty(),
            final(self).spec_bubble_count() == 0,
    {
        let (mut position_radius, mut color_pressure, _) = self.take_parts();
        position_radius.clear();
        color_pressure.clear();
        *self = GpuScene { position_radius, color_pressure, bubble_count: 0 };
    }

    /// Reserves room for `bubbles` more bubbles; the contents stay as they are.
    /// The buffers must then stay within `isize::MAX` bytes.
    pub fn reserve(&mut self, bubbles: usize)
        requires
            16 * (old(self).spec_bubble_count() + bubbles) <= isize::MAX,
        ensures
            final(self).position_values() == old(self).position_values(),
            final(self).color_values() == old(self).color_values(),
            final(self).spec_bubble_count() == old(self).spec_bubble_count(),
    {
        let (mut position_radius, mut color_pressure, bubble_count) = self.take_parts();
        position_radius.reserve(bubbles * POSITION_RADIUS_FLOATS);
        color_pressure.reserve(bubbles * COLOR_PRESSURE_FLOATS);
        *self = GpuScene { position_radius, color_pressure, bubble_count };
    }

    /// Appends one bubble: `x, y, radius, light` to the position values, and
    /// the bubble's color converted to Oklab by `to_oklab` followed by its
    /// pressure to the color values.
    pub fn push_bubble(&mut self, bubble: GpuBubble, to_oklab: impl Fn([F32Bits; 4]) -> [F32Bits; 3])
        requires
            forall|c: [F32Bits; 4]| #[trigger] to_oklab.requires((c,)),
        ensures
            final(self).position_values() == old(self).position_values() + seq![
                bubble.x,
                bubble.y,
                bubble.radius,
                bubble.light,
            ],
            exists|lab: [F32Bits; 3]|
                #[trigger] to_oklab.ensures((bubble.color,), lab) && final(self).color_values()
                    == old(self).color_values() + seq![lab[0], lab[1], lab[2], bubble.pressure],
            final(self).spec_bubble_count() == old(self).spec_bubble_count() + 1,
    {
        // Pre-bake the Oklab conversion here.
        let oklab = to_oklab(bubble.color);
        let (mut position_radius, mut color_pressure, bubble_count) = self.take_parts();
        position_radius.push(bubble.x);
        position_radius.push(bubble.y);
        position_radius.push(bubble.radius);
        position_radius.push(bubble.light);
        color_pressure.push(oklab[0]);
        color_pressure.push(oklab[1]);
        color_pressure.push(oklab[2]);
        color_pressure.push(bubble.pressure);
        proof {
            // A vector's length fits in usize, which bounds the count.
            assert(position_radius.len() == position_radius@.len());
        }
        *self = GpuScene { position_radius, color_pressure, bubble_count: bubble_count + 1 };
    }

    /// Number of bubbles in the scene.
    pub fn bubble_count(&self) -> (n: usize)
        ensures
            n == self.spec_bubble_count(),
            self.position_values().len() == 4 * n,
            self.color_values().len() == 4 * n,
    {
        proof {
            use_type_invariant(self);
        }
        self.bubble_count
    }

    /// The position texture's values: x, y, radius, light per bubble.
    pub fn position_radius_data(&self) -> (d: &[F32Bits])
        ensures
            d@ == self.position_values(),
            d@.len() == 4 * self.spec_bubble_count(),
    {
        proof {
            use_type_invariant(self);
        }
        self.position_radius.as_slice()
    }

    /// The color texture's values: l, a, b, pressure per bubble.
    pub fn color_pressure_data(&self) -> (d: &[F32Bits])
        ensures
            d@ == self.color_values(),
            d@.len() == 4 * self.spec_bubble_count(),
    {
        proof {
            use_type_invariant(self);
        }
        self.color_pressure.as_slice()
    }
}

impl Default for GpuScene {
    /// An empty scene.
    fn default() -> (s: Self)
        ensures
            s.position_values() == Seq::<F32Bits>::empty(),
            s.color_values() == Seq::<F32Bits>::empty(),
            s.spec_bubble_count() == 0,
    {
        GpuScene { position_radius: Vec::new(), color_pressure: Vec::new(), bubble_count: 0 }
    }
}

} // verus!
