use vstd::prelude::*;

use crate::shared::F32Bits;

verus! {

/// Number of floats stored for each bubble in the position texture.
///
/// Layout: x | y | radius | light
pub const POSITION_RADIUS_FLOATS: usize = 4;

/// Number of floats stored for each bubble in the color texture.
///
/// Layout: l | a | b | pressure (the color in Oklab)
pub const COLOR_PRESSURE_FLOATS: usize = 4;

/// Initial texture capacity (number of bubbles).
///
/// Capacity grows exponentially when needed.
pub const INITIAL_BUBBLE_CAPACITY: usize = 256;

/// Texture unit of the position texture.
pub const POSITION_TEXTURE_UNIT: i32 = 0;

/// Texture unit of the color texture.
pub const COLOR_TEXTURE_UNIT: i32 = 1;

/// GPU representation of a bubble before upload.
#[derive(Clone, Copy, Debug)]
pub struct GpuBubble {
    pub x: F32Bits,
    pub y: F32Bits,
    pub radius: F32Bits,
    pub light: F32Bits,
    /// sRGB color with alpha: r | g | b | a.
    pub color: [F32Bits; 4],
    pub pressure: F32Bits,
}

} // verus!
