use vstd::prelude::*;

use crate::render::gpu_types::INITIAL_BUBBLE_CAPACITY;

verus! {

/// What doubling `c` reaches first at or above `required` (`c` itself when
/// it is already there).
pub open spec fn doubled_until(c: int, required: int) -> int
    decreases (if required > c { required - c } else { 0 }),
{
    if c <= 0 || c >= required {
        c
    } else {
        doubled_until(2 * c, required)
    }
}

/// The capacity that a texture of capacity `capacity` grows to when it
/// must hold `required` texels: starting from the larger of its capacity and
/// the initial bubble capacity, doubled until it is at least `required`.
pub open spec fn grown_capacity(capacity: int, required: int) -> int {
    doubled_until(
        if capacity > INITIAL_BUBBLE_CAPACITY { capacity } else { INITIAL_BUBBLE_CAPACITY as int },
        required,
    )
}

/// Doubling never goes below where it starts, ends at or above `required`,
/// and is a power-of-two multiple of the start, the smallest one that
/// reaches `required`.
proof fn lemma_doubled_until(c: int, required: int)
    requires
        c > 0,
    ensures
        doubled_until(c, required) >= c,
        doubled_until(c, required) >= required,
        exists|k: nat| doubled_until(c, required) == c * vstd::arithmetic::power2::pow2(k),
        doubled_until(c, required) > c ==> doubled_until(c, required) < 2 * required,
    decreases (if required > c { required - c } else { 0 }),
{
    vstd::arithmetic::power2::lemma2_to64();
    if c >= required {
        assert(doubled_until(c, required) == c * vstd::arithmetic::power2::pow2(0));
    } else {
        lemma_doubled_until(2 * c, required);
        let k = choose|k: nat| doubled_until(2 * c, required) == 2 * c * vstd::arithmetic::power2::pow2(k);
        vstd::arithmetic::power2::lemma_pow2_unfold(k + 1);
        let p = vstd::arithmetic::power2::pow2(k);
        assert(2 * c * p == c * (2 * p)) by (nonlinear_arith);
        assert(doubled_until(c, required) == c * vstd::arithmetic::power2::pow2(k + 1));
    }
}

/// A grown texture holds at least the required texels and at least the
/// initial bubble capacity; its capacity is the larger of the old capacity
/// and the initial one times a power of two, and is below twice the
/// requirement whenever it went past that starting point.
pub proof fn law_grown_capacity(capacity: nat, required: nat)
    ensures
        ({
            let start = if capacity > INITIAL_BUBBLE_CAPACITY { capacity as int } else { INITIAL_BUBBLE_CAPACITY as int };
            let grown = grown_capacity(capacity as int, required as int);
            &&& grown >= required
            &&& grown >= capacity
            &&& grown >= INITIAL_BUBBLE_CAPACITY
            &&& exists|k: nat| grown == start * vstd::arithmetic::power2::pow2(k)
            &&& grown > start ==> grown < 2 * required
        }),
{
    let start = if capacity > INITIAL_BUBBLE_CAPACITY { capacity as int } else { INITIAL_BUBBLE_CAPACITY as int };
    lemma_doubled_until(start, required as int);
}

/// A texture whose capacity is the initial bubble capacity doubled some
/// number of times keeps that form when it grows: starting from
/// `TextureCapacity::new(INITIAL_BUBBLE_CAPACITY)`, every capacity that
/// `ensure_capacity` reaches is 256 times a power of two.
pub proof fn law_growth_keeps_doubled_initial(capacity: nat, required: nat, k: nat)
    requires
        capacity == INITIAL_BUBBLE_CAPACITY * vstd::arithmetic::power2::pow2(k),
    ensures
        exists|j: nat|
            j >= k && grown_capacity(capacity as int, required as int) == INITIAL_BUBBLE_CAPACITY
                * vstd::arithmetic::power2::pow2(j),
{
    vstd::arithmetic::power2::lemma_pow2_pos(k);
    let start = capacity as int;
    assert(grown_capacity(capacity as int, required as int) == doubled_until(start, required as int)) by {
        if capacity > INITIAL_BUBBLE_CAPACITY {
        } else {
            assert(capacity >= INITIAL_BUBBLE_CAPACITY) by (nonlinear_arith)
                requires capacity == INITIAL_BUBBLE_CAPACITY * vstd::arithmetic::power2::pow2(k),
                    vstd::arithmetic::power2::pow2(k) > 0;
        }
    }
    lemma_doubled_until(start, required as int);
    let i = choose|i: nat| doubled_until(start, required as int) == start * vstd::arithmetic::power2::pow2(i);
    vstd::arithmetic::power2::lemma_pow2_adds(k, i);
    let a = vstd::arithmetic::power2::pow2(k);
    let b = vstd::arithmetic::power2::pow2(i);
    assert(INITIAL_BUBBLE_CAPACITY * a * b == INITIAL_BUBBLE_CAPACITY * (a * b)) by (nonlinear_arith);
    assert(doubled_until(start, required as int) == INITIAL_BUBBLE_CAPACITY * vstd::arithmetic::power2::pow2(k + i));
}

/// The little-endian byte encoding of 16-bit values: for each value, its
/// low byte and then its high byte.
pub open spec fn le_bytes_of(values: Seq<u16>) -> Seq<u8> {
    Seq::new(
        2 * values.len(),
        |i: int|
            if i % 2 == 0 {
                (values[i / 2] % 256) as u8
            } else {
                (values[i / 2] / 256) as u8
            },
    )
}

/// Each value can be read back from its two bytes: low byte plus 256 times
/// the high byte.
pub proof fn law_le_bytes_round_trip(values: Seq<u16>, i: int)
    requires
        0 <= i < values.len(),
    ensures
        le_bytes_of(values).len() == 2 * values.len(),
        le_bytes_of(values)[2 * i] + 256 * le_bytes_of(values)[2 * i + 1] == values[i],
{
    let bytes = le_bytes_of(values);
    assert((2 * i) % 2 == 0 && (2 * i) / 2 == i);
    assert((2 * i + 1) % 2 == 1 && (2 * i + 1) / 2 == i);
    assert(bytes[2 * i] == (values[i] % 256) as u8);
    assert(bytes[2 * i + 1] == (values[i] / 256) as u8);
}

/// Encodes 16-bit texel values (half-float bit patterns) as little-endian
/// bytes, the layout in which an RGBA16F texture is uploaded.
pub fn encode_le_u16(values: &[u16]) -> (bytes: Vec<u8>)
    requires
        2 * values@.len() <= usize::MAX,
    ensures
        bytes@ == le_bytes_of(values@),
{
    let mut bytes: Vec<u8> = Vec::with_capacity(values.len() * 2);
    let mut i: usize = 0;
    while i < values.len()
        invariant
            i <= values@.len(),
            2 * values@.len() <= usize::MAX,
            bytes@ == le_bytes_of(values@.take(i as int)),
        decreases values@.len() - i,
    {
        let v = values[i];
        bytes.push((v % 256) as u8);
        bytes.push((v / 256) as u8);
        proof {
            assert(le_bytes_of(values@.take(i + 1)) =~= le_bytes_of(values@.take(i as int)).push(
                (v % 256) as u8,
            ).push((v / 256) as u8));
        }
        i = i + 1;
    }
    assert(values@.take(i as int) =~= values@);
    bytes
}

/// How many of `len` values fit in a row of `width` texels of four values.
pub open spec fn values_in_row(len: nat, width: nat) -> nat {
    if len <= 4 * width { len } else { 4 * width }
}

/// The bytes of one row of `width` RGBA16F texels (four 16-bit values
/// each) filled from `values`: the little-endian encoding of as many values
/// as the row holds, followed by zero bytes up to the row's size of
/// `8 * width` bytes.
pub open spec fn texel_row_bytes(values: Seq<u16>, width: nat) -> Seq<u8> {
    let n = values_in_row(values.len(), width);
    le_bytes_of(values.take(n as int)) + Seq::new((8 * width - 2 * n) as nat, |i: int| 0u8)
}

/// A row holds every value that fits in it, in order, and nothing else: it
/// is `8 * width` bytes long; when the values fit (four per texel), the row
/// begins with the little-endian encoding of all of them and is zero after
/// it; when they do not, the row is the encoding of the first `4 * width`
/// values. Each value that fits is read back from its two bytes.
pub proof fn law_texel_row_holds_the_values(values: Seq<u16>, width: nat)
    ensures
        texel_row_bytes(values, width).len() == 8 * width,
        values.len() <= 4 * width ==> texel_row_bytes(values, width).subrange(0, 2 * values.len() as int) == le_bytes_of(values),
        values.len() <= 4 * width ==> forall|j: int|
            2 * values.len() <= j < 8 * width ==> #[trigger] texel_row_bytes(values, width)[j] == 0u8,
        values.len() > 4 * width ==> texel_row_bytes(values, width) == le_bytes_of(values.take(4 * width as int)),
        forall|i: int|
            0 <= i < values.len() && i < 4 * width ==> #[trigger] texel_row_bytes(values, width)[2 * i] + 256
                * texel_row_bytes(values, width)[2 * i + 1] == values[i],
{
    let row = texel_row_bytes(values, width);
    if values.len() <= 4 * width {
        assert(values.take(values.len() as int) =~= values);
        assert(row.subrange(0, 2 * values.len() as int) =~= le_bytes_of(values));
    } else {
        assert(row =~= le_bytes_of(values.take(4 * width as int)));
    }
    assert forall|i: int| 0 <= i < values.len() && i < 4 * width implies #[trigger] row[2 * i] + 256 * row[2 * i
        + 1] == values[i] by {
        let n = if values.len() <= 4 * width { values.len() } else { 4 * width };
        law_le_bytes_round_trip(values.take(n as int), i);
        assert(row[2 * i] == le_bytes_of(values.take(n as int))[2 * i]);
        assert(row[2 * i + 1] == le_bytes_of(values.take(n as int))[2 * i + 1]);
    }
}

/// Encodes `values` as one full row of `width` RGBA16F texels, ready to be
/// uploaded: values past the row's end are left out, and texels past the
/// values are zero.
pub fn encode_texel_row(values: &[u16], width: u32) -> (bytes: Vec<u8>)
    requires
        8 * width <= usize::MAX,
    ensures
        bytes@ == texel_row_bytes(values@, width as nat),
        bytes@.len() == 8 * width,
        values@.len() <= 4 * width ==> bytes@.subrange(0, 2 * values@.len() as int) == le_bytes_of(values@),
        values@.len() > 4 * width ==> bytes@ == le_bytes_of(values@.take(4 * width as int)),
{
    let row_len: usize = 8 * (width as usize);
    let fit: usize = if values.len() <= 4 * (width as usize) { values.len() } else { 4 * (width as usize) };
    let mut bytes: Vec<u8> = Vec::with_capacity(row_len);
    let mut i: usize = 0;
    while i < fit
        invariant
            i <= fit,
            fit == values_in_row(values@.len(), width as nat),
            row_len == 8 * width,
            bytes@ == le_bytes_of(values@.take(i as int)),
        decreases fit - i,
    {
        let v = values[i];
        bytes.push((v % 256) as u8);
        bytes.push((v / 256) as u8);
        proof {
            assert(le_bytes_of(values@.take(i + 1)) =~= le_bytes_of(values@.take(i as int)).push(
                (v % 256) as u8,
            ).push((v / 256) as u8));
        }
        i = i + 1;
    }
    let ghost encoded = bytes@;
    while bytes.len() < row_len
        invariant
            row_len == 8 * width,
            encoded == le_bytes_of(values@.take(fit as int)),
            encoded.len() == 2 * fit,
            fit <= 4 * width,
            encoded.len() <= bytes@.len() <= row_len,
            bytes@ == encoded + Seq::new((bytes@.len() - encoded.len()) as nat, |i: int| 0u8),
        decreases row_len - bytes@.len(),
    {
        bytes.push(0u8);
        assert(bytes@ =~= encoded + Seq::new((bytes@.len() - encoded.len()) as nat, |i: int| 0u8));
    }
    assert(bytes@ =~= texel_row_bytes(values@, width as nat));
    proof {
        law_texel_row_holds_the_values(values@, width as nat);
    }
    bytes
}

/// The size bookkeeping of a float texture: how many texels it holds
/// (`capacity`) and its width in texels (the texture is `width` x 1).
#[derive(Clone, Copy, Debug)]
pub struct TextureCapacity {
    capacity: usize,
    width: u32,
}

/// The width in texels of a texture of the given capacity: the capacity
/// itself, or 1 for a capacity of 0, as a `u32`.
pub open spec fn width_for(capacity: usize) -> u32 {
    (if capacity >= 1 { capacity } else { 1 }) as u32
}

impl TextureCapacity {
    /// The width always follows the capacity.
    #[verifier::type_invariant]
    spec fn width_follows_capacity(self) -> bool {
        self.width == width_for(self.capacity)
    }

    pub closed spec fn spec_capacity(&self) -> usize {
        self.capacity
    }

    pub closed spec fn spec_width(&self) -> u32 {
        self.width
    }

    /// The size of a new texture of the given capacity: its width is the
    /// capacity, or 1 for a capacity of 0.
    pub fn new(capacity: usize) -> (t: Self)
        ensures
            t.spec_capacity() == capacity,
            t.spec_width() == width_for(capacity),
    {
        let texels = if capacity >= 1 { capacity } else { 1 };
        TextureCapacity { capacity, width: texels as u32 }
    }

    /// Width of the texture in texels.
    pub fn width(&self) -> (w: u32)
        ensures
            w == self.spec_width(),
            w == width_for(self.spec_capacity()),
    {
        proof {
            use_type_invariant(self);
        }
        self.width
    }

    /// Number of texels available.
    pub fn capacity(&self) -> (c: usize)
        ensures
            c == self.spec_capacity(),
    {
        self.capacity
    }

    /// Makes room for at least `required` texels.
    ///
    /// When the capacity already suffices nothing changes and `None` is
    /// returned. Otherwise the capacity grows exponentially (see
    /// `grown_capacity`), the width follows it, and the new capacity is
    /// returned: the texture must then be recreated at the new width.
    pub fn ensure_capacity(&mut self, required: usize) -> (resized: Option<usize>)
        requires
            required > old(self).spec_capacity() ==> grown_capacity(
                old(self).spec_capacity() as int,
                required as int,
            ) <= usize::MAX,
        ensures
            final(self).spec_capacity() >= required,
            final(self).spec_capacity() >= old(self).spec_capacity(),
            final(self).spec_width() == width_for(final(self).spec_capacity()),
            final(self).spec_capacity() <= u32::MAX ==> final(self).spec_width() >= required,
            required <= old(self).spec_capacity() ==> resized is None && *final(self) == *old(self),
            required > old(self).spec_capacity() ==> {
                let grown = grown_capacity(old(self).spec_capacity() as int, required as int);
                &&& resized == Some(grown as usize)
                &&& final(self).spec_capacity() == grown
                &&& final(self).spec_width() == grown as u32
            },
    {
        proof {
            use_type_invariant(&*self);
        }
        if required <= self.capacity {
            return None;
        }
        let ghost goal = grown_capacity(self.capacity as int, required as int);
        let mut new_capacity = if self.capacity > INITIAL_BUBBLE_CAPACITY {
            self.capacity
        } else {
            INITIAL_BUBBLE_CAPACITY
        };
        while new_capacity < required
            invariant
                new_capacity >= INITIAL_BUBBLE_CAPACITY,
                doubled_until(new_capacity as int, required as int) == goal,
                goal <= usize::MAX,
            decreases (if required > new_capacity { required - new_capacity } else { 0 }),
        {
            proof {
                lemma_doubled_until(2 * new_capacity, required as int);
            }
            new_capacity = new_capacity * 2;
        }
        proof {
            lemma_doubled_until(new_capacity as int, required as int);
        }
        self.resize(new_capacity);
        Some(new_capacity)
    }

    fn resize(&mut self, new_capacity: usize)
        requires
            new_capacity >= 1,
        ensures
            final(self).spec_capacity() == new_capacity,
            final(self).spec_width() == new_capacity as u32,
    {
        *self = TextureCapacity { capacity: new_capacity, width: new_capacity as u32 };
    }
}

} // verus!
