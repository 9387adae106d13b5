//! The frame buffer the PPU draws into: a plane of 2-bit color indices and a
//! parallel RGBA byte plane rendered through the conventional four-shade
//! green palette.

use vstd::prelude::*;

verus! {

/// Bytes per pixel of the RGBA plane.
pub const PIXEL_BYTES: usize = 4;

/// Red component of the fixed four-entry green palette.
pub open spec fn palette_r_spec(color_id: u8) -> u8 {
    if color_id == 0 { 155u8 } else if color_id == 1 { 139u8 } else if color_id == 2 {
        48u8
    } else { 15u8 }
}

/// Green component of the fixed four-entry green palette.
pub open spec fn palette_g_spec(color_id: u8) -> u8 {
    if color_id == 0 { 188u8 } else if color_id == 1 { 172u8 } else if color_id == 2 {
        98u8
    } else { 56u8 }
}

/// Blue component of the fixed four-entry green palette.
pub open spec fn palette_b_spec(color_id: u8) -> u8 {
    if color_id == 0 { 15u8 } else if color_id == 1 { 15u8 } else if color_id == 2 {
        48u8
    } else { 15u8 }
}

/// Red component of the fixed four-entry palette.
pub fn palette_r(color_id: u8) -> (r: u8)
    requires
        color_id < 4,
    ensures
        r == palette_r_spec(color_id),
{
    if color_id == 0 { 155 } else if color_id == 1 { 139 } else if color_id == 2 { 48 } else { 15 }
}

/// Green component of the fixed four-entry palette.
pub fn palette_g(color_id: u8) -> (r: u8)
    requires
        color_id < 4,
    ensures
        r == palette_g_spec(color_id),
{
    if color_id == 0 { 188 } else if color_id == 1 { 172 } else if color_id == 2 { 98 } else { 56 }
}

/// Blue component of the fixed four-entry palette.
pub fn palette_b(color_id: u8) -> (r: u8)
    requires
        color_id < 4,
    ensures
        r == palette_b_spec(color_id),
{
    if color_id == 0 { 15 } else if color_id == 1 { 15 } else if color_id == 2 { 48 } else { 15 }
}

pub struct FrameBuffer {
    /// RGBA bytes, four per pixel, row-major.
    pub buffer: Vec<u8>,
    /// One 2-bit color index per pixel, row-major.
    pub index: Vec<u8>,
    pub width: usize,
    pub height: usize,
}

impl FrameBuffer {
    /// Both planes sized to the dimensions, and every index a 2-bit value.
    pub open spec fn wf(self) -> bool {
        &&& self.width * self.height * 4 <= usize::MAX
        &&& self.width * 4 <= usize::MAX
        &&& self.buffer.len() == self.width * self.height * 4
        &&& self.index.len() == self.width * self.height
        &&& forall|i: int| 0 <= i < self.index.len() ==> #[trigger] self.index[i] < 4
    }

    pub fn new(width: usize, height: usize) -> (r: FrameBuffer)
        requires
            width * height * 4 <= usize::MAX,
            width * 4 <= usize::MAX,
        ensures
            r.wf(),
            r.width == width,
            r.height == height,
            forall|i: int| 0 <= i < r.index.len() ==> #[trigger] r.index[i] == 0,
            forall|i: int| 0 <= i < r.buffer.len() ==> #[trigger] r.buffer[i] == 0,
    {
        let mut buffer: Vec<u8> = Vec::new();
        let mut index: Vec<u8> = Vec::new();
        let pixels: usize = width * height;
        let mut i: usize = 0;
        while i < pixels
            invariant
                i <= pixels,
                index.len() == i,
                forall|j: int| 0 <= j < i ==> #[trigger] index[j] == 0,
            decreases pixels - i,
        {
            index.push(0);
            i = i + 1;
        }
        let bytes: usize = pixels * 4;
        let mut b: usize = 0;
        while b < bytes
            invariant
                b <= bytes,
                buffer.len() == b,
                forall|j: int| 0 <= j < b ==> #[trigger] buffer[j] == 0,
            decreases bytes - b,
        {
            buffer.push(0);
            b = b + 1;
        }
        FrameBuffer { buffer, index, width, height }
    }

    /// The 160 by 144 pixel visible LCD plane the PPU renders into, blank.
    pub fn gameboy_lcd() -> (r: FrameBuffer)
        ensures
            r.wf(),
            r.width == 160,
            r.height == 144,
            forall|i: int| 0 <= i < r.index.len() ==> #[trigger] r.index[i] == 0,
            forall|i: int| 0 <= i < r.buffer.len() ==> #[trigger] r.buffer[i] == 0,
    {
        FrameBuffer::new(160, 144)
    }

    /// Bytes per row of the RGBA plane.
    pub fn pitch(&self) -> (r: usize)
        requires
            self.wf(),
        ensures
            r == self.width * 4,
    {
        self.width * PIXEL_BYTES
    }

    /// The color index previously stored at (x, y).
    pub fn pixel_index(&self, x: usize, y: usize) -> (r: u8)
        requires
            self.wf(),
            x < self.width,
            y < self.height,
        ensures
            r == self.index[y * self.width + x],
            r < 4,
    {
        proof {
            vstd::arithmetic::mul::lemma_mul_inequality(y as int + 1, self.height as int,
                self.width as int);
            vstd::arithmetic::mul::lemma_mul_is_commutative(self.width as int, self.height as int);
            vstd::arithmetic::mul::lemma_mul_is_distributive_add(self.width as int, y as int, 1);
        }
        self.index[y * self.width + x]
    }

    /// Writes one pixel: the index plane takes the 2-bit color, the RGBA
    /// plane the palette entry for it (four bytes, alpha opaque).
    pub fn set_pixel(&mut self, x: usize, y: usize, color_id: u8)
        requires
            old(self).wf(),
            x < old(self).width,
            y < old(self).height,
            color_id < 4,
        ensures
            final(self).wf(),
            final(self).width == old(self).width,
            final(self).height == old(self).height,
            final(self).index@ == old(self).index@.update((y * old(self).width + x) as int,
                color_id),
            final(self).buffer@ == old(self).buffer@.update(
                4 * (y * old(self).width + x) as int,
                palette_r_spec(color_id),
            ).update(4 * (y * old(self).width + x) as int + 1, palette_g_spec(color_id)).update(
                4 * (y * old(self).width + x) as int + 2,
                palette_b_spec(color_id),
            ).update(4 * (y * old(self).width + x) as int + 3, 255u8),
    {
        proof {
            vstd::arithmetic::mul::lemma_mul_inequality(y as int + 1, self.height as int,
                self.width as int);
            vstd::arithmetic::mul::lemma_mul_is_commutative(self.width as int, self.height as int);
            vstd::arithmetic::mul::lemma_mul_is_distributive_add(self.width as int, y as int, 1);
        }
        let pix: usize = y * self.width + x;
        let idx: usize = pix * PIXEL_BYTES;
        proof {
            vstd::arithmetic::mul::lemma_mul_inequality(pix as int + 1,
                self.width as int * self.height as int, 4);
            vstd::arithmetic::mul::lemma_mul_is_distributive_add_other_way(4, pix as int, 1);
            vstd::arithmetic::mul::lemma_mul_is_commutative(pix as int + 1, 4);
            vstd::arithmetic::mul::lemma_mul_is_commutative(
                self.width as int * self.height as int, 4);
        }
        self.index.set(pix, color_id);
        let r: u8 = palette_r(color_id);
        let g: u8 = palette_g(color_id);
        let b: u8 = palette_b(color_id);
        self.buffer.set(idx, r);
        self.buffer.set(idx + 1, g);
        self.buffer.set(idx + 2, b);
        self.buffer.set(idx + 3, 255);
    }

    /// Blanks the frame to color 0, as when the LCD is switched off.
    pub fn reset(&mut self)
        requires
            old(self).wf(),
        ensures
            final(self).wf(),
            final(self).width == old(self).width,
            final(self).height == old(self).height,
            forall|i: int| 0 <= i < final(self).index.len() ==> #[trigger] final(self).index[i]
                == 0,
            forall|i: int| 0 <= i < final(self).buffer.len() ==> #[trigger] final(self).buffer[i]
                == 0,
    {
        let fresh = FrameBuffer::new(self.width, self.height);
        self.buffer = fresh.buffer;
        self.index = fresh.index;
    }
}

} // verus!
