//! Picture processing unit: a 456-dot scanline state machine with OAM scan,
//! a background/window pixel fetcher feeding a FIFO, a per-scanline sprite
//! overlay, and STAT/VBLANK interrupt generation.
//!
//! Scanline timing: mode 2 (OAM scan) covers dots 0..79, mode 3 (drawing)
//! runs from dot 80 until 160 pixels have been pushed, mode 0 (HBlank)
//! covers the remainder of the 456 dots, and lines 144..153 are mode 1
//! (VBlank). LY advances at dot 456; a full frame is 154 lines, 70224 dots.

use vstd::prelude::*;
use crate::bus::{INT_LCD, INT_VBLANK};
use crate::frame::FrameBuffer;

verus! {

/// Pixel bit facts shared by the fetcher, the sprite overlay and the
/// palettes: two interleaved tile-data bits form a 2-bit color, and any
/// palette lookup is a 2-bit value.
pub proof fn lemma_pixel_bits(hi: u8, lo: u8, sh: u8)
    ensures
        ((hi >> sh) & 1) << 1 | ((lo >> sh) & 1) < 4,
        (hi >> sh) & 3 < 4,
{
    assert((((hi >> sh) & 1) << 1 | ((lo >> sh) & 1) < 4) && (hi >> sh) & 3 < 4) by (bit_vector);
}

/// Interrupt requests built from the VBlank and STAT bits stay within
/// those two bits under OR.
pub proof fn lemma_ints_mask(a: u8, b: u8)
    ensures
        a & 0xFC == 0 && b & 0xFC == 0 ==> (a | b) & 0xFC == 0,
        0u8 & 0xFC == 0 && 1u8 & 0xFC == 0 && 2u8 & 0xFC == 0,
{
    assert((a & 0xFC == 0 && b & 0xFC == 0 ==> (a | b) & 0xFC == 0) && 0u8 & 0xFC == 0 && 1u8
        & 0xFC == 0 && 2u8 & 0xFC == 0) by (bit_vector);
}

/// LCDC bit masks.
pub const CTRL_BG_WND_ENABLED: u8 = 0x01;

pub const CTRL_OBJ_ENABLED: u8 = 0x02;

pub const CTRL_OBJ_SIZE: u8 = 0x04;

pub const CTRL_BG_TILEMAP: u8 = 0x08;

pub const CTRL_TILESET_ADDR: u8 = 0x10;

pub const CTRL_WND_ENABLED: u8 = 0x20;

pub const CTRL_WND_TILEMAP: u8 = 0x40;

pub const CTRL_LCD_ENABLED: u8 = 0x80;

/// STAT bit masks (bits 3..6 select interrupt sources, bit 2 is LYC==LY).
pub const STAT_LYC_EQ_LY: u8 = 0x04;

pub const STAT_MODE0_INT: u8 = 0x08;

pub const STAT_MODE1_INT: u8 = 0x10;

pub const STAT_MODE2_INT: u8 = 0x20;

pub const STAT_LYC_INT: u8 = 0x40;

#[derive(Clone, Copy, PartialEq, Eq, Structural, Debug)]
pub enum PpuMode {
    Hblank,
    Vblank,
    OamScan,
    DrawingPixels,
}

#[derive(Clone, Copy, PartialEq, Eq, Structural, Debug)]
pub enum FetcherState {
    Tile,
    DataLow,
    DataHigh,
    Push,
}

/// One pixel of the sprite overlay for the current scanline. A zero color
/// means no opaque sprite pixel here.
#[derive(Clone, Copy, PartialEq, Eq, Structural, Debug)]
pub struct ObjFifoEntry {
    /// 2-bit sprite color; 0 is transparent.
    pub color: u8,
    /// Selects OBP1 over OBP0.
    pub palette: bool,
    /// True when the sprite wins over non-zero background pixels.
    pub priority: bool,
    /// Screen X of the sprite this pixel came from, for priority ties.
    pub src_x: u8,
}

/// A sprite selected by the OAM scan.
pub struct OamObject {
    /// OAM index, 0..39.
    pub i: u8,
    pub y: u8,
    pub x: u8,
    pub tile_id: u8,
    /// True when the sprite wins over non-zero background pixels (OAM
    /// attribute bit 7 clear).
    pub priority: bool,
    pub x_flip: bool,
    pub y_flip: bool,
    pub dmg_palette: bool,
}

impl OamObject {
    /// Decodes one 4-byte OAM entry.
    pub fn new(bytes: &[u8], i: u8) -> (r: OamObject)
        requires
            bytes@.len() == 4,
        ensures
            r.i == i,
            r.y == bytes@[0],
            r.x == bytes@[1],
            r.tile_id == bytes@[2],
            r.priority == (bytes@[3] & 0x80 == 0),
            r.y_flip == (bytes@[3] & 0x40 != 0),
            r.x_flip == (bytes@[3] & 0x20 != 0),
            r.dmg_palette == (bytes@[3] & 0x10 != 0),
    {
        let attr: u8 = bytes[3];
        OamObject {
            i,
            y: bytes[0],
            x: bytes[1],
            tile_id: bytes[2],
            priority: attr & 0x80 == 0,
            y_flip: attr & 0x40 != 0,
            x_flip: attr & 0x20 != 0,
            dmg_palette: attr & 0x10 != 0,
        }
    }
}

/// The background/window pixel fetcher and the per-line sprite state.
pub struct Fetcher {
    pub state: FetcherState,
    /// Sprites visible on the current line, in OAM order, at most ten.
    pub obj_visible: Vec<OamObject>,
    /// Background FIFO of 2-bit colors, at most 16 deep.
    pub bg_fifo: Vec<u8>,
    /// Sprite overlay for the 160 pixels of the current line.
    pub obj_scanline: Vec<ObjFifoEntry>,
    /// The fetcher advances every second dot.
    pub should_do_step: bool,
    /// Tile column counter, 0..31.
    pub x: u8,
    /// Set once the window has started on this line.
    pub wnd_hit: bool,
    /// Next output pixel, 0..160.
    pub pixel_x: u8,
    /// Pixels discarded so far for SCX fine scrolling, 0..7.
    pub bg_scroll_x: u8,
    /// Pixels still to discard after a window start with WX < 7.
    pub wnd_scroll_x: u8,
    pub tile_y: u8,
    pub tileset_id: u8,
    /// VRAM-relative address of the tile row being fetched.
    pub tileset_addr: u16,
    pub tile_lo: u8,
    pub tile_hi: u8,
}

impl Fetcher {
    pub open spec fn wf(self) -> bool {
        &&& self.obj_visible.len() <= 10
        &&& self.bg_fifo.len() <= 16
        &&& forall|i: int| 0 <= i < self.bg_fifo.len() ==> #[trigger] self.bg_fifo[i] < 4
        &&& self.obj_scanline.len() == 160
        &&& forall|i: int| 0 <= i < 160 ==> #[trigger] self.obj_scanline[i].color < 4
        &&& self.x < 32
        &&& self.pixel_x <= 160
        &&& self.bg_scroll_x < 8
        &&& self.wnd_scroll_x <= 7
        &&& self.tileset_addr <= 0x17FE
    }

    pub fn new() -> (r: Fetcher)
        ensures
            r.wf(),
            r.pixel_x == 0,
            !r.wnd_hit,
    {
        let mut obj_scanline: Vec<ObjFifoEntry> = Vec::new();
        let mut i: usize = 0;
        while i < 160
            invariant
                i <= 160,
                obj_scanline.len() == i,
                forall|j: int| 0 <= j < i ==> #[trigger] obj_scanline[j].color < 4,
            decreases 160 - i,
        {
            obj_scanline.push(ObjFifoEntry { color: 0, palette: false, priority: false, src_x: 0 });
            i = i + 1;
        }
        Fetcher {
            state: FetcherState::Tile,
            obj_visible: Vec::new(),
            bg_fifo: Vec::new(),
            obj_scanline,
            should_do_step: false,
            x: 0,
            wnd_hit: false,
            pixel_x: 0,
            bg_scroll_x: 0,
            wnd_scroll_x: 0,
            tile_y: 0,
            tileset_id: 0,
            tileset_addr: 0,
            tile_lo: 0,
            tile_hi: 0,
        }
    }

    /// Rewinds the per-line fetch state (the sprite overlay and visible
    /// list are rebuilt by the OAM scan instead).
    pub fn reset(&mut self)
        requires
            old(self).wf(),
        ensures
            final(self).wf(),
            final(self).pixel_x == 0,
            !final(self).wnd_hit,
            final(self).obj_scanline == old(self).obj_scanline,
            final(self).obj_visible == old(self).obj_visible,
    {
        self.bg_fifo.clear();
        self.x = 0;
        self.wnd_hit = false;
        self.pixel_x = 0;
        self.bg_scroll_x = 0;
        self.wnd_scroll_x = 0;
        self.should_do_step = false;
        self.state = FetcherState::Tile;
    }
}

pub struct Ppu {
    pub lcd: FrameBuffer,
    pub fetcher: Fetcher,
    pub vram: Vec<u8>,
    pub oam: Vec<u8>,
    pub mode: PpuMode,
    /// Set when a frame completes; the host clears it when it presents.
    pub frame_ready: bool,
    pub ctrl: u8,
    /// STAT interrupt-select bits (3..6) and the LYC==LY flag (bit 2).
    pub stat: u8,
    pub ly: u8,
    /// Window line counter, independent of LY.
    pub wnd_line: u8,
    pub lyc: u8,
    pub scy: u8,
    pub scx: u8,
    pub wy: u8,
    pub wx: u8,
    pub bgp: u8,
    pub obp0: u8,
    pub obp1: u8,
    /// Dot counter: within the current scanline while the LCD is on (up to
    /// 455), within the whole frame while it is off (up to 70223).
    pub tcycles: u32,
    /// Latched OR of the STAT interrupt sources, for edge detection.
    pub stat_int_flag: bool,
}

impl Ppu {
    pub open spec fn lcd_enabled_spec(self) -> bool {
        self.ctrl & CTRL_LCD_ENABLED != 0
    }

    /// The dot index within the 70224-dot frame, while the LCD is on.
    pub open spec fn dot(self) -> int {
        self.ly * 456 + self.tcycles
    }

    pub open spec fn wf(self) -> bool {
        &&& self.vram.len() == 8192
        &&& self.oam.len() == 160
        &&& self.lcd.wf()
        &&& self.lcd.width == 160
        &&& self.lcd.height == 144
        &&& self.fetcher.wf()
        &&& self.ly <= 153
        &&& self.lcd_enabled_spec() ==> self.tcycles < 456
        &&& !self.lcd_enabled_spec() ==> self.tcycles < 70224
        &&& self.lcd_enabled_spec() ==> ((self.mode == PpuMode::Vblank) <==> self.ly >= 144)
        &&& self.lcd_enabled_spec() && self.mode == PpuMode::OamScan ==> self.tcycles < 80
        &&& self.lcd_enabled_spec() && self.mode == PpuMode::DrawingPixels ==> self.tcycles >= 80
    }

    /// Well-formedness at the dot-456 line boundary: the dot counter has
    /// been reset for the next line while the finished line's mode still
    /// stands, so the per-mode dot bounds of `wf` are not yet restored.
    pub open spec fn wf_line_end(self) -> bool {
        &&& self.vram.len() == 8192
        &&& self.oam.len() == 160
        &&& self.lcd.wf()
        &&& self.lcd.width == 160
        &&& self.lcd.height == 144
        &&& self.fetcher.wf()
        &&& self.ly <= 153
        &&& self.tcycles == 0
        &&& self.lcd_enabled_spec()
        &&& ((self.mode == PpuMode::Vblank) <==> self.ly >= 144)
    }

    /// Power-on state, with the post-boot register values: LCD on, BGP at
    /// its post-boot 0xFC, every other register, VRAM, OAM and the frame
    /// cleared, mode 2 at dot 0 of line 0.
    pub fn new() -> (r: Ppu)
        ensures
            r.wf(),
            r.ly == 0,
            r.ctrl == 0x91,
            r.lcd_enabled_spec(),
            r.tcycles == 0,
            !r.frame_ready,
            r.mode == PpuMode::OamScan,
            r.stat == 0,
            r.wnd_line == 0,
            r.lyc == 0,
            r.scy == 0 && r.scx == 0 && r.wy == 0 && r.wx == 0,
            r.bgp == 0xFC,
            r.obp0 == 0 && r.obp1 == 0,
            forall|i: int| 0 <= i < 8192 ==> #[trigger] r.vram[i] == 0,
            forall|i: int| 0 <= i < 160 ==> #[trigger] r.oam[i] == 0,
            forall|i: int| 0 <= i < r.lcd.index.len() ==> #[trigger] r.lcd.index[i] == 0,
    {
        let mut vram: Vec<u8> = Vec::new();
        let mut i: usize = 0;
        while i < 8192
            invariant
                i <= 8192,
                vram.len() == i,
                forall|k: int| 0 <= k < i ==> #[trigger] vram[k] == 0,
            decreases 8192 - i,
        {
            vram.push(0);
            i = i + 1;
        }
        let mut oam: Vec<u8> = Vec::new();
        let mut j: usize = 0;
        while j < 160
            invariant
                j <= 160,
                oam.len() == j,
                forall|k: int| 0 <= k < j ==> #[trigger] oam[k] == 0,
            decreases 160 - j,
        {
            oam.push(0);
            j = j + 1;
        }
        proof {
            assert(0x91u8 & 0x80u8 != 0) by (bit_vector);
        }
        Ppu {
            lcd: FrameBuffer::gameboy_lcd(),
            fetcher: Fetcher::new(),
            vram,
            oam,
            mode: PpuMode::OamScan,
            frame_ready: false,
            ctrl: 0x91,
            stat: 0,
            ly: 0,
            wnd_line: 0,
            lyc: 0,
            scy: 0,
            scx: 0,
            wy: 0,
            wx: 0,
            bgp: 0xFC,
            obp0: 0,
            obp1: 0,
            tcycles: 0,
            stat_int_flag: false,
        }
    }

    pub fn is_lcd_enabled(&self) -> (r: bool)
        ensures
            r == self.lcd_enabled_spec(),
    {
        self.ctrl & CTRL_LCD_ENABLED != 0
    }

    /// Reads a byte of VRAM by VRAM-relative address.
    pub fn vram_read(&self, rel: u16) -> (r: u8)
        requires
            self.wf(),
            rel < 8192,
        ensures
            r == self.vram[rel as int],
    {
        self.vram[rel as usize]
    }

    /// VRAM-relative base of the background tilemap.
    pub fn bg_tilemap(&self) -> (r: u16)
        ensures
            r == 0x1800 || r == 0x1C00,
    {
        if self.ctrl & CTRL_BG_TILEMAP == 0 { 0x1800 } else { 0x1C00 }
    }

    /// VRAM-relative base of the window tilemap.
    pub fn wnd_tilemap(&self) -> (r: u16)
        ensures
            r == 0x1800 || r == 0x1C00,
    {
        if self.ctrl & CTRL_WND_TILEMAP == 0 { 0x1800 } else { 0x1C00 }
    }

    /// VRAM-relative address of a tile's first row: the 0x8000 unsigned
    /// addressing mode, or the 0x9000 signed mode (where ids 128..255
    /// reach 0x0800..0x0FF0, since 0x1000 + 16 * (id - 256) is 16 * id).
    pub fn tileset_addr(&self, tileset_id: u8) -> (r: u16)
        ensures
            r <= 0x17F0,
            self.ctrl & CTRL_TILESET_ADDR != 0 ==> r == 16 * tileset_id,
            self.ctrl & CTRL_TILESET_ADDR == 0 && tileset_id < 128 ==> r == 0x1000 + 16
                * tileset_id,
            self.ctrl & CTRL_TILESET_ADDR == 0 && tileset_id >= 128 ==> r == 16 * tileset_id,
    {
        if self.ctrl & CTRL_TILESET_ADDR != 0 {
            16 * (tileset_id as u16)
        } else {
            if tileset_id < 128 {
                0x1000 + 16 * (tileset_id as u16)
            } else {
                // Signed addressing: 0x1000 + 16 * (id - 256) is 16 * id.
                16 * (tileset_id as u16)
            }
        }
    }

    /// Looks a 2-bit color up in the BGP palette register.
    pub fn bg_palette(&self, color_id: u8) -> (r: u8)
        requires
            color_id < 4,
        ensures
            r == (self.bgp >> (2 * color_id)) & 3,
            r < 4,
    {
        let b: u8 = self.bgp;
        let sh: u8 = 2 * color_id;
        proof {
            lemma_pixel_bits(b, 0, sh);
        }
        (b >> sh) & 3
    }

    /// Looks a 2-bit color up in OBP0 or OBP1.
    pub fn obj_palette(&self, obp: bool, color_id: u8) -> (r: u8)
        requires
            color_id < 4,
        ensures
            r < 4,
    {
        let p: u8 = if obp { self.obp1 } else { self.obp0 };
        let sh: u8 = 2 * color_id;
        proof {
            lemma_pixel_bits(p, 0, sh);
        }
        (p >> sh) & 3
    }

    /// Sprite height per LCDC: 8 or 16 pixels.
    pub fn obj_size(&self) -> (r: u8)
        ensures
            r == 8 || r == 16,
            r == if self.ctrl & CTRL_OBJ_SIZE == 0 { 8u8 } else { 16u8 },
    {
        if self.ctrl & CTRL_OBJ_SIZE == 0 { 8 } else { 16 }
    }

    /// The OR of the enabled STAT interrupt sources in the current state.
    fn stat_line(&self) -> (r: bool)
    {
        self.is_lcd_enabled() && ((self.stat & STAT_LYC_INT != 0 && self.stat & STAT_LYC_EQ_LY
            != 0) || (self.stat & STAT_MODE0_INT != 0 && self.mode == PpuMode::Hblank) || (
        self.stat & STAT_MODE1_INT != 0 && self.mode == PpuMode::Vblank) || (self.stat
            & STAT_MODE2_INT != 0 && self.mode == PpuMode::OamScan))
    }

    /// Re-evaluates the latched STAT line; an interrupt is raised only on
    /// its rising edge ("STAT blocking").
    fn send_stat_int(&mut self) -> (ints: u8)
        requires
            old(self).wf(),
        ensures
            final(self).wf(),
            *final(self) == (Ppu { stat_int_flag: final(self).stat_int_flag, ..*old(self) }),
            ints == 0 || ints == INT_LCD,
    {
        let line: bool = self.stat_line();
        let ints: u8 = if line && !self.stat_int_flag { INT_LCD } else { 0 };
        self.stat_int_flag = line;
        ints
    }

    /// Updates the LYC==LY flag after LY or LYC changed.
    fn update_lyc(&mut self)
        requires
            old(self).wf(),
        ensures
            final(self).wf(),
            *final(self) == (Ppu { stat: final(self).stat, ..*old(self) }),
    {
        if self.lyc == self.ly {
            self.stat = self.stat | STAT_LYC_EQ_LY;
        } else {
            self.stat = self.stat & !STAT_LYC_EQ_LY;
        }
    }

    /// Collects up to ten sprites whose Y range covers this scanline, in
    /// OAM order: every selected entry is decoded from its OAM slot and
    /// its Y range (8 or 16 rows per LCDC.obj_size) contains LY.
    fn oam_scan(&mut self)
        requires
            old(self).wf(),
        ensures
            final(self).wf(),
            *final(self) == (Ppu { fetcher: final(self).fetcher, ..*old(self) }),
            final(self).fetcher == (Fetcher {
                obj_visible: final(self).fetcher.obj_visible,
                ..old(self).fetcher
            }),
            final(self).fetcher.obj_visible.len() <= 10,
            forall|k: int|
                0 <= k < final(self).fetcher.obj_visible.len() ==> ({
                    let o = #[trigger] final(self).fetcher.obj_visible[k];
                    &&& o.i < 40
                    &&& o.y == old(self).oam[4 * o.i]
                    &&& o.x == old(self).oam[4 * o.i + 1]
                    &&& old(self).ly + 16 >= o.y
                    &&& old(self).ly + 16 < o.y + (if old(self).ctrl & CTRL_OBJ_SIZE == 0 {
                        8int
                    } else {
                        16int
                    })
                }),
    {
        self.fetcher.obj_visible = Vec::new();
        let size: u8 = self.obj_size();
        let ly16: u16 = self.ly as u16 + 16;
        let mut i: usize = 0;
        while i < 40
            invariant
                i <= 40,
                old(self).wf(),
                *self == (Ppu { fetcher: self.fetcher, ..*old(self) }),
                self.fetcher == (Fetcher {
                    obj_visible: self.fetcher.obj_visible,
                    ..old(self).fetcher
                }),
                self.fetcher.obj_visible.len() <= 10,
                size == (if old(self).ctrl & CTRL_OBJ_SIZE == 0 { 8int } else { 16int }),
                ly16 == old(self).ly + 16,
                forall|k: int|
                    0 <= k < self.fetcher.obj_visible.len() ==> ({
                        let o = #[trigger] self.fetcher.obj_visible[k];
                        &&& o.i < 40
                        &&& o.y == old(self).oam[4 * o.i]
                        &&& o.x == old(self).oam[4 * o.i + 1]
                        &&& old(self).ly + 16 >= o.y
                        &&& old(self).ly + 16 < o.y + (if old(self).ctrl & CTRL_OBJ_SIZE == 0 {
                            8int
                        } else {
                            16int
                        })
                    }),
            decreases 40 - i,
        {
            let y: u16 = self.oam[4 * i] as u16;
            if ly16 >= y && ly16 < y + size as u16 {
                if self.fetcher.obj_visible.len() < 10 {
                    let entry = OamObject::new(
                        vstd::slice::slice_subrange(self.oam.as_slice(), 4 * i, 4 * i + 4),
                        i as u8,
                    );
                    self.fetcher.obj_visible.push(entry);
                }
            }
            i = i + 1;
        }
    }

    /// Rebuilds the sprite overlay for this scanline. Iterating in OAM
    /// order and letting a pixel stand only when no sprite with a smaller
    /// screen X has claimed it makes the lowest-X sprite (lowest OAM index
    /// on ties) win each pixel.
    fn fill_obj_scanline(&mut self)
        requires
            old(self).wf(),
            old(self).ly <= 153,
        ensures
            final(self).wf(),
            *final(self) == (Ppu { fetcher: final(self).fetcher, ..*old(self) }),
            final(self).fetcher == (Fetcher {
                obj_scanline: final(self).fetcher.obj_scanline,
                ..old(self).fetcher
            }),
    {
        let mut cleared: Vec<ObjFifoEntry> = Vec::new();
        let mut ci: usize = 0;
        while ci < 160
            invariant
                ci <= 160,
                cleared.len() == ci,
                forall|j: int| 0 <= j < ci ==> #[trigger] cleared[j].color < 4,
            decreases 160 - ci,
        {
            cleared.push(ObjFifoEntry { color: 0, palette: false, priority: false, src_x: 0 });
            ci = ci + 1;
        }
        self.fetcher.obj_scanline = cleared;
        if !self.is_lcd_enabled() || self.ctrl & CTRL_OBJ_ENABLED == 0 {
            return;
        }
        let size: u8 = self.obj_size();
        let ly16: u16 = self.ly as u16 + 16;
        let count: usize = self.fetcher.obj_visible.len();
        let ghost mid: Ppu = *self;
        let mut oi: usize = 0;
        while oi < count
            invariant
                oi <= count,
                mid.wf(),
                count == self.fetcher.obj_visible.len(),
                *self == (Ppu { fetcher: self.fetcher, ..mid }),
                self.fetcher == (Fetcher {
                    obj_scanline: self.fetcher.obj_scanline,
                    ..mid.fetcher
                }),
                self.fetcher.obj_scanline.len() == 160,
                forall|k: int| 0 <= k < 160 ==> #[trigger] self.fetcher.obj_scanline[k].color < 4,
                size == 8 || size == 16,
                ly16 == self.ly + 16,
            decreases count - oi,
        {
            let objx: u8 = self.fetcher.obj_visible[oi].x;
            let objy: u8 = self.fetcher.obj_visible[oi].y;
            if objx != 0 && objx < 168 {
                let y16: u16 = objy as u16;
                if ly16 >= y16 && ly16 < y16 + size as u16 {
                    let row: u16 = ly16 - y16;
                    let tile_id: u8 = if size == 16 {
                        self.fetcher.obj_visible[oi].tile_id & 0xFE
                    } else {
                        self.fetcher.obj_visible[oi].tile_id
                    };
                    let y_offset: u16 = if self.fetcher.obj_visible[oi].y_flip {
                        (size as u16 - 1) - row
                    } else {
                        row
                    };
                    let base: u16 = 16 * (tile_id as u16) + 2 * y_offset;
                    let tile_lo: u8 = self.vram_read(base);
                    let tile_hi: u8 = self.vram_read(base + 1);
                    let x_flip: bool = self.fetcher.obj_visible[oi].x_flip;
                    let palette: bool = self.fetcher.obj_visible[oi].dmg_palette;
                    let priority: bool = self.fetcher.obj_visible[oi].priority;
                    let mut px: u16 = 0;
                    while px < 8
                        invariant
                            px <= 8,
                            mid.wf(),
                            *self == (Ppu { fetcher: self.fetcher, ..mid }),
                            self.fetcher == (Fetcher {
                                obj_scanline: self.fetcher.obj_scanline,
                                ..mid.fetcher
                            }),
                            self.fetcher.obj_scanline.len() == 160,
                            forall|k: int| 0 <= k < 160 ==> #[trigger] self.fetcher.obj_scanline[
                                k
                            ].color < 4,
                            objx != 0 && objx < 168,
                        decreases 8 - px,
                    {
                        let col16: u16 = objx as u16 + px;
                        if col16 >= 8 && col16 < 168 {
                            let x: u16 = col16 - 8;
                            let bit: u8 = if x_flip { px as u8 } else { 7 - px as u8 };
                            let lo: u8 = tile_lo;
                            let hi: u8 = tile_hi;
                            proof {
                                lemma_pixel_bits(hi, lo, bit);
                            }
                            let color: u8 = ((hi >> bit) & 1) << 1 | ((lo >> bit) & 1);
                            if color != 0 {
                                let existing = self.fetcher.obj_scanline[x as usize];
                                if existing.color == 0 || objx < existing.src_x {
                                    self.fetcher.obj_scanline.set(
                                        x as usize,
                                        ObjFifoEntry { color, palette, priority, src_x: objx },
                                    );
                                }
                            }
                        }
                        px = px + 1;
                    }
                }
            }
            oi = oi + 1;
        }
    }

    /// One dot of the mode-3 fetcher: checks for a window start, advances
    /// the four-step fetch cycle every second dot, and tries to push one
    /// pixel to the screen.
    fn fetcher_step(&mut self)
        requires
            old(self).wf(),
            old(self).fetcher.pixel_x < 160,
            old(self).ly < 144,
        ensures
            final(self).wf(),
            final(self).ly == old(self).ly,
            final(self).tcycles == old(self).tcycles,
            final(self).ctrl == old(self).ctrl,
            final(self).mode == old(self).mode,
            final(self).stat == old(self).stat,
            final(self).frame_ready == old(self).frame_ready,
            final(self).stat_int_flag == old(self).stat_int_flag,
            final(self).fetcher.pixel_x <= 160,
    {
        if !self.fetcher.wnd_hit && self.ctrl & CTRL_WND_ENABLED != 0 && self.fetcher.pixel_x
            as u16 + 7 >= self.wx as u16 && self.ly >= self.wy {
            self.fetcher.wnd_hit = true;
            self.fetcher.x = 0;
            if self.wx < 7 {
                self.fetcher.wnd_scroll_x = 7 - self.wx;
            }
            self.fetcher.bg_fifo.clear();
            self.fetcher.should_do_step = false;
            self.fetcher.state = FetcherState::Tile;
            return;
        }
        if self.fetcher.should_do_step {
            match self.fetcher.state {
                FetcherState::Tile => {
                    if self.fetcher.wnd_hit {
                        let tilemap: u16 = self.wnd_tilemap();
                        let y: u8 = self.wnd_line;
                        let id_addr: u16 = tilemap + 32 * ((y as u16) / 8) + self.fetcher.x
                            as u16;
                        self.fetcher.x = (self.fetcher.x + 1) % 32;
                        self.fetcher.tile_y = y;
                        self.fetcher.tileset_id = self.vram_read(id_addr);
                    } else {
                        let tilemap: u16 = self.bg_tilemap();
                        let y: u8 = ((self.ly as u16 + self.scy as u16) % 256) as u8;
                        let sc: u8 = self.scx / 8;
                        let x: u8 = (self.fetcher.x + sc) % 32;
                        let id_addr: u16 = tilemap + 32 * ((y as u16) / 8) + x as u16;
                        self.fetcher.x = (self.fetcher.x + 1) % 32;
                        self.fetcher.tile_y = y;
                        self.fetcher.tileset_id = self.vram_read(id_addr);
                    }
                    self.fetcher.state = FetcherState::DataLow;
                },
                FetcherState::DataLow => {
                    let tile_start: u16 = self.tileset_addr(self.fetcher.tileset_id);
                    self.fetcher.tileset_addr = tile_start + 2 * ((self.fetcher.tile_y as u16)
                        % 8);
                    self.fetcher.tile_lo = self.vram_read(self.fetcher.tileset_addr);
                    self.fetcher.state = FetcherState::DataHigh;
                },
                FetcherState::DataHigh => {
                    self.fetcher.tile_hi = self.vram_read(self.fetcher.tileset_addr + 1);
                    self.fetcher.state = FetcherState::Push;
                },
                FetcherState::Push => {
                    if self.fetcher.bg_fifo.len() == 0 {
                        let lo: u8 = self.fetcher.tile_lo;
                        let hi: u8 = self.fetcher.tile_hi;
                        let ghost snap: Ppu = *self;
                        let mut bit: u8 = 8;
                        while bit > 0
                            invariant
                                bit <= 8,
                                *self == (Ppu { fetcher: self.fetcher, ..snap }),
                                self.fetcher == (Fetcher {
                                    bg_fifo: self.fetcher.bg_fifo,
                                    ..snap.fetcher
                                }),
                                self.fetcher.bg_fifo.len() == 8 - bit,
                                forall|k: int| 0 <= k < self.fetcher.bg_fifo.len()
                                    ==> #[trigger] self.fetcher.bg_fifo[k] < 4,
                            decreases bit,
                        {
                            let b: u8 = bit - 1;
                            proof {
                                lemma_pixel_bits(hi, lo, b);
                            }
                            let pixel: u8 = ((hi >> b) & 1) << 1 | ((lo >> b) & 1);
                            self.fetcher.bg_fifo.push(pixel);
                            bit = b;
                        }
                        self.fetcher.state = FetcherState::Tile;
                    } else {
                        self.fetcher.should_do_step = false;
                    }
                },
            }
        }
        self.fetcher.should_do_step = !self.fetcher.should_do_step;
        self.push_pixel();
    }

    /// Pops one background pixel, discards it for fine scrolling if needed,
    /// composes it with the sprite overlay, and writes it to the frame.
    fn push_pixel(&mut self)
        requires
            old(self).wf(),
            old(self).fetcher.pixel_x < 160,
            old(self).ly < 144,
        ensures
            final(self).wf(),
            final(self).ly == old(self).ly,
            final(self).tcycles == old(self).tcycles,
            final(self).ctrl == old(self).ctrl,
            final(self).mode == old(self).mode,
            final(self).stat == old(self).stat,
            final(self).frame_ready == old(self).frame_ready,
            final(self).stat_int_flag == old(self).stat_int_flag,
            final(self).fetcher.pixel_x <= 160,
    {
        if self.fetcher.bg_fifo.len() == 0 {
            return;
        }
        let bg_color: u8 = self.fetcher.bg_fifo.remove(0);
        if self.fetcher.wnd_scroll_x > 0 {
            self.fetcher.wnd_scroll_x = self.fetcher.wnd_scroll_x - 1;
            return;
        }
        if !self.fetcher.wnd_hit && self.fetcher.bg_scroll_x < self.scx % 8 {
            self.fetcher.bg_scroll_x = self.fetcher.bg_scroll_x + 1;
            return;
        }
        let obj = self.fetcher.obj_scanline[self.fetcher.pixel_x as usize];
        let bg_sub: u8 = if self.ctrl & CTRL_BG_WND_ENABLED != 0 { bg_color } else { 0 };
        let color: u8 = if self.ctrl & CTRL_OBJ_ENABLED != 0 && obj.color != 0 && (obj.priority
            || bg_sub == 0) {
            self.obj_palette(obj.palette, obj.color)
        } else {
            self.bg_palette(bg_sub)
        };
        let px: usize = self.fetcher.pixel_x as usize;
        let lyu: usize = self.ly as usize;
        self.lcd.set_pixel(px, lyu, color);
        self.fetcher.pixel_x = self.fetcher.pixel_x + 1;
    }

    /// End-of-scanline bookkeeping: advances the window line counter when
    /// the window was visible, increments LY (wrapping the 154-line frame),
    /// enters VBlank at line 144, and re-evaluates the LYC compare.
    fn ly_inc(&mut self) -> (ints: u8)
        requires
            old(self).wf_line_end(),
        ensures
            final(self).wf(),
            final(self).tcycles == 0,
            final(self).ctrl == old(self).ctrl,
            final(self).ly == if old(self).ly == 153 { 0int } else { old(self).ly + 1 },
            final(self).frame_ready == (old(self).frame_ready || old(self).ly == 143),
            old(self).ly == 143 ==> ints & INT_VBLANK != 0,
            ints & 0xFC == 0,
    {
        let mut ints: u8 = 0;
        if self.ly >= self.wy && self.wy < 143 && self.wx < 166 && self.wnd_line < 255 {
            self.wnd_line = self.wnd_line + 1;
        }
        if self.ly == 153 {
            self.ly = 0;
            self.wnd_line = 0;
        } else {
            self.ly = self.ly + 1;
        }
        if self.ly == 144 {
            self.mode = PpuMode::Vblank;
            ints = ints | INT_VBLANK;
            proof {
                crate::lemma_or_bit(0, INT_VBLANK, INT_VBLANK);
            }
            self.frame_ready = true;
        } else if self.ly < 144 {
            self.mode = PpuMode::OamScan;
            self.fetcher.reset();
        }
        self.update_lyc();
        let stat_ints: u8 = self.send_stat_int();
        proof {
            crate::lemma_or_bit(ints, stat_ints, INT_VBLANK);
            assert(0u8 | 1u8 == 1u8) by (bit_vector);
            lemma_ints_mask(ints, stat_ints);
        }
        ints = ints | stat_ints;
        ints
    }

    /// Advances the PPU by one dot; returns the interrupt bits raised.
    ///
    /// While the LCD is enabled, the frame position advances by exactly one
    /// dot per call, wrapping after 70224 dots, and LY is always the frame
    /// position divided by 456 — so LY cycles through 0..153 once per
    /// 70224 T-cycles. The mode is tied to the position by `wf`, which this
    /// preserves: OAM scan covers dots 0..79 of its line, drawing only dots
    /// 80 and later, and lines 144..153 are exactly the VBlank mode.
    pub fn tick(&mut self) -> (ints: u8)
        requires
            old(self).wf(),
        ensures
            final(self).wf(),
            final(self).ctrl == old(self).ctrl,
            ints & 0xFC == 0,
            old(self).lcd_enabled_spec() ==> final(self).dot() == if old(self).dot() + 1 == 70224 {
                0int
            } else {
                old(self).dot() + 1
            },
            old(self).lcd_enabled_spec() ==> final(self).ly * 456 <= final(self).dot()
                && final(self).dot() < final(self).ly * 456 + 456,
            !old(self).lcd_enabled_spec() ==> *final(self) == (Ppu {
                tcycles: final(self).tcycles,
                frame_ready: final(self).frame_ready,
                ..*old(self)
            }) && final(self).tcycles == (if old(self).tcycles + 1 == 70224 {
                0int
            } else {
                old(self).tcycles + 1
            }) && ints == 0,
            old(self).lcd_enabled_spec() && old(self).dot() + 1 == 144 * 456
                ==> final(self).frame_ready && ints & INT_VBLANK != 0,
    {
        proof {
            lemma_ints_mask(0, 0);
        }
        if !self.is_lcd_enabled() {
            self.tcycles = self.tcycles + 1;
            if self.tcycles == 70224 {
                self.tcycles = 0;
                self.frame_ready = true;
            }
            return 0;
        }
        let mut ints: u8 = 0;
        match self.mode {
            PpuMode::OamScan => {
                if self.tcycles == 79 {
                    self.oam_scan();
                    self.fill_obj_scanline();
                    self.mode = PpuMode::DrawingPixels;
                }
            },
            PpuMode::DrawingPixels => {
                if self.fetcher.pixel_x >= 160 {
                    self.fetcher.reset();
                    self.mode = PpuMode::Hblank;
                    let stat_ints: u8 = self.send_stat_int();
                    proof {
                        lemma_ints_mask(ints, stat_ints);
                    }
                    ints = ints | stat_ints;
                } else {
                    self.fetcher_step();
                }
            },
            PpuMode::Hblank => {},
            PpuMode::Vblank => {},
        }
        self.tcycles = self.tcycles + 1;
        if self.tcycles == 456 {
            self.tcycles = 0;
            let line_ints: u8 = self.ly_inc();
            proof {
                crate::lemma_or_bit(ints, line_ints, INT_VBLANK);
                lemma_ints_mask(ints, line_ints);
            }
            ints = ints | line_ints;
        }
        ints
    }

    /// The frame position `n` T-cycles after starting from dot `start`.
    pub open spec fn dot_after(start: int, n: nat) -> int {
        (start + n) % 70224
    }

    /// LY cycles through 0..153 once every 70224 T-cycles while the LCD is
    /// enabled: `tick` advances the frame position by exactly one dot per
    /// T-cycle (its contract), the position returns to its start value
    /// after exactly 70224 ticks, and the scanline it implies — the
    /// position divided by 456, which `tick` keeps equal to LY — stays
    /// within 0..153, spending 456 consecutive dots on each line.
    pub proof fn lemma_ly_frame_period(start: int, n: nat)
        requires
            0 <= start < 70224,
        ensures
            Ppu::dot_after(start, 70224) == start,
            0 <= Ppu::dot_after(start, n) < 70224,
            0 <= Ppu::dot_after(start, n) / 456 <= 153,
    {
        vstd::arithmetic::div_mod::lemma_mod_add_multiples_vanish(start, 70224);
        vstd::arithmetic::div_mod::lemma_small_mod(start as nat, 70224);
        vstd::arithmetic::div_mod::lemma_mod_bound(start + n, 70224);
        vstd::arithmetic::div_mod::lemma_div_is_ordered(Ppu::dot_after(start, n), 70223, 456);
    }

    /// What a read of a PPU register returns. The STAT read carries the
    /// current mode in its low bits and bit 7 set.
    pub open spec fn read_spec(self, addr: u16) -> u8 {
        if addr == 0xFF40 { self.ctrl }
        else if addr == 0xFF41 {
            ((self.stat & 0x7C) | 0x80) | (match self.mode {
                PpuMode::Hblank => 0u8,
                PpuMode::Vblank => 1u8,
                PpuMode::OamScan => 2u8,
                PpuMode::DrawingPixels => 3u8,
            })
        } else if addr == 0xFF42 { self.scy }
        else if addr == 0xFF43 { self.scx }
        else if addr == 0xFF44 { self.ly }
        else if addr == 0xFF45 { self.lyc }
        else if addr == 0xFF47 { self.bgp }
        else if addr == 0xFF48 { self.obp0 }
        else if addr == 0xFF49 { self.obp1 }
        else if addr == 0xFF4A { self.wy }
        else if addr == 0xFF4B { self.wx }
        else { 0xFF }
    }

    pub fn read(&self, addr: u16) -> (r: u8)
        ensures
            r == self.read_spec(addr),
    {
        if addr == 0xFF40 { self.ctrl }
        else if addr == 0xFF41 {
            let mode_bits: u8 = match self.mode {
                PpuMode::Hblank => 0,
                PpuMode::Vblank => 1,
                PpuMode::OamScan => 2,
                PpuMode::DrawingPixels => 3,
            };
            ((self.stat & 0x7C) | 0x80) | mode_bits
        } else if addr == 0xFF42 { self.scy }
        else if addr == 0xFF43 { self.scx }
        else if addr == 0xFF44 { self.ly }
        else if addr == 0xFF45 { self.lyc }
        else if addr == 0xFF47 { self.bgp }
        else if addr == 0xFF48 { self.obp0 }
        else if addr == 0xFF49 { self.obp1 }
        else if addr == 0xFF4A { self.wy }
        else if addr == 0xFF4B { self.wx }
        else { 0xFF }
    }

    /// A write to a PPU register; returns the interrupt bits raised by a
    /// re-evaluated STAT line. Disabling the LCD blanks the frame and
    /// resets LY, the window line, the fetcher and the mode; enabling it
    /// restarts the frame from line 0.
    pub fn write(&mut self, addr: u16, val: u8) -> (ints: u8)
        requires
            old(self).wf(),
        ensures
            final(self).wf(),
            ints == 0 || ints == INT_LCD,
            addr == 0xFF40 ==> final(self).ctrl == val,
            addr == 0xFF40 && old(self).lcd_enabled_spec() && val & CTRL_LCD_ENABLED == 0 ==> ({
                &&& final(self).ly == 0
                &&& final(self).wnd_line == 0
                &&& final(self).tcycles == 0
                &&& final(self).mode == PpuMode::Hblank
                &&& final(self).frame_ready == old(self).frame_ready
                &&& forall|i: int|
                    0 <= i < final(self).lcd.index.len() ==> #[trigger] final(self).lcd.index[i]
                        == 0
            }),
            addr == 0xFF40 && !old(self).lcd_enabled_spec() && val & CTRL_LCD_ENABLED != 0 ==> ({
                &&& final(self).ly == 0
                &&& final(self).wnd_line == 0
                &&& final(self).tcycles == 0
                &&& final(self).mode == PpuMode::OamScan
            }),
            addr == 0xFF42 ==> final(self).scy == val && final(self).read_spec(addr) == val,
            addr == 0xFF43 ==> final(self).scx == val && final(self).read_spec(addr) == val,
            addr == 0xFF45 ==> final(self).lyc == val && final(self).read_spec(addr) == val,
            addr == 0xFF47 ==> final(self).bgp == val && final(self).read_spec(addr) == val,
            addr == 0xFF48 ==> final(self).obp0 == val && final(self).read_spec(addr) == val,
            addr == 0xFF49 ==> final(self).obp1 == val && final(self).read_spec(addr) == val,
            addr == 0xFF4A ==> final(self).wy == val && final(self).read_spec(addr) == val,
            addr == 0xFF4B ==> final(self).wx == val && final(self).read_spec(addr) == val,
            addr == 0xFF41 ==> final(self).stat == ((val & 0x78) | (old(self).stat & 0x04)),
    {
        let mut ints: u8 = 0;
        if addr == 0xFF40 {
            let was_enabled: bool = self.is_lcd_enabled();
            self.ctrl = val;
            let now_enabled: bool = self.is_lcd_enabled();
            if was_enabled != now_enabled {
                if now_enabled {
                    self.tcycles = 0;
                    self.ly = 0;
                    self.wnd_line = 0;
                    self.mode = PpuMode::OamScan;
                    self.fetcher.reset();
                    self.update_lyc();
                    let stat_ints: u8 = self.send_stat_int();
                    ints = stat_ints;
                } else {
                    self.tcycles = 0;
                    self.ly = 0;
                    self.wnd_line = 0;
                    self.mode = PpuMode::Hblank;
                    self.fetcher.reset();
                    self.lcd.reset();
                }
            }
        } else if addr == 0xFF41 {
            self.stat = (val & 0x78) | (self.stat & 0x04);
            let stat_ints: u8 = self.send_stat_int();
            ints = stat_ints;
        } else if addr == 0xFF42 {
            self.scy = val;
        } else if addr == 0xFF43 {
            self.scx = val;
        } else if addr == 0xFF45 {
            self.lyc = val;
            self.update_lyc();
            let stat_ints: u8 = self.send_stat_int();
            ints = stat_ints;
        } else if addr == 0xFF47 {
            self.bgp = val;
        } else if addr == 0xFF48 {
            self.obp0 = val;
        } else if addr == 0xFF49 {
            self.obp1 = val;
        } else if addr == 0xFF4A {
            self.wy = val;
        } else if addr == 0xFF4B {
            self.wx = val;
        }
        ints
    }
}

} // verus!
