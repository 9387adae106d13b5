//! The bus: address decoder and aggregator. It owns work RAM, high RAM, the
//! interrupt-enable and interrupt-flag registers, the OAM-DMA controller and
//! every peripheral, routes reads and writes to them, and ticks them all on
//! each machine cycle.

use vstd::prelude::*;
use crate::apu::Apu;
use crate::joypad::Joypad;
use crate::mbc::Cart;
use crate::ppu::{Ppu, PpuMode};
use crate::serial::Serial;
use crate::timer::Timer;

verus! {

/// Bits of the interrupt-enable and interrupt-flag registers.
pub const INT_VBLANK: u8 = 0x01;

pub const INT_LCD: u8 = 0x02;

pub const INT_TIMER: u8 = 0x04;

pub const INT_SERIAL: u8 = 0x08;

pub const INT_JOYPAD: u8 = 0x10;

/// Raises interrupt bits in a flag register: devices signal events by
/// OR-ing their bit into the shared byte.
pub fn send_interrupt(intf: &mut u8, mask: u8)
    ensures
        *final(intf) == *old(intf) | mask,
{
    *intf = *intf | mask;
}

/// The OAM-DMA controller: a latched source page, a 0..160 progress counter
/// (counting down), and a one-cycle start delay.
pub struct Dma {
    /// The value last written to the DMA register.
    pub value: u8,
    /// Source base address (the written page times 0x100).
    pub start: u16,
    /// Bytes left to copy; 160 right after initiation, 0 when idle.
    pub remaining: u16,
    /// One-cycle start delay armed by a write to the DMA register.
    pub delay: bool,
}

impl Dma {
    pub open spec fn wf(self) -> bool {
        &&& self.remaining <= 160
        &&& self.start <= 0xFF00
    }

    pub fn new() -> (r: Dma)
        ensures
            r.wf(),
            r.remaining == 0,
            !r.delay,
    {
        Dma { value: 0, start: 0, remaining: 0, delay: false }
    }

    /// A write to the DMA register: latch the source page and arm the
    /// one-cycle start delay.
    pub fn init(&mut self, val: u8)
        ensures
            final(self).wf(),
            final(self).value == val,
            final(self).start == (val as u16) << 8,
            final(self).remaining == 160,
            final(self).delay,
    {
        assert((val as u16) << 8 <= 0xFF00) by (bit_vector);
        self.value = val;
        self.start = (val as u16) << 8;
        self.remaining = 160;
        self.delay = true;
    }

    /// How many bytes have been copied so far.
    pub fn offset(&self) -> (r: u16)
        requires
            self.wf(),
        ensures
            r == 160 - self.remaining,
    {
        160 - self.remaining
    }

    /// Source address of the next byte to copy.
    pub fn current(&self) -> (r: u16)
        requires
            self.wf(),
        ensures
            r == self.start + 160 - self.remaining,
    {
        self.start + self.offset()
    }

    /// Marks one byte as copied.
    pub fn advance(&mut self)
        requires
            old(self).wf(),
            old(self).remaining > 0,
        ensures
            final(self).wf(),
            *final(self) == (Dma { remaining: (old(self).remaining - 1) as u16, ..*old(self) }),
    {
        self.remaining = self.remaining - 1;
    }

    pub fn is_transferring(&self) -> (r: bool)
        ensures
            r == (self.remaining > 0),
    {
        self.remaining > 0
    }
}

/// Work RAM (and its echo) covers 0xC000..0xFDFF.
pub open spec fn is_wram(addr: u16) -> bool {
    0xC000 <= addr < 0xFE00
}

/// High RAM covers 0xFF80..0xFFFE.
pub open spec fn is_hram(addr: u16) -> bool {
    0xFF80 <= addr < 0xFFFF
}

/// Index facts of the work-RAM mirror mask: any address of the region
/// (echo included) masks into the backing range, and two neighbouring
/// addresses never alias.
pub proof fn lemma_wram_index(addr: u16)
    ensures
        0xC000 <= addr < 0xFE00 ==> 0xC000 <= (addr & 0xDFFF) < 0xE000,
        0xC000 <= addr < 0xFDFF ==> (addr & 0xDFFF) != (((addr + 1) as u16) & 0xDFFF) && 0xC000
            <= (((addr + 1) as u16) & 0xDFFF) < 0xE000,
{
    assert((0xC000 <= addr < 0xFE00 ==> 0xC000 <= (addr & 0xDFFF) < 0xE000) && (0xC000 <= addr
        < 0xFDFF ==> (addr & 0xDFFF) != (((addr + 1) as u16) & 0xDFFF) && 0xC000 <= (((addr + 1)
        as u16) & 0xDFFF) < 0xE000)) by (bit_vector);
}

/// The I/O registers whose write-then-read behavior is exactly "reserved
/// bits read back as ones, the rest as written".
pub open spec fn io_simple_reg(addr: u16) -> bool {
    addr == 0xFF02 || addr == 0xFF06 || addr == 0xFF07 || addr == 0xFF0F || addr == 0xFF40
        || addr == 0xFF42 || addr == 0xFF43 || addr == 0xFF45 || addr == 0xFF47 || addr == 0xFF48
        || addr == 0xFF49 || addr == 0xFF4A || addr == 0xFF4B || addr == 0xFFFF
}

/// The reserved-bit mask R of such a register: those bits read back as 1.
pub open spec fn io_reserved_mask(addr: u16) -> u8 {
    if addr == 0xFF02 { 0x7Cu8 } else if addr == 0xFF07 { 0xF8u8 } else if addr == 0xFF0F {
        0xE0u8
    } else { 0u8 }
}

pub struct Bus {
    /// 8 KiB work RAM.
    pub ram: Vec<u8>,
    /// 127-byte high RAM.
    pub hram: Vec<u8>,
    pub dma: Dma,
    pub cart: Cart,
    pub ppu: Ppu,
    pub timer: Timer,
    pub serial: Serial,
    pub joypad: Joypad,
    pub apu: Apu,
    /// Interrupt-enable register (0xFFFF).
    pub inte: u8,
    /// Interrupt-flag register (0xFF0F); the low five bits are meaningful.
    pub intf: u8,
    /// Latch set by a write to the boot-ROM-disable register (0xFF50).
    pub boot_disabled: bool,
    /// T-cycles into the current machine cycle, for the DMA byte cadence.
    pub dma_phase: u8,
}

impl Bus {
    pub open spec fn wf(self) -> bool {
        &&& self.ram.len() == 8192
        &&& self.hram.len() == 127
        &&& self.dma.wf()
        &&& self.cart.wf()
        &&& self.ppu.wf()
        &&& self.timer.wf()
        &&& self.apu.wf()
        &&& self.dma_phase < 4
    }

    /// Power-on bus around a loaded cartridge.
    pub fn new(cart: Cart) -> (r: Bus)
        requires
            cart.wf(),
        ensures
            r.wf(),
            r.cart == cart,
            r.inte == 0,
            r.intf == 0,
            r.dma.remaining == 0,
            forall|i: int| 0 <= i < 127 ==> #[trigger] r.hram[i] == 0,
            forall|i: int| 0 <= i < 8192 ==> #[trigger] r.ram[i] == 0,
    {
        let mut ram: Vec<u8> = Vec::new();
        let mut i: usize = 0;
        while i < 8192
            invariant
                i <= 8192,
                ram.len() == i,
                forall|j: int| 0 <= j < i ==> #[trigger] ram[j] == 0,
            decreases 8192 - i,
        {
            ram.push(0);
            i = i + 1;
        }
        let mut hram: Vec<u8> = Vec::new();
        let mut j: usize = 0;
        while j < 127
            invariant
                j <= 127,
                hram.len() == j,
                forall|k: int| 0 <= k < j ==> #[trigger] hram[k] == 0,
            decreases 127 - j,
        {
            hram.push(0);
            j = j + 1;
        }
        Bus {
            ram,
            hram,
            dma: Dma::new(),
            cart,
            ppu: Ppu::new(),
            timer: Timer::new(),
            serial: Serial::new(),
            joypad: Joypad::new(),
            apu: Apu::new(),
            inte: 0,
            intf: 0,
            boot_disabled: false,
            dma_phase: 0,
        }
    }

    /// Whether the CPU may currently see VRAM (blocked in mode 3).
    pub open spec fn vram_blocked(self) -> bool {
        self.ppu.lcd_enabled_spec() && self.ppu.mode == PpuMode::DrawingPixels
    }

    /// Whether the CPU may currently see OAM (blocked in modes 2 and 3).
    pub open spec fn oam_blocked(self) -> bool {
        self.ppu.lcd_enabled_spec() && (self.ppu.mode == PpuMode::OamScan || self.ppu.mode
            == PpuMode::DrawingPixels)
    }

    /// What a read returns, for every region whose value is a pure function
    /// of the bus state (everything but the APU registers).
    pub open spec fn read_spec(self, addr: u16) -> u8 {
        if addr < 0x8000 { self.cart.rom[self.cart.rom_addr_spec(addr)] }
        else if addr < 0xA000 {
            if self.vram_blocked() { 0xFFu8 } else { self.ppu.vram[addr - 0x8000] }
        } else if addr < 0xC000 { self.cart.ram_read_spec((addr - 0xA000) as u16) }
        else if addr < 0xFE00 { self.ram[(addr & 0xDFFF) - 0xC000] }
        else if addr < 0xFEA0 {
            if self.oam_blocked() { 0xFFu8 } else { self.ppu.oam[addr - 0xFE00] }
        } else if addr < 0xFF00 { 0xFFu8 }
        else if addr == 0xFF00 { self.joypad.read_spec() }
        else if addr == 0xFF01 || addr == 0xFF02 { self.serial.read_spec(addr) }
        else if 0xFF04 <= addr && addr <= 0xFF07 { self.timer.read_spec(addr) }
        else if addr == 0xFF0F { self.intf | 0xE0 }
        else if addr == 0xFF46 { self.dma.value }
        else if 0xFF40 <= addr && addr <= 0xFF4B { self.ppu.read_spec(addr) }
        else if is_hram(addr) { self.hram[addr - 0xFF80] }
        else if addr == 0xFFFF { self.inte }
        else { 0xFFu8 }
    }

    /// Whether `addr` is an APU register or wave RAM (the one region
    /// `read_spec` does not describe).
    pub open spec fn is_apu(addr: u16) -> bool {
        0xFF10 <= addr && addr <= 0xFF3F
    }

    /// Routes a read to the owning device. The CPU sees 0xFF in VRAM
    /// during mode 3, in OAM during modes 2 and 3, in the unusable region,
    /// and at unmapped I/O.
    pub fn read(&self, addr: u16) -> (r: u8)
        requires
            self.wf(),
        ensures
            !Bus::is_apu(addr) ==> r == self.read_spec(addr),
    {
        if addr < 0x8000 {
            self.cart.rom_read(addr)
        } else if addr < 0xA000 {
            if self.ppu.is_lcd_enabled() && matches!(self.ppu.mode, PpuMode::DrawingPixels) {
                0xFF
            } else {
                self.ppu.vram[(addr - 0x8000) as usize]
            }
        } else if addr < 0xC000 {
            self.cart.ram_read(addr - 0xA000)
        } else if addr < 0xFE00 {
            let idx: u16 = addr & 0xDFFF;
            proof {
                lemma_wram_index(addr);
            }
            self.ram[(idx - 0xC000) as usize]
        } else if addr < 0xFEA0 {
            let blocked: bool = self.ppu.is_lcd_enabled() && (matches!(self.ppu.mode,
                PpuMode::OamScan) || matches!(self.ppu.mode, PpuMode::DrawingPixels));
            if blocked {
                0xFF
            } else {
                self.ppu.oam[(addr - 0xFE00) as usize]
            }
        } else if addr < 0xFF00 {
            0xFF
        } else if addr == 0xFF00 {
            self.joypad.read()
        } else if addr == 0xFF01 || addr == 0xFF02 {
            self.serial.read(addr)
        } else if 0xFF04 <= addr && addr <= 0xFF07 {
            self.timer.read(addr)
        } else if addr == 0xFF0F {
            self.intf | 0xE0
        } else if 0xFF10 <= addr && addr <= 0xFF3F {
            self.apu.read(addr)
        } else if addr == 0xFF46 {
            self.dma.value
        } else if 0xFF40 <= addr && addr <= 0xFF4B {
            self.ppu.read(addr)
        } else if 0xFF80 <= addr && addr < 0xFFFF {
            self.hram[(addr - 0xFF80) as usize]
        } else if addr == 0xFFFF {
            self.inte
        } else {
            0xFF
        }
    }

    /// Routes a write to the owning device.
    ///
    /// For high RAM and work RAM, reading the written address back yields
    /// the written byte. For the simple I/O registers, reading back yields
    /// the written value with the register's reserved bits set. A write to
    /// the ROM range is a bank-control command to the cartridge mapper;
    /// writes to the unusable region and to unmapped I/O are dropped.
    pub fn write(&mut self, addr: u16, val: u8)
        requires
            old(self).wf(),
        ensures
            final(self).wf(),
            addr < 0x8000 ==> *final(self) == (Bus { cart: final(self).cart, ..*old(self) })
                && final(self).cart.rom == old(self).cart.rom && final(self).cart.exram == old(
                self,
            ).cart.exram && final(self).cart.header == old(self).cart.header,
            addr < 0x2000 && old(self).cart.mbc is Mbc1 ==> (final(self).cart.mbc
                matches crate::mbc::Mbc::Mbc1(m1) && m1.ram_enabled == (val & 0x0F == 0x0A)),
            0x2000 <= addr < 0x4000 && old(self).cart.mbc is Mbc1 ==> (final(self).cart.mbc
                matches crate::mbc::Mbc::Mbc1(m1) && m1.rom_select == (
            if val & 0x1F == 0 {
                1int
            } else {
                (val & 0x1F) as int
            })),
            0x6000 <= addr < 0x8000 && old(self).cart.mbc is Mbc1 ==> (final(self).cart.mbc
                matches crate::mbc::Mbc::Mbc1(m1) && m1.extended_mode == (val & 1 != 0)),
            0x2000 <= addr < 0x3000 && old(self).cart.mbc is Mbc5 ==> (final(self).cart.mbc
                matches crate::mbc::Mbc::Mbc5(m1) && m1.rom_select == (old(
                self,
            ).cart.mbc->Mbc5_0.rom_select / 256) * 256 + val),
            0x3000 <= addr < 0x4000 && old(self).cart.mbc is Mbc5 ==> (final(self).cart.mbc
                matches crate::mbc::Mbc::Mbc5(m1) && m1.rom_select
                == old(self).cart.mbc->Mbc5_0.rom_select % 256 + (if val & 1 != 0 {
                256int
            } else {
                0int
            })),
            0xFEA0 <= addr < 0xFF00 ==> *final(self) == *old(self),
            addr != 0xFF0F ==> final(self).intf & old(self).intf == old(self).intf,
            addr == 0xFF03 || (0xFF08 <= addr <= 0xFF0E) || (0xFF4C <= addr < 0xFF50) || (0xFF51
                <= addr < 0xFF80) ==> *final(self) == *old(self),
            is_hram(addr) ==> final(self).read_spec(addr) == val && *final(self) == (Bus {
                hram: final(self).hram,
                ..*old(self)
            }),
            is_wram(addr) ==> final(self).read_spec(addr) == val && *final(self) == (Bus {
                ram: final(self).ram,
                ..*old(self)
            }),
            io_simple_reg(addr) ==> final(self).read_spec(addr) == (val & !io_reserved_mask(addr))
                | io_reserved_mask(addr),
            addr == 0xFFFF ==> *final(self) == (Bus { inte: val, ..*old(self) }),
            addr == 0xFF0F ==> *final(self) == (Bus { intf: val, ..*old(self) }),
            addr == 0xFF46 ==> final(self).dma.delay && final(self).dma.remaining == 160,
            addr != 0xFF46 ==> final(self).dma == old(self).dma,
            final(self).inte == if addr == 0xFFFF { val } else { old(self).inte },
            is_wram(addr) ==> final(self).ram@ == old(self).ram@.update(
                (addr & 0xDFFF) - 0xC000,
                val,
            ),
            is_hram(addr) ==> final(self).hram@ == old(self).hram@.update(addr - 0xFF80, val),
    {
        proof {
            assert(val | 0x7C == (val & !0x7Cu8) | 0x7C && (val & 7) | 0xF8 == (val & !0xF8u8)
                | 0xF8 && val | 0xE0 == (val & !0xE0u8) | 0xE0 && (val & !0u8) | 0u8 == val)
                by (bit_vector);
            crate::lemma_or_bit(0, 0, self.intf);
        }
        if addr < 0x8000 {
            self.cart.rom_write(addr, val);
        } else if addr < 0xA000 {
            let blocked: bool = self.ppu.is_lcd_enabled() && matches!(self.ppu.mode,
                PpuMode::DrawingPixels);
            if !blocked {
                self.ppu.vram.set((addr - 0x8000) as usize, val);
            }
        } else if addr < 0xC000 {
            self.cart.ram_write(addr - 0xA000, val);
        } else if addr < 0xFE00 {
            let idx: u16 = addr & 0xDFFF;
            proof {
                lemma_wram_index(addr);
            }
            self.ram.set((idx - 0xC000) as usize, val);
        } else if addr < 0xFEA0 {
            let blocked: bool = self.ppu.is_lcd_enabled() && (matches!(self.ppu.mode,
                PpuMode::OamScan) || matches!(self.ppu.mode, PpuMode::DrawingPixels));
            if !blocked {
                self.ppu.oam.set((addr - 0xFE00) as usize, val);
            }
        } else if addr < 0xFF00 {
            // Unusable region: writes are dropped.
        } else if addr == 0xFF00 {
            self.joypad.write(val);
        } else if addr == 0xFF01 || addr == 0xFF02 {
            self.serial.write(addr, val);
        } else if 0xFF04 <= addr && addr <= 0xFF07 {
            self.timer.write(addr, val);
        } else if addr == 0xFF0F {
            self.intf = val;
        } else if 0xFF10 <= addr && addr <= 0xFF3F {
            self.apu.write(addr, val);
        } else if addr == 0xFF46 {
            self.dma.init(val);
        } else if 0xFF40 <= addr && addr <= 0xFF4B {
            let ints: u8 = self.ppu.write(addr, val);
            let o: u8 = self.intf;
            proof {
                assert((o | ints) & o == o) by (bit_vector);
            }
            self.intf = o | ints;
        } else if addr == 0xFF50 {
            if val != 0 {
                self.boot_disabled = true;
            }
        } else if 0xFF80 <= addr && addr < 0xFFFF {
            self.hram.set((addr - 0xFF80) as usize, val);
        } else if addr == 0xFFFF {
            self.inte = val;
        }
    }

    /// Advances an in-progress OAM DMA by one byte: with the start delay
    /// spent and `remaining` bytes left, byte number 160 - remaining is
    /// read from the latched source page and stored at that OAM offset,
    /// and the count falls by one.
    pub fn handle_dma(&mut self)
        requires
            old(self).wf(),
        ensures
            final(self).wf(),
            final(self).ram == old(self).ram,
            final(self).hram == old(self).hram,
            final(self).inte == old(self).inte,
            final(self).intf == old(self).intf,
            final(self).serial == old(self).serial,
            old(self).dma.remaining == 0 && !old(self).dma.delay ==> *final(self) == *old(self),
            old(self).dma.delay ==> *final(self) == (Bus {
                dma: Dma { delay: false, ..old(self).dma },
                ..*old(self)
            }),
            !old(self).dma.delay && old(self).dma.remaining > 0 ==> ({
                let off = 160 - old(self).dma.remaining;
                &&& final(self).dma == (Dma {
                    remaining: (old(self).dma.remaining - 1) as u16,
                    ..old(self).dma
                })
                &&& *final(self) == (Bus { ppu: final(self).ppu, dma: final(self).dma, ..*old(self) })
                &&& final(self).ppu == (Ppu { oam: final(self).ppu.oam, ..old(self).ppu })
                &&& !Bus::is_apu((old(self).dma.start + off) as u16) ==> final(self).ppu.oam@
                    == old(self).ppu.oam@.update(
                    off as int,
                    old(self).read_spec((old(self).dma.start + off) as u16),
                )
            }),
    {
        if self.dma.delay {
            self.dma.delay = false;
        } else if self.dma.is_transferring() {
            let src: u16 = self.dma.current();
            let off: u16 = self.dma.offset();
            let val: u8 = self.read(src);
            self.ppu.oam.set(off as usize, val);
            self.dma.advance();
        }
    }

    /// Advances every peripheral by one T-cycle, accumulating their
    /// interrupt requests into IF; every fourth T-cycle moves one DMA byte.
    pub fn tick_t(&mut self)
        requires
            old(self).wf(),
        ensures
            final(self).wf(),
            final(self).ram == old(self).ram,
            final(self).hram == old(self).hram,
            final(self).inte == old(self).inte,
            final(self).serial == old(self).serial,
            final(self).intf & old(self).intf == old(self).intf,
            old(self).dma.remaining == 0 && !old(self).dma.delay ==> final(self).dma == old(
                self,
            ).dma,
    {
        let ppu_ints: u8 = self.ppu.tick();
        let timer_ints: u8 = self.timer.tick();
        self.apu.tick();
        self.cart.tick(1);
        let o: u8 = self.intf;
        proof {
            assert((o | ppu_ints | timer_ints) & o == o) by (bit_vector);
        }
        self.intf = o | ppu_ints | timer_ints;
        self.dma_phase = self.dma_phase + 1;
        if self.dma_phase == 4 {
            self.dma_phase = 0;
            self.handle_dma();
        }
    }

    /// Advances the bus by one machine cycle (four T-cycles).
    pub fn tick(&mut self)
        requires
            old(self).wf(),
        ensures
            final(self).wf(),
            final(self).ram == old(self).ram,
            final(self).hram == old(self).hram,
            final(self).inte == old(self).inte,
            final(self).serial == old(self).serial,
            final(self).intf & old(self).intf == old(self).intf,
            old(self).dma.remaining == 0 && !old(self).dma.delay ==> final(self).dma == old(
                self,
            ).dma,
    {
        let ghost i0: u8 = self.intf;
        self.tick_t();
        let ghost i1: u8 = self.intf;
        self.tick_t();
        let ghost i2: u8 = self.intf;
        self.tick_t();
        let ghost i3: u8 = self.intf;
        self.tick_t();
        proof {
            crate::lemma_bits_kept(i0, i1, i2);
            crate::lemma_bits_kept(i0, i2, i3);
            crate::lemma_bits_kept(i0, i3, self.intf);
        }
    }

    /// Whether an enabled interrupt is pending.
    pub fn has_pending_interrupts(&self) -> (r: bool)
        ensures
            r == (self.inte & self.intf & 0x1F != 0),
    {
        self.inte & self.intf & 0x1F != 0
    }

    /// The interrupt-flag byte.
    pub fn intf(&self) -> (r: u8)
        ensures
            r == self.intf,
    {
        self.intf
    }

    pub fn set_intf(&mut self, val: u8)
        ensures
            *final(self) == (Bus { intf: val, ..*old(self) }),
    {
        self.intf = val;
    }
}

} // verus!
