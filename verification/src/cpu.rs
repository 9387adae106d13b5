//! The Sharp LR35902 CPU core. `step` executes one instruction (with the
//! machine-cycle delays internal to it) and then services pending
//! interrupts. Every memory access consumes one machine cycle (four
//! T-cycles), ticking the bus and with it every peripheral; the
//! per-instruction cycle counts proved here are the published timing table
//! of `crate::instr`.

use vstd::prelude::*;
use crate::bus::{is_hram, is_wram, Bus};
use crate::instr::{cb_exec_mcycles, cb_instr_mcycles, cond_holds, exec_mcycles, instr_mcycles, InstrTarget, TargetKind};
use crate::mbc::Cart;

verus! {

/// Flag bit masks in F: Z, N, H and C occupy bits 7..4; bits 3..0 are
/// never observable as anything but zero.
pub const FLAG_Z: u8 = 0x80;

pub const FLAG_N: u8 = 0x40;

pub const FLAG_H: u8 = 0x20;

pub const FLAG_C: u8 = 0x10;

/// A 16-bit register pair addressable as two 8-bit halves.
#[derive(Clone, Copy, PartialEq, Eq, Structural, Debug)]
pub struct Register16 {
    pub lo: u8,
    pub hi: u8,
}

impl Register16 {
    /// The pair as one 16-bit value.
    pub open spec fn value_spec(self) -> u16 {
        (self.hi * 256 + self.lo) as u16
    }

    pub fn from_value(val: u16) -> (r: Register16)
        ensures
            r.value_spec() == val,
            r.lo == val & 0xFF,
            r.hi == val >> 8,
    {
        proof {
            crate::lemma_u16_bytes(val);
        }
        Register16 { lo: (val & 0xFF) as u8, hi: (val >> 8) as u8 }
    }

    pub fn value(&self) -> (r: u16)
        ensures
            r == self.value_spec(),
    {
        let lo: u8 = self.lo;
        let hi: u8 = self.hi;
        proof {
            crate::lemma_u8_pair(hi, lo);
        }
        (hi as u16) << 8 | lo as u16
    }

    pub fn set(&mut self, val: u16)
        ensures
            final(self).value_spec() == val,
            final(self).lo == val & 0xFF,
            final(self).hi == val >> 8,
    {
        let r = Register16::from_value(val);
        self.lo = r.lo;
        self.hi = r.hi;
    }
}

/// 16-bit value plus one with wrap-around.
pub open spec fn wrap_inc16(v: u16) -> u16 {
    if v == 0xFFFF { 0u16 } else { (v + 1) as u16 }
}

/// 16-bit wrapping addition.
pub open spec fn wrap_add16(a: u16, b: u16) -> u16 {
    vstd::wrapping::u16_specs::wrapping_add(a, b)
}

/// 16-bit wrapping subtraction.
pub open spec fn wrap_sub16(a: u16, b: u16) -> u16 {
    vstd::wrapping::u16_specs::wrapping_sub(a, b)
}

/// Machine cycles an 8-bit operand read consumes.
pub open spec fn get8_mc(t: InstrTarget) -> nat {
    match t.kind {
        TargetKind::Immediate8 => 1nat,
        TargetKind::Signed8 => 1nat,
        TargetKind::Address8 => if t.immediate { 1nat } else { 2nat },
        TargetKind::Address16 => 3nat,
        TargetKind::C => if t.immediate { 0nat } else { 1nat },
        TargetKind::BC => 1nat,
        TargetKind::DE => 1nat,
        TargetKind::HL => 1nat,
        _ => 0nat,
    }
}

/// Machine cycles an 8-bit result store consumes.
pub open spec fn set8_mc(t: InstrTarget) -> nat {
    match t.kind {
        TargetKind::Address8 => 2nat,
        TargetKind::Address16 => 3nat,
        TargetKind::C => if t.immediate { 0nat } else { 1nat },
        TargetKind::BC => 1nat,
        TargetKind::DE => 1nat,
        TargetKind::HL => 1nat,
        _ => 0nat,
    }
}

/// Machine cycles a 16-bit operand read consumes.
pub open spec fn get16_mc(t: InstrTarget) -> nat {
    match t.kind {
        TargetKind::Immediate16 => 2nat,
        TargetKind::Address16 => if t.immediate { 2nat } else { 4nat },
        _ => 0nat,
    }
}

/// Machine cycles a 16-bit result store consumes.
pub open spec fn set16_mc(t: InstrTarget) -> nat {
    match t.kind {
        TargetKind::Address16 => 4nat,
        _ => 0nat,
    }
}

/// The general 8-bit operand selected by a 3-bit field of the opcode:
/// B, C, D, E, H, L, (HL), A.
pub open spec fn r8_target_spec(bits: u8) -> InstrTarget {
    if bits == 0 { InstrTarget { kind: TargetKind::B, immediate: true, increment: false, decrement: false } }
    else if bits == 1 { InstrTarget { kind: TargetKind::C, immediate: true, increment: false, decrement: false } }
    else if bits == 2 { InstrTarget { kind: TargetKind::D, immediate: true, increment: false, decrement: false } }
    else if bits == 3 { InstrTarget { kind: TargetKind::E, immediate: true, increment: false, decrement: false } }
    else if bits == 4 { InstrTarget { kind: TargetKind::H, immediate: true, increment: false, decrement: false } }
    else if bits == 5 { InstrTarget { kind: TargetKind::L, immediate: true, increment: false, decrement: false } }
    else if bits == 6 { InstrTarget { kind: TargetKind::HL, immediate: false, increment: false, decrement: false } }
    else { InstrTarget { kind: TargetKind::A, immediate: true, increment: false, decrement: false } }
}

/// Executable mirror of `r8_target_spec`.
pub fn r8_target(bits: u8) -> (r: InstrTarget)
    requires
        bits < 8,
    ensures
        r == r8_target_spec(bits),
        get8_mc(r) == crate::instr::r8_mem_extra(bits),
        set8_mc(r) == crate::instr::r8_mem_extra(bits),
        bits != 6 ==> is_reg8(r),
{
    if bits == 0 { InstrTarget::val(TargetKind::B) }
    else if bits == 1 { InstrTarget::val(TargetKind::C) }
    else if bits == 2 { InstrTarget::val(TargetKind::D) }
    else if bits == 3 { InstrTarget::val(TargetKind::E) }
    else if bits == 4 { InstrTarget::val(TargetKind::H) }
    else if bits == 5 { InstrTarget::val(TargetKind::L) }
    else if bits == 6 { InstrTarget::mem(TargetKind::HL) }
    else { InstrTarget::val(TargetKind::A) }
}

/// Whether an operand names one of the general 8-bit CPU registers
/// (A, B, C, D, E, H, L as a value, not a high-RAM address).
pub open spec fn is_reg8(t: InstrTarget) -> bool {
    match t.kind {
        TargetKind::A => true,
        TargetKind::B => true,
        TargetKind::C => t.immediate,
        TargetKind::D => true,
        TargetKind::E => true,
        TargetKind::H => true,
        TargetKind::L => true,
        _ => false,
    }
}

/// The value of a general 8-bit register operand.
pub open spec fn reg8_spec(c: Cpu, t: InstrTarget) -> u8 {
    match t.kind {
        TargetKind::A => c.a,
        TargetKind::B => c.bc.hi,
        TargetKind::C => c.bc.lo,
        TargetKind::D => c.de.hi,
        TargetKind::E => c.de.lo,
        TargetKind::H => c.hl.hi,
        TargetKind::L => c.hl.lo,
        _ => 0u8,
    }
}

/// The CPU after writing a general 8-bit register operand.
pub open spec fn set_reg8_spec(c: Cpu, t: InstrTarget, v: u8) -> Cpu {
    match t.kind {
        TargetKind::A => Cpu { a: v, ..c },
        TargetKind::B => Cpu { bc: Register16 { hi: v, lo: c.bc.lo }, ..c },
        TargetKind::C => Cpu { bc: Register16 { lo: v, hi: c.bc.hi }, ..c },
        TargetKind::D => Cpu { de: Register16 { hi: v, lo: c.de.lo }, ..c },
        TargetKind::E => Cpu { de: Register16 { lo: v, hi: c.de.hi }, ..c },
        TargetKind::H => Cpu { hl: Register16 { hi: v, lo: c.hl.lo }, ..c },
        TargetKind::L => Cpu { hl: Register16 { lo: v, hi: c.hl.hi }, ..c },
        _ => c,
    }
}

/// Writing any 8-bit value to a general CPU register and reading it back
/// yields that value.
pub proof fn lemma_reg8_roundtrip(c: Cpu, t: InstrTarget, v: u8)
    requires
        is_reg8(t),
    ensures
        reg8_spec(set_reg8_spec(c, t, v), t) == v,
{
}

/// The accumulator after an 8-bit arithmetic or logic opcode
/// (0x80..0xBF) applied to operand value `v` with carry flag `c`:
/// ADD, ADC, SUB, SBC, AND, XOR, OR in their table order; CP leaves A.
pub open spec fn alu8_spec(op: u8, a: u8, v: u8, c: bool) -> u8 {
    let cin: int = if c { 1int } else { 0int };
    if op < 0x88 { ((a + v) % 256) as u8 }
    else if op < 0x90 { ((a + v + cin) % 256) as u8 }
    else if op < 0x98 { ((256 + a - v) % 256) as u8 }
    else if op < 0xA0 { ((512 + a - v - cin) % 256) as u8 }
    else if op < 0xA8 { (a & v) as u8 }
    else if op < 0xB0 { (a ^ v) as u8 }
    else if op < 0xB8 { (a | v) as u8 }
    else { a }
}

/// Packs the four flags into an F byte with a zero low nibble.
pub fn pack_flags(z: bool, n: bool, h: bool, c: bool) -> (f: u8)
    ensures
        f & 0x0F == 0,
        (f & FLAG_Z != 0) == z,
        (f & FLAG_N != 0) == n,
        (f & FLAG_H != 0) == h,
        (f & FLAG_C != 0) == c,
{
    let zf: u8 = if z { 0x80 } else { 0 };
    let nf: u8 = if n { 0x40 } else { 0 };
    let hf: u8 = if h { 0x20 } else { 0 };
    let cf: u8 = if c { 0x10 } else { 0 };
    proof {
        assert((zf | nf | hf | cf) & 0x0F == 0 && ((zf | nf | hf | cf) & 0x80 != 0) == (zf
            == 0x80) && ((zf | nf | hf | cf) & 0x40 != 0) == (nf == 0x40) && ((zf | nf | hf | cf)
            & 0x20 != 0) == (hf == 0x20) && ((zf | nf | hf | cf) & 0x10 != 0) == (cf == 0x10))
            by (bit_vector)
            requires
                (zf == 0x80 || zf == 0) && (nf == 0x40 || nf == 0) && (hf == 0x20 || hf == 0) && (
                cf == 0x10 || cf == 0),
        ;
    }
    zf | nf | hf | cf
}

/// 8-bit addition with carry-in: the result and the full flag byte
/// (Z, N clear, H from bit 3, C from bit 7).
pub fn alu_add(a: u8, b: u8, cin: u8) -> (r: (u8, u8))
    requires
        cin <= 1,
    ensures
        r.0 == (a + b + cin) % 256,
        r.1 & 0x0F == 0,
        (r.1 & FLAG_Z != 0) == (r.0 == 0),
        r.1 & FLAG_N == 0,
        (r.1 & FLAG_H != 0) == ((a & 0x0F) + (b & 0x0F) + cin > 0x0F),
        (r.1 & FLAG_C != 0) == (a + b + cin > 0xFF),
{
    proof {
        crate::lemma_u8_fields(a);
        crate::lemma_u8_fields(b);
    }
    let sum: u16 = a as u16 + b as u16 + cin as u16;
    let res: u8 = (sum % 256) as u8;
    let half: u16 = (a & 0x0F) as u16 + (b & 0x0F) as u16 + cin as u16;
    let f: u8 = pack_flags(res == 0, false, half > 0x0F, sum > 0xFF);
    (res, f)
}

/// 8-bit subtraction with borrow-in: the result and the full flag byte
/// (Z, N set, H from the low nibble borrow, C from the full borrow).
pub fn alu_sub(a: u8, b: u8, cin: u8) -> (r: (u8, u8))
    requires
        cin <= 1,
    ensures
        r.0 == (256 + a - b - cin) % 256,
        r.1 & 0x0F == 0,
        (r.1 & FLAG_Z != 0) == (r.0 == 0),
        r.1 & FLAG_N != 0,
        (r.1 & FLAG_H != 0) == ((a & 0x0F) < (b & 0x0F) + cin),
        (r.1 & FLAG_C != 0) == (a < b + cin),
{
    proof {
        crate::lemma_u8_fields(a);
        crate::lemma_u8_fields(b);
    }
    let diff: u16 = (256 + a as u16 - b as u16 - cin as u16) % 256;
    let res: u8 = diff as u8;
    let half: bool = ((a & 0x0F) as u16) < ((b & 0x0F) as u16) + cin as u16;
    let carry: bool = (a as u16) < b as u16 + cin as u16;
    let f: u8 = pack_flags(res == 0, true, half, carry);
    (res, f)
}

pub struct Cpu {
    /// Accumulator.
    pub a: u8,
    /// Flags; the low nibble is always zero.
    pub f: u8,
    pub bc: Register16,
    pub de: Register16,
    pub hl: Register16,
    pub sp: u16,
    pub pc: u16,
    /// Interrupt master enable.
    pub ime: bool,
    /// One-instruction delay latch set by EI.
    pub ime_to_set: bool,
    pub halted: bool,
    /// One-shot fetch-twice latch armed by the HALT bug.
    pub halt_bug: bool,
    /// Machine cycles consumed so far (one per bus access).
    pub mcycles: u64,
    pub bus: Bus,
}

impl Cpu {
    pub open spec fn wf(self) -> bool {
        &&& self.f & 0x0F == 0
        &&& self.bus.wf()
    }

    /// What a CPU-visible read returns: while OAM DMA is in progress only
    /// high RAM is accessible and every other read returns 0xFF.
    pub open spec fn read_gated_spec(self, addr: u16) -> u8 {
        if self.bus.dma.remaining > 0 && !is_hram(addr) {
            0xFFu8
        } else {
            self.bus.read_spec(addr)
        }
    }

    /// Power-on state around a loaded cartridge, with post-boot register
    /// values.
    pub fn new(cart: Cart) -> (r: Cpu)
        requires
            cart.wf(),
        ensures
            r.wf(),
            r.a == 0x01,
            r.f == 0xB0,
            r.pc == 0x0100,
            r.sp == 0xFFFE,
            !r.ime && !r.halted && !r.halt_bug && !r.ime_to_set,
            r.bc.value_spec() == 0x0013,
            r.de.value_spec() == 0x00D8,
            r.hl.value_spec() == 0x014D,
            r.mcycles == 0,
            r.bus.cart == cart,
    {
        proof {
            assert(0xB0u8 & 0x0F == 0) by (bit_vector);
        }
        Cpu {
            a: 0x01,
            f: 0xB0,
            bc: Register16 { lo: 0x13, hi: 0x00 },
            de: Register16 { lo: 0xD8, hi: 0x00 },
            hl: Register16 { lo: 0x4D, hi: 0x01 },
            sp: 0xFFFE,
            pc: 0x0100,
            ime: false,
            ime_to_set: false,
            halted: false,
            halt_bug: false,
            mcycles: 0,
            bus: Bus::new(cart),
        }
    }

    /// AF as a 16-bit value.
    pub fn af(&self) -> (r: u16)
        ensures
            r == self.a * 256 + self.f,
    {
        let a: u8 = self.a;
        let f: u8 = self.f;
        proof {
            crate::lemma_u8_pair(a, f);
        }
        (a as u16) << 8 | f as u16
    }

    /// Stores a 16-bit value into AF; the low nibble of F stays zero.
    pub fn set_af(&mut self, val: u16)
        ensures
            final(self).a == val >> 8,
            final(self).f == (val & 0xFF) as u8 & 0xF0,
            final(self).f & 0x0F == 0,
            *final(self) == (Cpu { a: final(self).a, f: final(self).f, ..*old(self) }),
    {
        proof {
            crate::lemma_u16_bytes(val);
            crate::lemma_u8_fields((val & 0xFF) as u8);
        }
        self.a = (val >> 8) as u8;
        self.f = (val & 0xFF) as u8 & 0xF0;
    }

    /// Stores a byte into F, masking its low nibble to zero.
    pub fn set_f(&mut self, val: u8)
        ensures
            final(self).f == val & 0xF0,
            final(self).f & 0x0F == 0,
            *final(self) == (Cpu { f: final(self).f, ..*old(self) }),
    {
        proof {
            crate::lemma_u8_fields(val);
        }
        self.f = val & 0xF0;
    }

    /// Tests one flag.
    pub fn flag(&self, mask: u8) -> (r: bool)
        ensures
            r == (self.f & mask != 0),
    {
        self.f & mask != 0
    }

    /// Sets or clears one of the four flag bits.
    pub fn set_flag(&mut self, mask: u8, on: bool)
        requires
            mask & 0x0F == 0,
        ensures
            final(self).f == if on { old(self).f | mask } else { old(self).f & !mask },
            old(self).f & 0x0F == 0 ==> final(self).f & 0x0F == 0,
            *final(self) == (Cpu { f: final(self).f, ..*old(self) }),
    {
        let f: u8 = self.f;
        proof {
            assert(f & 0x0F == 0 && mask & 0x0F == 0 ==> (f | mask) & 0x0F == 0 && (f & !mask)
                & 0x0F == 0) by (bit_vector);
        }
        if on {
            self.f = f | mask;
        } else {
            self.f = f & !mask;
        }
    }

    /// Evaluates the condition-code field of a conditional instruction.
    pub fn get_cond(&self, cc: u8) -> (r: bool)
        requires
            cc < 4,
        ensures
            r == cond_holds(self.f, cc),
    {
        if cc == 0 { self.f & FLAG_Z == 0 }
        else if cc == 1 { self.f & FLAG_Z != 0 }
        else if cc == 2 { self.f & FLAG_C == 0 }
        else { self.f & FLAG_C != 0 }
    }

    /// The fixed vector of an RST opcode.
    pub fn get_interrupt_addr(&self, op: u8) -> (r: u16)
        ensures
            r == op & 0x38,
    {
        (op & 0x38) as u16
    }

    /// The bit index field of a CB-prefixed BIT/RES/SET opcode.
    pub fn get_bit_op(&self, op: u8) -> (r: u8)
        ensures
            r == (op >> 3) & 7,
            r < 8,
    {
        proof {
            crate::lemma_u8_fields(op);
        }
        (op >> 3) & 7
    }

    /// A high-RAM-relative address.
    pub fn hram(&self, offset: u8) -> (r: u16)
        ensures
            r == 0xFF00 + offset,
    {
        proof {
            crate::lemma_u8_pair(0, offset);
        }
        0xFF00 | offset as u16
    }

    /// Reads without consuming time (host/debug access).
    pub fn peek(&self, addr: u16) -> (r: u8)
        requires
            self.wf(),
        ensures
            !Bus::is_apu(addr) ==> r == self.bus.read_spec(addr),
    {
        self.bus.read(addr)
    }

    /// Consumes one machine cycle: the bus and all peripherals advance by
    /// four T-cycles.
    pub fn tick(&mut self)
        requires
            old(self).wf(),
            old(self).mcycles + 1 <= u64::MAX,
        ensures
            final(self).wf(),
            final(self).mcycles == old(self).mcycles + 1,
            *final(self) == (Cpu { mcycles: final(self).mcycles, bus: final(self).bus, ..*old(self) }),
            final(self).bus.ram == old(self).bus.ram,
            final(self).bus.hram == old(self).bus.hram,
            final(self).bus.inte == old(self).bus.inte,
            final(self).bus.serial == old(self).bus.serial,
            final(self).bus.intf & old(self).bus.intf == old(self).bus.intf,
            old(self).bus.dma.remaining == 0 && !old(self).bus.dma.delay
                ==> final(self).bus.dma == old(self).bus.dma,
    {
        self.mcycles = self.mcycles + 1;
        self.bus.tick();
    }

    /// A timed read: the value comes from the pre-tick state, gated by an
    /// in-progress OAM DMA.
    pub fn read(&mut self, addr: u16) -> (r: u8)
        requires
            old(self).wf(),
            old(self).mcycles + 1 <= u64::MAX,
        ensures
            final(self).wf(),
            final(self).mcycles == old(self).mcycles + 1,
            *final(self) == (Cpu { mcycles: final(self).mcycles, bus: final(self).bus, ..*old(self) }),
            final(self).bus.ram == old(self).bus.ram,
            final(self).bus.hram == old(self).bus.hram,
            final(self).bus.inte == old(self).bus.inte,
            final(self).bus.intf & old(self).bus.intf == old(self).bus.intf,
            !Bus::is_apu(addr) ==> r == old(self).read_gated_spec(addr),
            old(self).bus.dma.remaining == 0 && !old(self).bus.dma.delay
                ==> final(self).bus.dma == old(self).bus.dma,
    {
        let r: u8 = if self.bus.dma.is_transferring() && !(0xFF80 <= addr && addr < 0xFFFF) {
            0xFF
        } else {
            self.bus.read(addr)
        };
        self.tick();
        r
    }

    /// A timed 16-bit little-endian read.
    pub fn read16(&mut self, addr: u16) -> (r: u16)
        requires
            old(self).wf(),
            old(self).mcycles + 2 <= u64::MAX,
        ensures
            final(self).wf(),
            final(self).mcycles == old(self).mcycles + 2,
            *final(self) == (Cpu { mcycles: final(self).mcycles, bus: final(self).bus, ..*old(self) }),
            final(self).bus.ram == old(self).bus.ram,
            final(self).bus.hram == old(self).bus.hram,
            final(self).bus.inte == old(self).bus.inte,
            old(self).bus.dma.remaining == 0 && (is_wram(addr) || is_hram(addr)) && (is_wram(
                wrap_inc16(addr),
            ) || is_hram(wrap_inc16(addr))) && !old(self).bus.dma.delay ==> r == old(self).bus.read_spec(wrap_inc16(addr)) * 256 + old(self).bus.read_spec(addr),
    {
        let lo: u8 = self.read(addr);
        let next: u16 = if addr == 0xFFFF { 0 } else { addr + 1 };
        let hi: u8 = self.read(next);
        let r = Register16 { lo, hi };
        r.value()
    }

    /// A timed write: it lands before the cycle's tick, gated by an
    /// in-progress OAM DMA. Writing a byte of high RAM or work RAM and
    /// reading the address back yields that byte.
    pub fn write(&mut self, addr: u16, val: u8)
        requires
            old(self).wf(),
            old(self).mcycles + 1 <= u64::MAX,
        ensures
            final(self).wf(),
            final(self).mcycles == old(self).mcycles + 1,
            *final(self) == (Cpu { mcycles: final(self).mcycles, bus: final(self).bus, ..*old(self) }),
            final(self).bus.inte == if old(self).bus.dma.remaining == 0 && addr == 0xFFFF {
                val
            } else {
                old(self).bus.inte
            },
            (old(self).bus.dma.remaining == 0 || is_hram(addr)) && is_hram(addr) ==> final(self).bus.read_spec(addr) == val,
            old(self).bus.dma.remaining == 0 && is_wram(addr) ==> final(self).bus.read_spec(addr)
                == val,
            old(self).bus.dma.remaining == 0 && !old(self).bus.dma.delay && addr != 0xFF46
                ==> final(self).bus.dma == old(self).bus.dma,
            old(self).bus.dma.remaining == 0 && is_wram(addr) ==> final(self).bus.ram@ == old(self).bus.ram@.update((addr & 0xDFFF) - 0xC000, val) && final(self).bus.hram == old(self).bus.hram,
            is_hram(addr) ==> final(self).bus.hram@ == old(self).bus.hram@.update(
                addr - 0xFF80,
                val,
            ) && final(self).bus.ram == old(self).bus.ram,
            addr != 0xFF0F ==> final(self).bus.intf & old(self).bus.intf == old(self).bus.intf,
    {
        let ghost i0: u8 = self.bus.intf;
        if !self.bus.dma.is_transferring() || (0xFF80 <= addr && addr < 0xFFFF) {
            self.bus.write(addr, val);
        }
        let ghost i1: u8 = self.bus.intf;
        self.tick();
        proof {
            crate::lemma_or_bit(0, 0, i0);
            crate::lemma_bits_kept(i0, i1, self.bus.intf);
        }
    }

    /// A timed 16-bit little-endian write.
    pub fn write16(&mut self, addr: u16, val: u16)
        requires
            old(self).wf(),
            old(self).mcycles + 2 <= u64::MAX,
        ensures
            final(self).wf(),
            final(self).mcycles == old(self).mcycles + 2,
            *final(self) == (Cpu { mcycles: final(self).mcycles, bus: final(self).bus, ..*old(self) }),
            old(self).bus.dma.remaining == 0 && !old(self).bus.dma.delay && (is_wram(addr)
                || is_hram(addr)) && (is_wram(wrap_inc16(addr)) || is_hram(wrap_inc16(addr)))
                && addr != 0xFF46 && wrap_inc16(addr) != 0xFF46 ==> final(self).bus.read_spec(addr)
                == val & 0xFF && final(self).bus.read_spec(wrap_inc16(addr)) == val >> 8 && final(self).bus.dma == old(self).bus.dma
                && final(self).bus.inte == old(self).bus.inte,
            addr != 0xFF0F && wrap_inc16(addr) != 0xFF0F ==> final(self).bus.intf
                & old(self).bus.intf == old(self).bus.intf,
    {
        let r = Register16::from_value(val);
        proof {
            assert(!is_wram(0xFF46) && !is_hram(0xFF46));
            crate::bus::lemma_wram_index(addr);
        }
        let ghost i0: u8 = self.bus.intf;
        self.write(addr, r.lo);
        let ghost i1: u8 = self.bus.intf;
        let next: u16 = if addr == 0xFFFF { 0 } else { addr + 1 };
        self.write(next, r.hi);
        proof {
            crate::lemma_bits_kept(i0, i1, self.bus.intf);
        }
    }

    /// Fetches the next opcode byte. The HALT bug's one-shot latch makes
    /// this read the byte without advancing PC once.
    pub fn pc_fetch(&mut self) -> (r: u8)
        requires
            old(self).wf(),
            old(self).mcycles + 1 <= u64::MAX,
        ensures
            final(self).wf(),
            final(self).mcycles == old(self).mcycles + 1,
            *final(self) == (Cpu {
                mcycles: final(self).mcycles,
                bus: final(self).bus,
                pc: final(self).pc,
                halt_bug: false,
                ..*old(self)
            }),
            final(self).pc == if old(self).halt_bug { old(self).pc } else {
                wrap_inc16(old(self).pc)
            },
            !Bus::is_apu(old(self).pc) ==> r == old(self).read_gated_spec(old(self).pc),
            final(self).bus.inte == old(self).bus.inte,
            final(self).bus.intf & old(self).bus.intf == old(self).bus.intf,
    {
        let r: u8 = self.read(self.pc);
        if self.halt_bug {
            self.halt_bug = false;
        } else {
            self.pc = if self.pc == 0xFFFF { 0 } else { self.pc + 1 };
        }
        r
    }

    /// Fetches a 16-bit little-endian immediate.
    pub fn pc_fetch16(&mut self) -> (r: u16)
        requires
            old(self).wf(),
            old(self).mcycles + 2 <= u64::MAX,
        ensures
            final(self).wf(),
            final(self).mcycles == old(self).mcycles + 2,
            *final(self) == (Cpu {
                mcycles: final(self).mcycles,
                bus: final(self).bus,
                pc: final(self).pc,
                halt_bug: false,
                ..*old(self)
            }),
    {
        let lo: u8 = self.pc_fetch();
        let hi: u8 = self.pc_fetch();
        let r = Register16 { lo, hi };
        r.value()
    }

    /// Pushes a 16-bit value: one internal cycle, then two writes below
    /// SP. With no DMA in progress and SP pointing into work or high RAM,
    /// reading the new stack top back yields the pushed value.
    pub fn stack_push(&mut self, val: u16)
        requires
            old(self).wf(),
            old(self).mcycles + 3 <= u64::MAX,
        ensures
            final(self).wf(),
            final(self).mcycles == old(self).mcycles + 3,
            final(self).sp == wrap_sub16(old(self).sp, 2),
            *final(self) == (Cpu {
                mcycles: final(self).mcycles,
                bus: final(self).bus,
                sp: final(self).sp,
                ..*old(self)
            }),
            ({
                let a = wrap_sub16(old(self).sp, 2);
                old(self).bus.dma.remaining == 0 && !old(self).bus.dma.delay && (is_wram(a)
                    || is_hram(a)) && (is_wram(wrap_inc16(a)) || is_hram(wrap_inc16(a))) ==> final(self).bus.read_spec(a) == val & 0xFF && final(self).bus.read_spec(wrap_inc16(a)) == val
                    >> 8 && final(self).bus.dma == old(self).bus.dma && final(self).bus.inte
                    == old(self).bus.inte
            }),
    {
        self.tick();
        let dest: u16 = self.sp.wrapping_sub(2);
        proof {
            assert(!is_wram(0xFF46u16) && !is_hram(0xFF46u16));
        }
        self.write16(dest, val);
        self.sp = dest;
    }

    /// Applies the (HL+)/(HL-) post-access update of an operand.
    fn update_hl(&mut self, t: InstrTarget)
        ensures
            *final(self) == (Cpu { hl: final(self).hl, ..*old(self) }),
            !t.increment && !t.decrement ==> final(self).hl == old(self).hl,
    {
        if t.increment {
            let v: u16 = self.hl.value();
            self.hl.set(v.wrapping_add(1));
        } else if t.decrement {
            let v: u16 = self.hl.value();
            self.hl.set(v.wrapping_sub(1));
        }
    }

    /// Reads an 8-bit operand. A register operand leaves the whole machine
    /// unchanged and returns that register.
    pub fn get_operand(&mut self, t: InstrTarget) -> (r: u8)
        requires
            old(self).wf(),
            old(self).mcycles + 3 <= u64::MAX,
        ensures
            final(self).wf(),
            final(self).mcycles == old(self).mcycles + get8_mc(t),
            is_reg8(t) ==> *final(self) == *old(self) && r == reg8_spec(*old(self), t),
            (t.kind == TargetKind::Immediate8 || t.kind == TargetKind::Signed8) && !Bus::is_apu(
                old(self).pc,
            ) ==> r == old(self).read_gated_spec(old(self).pc),
            final(self).a == old(self).a,
            final(self).f == old(self).f,
            final(self).sp == old(self).sp,
            final(self).bc == old(self).bc,
            final(self).de == old(self).de,
            final(self).ime == old(self).ime,
            final(self).ime_to_set == old(self).ime_to_set,
            final(self).halted == old(self).halted,
            !(t.kind == TargetKind::HL && (t.increment || t.decrement)) ==> final(self).hl
                == old(self).hl,
    {
        match t.kind {
            TargetKind::Immediate8 => self.pc_fetch(),
            TargetKind::Signed8 => self.pc_fetch(),
            TargetKind::Address8 => {
                if t.immediate {
                    self.pc_fetch()
                } else {
                    let offset: u8 = self.pc_fetch();
                    let a: u16 = self.hram(offset);
                    self.read(a)
                }
            },
            TargetKind::Address16 => {
                let a: u16 = self.pc_fetch16();
                self.read(a)
            },
            TargetKind::A => self.a,
            TargetKind::B => self.bc.hi,
            TargetKind::C => {
                if t.immediate {
                    self.bc.lo
                } else {
                    let a: u16 = self.hram(self.bc.lo);
                    self.read(a)
                }
            },
            TargetKind::D => self.de.hi,
            TargetKind::E => self.de.lo,
            TargetKind::F => self.f,
            TargetKind::H => self.hl.hi,
            TargetKind::L => self.hl.lo,
            TargetKind::BC => {
                let a: u16 = self.bc.value();
                self.read(a)
            },
            TargetKind::DE => {
                let a: u16 = self.de.value();
                self.read(a)
            },
            TargetKind::HL => {
                let a: u16 = self.hl.value();
                let r: u8 = self.read(a);
                self.update_hl(t);
                r
            },
            _ => 0,
        }
    }

    /// Stores an 8-bit result. Writing a register and reading it back
    /// yields the written value; a store to F masks its low nibble.
    #[verifier::rlimit(30)]
    pub fn set_result(&mut self, t: InstrTarget, val: u8)
        requires
            old(self).wf(),
            old(self).mcycles + 3 <= u64::MAX,
        ensures
            final(self).wf(),
            final(self).mcycles == old(self).mcycles + set8_mc(t),
            is_reg8(t) ==> *final(self) == set_reg8_spec(*old(self), t, val),
            is_reg8(t) ==> reg8_spec(*final(self), t) == val,
            t.kind != TargetKind::F ==> final(self).f == old(self).f,
            final(self).sp == old(self).sp,
            final(self).ime == old(self).ime,
            final(self).ime_to_set == old(self).ime_to_set,
            final(self).halted == old(self).halted,
            !is_reg8(t) && t.kind != TargetKind::F ==> final(self).a == old(self).a
                && final(self).bc == old(self).bc && final(self).de == old(self).de,
            !(t.kind == TargetKind::HL && (t.increment || t.decrement)) && !(t.kind
                == TargetKind::H || t.kind == TargetKind::L) ==> final(self).hl == old(self).hl,
    {
        match t.kind {
            TargetKind::Address8 => {
                let offset: u8 = self.pc_fetch();
                let a: u16 = self.hram(offset);
                self.write(a, val);
            },
            TargetKind::Address16 => {
                let a: u16 = self.pc_fetch16();
                self.write(a, val);
            },
            TargetKind::A => {
                self.a = val;
            },
            TargetKind::B => {
                self.bc.hi = val;
            },
            TargetKind::C => {
                if t.immediate {
                    self.bc.lo = val;
                } else {
                    let a: u16 = self.hram(self.bc.lo);
                    self.write(a, val);
                }
            },
            TargetKind::D => {
                self.de.hi = val;
            },
            TargetKind::E => {
                self.de.lo = val;
            },
            TargetKind::F => {
                self.set_f(val);
            },
            TargetKind::H => {
                self.hl.hi = val;
            },
            TargetKind::L => {
                self.hl.lo = val;
            },
            TargetKind::BC => {
                let a: u16 = self.bc.value();
                self.write(a, val);
            },
            TargetKind::DE => {
                let a: u16 = self.de.value();
                self.write(a, val);
            },
            TargetKind::HL => {
                let a: u16 = self.hl.value();
                self.write(a, val);
                self.update_hl(t);
            },
            _ => {},
        }
    }

    /// Reads a 16-bit operand. A register-pair operand leaves the machine
    /// unchanged and returns that pair.
    pub fn get_operand16(&mut self, t: InstrTarget) -> (r: u16)
        requires
            old(self).wf(),
            old(self).mcycles + 4 <= u64::MAX,
        ensures
            final(self).wf(),
            final(self).mcycles == old(self).mcycles + get16_mc(t),
            t.kind == TargetKind::SP ==> *final(self) == *old(self) && r == old(self).sp,
            t.kind == TargetKind::AF ==> *final(self) == *old(self) && r == old(self).a * 256
                + old(self).f,
            t.kind == TargetKind::BC && t.immediate ==> *final(self) == *old(self) && r == old(
                self,
            ).bc.value_spec(),
            t.kind == TargetKind::DE && t.immediate ==> *final(self) == *old(self) && r == old(
                self,
            ).de.value_spec(),
            t.kind == TargetKind::HL && t.immediate ==> *final(self) == *old(self) && r == old(
                self,
            ).hl.value_spec(),
            final(self).f == old(self).f,
            final(self).sp == old(self).sp,
            final(self).a == old(self).a,
            final(self).halted == old(self).halted,
            final(self).ime == old(self).ime,
            final(self).ime_to_set == old(self).ime_to_set,
    {
        match t.kind {
            TargetKind::Immediate16 => self.pc_fetch16(),
            TargetKind::Address16 => {
                if t.immediate {
                    self.pc_fetch16()
                } else {
                    let a: u16 = self.pc_fetch16();
                    self.read16(a)
                }
            },
            TargetKind::SP => self.sp,
            TargetKind::AF => self.af(),
            TargetKind::BC => self.bc.value(),
            TargetKind::DE => self.de.value(),
            TargetKind::HL => self.hl.value(),
            _ => 0,
        }
    }

    /// Stores a 16-bit result. Writing a register pair and reading it back
    /// yields the written value, except that AF masks F's low nibble.
    pub fn set_result16(&mut self, t: InstrTarget, val: u16)
        requires
            old(self).wf(),
            old(self).mcycles + 4 <= u64::MAX,
        ensures
            final(self).wf(),
            final(self).mcycles == old(self).mcycles + set16_mc(t),
            t.kind == TargetKind::SP ==> *final(self) == (Cpu { sp: val, ..*old(self) }),
            t.kind == TargetKind::AF ==> final(self).a == val >> 8 && final(self).f == (val
                & 0xFF) as u8 & 0xF0,
            t.kind == TargetKind::BC ==> final(self).bc.value_spec() == val && *final(self) == (
            Cpu { bc: final(self).bc, ..*old(self) }),
            t.kind == TargetKind::DE ==> final(self).de.value_spec() == val && *final(self) == (
            Cpu { de: final(self).de, ..*old(self) }),
            t.kind == TargetKind::HL ==> final(self).hl.value_spec() == val && *final(self) == (
            Cpu { hl: final(self).hl, ..*old(self) }),
            t.kind != TargetKind::AF ==> final(self).f == old(self).f,
            final(self).halted == old(self).halted,
            final(self).ime == old(self).ime,
            final(self).ime_to_set == old(self).ime_to_set,
    {
        match t.kind {
            TargetKind::Address16 => {
                let a: u16 = self.pc_fetch16();
                self.write16(a, val);
            },
            TargetKind::SP => {
                self.sp = val;
            },
            TargetKind::AF => {
                self.set_af(val);
            },
            TargetKind::BC => {
                self.bc.set(val);
            },
            TargetKind::DE => {
                self.de.set(val);
            },
            TargetKind::HL => {
                self.hl.set(val);
            },
            _ => {},
        }
    }

    /// NOP: no effect beyond the opcode fetch.
    pub fn nop(&mut self)
        ensures
            *final(self) == *old(self),
    {
    }

    /// LD: copies the source operand to the destination.
    pub fn ld(&mut self, dst: InstrTarget, src: InstrTarget)
        requires
            old(self).wf(),
            old(self).mcycles + 12 <= u64::MAX,
        ensures
            final(self).wf(),
            final(self).mcycles == old(self).mcycles + get8_mc(src) + set8_mc(dst),
            is_reg8(src) && is_reg8(dst) ==> *final(self) == set_reg8_spec(
                *old(self),
                dst,
                reg8_spec(*old(self), src),
            ),
    {
        let val: u8 = self.get_operand(src);
        self.set_result(dst, val);
    }

    /// 16-bit LD.
    pub fn ld16(&mut self, dst: InstrTarget, src: InstrTarget)
        requires
            old(self).wf(),
            old(self).mcycles + 12 <= u64::MAX,
        ensures
            final(self).wf(),
            final(self).mcycles == old(self).mcycles + get16_mc(src) + set16_mc(dst),
    {
        let val: u16 = self.get_operand16(src);
        self.set_result16(dst, val);
    }

    /// LD SP,HL: one internal cycle.
    pub fn ldhl(&mut self)
        requires
            old(self).wf(),
            old(self).mcycles + 12 <= u64::MAX,
        ensures
            final(self).wf(),
            final(self).mcycles == old(self).mcycles + 1,
            final(self).sp == old(self).hl.value_spec(),
            final(self).f == old(self).f,
            final(self).pc == old(self).pc,
    {
        self.sp = self.hl.value();
        self.tick();
    }

    /// PUSH rr.
    pub fn push(&mut self, t: InstrTarget)
        requires
            old(self).wf(),
            old(self).mcycles + 12 <= u64::MAX,
        ensures
            final(self).wf(),
            final(self).mcycles == old(self).mcycles + get16_mc(t) + 3,
            final(self).f == old(self).f,
    {
        let val: u16 = self.get_operand16(t);
        self.stack_push(val);
    }

    /// POP rr (POP AF masks the low nibble of F).
    pub fn pop(&mut self, t: InstrTarget)
        requires
            old(self).wf(),
            old(self).mcycles + 12 <= u64::MAX,
        ensures
            final(self).wf(),
            final(self).mcycles == old(self).mcycles + 2 + set16_mc(t),
    {
        let val: u16 = self.stack_pop();
        self.set_result16(t, val);
    }

    /// The H and C flags of LD HL,SP+e and ADD SP,e: computed on the low
    /// byte of SP as an 8-bit unsigned addition, regardless of e's sign.
    fn sp_offset_flags(&mut self, offset: u8)
        requires
            old(self).wf(),
        ensures
            final(self).wf(),
            *final(self) == (Cpu { f: final(self).f, ..*old(self) }),
            final(self).f & 0x0F == 0,
            (final(self).f & FLAG_Z == 0) && (final(self).f & FLAG_N == 0),
            (final(self).f & FLAG_H != 0) == ((old(self).sp & 0x0F) + (offset & 0x0F) > 0x0F),
            (final(self).f & FLAG_C != 0) == ((old(self).sp & 0xFF) + offset > 0xFF),
    {
        let sp: u16 = self.sp;
        proof {
            assert(sp & 0x0F <= 15 && sp & 0xFF <= 255 && ((sp & 0xFF) as u8) & 0x0F == sp & 0x0F
                && offset & 0x0F <= 15) by (bit_vector);
        }
        let h: bool = (sp & 0x0F) + ((offset & 0x0F) as u16) > 0x0F;
        let c: bool = (sp & 0xFF) + offset as u16 > 0xFF;
        let f: u8 = pack_flags(false, false, h, c);
        self.f = f;
    }

    /// LD HL,SP+e: one internal cycle. Z and N are cleared; H and C come
    /// from the unsigned 8-bit addition on the low byte of SP, regardless
    /// of e's sign.
    pub fn ldsp(&mut self, src: InstrTarget)
        requires
            old(self).wf(),
            old(self).mcycles + 12 <= u64::MAX,
        ensures
            final(self).wf(),
            final(self).mcycles == old(self).mcycles + get8_mc(src) + 1,
            final(self).f & FLAG_Z == 0,
            final(self).f & FLAG_N == 0,
            final(self).sp == old(self).sp,
            src.kind == TargetKind::Signed8 && !Bus::is_apu(old(self).pc) ==> ({
                let e = old(self).read_gated_spec(old(self).pc);
                &&& final(self).hl.value_spec() == wrap_add16(old(self).sp, (e as i8) as u16)
                &&& ((final(self).f & FLAG_H != 0) == ((old(self).sp & 0x0F) + (e & 0x0F) > 0x0F))
                &&& ((final(self).f & FLAG_C != 0) == ((old(self).sp & 0xFF) + e > 0xFF))
            }),
    {
        let offset: u8 = self.get_operand(src);
        let e16: u16 = (offset as i8) as u16;
        let res: u16 = self.sp.wrapping_add(e16);
        self.sp_offset_flags(offset);
        self.hl.set(res);
        self.tick();
    }

    /// ADD SP,e: two internal cycles. Z and N are cleared; H and C come
    /// from the unsigned 8-bit addition on the low byte of SP, regardless
    /// of e's sign; SP takes the wrapped sum with the sign-extended
    /// offset.
    pub fn addsp(&mut self, src: InstrTarget)
        requires
            old(self).wf(),
            old(self).mcycles + 12 <= u64::MAX,
        ensures
            final(self).wf(),
            final(self).mcycles == old(self).mcycles + get8_mc(src) + 2,
            final(self).f & FLAG_Z == 0,
            final(self).f & FLAG_N == 0,
            src.kind == TargetKind::Signed8 && !Bus::is_apu(old(self).pc) ==> ({
                let e = old(self).read_gated_spec(old(self).pc);
                &&& final(self).sp == wrap_add16(old(self).sp, (e as i8) as u16)
                &&& ((final(self).f & FLAG_H != 0) == ((old(self).sp & 0x0F) + (e & 0x0F) > 0x0F))
                &&& ((final(self).f & FLAG_C != 0) == ((old(self).sp & 0xFF) + e > 0xFF))
            }),
    {
        let offset: u8 = self.get_operand(src);
        let e16: u16 = (offset as i8) as u16;
        let res: u16 = self.sp.wrapping_add(e16);
        self.sp_offset_flags(offset);
        self.sp = res;
        self.tick();
        self.tick();
    }

    /// ADD A,src.
    pub fn add(&mut self, src: InstrTarget)
        requires
            old(self).wf(),
            old(self).mcycles + 12 <= u64::MAX,
        ensures
            final(self).wf(),
            final(self).mcycles == old(self).mcycles + get8_mc(src),
            is_reg8(src) ==> final(self).a == (old(self).a + reg8_spec(*old(self), src)) % 256,
            is_reg8(src) ==> *final(self) == (Cpu { a: final(self).a, f: final(self).f, ..*old(self) }),
    {
        let val: u8 = self.get_operand(src);
        let (res, f) = alu_add(self.a, val, 0);
        self.a = res;
        self.f = f;
    }

    /// ADC A,src.
    pub fn adc(&mut self, src: InstrTarget)
        requires
            old(self).wf(),
            old(self).mcycles + 12 <= u64::MAX,
        ensures
            final(self).wf(),
            final(self).mcycles == old(self).mcycles + get8_mc(src),
            is_reg8(src) ==> final(self).a == (old(self).a + reg8_spec(*old(self), src) + (if old(
                self,
            ).f & FLAG_C != 0 {
                1int
            } else {
                0int
            })) % 256,
            is_reg8(src) ==> *final(self) == (Cpu { a: final(self).a, f: final(self).f, ..*old(self) }),
    {
        let val: u8 = self.get_operand(src);
        let cin: u8 = if self.flag(FLAG_C) { 1 } else { 0 };
        let (res, f) = alu_add(self.a, val, cin);
        self.a = res;
        self.f = f;
    }

    /// SUB A,src.
    pub fn sub(&mut self, src: InstrTarget)
        requires
            old(self).wf(),
            old(self).mcycles + 12 <= u64::MAX,
        ensures
            final(self).wf(),
            final(self).mcycles == old(self).mcycles + get8_mc(src),
            is_reg8(src) ==> final(self).a == (256 + old(self).a - reg8_spec(*old(self), src))
                % 256,
            is_reg8(src) ==> *final(self) == (Cpu { a: final(self).a, f: final(self).f, ..*old(self) }),
    {
        let val: u8 = self.get_operand(src);
        let (res, f) = alu_sub(self.a, val, 0);
        self.a = res;
        self.f = f;
    }

    /// SBC A,src.
    pub fn sbc(&mut self, src: InstrTarget)
        requires
            old(self).wf(),
            old(self).mcycles + 12 <= u64::MAX,
        ensures
            final(self).wf(),
            final(self).mcycles == old(self).mcycles + get8_mc(src),
            is_reg8(src) ==> final(self).a == (512 + old(self).a - reg8_spec(*old(self), src) - (
            if old(self).f & FLAG_C != 0 {
                1int
            } else {
                0int
            })) % 256,
            is_reg8(src) ==> *final(self) == (Cpu { a: final(self).a, f: final(self).f, ..*old(self) }),
    {
        let val: u8 = self.get_operand(src);
        let cin: u8 = if self.flag(FLAG_C) { 1 } else { 0 };
        let (res, f) = alu_sub(self.a, val, cin);
        self.a = res;
        self.f = f;
    }

    /// CP src: SUB without storing the result.
    pub fn cp(&mut self, src: InstrTarget)
        requires
            old(self).wf(),
            old(self).mcycles + 12 <= u64::MAX,
        ensures
            final(self).wf(),
            final(self).mcycles == old(self).mcycles + get8_mc(src),
            final(self).a == old(self).a,
            is_reg8(src) ==> ((final(self).f & FLAG_Z != 0) == (old(self).a == reg8_spec(
                *old(self),
                src,
            ))),
            is_reg8(src) ==> *final(self) == (Cpu { f: final(self).f, ..*old(self) }),
    {
        let val: u8 = self.get_operand(src);
        let (_res, f) = alu_sub(self.a, val, 0);
        self.f = f;
    }

    /// INC t: 8-bit increment; C is preserved.
    pub fn inc(&mut self, t: InstrTarget)
        requires
            old(self).wf(),
            old(self).mcycles + 12 <= u64::MAX,
        ensures
            final(self).wf(),
            final(self).mcycles == old(self).mcycles + get8_mc(t) + set8_mc(t),
            t.kind != TargetKind::F ==> (final(self).f & FLAG_C != 0) == (old(self).f & FLAG_C
                != 0),
            is_reg8(t) ==> reg8_spec(*final(self), t) == (reg8_spec(*old(self), t) + 1) % 256,
            is_reg8(t) ==> *final(self) == (Cpu {
                f: final(self).f,
                ..set_reg8_spec(*old(self), t, ((reg8_spec(*old(self), t) + 1) % 256) as u8)
            }),
    {
        let val: u8 = self.get_operand(t);
        let res: u8 = if val == 0xFF { 0 } else { val + 1 };
        proof {
            crate::lemma_u8_fields(val);
        }
        let h: bool = (val & 0x0F) == 0x0F;
        let c: bool = self.flag(FLAG_C);
        let f: u8 = pack_flags(res == 0, false, h, c);
        self.f = f;
        self.set_result(t, res);
    }

    /// DEC t: 8-bit decrement; C is preserved.
    pub fn dec(&mut self, t: InstrTarget)
        requires
            old(self).wf(),
            old(self).mcycles + 12 <= u64::MAX,
        ensures
            final(self).wf(),
            final(self).mcycles == old(self).mcycles + get8_mc(t) + set8_mc(t),
            t.kind != TargetKind::F ==> (final(self).f & FLAG_C != 0) == (old(self).f & FLAG_C
                != 0),
            is_reg8(t) ==> reg8_spec(*final(self), t) == (255 + reg8_spec(*old(self), t)) % 256,
            is_reg8(t) ==> *final(self) == (Cpu {
                f: final(self).f,
                ..set_reg8_spec(*old(self), t, ((255 + reg8_spec(*old(self), t)) % 256) as u8)
            }),
    {
        let val: u8 = self.get_operand(t);
        let res: u8 = if val == 0 { 0xFF } else { val - 1 };
        proof {
            crate::lemma_u8_fields(val);
        }
        let h: bool = (val & 0x0F) == 0;
        let c: bool = self.flag(FLAG_C);
        let f: u8 = pack_flags(res == 0, true, h, c);
        self.f = f;
        self.set_result(t, res);
    }

    /// INC rr: one internal cycle, no flags.
    pub fn inc16(&mut self, t: InstrTarget)
        requires
            old(self).wf(),
            old(self).mcycles + 12 <= u64::MAX,
        ensures
            final(self).wf(),
            final(self).mcycles == old(self).mcycles + get16_mc(t) + set16_mc(t) + 1,
            t.kind != TargetKind::AF ==> final(self).f == old(self).f,
            t.kind == TargetKind::BC && t.immediate ==> final(self).bc.value_spec() == wrap_add16(
                old(self).bc.value_spec(),
                1,
            ),
            t.kind == TargetKind::DE && t.immediate ==> final(self).de.value_spec() == wrap_add16(
                old(self).de.value_spec(),
                1,
            ),
            t.kind == TargetKind::HL && t.immediate ==> final(self).hl.value_spec() == wrap_add16(
                old(self).hl.value_spec(),
                1,
            ),
            t.kind == TargetKind::SP ==> final(self).sp == wrap_add16(old(self).sp, 1),
    {
        let val: u16 = self.get_operand16(t);
        self.set_result16(t, val.wrapping_add(1));
        self.tick();
    }

    /// DEC rr: one internal cycle, no flags.
    pub fn dec16(&mut self, t: InstrTarget)
        requires
            old(self).wf(),
            old(self).mcycles + 12 <= u64::MAX,
        ensures
            final(self).wf(),
            final(self).mcycles == old(self).mcycles + get16_mc(t) + set16_mc(t) + 1,
            t.kind != TargetKind::AF ==> final(self).f == old(self).f,
            t.kind == TargetKind::BC && t.immediate ==> final(self).bc.value_spec() == wrap_sub16(
                old(self).bc.value_spec(),
                1,
            ),
            t.kind == TargetKind::DE && t.immediate ==> final(self).de.value_spec() == wrap_sub16(
                old(self).de.value_spec(),
                1,
            ),
            t.kind == TargetKind::HL && t.immediate ==> final(self).hl.value_spec() == wrap_sub16(
                old(self).hl.value_spec(),
                1,
            ),
            t.kind == TargetKind::SP ==> final(self).sp == wrap_sub16(old(self).sp, 1),
    {
        let val: u16 = self.get_operand16(t);
        self.set_result16(t, val.wrapping_sub(1));
        self.tick();
    }

    /// AND A,src: H set, N and C clear.
    pub fn and(&mut self, src: InstrTarget)
        requires
            old(self).wf(),
            old(self).mcycles + 12 <= u64::MAX,
        ensures
            final(self).wf(),
            final(self).mcycles == old(self).mcycles + get8_mc(src),
            is_reg8(src) ==> final(self).a == (old(self).a & reg8_spec(*old(self), src)),
            is_reg8(src) ==> *final(self) == (Cpu { a: final(self).a, f: final(self).f, ..*old(self) }),
    {
        let val: u8 = self.get_operand(src);
        let res: u8 = self.a & val;
        let f: u8 = pack_flags(res == 0, false, true, false);
        self.a = res;
        self.f = f;
    }

    /// OR A,src.
    pub fn or(&mut self, src: InstrTarget)
        requires
            old(self).wf(),
            old(self).mcycles + 12 <= u64::MAX,
        ensures
            final(self).wf(),
            final(self).mcycles == old(self).mcycles + get8_mc(src),
            is_reg8(src) ==> final(self).a == (old(self).a | reg8_spec(*old(self), src)),
            is_reg8(src) ==> *final(self) == (Cpu { a: final(self).a, f: final(self).f, ..*old(self) }),
    {
        let val: u8 = self.get_operand(src);
        let res: u8 = self.a | val;
        let f: u8 = pack_flags(res == 0, false, false, false);
        self.a = res;
        self.f = f;
    }

    /// XOR A,src.
    pub fn xor(&mut self, src: InstrTarget)
        requires
            old(self).wf(),
            old(self).mcycles + 12 <= u64::MAX,
        ensures
            final(self).wf(),
            final(self).mcycles == old(self).mcycles + get8_mc(src),
            is_reg8(src) ==> final(self).a == (old(self).a ^ reg8_spec(*old(self), src)),
            is_reg8(src) ==> *final(self) == (Cpu { a: final(self).a, f: final(self).f, ..*old(self) }),
    {
        let val: u8 = self.get_operand(src);
        let res: u8 = self.a ^ val;
        let f: u8 = pack_flags(res == 0, false, false, false);
        self.a = res;
        self.f = f;
    }

    /// CCF: complements C, clears N and H.
    pub fn ccf(&mut self)
        requires
            old(self).wf(),
        ensures
            final(self).wf(),
            *final(self) == (Cpu { f: final(self).f, ..*old(self) }),
            (final(self).f & FLAG_C != 0) == (old(self).f & FLAG_C == 0),
            (final(self).f & FLAG_Z != 0) == (old(self).f & FLAG_Z != 0),
            final(self).f & FLAG_N == 0 && final(self).f & FLAG_H == 0,
    {
        let z: bool = self.flag(FLAG_Z);
        let c: bool = self.flag(FLAG_C);
        let f: u8 = pack_flags(z, false, false, !c);
        self.f = f;
    }

    /// SCF: sets C, clears N and H.
    pub fn scf(&mut self)
        requires
            old(self).wf(),
        ensures
            final(self).wf(),
            *final(self) == (Cpu { f: final(self).f, ..*old(self) }),
            final(self).f & FLAG_C != 0,
            (final(self).f & FLAG_Z != 0) == (old(self).f & FLAG_Z != 0),
            final(self).f & FLAG_N == 0 && final(self).f & FLAG_H == 0,
    {
        let z: bool = self.flag(FLAG_Z);
        let f: u8 = pack_flags(z, false, false, true);
        self.f = f;
    }

    /// DAA: decimal-adjusts A after an addition or subtraction, with the
    /// correction direction chosen by the N flag.
    pub fn daa(&mut self)
        requires
            old(self).wf(),
        ensures
            final(self).wf(),
            *final(self) == (Cpu { a: final(self).a, f: final(self).f, ..*old(self) }),
            (final(self).f & FLAG_Z != 0) == (final(self).a == 0),
            (final(self).f & FLAG_N != 0) == (old(self).f & FLAG_N != 0),
            final(self).f & FLAG_H == 0,
    {
        let n: bool = self.flag(FLAG_N);
        let h: bool = self.flag(FLAG_H);
        let c: bool = self.flag(FLAG_C);
        let a: u8 = self.a;
        proof {
            crate::lemma_u8_fields(a);
        }
        let mut correction: u8 = 0;
        let mut carry: bool = false;
        if h || (!n && a & 0x0F > 0x9) {
            correction = 0x6;
        }
        if c || (!n && a > 0x99) {
            correction = correction + 0x60;
            carry = true;
        }
        let res: u8 = if n { a.wrapping_sub(correction) } else { a.wrapping_add(correction) };
        let f: u8 = pack_flags(res == 0, n, false, carry);
        self.a = res;
        self.f = f;
    }

    /// CPL: complements A, sets N and H.
    pub fn cpl(&mut self)
        requires
            old(self).wf(),
        ensures
            final(self).wf(),
            *final(self) == (Cpu { a: final(self).a, f: final(self).f, ..*old(self) }),
            final(self).a == !old(self).a,
            (final(self).f & FLAG_Z != 0) == (old(self).f & FLAG_Z != 0),
            (final(self).f & FLAG_C != 0) == (old(self).f & FLAG_C != 0),
            final(self).f & FLAG_N != 0 && final(self).f & FLAG_H != 0,
    {
        let z: bool = self.flag(FLAG_Z);
        let c: bool = self.flag(FLAG_C);
        self.a = !self.a;
        let f: u8 = pack_flags(z, true, true, c);
        self.f = f;
    }

    /// ADD HL,rr: one internal cycle; Z preserved, H from bit 11, C from
    /// bit 15.
    pub fn addhl(&mut self, t: InstrTarget)
        requires
            old(self).wf(),
            old(self).mcycles + 12 <= u64::MAX,
        ensures
            final(self).wf(),
            final(self).mcycles == old(self).mcycles + get16_mc(t) + 1,
            (final(self).f & FLAG_Z != 0) == (old(self).f & FLAG_Z != 0),
            final(self).f & FLAG_N == 0,
    {
        let val: u16 = self.get_operand16(t);
        let hl: u16 = self.hl.value();
        let sum: u32 = hl as u32 + val as u32;
        let res: u16 = (sum % 0x10000) as u32 as u16;
        proof {
            assert(hl & 0x0FFF <= 0x0FFF && val & 0x0FFF <= 0x0FFF) by (bit_vector);
        }
        let h: bool = (hl & 0x0FFF) + (val & 0x0FFF) > 0x0FFF;
        let c: bool = sum > 0xFFFF;
        let z: bool = self.flag(FLAG_Z);
        let f: u8 = pack_flags(z, false, h, c);
        self.f = f;
        self.hl.set(res);
        self.tick();
    }

    /// RLCA: rotate A left; Z is cleared.
    pub fn rlca(&mut self)
        requires
            old(self).wf(),
        ensures
            final(self).wf(),
            *final(self) == (Cpu { a: final(self).a, f: final(self).f, ..*old(self) }),
            final(self).a == (old(self).a << 1) | (old(self).a >> 7),
            (final(self).f & FLAG_C != 0) == (old(self).a >> 7 != 0),
            final(self).f & FLAG_Z == 0,
    {
        let v: u8 = self.a;
        self.a = (v << 1) | (v >> 7);
        let f: u8 = pack_flags(false, false, false, v >> 7 != 0);
        self.f = f;
    }

    /// RRCA: rotate A right; Z is cleared.
    pub fn rrca(&mut self)
        requires
            old(self).wf(),
        ensures
            final(self).wf(),
            *final(self) == (Cpu { a: final(self).a, f: final(self).f, ..*old(self) }),
            final(self).a == (old(self).a >> 1) | (old(self).a << 7),
            (final(self).f & FLAG_C != 0) == (old(self).a & 1 != 0),
            final(self).f & FLAG_Z == 0,
    {
        let v: u8 = self.a;
        self.a = (v >> 1) | (v << 7);
        let f: u8 = pack_flags(false, false, false, v & 1 != 0);
        self.f = f;
    }

    /// RLA: rotate A left through carry; Z is cleared.
    pub fn rla(&mut self)
        requires
            old(self).wf(),
        ensures
            final(self).wf(),
            *final(self) == (Cpu { a: final(self).a, f: final(self).f, ..*old(self) }),
            final(self).a == (old(self).a << 1) | (if old(self).f & FLAG_C != 0 { 1u8 } else {
                0u8
            }),
            (final(self).f & FLAG_C != 0) == (old(self).a >> 7 != 0),
            final(self).f & FLAG_Z == 0,
    {
        let v: u8 = self.a;
        let cin: u8 = if self.flag(FLAG_C) { 1 } else { 0 };
        self.a = (v << 1) | cin;
        let f: u8 = pack_flags(false, false, false, v >> 7 != 0);
        self.f = f;
    }

    /// RRA: rotate A right through carry; Z is cleared.
    pub fn rra(&mut self)
        requires
            old(self).wf(),
        ensures
            final(self).wf(),
            *final(self) == (Cpu { a: final(self).a, f: final(self).f, ..*old(self) }),
            final(self).a == (old(self).a >> 1) | (if old(self).f & FLAG_C != 0 { 0x80u8 } else {
                0u8
            }),
            (final(self).f & FLAG_C != 0) == (old(self).a & 1 != 0),
            final(self).f & FLAG_Z == 0,
    {
        let v: u8 = self.a;
        let cin: u8 = if self.flag(FLAG_C) { 0x80 } else { 0 };
        self.a = (v >> 1) | cin;
        let f: u8 = pack_flags(false, false, false, v & 1 != 0);
        self.f = f;
    }

    /// RLC t: rotate left.
    pub fn rlc(&mut self, t: InstrTarget)
        requires
            old(self).wf(),
            old(self).mcycles + 12 <= u64::MAX,
        ensures
            final(self).wf(),
            final(self).mcycles == old(self).mcycles + get8_mc(t) + set8_mc(t),
            is_reg8(t) ==> reg8_spec(*final(self), t) == (reg8_spec(*old(self), t) << 1) | (
            reg8_spec(*old(self), t) >> 7),
    {
        let v: u8 = self.get_operand(t);
        let res: u8 = (v << 1) | (v >> 7);
        let f: u8 = pack_flags(res == 0, false, false, v >> 7 != 0);
        self.f = f;
        self.set_result(t, res);
    }

    /// RRC t: rotate right.
    pub fn rrc(&mut self, t: InstrTarget)
        requires
            old(self).wf(),
            old(self).mcycles + 12 <= u64::MAX,
        ensures
            final(self).wf(),
            final(self).mcycles == old(self).mcycles + get8_mc(t) + set8_mc(t),
            is_reg8(t) ==> reg8_spec(*final(self), t) == (reg8_spec(*old(self), t) >> 1) | (
            reg8_spec(*old(self), t) << 7),
    {
        let v: u8 = self.get_operand(t);
        let res: u8 = (v >> 1) | (v << 7);
        let f: u8 = pack_flags(res == 0, false, false, v & 1 != 0);
        self.f = f;
        self.set_result(t, res);
    }

    /// RL t: rotate left through carry.
    pub fn rl(&mut self, t: InstrTarget)
        requires
            old(self).wf(),
            old(self).mcycles + 12 <= u64::MAX,
        ensures
            final(self).wf(),
            final(self).mcycles == old(self).mcycles + get8_mc(t) + set8_mc(t),
    {
        let cin: u8 = if self.flag(FLAG_C) { 1 } else { 0 };
        let v: u8 = self.get_operand(t);
        let res: u8 = (v << 1) | cin;
        let f: u8 = pack_flags(res == 0, false, false, v >> 7 != 0);
        self.f = f;
        self.set_result(t, res);
    }

    /// RR t: rotate right through carry.
    pub fn rr(&mut self, t: InstrTarget)
        requires
            old(self).wf(),
            old(self).mcycles + 12 <= u64::MAX,
        ensures
            final(self).wf(),
            final(self).mcycles == old(self).mcycles + get8_mc(t) + set8_mc(t),
    {
        let cin: u8 = if self.flag(FLAG_C) { 0x80 } else { 0 };
        let v: u8 = self.get_operand(t);
        let res: u8 = (v >> 1) | cin;
        let f: u8 = pack_flags(res == 0, false, false, v & 1 != 0);
        self.f = f;
        self.set_result(t, res);
    }

    /// SLA t: shift left arithmetic.
    pub fn sla(&mut self, t: InstrTarget)
        requires
            old(self).wf(),
            old(self).mcycles + 12 <= u64::MAX,
        ensures
            final(self).wf(),
            final(self).mcycles == old(self).mcycles + get8_mc(t) + set8_mc(t),
            is_reg8(t) ==> reg8_spec(*final(self), t) == reg8_spec(*old(self), t) << 1,
    {
        let v: u8 = self.get_operand(t);
        let res: u8 = v << 1;
        let f: u8 = pack_flags(res == 0, false, false, v >> 7 != 0);
        self.f = f;
        self.set_result(t, res);
    }

    /// SRA t: shift right arithmetic (bit 7 kept).
    pub fn sra(&mut self, t: InstrTarget)
        requires
            old(self).wf(),
            old(self).mcycles + 12 <= u64::MAX,
        ensures
            final(self).wf(),
            final(self).mcycles == old(self).mcycles + get8_mc(t) + set8_mc(t),
            is_reg8(t) ==> reg8_spec(*final(self), t) == (reg8_spec(*old(self), t) & 0x80) | (
            reg8_spec(*old(self), t) >> 1),
    {
        let v: u8 = self.get_operand(t);
        let res: u8 = (v & 0x80) | (v >> 1);
        let f: u8 = pack_flags(res == 0, false, false, v & 1 != 0);
        self.f = f;
        self.set_result(t, res);
    }

    /// SRL t: shift right logical.
    pub fn srl(&mut self, t: InstrTarget)
        requires
            old(self).wf(),
            old(self).mcycles + 12 <= u64::MAX,
        ensures
            final(self).wf(),
            final(self).mcycles == old(self).mcycles + get8_mc(t) + set8_mc(t),
            is_reg8(t) ==> reg8_spec(*final(self), t) == reg8_spec(*old(self), t) >> 1,
    {
        let v: u8 = self.get_operand(t);
        let res: u8 = v >> 1;
        let f: u8 = pack_flags(res == 0, false, false, v & 1 != 0);
        self.f = f;
        self.set_result(t, res);
    }

    /// SWAP t: swaps the nibbles; all of N, H, C clear.
    pub fn swap(&mut self, t: InstrTarget)
        requires
            old(self).wf(),
            old(self).mcycles + 12 <= u64::MAX,
        ensures
            final(self).wf(),
            final(self).mcycles == old(self).mcycles + get8_mc(t) + set8_mc(t),
            is_reg8(t) ==> reg8_spec(*final(self), t) == (reg8_spec(*old(self), t) << 4) | (
            reg8_spec(*old(self), t) >> 4),
    {
        let v: u8 = self.get_operand(t);
        let res: u8 = (v << 4) | (v >> 4);
        let f: u8 = pack_flags(res == 0, false, false, false);
        self.f = f;
        self.set_result(t, res);
    }

    /// BIT b,t: Z is the complement of the tested bit; C preserved.
    pub fn bit(&mut self, b: u8, t: InstrTarget)
        requires
            old(self).wf(),
            old(self).mcycles + 12 <= u64::MAX,
            b < 8,
        ensures
            final(self).wf(),
            final(self).mcycles == old(self).mcycles + get8_mc(t),
            (final(self).f & FLAG_C != 0) == (old(self).f & FLAG_C != 0),
            final(self).f & FLAG_N == 0,
            final(self).f & FLAG_H != 0,
            is_reg8(t) ==> ((final(self).f & FLAG_Z != 0) == ((reg8_spec(*old(self), t) >> b) & 1
                == 0)),
            is_reg8(t) ==> *final(self) == (Cpu { f: final(self).f, ..*old(self) }),
    {
        let v: u8 = self.get_operand(t);
        let z: bool = (v >> b) & 1 == 0;
        let c: bool = self.flag(FLAG_C);
        let f: u8 = pack_flags(z, false, true, c);
        self.f = f;
    }

    /// RES b,t: clears one bit; no flags.
    pub fn res(&mut self, b: u8, t: InstrTarget)
        requires
            old(self).wf(),
            old(self).mcycles + 12 <= u64::MAX,
            b < 8,
        ensures
            final(self).wf(),
            final(self).mcycles == old(self).mcycles + get8_mc(t) + set8_mc(t),
            is_reg8(t) ==> reg8_spec(*final(self), t) == (reg8_spec(*old(self), t) & !(1u8 << b)),
            is_reg8(t) ==> *final(self) == set_reg8_spec(
                *old(self),
                t,
                reg8_spec(*old(self), t) & !(1u8 << b),
            ),
    {
        let v: u8 = self.get_operand(t);
        self.set_result(t, v & !(1u8 << b));
    }

    /// SET b,t: sets one bit; no flags.
    pub fn set(&mut self, b: u8, t: InstrTarget)
        requires
            old(self).wf(),
            old(self).mcycles + 12 <= u64::MAX,
            b < 8,
        ensures
            final(self).wf(),
            final(self).mcycles == old(self).mcycles + get8_mc(t) + set8_mc(t),
            is_reg8(t) ==> reg8_spec(*final(self), t) == (reg8_spec(*old(self), t) | (1u8 << b)),
            is_reg8(t) ==> *final(self) == set_reg8_spec(
                *old(self),
                t,
                reg8_spec(*old(self), t) | (1u8 << b),
            ),
    {
        let v: u8 = self.get_operand(t);
        self.set_result(t, v | (1u8 << b));
    }

    /// JP t: one internal cycle after the target is read.
    pub fn jp(&mut self, t: InstrTarget)
        requires
            old(self).wf(),
            old(self).mcycles + 12 <= u64::MAX,
        ensures
            final(self).wf(),
            final(self).mcycles == old(self).mcycles + get16_mc(t) + 1,
            final(self).f == old(self).f,
    {
        let addr: u16 = self.get_operand16(t);
        self.pc = addr;
        self.tick();
    }

    /// JP HL: no extra cycles.
    pub fn jphl(&mut self)
        ensures
            *final(self) == (Cpu { pc: old(self).hl.value_spec(), ..*old(self) }),
    {
        self.pc = self.hl.value();
    }

    /// JP cc,a16: the extra cycle only when the branch is taken.
    pub fn jpc(&mut self, cc: u8, t: InstrTarget)
        requires
            old(self).wf(),
            old(self).mcycles + 12 <= u64::MAX,
            cc < 4,
        ensures
            final(self).wf(),
            final(self).mcycles == old(self).mcycles + get16_mc(t) + (if cond_holds(
                old(self).f,
                cc,
            ) {
                1int
            } else {
                0int
            }),
            final(self).f == old(self).f,
    {
        let addr: u16 = self.get_operand16(t);
        if self.get_cond(cc) {
            self.pc = addr;
            self.tick();
        }
    }

    /// JR e: relative jump, one internal cycle.
    pub fn jr(&mut self, t: InstrTarget)
        requires
            old(self).wf(),
            old(self).mcycles + 12 <= u64::MAX,
        ensures
            final(self).wf(),
            final(self).mcycles == old(self).mcycles + get8_mc(t) + 1,
            final(self).f == old(self).f,
    {
        let offset: u8 = self.get_operand(t);
        self.pc = self.pc.wrapping_add_signed((offset as i8) as i16);
        self.tick();
    }

    /// JR cc,e: the extra cycle only when the branch is taken.
    pub fn jrc(&mut self, cc: u8, t: InstrTarget)
        requires
            old(self).wf(),
            old(self).mcycles + 12 <= u64::MAX,
            cc < 4,
        ensures
            final(self).wf(),
            final(self).mcycles == old(self).mcycles + get8_mc(t) + (if cond_holds(
                old(self).f,
                cc,
            ) {
                1int
            } else {
                0int
            }),
            final(self).f == old(self).f,
    {
        let offset: u8 = self.get_operand(t);
        if self.get_cond(cc) {
            self.pc = self.pc.wrapping_add_signed((offset as i8) as i16);
            self.tick();
        }
    }

    /// CALL a16: push the return address, then jump.
    pub fn call(&mut self, t: InstrTarget)
        requires
            old(self).wf(),
            old(self).mcycles + 12 <= u64::MAX,
        ensures
            final(self).wf(),
            final(self).mcycles == old(self).mcycles + get16_mc(t) + 3,
            final(self).f == old(self).f,
    {
        let addr: u16 = self.get_operand16(t);
        let pc: u16 = self.pc;
        self.stack_push(pc);
        self.pc = addr;
    }

    /// CALL cc,a16.
    pub fn callc(&mut self, cc: u8, t: InstrTarget)
        requires
            old(self).wf(),
            old(self).mcycles + 12 <= u64::MAX,
            cc < 4,
        ensures
            final(self).wf(),
            final(self).mcycles == old(self).mcycles + get16_mc(t) + (if cond_holds(
                old(self).f,
                cc,
            ) {
                3int
            } else {
                0int
            }),
            final(self).f == old(self).f,
    {
        let addr: u16 = self.get_operand16(t);
        if self.get_cond(cc) {
            let pc: u16 = self.pc;
            self.stack_push(pc);
            self.pc = addr;
        }
    }

    /// RET: pop the return address, one internal cycle.
    pub fn ret(&mut self)
        requires
            old(self).wf(),
            old(self).mcycles + 12 <= u64::MAX,
        ensures
            final(self).wf(),
            final(self).mcycles == old(self).mcycles + 3,
            final(self).f == old(self).f,
    {
        let addr: u16 = self.stack_pop();
        self.pc = addr;
        self.tick();
    }

    /// RET cc: one internal cycle always, three more when taken.
    pub fn retc(&mut self, cc: u8)
        requires
            old(self).wf(),
            old(self).mcycles + 12 <= u64::MAX,
            cc < 4,
        ensures
            final(self).wf(),
            final(self).mcycles == old(self).mcycles + 1 + (if cond_holds(old(self).f, cc) {
                3int
            } else {
                0int
            }),
            final(self).f == old(self).f,
    {
        self.tick();
        if self.get_cond(cc) {
            let addr: u16 = self.stack_pop();
            self.pc = addr;
            self.tick();
        }
    }

    /// RETI: RET that also sets IME at once.
    pub fn reti(&mut self)
        requires
            old(self).wf(),
            old(self).mcycles + 12 <= u64::MAX,
        ensures
            final(self).wf(),
            final(self).mcycles == old(self).mcycles + 3,
            final(self).ime,
            final(self).f == old(self).f,
    {
        self.ime = true;
        let addr: u16 = self.stack_pop();
        self.pc = addr;
        self.tick();
    }

    /// RST: push PC and jump to the opcode's fixed vector.
    pub fn rst(&mut self, op: u8)
        requires
            old(self).wf(),
            old(self).mcycles + 12 <= u64::MAX,
        ensures
            final(self).wf(),
            final(self).mcycles == old(self).mcycles + 3,
            final(self).pc == op & 0x38,
            final(self).f == old(self).f,
    {
        let pc: u16 = self.pc;
        self.stack_push(pc);
        self.pc = self.get_interrupt_addr(op);
    }

    /// DI: clears IME and the pending-enable latch at once.
    pub fn di(&mut self)
        ensures
            *final(self) == (Cpu { ime: false, ime_to_set: false, ..*old(self) }),
    {
        self.ime = false;
        self.ime_to_set = false;
    }

    /// EI: arms the pending-enable latch; IME rises only after the next
    /// instruction.
    pub fn ei(&mut self)
        ensures
            *final(self) == (Cpu { ime_to_set: true, ..*old(self) }),
    {
        self.ime_to_set = true;
    }

    /// STOP: a two-byte NOP that resets DIV.
    pub fn stop(&mut self)
        requires
            old(self).wf(),
        ensures
            final(self).wf(),
            final(self).mcycles == old(self).mcycles,
            final(self).pc == wrap_inc16(old(self).pc),
            final(self).f == old(self).f,
    {
        self.pc = if self.pc == 0xFFFF { 0 } else { self.pc + 1 };
        self.bus.timer.write(0xFF04, 0);
    }

    /// HALT. Executed with IME clear while an enabled interrupt is already
    /// pending, it does not halt: it arms the fetch-twice latch instead
    /// (the HALT bug).
    pub fn halt(&mut self)
        ensures
            *final(self) == (Cpu {
                halted: final(self).halted,
                halt_bug: final(self).halt_bug,
                ..*old(self)
            }),
            final(self).halted == if !old(self).ime && old(self).bus.inte & old(self).bus.intf
                & 0x1F != 0 {
                old(self).halted
            } else {
                true
            },
            final(self).halt_bug == (old(self).halt_bug || (!old(self).ime && old(self).bus.inte
                & old(self).bus.intf & 0x1F != 0)),
    {
        if !self.ime && self.bus.inte & self.bus.intf & 0x1F != 0 {
            self.halt_bug = true;
        } else {
            self.halted = true;
        }
    }

    /// Enabled interrupt bits currently pending.
    pub open spec fn pending_spec(self) -> u8 {
        self.bus.inte & self.bus.intf & 0x1F
    }

    /// The lowest-numbered set bit of a pending mask: the interrupt that
    /// is serviced first.
    pub open spec fn lowest_int_mask(p: u8) -> u8 {
        if p & 1 != 0 { 1u8 } else if p & 2 != 0 { 2u8 } else if p & 4 != 0 { 4u8 } else if p & 8
            != 0 { 8u8 } else { 0x10u8 }
    }

    /// The fixed dispatch vector of an interrupt bit.
    pub open spec fn int_vector(m: u8) -> u16 {
        if m == 1 { 0x40u16 } else if m == 2 { 0x48u16 } else if m == 4 { 0x50u16 } else if m == 8 {
            0x58u16
        } else { 0x60u16 }
    }

    /// Services the lowest-numbered pending interrupt when one exists:
    /// clears IME and the serviced IF bit, consumes two internal cycles,
    /// pushes PC at SP-2, jumps to the fixed vector, and consumes one
    /// final cycle (20 T-cycles in all). The unserviced IF bits are kept;
    /// the serviced bit is gone unless a peripheral raised it anew during
    /// the dispatch's own five cycles.
    pub fn handle_interrupts(&mut self)
        requires
            old(self).wf(),
            old(self).mcycles + 12 <= u64::MAX,
        ensures
            final(self).wf(),
            final(self).mcycles == old(self).mcycles + (if old(self).pending_spec() != 0 {
                5int
            } else {
                0int
            }),
            final(self).f == old(self).f,
            old(self).pending_spec() != 0 ==> !final(self).ime,
            old(self).pending_spec() == 0 ==> *final(self) == *old(self),
            old(self).pending_spec() != 0 ==> final(self).pc == Cpu::int_vector(
                Cpu::lowest_int_mask(old(self).pending_spec()),
            ) && final(self).sp == wrap_sub16(old(self).sp, 2) && final(self).a == old(self).a
                && final(self).bc == old(self).bc && final(self).de == old(self).de
                && final(self).hl == old(self).hl && final(self).halted == old(self).halted
                && final(self).ime_to_set == old(self).ime_to_set,
            ({
                let a = wrap_sub16(old(self).sp, 2);
                let m = Cpu::lowest_int_mask(old(self).pending_spec());
                old(self).pending_spec() != 0 && old(self).bus.dma.remaining == 0 && !old(
                    self,
                ).bus.dma.delay && (is_wram(a) || is_hram(a)) && (is_wram(wrap_inc16(a))
                    || is_hram(wrap_inc16(a))) ==> final(self).bus.read_spec(a) == old(self).pc
                    & 0xFF && final(self).bus.read_spec(wrap_inc16(a)) == old(self).pc >> 8
                    && final(self).bus.inte == old(self).bus.inte && final(self).bus.intf & (old(
                    self,
                ).bus.intf & !m) == (old(self).bus.intf & !m)
            }),
    {
        let pending: u8 = self.bus.inte & self.bus.intf & 0x1F;
        if pending == 0 {
            return;
        }
        let mask: u8 = if pending & 1 != 0 { 1 } else if pending & 2 != 0 { 2 } else if pending
            & 4 != 0 { 4 } else if pending & 8 != 0 { 8 } else { 0x10 };
        let vector: u16 = if pending & 1 != 0 { 0x40 } else if pending & 2 != 0 {
            0x48
        } else if pending & 4 != 0 { 0x50 } else if pending & 8 != 0 { 0x58 } else { 0x60 };
        proof {
            assert(mask == Cpu::lowest_int_mask(pending) && vector == Cpu::int_vector(
                Cpu::lowest_int_mask(pending),
            ));
            assert((self.bus.intf & !mask) & (self.bus.intf & !mask) == (self.bus.intf & !mask))
                by (bit_vector);
        }
        self.bus.intf = self.bus.intf & !mask;
        let ghost kept: u8 = self.bus.intf;
        self.ime = false;
        self.tick();
        let ghost i1: u8 = self.bus.intf;
        self.tick();
        let ghost i2: u8 = self.bus.intf;
        let pc: u16 = self.pc;
        let dest: u16 = self.sp.wrapping_sub(2);
        self.write16(dest, pc);
        let ghost i3: u8 = self.bus.intf;
        self.sp = dest;
        self.pc = vector;
        self.tick();
        proof {
            assert(!is_wram(0xFF0Fu16) && !is_hram(0xFF0Fu16));
            crate::lemma_bits_kept(kept, i1, i2);
            crate::lemma_bits_kept(kept, i2, i3);
            crate::lemma_bits_kept(kept, i3, self.bus.intf);
        }
    }

    /// Executes one unprefixed instruction whose opcode byte has already
    /// been fetched.
    ///
    /// For every encoding, the machine cycles consumed beyond the opcode
    /// fetch equal the published timing table's value for that opcode (with
    /// the conditional instructions' branch decided by the flags), and the
    /// low nibble of F is zero afterwards.
    pub fn execute_no_prefix(&mut self, op: u8)
        requires
            old(self).wf(),
            old(self).mcycles + 12 <= u64::MAX,
        ensures
            final(self).wf(),
            final(self).f & 0x0F == 0,
            final(self).mcycles == old(self).mcycles + exec_mcycles(
                op,
                cond_holds(old(self).f, (op >> 3) & 3),
            ),
            op == 0x00 ==> *final(self) == *old(self),
            (op == 0x04 || op == 0x0C || op == 0x14 || op == 0x1C || op == 0x24 || op == 0x2C
                || op == 0x3C) ==> *final(self) == (Cpu {
                f: final(self).f,
                ..set_reg8_spec(
                    *old(self),
                    r8_target_spec((op >> 3) & 7),
                    ((reg8_spec(*old(self), r8_target_spec((op >> 3) & 7)) + 1) % 256) as u8,
                )
            }),
            (op == 0x05 || op == 0x0D || op == 0x15 || op == 0x1D || op == 0x25 || op == 0x2D
                || op == 0x3D) ==> *final(self) == (Cpu {
                f: final(self).f,
                ..set_reg8_spec(
                    *old(self),
                    r8_target_spec((op >> 3) & 7),
                    ((255 + reg8_spec(*old(self), r8_target_spec((op >> 3) & 7))) % 256) as u8,
                )
            }),
            0x40 <= op < 0x80 && op != 0x76 && op & 7 != 6 && (op >> 3) & 7 != 6 ==> *final(self)
                == set_reg8_spec(
                *old(self),
                r8_target_spec((op >> 3) & 7),
                reg8_spec(*old(self), r8_target_spec(op & 7)),
            ),
            op == 0x76 ==> *final(self) == (Cpu {
                halted: final(self).halted,
                halt_bug: final(self).halt_bug,
                ..*old(self)
            }) && final(self).halt_bug == (old(self).halt_bug || (!old(self).ime && old(
                self,
            ).pending_spec() != 0)) && final(self).halted == (if !old(self).ime && old(
                self,
            ).pending_spec() != 0 {
                old(self).halted
            } else {
                true
            }),
            0x80 <= op < 0xC0 && op & 7 != 6 ==> *final(self) == (Cpu {
                a: final(self).a,
                f: final(self).f,
                ..*old(self)
            }) && final(self).a == alu8_spec(
                op,
                old(self).a,
                reg8_spec(*old(self), r8_target_spec(op & 7)),
                old(self).f & FLAG_C != 0,
            ),
            op == 0xF3 ==> *final(self) == (Cpu { ime: false, ime_to_set: false, ..*old(self) }),
            op == 0xFB ==> *final(self) == (Cpu { ime_to_set: true, ..*old(self) }),
    {
        if op < 0x40 {
            self.execute_q0(op);
        } else if op < 0x80 {
            self.execute_q1(op);
        } else if op < 0xC0 {
            self.execute_q2(op);
        } else {
            self.execute_q3(op);
        }
    }

    /// Opcodes 0x00..0x3F.
    #[verifier::rlimit(100)]
    fn execute_q0(&mut self, op: u8)
        requires
            old(self).wf(),
            old(self).mcycles + 12 <= u64::MAX,
            op < 0x40,
        ensures
            final(self).wf(),
            final(self).f & 0x0F == 0,
            final(self).mcycles == old(self).mcycles + exec_mcycles(
                op,
                cond_holds(old(self).f, (op >> 3) & 3),
            ),
            op == 0x00 ==> *final(self) == *old(self),
            (op == 0x04 || op == 0x0C || op == 0x14 || op == 0x1C || op == 0x24 || op == 0x2C
                || op == 0x3C) ==> *final(self) == (Cpu {
                f: final(self).f,
                ..set_reg8_spec(
                    *old(self),
                    r8_target_spec((op >> 3) & 7),
                    ((reg8_spec(*old(self), r8_target_spec((op >> 3) & 7)) + 1) % 256) as u8,
                )
            }),
            (op == 0x05 || op == 0x0D || op == 0x15 || op == 0x1D || op == 0x25 || op == 0x2D
                || op == 0x3D) ==> *final(self) == (Cpu {
                f: final(self).f,
                ..set_reg8_spec(
                    *old(self),
                    r8_target_spec((op >> 3) & 7),
                    ((255 + reg8_spec(*old(self), r8_target_spec((op >> 3) & 7))) % 256) as u8,
                )
            }),
    {
        proof {
            crate::lemma_u8_fields(op);
        }
        match op {
            0x00 => self.nop(),
            0x01 => self.ld16(InstrTarget::val(TargetKind::BC), InstrTarget::val(TargetKind::Immediate16)),
            0x11 => self.ld16(InstrTarget::val(TargetKind::DE), InstrTarget::val(TargetKind::Immediate16)),
            0x21 => self.ld16(InstrTarget::val(TargetKind::HL), InstrTarget::val(TargetKind::Immediate16)),
            0x31 => self.ld16(InstrTarget::val(TargetKind::SP), InstrTarget::val(TargetKind::Immediate16)),
            0x08 => self.ld16(InstrTarget::mem(TargetKind::Address16), InstrTarget::val(TargetKind::SP)),
            0x02 => self.ld(InstrTarget::mem(TargetKind::BC), InstrTarget::val(TargetKind::A)),
            0x12 => self.ld(InstrTarget::mem(TargetKind::DE), InstrTarget::val(TargetKind::A)),
            0x22 => self.ld(InstrTarget::mem_inc(TargetKind::HL), InstrTarget::val(TargetKind::A)),
            0x32 => self.ld(InstrTarget::mem_dec(TargetKind::HL), InstrTarget::val(TargetKind::A)),
            0x0A => self.ld(InstrTarget::val(TargetKind::A), InstrTarget::mem(TargetKind::BC)),
            0x1A => self.ld(InstrTarget::val(TargetKind::A), InstrTarget::mem(TargetKind::DE)),
            0x2A => self.ld(InstrTarget::val(TargetKind::A), InstrTarget::mem_inc(TargetKind::HL)),
            0x3A => self.ld(InstrTarget::val(TargetKind::A), InstrTarget::mem_dec(TargetKind::HL)),
            0x06 | 0x0E | 0x16 | 0x1E | 0x26 | 0x2E | 0x36 | 0x3E => {
                proof {
                    assert(((op >> 3) & 7 == 6) == (op == 0x36)) by (bit_vector)
                        requires
                            op == 0x06 || op == 0x0E || op == 0x16 || op == 0x1E || op == 0x26
                                || op == 0x2E || op == 0x36 || op == 0x3E,
                    ;
                }
                let dst = r8_target((op >> 3) & 7);
                self.ld(dst, InstrTarget::val(TargetKind::Immediate8));
            },
            0x04 | 0x0C | 0x14 | 0x1C | 0x24 | 0x2C | 0x34 | 0x3C => {
                proof {
                    assert(((op >> 3) & 7 == 6) == (op == 0x34)) by (bit_vector)
                        requires
                            op == 0x04 || op == 0x0C || op == 0x14 || op == 0x1C || op == 0x24
                                || op == 0x2C || op == 0x34 || op == 0x3C,
                    ;
                }
                let t = r8_target((op >> 3) & 7);
                self.inc(t);
            },
            0x05 | 0x0D | 0x15 | 0x1D | 0x25 | 0x2D | 0x35 | 0x3D => {
                proof {
                    assert(((op >> 3) & 7 == 6) == (op == 0x35)) by (bit_vector)
                        requires
                            op == 0x05 || op == 0x0D || op == 0x15 || op == 0x1D || op == 0x25
                                || op == 0x2D || op == 0x35 || op == 0x3D,
                    ;
                }
                let t = r8_target((op >> 3) & 7);
                self.dec(t);
            },
            0x03 => self.inc16(InstrTarget::val(TargetKind::BC)),
            0x13 => self.inc16(InstrTarget::val(TargetKind::DE)),
            0x23 => self.inc16(InstrTarget::val(TargetKind::HL)),
            0x33 => self.inc16(InstrTarget::val(TargetKind::SP)),
            0x0B => self.dec16(InstrTarget::val(TargetKind::BC)),
            0x1B => self.dec16(InstrTarget::val(TargetKind::DE)),
            0x2B => self.dec16(InstrTarget::val(TargetKind::HL)),
            0x3B => self.dec16(InstrTarget::val(TargetKind::SP)),
            0x09 => self.addhl(InstrTarget::val(TargetKind::BC)),
            0x19 => self.addhl(InstrTarget::val(TargetKind::DE)),
            0x29 => self.addhl(InstrTarget::val(TargetKind::HL)),
            0x39 => self.addhl(InstrTarget::val(TargetKind::SP)),
            0x07 => self.rlca(),
            0x0F => self.rrca(),
            0x17 => self.rla(),
            0x1F => self.rra(),
            0x10 => self.stop(),
            0x18 => self.jr(InstrTarget::val(TargetKind::Signed8)),
            0x20 | 0x28 | 0x30 | 0x38 => {
                let cc: u8 = (op >> 3) & 3;
                self.jrc(cc, InstrTarget::val(TargetKind::Signed8));
            },
            0x27 => self.daa(),
            0x2F => self.cpl(),
            0x37 => self.scf(),
            0x3F => self.ccf(),
            _ => self.nop(),
        }
    }

    /// Opcodes 0x40..0x7F.
    #[verifier::rlimit(100)]
    fn execute_q1(&mut self, op: u8)
        requires
            old(self).wf(),
            old(self).mcycles + 12 <= u64::MAX,
            0x40 <= op < 0x80,
        ensures
            final(self).wf(),
            final(self).f & 0x0F == 0,
            final(self).mcycles == old(self).mcycles + exec_mcycles(
                op,
                cond_holds(old(self).f, (op >> 3) & 3),
            ),
            op != 0x76 && op & 7 != 6 && (op >> 3) & 7 != 6 ==> *final(self) == set_reg8_spec(
                *old(self),
                r8_target_spec((op >> 3) & 7),
                reg8_spec(*old(self), r8_target_spec(op & 7)),
            ),
            op == 0x76 ==> *final(self) == (Cpu {
                halted: final(self).halted,
                halt_bug: final(self).halt_bug,
                ..*old(self)
            }) && final(self).halt_bug == (old(self).halt_bug || (!old(self).ime && old(
                self,
            ).pending_spec() != 0)) && final(self).halted == (if !old(self).ime && old(
                self,
            ).pending_spec() != 0 {
                old(self).halted
            } else {
                true
            }),
    {
        proof {
            crate::lemma_u8_fields(op);
        }
        match op {
            0x40..=0x75 | 0x77..=0x7F => {
                let dst = r8_target((op >> 3) & 7);
                let src = r8_target(op & 7);
                self.ld(dst, src);
            },
            0x76 => self.halt(),
            _ => self.nop(),
        }
    }

    /// Opcodes 0x80..0xBF.
    #[verifier::rlimit(100)]
    fn execute_q2(&mut self, op: u8)
        requires
            old(self).wf(),
            old(self).mcycles + 12 <= u64::MAX,
            0x80 <= op < 0xC0,
        ensures
            final(self).wf(),
            final(self).f & 0x0F == 0,
            final(self).mcycles == old(self).mcycles + exec_mcycles(
                op,
                cond_holds(old(self).f, (op >> 3) & 3),
            ),
            op & 7 != 6 ==> *final(self) == (Cpu {
                a: final(self).a,
                f: final(self).f,
                ..*old(self)
            }) && final(self).a == alu8_spec(
                op,
                old(self).a,
                reg8_spec(*old(self), r8_target_spec(op & 7)),
                old(self).f & FLAG_C != 0,
            ),
    {
        proof {
            crate::lemma_u8_fields(op);
        }
        match op {
            0x80..=0x87 => {
                let src = r8_target(op & 7);
                self.add(src);
            },
            0x88..=0x8F => {
                let src = r8_target(op & 7);
                self.adc(src);
            },
            0x90..=0x97 => {
                let src = r8_target(op & 7);
                self.sub(src);
            },
            0x98..=0x9F => {
                let src = r8_target(op & 7);
                self.sbc(src);
            },
            0xA0..=0xA7 => {
                let src = r8_target(op & 7);
                self.and(src);
            },
            0xA8..=0xAF => {
                let src = r8_target(op & 7);
                self.xor(src);
            },
            0xB0..=0xB7 => {
                let src = r8_target(op & 7);
                self.or(src);
            },
            0xB8..=0xBF => {
                let src = r8_target(op & 7);
                self.cp(src);
            },
            _ => self.nop(),
        }
    }

    /// Opcodes 0xC0..0xFF.
    #[verifier::rlimit(100)]
    fn execute_q3(&mut self, op: u8)
        requires
            old(self).wf(),
            old(self).mcycles + 12 <= u64::MAX,
            0xC0 <= op,
        ensures
            final(self).wf(),
            final(self).f & 0x0F == 0,
            final(self).mcycles == old(self).mcycles + exec_mcycles(
                op,
                cond_holds(old(self).f, (op >> 3) & 3),
            ),
            op == 0xF3 ==> *final(self) == (Cpu { ime: false, ime_to_set: false, ..*old(self) }),
            op == 0xFB ==> *final(self) == (Cpu { ime_to_set: true, ..*old(self) }),
    {
        proof {
            crate::lemma_u8_fields(op);
        }
        match op {
            0xE0 => self.ld(InstrTarget::mem(TargetKind::Address8), InstrTarget::val(TargetKind::A)),
            0xF0 => self.ld(InstrTarget::val(TargetKind::A), InstrTarget::mem(TargetKind::Address8)),
            0xE2 => self.ld(InstrTarget::mem(TargetKind::C), InstrTarget::val(TargetKind::A)),
            0xF2 => self.ld(InstrTarget::val(TargetKind::A), InstrTarget::mem(TargetKind::C)),
            0xEA => self.ld(InstrTarget::mem(TargetKind::Address16), InstrTarget::val(TargetKind::A)),
            0xFA => self.ld(InstrTarget::val(TargetKind::A), InstrTarget::mem(TargetKind::Address16)),
            0xF8 => self.ldsp(InstrTarget::val(TargetKind::Signed8)),
            0xF9 => self.ldhl(),
            0xC6 => self.add(InstrTarget::val(TargetKind::Immediate8)),
            0xCE => self.adc(InstrTarget::val(TargetKind::Immediate8)),
            0xD6 => self.sub(InstrTarget::val(TargetKind::Immediate8)),
            0xDE => self.sbc(InstrTarget::val(TargetKind::Immediate8)),
            0xE6 => self.and(InstrTarget::val(TargetKind::Immediate8)),
            0xEE => self.xor(InstrTarget::val(TargetKind::Immediate8)),
            0xF6 => self.or(InstrTarget::val(TargetKind::Immediate8)),
            0xFE => self.cp(InstrTarget::val(TargetKind::Immediate8)),
            0xC9 => self.ret(),
            0xC0 | 0xC8 | 0xD0 | 0xD8 => {
                let cc: u8 = (op >> 3) & 3;
                self.retc(cc);
            },
            0xD9 => self.reti(),
            0xC1 => self.pop(InstrTarget::val(TargetKind::BC)),
            0xD1 => self.pop(InstrTarget::val(TargetKind::DE)),
            0xE1 => self.pop(InstrTarget::val(TargetKind::HL)),
            0xF1 => self.pop(InstrTarget::val(TargetKind::AF)),
            0xC5 => self.push(InstrTarget::val(TargetKind::BC)),
            0xD5 => self.push(InstrTarget::val(TargetKind::DE)),
            0xE5 => self.push(InstrTarget::val(TargetKind::HL)),
            0xF5 => self.push(InstrTarget::val(TargetKind::AF)),
            0xC3 => self.jp(InstrTarget::val(TargetKind::Address16)),
            0xC2 | 0xCA | 0xD2 | 0xDA => {
                let cc: u8 = (op >> 3) & 3;
                self.jpc(cc, InstrTarget::val(TargetKind::Address16));
            },
            0xE9 => self.jphl(),
            0xCD => self.call(InstrTarget::val(TargetKind::Address16)),
            0xC4 | 0xCC | 0xD4 | 0xDC => {
                let cc: u8 = (op >> 3) & 3;
                self.callc(cc, InstrTarget::val(TargetKind::Address16));
            },
            0xC7 | 0xCF | 0xD7 | 0xDF | 0xE7 | 0xEF | 0xF7 | 0xFF => self.rst(op),
            0xE8 => self.addsp(InstrTarget::val(TargetKind::Signed8)),
            0xF3 => self.di(),
            0xFB => self.ei(),

            _ => self.nop(),
        }
    }


    /// Executes one 0xCB-prefixed instruction whose opcode byte has
    /// already been fetched.
    ///
    /// For every encoding, the machine cycles consumed beyond the two
    /// opcode fetches equal the published timing table's value, and the low
    /// nibble of F is zero afterwards.
    #[verifier::rlimit(60)]
    pub fn execute_prefix(&mut self, op: u8)
        requires
            old(self).wf(),
            old(self).mcycles + 12 <= u64::MAX,
        ensures
            final(self).wf(),
            final(self).f & 0x0F == 0,
            final(self).mcycles == old(self).mcycles + cb_exec_mcycles(op),
            op >> 6 == 2 && op & 7 != 6 ==> *final(self) == set_reg8_spec(
                *old(self),
                r8_target_spec(op & 7),
                reg8_spec(*old(self), r8_target_spec(op & 7)) & !(1u8 << ((op >> 3) & 7)),
            ),
            op >> 6 == 3 && op & 7 != 6 ==> *final(self) == set_reg8_spec(
                *old(self),
                r8_target_spec(op & 7),
                reg8_spec(*old(self), r8_target_spec(op & 7)) | (1u8 << ((op >> 3) & 7)),
            ),
            op >> 6 == 1 ==> final(self).f & FLAG_N == 0 && final(self).f & FLAG_H != 0 && ((
            final(self).f & FLAG_C != 0) == (old(self).f & FLAG_C != 0)),
            op >> 6 == 1 && op & 7 != 6 ==> *final(self) == (Cpu { f: final(self).f, ..*old(self) })
                && ((final(self).f & FLAG_Z != 0) == ((reg8_spec(*old(self), r8_target_spec(
                op & 7,
            )) >> ((op >> 3) & 7)) & 1 == 0)),
    {
        proof {
            crate::lemma_u8_fields(op);
        }
        let t = r8_target(op & 7);
        let group: u8 = op >> 6;
        if group == 0 {
            let sub: u8 = (op >> 3) & 7;
            if sub == 0 {
                self.rlc(t);
            } else if sub == 1 {
                self.rrc(t);
            } else if sub == 2 {
                self.rl(t);
            } else if sub == 3 {
                self.rr(t);
            } else if sub == 4 {
                self.sla(t);
            } else if sub == 5 {
                self.sra(t);
            } else if sub == 6 {
                self.swap(t);
            } else {
                self.srl(t);
            }
        } else if group == 1 {
            let b: u8 = (op >> 3) & 7;
            self.bit(b, t);
        } else if group == 2 {
            let b: u8 = (op >> 3) & 7;
            self.res(b, t);
        } else {
            let b: u8 = (op >> 3) & 7;
            self.set(b, t);
        }
    }

    /// Executes exactly one instruction and then services pending
    /// interrupts.
    ///
    /// A halted CPU with no enabled interrupt pending consumes one T-cycle
    /// and returns; with one pending it wakes and falls through to the
    /// fetch. An EI latch set by the previous instruction is promoted to
    /// IME after this step's instruction, before the interrupt check, so
    /// IME is still clear while the instruction after EI runs. The low
    /// nibble of F is zero after every step.
    ///
    /// With the CPU neither halted nor carrying the fetch-twice latch, a
    /// step costs the published timing table's machine cycles for the
    /// fetched opcode, plus five more exactly when an interrupt is
    /// dispatched at its end; the contract also pins the full effect of
    /// the instructions an interrupt-free trace is usually probed with
    /// (DI, HALT with a pending interrupt, INC on a register).
    pub fn step(&mut self)
        requires
            old(self).wf(),
            old(self).mcycles + 20 <= u64::MAX,
        ensures
            final(self).wf(),
            final(self).f & 0x0F == 0,
            final(self).mcycles <= old(self).mcycles + 12,
            old(self).halted && old(self).pending_spec() == 0 ==> *final(self) == (Cpu {
                bus: final(self).bus,
                ..*old(self)
            }) && final(self).mcycles == old(self).mcycles,
            !old(self).halted && !old(self).halt_bug && !Bus::is_apu(old(self).pc) ==> ({
                let op = old(self).read_gated_spec(old(self).pc);
                let base = old(self).mcycles + instr_mcycles(
                    op,
                    cond_holds(old(self).f, (op >> 3) & 3),
                );
                op != 0xCB ==> final(self).mcycles == base || final(self).mcycles == base + 5
            }),
            !old(self).halted && !old(self).halt_bug && !Bus::is_apu(old(self).pc) && old(
                self,
            ).read_gated_spec(old(self).pc) == 0xCB ==> (exists|op2: u8|
                final(self).mcycles == old(self).mcycles + #[trigger] cb_instr_mcycles(op2)
                    || final(self).mcycles == old(self).mcycles + cb_instr_mcycles(op2) + 5),
            !old(self).halted && !old(self).halt_bug && !old(self).ime && !old(self).ime_to_set
                && !Bus::is_apu(old(self).pc) && old(self).read_gated_spec(old(self).pc) == 0xF3
                ==> *final(self) == (Cpu {
                pc: wrap_inc16(old(self).pc),
                mcycles: final(self).mcycles,
                bus: final(self).bus,
                ime: false,
                ime_to_set: false,
                ..*old(self)
            }),
            !old(self).halted && !old(self).halt_bug && !old(self).ime && !old(self).ime_to_set
                && !Bus::is_apu(old(self).pc) && old(self).read_gated_spec(old(self).pc) == 0x76
                && old(self).pending_spec() != 0 ==> *final(self) == (Cpu {
                pc: wrap_inc16(old(self).pc),
                mcycles: final(self).mcycles,
                bus: final(self).bus,
                halt_bug: true,
                ..*old(self)
            }),
            !old(self).halted && !old(self).ime && !old(self).ime_to_set && !Bus::is_apu(
                old(self).pc,
            ) && old(self).read_gated_spec(old(self).pc) == 0x3C ==> *final(self) == (Cpu {
                a: ((old(self).a + 1) % 256) as u8,
                f: final(self).f,
                pc: if old(self).halt_bug { old(self).pc } else { wrap_inc16(old(self).pc) },
                mcycles: final(self).mcycles,
                bus: final(self).bus,
                halt_bug: false,
                ..*old(self)
            }),
    {
        if self.halted {
            if self.bus.has_pending_interrupts() {
                self.halted = false;
            } else {
                self.bus.tick_t();
                return;
            }
        }
        let ghost entry: Cpu = *self;
        let ei_pending: bool = self.ime_to_set;
        let op: u8 = self.pc_fetch();
        if op == 0xCB {
            let op2: u8 = self.pc_fetch();
            self.execute_prefix(op2);
            proof {
                assert(cb_instr_mcycles(op2) == 2 + cb_exec_mcycles(op2));
            }
        } else {
            self.execute_no_prefix(op);
            proof {
                if !entry.halt_bug && !Bus::is_apu(entry.pc) {
                    crate::lemma_pending_grows(entry.bus.inte, entry.bus.intf, self.bus.intf);
                }
                assert((0x3Cu8 >> 3) & 7 == 7 && 0x3Cu8 & 7 == 4) by (bit_vector);
            }
        }
        if ei_pending && self.ime_to_set {
            self.ime = true;
            self.ime_to_set = false;
        }
        if self.ime {
            self.handle_interrupts();
        }
    }

    /// Fetches and executes one instruction without the interrupt check
    /// (a debugging aid): it costs exactly the published timing table's
    /// machine cycles for the fetched opcode.
    pub fn debug_step(&mut self)
        requires
            old(self).wf(),
            old(self).mcycles + 20 <= u64::MAX,
        ensures
            final(self).wf(),
            final(self).f & 0x0F == 0,
            !old(self).halt_bug && !Bus::is_apu(old(self).pc) ==> ({
                let op = old(self).read_gated_spec(old(self).pc);
                op != 0xCB ==> final(self).mcycles == old(self).mcycles + instr_mcycles(
                    op,
                    cond_holds(old(self).f, (op >> 3) & 3),
                )
            }),
            !old(self).halt_bug && !Bus::is_apu(old(self).pc) && old(self).read_gated_spec(
                old(self).pc,
            ) == 0xCB ==> (exists|op2: u8|
                final(self).mcycles == old(self).mcycles + #[trigger] cb_instr_mcycles(op2)),
    {
        let op: u8 = self.pc_fetch();
        if op == 0xCB {
            let op2: u8 = self.pc_fetch();
            self.execute_prefix(op2);
            proof {
                assert(cb_instr_mcycles(op2) == 2 + cb_exec_mcycles(op2));
            }
        } else {
            self.execute_no_prefix(op);
        }
    }

    /// Pops a 16-bit value: two reads at SP, which then rises by two.
    pub fn stack_pop(&mut self) -> (r: u16)
        requires
            old(self).wf(),
            old(self).mcycles + 2 <= u64::MAX,
        ensures
            final(self).wf(),
            final(self).mcycles == old(self).mcycles + 2,
            final(self).sp == wrap_add16(old(self).sp, 2),
            *final(self) == (Cpu {
                mcycles: final(self).mcycles,
                bus: final(self).bus,
                sp: final(self).sp,
                ..*old(self)
            }),
            old(self).bus.dma.remaining == 0 && !old(self).bus.dma.delay && (is_wram(old(self).sp)
                || is_hram(old(self).sp)) && (is_wram(wrap_inc16(old(self).sp)) || is_hram(
                wrap_inc16(old(self).sp),
            )) ==> r == old(self).bus.read_spec(wrap_inc16(old(self).sp)) * 256 + old(self).bus.read_spec(old(self).sp),
    {
        let value: u16 = self.read16(self.sp);
        self.sp = self.sp.wrapping_add(2);
        value
    }
}

} // verus!
