//! The assembled machine: a CPU that owns the bus, which owns every
//! peripheral. The host drives it by calling `step` in a loop and draining
//! the frame buffer and sample buffer between steps.

use vstd::prelude::*;
use crate::apu::Apu;
use crate::bus::Bus;
use crate::cart::CartHeader;
use crate::cpu::Cpu;
use crate::frame::FrameBuffer;
use crate::joypad::Joypad;
use crate::mbc::Cart;
use crate::ppu::Ppu;

verus! {

pub struct Gameboy {
    pub cpu: Cpu,
}

impl Gameboy {
    pub open spec fn wf(self) -> bool {
        self.cpu.wf()
    }

    /// Boots a machine from a ROM image. Fails exactly when the cartridge
    /// is rejected: an invalid header, an unsupported mapper, or an image
    /// whose size does not match its header.
    pub fn boot_from_bytes(rom: &[u8]) -> (r: Result<Gameboy, &'static str>)
        ensures
            r.is_ok() <==> crate::cart::header_valid(rom@) && crate::mbc::mbc_supported(
                rom@[0x147],
            ) && rom@.len() == crate::cart::rom_banks_spec(rom@[0x148]) * 16384,
            r matches Ok(gb) ==> gb.wf(),
    {
        let cart = match Cart::new(rom) {
            Ok(c) => c,
            Err(e) => {
                return Err(e);
            },
        };
        Ok(Gameboy { cpu: Cpu::new(cart) })
    }

    /// Runs one CPU instruction (the machine-cycle counter recycles long
    /// before it could saturate). With the counter far from recycling and
    /// the CPU neither halted nor carrying the fetch-twice latch, the step
    /// costs the published timing table's machine cycles for the fetched
    /// opcode, plus five more exactly when an interrupt is dispatched.
    pub fn step(&mut self)
        requires
            old(self).wf(),
        ensures
            final(self).wf(),
            final(self).cpu.f & 0x0F == 0,
            old(self).cpu.mcycles < 0xFFFF_FFFF_0000_0000 && old(self).cpu.halted && old(
                self,
            ).cpu.pending_spec() == 0 ==> final(self).cpu == (Cpu {
                bus: final(self).cpu.bus,
                ..old(self).cpu
            }) && final(self).cpu.mcycles == old(self).cpu.mcycles,
            old(self).cpu.mcycles < 0xFFFF_FFFF_0000_0000 && !old(self).cpu.halted && !old(
                self,
            ).cpu.halt_bug && !Bus::is_apu(old(self).cpu.pc) ==> ({
                let op = old(self).cpu.read_gated_spec(old(self).cpu.pc);
                let base = old(self).cpu.mcycles + crate::instr::instr_mcycles(
                    op,
                    crate::instr::cond_holds(old(self).cpu.f, (op >> 3) & 3),
                );
                op != 0xCB ==> final(self).cpu.mcycles == base || final(self).cpu.mcycles == base
                    + 5
            }),
    {
        if self.cpu.mcycles >= 0xFFFF_FFFF_0000_0000 {
            self.cpu.mcycles = 0;
        }
        self.cpu.step();
    }

    /// Steps until the PPU signals a completed frame or the fuel bound
    /// runs out, then acknowledges the frame: the ready flag is consumed
    /// either way. A frame takes at most 140448 steps (one per T-cycle
    /// when the CPU is halted); the fuel bound is far above that and
    /// makes the loop provably terminating.
    pub fn step_until_vblank(&mut self)
        requires
            old(self).wf(),
        ensures
            final(self).wf(),
            !final(self).cpu.bus.ppu.frame_ready,
    {
        let mut fuel: u64 = 100000000;
        while fuel > 0 && !self.cpu.bus.ppu.frame_ready
            invariant
                self.wf(),
            decreases fuel,
        {
            fuel = fuel - 1;
            self.step();
        }
        self.cpu.bus.ppu.frame_ready = false;
    }

    pub fn reset(&mut self) {
    }

    pub fn get_cpu(&mut self) -> (r: &mut Cpu)
        ensures
            *r == old(self).cpu,
            *final(self) == (Gameboy { cpu: *final(r) }),
    {
        &mut self.cpu
    }

    pub fn get_bus(&mut self) -> (r: &mut Bus)
        ensures
            *r == old(self).cpu.bus,
            final(self).cpu == (Cpu { bus: *final(r), ..old(self).cpu }),
    {
        &mut self.cpu.bus
    }

    pub fn get_ppu(&mut self) -> (r: &mut Ppu)
        ensures
            *r == old(self).cpu.bus.ppu,
            final(self).cpu.bus == (Bus { ppu: *final(r), ..old(self).cpu.bus }),
            final(self).cpu == (Cpu { bus: final(self).cpu.bus, ..old(self).cpu }),
    {
        &mut self.cpu.bus.ppu
    }

    pub fn get_apu(&mut self) -> (r: &mut Apu)
        ensures
            *r == old(self).cpu.bus.apu,
            final(self).cpu.bus == (Bus { apu: *final(r), ..old(self).cpu.bus }),
            final(self).cpu == (Cpu { bus: final(self).cpu.bus, ..old(self).cpu }),
    {
        &mut self.cpu.bus.apu
    }

    pub fn get_joypad(&mut self) -> (r: &mut Joypad)
        ensures
            *r == old(self).cpu.bus.joypad,
            final(self).cpu.bus == (Bus { joypad: *final(r), ..old(self).cpu.bus }),
            final(self).cpu == (Cpu { bus: final(self).cpu.bus, ..old(self).cpu }),
    {
        &mut self.cpu.bus.joypad
    }

    pub fn get_cart(&self) -> (r: &CartHeader)
        ensures
            *r == self.cpu.bus.cart.header,
    {
        &self.cpu.bus.cart.header
    }

    /// The visible LCD resolution.
    pub fn get_resolution(&self) -> (r: (usize, usize))
        ensures
            r.0 == 160 && r.1 == 144,
    {
        (160, 144)
    }

    pub fn get_screen(&self) -> (r: &FrameBuffer)
        ensures
            *r == self.cpu.bus.ppu.lcd,
    {
        &self.cpu.bus.ppu.lcd
    }

    /// Drains the audio samples accumulated so far (interleaved stereo
    /// pairs in DAC units).
    pub fn get_samples(&mut self) -> (r: Vec<i16>)
        requires
            old(self).wf(),
        ensures
            final(self).wf(),
            r == old(self).cpu.bus.apu.samples,
    {
        self.cpu.bus.apu.consume_samples()
    }
}

} // verus!
