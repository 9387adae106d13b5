//! Noise channel: a 15-bit linear-feedback shift register clocked by a
//! divider, with envelope and length.

use vstd::prelude::*;
use crate::apu::envelope::Envelope;

verus! {

pub struct Noise {
    pub enabled: bool,
    pub env: Envelope,
    /// Length reload value, up to 64.
    pub length_initial: u8,
    pub length_enabled: bool,
    pub length_timer: u8,
    /// Divider code (NR43 bits 0..2).
    pub div: u8,
    pub timer: u32,
    /// Shift amount (NR43 bits 4..7).
    pub shift: u8,
    pub lfsr: u16,
    /// True for the short 7-bit feedback mode.
    pub lfsr_7bit: bool,
}

impl Noise {
    pub open spec fn wf(self) -> bool {
        &&& self.env.wf()
        &&& self.div <= 7
        &&& self.shift <= 15
    }

    pub fn new() -> (r: Noise)
        ensures
            r.wf(),
            !r.enabled,
    {
        Noise {
            enabled: false,
            env: Envelope::new(),
            length_initial: 0,
            length_enabled: false,
            length_timer: 0,
            div: 0,
            timer: 0,
            shift: 0,
            lfsr: 0x7FFF,
            lfsr_7bit: false,
        }
    }

    /// The period-timer reload value for the current divider and shift.
    fn period_reload(&self) -> (r: u32)
        requires
            self.wf(),
    {
        let d: u32 = if self.div == 0 { 8 } else { (self.div as u32) * 16 };
        let s: u32 = self.shift as u32;
        proof {
            assert(d << s < 0x1000000u32) by (bit_vector)
                requires
                    d < 128u32,
                    s < 16u32,
            ;
        }
        d << s
    }

    /// Silences the channel, as the APU power-down does.
    pub fn disable(&mut self)
        requires
            old(self).wf(),
        ensures
            final(self).wf(),
            !final(self).enabled,
    {
        self.enabled = false;
    }

    /// The sample this channel emits, in DAC units: the inverted low LFSR
    /// bit times the envelope volume; a disabled channel emits 0.
    pub open spec fn sample_spec(self) -> i16 {
        if self.enabled {
            if self.lfsr & 1 == 0 {
                crate::apu::square::dac_units(self.env.volume)
            } else {
                crate::apu::square::dac_units(0)
            }
        } else {
            0i16
        }
    }

    pub fn get_sample(&self) -> (r: i16)
        requires
            self.wf(),
        ensures
            r == self.sample_spec(),
            -15 <= r <= 15,
            !self.enabled ==> r == 0,
    {
        if !self.enabled {
            return 0;
        }
        let d: u8 = if self.lfsr & 1 == 0 { self.env.volume } else { 0 };
        2 * (d as i16) - 15
    }

    /// One period-timer tick (every T-cycle): on expiry the LFSR shifts.
    pub fn tick_period(&mut self)
        requires
            old(self).wf(),
        ensures
            final(self).wf(),
            final(self).enabled == old(self).enabled,
            !old(self).enabled ==> *final(self) == *old(self),
            old(self).enabled && old(self).timer == 1 && !old(self).lfsr_7bit ==> final(self).lfsr
                == ((old(self).lfsr >> 1) | (((old(self).lfsr & 1) ^ ((old(self).lfsr >> 1) & 1))
                << 14)),
            old(self).enabled && old(self).timer > 1 ==> *final(self) == (Noise {
                timer: (old(self).timer - 1) as u32,
                ..*old(self)
            }),
    {
        if !self.enabled {
            return;
        }
        if self.timer > 0 {
            self.timer = self.timer - 1;
            if self.timer == 0 {
                self.timer = self.period_reload();
                let fb: u16 = (self.lfsr & 1) ^ ((self.lfsr >> 1) & 1);
                proof {
                    crate::apu::lemma_apu_bits(self.lfsr, 0);
                }
                self.lfsr = (self.lfsr >> 1) | (fb << 14);
                if self.lfsr_7bit {
                    self.lfsr = (self.lfsr & 0xFFBF) | (fb << 6);
                }
            }
        }
    }

    /// One 256 Hz length tick.
    pub fn tick_length(&mut self)
        requires
            old(self).wf(),
        ensures
            final(self).wf(),
    {
        if self.length_enabled && self.length_timer > 0 {
            self.length_timer = self.length_timer - 1;
            if self.length_timer == 0 {
                self.enabled = false;
            }
        }
    }

    /// A read of NR42, NR43 or NR44.
    pub fn read(&self, addr: u16) -> (r: u8)
        requires
            self.wf(),
    {
        if addr == 0xFF21 {
            self.env.read()
        } else if addr == 0xFF22 {
            (self.div | (if self.lfsr_7bit { 8u8 } else { 0u8 })) | (self.shift << 4)
        } else if addr == 0xFF23 {
            (if self.length_enabled { 0x40u8 } else { 0u8 }) | 0xBF
        } else {
            0xFF
        }
    }

    /// A write to NR41..NR44; the trigger bit re-enables the channel with
    /// the LFSR, envelope, period and length reloaded.
    pub fn write(&mut self, addr: u16, val: u8)
        requires
            old(self).wf(),
        ensures
            final(self).wf(),
            addr == 0xFF20 ==> *final(self) == (Noise {
                length_initial: (64 - (val & 0x3F)) as u8,
                ..*old(self)
            }),
            addr == 0xFF21 ==> final(self).env.period == (val & 7) && final(self).env.direction
                == ((val >> 3) & 1 != 0) && final(self).env.volume_initial == val >> 4
                && final(self).enabled == (old(self).enabled && !(val >> 4 == 0 && (val >> 3) & 1
                == 0)),
            addr == 0xFF22 ==> final(self).div == (val & 7) && final(self).lfsr_7bit == ((val
                >> 3) & 1 != 0) && final(self).shift == ((val >> 4) & 15),
            addr == 0xFF23 ==> final(self).length_enabled == ((val >> 6) & 1 != 0),
            addr == 0xFF23 && val >> 7 != 0 && !(old(self).env.volume_initial == 0 && !old(
                self,
            ).env.direction) ==> final(self).enabled && final(self).lfsr == 0x7FFF
                && final(self).env.volume == old(self).env.volume_initial
                && final(self).length_timer == (if old(self).length_timer == 0 {
                old(self).length_initial
            } else {
                old(self).length_timer
            }),
    {
        if addr == 0xFF20 {
            proof {
                crate::lemma_u8_fields(val);
            }
            self.length_initial = 64 - (val & 0x3F);
        } else if addr == 0xFF21 {
            self.env.write(val);
            let dac = self.env.is_dac_enabled();
            self.enabled = self.enabled && dac;
        } else if addr == 0xFF22 {
            proof {
                crate::lemma_u8_fields(val);
            }
            self.div = val & 7;
            self.lfsr_7bit = (val >> 3) & 1 != 0;
            self.shift = (val >> 4) & 15;
        } else if addr == 0xFF23 {
            self.length_enabled = (val >> 6) & 1 != 0;
            let dac = self.env.is_dac_enabled();
            if dac && val >> 7 != 0 {
                if self.length_timer == 0 {
                    self.length_timer = self.length_initial;
                }
                self.env.trigger();
                self.enabled = true;
                self.lfsr = 0x7FFF;
                self.timer = self.period_reload();
            }
        }
    }
}

} // verus!
