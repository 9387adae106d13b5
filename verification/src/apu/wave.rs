//! Wave channel: plays 4-bit samples from its 16-byte RAM, shifted by the
//! output-level selector.

use vstd::prelude::*;

verus! {

/// Output-level selector of NR32.
#[derive(Clone, Copy, PartialEq, Eq, Structural, Debug)]
pub enum OutputLevel {
    Mute,
    Max,
    Half,
    Quarter,
}

pub struct Wave {
    pub enabled: bool,
    pub dac_enabled: bool,
    pub output: OutputLevel,
    /// Length reload value, up to 256.
    pub length_initial: u16,
    pub length_enabled: bool,
    pub length_timer: u16,
    /// Programmed 11-bit period.
    pub period_initial: u16,
    pub timer: u16,
    /// Position in the 32 nibbles of wave RAM.
    pub position: u8,
    pub ram: Vec<u8>,
    /// Sample byte last read by the playback unit.
    pub buffer: u8,
}

impl Wave {
    pub open spec fn wf(self) -> bool {
        &&& self.period_initial < 2048
        &&& self.timer <= 2048
        &&& self.position < 32
        &&& self.ram.len() == 16
    }

    pub fn new() -> (r: Wave)
        ensures
            r.wf(),
            !r.enabled,
    {
        let mut ram: Vec<u8> = Vec::new();
        let mut i: usize = 0;
        while i < 16
            invariant
                i <= 16,
                ram.len() == i,
            decreases 16 - i,
        {
            ram.push(0);
            i = i + 1;
        }
        Wave {
            enabled: false,
            dac_enabled: false,
            output: OutputLevel::Mute,
            length_initial: 0,
            length_enabled: false,
            length_timer: 0,
            period_initial: 0,
            timer: 2048,
            position: 0,
            ram,
            buffer: 0,
        }
    }

    /// Silences the channel, as the APU power-down does.
    pub fn disable(&mut self)
        requires
            old(self).wf(),
        ensures
            final(self).wf(),
            !final(self).enabled,
    {
        self.timer = 2048;
        self.enabled = false;
    }

    /// The digital level 0..15 the channel currently plays.
    pub open spec fn level_spec(self) -> u8 {
        if self.enabled {
            match self.output {
                OutputLevel::Mute => 0u8,
                OutputLevel::Max => (self.buffer & 0x0F) as u8,
                OutputLevel::Half => ((self.buffer & 0x0F) >> 1) as u8,
                OutputLevel::Quarter => ((self.buffer & 0x0F) >> 2) as u8,
            }
        } else {
            0u8
        }
    }

    /// The sample this channel emits, in DAC units; a disabled channel
    /// emits 0.
    pub open spec fn sample_spec(self) -> i16 {
        if self.enabled {
            crate::apu::square::dac_units(self.level_spec())
        } else {
            0i16
        }
    }

    pub fn get_sample(&self) -> (r: i16)
        requires
            self.wf(),
        ensures
            r == self.sample_spec(),
            -15 <= r <= 15,
            !self.enabled ==> r == 0,
    {
        if !self.enabled {
            return 0;
        }
        let buf: u8 = self.buffer;
        let nib: u8 = buf & 0x0F;
        proof {
            crate::lemma_u8_fields(buf);
            crate::lemma_u8_fields(nib);
        }
        let d: u8 = match self.output {
            OutputLevel::Mute => 0,
            OutputLevel::Max => nib,
            OutputLevel::Half => nib >> 1,
            OutputLevel::Quarter => nib >> 2,
        };
        2 * (d as i16) - 15
    }

    /// One period-timer tick (every second T-cycle): on expiry the position
    /// advances and the next nibble is latched into the buffer.
    pub fn tick_period(&mut self)
        requires
            old(self).wf(),
        ensures
            final(self).wf(),
            final(self).enabled == old(self).enabled,
            !old(self).enabled ==> *final(self) == *old(self),
            old(self).enabled && old(self).timer == 1 ==> final(self).position == (old(
                self,
            ).position + 1) % 32 && final(self).timer == 2048 - old(self).period_initial,
            old(self).enabled && old(self).timer > 1 ==> *final(self) == (Wave {
                timer: (old(self).timer - 1) as u16,
                ..*old(self)
            }),
    {
        if !self.enabled {
            return;
        }
        if self.timer > 0 {
            self.timer = self.timer - 1;
            if self.timer == 0 {
                self.timer = 2048 - self.period_initial;
                self.position = (self.position + 1) % 32;
                let pos: u8 = self.position;
                proof {
                    crate::lemma_u8_fields(pos);
                }
                let byte: u8 = self.ram[(pos >> 1) as usize];
                self.buffer = if self.position % 2 == 0 { byte >> 4 } else { byte & 0x0F };
            }
        }
    }

    /// One 256 Hz length tick.
    pub fn tick_length(&mut self)
        requires
            old(self).wf(),
        ensures
            final(self).wf(),
    {
        if self.length_enabled && self.length_timer > 0 {
            self.length_timer = self.length_timer - 1;
            if self.length_timer == 0 {
                self.enabled = false;
            }
        }
    }

    /// A read of NR30, NR32 or NR34.
    pub fn read(&self, addr: u16) -> (r: u8)
        requires
            self.wf(),
    {
        if addr == 0xFF1A {
            (if self.dac_enabled { 0x80u8 } else { 0u8 }) | 0x7F
        } else if addr == 0xFF1C {
            let lvl: u8 = match self.output {
                OutputLevel::Mute => 0,
                OutputLevel::Max => 1,
                OutputLevel::Half => 2,
                OutputLevel::Quarter => 3,
            };
            (lvl << 5) | 0x9F
        } else if addr == 0xFF1E {
            (if self.length_enabled { 0x40u8 } else { 0u8 }) | 0xBF
        } else {
            0xFF
        }
    }

    /// A write to the channel's registers; the trigger bit restarts
    /// playback from position 0 with the period and length reloaded.
    pub fn write(&mut self, addr: u16, val: u8)
        requires
            old(self).wf(),
        ensures
            final(self).wf(),
            addr == 0xFF1A ==> final(self).dac_enabled == (val >> 7 != 0) && final(self).enabled
                == (old(self).enabled && val >> 7 != 0),
            addr == 0xFF1B ==> *final(self) == (Wave {
                length_initial: (256 - val) as u16,
                ..*old(self)
            }),
            addr == 0xFF1C ==> final(self).output == (if (val >> 5) & 3 == 0 {
                OutputLevel::Mute
            } else if (val >> 5) & 3 == 1 {
                OutputLevel::Max
            } else if (val >> 5) & 3 == 2 {
                OutputLevel::Half
            } else {
                OutputLevel::Quarter
            }),
            addr == 0xFF1D ==> final(self).period_initial == ((old(self).period_initial & 0xF00)
                | (val as u16)),
            addr == 0xFF1E ==> final(self).length_enabled == ((val >> 6) & 1 != 0)
                && final(self).period_initial == ((old(self).period_initial & 0x0FF) | (((val
                & 7) as u16) << 8)),
            addr == 0xFF1E && val >> 7 != 0 ==> final(self).enabled == old(self).dac_enabled
                && final(self).position == 0 && final(self).timer == 2048
                - final(self).period_initial && final(self).length_timer == (if old(
                self,
            ).length_timer == 0 {
                old(self).length_initial
            } else {
                old(self).length_timer
            }),
    {
        if addr == 0xFF1A {
            self.dac_enabled = val >> 7 != 0;
            self.enabled = self.enabled && self.dac_enabled;
        } else if addr == 0xFF1B {
            self.length_initial = 256 - (val as u16);
        } else if addr == 0xFF1C {
            let sel: u8 = (val >> 5) & 3;
            self.output = if sel == 0 { OutputLevel::Mute } else if sel == 1 {
                OutputLevel::Max
            } else if sel == 2 {
                OutputLevel::Half
            } else {
                OutputLevel::Quarter
            };
        } else if addr == 0xFF1D {
            let p: u16 = self.period_initial;
            let v16: u16 = val as u16;
            proof {
                crate::apu::lemma_apu_bits(p, v16);
            }
            self.period_initial = (p & 0xF00) | v16;
        } else if addr == 0xFF1E {
            let p: u16 = self.period_initial;
            proof {
                crate::lemma_u8_fields(val);
            }
            let v16: u16 = (val & 7) as u16;
            proof {
                crate::apu::lemma_apu_bits(p, v16);
            }
            self.period_initial = (p & 0x0FF) | (v16 << 8);
            self.length_enabled = (val >> 6) & 1 != 0;
            if val >> 7 != 0 {
                self.enabled = self.dac_enabled;
                self.timer = 2048 - self.period_initial;
                if self.length_timer == 0 {
                    self.length_timer = self.length_initial;
                }
                self.position = 0;
            }
        }
    }

    /// A CPU read of wave RAM (offset 0..15); the RAM is only visible while
    /// the channel is idle.
    pub fn ram_read(&self, off: u16) -> (r: u8)
        requires
            self.wf(),
            off < 16,
        ensures
            !self.enabled ==> r == self.ram[off as int],
    {
        if !self.enabled {
            self.ram[off as usize]
        } else {
            0
        }
    }

    /// A CPU write of wave RAM (offset 0..15), dropped while the channel
    /// plays.
    pub fn ram_write(&mut self, off: u16, val: u8)
        requires
            old(self).wf(),
            off < 16,
        ensures
            final(self).wf(),
            !old(self).enabled ==> final(self).ram@ == old(self).ram@.update(off as int, val),
            old(self).enabled ==> *final(self) == *old(self),
    {
        if !self.enabled {
            self.ram.set(off as usize, val);
        }
    }
}

} // verus!
