//! Pulse channels: an 8-step duty waveform clocked by an 11-bit period
//! timer, with envelope, length, and (on channel 1) frequency sweep.

use vstd::prelude::*;
use crate::apu::envelope::Envelope;
use crate::apu::Length;

verus! {

/// Channel-1 frequency sweep state.
pub struct Sweep {
    pub enabled: bool,
    /// Sweep period (NR10 bits 4..6).
    pub period: u8,
    /// True when the sweep subtracts (NR10 bit 3).
    pub direction_sub: bool,
    /// Shift count (NR10 bits 0..2).
    pub shift: u8,
    pub timer: u8,
    /// Shadow copy of the channel period, 0..2047.
    pub shadow: u16,
}

impl Sweep {
    pub open spec fn wf(self) -> bool {
        &&& self.period <= 7
        &&& self.shift <= 7
        &&& self.shadow < 2048
    }

    pub fn new() -> (r: Sweep)
        ensures
            r.wf(),
    {
        Sweep { enabled: false, period: 0, direction_sub: false, shift: 0, timer: 0, shadow: 0 }
    }
}

pub struct Square {
    pub enabled: bool,
    pub env: Envelope,
    pub sweep: Sweep,
    pub length: Length,
    /// Duty pattern select, 0..3 (NRx1 bits 6..7).
    pub wave_duty: u8,
    /// Position in the 8-step duty cycle.
    pub duty: u8,
    /// Programmed 11-bit period.
    pub period_initial: u16,
    pub timer: u16,
}

/// Whether the duty waveform is high at step `duty` of pattern `wave_duty`.
pub open spec fn duty_bit_spec(wave_duty: u8, duty: u8) -> bool {
    if wave_duty == 0 { duty == 7 }
    else if wave_duty == 1 { duty >= 6 }
    else if wave_duty == 2 { duty >= 4 }
    else { duty < 6 }
}

/// A channel's contribution in DAC units: the digital level 0..15 mapped
/// linearly onto -15..15 (so that 0 digital is -15 and 15 digital is +15).
pub open spec fn dac_units(digital: u8) -> i16 {
    (2 * digital - 15) as i16
}

impl Square {
    pub open spec fn wf(self) -> bool {
        &&& self.env.wf()
        &&& self.sweep.wf()
        &&& self.wave_duty <= 3
        &&& self.duty <= 7
        &&& self.period_initial < 2048
        &&& self.timer <= 2048
    }

    pub fn new() -> (r: Square)
        ensures
            r.wf(),
            !r.enabled,
    {
        Square {
            enabled: false,
            env: Envelope::new(),
            sweep: Sweep::new(),
            length: Length::new(),
            wave_duty: 0,
            duty: 0,
            period_initial: 0,
            timer: 2048,
        }
    }

    /// Silences the channel, as the APU power-down does.
    pub fn disable(&mut self)
        requires
            old(self).wf(),
        ensures
            final(self).wf(),
            !final(self).enabled,
    {
        self.timer = 2048;
        self.enabled = false;
    }

    /// The sample this channel currently emits, in DAC units; a disabled
    /// channel emits 0.
    pub open spec fn sample_spec(self) -> i16 {
        if self.enabled {
            if duty_bit_spec(self.wave_duty, self.duty) {
                dac_units(self.env.volume)
            } else {
                dac_units(0)
            }
        } else {
            0i16
        }
    }

    pub fn get_sample(&self) -> (r: i16)
        requires
            self.wf(),
        ensures
            r == self.sample_spec(),
            -15 <= r <= 15,
            !self.enabled ==> r == 0,
    {
        if !self.enabled {
            return 0;
        }
        let high: bool = if self.wave_duty == 0 { self.duty == 7 }
        else if self.wave_duty == 1 { self.duty >= 6 }
        else if self.wave_duty == 2 { self.duty >= 4 }
        else { self.duty < 6 };
        let d: u8 = if high { self.env.volume } else { 0 };
        2 * (d as i16) - 15
    }

    /// One period-timer tick (every fourth T-cycle): on expiry the duty
    /// position advances and the timer reloads from the programmed period.
    pub fn tick_period(&mut self)
        requires
            old(self).wf(),
        ensures
            final(self).wf(),
            final(self).enabled == old(self).enabled,
            final(self).env == old(self).env,
            !old(self).enabled ==> *final(self) == *old(self),
            old(self).enabled && old(self).timer == 1 ==> final(self).duty == (old(self).duty + 1)
                % 8 && final(self).timer == 2048 - old(self).period_initial,
            old(self).enabled && old(self).timer > 1 ==> *final(self) == (Square {
                timer: (old(self).timer - 1) as u16,
                ..*old(self)
            }),
    {
        if !self.enabled {
            return;
        }
        if self.timer > 0 {
            self.timer = self.timer - 1;
            if self.timer == 0 {
                self.timer = 2048 - self.period_initial;
                self.duty = (self.duty + 1) % 8;
            }
        }
    }

    /// One 256 Hz length tick: an expiring length timer silences the
    /// channel when length is enabled.
    pub fn tick_length(&mut self)
        requires
            old(self).wf(),
        ensures
            final(self).wf(),
    {
        self.length.tick();
        self.enabled = self.enabled && self.length.is_enabled();
    }

    /// Computes the swept period and silences the channel on overflow past
    /// 2047.
    pub fn sweep_freq_get_and_check(&mut self) -> (freq: u16)
        requires
            old(self).wf(),
        ensures
            final(self).wf(),
            *final(self) == (Square { enabled: final(self).enabled, ..*old(self) }),
            final(self).enabled == (old(self).enabled && freq < 2048),
            freq < 4096,
    {
        let sh: u16 = self.sweep.shadow;
        let shift: u16 = self.sweep.shift as u16;
        let delta: u16 = sh >> shift;
        proof {
            crate::apu::lemma_apu_bits(sh, shift);
        }
        let freq: u16 = if self.sweep.direction_sub { sh - delta } else { sh + delta };
        if freq >= 2048 {
            self.enabled = false;
        }
        freq
    }

    /// One 128 Hz sweep tick.
    pub fn tick_sweep(&mut self)
        requires
            old(self).wf(),
        ensures
            final(self).wf(),
    {
        if self.sweep.timer > 0 {
            self.sweep.timer = self.sweep.timer - 1;
            if self.sweep.timer == 0 {
                self.sweep.timer = if self.sweep.period == 0 { 8 } else { self.sweep.period };
            }
            if self.sweep.enabled && self.sweep.period > 0 {
                let freq: u16 = self.sweep_freq_get_and_check();
                if freq < 2048 && self.sweep.shift > 0 {
                    self.sweep.shadow = freq;
                    self.period_initial = freq;
                    let _ = self.sweep_freq_get_and_check();
                }
            }
        }
    }

    /// A read of the channel's register bank, by register offset 0..4.
    pub fn read(&self, off: u16) -> (r: u8)
        requires
            self.wf(),
    {
        if off == 0 {
            (self.sweep.shift | (if self.sweep.direction_sub { 8u8 } else { 0u8 })
                | (self.sweep.period << 4)) | 0x80
        } else if off == 1 {
            (self.wave_duty << 6) | 0x3F
        } else if off == 2 {
            self.env.read()
        } else if off == 4 {
            (if self.length.enabled { 0x40u8 } else { 0u8 }) | 0xBF
        } else {
            0xFF
        }
    }

    /// A write to the channel's register bank, by register offset 0..4.
    /// Writing the trigger bit re-enables the channel, reloads period,
    /// length and envelope, and re-arms the sweep shadow register.
    pub fn write(&mut self, off: u16, val: u8)
        requires
            old(self).wf(),
        ensures
            final(self).wf(),
            off == 0 ==> final(self).sweep.shift == (val & 7) && final(self).sweep.direction_sub
                == ((val >> 3) & 1 != 0) && final(self).sweep.period == ((val >> 4) & 7),
            off == 1 ==> final(self).wave_duty == val >> 6 && final(self).length.initial == 64 - (
            val & 0x3F),
            off == 2 ==> final(self).env.period == (val & 7) && final(self).env.direction == ((val
                >> 3) & 1 != 0) && final(self).env.volume_initial == val >> 4
                && final(self).enabled == (old(self).enabled && !(val >> 4 == 0 && (val >> 3) & 1
                == 0)),
            off == 3 ==> final(self).period_initial == ((old(self).period_initial & 0xF00) | (val as u16)),
            off == 4 ==> final(self).period_initial == ((old(self).period_initial & 0x0FF) | (((
            val & 7) as u16) << 8)) && final(self).length.enabled == ((val >> 6) & 1 != 0),
            off == 4 && val >> 7 != 0 ==> final(self).duty == 0 && final(self).timer == 2048
                - final(self).period_initial && final(self).sweep.shadow
                == final(self).period_initial && final(self).env.volume == old(
                self,
            ).env.volume_initial && final(self).length.timer == (if old(self).length.timer == 0 {
                old(self).length.initial
            } else {
                old(self).length.timer
            }) && (final(self).enabled ==> !(old(self).env.volume_initial == 0 && !old(
                self,
            ).env.direction)),
    {
        if off == 0 {
            proof {
                crate::lemma_u8_fields(val);
            }
            self.sweep.shift = val & 7;
            self.sweep.direction_sub = (val >> 3) & 1 != 0;
            self.sweep.period = (val >> 4) & 7;
        } else if off == 1 {
            proof {
                crate::lemma_u8_fields(val);
            }
            self.length.initial = 64 - ((val & 0x3F) as u16);
            self.wave_duty = val >> 6;
        } else if off == 2 {
            self.env.write(val);
            let dac = self.env.is_dac_enabled();
            self.enabled = self.enabled && dac;
        } else if off == 3 {
            let p: u16 = self.period_initial;
            let v16: u16 = val as u16;
            proof {
                crate::apu::lemma_apu_bits(p, v16);
            }
            self.period_initial = (p & 0xF00) | v16;
        } else if off == 4 {
            let p: u16 = self.period_initial;
            proof {
                crate::lemma_u8_fields(val);
            }
            let v16: u16 = (val & 7) as u16;
            let hi: u16 = v16 << 8;
            proof {
                crate::apu::lemma_apu_bits(p, v16);
            }
            self.period_initial = (p & 0x0FF) | hi;
            self.length.enabled = (val >> 6) & 1 != 0;
            if val >> 7 != 0 {
                self.timer = 2048 - self.period_initial;
                self.duty = 0;
                self.length.trigger();
                self.env.trigger();
                let dac = self.env.is_dac_enabled();
                self.enabled = dac;
                self.sweep.shadow = self.period_initial;
                self.sweep.timer = self.sweep.period;
                self.sweep.enabled = self.sweep.period > 0 || self.sweep.shift > 0;
                if self.sweep.shift > 0 {
                    let _ = self.sweep_freq_get_and_check();
                }
            }
        }
    }
}

} // verus!
