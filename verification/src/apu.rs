//! Audio processing unit: two pulse channels, the wave channel and the
//! noise channel, sequenced by a 512 Hz frame counter (length at 256 Hz on
//! steps 0/2/4/6, sweep at 128 Hz on steps 2/6, envelope at 64 Hz on step
//! 7), emitting one stereo sample pair every 4194304/44100 T-cycles.
//!
//! Samples are integer DAC units: each channel contributes -15..15, the
//! four panned channels sum to -60..60 per side, and the master volume
//! (1..8) scales that to -480..480. The host maps these linearly onto
//! floating-point amplitude; zero DAC units is exactly amplitude 0.

use vstd::prelude::*;

pub mod envelope;
pub mod noise;
pub mod square;
pub mod wave;

use noise::Noise;
use square::Square;
use wave::Wave;

verus! {

/// Register bit facts shared by the channels: period-register composition
/// stays inside the 11-bit range, shifting cannot grow a value, and the
/// LFSR feedback bit is a single bit.
pub proof fn lemma_apu_bits(p: u16, v: u16)
    ensures
        p < 2048 && v < 256 ==> ((p & 0xF00) | v) < 2048,
        v < 8 ==> ((p & 0x0FF) | (v << 8)) < 2048,
        p >> v <= p,
        (p & 1) ^ ((p >> 1) & 1) <= 1,
{
    assert((p < 2048 && v < 256 ==> ((p & 0xF00) | v) < 2048) && (v < 8 ==> ((p & 0x0FF) | (v
        << 8)) < 2048) && p >> v <= p && (p & 1) ^ ((p >> 1) & 1) <= 1) by (bit_vector);
}

/// A channel length timer: counts down at 256 Hz and silences its channel
/// at zero when enabled.
pub struct Length {
    pub enabled: bool,
    pub timer: u16,
    /// Reload value applied by a trigger when the timer is spent.
    pub initial: u16,
}

impl Length {
    pub fn new() -> (r: Length)
        ensures
            !r.enabled,
            r.timer == 0,
            r.initial == 0,
    {
        Length { enabled: false, timer: 0, initial: 0 }
    }

    pub fn is_enabled(&self) -> (r: bool)
        ensures
            r == (self.timer > 0),
    {
        self.timer > 0
    }

    /// One 256 Hz tick: counts down while running and enabled.
    pub fn tick(&mut self)
        ensures
            *final(self) == (Length {
                timer: if old(self).enabled && old(self).timer > 0 {
                    (old(self).timer - 1) as u16
                } else {
                    old(self).timer
                },
                ..*old(self)
            }),
    {
        if self.enabled && self.timer > 0 {
            self.timer = self.timer - 1;
        }
    }

    /// A channel trigger reloads a spent timer.
    pub fn trigger(&mut self)
        ensures
            *final(self) == (Length {
                timer: if old(self).timer == 0 { old(self).initial } else { old(self).timer },
                ..*old(self)
            }),
    {
        if self.timer == 0 {
            self.timer = self.initial;
        }
    }
}

pub struct Apu {
    pub apu_enabled: bool,
    /// NR50 as written: master volume fields.
    pub nr50: u8,
    /// NR51 as written: panning bits, one per channel and side.
    pub panning: u8,
    pub square1: Square,
    pub square2: Square,
    pub wave: Wave,
    pub noise: Noise,
    /// Cadence counter for the 2- and 4-T-cycle period clocks.
    pub tdiv: u8,
    /// T-cycles into the current frame-sequencer step.
    pub fs_counter: u16,
    /// Frame-sequencer step 0..7.
    pub fs_step: u8,
    /// Sample-rate accumulator against 4194304/44100.
    pub sample_acc: u32,
    /// Interleaved stereo sample pairs in DAC units, for the host to drain.
    pub samples: Vec<i16>,
}

impl Apu {
    pub open spec fn wf(self) -> bool {
        &&& self.square1.wf()
        &&& self.square2.wf()
        &&& self.wave.wf()
        &&& self.noise.wf()
        &&& self.tdiv < 4
        &&& self.fs_counter < 8192
        &&& self.fs_step < 8
        &&& self.sample_acc < 4194304
    }

    pub fn new() -> (r: Apu)
        ensures
            r.wf(),
            !r.apu_enabled,
            r.samples@ == Seq::<i16>::empty(),
    {
        Apu {
            apu_enabled: false,
            nr50: 0,
            panning: 0,
            square1: Square::new(),
            square2: Square::new(),
            wave: Wave::new(),
            noise: Noise::new(),
            tdiv: 0,
            fs_counter: 0,
            fs_step: 0,
            sample_acc: 0,
            samples: Vec::new(),
        }
    }

    /// Whether this T-cycle emits a sample pair.
    pub open spec fn emits(self) -> bool {
        self.sample_acc + 44100 >= 4194304
    }

    /// One stereo side of the current mix, in DAC units: the sum of the
    /// panned channel samples times the master volume for that side.
    pub open spec fn mix_side_spec(self, left: bool) -> int {
        let pan = if left { self.panning >> 4 } else { self.panning };
        let sum = (if pan & 1 != 0 { self.square1.sample_spec() as int } else { 0int }) + (if pan
            & 2 != 0 { self.square2.sample_spec() as int } else { 0int }) + (if pan & 4 != 0 {
            self.wave.sample_spec() as int
        } else { 0int }) + (if pan & 8 != 0 { self.noise.sample_spec() as int } else { 0int });
        sum * ((if left { (self.nr50 >> 4) & 7 } else { self.nr50 & 7 }) + 1)
    }

    fn mix_side(&self, left: bool) -> (r: i16)
        requires
            self.wf(),
        ensures
            r == self.mix_side_spec(left),
            -480 <= r <= 480,
    {
        let s1: i16 = self.square1.get_sample();
        let s2: i16 = self.square2.get_sample();
        let sw: i16 = self.wave.get_sample();
        let sn: i16 = self.noise.get_sample();
        let pan: u8 = if left { self.panning >> 4 } else { self.panning };
        let mut sum: i16 = 0;
        if pan & 1 != 0 {
            sum = sum + s1;
        }
        if pan & 2 != 0 {
            sum = sum + s2;
        }
        if pan & 4 != 0 {
            sum = sum + sw;
        }
        if pan & 8 != 0 {
            sum = sum + sn;
        }
        let n: u8 = self.nr50;
        let volf: u8 = if left { (n >> 4) & 7 } else { n & 7 };
        proof {
            crate::lemma_u8_fields(n);
        }
        let vol: i16 = (volf as i16) + 1;
        proof {
            assert(-480 <= sum * vol <= 480) by (nonlinear_arith)
                requires
                    -60 <= sum <= 60,
                    1 <= vol <= 8,
            ;
        }
        sum * vol
    }

    /// Advances the APU by one T-cycle.
    ///
    /// While the master enable is off, every emitted sample pair is exactly
    /// (0, 0) and no channel, sequencer or register state advances. While
    /// it is on, an emitted pair is the pan/volume mix of the four
    /// channels' current samples, and the frame sequencer advances one
    /// T-cycle, stepping every 8192.
    pub fn tick(&mut self)
        requires
            old(self).wf(),
        ensures
            final(self).wf(),
            final(self).apu_enabled == old(self).apu_enabled,
            !old(self).emits() ==> final(self).samples@ == old(self).samples@,
            old(self).emits() && !old(self).apu_enabled ==> final(self).samples@ == old(
                self,
            ).samples@.push(0i16).push(0i16),
            old(self).emits() && old(self).apu_enabled ==> final(self).samples@ == old(
                self,
            ).samples@.push(old(self).mix_side_spec(true) as i16).push(
                old(self).mix_side_spec(false) as i16,
            ),
            old(self).emits() ==> final(self).samples@.len() == old(self).samples@.len() + 2,
            !old(self).apu_enabled ==> final(self).square1 == old(self).square1
                && final(self).square2 == old(self).square2
                && final(self).wave == old(self).wave
                && final(self).noise == old(self).noise
                && final(self).fs_step == old(self).fs_step
                && final(self).fs_counter == old(self).fs_counter
                && final(self).tdiv == old(self).tdiv
                && final(self).nr50 == old(self).nr50
                && final(self).panning == old(self).panning,
            old(self).apu_enabled ==> final(self).tdiv == (old(self).tdiv + 1) % 4
                && final(self).fs_counter == (if old(self).fs_counter + 1 == 8192 {
                0int
            } else {
                old(self).fs_counter + 1
            }) && final(self).fs_step == (if old(self).fs_counter + 1 == 8192 {
                (old(self).fs_step + 1) % 8
            } else {
                old(self).fs_step as int
            }),
    {
        self.sample_acc = self.sample_acc + 44100;
        if self.sample_acc >= 4194304 {
            self.sample_acc = self.sample_acc - 4194304;
            if !self.apu_enabled {
                self.samples.push(0);
                self.samples.push(0);
            } else {
                let l: i16 = self.mix_side(true);
                let r: i16 = self.mix_side(false);
                self.samples.push(l);
                self.samples.push(r);
            }
        }
        if !self.apu_enabled {
            return;
        }
        self.noise.tick_period();
        if self.tdiv % 2 == 0 {
            self.wave.tick_period();
        }
        if self.tdiv == 0 {
            self.square1.tick_period();
            self.square2.tick_period();
        }
        self.tdiv = (self.tdiv + 1) % 4;
        self.fs_counter = self.fs_counter + 1;
        if self.fs_counter == 8192 {
            self.fs_counter = 0;
            if self.fs_step == 0 || self.fs_step == 2 || self.fs_step == 4 || self.fs_step == 6 {
                self.square1.tick_length();
                self.square2.tick_length();
                self.wave.tick_length();
                self.noise.tick_length();
            }
            if self.fs_step == 2 || self.fs_step == 6 {
                self.square1.tick_sweep();
            }
            if self.fs_step == 7 {
                self.square1.env.tick();
                self.square2.env.tick();
                self.noise.env.tick();
            }
            self.fs_step = (self.fs_step + 1) % 8;
        }
    }

    /// What a read of an APU register returns.
    pub fn read(&self, addr: u16) -> (r: u8)
        requires
            self.wf(),
        ensures
            addr == 0xFF24 ==> r == self.nr50,
            addr == 0xFF25 ==> r == self.panning,
            addr == 0xFF26 ==> ((r >= 0x80) == self.apu_enabled),
    {
        if addr == 0xFF24 {
            self.nr50
        } else if addr == 0xFF25 {
            self.panning
        } else if addr == 0xFF26 {
            let mut res: u8 = 0x70;
            if self.apu_enabled {
                res = res + 0x80;
            }
            if self.square1.enabled {
                res = res + 0x01;
            }
            if self.square2.enabled {
                res = res + 0x02;
            }
            if self.wave.enabled {
                res = res + 0x04;
            }
            if self.noise.enabled {
                res = res + 0x08;
            }
            res
        } else if 0xFF10 <= addr && addr <= 0xFF14 {
            self.square1.read(addr - 0xFF10)
        } else if 0xFF15 <= addr && addr <= 0xFF19 {
            self.square2.read(addr - 0xFF15)
        } else if 0xFF1A <= addr && addr <= 0xFF1E {
            self.wave.read(addr)
        } else if 0xFF20 <= addr && addr <= 0xFF23 {
            self.noise.read(addr)
        } else if 0xFF30 <= addr && addr <= 0xFF3F {
            self.wave.ram_read(addr - 0xFF30)
        } else {
            0xFF
        }
    }

    /// A write to an APU register. With the master enable off everything
    /// but NR52 and wave RAM is gated; clearing the master enable silences
    /// the channels and zeroes volume and panning.
    pub fn write(&mut self, addr: u16, val: u8)
        requires
            old(self).wf(),
        ensures
            final(self).wf(),
            old(self).apu_enabled && addr == 0xFF24 ==> final(self).nr50 == val,
            old(self).apu_enabled && addr == 0xFF25 ==> final(self).panning == val,
            addr == 0xFF26 ==> final(self).apu_enabled == (val >> 7 != 0),
            addr == 0xFF26 && val >> 7 == 0 ==> !final(self).square1.enabled
                && !final(self).square2.enabled && !final(self).wave.enabled
                && !final(self).noise.enabled && final(self).nr50 == 0 && final(self).panning
                == 0,
            !old(self).apu_enabled && addr != 0xFF26 && !(0xFF30 <= addr && addr <= 0xFF3F)
                ==> *final(self) == *old(self),
    {
        if addr == 0xFF26 {
            self.apu_enabled = val >> 7 != 0;
            if !self.apu_enabled {
                self.square1.disable();
                self.square2.disable();
                self.wave.disable();
                self.noise.disable();
                self.nr50 = 0;
                self.panning = 0;
            }
            return;
        }
        if 0xFF30 <= addr && addr <= 0xFF3F {
            self.wave.ram_write(addr - 0xFF30, val);
            return;
        }
        if !self.apu_enabled {
            return;
        }
        if addr == 0xFF24 {
            self.nr50 = val;
        } else if addr == 0xFF25 {
            self.panning = val;
        } else if 0xFF10 <= addr && addr <= 0xFF14 {
            self.square1.write(addr - 0xFF10, val);
        } else if 0xFF15 <= addr && addr <= 0xFF19 {
            self.square2.write(addr - 0xFF15, val);
        } else if 0xFF1A <= addr && addr <= 0xFF1E {
            self.wave.write(addr, val);
        } else if 0xFF20 <= addr && addr <= 0xFF23 {
            self.noise.write(addr, val);
        }
    }

    /// Drains the sample buffer accumulated so far.
    pub fn consume_samples(&mut self) -> (r: Vec<i16>)
        ensures
            r == old(self).samples,
            final(self).samples@ == Seq::<i16>::empty(),
            final(self).apu_enabled == old(self).apu_enabled,
            final(self).wf() == old(self).wf(),
    {
        let mut taken: Vec<i16> = Vec::new();
        core::mem::swap(&mut taken, &mut self.samples);
        proof {
            assert(self.samples@ =~= Seq::<i16>::empty());
        }
        taken
    }
}

} // verus!
