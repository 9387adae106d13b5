//! Volume envelope shared by the pulse and noise channels: a 4-bit volume
//! stepped up or down at the period programmed in NRx2.

use vstd::prelude::*;

verus! {

pub struct Envelope {
    /// Volume reloaded on trigger (NRx2 bits 4..7).
    pub volume_initial: u8,
    /// Current 4-bit volume.
    pub volume: u8,
    /// True when the envelope counts up.
    pub direction: bool,
    pub timer: u8,
    /// Step period (NRx2 bits 0..2); 0 disables stepping.
    pub period: u8,
}

impl Envelope {
    pub open spec fn wf(self) -> bool {
        &&& self.volume <= 15
        &&& self.volume_initial <= 15
        &&& self.period <= 7
    }

    pub fn new() -> (r: Envelope)
        ensures
            r.wf(),
            r.volume == 0,
            r.volume_initial == 0,
            !r.direction,
    {
        Envelope { volume_initial: 0, volume: 0, direction: false, timer: 0, period: 0 }
    }

    /// One envelope step: the state after a 64 Hz frame-sequencer tick.
    pub open spec fn tick_spec(self) -> Envelope {
        if self.period == 0 || self.timer == 0 {
            self
        } else if self.timer > 1 {
            Envelope { timer: (self.timer - 1) as u8, ..self }
        } else {
            let vol = if self.volume < 15 && self.direction {
                (self.volume + 1) as u8
            } else if self.volume > 0 && !self.direction {
                (self.volume - 1) as u8
            } else {
                self.volume
            };
            Envelope { timer: self.period, volume: vol, ..self }
        }
    }

    pub fn tick(&mut self)
        requires
            old(self).wf(),
        ensures
            final(self).wf(),
            *final(self) == old(self).tick_spec(),
    {
        if self.period == 0 {
            return;
        }
        if self.timer > 0 {
            self.timer = self.timer - 1;
            if self.timer == 0 {
                self.timer = self.period;
                if self.volume < 15 && self.direction {
                    self.volume = self.volume + 1;
                } else if self.volume > 0 && !self.direction {
                    self.volume = self.volume - 1;
                }
            }
        }
    }

    /// The DAC is off exactly when the reload volume is zero and the
    /// envelope counts down.
    pub fn is_dac_enabled(&self) -> (r: bool)
        ensures
            r == !(self.volume_initial == 0 && !self.direction),
    {
        !(self.volume_initial == 0 && !self.direction)
    }

    /// A channel trigger reloads the timer and the volume.
    pub fn trigger(&mut self)
        requires
            old(self).wf(),
        ensures
            final(self).wf(),
            *final(self) == (Envelope {
                timer: old(self).period,
                volume: old(self).volume_initial,
                ..*old(self)
            }),
    {
        self.timer = self.period;
        self.volume = self.volume_initial;
    }

    /// The NRx2 register value these settings read back as.
    pub open spec fn read_spec(self) -> u8 {
        (self.period | (if self.direction { 8u8 } else { 0u8 })) | (self.volume_initial << 4)
    }

    pub fn read(&self) -> (r: u8)
        ensures
            r == self.read_spec(),
    {
        (self.period | (if self.direction { 8u8 } else { 0u8 })) | (self.volume_initial << 4)
    }

    /// An NRx2 write: period, direction and reload volume; the current
    /// volume takes the reload value at once.
    pub fn write(&mut self, val: u8)
        ensures
            final(self).wf(),
            final(self).period == val & 7,
            final(self).direction == ((val >> 3) & 1 != 0),
            final(self).volume_initial == val >> 4,
            final(self).volume == val >> 4,
            final(self).timer == old(self).timer,
    {
        proof {
            crate::lemma_u8_fields(val);
        }
        self.period = val & 7;
        self.direction = (val >> 3) & 1 != 0;
        self.volume_initial = val >> 4;
        self.volume = self.volume_initial;
    }
}

} // verus!
