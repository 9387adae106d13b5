//! Timer: DIV counts every T-cycle (the register shows its high byte); TIMA
//! is clocked on the falling edge of the DIV bit selected by TAC. On
//! overflow TIMA stays zero for four T-cycles, then reloads from TMA and
//! raises the timer interrupt. Writes during the reload window have the
//! documented obscure effects: a TIMA write cancels the reload, a TMA write
//! in the reload cycle lands in TIMA too, and a DIV write or a TAC change
//! can itself produce the falling edge that clocks TIMA.

use vstd::prelude::*;
use crate::bus::INT_TIMER;

verus! {

pub struct Timer {
    /// 16-bit internal counter; the DIV register is its high byte.
    pub div: u16,
    pub tima: u8,
    /// Mask of the DIV bit that clocks TIMA, as selected by TAC.
    pub tima_clock: u16,
    /// T-cycles left until an overflowed TIMA reloads from TMA (0 when idle).
    pub tima_overflow_delay: u8,
    /// True only during the T-cycle in which TIMA was reloaded from TMA.
    pub tima_just_reloaded: bool,
    pub tma: u8,
    /// TAC low three bits: enable (bit 2) and clock select (bits 0..1).
    pub tac: u8,
}

/// The DIV bit mask that a TAC clock-select field picks: bit 9, 3, 5 or 7.
pub open spec fn clock_bit_spec(tac: u8) -> u16 {
    if tac & 3 == 0 { 512u16 } else if tac & 3 == 1 { 8u16 } else if tac & 3 == 2 { 32u16 } else {
        128u16
    }
}

impl Timer {
    pub open spec fn wf(self) -> bool {
        &&& self.tac < 8
        &&& self.tima_clock == clock_bit_spec(self.tac)
        &&& self.tima_overflow_delay <= 4
    }

    /// Power-on state: DIV starts at the post-boot value 0xABCC.
    pub fn new() -> (r: Timer)
        ensures
            r.wf(),
            r.div == 0xABCC,
            r.tima == 0,
            r.tma == 0,
            r.tac == 0,
            r.tima_overflow_delay == 0,
            r.tima_just_reloaded == false,
    {
        assert(0u8 & 3 == 0) by (bit_vector);
        Timer {
            div: 0xABCC,
            tima: 0,
            tima_clock: 512,
            tima_overflow_delay: 0,
            tima_just_reloaded: false,
            tma: 0,
            tac: 0,
        }
    }

    /// DIV after one T-cycle (it rolls over past 0xFFFF).
    pub open spec fn div_next(self) -> u16 {
        if self.div == 0xFFFF { 0u16 } else { (self.div + 1) as u16 }
    }

    /// Whether this T-cycle's DIV increment is a falling edge of the
    /// selected clock bit.
    pub open spec fn falling_edge(self) -> bool {
        self.div & self.tima_clock != 0 && self.div_next() & self.tima_clock == 0
    }

    /// State after the reload-delay countdown of this T-cycle, and the
    /// interrupt bits the countdown raises.
    pub open spec fn after_reload(self) -> (Timer, u8) {
        if self.tima_overflow_delay == 0 {
            (Timer { tima_just_reloaded: false, ..self }, 0u8)
        } else if self.tima_overflow_delay == 1 {
            (
                Timer {
                    tima: self.tma,
                    tima_overflow_delay: 0,
                    tima_just_reloaded: true,
                    ..self
                },
                INT_TIMER,
            )
        } else {
            (
                Timer {
                    tima_overflow_delay: (self.tima_overflow_delay - 1) as u8,
                    tima_just_reloaded: false,
                    ..self
                },
                0u8,
            )
        }
    }

    /// TIMA after one clock pulse, regardless of the TAC enable bit: it
    /// increments, arming the four-cycle reload delay on overflow.
    pub open spec fn tima_bumped(self) -> Timer {
        if self.tima == 0xFF {
            Timer { tima: 0, tima_overflow_delay: 4, ..self }
        } else {
            Timer { tima: (self.tima + 1) as u8, tima_overflow_delay: 0, ..self }
        }
    }

    /// State after one TIMA clock: when TAC enables the timer, TIMA
    /// increments, arming the four-cycle reload delay on overflow.
    pub open spec fn tima_ticked(self) -> Timer {
        if self.tac & 4 != 0 {
            self.tima_bumped()
        } else {
            self
        }
    }

    /// The whole one-T-cycle transition: reload countdown, then the DIV
    /// increment with its possible falling edge.
    pub open spec fn tick_spec(self) -> (Timer, u8) {
        let (t1, ints) = self.after_reload();
        let t2 = if t1.falling_edge() { t1.tima_ticked() } else { t1 };
        (Timer { div: self.div_next(), ..t2 }, ints)
    }

    /// Clocks TIMA once, regardless of the TAC enable bit (helper for
    /// edges produced by register writes).
    fn bump_tima(&mut self)
        requires
            old(self).wf(),
        ensures
            final(self).wf(),
            *final(self) == old(self).tima_bumped(),
    {
        if self.tima == 0xFF {
            self.tima = 0;
            self.tima_overflow_delay = 4;
        } else {
            self.tima = self.tima + 1;
            self.tima_overflow_delay = 0;
        }
    }

    /// Clocks TIMA once when TAC enables the timer (helper for edges
    /// produced by register writes).
    fn tick_tima(&mut self)
        requires
            old(self).wf(),
        ensures
            final(self).wf(),
            *final(self) == old(self).tima_ticked(),
    {
        if self.tac & 4 != 0 {
            self.bump_tima();
        }
    }

    /// Advances the timer by one T-cycle; returns the interrupt bits raised.
    ///
    /// With TAC disabled and no reload pending, TIMA never changes, even as
    /// DIV rolls over (the last ensures clause).
    pub fn tick(&mut self) -> (ints: u8)
        requires
            old(self).wf(),
        ensures
            final(self).wf(),
            ({
                let (t, i) = old(self).tick_spec();
                *final(self) == t && ints == i
            }),
            old(self).tac & 4 == 0 && old(self).tima_overflow_delay == 0 ==> final(self).tima
                == old(self).tima && final(self).tima_overflow_delay == 0,
    {
        self.tima_just_reloaded = false;
        let mut ints: u8 = 0;
        if self.tima_overflow_delay > 0 {
            self.tima_overflow_delay = self.tima_overflow_delay - 1;
            if self.tima_overflow_delay == 0 {
                self.tima = self.tma;
                self.tima_just_reloaded = true;
                ints = INT_TIMER;
            }
        }
        let new_div: u16 = if self.div == 0xFFFF { 0 } else { self.div + 1 };
        if self.div & self.tima_clock != 0 && new_div & self.tima_clock == 0 {
            self.tick_tima();
        }
        self.div = new_div;
        ints
    }

    /// What a read of a timer register returns.
    pub open spec fn read_spec(self, addr: u16) -> u8 {
        if addr == 0xFF04 { (self.div >> 8) as u8 }
        else if addr == 0xFF05 { self.tima }
        else if addr == 0xFF06 { self.tma }
        else if addr == 0xFF07 { self.tac | 0xF8 }
        else { 0xFF }
    }

    pub fn read(&self, addr: u16) -> (r: u8)
        ensures
            r == self.read_spec(addr),
    {
        if addr == 0xFF04 { (self.div >> 8) as u8 }
        else if addr == 0xFF05 { self.tima }
        else if addr == 0xFF06 { self.tma }
        else if addr == 0xFF07 { self.tac | 0xF8 }
        else { 0xFF }
    }

    /// Timer register writes, with the documented edge cases: a DIV write
    /// resets the counter (clocking TIMA if the timer was enabled with the
    /// selected bit high), a TIMA write is ignored in the reload cycle and
    /// cancels a pending reload, a TMA write in the reload cycle lands in
    /// TIMA too, and a TAC write that drops the gated clock output — the
    /// old enable bit and old selected DIV bit were both high, the new
    /// pair is not — clocks TIMA once, the same falling edge the normal
    /// tick detects.
    pub fn write(&mut self, addr: u16, val: u8)
        requires
            old(self).wf(),
        ensures
            final(self).wf(),
            addr == 0xFF04 ==> *final(self) == ({
                let t = if old(self).div & old(self).tima_clock != 0 {
                    old(self).tima_ticked()
                } else {
                    *old(self)
                };
                Timer { div: 0, ..t }
            }),
            addr == 0xFF05 ==> *final(self) == (Timer {
                tima: if old(self).tima_just_reloaded { old(self).tima } else { val },
                tima_overflow_delay: 0,
                ..*old(self)
            }),
            addr == 0xFF06 ==> *final(self) == (Timer {
                tma: val,
                tima: if old(self).tima_just_reloaded { val } else { old(self).tima },
                ..*old(self)
            }),
            addr == 0xFF07 ==> *final(self) == ({
                let t = Timer {
                    tac: val & 7,
                    tima_clock: clock_bit_spec(val & 7),
                    ..*old(self)
                };
                if old(self).tac & 4 != 0 && old(self).div & old(self).tima_clock != 0 && !(val
                    & 4 != 0 && old(self).div & clock_bit_spec(val & 7) != 0) {
                    t.tima_bumped()
                } else {
                    t
                }
            }),
            addr != 0xFF04 && addr != 0xFF05 && addr != 0xFF06 && addr != 0xFF07 ==> *final(self)
                == *old(self),
            addr == 0xFF06 ==> final(self).read_spec(addr) == val,
            addr == 0xFF05 && !old(self).tima_just_reloaded ==> final(self).read_spec(addr)
                == val,
    {
        if addr == 0xFF04 {
            if self.div & self.tima_clock != 0 {
                self.tick_tima();
            }
            self.div = 0;
        } else if addr == 0xFF05 {
            if !self.tima_just_reloaded {
                self.tima = val;
            }
            self.tima_overflow_delay = 0;
        } else if addr == 0xFF06 {
            self.tma = val;
            if self.tima_just_reloaded {
                self.tima = val;
            }
        } else if addr == 0xFF07 {
            assert(val & 7 < 8 && (val & 7) & 3 == val & 3 && (val & 7) & 4 == val & 4)
                by (bit_vector);
            let old_out: bool = self.tac & 4 != 0 && self.div & self.tima_clock != 0;
            self.tac = val & 7;
            self.tima_clock = if val & 3 == 0 {
                512
            } else if val & 3 == 1 {
                8
            } else if val & 3 == 2 {
                32
            } else {
                128
            };
            let new_out: bool = self.tac & 4 != 0 && self.div & self.tima_clock != 0;
            if old_out && !new_out {
                self.bump_tima();
            }
        }
    }
}

} // verus!
