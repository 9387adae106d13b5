//! Joypad: two select lines gate one of two 4-bit button matrices
//! (directions and buttons, active low). Pressing a button while its group
//! is selected raises the joypad interrupt.

use vstd::prelude::*;
use crate::bus::INT_JOYPAD;

verus! {

/// Bit masks of the two 4-bit matrices.
pub const BTN_START_DOWN: u8 = 0x08;

pub const BTN_SELECT_UP: u8 = 0x04;

pub const BTN_B_LEFT: u8 = 0x02;

pub const BTN_A_RIGHT: u8 = 0x01;

/// Which matrix the two select lines currently gate onto the data bits.
#[derive(Clone, Copy, PartialEq, Eq, Structural, Debug)]
pub enum JoypadSelect {
    Neither,
    Dpad,
    Buttons,
    Both,
}

pub struct Joypad {
    pub selected: JoypadSelect,
    /// Button matrix, active low: a set bit means released.
    pub buttons: u8,
    /// Direction matrix, active low.
    pub dpad: u8,
}

impl Joypad {
    pub fn new() -> (r: Joypad)
        ensures
            r.selected == JoypadSelect::Neither,
            r.buttons == 0x0F,
            r.dpad == 0x0F,
    {
        Joypad { selected: JoypadSelect::Neither, buttons: 0x0F, dpad: 0x0F }
    }

    /// Presses a button of the button matrix; returns the interrupt bits to
    /// raise (the joypad bit when that matrix is selected).
    pub fn button_pressed(&mut self, button: u8) -> (ints: u8)
        ensures
            final(self).buttons == old(self).buttons & !button,
            final(self).dpad == old(self).dpad,
            final(self).selected == old(self).selected,
            ints == if old(self).selected == JoypadSelect::Buttons { INT_JOYPAD } else { 0u8 },
    {
        let ints: u8 = if self.selected == JoypadSelect::Buttons { INT_JOYPAD } else { 0 };
        self.buttons = self.buttons & !button;
        ints
    }

    /// Releases a button of the button matrix.
    pub fn button_released(&mut self, button: u8)
        ensures
            *final(self) == (Joypad { buttons: old(self).buttons | button, ..*old(self) }),
    {
        self.buttons = self.buttons | button;
    }

    /// Presses a button of the direction matrix; returns the interrupt bits
    /// to raise.
    pub fn dpad_pressed(&mut self, button: u8) -> (ints: u8)
        ensures
            final(self).dpad == old(self).dpad & !button,
            final(self).buttons == old(self).buttons,
            final(self).selected == old(self).selected,
            ints == if old(self).selected == JoypadSelect::Dpad { INT_JOYPAD } else { 0u8 },
    {
        let ints: u8 = if self.selected == JoypadSelect::Dpad { INT_JOYPAD } else { 0 };
        self.dpad = self.dpad & !button;
        ints
    }

    /// Releases a button of the direction matrix.
    pub fn dpad_released(&mut self, button: u8)
        ensures
            *final(self) == (Joypad { dpad: old(self).dpad | button, ..*old(self) }),
    {
        self.dpad = self.dpad | button;
    }

    /// What a read of the joypad register returns: the selected matrix's low
    /// four bits, or 0xFF when neither or both matrices are selected.
    pub open spec fn read_spec(self) -> u8 {
        match self.selected {
            JoypadSelect::Dpad => self.dpad & 0x0F,
            JoypadSelect::Buttons => self.buttons & 0x0F,
            _ => 0xFF,
        }
    }

    pub fn read(&self) -> (r: u8)
        ensures
            r == self.read_spec(),
    {
        match self.selected {
            JoypadSelect::Dpad => self.dpad & 0x0F,
            JoypadSelect::Buttons => self.buttons & 0x0F,
            _ => 0xFF,
        }
    }

    /// A write selects a matrix through bits 4 and 5.
    pub fn write(&mut self, val: u8)
        ensures
            final(self).buttons == old(self).buttons,
            final(self).dpad == old(self).dpad,
            final(self).selected == (if (val >> 4) & 3 == 0 {
                JoypadSelect::Neither
            } else if (val >> 4) & 3 == 1 {
                JoypadSelect::Buttons
            } else if (val >> 4) & 3 == 2 {
                JoypadSelect::Dpad
            } else {
                JoypadSelect::Both
            }),
    {
        let sel: u8 = (val >> 4) & 3;
        self.selected = if sel == 0 {
            JoypadSelect::Neither
        } else if sel == 1 {
            JoypadSelect::Buttons
        } else if sel == 2 {
            JoypadSelect::Dpad
        } else {
            JoypadSelect::Both
        };
    }
}

} // verus!
