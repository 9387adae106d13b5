//! A cycle-accurate Game Boy (DMG) emulator core: the Sharp LR35902 CPU, the
//! memory-mapped bus with cartridge bank switching, the pixel-FIFO picture
//! processing unit, the four-channel audio unit, and the timer, joypad and
//! serial peripherals, all advancing in lock-step on a shared tick clock.

use vstd::prelude::*;

pub mod apu;
pub mod bus;
pub mod cart;
pub mod cpu;
pub mod frame;
pub mod gb;
pub mod instr;
pub mod joypad;
pub mod mbc;
pub mod ppu;
pub mod serial;
pub mod timer;

verus! {

/// Returns the value of bit `bit` of `value` (bit 0 is the least significant).
pub fn nth_bit(value: u8, bit: u8) -> (r: bool)
    requires
        bit < 8,
    ensures
        r == (value & (1u8 << bit) != 0),
{
    value & (1u8 << bit) != 0
}

/// Range facts about the bit fields of a byte, shared by the decoders and
/// register handlers.
pub proof fn lemma_u8_fields(x: u8)
    ensures
        x & 0x0F <= 15,
        (x & 0xF0) & 0x0F == 0,
        x >> 4 <= 15,
        x & 1 < 2,
        x & 3 < 4,
        x & 7 < 8,
        x & 0x1F < 32,
        x & 0x3F < 64,
        x & 0x7F < 128,
        (x >> 3) & 7 < 8,
        (x >> 3) & 3 < 4,
        (x >> 4) & 3 < 4,
        (x >> 4) & 7 < 8,
        (x >> 4) & 15 < 16,
        (x >> 5) & 3 < 4,
        x >> 6 < 4,
        x >> 6 == 0 ==> x < 0x40,
        x >> 6 == 1 ==> 0x40 <= x < 0x80,
        x >> 6 == 2 ==> 0x80 <= x < 0xC0,
        x >> 6 == 3 ==> 0xC0 <= x,
        x >> 7 <= 1,
        x < 32 ==> x >> 1 < 16,
        x >> 1 <= x,
        x >> 2 <= x,
{
    assert(x & 0x0F <= 15 && (x & 0xF0) & 0x0F == 0 && x >> 4 <= 15 && x & 1 < 2 && x & 3 < 4
        && x & 7 < 8 && x & 0x1F < 32 && x & 0x3F < 64 && x & 0x7F < 128 && (x >> 3) & 7 < 8 && (
    x >> 3) & 3 < 4 && (x >> 4) & 3 < 4 && (x >> 4) & 7 < 8 && (x >> 4) & 15 < 16 && (x >> 5) & 3
        < 4 && x >> 6 < 4 && (x >> 6 == 0 ==> x < 0x40) && (x >> 6 == 1 ==> 0x40 <= x < 0x80) && (
    x >> 6 == 2 ==> 0x80 <= x < 0xC0) && (x >> 6 == 3 ==> 0xC0 <= x) && x >> 7 <= 1 && (x < 32
        ==> x >> 1 < 16) && x >> 1 <= x && x >> 2 <= x) by (bit_vector);
}

/// A 16-bit value splits into its two bytes and reassembles from them.
pub proof fn lemma_u16_bytes(v: u16)
    ensures
        (v >> 8) * 256 + (v & 0xFF) == v,
        v >> 8 <= 255,
        v & 0xFF <= 255,
{
    assert((v >> 8) * 256 + (v & 0xFF) == v && v >> 8 <= 255 && v & 0xFF <= 255) by (bit_vector);
}

/// Two bytes assemble into a 16-bit value; a high-RAM offset ORs onto
/// 0xFF00 as a plain sum.
pub proof fn lemma_u8_pair(hi: u8, lo: u8)
    ensures
        ((hi as u16) << 8 | lo as u16) == hi * 256 + lo,
        (0xFF00u16 | lo as u16) == 0xFF00 + lo,
{
    assert(((hi as u16) << 8 | lo as u16) == hi * 256 + lo && (0xFF00u16 | lo as u16) == 0xFF00
        + lo) by (bit_vector);
}

/// Bit-set inclusion (every bit of `b` is set in `x`) carries through a
/// growth step to `y`.
pub proof fn lemma_bits_kept(b: u8, x: u8, y: u8)
    ensures
        x & b == b && y & x == x ==> y & b == b,
{
    assert(x & b == b && y & x == x ==> y & b == b) by (bit_vector);
}

/// Growth of the interrupt-flag byte preserves a pending enabled
/// interrupt.
pub proof fn lemma_pending_grows(e: u8, o: u8, f: u8)
    ensures
        f & o == o && e & o & 0x1F != 0 ==> e & f & 0x1F != 0,
{
    assert(f & o == o && e & o & 0x1F != 0 ==> e & f & 0x1F != 0) by (bit_vector);
}

/// ORing flag bytes preserves any set bit.
pub proof fn lemma_or_bit(a: u8, b: u8, m: u8)
    ensures
        a & m != 0 ==> (a | b) & m != 0,
        b & m != 0 ==> (a | b) & m != 0,
        m & m == m,
{
    assert((a & m != 0 ==> (a | b) & m != 0) && (b & m != 0 ==> (a | b) & m != 0) && m & m == m)
        by (bit_vector);
}

} // verus!
