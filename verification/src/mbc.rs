//! Cartridge memory bank controllers: bank-selection state for the
//! supported mapper variants (none, MBC1, MBC2, MBC3 with RTC, MBC5), and
//! the cartridge itself, which routes ROM/RAM accesses through the selected
//! banks. A "write to ROM" is never a store: it is a bank-control command.

use vstd::prelude::*;
use crate::cart::CartHeader;

verus! {

/// A shared banking helper: maps a virtual page index to a base offset in
/// the underlying byte array. Each mapper updates its pages on every
/// control write.
pub struct Banking {
    /// Size in bytes of the banked array.
    pub data_size: usize,
    /// Size in bytes of one bank.
    pub bank_size: usize,
    /// Number of banks the array holds.
    pub banks_count: usize,
    /// Base offset (a multiple of `bank_size`) mapped for each page.
    pub banks: Vec<usize>,
}

impl Banking {
    pub open spec fn wf(self) -> bool {
        &&& self.bank_size > 0
        &&& self.banks_count * self.bank_size == self.data_size
        &&& self.banks.len() > 0
        &&& forall|i: int| 0 <= i < self.banks.len() ==> if self.banks_count == 0 {
            #[trigger] self.banks[i] == 0
        } else {
            self.banks[i] + self.bank_size <= self.data_size
        }
    }

    pub fn new(data_size: usize, pages_count: usize, bank_size: usize) -> (r: Banking)
        requires
            bank_size > 0,
            pages_count > 0,
            data_size % bank_size == 0,
        ensures
            r.wf(),
            r.data_size == data_size,
            r.bank_size == bank_size,
            r.banks.len() == pages_count,
            r.banks_count == data_size / bank_size,
            forall|i: int| 0 <= i < r.banks.len() ==> #[trigger] r.banks[i] == 0,
    {
        let mut banks: Vec<usize> = Vec::new();
        let mut i: usize = 0;
        while i < pages_count
            invariant
                i <= pages_count,
                banks.len() == i,
                forall|j: int| 0 <= j < i ==> #[trigger] banks[j] == 0,
            decreases pages_count - i,
        {
            banks.push(0);
            i = i + 1;
        }
        let banks_count: usize = data_size / bank_size;
        proof {
            vstd::arithmetic::div_mod::lemma_fundamental_div_mod(data_size as int,
                bank_size as int);
            vstd::arithmetic::mul::lemma_mul_is_commutative(banks_count as int, bank_size as int);
            if banks_count > 0 {
                vstd::arithmetic::mul::lemma_mul_inequality(1, banks_count as int,
                    bank_size as int);
            }
        }
        Banking { data_size, bank_size, banks_count, banks }
    }

    /// A ROM banking over `pages_count` 16 KiB pages.
    pub fn new_rom(header: &CartHeader, pages_count: usize) -> (r: Banking)
        requires
            pages_count > 0,
            header.rom_size == header.rom_banks * 16384,
        ensures
            r.wf(),
            r.data_size == header.rom_size,
            r.bank_size == 16384,
            r.banks.len() == pages_count,
            r.banks_count == header.rom_banks,
            forall|i: int| 0 <= i < r.banks.len() ==> #[trigger] r.banks[i] == 0,
    {
        proof {
            vstd::arithmetic::div_mod::lemma_mod_multiples_basic(header.rom_banks as int, 16384);
            vstd::arithmetic::div_mod::lemma_div_multiples_vanish(header.rom_banks as int, 16384);
        }
        Banking::new(header.rom_size, pages_count, 16384)
    }

    /// The single-page RAM banking over 8 KiB banks.
    pub fn new_ram(header: &CartHeader) -> (r: Banking)
        requires
            header.ram_size == header.ram_banks * 8192,
        ensures
            r.wf(),
            r.data_size == header.ram_size,
            r.bank_size == 8192,
            r.banks.len() == 1,
            r.banks_count == header.ram_banks,
            forall|i: int| 0 <= i < r.banks.len() ==> #[trigger] r.banks[i] == 0,
    {
        proof {
            vstd::arithmetic::div_mod::lemma_mod_multiples_basic(header.ram_banks as int, 8192);
            vstd::arithmetic::div_mod::lemma_div_multiples_vanish(header.ram_banks as int, 8192);
        }
        Banking::new(header.ram_size, 1, 8192)
    }

    /// Maps `page` to `bank` (both taken modulo what exists).
    pub fn set(&mut self, page: usize, bank: usize)
        requires
            old(self).wf(),
        ensures
            final(self).wf(),
            final(self).data_size == old(self).data_size,
            final(self).bank_size == old(self).bank_size,
            final(self).banks_count == old(self).banks_count,
            final(self).banks.len() == old(self).banks.len(),
            old(self).banks_count == 0 ==> final(self).banks@ == old(self).banks@,
            old(self).banks_count > 0 ==> final(self).banks[(page % old(self).banks.len()) as int]
                == (bank % old(self).banks_count) * old(self).bank_size,
            forall|j: int|
                0 <= j < old(self).banks.len() && j != (page % old(self).banks.len()) as int
                    ==> #[trigger] final(self).banks[j] == old(self).banks[j],
    {
        if self.banks_count == 0 {
            return;
        }
        let pages_count: usize = self.banks.len();
        let base: usize = bank % self.banks_count;
        proof {
            vstd::arithmetic::mul::lemma_mul_inequality(base as int + 1, self.banks_count as int,
                self.bank_size as int);
            vstd::arithmetic::mul::lemma_mul_is_distributive_add_other_way(self.bank_size as int,
                base as int, 1);
        }
        self.banks.set(page % pages_count, base * self.bank_size);
    }

    /// Where address `addr` lands in the banked array: the mapped base of
    /// its page plus the offset within the bank.
    pub open spec fn addr_spec(self, addr: usize) -> int {
        self.banks[((addr / self.bank_size) % self.banks.len()) as int] + (addr % self.bank_size)
    }

    pub fn addr(&self, addr: usize) -> (r: usize)
        requires
            self.wf(),
        ensures
            r == self.addr_spec(addr),
            self.banks_count > 0 ==> r < self.data_size,
    {
        let page: usize = addr / self.bank_size;
        let pages_count: usize = self.banks.len();
        self.banks[page % pages_count] + addr % self.bank_size
    }
}

/// Real-time clock of the MBC3: live registers advanced by the T-clock,
/// and latched copies sampled on a 0-to-1 edge of the latch register.
pub struct Rtc {
    pub seconds: u8,
    pub minutes: u8,
    pub hours: u8,
    /// Day counter, 9 bits.
    pub day: u16,
    pub halted: bool,
    /// Set when the day counter overflows past 511; sticky until written.
    pub carry: bool,
    /// Sub-second accumulator in T-cycles (one second is 4194304 of them).
    pub subsec: u32,
    pub latched_seconds: u8,
    pub latched_minutes: u8,
    pub latched_hours: u8,
    pub latched_day: u16,
    pub latched_halted: bool,
    pub latched_carry: bool,
    /// Last value written to the latch register, for edge detection.
    pub latch_written: u8,
}

impl Rtc {
    pub open spec fn wf(self) -> bool {
        &&& self.subsec < 4194304
    }

    pub fn new() -> (r: Rtc)
        ensures
            r.wf(),
    {
        Rtc {
            seconds: 0,
            minutes: 0,
            hours: 0,
            day: 0,
            halted: false,
            carry: false,
            subsec: 0,
            latched_seconds: 0,
            latched_minutes: 0,
            latched_hours: 0,
            latched_day: 0,
            latched_halted: false,
            latched_carry: false,
            latch_written: 0xFF,
        }
    }

    /// One whole second on the live registers.
    fn advance_second(&mut self)
        ensures
            final(self).wf() == old(self).wf(),
            final(self).subsec == old(self).subsec,
    {
        if self.seconds < 59 {
            self.seconds = self.seconds + 1;
            return;
        }
        self.seconds = 0;
        if self.minutes < 59 {
            self.minutes = self.minutes + 1;
            return;
        }
        self.minutes = 0;
        if self.hours < 23 {
            self.hours = self.hours + 1;
            return;
        }
        self.hours = 0;
        if self.day < 511 {
            self.day = self.day + 1;
        } else {
            self.day = 0;
            self.carry = true;
        }
    }

    /// Advances the live clock by `t` T-cycles unless halted.
    pub fn tick(&mut self, t: u32)
        requires
            old(self).wf(),
            t <= 4,
        ensures
            final(self).wf(),
            old(self).halted ==> *final(self) == *old(self),
    {
        if self.halted {
            return;
        }
        self.subsec = self.subsec + t;
        if self.subsec >= 4194304 {
            self.subsec = self.subsec - 4194304;
            self.advance_second();
        }
    }

    /// Samples the live registers into the latched ones on a 0-to-1 edge.
    pub fn write_latch(&mut self, val: u8)
        requires
            old(self).wf(),
        ensures
            final(self).wf(),
            final(self).latch_written == val,
            old(self).latch_written == 0 && val == 1
                ==> final(self).latched_seconds == old(self).seconds
                && final(self).latched_day == old(self).day,
    {
        if self.latch_written == 0 && val == 1 {
            self.latched_seconds = self.seconds;
            self.latched_minutes = self.minutes;
            self.latched_hours = self.hours;
            self.latched_day = self.day;
            self.latched_halted = self.halted;
            self.latched_carry = self.carry;
        }
        self.latch_written = val;
    }

    /// A read of the RTC register selected by `sel` (0x08..0x0C), from the
    /// latched copies.
    pub open spec fn read_spec(self, sel: u8) -> u8 {
        if sel == 0x08 { self.latched_seconds }
        else if sel == 0x09 { self.latched_minutes }
        else if sel == 0x0A { self.latched_hours }
        else if sel == 0x0B { self.latched_day as u8 }
        else {
            ((self.latched_day >> 8) as u8 & 1) | (if self.latched_halted { 0x40u8 } else { 0u8 })
                | (if self.latched_carry { 0x80u8 } else { 0u8 })
        }
    }

    pub fn read(&self, sel: u8) -> (r: u8)
        ensures
            r == self.read_spec(sel),
    {
        if sel == 0x08 { self.latched_seconds }
        else if sel == 0x09 { self.latched_minutes }
        else if sel == 0x0A { self.latched_hours }
        else if sel == 0x0B { self.latched_day as u8 }
        else {
            ((self.latched_day >> 8) as u8 & 1) | (if self.latched_halted { 0x40u8 } else { 0u8 })
                | (if self.latched_carry { 0x80u8 } else { 0u8 })
        }
    }

    /// A write to the RTC register selected by `sel`, into the live clock.
    pub fn write(&mut self, sel: u8, val: u8)
        requires
            old(self).wf(),
        ensures
            final(self).wf(),
    {
        if sel == 0x08 {
            self.seconds = val & 0x3F;
            self.subsec = 0;
        } else if sel == 0x09 {
            self.minutes = val & 0x3F;
        } else if sel == 0x0A {
            self.hours = val & 0x1F;
        } else if sel == 0x0B {
            self.day = (self.day & 0x100) | (val as u16);
        } else if sel == 0x0C {
            self.day = (self.day & 0xFF) | (((val as u16) & 1) << 8);
            self.halted = val & 0x40 != 0;
            self.carry = val & 0x80 != 0;
        }
    }
}

/// MBC1: 5-bit ROM select (0 reads as 1), 2-bit secondary select that
/// provides ROM bits 5..6 or the RAM bank depending on the mode bit, and a
/// RAM gate opened by writing a value whose low nibble is 0xA.
pub struct Mbc1 {
    pub rom_banks: Banking,
    pub ram_banks: Banking,
    pub rom_select: usize,
    pub ram_select: usize,
    pub ram_enabled: bool,
    pub extended_mode: bool,
}

/// MBC2: 4-bit ROM select; bit 8 of the control-write address selects
/// between the RAM gate and the ROM bank. Its 512-nibble RAM is internal.
pub struct Mbc2 {
    pub rom_banks: Banking,
    pub ram_enabled: bool,
}

/// MBC3: 7-bit ROM select (0 reads as 1), RAM bank or RTC register select,
/// and the RTC latch.
pub struct Mbc3 {
    pub rom_banks: Banking,
    pub ram_banks: Banking,
    pub ram_enabled: bool,
    /// 0 when a RAM bank is selected; 0x08..0x0C when an RTC register is.
    pub rtc_select: u8,
    pub rtc: Rtc,
}

/// MBC5: 9-bit ROM select split across two control registers; bank 0 is
/// selectable.
pub struct Mbc5 {
    pub rom_banks: Banking,
    pub ram_banks: Banking,
    pub ram_enabled: bool,
    pub rom_select: usize,
}

/// The mapper variant set, as a tagged union.
pub enum Mbc {
    NoMbc,
    Mbc1(Mbc1),
    Mbc2(Mbc2),
    Mbc3(Mbc3),
    Mbc5(Mbc5),
}

impl Mbc1 {
    /// Shape of the banking state, without the mode-dependent mapping.
    pub open spec fn wf_base(self) -> bool {
        &&& self.rom_banks.wf()
        &&& self.ram_banks.wf()
        &&& self.rom_banks.banks.len() == 2
        &&& self.ram_banks.banks.len() == 1
        &&& self.rom_banks.bank_size == 16384
        &&& self.ram_banks.bank_size == 8192
        &&& self.rom_select < 32
        &&& self.ram_select < 4
    }

    pub open spec fn wf(self) -> bool {
        &&& self.wf_base()
        &&& !self.extended_mode ==> self.rom_banks.banks[0] == 0
    }

    pub fn new(header: &CartHeader) -> (r: Mbc1)
        requires
            header.rom_size == header.rom_banks * 16384,
            header.ram_size == header.ram_banks * 8192,
            header.rom_banks >= 2,
        ensures
            r.wf(),
            r.rom_banks.data_size == header.rom_size,
            r.ram_banks.data_size == header.ram_size,
            !r.extended_mode,
            !r.ram_enabled,
    {
        let mut rom_banks = Banking::new_rom(header, 2);
        let ram_banks = Banking::new_ram(header);
        rom_banks.set(1, 1);
        proof {
            assert((1 as usize) % rom_banks.banks.len() == 1);
            assert(rom_banks.banks[0] == 0);
        }
        Mbc1 {
            rom_banks,
            ram_banks,
            ram_enabled: false,
            extended_mode: false,
            rom_select: 1,
            ram_select: 0,
        }
    }

    /// Re-derives the three mapped banks from the select registers and the
    /// mode bit. In mode 0 the lower ROM half and the RAM stay on bank 0.
    pub fn update_banks(&mut self)
        requires
            old(self).wf_base(),
        ensures
            final(self).wf(),
            final(self).rom_banks.data_size == old(self).rom_banks.data_size,
            final(self).ram_banks.data_size == old(self).ram_banks.data_size,
            final(self).ram_enabled == old(self).ram_enabled,
            final(self).extended_mode == old(self).extended_mode,
            final(self).rom_select == old(self).rom_select,
            final(self).ram_select == old(self).ram_select,
    {
        let ext_rom_bank: usize = self.ram_select * 32;
        let base0: usize = if self.extended_mode { ext_rom_bank } else { 0 };
        proof {
            vstd::arithmetic::mul::lemma_mul_basics(self.rom_banks.bank_size as int);
        }
        self.rom_banks.set(0, base0);
        proof {
            if !self.extended_mode {
                if self.rom_banks.banks_count > 0 {
                    vstd::arithmetic::div_mod::lemma_small_mod(0nat,
                        self.rom_banks.banks_count as nat);
                }
                assert(self.rom_banks.banks[0] == 0);
            }
        }
        self.rom_banks.set(1, ext_rom_bank + self.rom_select);
        proof {
            if !self.extended_mode {
                assert(self.rom_banks.banks[0] == 0);
            }
        }
        let ram_base: usize = if self.extended_mode { self.ram_select } else { 0 };
        self.ram_banks.set(0, ram_base);
        proof {
            if !self.extended_mode {
                assert(self.rom_banks.banks[0] == 0);
            }
            assert(self.wf_base());
        }
    }

    /// Bank-control command. The 5-bit ROM select clamps 0 to 1, so banks
    /// 0x00/0x20/0x40/0x60 cannot be mapped into the upper half.
    pub fn rom_write(&mut self, addr: u16, val: u8)
        requires
            old(self).wf(),
            addr < 0x8000,
        ensures
            final(self).wf(),
            final(self).rom_banks.data_size == old(self).rom_banks.data_size,
            final(self).ram_banks.data_size == old(self).ram_banks.data_size,
            addr < 0x2000 ==> final(self).ram_enabled == (val & 0x0F == 0x0A),
            0x2000 <= addr < 0x4000 ==> final(self).rom_select == (if val & 0x1F == 0 {
                1u8
            } else {
                val & 0x1F
            }),
            0x6000 <= addr < 0x8000 ==> final(self).extended_mode == (val & 1 != 0),
    {
        if addr < 0x2000 {
            self.ram_enabled = val & 0x0F == 0x0A;
        } else if addr < 0x4000 {
            let s: u8 = val & 0x1F;
            proof {
                crate::lemma_u8_fields(val);
            }
            self.rom_select = if s == 0 { 1 } else { s as usize };
            self.update_banks();
        } else if addr < 0x6000 {
            proof {
                crate::lemma_u8_fields(val);
            }
            self.ram_select = (val & 3) as usize;
            self.update_banks();
        } else {
            self.extended_mode = val & 1 != 0;
            self.update_banks();
        }
    }
}

impl Mbc2 {
    pub open spec fn wf(self) -> bool {
        &&& self.rom_banks.wf()
        &&& self.rom_banks.banks.len() == 2
        &&& self.rom_banks.bank_size == 16384
    }

    pub fn new(header: &CartHeader) -> (r: Mbc2)
        requires
            header.rom_size == header.rom_banks * 16384,
        ensures
            r.wf(),
            r.rom_banks.data_size == header.rom_size,
            !r.ram_enabled,
    {
        let mut rom_banks = Banking::new_rom(header, 2);
        rom_banks.set(1, 1);
        Mbc2 { rom_banks, ram_enabled: false }
    }

    /// Bit 8 of the control-write address picks the register: RAM gate when
    /// clear, 4-bit ROM select (0 clamps to 1) when set.
    pub fn rom_write(&mut self, addr: u16, val: u8)
        requires
            old(self).wf(),
        ensures
            final(self).wf(),
            final(self).rom_banks.data_size == old(self).rom_banks.data_size,
    {
        if addr < 0x4000 {
            if (addr >> 8) & 1 == 0 {
                self.ram_enabled = val == 0x0A;
            } else {
                let s: u8 = val & 0x0F;
                let bank: usize = if s == 0 { 1 } else { s as usize };
                self.rom_banks.set(1, bank);
            }
        }
    }
}

impl Mbc3 {
    pub open spec fn wf(self) -> bool {
        &&& self.rom_banks.wf()
        &&& self.ram_banks.wf()
        &&& self.rom_banks.banks.len() == 2
        &&& self.ram_banks.banks.len() == 1
        &&& self.rom_banks.bank_size == 16384
        &&& self.ram_banks.bank_size == 8192
        &&& self.rtc.wf()
        &&& self.rtc_select == 0 || (0x08 <= self.rtc_select <= 0x0C)
    }

    pub fn new(header: &CartHeader) -> (r: Mbc3)
        requires
            header.rom_size == header.rom_banks * 16384,
            header.ram_size == header.ram_banks * 8192,
        ensures
            r.wf(),
            r.rom_banks.data_size == header.rom_size,
            r.ram_banks.data_size == header.ram_size,
            !r.ram_enabled,
    {
        let mut rom_banks = Banking::new_rom(header, 2);
        let ram_banks = Banking::new_ram(header);
        rom_banks.set(1, 1);
        Mbc3 { rom_banks, ram_banks, ram_enabled: false, rtc_select: 0, rtc: Rtc::new() }
    }

    /// Bank-control command: the 7-bit ROM select clamps 0 to 1; the
    /// secondary register selects a RAM bank or, for 0x08..0x0C, an RTC
    /// register; the last range is the RTC latch.
    pub fn rom_write(&mut self, addr: u16, val: u8)
        requires
            old(self).wf(),
            addr < 0x8000,
        ensures
            final(self).wf(),
            final(self).rom_banks.data_size == old(self).rom_banks.data_size,
            final(self).ram_banks.data_size == old(self).ram_banks.data_size,
            addr < 0x2000 ==> final(self).ram_enabled == (val == 0x0A),
    {
        if addr < 0x2000 {
            self.ram_enabled = val == 0x0A;
        } else if addr < 0x4000 {
            let s: u8 = val & 0x7F;
            let bank: usize = if s == 0 { 1 } else { s as usize };
            self.rom_banks.set(1, bank);
        } else if addr < 0x6000 {
            if 0x08 <= val && val <= 0x0C {
                self.rtc_select = val;
            } else {
                proof {
                    crate::lemma_u8_fields(val);
                }
                self.ram_banks.set(0, (val & 3) as usize);
                self.rtc_select = 0;
            }
        } else {
            self.rtc.write_latch(val);
        }
    }
}

impl Mbc5 {
    pub open spec fn wf(self) -> bool {
        &&& self.rom_banks.wf()
        &&& self.ram_banks.wf()
        &&& self.rom_banks.banks.len() == 2
        &&& self.ram_banks.banks.len() == 1
        &&& self.rom_banks.bank_size == 16384
        &&& self.ram_banks.bank_size == 8192
        &&& self.rom_select < 512
    }

    pub fn new(header: &CartHeader) -> (r: Mbc5)
        requires
            header.rom_size == header.rom_banks * 16384,
            header.ram_size == header.ram_banks * 8192,
        ensures
            r.wf(),
            r.rom_banks.data_size == header.rom_size,
            r.ram_banks.data_size == header.ram_size,
            !r.ram_enabled,
    {
        let mut rom_banks = Banking::new_rom(header, 2);
        let ram_banks = Banking::new_ram(header);
        rom_banks.set(1, 1);
        Mbc5 { rom_banks, ram_banks, ram_enabled: false, rom_select: 1 }
    }

    /// Bank-control command: the 9-bit ROM select is split across the two
    /// middle ranges; bank 0 is selectable.
    pub fn rom_write(&mut self, addr: u16, val: u8)
        requires
            old(self).wf(),
            addr < 0x8000,
        ensures
            final(self).wf(),
            final(self).rom_banks.data_size == old(self).rom_banks.data_size,
            final(self).ram_banks.data_size == old(self).ram_banks.data_size,
            addr < 0x2000 ==> final(self).ram_enabled == (val == 0x0A),
            0x2000 <= addr < 0x3000 ==> final(self).rom_select == (old(self).rom_select / 256)
                * 256 + val,
            0x3000 <= addr < 0x4000 ==> final(self).rom_select == old(self).rom_select % 256 + (
            if val & 1 != 0 {
                256int
            } else {
                0int
            }),
    {
        if addr < 0x2000 {
            self.ram_enabled = val == 0x0A;
        } else if addr < 0x3000 {
            self.rom_select = (self.rom_select / 256) * 256 + (val as usize);
            self.rom_banks.set(1, self.rom_select);
        } else if addr < 0x4000 {
            let high: usize = if val & 1 != 0 { 256 } else { 0 };
            self.rom_select = self.rom_select % 256 + high;
            self.rom_banks.set(1, self.rom_select);
        } else if addr < 0x6000 {
            proof {
                crate::lemma_u8_fields(val);
            }
            self.ram_banks.set(0, (val & 0x0F) as usize);
        }
    }
}

impl Mbc {
    pub open spec fn wf(self) -> bool {
        match self {
            Mbc::NoMbc => true,
            Mbc::Mbc1(m) => m.wf(),
            Mbc::Mbc2(m) => m.wf(),
            Mbc::Mbc3(m) => m.wf(),
            Mbc::Mbc5(m) => m.wf(),
        }
    }
}

/// Builds the mapper for a parsed header. Fails exactly on feature codes
/// outside the supported variant set.
pub fn get_mbc(header: &CartHeader) -> (r: Result<Mbc, &'static str>)
    requires
        header.rom_size == header.rom_banks * 16384,
        header.ram_size == header.ram_banks * 8192,
        header.rom_banks >= 2,
    ensures
        r.is_ok() <==> mbc_supported(header.mapper_code),
        r matches Ok(m) ==> m.wf() && match m {
            Mbc::NoMbc => true,
            Mbc::Mbc1(x) => x.rom_banks.data_size == header.rom_size && x.ram_banks.data_size
                == header.ram_size,
            Mbc::Mbc2(x) => x.rom_banks.data_size == header.rom_size,
            Mbc::Mbc3(x) => x.rom_banks.data_size == header.rom_size && x.ram_banks.data_size
                == header.ram_size,
            Mbc::Mbc5(x) => x.rom_banks.data_size == header.rom_size && x.ram_banks.data_size
                == header.ram_size,
        },
{
    let code: u8 = header.mapper_code;
    if code == 0x00 || code == 0x08 || code == 0x09 {
        Ok(Mbc::NoMbc)
    } else if code == 0x01 || code == 0x02 || code == 0x03 {
        Ok(Mbc::Mbc1(Mbc1::new(header)))
    } else if code == 0x05 || code == 0x06 {
        Ok(Mbc::Mbc2(Mbc2::new(header)))
    } else if 0x0F <= code && code <= 0x13 {
        Ok(Mbc::Mbc3(Mbc3::new(header)))
    } else if 0x19 <= code && code <= 0x1E {
        Ok(Mbc::Mbc5(Mbc5::new(header)))
    } else {
        Err("Mapper not implemented")
    }
}

/// The feature codes whose mapper this core implements.
pub open spec fn mbc_supported(code: u8) -> bool {
    code <= 0x03 || code == 0x05 || code == 0x06 || code == 0x08 || code == 0x09 || (0x0F <= code
        && code <= 0x13) || (0x19 <= code && code <= 0x1E)
}

/// A loaded cartridge: the parsed header, the immutable ROM image, the
/// external RAM (or the MBC2's internal 512 bytes), and the mapper state.
pub struct Cart {
    pub header: CartHeader,
    pub rom: Vec<u8>,
    pub exram: Vec<u8>,
    pub mbc: Mbc,
}

impl Cart {
    pub open spec fn wf(self) -> bool {
        &&& self.header.rom_banks >= 2
        &&& self.rom.len() == self.header.rom_banks * 16384
        &&& self.rom.len() >= 32768
        &&& self.mbc.wf()
        &&& match self.mbc {
            Mbc::NoMbc => true,
            Mbc::Mbc1(m) => m.rom_banks.data_size == self.rom.len() && m.ram_banks.data_size
                == self.exram.len(),
            Mbc::Mbc2(m) => m.rom_banks.data_size == self.rom.len() && self.exram.len() == 512,
            Mbc::Mbc3(m) => m.rom_banks.data_size == self.rom.len() && m.ram_banks.data_size
                == self.exram.len(),
            Mbc::Mbc5(m) => m.rom_banks.data_size == self.rom.len() && m.ram_banks.data_size
                == self.exram.len(),
        }
    }

    /// Builds a cartridge from a ROM image. Fails exactly when the header
    /// is invalid, the mapper is unsupported, or the image size does not
    /// match the size the header declares.
    pub fn new(rom_bytes: &[u8]) -> (r: Result<Cart, &'static str>)
        ensures
            r.is_ok() <==> crate::cart::header_valid(rom_bytes@) && mbc_supported(
                rom_bytes@[0x147],
            ) && rom_bytes@.len() == crate::cart::rom_banks_spec(rom_bytes@[0x148]) * 16384,
            r matches Ok(c) ==> c.wf() && c.rom@ == rom_bytes@ && c.header.matches(rom_bytes@),
    {
        let header = match CartHeader::new(rom_bytes) {
            Ok(h) => h,
            Err(e) => {
                return Err(e);
            },
        };
        let mbc = match get_mbc(&header) {
            Ok(m) => m,
            Err(e) => {
                return Err(e);
            },
        };
        if rom_bytes.len() != header.rom_size {
            return Err("Rom image size does not match its header");
        }
        let exram_len: usize = match &mbc {
            Mbc::Mbc2(_) => 512,
            _ => header.ram_size,
        };
        let mut exram: Vec<u8> = Vec::new();
        let mut i: usize = 0;
        while i < exram_len
            invariant
                i <= exram_len,
                exram.len() == i,
            decreases exram_len - i,
        {
            exram.push(0xFF);
            i = i + 1;
        }
        let rom: Vec<u8> = vstd::slice::slice_to_vec(rom_bytes);
        proof {
            vstd::arithmetic::mul::lemma_mul_inequality(2, header.rom_banks as int, 16384);
        }
        Ok(Cart { header, rom, exram, mbc })
    }

    /// Where a CPU address 0x0000..0x7FFF lands in the ROM image.
    pub open spec fn rom_addr_spec(self, addr: u16) -> int {
        match self.mbc {
            Mbc::NoMbc => addr as int,
            Mbc::Mbc1(m) => m.rom_banks.addr_spec(addr as usize),
            Mbc::Mbc2(m) => m.rom_banks.addr_spec(addr as usize),
            Mbc::Mbc3(m) => m.rom_banks.addr_spec(addr as usize),
            Mbc::Mbc5(m) => m.rom_banks.addr_spec(addr as usize),
        }
    }

    /// The ROM bank count is positive whenever the cartridge is well
    /// formed: its image holds at least two banks.
    proof fn lemma_rom_banks_positive(self)
        requires
            self.wf(),
        ensures
            match self.mbc {
                Mbc::NoMbc => true,
                Mbc::Mbc1(m) => m.rom_banks.banks_count > 0,
                Mbc::Mbc2(m) => m.rom_banks.banks_count > 0,
                Mbc::Mbc3(m) => m.rom_banks.banks_count > 0,
                Mbc::Mbc5(m) => m.rom_banks.banks_count > 0,
            },
    {
        match self.mbc {
            Mbc::NoMbc => {},
            Mbc::Mbc1(m) => {
                vstd::arithmetic::mul::lemma_mul_basics(m.rom_banks.bank_size as int);
            },
            Mbc::Mbc2(m) => {
                vstd::arithmetic::mul::lemma_mul_basics(m.rom_banks.bank_size as int);
            },
            Mbc::Mbc3(m) => {
                vstd::arithmetic::mul::lemma_mul_basics(m.rom_banks.bank_size as int);
            },
            Mbc::Mbc5(m) => {
                vstd::arithmetic::mul::lemma_mul_basics(m.rom_banks.bank_size as int);
            },
        }
    }

    /// Reads a byte of cartridge ROM through the mapped banks.
    ///
    /// With an MBC1 in mode 0, a read of 0x0000..0x3FFF always returns
    /// bank-0 data, regardless of the ROM select register.
    pub fn rom_read(&self, addr: u16) -> (r: u8)
        requires
            self.wf(),
            addr < 0x8000,
        ensures
            r == self.rom[self.rom_addr_spec(addr)],
            (match self.mbc {
                Mbc::Mbc1(m) => !m.extended_mode && addr < 0x4000,
                _ => false,
            }) ==> r == self.rom[addr as int],
    {
        proof {
            self.lemma_rom_banks_positive();
        }
        match &self.mbc {
            Mbc::NoMbc => self.rom[addr as usize],
            Mbc::Mbc1(m) => {
                proof {
                    if !m.extended_mode && addr < 0x4000 {
                        assert(addr as usize / 16384 == 0 && addr as usize % 16384 == addr)
                            by (nonlinear_arith)
                            requires
                                addr < 0x4000,
                        ;
                        assert((0 as usize) % m.rom_banks.banks.len() == 0);
                    }
                }
                self.rom[m.rom_banks.addr(addr as usize)]
            },
            Mbc::Mbc2(m) => self.rom[m.rom_banks.addr(addr as usize)],
            Mbc::Mbc3(m) => self.rom[m.rom_banks.addr(addr as usize)],
            Mbc::Mbc5(m) => self.rom[m.rom_banks.addr(addr as usize)],
        }
    }

    /// A write to the ROM range is a bank-control command for the mapper.
    pub fn rom_write(&mut self, addr: u16, val: u8)
        requires
            old(self).wf(),
            addr < 0x8000,
        ensures
            final(self).wf(),
            final(self).rom == old(self).rom,
            final(self).exram == old(self).exram,
            final(self).header == old(self).header,
            (old(self).mbc matches Mbc::Mbc1(m0) && 0x6000 <= addr) ==> (final(self).mbc matches
                Mbc::Mbc1(m1) && m1.extended_mode == (val & 1 != 0)),
            (old(self).mbc matches Mbc::Mbc1(m0) && addr < 0x2000) ==> (final(self).mbc matches
                Mbc::Mbc1(m1) && m1.ram_enabled == (val & 0x0F == 0x0A)),
            (old(self).mbc matches Mbc::Mbc1(m0) && 0x2000 <= addr < 0x4000) ==> (final(self).mbc
                matches Mbc::Mbc1(m1) && m1.rom_select == (if val & 0x1F == 0 {
                1int
            } else {
                (val & 0x1F) as int
            })),
            (old(self).mbc matches Mbc::Mbc5(m0) && addr < 0x2000) ==> (final(self).mbc matches
                Mbc::Mbc5(m1) && m1.ram_enabled == (val == 0x0A)),
            old(self).mbc is Mbc5 && 0x2000 <= addr < 0x3000 ==> (final(self).mbc
                matches Mbc::Mbc5(m1) && m1.rom_select == (old(self).mbc->Mbc5_0.rom_select
                / 256) * 256 + val),
            old(self).mbc is Mbc5 && 0x3000 <= addr < 0x4000 ==> (final(self).mbc
                matches Mbc::Mbc5(m1) && m1.rom_select == old(self).mbc->Mbc5_0.rom_select % 256
                + (if val & 1 != 0 {
                256int
            } else {
                0int
            })),
            (old(self).mbc matches Mbc::Mbc3(m0) && addr < 0x2000) ==> (final(self).mbc matches
                Mbc::Mbc3(m1) && m1.ram_enabled == (val == 0x0A)),
            old(self).mbc == Mbc::NoMbc ==> *final(self) == *old(self),
    {
        match &mut self.mbc {
            Mbc::NoMbc => {},
            Mbc::Mbc1(m) => m.rom_write(addr, val),
            Mbc::Mbc2(m) => m.rom_write(addr, val),
            Mbc::Mbc3(m) => m.rom_write(addr, val),
            Mbc::Mbc5(m) => m.rom_write(addr, val),
        }
    }

    /// What a read of external RAM at offset `addr` (0x0000..0x1FFF within
    /// the 0xA000 window) returns: 0xFF when RAM is disabled or nothing
    /// is mapped, the selected RTC register on an MBC3 with one selected,
    /// and the banked RAM byte otherwise (MBC2 reads carry the upper nibble
    /// set).
    pub open spec fn ram_read_spec(self, addr: u16) -> u8 {
        match self.mbc {
            Mbc::NoMbc => if addr < self.exram.len() {
                self.exram[addr as int]
            } else {
                0xFFu8
            },
            Mbc::Mbc1(m) => if m.ram_enabled && m.ram_banks.banks_count > 0 {
                self.exram[m.ram_banks.addr_spec(addr as usize)]
            } else {
                0xFFu8
            },
            Mbc::Mbc2(m) => if m.ram_enabled {
                self.exram[(addr % 512) as int] | 0xF0u8
            } else {
                0xFFu8
            },
            Mbc::Mbc3(m) => if !m.ram_enabled {
                0xFFu8
            } else if m.rtc_select != 0 {
                m.rtc.read_spec(m.rtc_select)
            } else if m.ram_banks.banks_count > 0 {
                self.exram[m.ram_banks.addr_spec(addr as usize)]
            } else {
                0xFFu8
            },
            Mbc::Mbc5(m) => if m.ram_enabled && m.ram_banks.banks_count > 0 {
                self.exram[m.ram_banks.addr_spec(addr as usize)]
            } else {
                0xFFu8
            },
        }
    }

    /// Reads a byte of external RAM (or an RTC register), if enabled.
    pub fn ram_read(&self, addr: u16) -> (r: u8)
        requires
            self.wf(),
            addr < 0x2000,
        ensures
            r == self.ram_read_spec(addr),
    {
        match &self.mbc {
            Mbc::NoMbc => {
                if (addr as usize) < self.exram.len() {
                    self.exram[addr as usize]
                } else {
                    0xFF
                }
            },
            Mbc::Mbc1(m) => {
                if m.ram_enabled && m.ram_banks.banks_count > 0 {
                    self.exram[m.ram_banks.addr(addr as usize)]
                } else {
                    0xFF
                }
            },
            Mbc::Mbc2(m) => {
                if m.ram_enabled {
                    self.exram[(addr % 512) as usize] | 0xF0
                } else {
                    0xFF
                }
            },
            Mbc::Mbc3(m) => {
                if !m.ram_enabled {
                    0xFF
                } else if m.rtc_select != 0 {
                    m.rtc.read(m.rtc_select)
                } else if m.ram_banks.banks_count > 0 {
                    self.exram[m.ram_banks.addr(addr as usize)]
                } else {
                    0xFF
                }
            },
            Mbc::Mbc5(m) => {
                if m.ram_enabled && m.ram_banks.banks_count > 0 {
                    self.exram[m.ram_banks.addr(addr as usize)]
                } else {
                    0xFF
                }
            },
        }
    }

    /// The external RAM contents after a write at offset `addr`: unchanged
    /// when RAM is disabled, nothing is mapped, or an RTC register is
    /// selected.
    pub open spec fn ram_write_spec(self, addr: u16, val: u8) -> Seq<u8> {
        match self.mbc {
            Mbc::NoMbc => if addr < self.exram.len() {
                self.exram@.update(addr as int, val)
            } else {
                self.exram@
            },
            Mbc::Mbc1(m) => if m.ram_enabled && m.ram_banks.banks_count > 0 {
                self.exram@.update(m.ram_banks.addr_spec(addr as usize), val)
            } else {
                self.exram@
            },
            Mbc::Mbc2(m) => if m.ram_enabled {
                self.exram@.update((addr % 512) as int, val | 0xF0u8)
            } else {
                self.exram@
            },
            Mbc::Mbc3(m) => if !m.ram_enabled || m.rtc_select != 0 || m.ram_banks.banks_count
                == 0 {
                self.exram@
            } else {
                self.exram@.update(m.ram_banks.addr_spec(addr as usize), val)
            },
            Mbc::Mbc5(m) => if m.ram_enabled && m.ram_banks.banks_count > 0 {
                self.exram@.update(m.ram_banks.addr_spec(addr as usize), val)
            } else {
                self.exram@
            },
        }
    }

    /// Writes a byte of external RAM (or an RTC register), if enabled.
    pub fn ram_write(&mut self, addr: u16, val: u8)
        requires
            old(self).wf(),
            addr < 0x2000,
        ensures
            final(self).wf(),
            final(self).rom == old(self).rom,
            final(self).header == old(self).header,
            final(self).exram@ == old(self).ram_write_spec(addr, val),
    {
        match &mut self.mbc {
            Mbc::NoMbc => {
                if (addr as usize) < self.exram.len() {
                    self.exram.set(addr as usize, val);
                }
            },
            Mbc::Mbc1(m) => {
                if m.ram_enabled && m.ram_banks.banks_count > 0 {
                    let a: usize = m.ram_banks.addr(addr as usize);
                    self.exram.set(a, val);
                }
            },
            Mbc::Mbc2(m) => {
                if m.ram_enabled {
                    self.exram.set((addr % 512) as usize, val | 0xF0);
                }
            },
            Mbc::Mbc3(m) => {
                if m.ram_enabled && m.rtc_select != 0 {
                    m.rtc.write(m.rtc_select, val);
                } else if m.ram_enabled && m.ram_banks.banks_count > 0 {
                    let a: usize = m.ram_banks.addr(addr as usize);
                    self.exram.set(a, val);
                }
            },
            Mbc::Mbc5(m) => {
                if m.ram_enabled && m.ram_banks.banks_count > 0 {
                    let a: usize = m.ram_banks.addr(addr as usize);
                    self.exram.set(a, val);
                }
            },
        }
    }

    /// Advances cartridge-local time by `t` T-cycles (the MBC3's clock).
    pub fn tick(&mut self, t: u32)
        requires
            old(self).wf(),
            t <= 4,
        ensures
            final(self).wf(),
            final(self).rom == old(self).rom,
            final(self).exram == old(self).exram,
            final(self).header == old(self).header,
    {
        match &mut self.mbc {
            Mbc::Mbc3(m) => m.rtc.tick(t),
            _ => {},
        }
    }
}

} // verus!
