//! Cartridge header parsing: the standard header at 0x100..0x14F. The
//! loader validates the 48-byte boot logo at 0x104..0x133 and the 8-bit
//! header checksum at 0x14D (each byte of 0x134..0x14C subtracted along
//! with one more, starting from zero), and reads the mapper code, ROM size
//! and RAM size fields.

use vstd::prelude::*;

verus! {

/// The color-capability byte at 0x143.
#[derive(Clone, Copy, PartialEq, Eq, Structural, Debug)]
pub enum CgbMode {
    Monochrome,
    CgbEnhanced,
    ColorOnly,
}

/// The destination byte at 0x14A.
#[derive(Clone, Copy, PartialEq, Eq, Structural, Debug)]
pub enum Region {
    Japan,
    Overseas,
}

/// Parsed cartridge header.
pub struct CartHeader {
    /// Mapper/feature code at 0x147.
    pub mapper_code: u8,
    /// Printable bytes of the title field at 0x134..0x143.
    pub title: Vec<u8>,
    pub cgb_mode: CgbMode,
    pub sgb_support: bool,
    pub region: Region,
    /// Number of 16 KiB ROM banks, from the size code at 0x148.
    pub rom_banks: usize,
    /// ROM size in bytes.
    pub rom_size: usize,
    /// Number of 8 KiB external RAM banks, from the size code at 0x149.
    pub ram_banks: usize,
    /// External RAM size in bytes.
    pub ram_size: usize,
    pub has_battery: bool,
    pub version: u8,
    pub checksum: u8,
}

/// Byte `i` of the 48-byte logo that the header must carry at 0x104.
pub open spec fn logo_seq() -> Seq<u8> {
    seq![
        0xCEu8, 0xED, 0x66, 0x66, 0xCC, 0x0D, 0x00, 0x0B, 0x03, 0x73, 0x00, 0x83, 0x00, 0x0C,
        0x00, 0x0D, 0x00, 0x08, 0x11, 0x1F, 0x88, 0x89, 0x00, 0x0E, 0xDC, 0xCC, 0x6E, 0xE6,
        0xDD, 0xDD, 0xD9, 0x99, 0xBB, 0xBB, 0x67, 0x63, 0x6E, 0x0E, 0xEC, 0xCC, 0xDD, 0xDC,
        0x99, 0x9F, 0xBB, 0xB9, 0x33, 0x3E,
    ]
}

/// Executable table of the logo bytes.
pub fn logo_byte(i: usize) -> (r: u8)
    requires
        i < 48,
    ensures
        r == logo_seq()[i as int],
{
    let logo: [u8; 48] = [
        0xCE, 0xED, 0x66, 0x66, 0xCC, 0x0D, 0x00, 0x0B, 0x03, 0x73, 0x00, 0x83, 0x00, 0x0C,
        0x00, 0x0D, 0x00, 0x08, 0x11, 0x1F, 0x88, 0x89, 0x00, 0x0E, 0xDC, 0xCC, 0x6E, 0xE6,
        0xDD, 0xDD, 0xD9, 0x99, 0xBB, 0xBB, 0x67, 0x63, 0x6E, 0x0E, 0xEC, 0xCC, 0xDD, 0xDC,
        0x99, 0x9F, 0xBB, 0xB9, 0x33, 0x3E,
    ];
    logo[i]
}

/// Whether the image carries the boot logo at 0x104..0x133.
pub open spec fn logo_ok(rom: Seq<u8>) -> bool {
    &&& rom.len() >= 0x14F
    &&& forall|i: int| 0 <= i < 48 ==> rom[0x104 + i] == #[trigger] logo_seq()[i]
}

/// A ROM image is recognized by its length and the logo bytes.
pub fn is_gb_rom(bytes: &[u8]) -> (r: bool)
    ensures
        r == logo_ok(bytes@),
{
    if bytes.len() < 0x14F {
        return false;
    }
    let mut i: usize = 0;
    while i < 48
        invariant
            i <= 48,
            bytes@.len() >= 0x14F,
            forall|j: int| 0 <= j < i ==> bytes@[0x104 + j] == #[trigger] logo_seq()[j],
        decreases 48 - i,
    {
        if bytes[0x104 + i] != logo_byte(i) {
            return false;
        }
        i = i + 1;
    }
    true
}

/// ROM bank count for the size code at 0x148; 0 marks an invalid code.
pub open spec fn rom_banks_spec(code: u8) -> nat {
    if code == 0x00 { 2nat } else if code == 0x01 { 4nat } else if code == 0x02 { 8nat }
    else if code == 0x03 { 16nat } else if code == 0x04 { 32nat } else if code == 0x05 { 64nat }
    else if code == 0x06 { 128nat } else if code == 0x07 { 256nat } else if code == 0x08 {
        512nat
    } else if code == 0x52 { 72nat } else if code == 0x53 { 80nat } else if code == 0x54 {
        96nat
    } else { 0nat }
}

/// RAM bank count for the size code at 0x149; codes 0 and 1 mean no RAM,
/// anything above 5 is invalid (marked by returning 99).
pub open spec fn ram_banks_spec(code: u8) -> nat {
    if code == 0x00 { 0nat } else if code == 0x01 { 0nat } else if code == 0x02 { 1nat }
    else if code == 0x03 { 4nat } else if code == 0x04 { 16nat } else if code == 0x05 { 8nat }
    else { 99nat }
}

pub open spec fn ram_code_valid(code: u8) -> bool {
    code <= 0x05
}

/// The feature codes whose cartridge type carries a battery.
pub open spec fn battery_spec(code: u8) -> bool {
    code == 0x03 || code == 0x06 || code == 0x09 || code == 0x0D || code == 0x0F || code == 0x10
        || code == 0x13 || code == 0x1B || code == 0x1E || code == 0x22 || code == 0xFF
}

/// The mapper codes the header tables know at all.
pub open spec fn mapper_code_known(code: u8) -> bool {
    code <= 0x03 || code == 0x05 || code == 0x06 || code == 0x08 || code == 0x09
        || (0x0B <= code && code <= 0x13 && code != 0x0E) || (0x19 <= code && code <= 0x1E)
        || code == 0x20 || code == 0x22 || code == 0xFC || code == 0xFD || code == 0xFE
        || code == 0xFF
}

/// Header checksum over 0x134..n, starting from 0: each byte is subtracted
/// and then one more, with 8-bit wrap-around.
pub open spec fn checksum_upto(rom: Seq<u8>, n: int) -> u8
    decreases n,
{
    if n <= 0x134 {
        0u8
    } else {
        vstd::wrapping::u8_specs::wrapping_sub(
            vstd::wrapping::u8_specs::wrapping_sub(checksum_upto(rom, n - 1), rom[n - 1]),
            1,
        )
    }
}

/// Whether the stored checksum at 0x14D matches the computed one.
pub open spec fn checksum_ok(rom: Seq<u8>) -> bool {
    checksum_upto(rom, 0x14D) == rom[0x14D]
}

/// Everything `CartHeader::new` accepts: enough bytes, the logo, known
/// mapper and size codes, and a matching checksum.
pub open spec fn header_valid(rom: Seq<u8>) -> bool {
    &&& rom.len() >= 0x14F
    &&& logo_ok(rom)
    &&& mapper_code_known(rom[0x147])
    &&& rom_banks_spec(rom[0x148]) > 0
    &&& ram_code_valid(rom[0x149])
    &&& checksum_ok(rom)
}

impl CartHeader {
    /// The parsed fields agree with the header bytes.
    pub open spec fn matches(self, rom: Seq<u8>) -> bool {
        &&& self.mapper_code == rom[0x147]
        &&& self.rom_banks == rom_banks_spec(rom[0x148])
        &&& self.rom_size == self.rom_banks * 16384
        &&& self.ram_banks == ram_banks_spec(rom[0x149])
        &&& self.ram_size == self.ram_banks * 8192
        &&& self.has_battery == battery_spec(rom[0x147])
        &&& self.version == rom[0x14C]
        &&& self.checksum == rom[0x14D]
        &&& self.rom_banks >= 2
    }

    /// Parses and validates a header. Returns an error exactly when the
    /// image is too small, the logo is absent, the mapper or a size code is
    /// unknown, or the checksum does not match.
    pub fn new(bytes: &[u8]) -> (r: Result<CartHeader, &'static str>)
        ensures
            r.is_ok() <==> header_valid(bytes@),
            r matches Ok(h) ==> h.matches(bytes@),
    {
        if bytes.len() < 0x14F {
            return Err("Rom file is too small");
        }
        if !is_gb_rom(bytes) {
            return Err("Nintendo logo not found");
        }
        let mut title: Vec<u8> = Vec::new();
        let mut ti: usize = 0x134;
        while ti < 0x143
            invariant
                0x134 <= ti <= 0x143,
                bytes@.len() >= 0x14F,
            decreases 0x143 - ti,
        {
            let b: u8 = bytes[ti];
            if 0x20 <= b && b < 0x7F {
                title.push(b);
            }
            ti = ti + 1;
        }

        let cgb_mode = if bytes[0x143] == 0x80 {
            CgbMode::CgbEnhanced
        } else if bytes[0x143] == 0xC0 {
            CgbMode::ColorOnly
        } else {
            CgbMode::Monochrome
        };
        let sgb_support = bytes[0x146] != 0;

        let mapper_code: u8 = bytes[0x147];
        if !(mapper_code <= 0x03 || mapper_code == 0x05 || mapper_code == 0x06
            || mapper_code == 0x08 || mapper_code == 0x09
            || (0x0B <= mapper_code && mapper_code <= 0x13 && mapper_code != 0x0E)
            || (0x19 <= mapper_code && mapper_code <= 0x1E) || mapper_code == 0x20
            || mapper_code == 0x22 || mapper_code == 0xFC || mapper_code == 0xFD
            || mapper_code == 0xFE || mapper_code == 0xFF) {
            return Err("Invalid cart type");
        }
        let has_battery = mapper_code == 0x03 || mapper_code == 0x06 || mapper_code == 0x09
            || mapper_code == 0x0D || mapper_code == 0x0F || mapper_code == 0x10
            || mapper_code == 0x13 || mapper_code == 0x1B || mapper_code == 0x1E
            || mapper_code == 0x22 || mapper_code == 0xFF;

        let rom_size_id: u8 = bytes[0x148];
        let rom_banks: usize = if rom_size_id == 0x00 { 2 } else if rom_size_id == 0x01 { 4 }
        else if rom_size_id == 0x02 { 8 } else if rom_size_id == 0x03 { 16 }
        else if rom_size_id == 0x04 { 32 } else if rom_size_id == 0x05 { 64 }
        else if rom_size_id == 0x06 { 128 } else if rom_size_id == 0x07 { 256 }
        else if rom_size_id == 0x08 { 512 } else if rom_size_id == 0x52 { 72 }
        else if rom_size_id == 0x53 { 80 } else if rom_size_id == 0x54 { 96 } else { 0 };
        if rom_banks == 0 {
            return Err("Invalid ROM size");
        }
        let rom_size: usize = 16384 * rom_banks;

        let ram_size_id: u8 = bytes[0x149];
        if ram_size_id > 0x05 {
            return Err("Invalid RAM size");
        }
        let ram_banks: usize = if ram_size_id == 0x02 { 1 } else if ram_size_id == 0x03 { 4 }
        else if ram_size_id == 0x04 { 16 } else if ram_size_id == 0x05 { 8 } else { 0 };
        let ram_size: usize = 8192 * ram_banks;

        let region = if bytes[0x14A] == 0 { Region::Japan } else { Region::Overseas };
        let version: u8 = bytes[0x14C];
        let checksum: u8 = bytes[0x14D];

        let mut check: u8 = 0;
        let mut addr: usize = 0x134;
        while addr < 0x14D
            invariant
                0x134 <= addr <= 0x14D,
                bytes@.len() >= 0x14F,
                check == checksum_upto(bytes@, addr as int),
            decreases 0x14D - addr,
        {
            check = check.wrapping_sub(bytes[addr]).wrapping_sub(1);
            addr = addr + 1;
        }
        if check != checksum {
            return Err("Invalid checksum");
        }

        Ok(CartHeader {
            mapper_code,
            title,
            cgb_mode,
            sgb_support,
            region,
            rom_banks,
            rom_size,
            ram_banks,
            ram_size,
            has_battery,
            version,
            checksum,
        })
    }
}

} // verus!
