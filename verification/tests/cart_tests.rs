use tomboy_emulator::cart::{is_gb_rom, CartHeader};
use tomboy_emulator::mbc::{Cart, Mbc};

const LOGO: [u8; 48] = [
    0xCE, 0xED, 0x66, 0x66, 0xCC, 0x0D, 0x00, 0x0B, 0x03, 0x73, 0x00, 0x83, 0x00, 0x0C, 0x00,
    0x0D, 0x00, 0x08, 0x11, 0x1F, 0x88, 0x89, 0x00, 0x0E, 0xDC, 0xCC, 0x6E, 0xE6, 0xDD, 0xDD,
    0xD9, 0x99, 0xBB, 0xBB, 0x67, 0x63, 0x6E, 0x0E, 0xEC, 0xCC, 0xDD, 0xDC, 0x99, 0x9F, 0xBB,
    0xB9, 0x33, 0x3E,
];

fn rom_bank_count(code: u8) -> usize {
    match code {
        0x00 => 2,
        0x01 => 4,
        0x02 => 8,
        0x03 => 16,
        0x04 => 32,
        0x05 => 64,
        _ => 2,
    }
}

fn build_rom(mapper: u8, rom_size_code: u8, ram_size_code: u8) -> Vec<u8> {
    let banks = rom_bank_count(rom_size_code);
    let mut rom = vec![0u8; banks * 16384];
    let mut i = 0;
    while i < 48 {
        rom[0x104 + i] = LOGO[i];
        i += 1;
    }
    rom[0x147] = mapper;
    rom[0x148] = rom_size_code;
    rom[0x149] = ram_size_code;
    // Mark every bank so banked reads are distinguishable.
    let mut b = 0;
    while b < banks {
        rom[b * 16384 + 0x1000] = b as u8;
        b += 1;
    }
    let mut check: u8 = 0;
    let mut addr = 0x134;
    while addr < 0x14D {
        check = check.wrapping_sub(rom[addr]).wrapping_sub(1);
        addr += 1;
    }
    rom[0x14D] = check;
    rom
}

#[test]
fn header_parses_valid_rom() {
    let rom = build_rom(0x00, 0x00, 0x00);
    assert!(is_gb_rom(&rom));
    let h = CartHeader::new(&rom).unwrap();
    assert_eq!(h.mapper_code, 0x00);
    assert_eq!(h.rom_banks, 2);
    assert_eq!(h.rom_size, 32768);
    assert_eq!(h.ram_banks, 0);
    assert!(!h.has_battery);
}

#[test]
fn header_ram_size_table() {
    let h = CartHeader::new(&build_rom(0x03, 0x01, 0x03)).unwrap();
    assert_eq!(h.rom_banks, 4);
    assert_eq!(h.ram_banks, 4);
    assert_eq!(h.ram_size, 32768);
    assert!(h.has_battery);
}

#[test]
fn header_rejects_short_image() {
    let rom = vec![0u8; 0x100];
    assert!(!is_gb_rom(&rom));
    assert!(CartHeader::new(&rom).is_err());
}

#[test]
fn header_rejects_missing_logo() {
    let mut rom = build_rom(0x00, 0x00, 0x00);
    rom[0x104] ^= 0xFF;
    assert!(!is_gb_rom(&rom));
    assert!(CartHeader::new(&rom).is_err());
}

#[test]
fn header_rejects_bad_checksum() {
    let mut rom = build_rom(0x00, 0x00, 0x00);
    rom[0x14D] = rom[0x14D].wrapping_add(1);
    assert!(CartHeader::new(&rom).is_err());
}

#[test]
fn header_rejects_unknown_cart_type() {
    let mut rom = build_rom(0x21, 0x00, 0x00);
    // Recompute the checksum for the altered type byte.
    let mut check: u8 = 0;
    let mut addr = 0x134;
    while addr < 0x14D {
        check = check.wrapping_sub(rom[addr]).wrapping_sub(1);
        addr += 1;
    }
    rom[0x14D] = check;
    assert!(CartHeader::new(&rom).is_err());
}

#[test]
fn header_rejects_unknown_rom_size() {
    let rom = build_rom(0x00, 0x60, 0x00);
    assert!(CartHeader::new(&rom).is_err());
}

#[test]
fn header_rejects_unknown_ram_size() {
    let rom = build_rom(0x00, 0x00, 0x09);
    assert!(CartHeader::new(&rom).is_err());
}

#[test]
fn cart_rejects_unsupported_mapper() {
    // 0x0B is a known feature code, but its mapper is not implemented.
    let rom = build_rom(0x0B, 0x00, 0x00);
    assert!(CartHeader::new(&rom).is_ok());
    assert!(Cart::new(&rom).is_err());
}

#[test]
fn cart_rejects_size_mismatch() {
    let mut rom = build_rom(0x00, 0x01, 0x00);
    rom.truncate(3 * 16384);
    assert!(Cart::new(&rom).is_err());
}

#[test]
fn mbc1_mode0_low_region_reads_bank_zero() {
    // 64 banks of ROM: the secondary select feeds ROM bits 5..6.
    let mut cart = Cart::new(&build_rom(0x01, 0x05, 0x00)).unwrap();
    cart.rom_write(0x2000, 0x12);
    cart.rom_write(0x4000, 0x01);
    // Mode 0: the low region stays on bank 0 regardless of the selects.
    assert_eq!(cart.rom_read(0x1000), 0);
    // The high region sees bank 0x32 (0x20 | 0x12).
    assert_eq!(cart.rom_read(0x5000), 0x32);
    // Mode 1 maps the extended bank into the low region too.
    cart.rom_write(0x6000, 0x01);
    assert_eq!(cart.rom_read(0x1000), 0x20);
    cart.rom_write(0x6000, 0x00);
    assert_eq!(cart.rom_read(0x1000), 0);
}

#[test]
fn mbc1_rom_select_zero_reads_as_one() {
    let mut cart = Cart::new(&build_rom(0x01, 0x02, 0x00)).unwrap();
    cart.rom_write(0x2000, 0x00);
    assert_eq!(cart.rom_read(0x5000), 1);
}

#[test]
fn mbc1_ram_gate() {
    let mut cart = Cart::new(&build_rom(0x03, 0x00, 0x02)).unwrap();
    assert_eq!(cart.ram_read(0x10), 0xFF);
    cart.rom_write(0x0000, 0x0A);
    cart.ram_write(0x10, 0x42);
    assert_eq!(cart.ram_read(0x10), 0x42);
    cart.rom_write(0x0000, 0x00);
    assert_eq!(cart.ram_read(0x10), 0xFF);
}

#[test]
fn mbc2_internal_ram_upper_nibble_set() {
    let mut cart = Cart::new(&build_rom(0x05, 0x00, 0x00)).unwrap();
    cart.rom_write(0x0000, 0x0A);
    cart.ram_write(5, 0x23);
    assert_eq!(cart.ram_read(5), 0xF3);
    // The 512-byte RAM wraps.
    assert_eq!(cart.ram_read(5 + 512), 0xF3);
}

#[test]
fn mbc2_bank_select_by_address_bit() {
    let mut cart = Cart::new(&build_rom(0x05, 0x02, 0x00)).unwrap();
    cart.rom_write(0x0100, 0x03);
    assert_eq!(cart.rom_read(0x5000), 3);
}

#[test]
fn mbc3_rtc_latch_and_tick() {
    let mut cart = Cart::new(&build_rom(0x0F, 0x00, 0x00)).unwrap();
    cart.rom_write(0x0000, 0x0A);
    cart.rom_write(0x4000, 0x08);
    // Advance a little over one second of emulated time.
    let mut t: u64 = 0;
    while t < 4194304 + 64 {
        cart.tick(4);
        t += 4;
    }
    // Nothing is visible until the latch samples the live clock.
    assert_eq!(cart.ram_read(0), 0);
    cart.rom_write(0x6000, 0x00);
    cart.rom_write(0x6000, 0x01);
    assert_eq!(cart.ram_read(0), 1);
    match &cart.mbc {
        Mbc::Mbc3(m) => assert_eq!(m.rtc.seconds, 1),
        _ => panic!(),
    }
}

#[test]
fn mbc5_nine_bit_bank_select() {
    let mut cart = Cart::new(&build_rom(0x19, 0x03, 0x00)).unwrap();
    cart.rom_write(0x2000, 5);
    assert_eq!(cart.rom_read(0x5000), 5);
    // Bank 0 is selectable on MBC5.
    cart.rom_write(0x2000, 0);
    assert_eq!(cart.rom_read(0x5000), 0);
}
