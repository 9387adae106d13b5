use tomboy_emulator::cpu::{Cpu, FLAG_C, FLAG_Z};
use tomboy_emulator::gb::Gameboy;
use tomboy_emulator::instr::{Instruction, InstrTarget, TargetKind};
use tomboy_emulator::mbc::Cart;

const LOGO: [u8; 48] = [
    0xCE, 0xED, 0x66, 0x66, 0xCC, 0x0D, 0x00, 0x0B, 0x03, 0x73, 0x00, 0x83, 0x00, 0x0C, 0x00,
    0x0D, 0x00, 0x08, 0x11, 0x1F, 0x88, 0x89, 0x00, 0x0E, 0xDC, 0xCC, 0x6E, 0xE6, 0xDD, 0xDD,
    0xD9, 0x99, 0xBB, 0xBB, 0x67, 0x63, 0x6E, 0x0E, 0xEC, 0xCC, 0xDD, 0xDC, 0x99, 0x9F, 0xBB,
    0xB9, 0x33, 0x3E,
];

fn build_plain_rom() -> Vec<u8> {
    let mut rom = vec![0u8; 32768];
    let mut i = 0;
    while i < 48 {
        rom[0x104 + i] = LOGO[i];
        i += 1;
    }
    let mut check: u8 = 0;
    let mut addr = 0x134;
    while addr < 0x14D {
        check = check.wrapping_sub(rom[addr]).wrapping_sub(1);
        addr += 1;
    }
    rom[0x14D] = check;
    rom
}

fn fresh_cpu() -> Cpu {
    Cpu::new(Cart::new(&build_plain_rom()).unwrap())
}

/// Loads a program into work RAM, points PC at it, runs one step, and
/// returns the machine cycles it consumed.
fn cycles_of(cpu: &mut Cpu, program: &[u8]) -> u64 {
    let mut i = 0;
    while i < program.len() {
        cpu.bus.write(0xC000 + i as u16, program[i]);
        i += 1;
    }
    cpu.pc = 0xC000;
    let before = cpu.mcycles;
    cpu.step();
    cpu.mcycles - before
}

#[test]
fn boot_applies_power_on_state() {
    let cpu = fresh_cpu();
    assert_eq!(cpu.a, 0x01);
    assert_eq!(cpu.f, 0xB0);
    assert_eq!(cpu.pc, 0x0100);
    assert_eq!(cpu.sp, 0xFFFE);
    assert!(!cpu.ime);
}

#[test]
fn instruction_cycles_match_published_table() {
    let mut cpu = fresh_cpu();
    cpu.ime = false;
    assert_eq!(cycles_of(&mut cpu, &[0x00]), 1); // NOP
    assert_eq!(cycles_of(&mut cpu, &[0x41]), 1); // LD B,C
    cpu.hl.hi = 0xC1;
    cpu.hl.lo = 0x00;
    assert_eq!(cycles_of(&mut cpu, &[0x46]), 2); // LD B,(HL)
    assert_eq!(cycles_of(&mut cpu, &[0x36, 0x55]), 3); // LD (HL),d8
    assert_eq!(cycles_of(&mut cpu, &[0x3E, 0x12]), 2); // LD A,d8
    assert_eq!(cycles_of(&mut cpu, &[0x01, 0x34, 0x12]), 3); // LD BC,d16
    assert_eq!(cycles_of(&mut cpu, &[0x08, 0x00, 0xC2]), 5); // LD (a16),SP
    assert_eq!(cycles_of(&mut cpu, &[0x34]), 3); // INC (HL)
    assert_eq!(cycles_of(&mut cpu, &[0x03]), 2); // INC BC
    assert_eq!(cycles_of(&mut cpu, &[0x09]), 2); // ADD HL,BC
    assert_eq!(cycles_of(&mut cpu, &[0x86]), 2); // ADD A,(HL)
    assert_eq!(cycles_of(&mut cpu, &[0xC3, 0x00, 0xC0]), 4); // JP a16
    cpu.sp = 0xD000;
    assert_eq!(cycles_of(&mut cpu, &[0xCD, 0x00, 0xC0]), 6); // CALL a16
    assert_eq!(cycles_of(&mut cpu, &[0xC9]), 4); // RET
    assert_eq!(cycles_of(&mut cpu, &[0xC5]), 4); // PUSH BC
    assert_eq!(cycles_of(&mut cpu, &[0xC1]), 3); // POP BC
    assert_eq!(cycles_of(&mut cpu, &[0xE0, 0x80]), 3); // LDH (a8),A
    assert_eq!(cycles_of(&mut cpu, &[0xF0, 0x80]), 3); // LDH A,(a8)
    assert_eq!(cycles_of(&mut cpu, &[0xFA, 0x00, 0xC1]), 4); // LD A,(a16)
    assert_eq!(cycles_of(&mut cpu, &[0xE8, 0x05]), 4); // ADD SP,e
    assert_eq!(cycles_of(&mut cpu, &[0xF8, 0x05]), 3); // LD HL,SP+e
    assert_eq!(cycles_of(&mut cpu, &[0xF9]), 2); // LD SP,HL
    cpu.sp = 0xD000;
    assert_eq!(cycles_of(&mut cpu, &[0xC7]), 4); // RST 00
    assert_eq!(cycles_of(&mut cpu, &[0xE9]), 1); // JP HL
    assert_eq!(cycles_of(&mut cpu, &[0xF3]), 1); // DI
}

#[test]
fn conditional_cycles_depend_on_flags() {
    let mut cpu = fresh_cpu();
    cpu.ime = false;
    // JR NZ taken (Z clear) is 3, not taken is 2.
    let f = cpu.f & !FLAG_Z;
    let _ = cpu.set_result(InstrTarget::val(TargetKind::F), f);
    assert_eq!(cycles_of(&mut cpu, &[0x20, 0x02]), 3);
    let f2 = cpu.f | FLAG_Z;
    let _ = cpu.set_result(InstrTarget::val(TargetKind::F), f2);
    assert_eq!(cycles_of(&mut cpu, &[0x20, 0x02]), 2);
    // RET Z taken is 5, not taken is 2.
    cpu.sp = 0xD000;
    assert_eq!(cycles_of(&mut cpu, &[0xC8]), 5);
    let f3 = cpu.f & !FLAG_Z;
    let _ = cpu.set_result(InstrTarget::val(TargetKind::F), f3);
    assert_eq!(cycles_of(&mut cpu, &[0xC8]), 2);
    // CALL C taken 6, not taken 3.
    let f4 = cpu.f | FLAG_C;
    let _ = cpu.set_result(InstrTarget::val(TargetKind::F), f4);
    cpu.sp = 0xD000;
    assert_eq!(cycles_of(&mut cpu, &[0xDC, 0x00, 0xC0]), 6);
    let f5 = cpu.f & !FLAG_C;
    let _ = cpu.set_result(InstrTarget::val(TargetKind::F), f5);
    assert_eq!(cycles_of(&mut cpu, &[0xDC, 0x00, 0xC0]), 3);
}

#[test]
fn prefixed_cycles_match_published_table() {
    let mut cpu = fresh_cpu();
    cpu.ime = false;
    assert_eq!(cycles_of(&mut cpu, &[0xCB, 0x00]), 2); // RLC B
    cpu.hl.hi = 0xC1;
    cpu.hl.lo = 0x00;
    assert_eq!(cycles_of(&mut cpu, &[0xCB, 0x46]), 3); // BIT 0,(HL)
    assert_eq!(cycles_of(&mut cpu, &[0xCB, 0xC6]), 4); // SET 0,(HL)
    assert_eq!(cycles_of(&mut cpu, &[0xCB, 0x16]), 4); // RL (HL)
}

#[test]
fn instruction_lookup_matches_cycle_table() {
    let row = Instruction::lookup(0x08, false);
    assert_eq!(row.mcycles, 5);
    assert_eq!(row.bytes, 3);
    let jr = Instruction::lookup(0x20, false);
    assert_eq!(jr.mcycles, 2);
    assert_eq!(jr.mcycles_taken, 3);
    assert_eq!(jr.bytes, 2);
    let cb = Instruction::lookup(0x46, true);
    assert_eq!(cb.mcycles, 3);
    assert_eq!(cb.bytes, 2);
}

#[test]
fn flags_low_nibble_always_zero() {
    let mut cpu = fresh_cpu();
    cpu.ime = false;
    cpu.sp = 0xD000;
    // Stack a garbage flag byte and pop it into AF.
    let _ = cpu.stack_push(0x12FF);
    let _ = cycles_of(&mut cpu, &[0xF1]); // POP AF
    assert_eq!(cpu.f & 0x0F, 0);
    assert_eq!(cpu.a, 0x12);
    assert_eq!(cpu.f, 0xF0);
    // A run of arithmetic never dirties the low nibble either.
    let _ = cycles_of(&mut cpu, &[0x3E, 0x09]); // LD A,9
    let _ = cycles_of(&mut cpu, &[0xC6, 0x01]); // ADD A,1
    assert_eq!(cpu.f & 0x0F, 0);
    let _ = cycles_of(&mut cpu, &[0x27]); // DAA
    assert_eq!(cpu.f & 0x0F, 0);
    assert_eq!(cpu.a, 0x10);
}

#[test]
fn register_write_read_roundtrip() {
    let mut cpu = fresh_cpu();
    let regs = [
        TargetKind::A,
        TargetKind::B,
        TargetKind::C,
        TargetKind::D,
        TargetKind::E,
        TargetKind::H,
        TargetKind::L,
    ];
    let mut i = 0;
    while i < regs.len() {
        let t = InstrTarget::val(regs[i]);
        let v = (0x11 * (i as u8 + 1)) ^ 0x5A;
        cpu.set_result(t, v);
        assert_eq!(cpu.get_operand(t), v);
        i += 1;
    }
}

#[test]
fn stack_push_pop_roundtrip() {
    let mut cpu = fresh_cpu();
    cpu.sp = 0xD000;
    cpu.stack_push(0xBEEF);
    assert_eq!(cpu.sp, 0xCFFE);
    let popped = cpu.stack_pop();
    assert_eq!(popped, 0xBEEF);
    assert_eq!(cpu.sp, 0xD000);
    // The same holds on the high-RAM stack.
    cpu.sp = 0xFFF0;
    cpu.stack_push(0x1234);
    assert_eq!(cpu.stack_pop(), 0x1234);
}

#[test]
fn hram_write_then_read_returns_written_byte() {
    let mut cpu = fresh_cpu();
    let mut a: u16 = 0xFF80;
    while a < 0xFFFF {
        cpu.bus.write(a, (a & 0xFF) as u8);
        a += 1;
    }
    let mut b: u16 = 0xFF80;
    while b < 0xFFFF {
        assert_eq!(cpu.bus.read(b), (b & 0xFF) as u8);
        b += 1;
    }
}

#[test]
fn wram_echo_aliases_work_ram() {
    let mut cpu = fresh_cpu();
    cpu.bus.write(0xC123, 0x77);
    assert_eq!(cpu.bus.read(0xC123), 0x77);
    assert_eq!(cpu.bus.read(0xE123), 0x77);
    cpu.bus.write(0xE456, 0x88);
    assert_eq!(cpu.bus.read(0xC456), 0x88);
}

#[test]
fn io_reserved_bits_read_back_set() {
    // Writing V to a simple I/O register with reserved mask R reads back
    // (V & !R) | R.
    let mut cpu = fresh_cpu();
    let cases: [(u16, u8); 12] = [
        (0xFF02, 0x7C),
        (0xFF48, 0x00),
        (0xFF49, 0x00),
        (0xFF06, 0x00),
        (0xFF07, 0xF8),
        (0xFF0F, 0xE0),
        (0xFF42, 0x00),
        (0xFF43, 0x00),
        (0xFF45, 0x00),
        (0xFF47, 0x00),
        (0xFF4A, 0x00),
        (0xFFFF, 0x00),
    ];
    let mut i = 0;
    while i < cases.len() {
        let (addr, mask) = cases[i];
        cpu.bus.write(addr, 0xA5);
        assert_eq!(cpu.bus.read(addr), (0xA5 & !mask) | mask);
        cpu.bus.write(addr, 0x5A);
        assert_eq!(cpu.bus.read(addr), (0x5A & !mask) | mask);
        i += 1;
    }
}

#[test]
fn halt_bug_runs_next_instruction_twice() {
    // DI; HALT; INC A; NOP with an enabled interrupt pending: HALT does
    // not halt, and the byte after it is fetched twice, so INC A runs
    // twice.
    let mut cpu = fresh_cpu();
    cpu.a = 0;
    cpu.bus.write(0xC000, 0xF3);
    cpu.bus.write(0xC001, 0x76);
    cpu.bus.write(0xC002, 0x3C);
    cpu.bus.write(0xC003, 0x00);
    cpu.bus.inte = 0x04;
    cpu.bus.intf = 0x04;
    cpu.pc = 0xC000;
    cpu.step(); // DI
    cpu.step(); // HALT: arms the fetch-twice latch instead of halting
    assert!(!cpu.halted);
    cpu.step(); // INC A, PC not advanced
    assert_eq!(cpu.a, 1);
    assert_eq!(cpu.pc, 0xC002);
    cpu.step(); // INC A again
    assert_eq!(cpu.a, 2);
    assert_eq!(cpu.pc, 0xC003);
}

#[test]
fn halt_idles_until_interrupt_pending() {
    let mut cpu = fresh_cpu();
    cpu.bus.write(0xC000, 0x76);
    cpu.bus.write(0xC001, 0x3C);
    cpu.bus.inte = 0x04;
    cpu.bus.intf = 0x00;
    cpu.ime = false;
    cpu.pc = 0xC000;
    cpu.step();
    assert!(cpu.halted);
    let m0 = cpu.mcycles;
    cpu.step();
    cpu.step();
    assert!(cpu.halted);
    assert_eq!(cpu.mcycles, m0);
    // An interrupt bit wakes the CPU, which falls through to the fetch.
    cpu.bus.intf = 0x04;
    cpu.a = 0;
    cpu.step();
    assert!(!cpu.halted);
    assert_eq!(cpu.a, 1);
}

#[test]
fn interrupt_dispatch_takes_five_cycles_to_vector() {
    let mut cpu = fresh_cpu();
    cpu.sp = 0xD000;
    cpu.bus.write(0xC000, 0xFB); // EI
    cpu.bus.write(0xC001, 0x00); // NOP
    cpu.bus.inte = 0x01;
    cpu.bus.intf = 0x01;
    cpu.pc = 0xC000;
    cpu.step(); // EI arms the latch; IME is still clear
    assert!(!cpu.ime);
    let m0 = cpu.mcycles;
    cpu.step(); // NOP, then the latch promotes and dispatch reaches 0x40
    assert_eq!(cpu.mcycles - m0, 6);
    assert_eq!(cpu.pc, 0x40);
    assert!(!cpu.ime);
    assert_eq!(cpu.bus.intf & 0x01, 0);
    // The return address was pushed.
    assert_eq!(cpu.bus.read(0xCFFE), 0x02);
    assert_eq!(cpu.bus.read(0xCFFF), 0xC0);
}

#[test]
fn ei_then_di_never_dispatches() {
    // IME rises only after the instruction following EI completes, so DI
    // right after EI clears the latch before any interrupt is serviced.
    let mut cpu = fresh_cpu();
    cpu.bus.write(0xC000, 0xFB); // EI
    cpu.bus.write(0xC001, 0xF3); // DI
    cpu.bus.write(0xC002, 0x00); // NOP
    cpu.bus.inte = 0x04;
    cpu.bus.intf = 0x04;
    cpu.pc = 0xC000;
    cpu.step(); // EI
    assert!(!cpu.ime);
    cpu.step(); // DI clears the latch before it can promote
    assert!(!cpu.ime);
    assert_eq!(cpu.pc, 0xC002);
    cpu.step(); // NOP: still no dispatch
    assert_eq!(cpu.pc, 0xC003);
}

#[test]
fn oam_dma_copies_a_page_and_blocks_the_bus() {
    let mut cpu = fresh_cpu();
    let mut i: u16 = 0;
    while i < 160 {
        cpu.bus.write(0xC100 + i, (i as u8) ^ 0x3C);
        i += 1;
    }
    cpu.bus.write(0xFF46, 0xC1);
    assert_eq!(cpu.bus.read(0xFF46), 0xC1);
    // While the transfer runs, CPU reads outside high RAM see 0xFF.
    let gated = cpu.read(0xC100);
    assert_eq!(gated, 0xFF);
    let mut t = 0;
    while t < 170 {
        cpu.bus.tick();
        t += 1;
    }
    let mut k: usize = 0;
    while k < 160 {
        assert_eq!(cpu.bus.ppu.oam[k], (k as u8) ^ 0x3C);
        k += 1;
    }
    assert!(!cpu.bus.dma.is_transferring());
}

#[test]
fn gameboy_runs_frames_headless() {
    let mut gb = Gameboy::boot_from_bytes(&build_plain_rom()).unwrap();
    gb.step_until_vblank();
    let (w, h) = gb.get_resolution();
    assert_eq!((w, h), (160, 144));
    assert_eq!(gb.get_screen().width, 160);
    assert_eq!(gb.get_screen().height, 144);
    let header = gb.get_cart();
    assert_eq!(header.rom_banks, 2);
    let samples = gb.get_samples();
    assert!(samples.len() >= 2);
}

#[test]
fn arithmetic_flags_concrete() {
    let mut cpu = fresh_cpu();
    cpu.ime = false;
    // 0x3E 0xFF: LD A,0xFF; 0xC6 0x01: ADD A,1 -> 0, Z+H+C set.
    let _ = cycles_of(&mut cpu, &[0x3E, 0xFF]);
    let _ = cycles_of(&mut cpu, &[0xC6, 0x01]);
    assert_eq!(cpu.a, 0);
    assert_eq!(cpu.f, 0xB0);
    // SUB 1 from 0 -> 0xFF with N, H, C set.
    let _ = cycles_of(&mut cpu, &[0xD6, 0x01]);
    assert_eq!(cpu.a, 0xFF);
    assert_eq!(cpu.f, 0x70);
    // AND with 0 -> Z and H.
    let _ = cycles_of(&mut cpu, &[0xE6, 0x00]);
    assert_eq!(cpu.a, 0);
    assert_eq!(cpu.f, 0xA0);
}

#[test]
fn jr_takes_negative_offsets() {
    let mut cpu = fresh_cpu();
    cpu.ime = false;
    // JR -2 loops onto itself: PC returns to the operand's instruction.
    let _ = cycles_of(&mut cpu, &[0x18, 0xFE]);
    assert_eq!(cpu.pc, 0xC000);
    // JR +3 skips forward from the byte after the operand.
    let _ = cycles_of(&mut cpu, &[0x18, 0x03]);
    assert_eq!(cpu.pc, 0xC005);
}

#[test]
fn daa_adjusts_after_bcd_subtraction() {
    let mut cpu = fresh_cpu();
    cpu.ime = false;
    // BCD 0x42 - 0x13 should read 0x29 after DAA.
    let _ = cycles_of(&mut cpu, &[0x3E, 0x42]);
    let _ = cycles_of(&mut cpu, &[0xD6, 0x13]);
    let _ = cycles_of(&mut cpu, &[0x27]);
    assert_eq!(cpu.a, 0x29);
}

#[test]
fn rotate_instructions_concrete() {
    let mut cpu = fresh_cpu();
    cpu.ime = false;
    let _ = cycles_of(&mut cpu, &[0x3E, 0x81]); // LD A,0x81
    let _ = cycles_of(&mut cpu, &[0x07]); // RLCA -> 0x03, carry set
    assert_eq!(cpu.a, 0x03);
    assert_ne!(cpu.f & FLAG_C, 0);
    let _ = cycles_of(&mut cpu, &[0xCB, 0x37]); // SWAP A
    assert_eq!(cpu.a, 0x30);
    assert_eq!(cpu.f & FLAG_C, 0);
}

#[test]
fn vram_and_oam_blocked_during_scan_and_draw() {
    let mut cpu = fresh_cpu();
    // Fresh PPU state is mode 2 (OAM scan): OAM reads are blocked.
    assert_eq!(cpu.bus.read(0xFE00), 0xFF);
    cpu.bus.write(0xFE00, 0x55);
    // Disabling the LCD opens both regions.
    cpu.bus.write(0xFF40, 0x11);
    assert_eq!(cpu.bus.read(0xFE00), 0x00);
    cpu.bus.write(0xFE00, 0x66);
    assert_eq!(cpu.bus.read(0xFE00), 0x66);
    cpu.bus.write(0x8000, 0x77);
    assert_eq!(cpu.bus.read(0x8000), 0x77);
}

#[test]
fn stop_resets_div() {
    let mut cpu = fresh_cpu();
    cpu.ime = false;
    assert_ne!(cpu.bus.read(0xFF04), 0);
    let cycles = cycles_of(&mut cpu, &[0x10, 0x00]);
    assert_eq!(cycles, 1);
    // The next machine cycle advances DIV from its reset value.
    assert!(cpu.bus.read(0xFF04) <= 1);
    assert_eq!(cpu.pc, 0xC002);
}
