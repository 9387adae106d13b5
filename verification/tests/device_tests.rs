use tomboy_emulator::apu::Apu;
use tomboy_emulator::frame::FrameBuffer;
use tomboy_emulator::joypad::{Joypad, JoypadSelect, BTN_A_RIGHT};
use tomboy_emulator::ppu::Ppu;
use tomboy_emulator::serial::Serial;
use tomboy_emulator::timer::Timer;

#[test]
fn timer_disabled_tima_never_changes() {
    // With TAC disabled, TIMA stays put even while DIV rolls over.
    let mut t = Timer::new();
    t.write(0xFF05, 0x7E);
    let mut i = 0;
    while i < 70000 {
        t.tick();
        assert_eq!(t.read(0xFF05), 0x7E);
        i += 1;
    }
}

#[test]
fn timer_overflow_reloads_from_tma_and_interrupts() {
    // TAC = 0x05, TMA = 0x50, TIMA = 0xFF; after 16 T-cycles TIMA has
    // overflowed, waited four cycles, and reloaded, raising the timer bit.
    let mut t = Timer::new();
    t.write(0xFF07, 0x05);
    t.write(0xFF06, 0x50);
    t.write(0xFF05, 0xFF);
    let mut ints: u8 = 0;
    let mut i = 0;
    while i < 16 {
        ints |= t.tick();
        i += 1;
    }
    assert_eq!(t.read(0xFF05), 0x50);
    assert_ne!(ints & 0x04, 0);
}

#[test]
fn timer_tima_write_cancels_reload() {
    let mut t = Timer::new();
    t.write(0xFF07, 0x05);
    t.write(0xFF06, 0x50);
    t.write(0xFF05, 0xFF);
    // Run up to the overflow (4 ticks reach the falling edge).
    let mut i = 0;
    while i < 4 {
        t.tick();
        i += 1;
    }
    assert_eq!(t.read(0xFF05), 0x00);
    // A TIMA write during the reload delay cancels reload and interrupt.
    t.write(0xFF05, 0x77);
    let mut ints: u8 = 0;
    let mut j = 0;
    while j < 8 {
        ints |= t.tick();
        j += 1;
    }
    assert_eq!(t.read(0xFF05), 0x77);
    assert_eq!(ints & 0x04, 0);
}

#[test]
fn timer_div_write_resets_counter() {
    let mut t = Timer::new();
    assert_eq!(t.read(0xFF04), 0xAB);
    t.write(0xFF04, 0x5A);
    assert_eq!(t.read(0xFF04), 0x00);
}

#[test]
fn timer_tac_reads_with_reserved_bits() {
    let mut t = Timer::new();
    t.write(0xFF07, 0x05);
    assert_eq!(t.read(0xFF07), 0x05 | 0xF8);
}

#[test]
fn timer_tac_change_dropping_gate_clocks_tima() {
    // Disabling the timer (or deselecting a high DIV bit) while the gated
    // clock output is high is itself the falling edge that clocks TIMA.
    let mut t = Timer::new();
    t.write(0xFF04, 0); // DIV = 0 (TAC still disabled: no edge)
    t.write(0xFF07, 0x05); // enable, select DIV bit 3
    let mut i = 0;
    while i < 8 {
        t.tick(); // DIV reaches 8: the selected bit goes high
        i += 1;
    }
    assert_eq!(t.read(0xFF05), 0);
    t.write(0xFF07, 0x01); // disable while the selected bit is high
    assert_eq!(t.read(0xFF05), 1);
}

#[test]
fn apu_wave_trigger_restarts_at_position_zero() {
    let mut apu = Apu::new();
    apu.write(0xFF26, 0x80); // master enable
    apu.write(0xFF1A, 0x80); // wave DAC on
    apu.wave.position = 17;
    apu.write(0xFF1E, 0x80); // trigger
    assert!(apu.wave.enabled);
    assert_eq!(apu.wave.position, 0);
}

#[test]
fn apu_master_off_emits_silent_pairs() {
    // With the master enable off, every emitted sample pair is exactly
    // (0, 0).
    let mut apu = Apu::new();
    let mut i = 0;
    while i < 2000 {
        apu.tick();
        i += 1;
    }
    let samples = apu.consume_samples();
    assert!(samples.len() >= 2);
    assert_eq!(samples.len() % 2, 0);
    let mut k = 0;
    while k < samples.len() {
        assert_eq!(samples[k], 0);
        k += 1;
    }
}

#[test]
fn apu_sample_rate_cadence() {
    // 4194304 T-cycles must emit exactly 44100 stereo pairs.
    let mut apu = Apu::new();
    let mut i: u32 = 0;
    while i < 4194304 {
        apu.tick();
        i += 1;
    }
    let samples = apu.consume_samples();
    assert_eq!(samples.len(), 2 * 44100);
}

#[test]
fn apu_nr50_nr51_roundtrip_when_enabled() {
    let mut apu = Apu::new();
    apu.write(0xFF26, 0x80);
    apu.write(0xFF24, 0x53);
    apu.write(0xFF25, 0xA7);
    assert_eq!(apu.read(0xFF24), 0x53);
    assert_eq!(apu.read(0xFF25), 0xA7);
    // Power-down zeroes volume and panning and gates further writes.
    apu.write(0xFF26, 0x00);
    assert_eq!(apu.read(0xFF24), 0x00);
    assert_eq!(apu.read(0xFF25), 0x00);
    apu.write(0xFF24, 0x11);
    assert_eq!(apu.read(0xFF24), 0x00);
}

#[test]
fn apu_wave_ram_accessible_while_idle() {
    let mut apu = Apu::new();
    apu.write(0xFF30, 0xAB);
    assert_eq!(apu.read(0xFF30), 0xAB);
}

#[test]
fn apu_nr52_reports_enable_bit() {
    let mut apu = Apu::new();
    assert_eq!(apu.read(0xFF26), 0x70);
    apu.write(0xFF26, 0x80);
    assert_eq!(apu.read(0xFF26), 0xF0);
}

#[test]
fn joypad_select_and_press() {
    let mut j = Joypad::new();
    assert_eq!(j.read(), 0xFF);
    j.write(0x20);
    assert!(matches!(j.selected, JoypadSelect::Dpad));
    let ints = j.dpad_pressed(BTN_A_RIGHT);
    assert_ne!(ints, 0);
    assert_eq!(j.read(), 0x0E);
    j.dpad_released(BTN_A_RIGHT);
    assert_eq!(j.read(), 0x0F);
    // Pressing a button of the unselected matrix raises nothing.
    let ints2 = j.button_pressed(BTN_A_RIGHT);
    assert_eq!(ints2, 0);
}

#[test]
fn serial_data_reads_ff_and_taps_output() {
    let mut s = Serial::new();
    s.write(0xFF01, b'H');
    assert_eq!(s.read(0xFF01), 0xFF);
    s.write(0xFF02, 0x81);
    s.write(0xFF01, b'i');
    s.write(0xFF02, 0x81);
    let out = s.consume_output();
    assert_eq!(out, vec![b'H', b'i']);
    assert!(s.consume_output().is_empty());
}

#[test]
fn frame_buffer_pixel_roundtrip() {
    let mut fb = FrameBuffer::gameboy_lcd();
    assert_eq!((fb.width, fb.height), (160, 144));
    assert_eq!(fb.pitch(), 160 * 4);
    fb.set_pixel(3, 2, 3);
    assert_eq!(fb.pixel_index(3, 2), 3);
    let idx = (2 * 160 + 3) * 4;
    assert_eq!(fb.buffer[idx], 15);
    assert_eq!(fb.buffer[idx + 1], 56);
    assert_eq!(fb.buffer[idx + 2], 15);
    assert_eq!(fb.buffer[idx + 3], 255);
    fb.reset();
    assert_eq!(fb.pixel_index(3, 2), 0);
}

#[test]
fn ppu_ly_cycles_once_per_frame() {
    // With the LCD enabled, LY walks 0..153 exactly once every 70224
    // T-cycles.
    let mut ppu = Ppu::new();
    assert!(ppu.is_lcd_enabled());
    let mut seen_153 = 0u32;
    let mut wraps = 0u32;
    let mut last_ly = ppu.ly;
    let mut i: u32 = 0;
    while i < 70224 {
        ppu.tick();
        if ppu.ly != last_ly {
            if ppu.ly == 153 {
                seen_153 += 1;
            }
            if ppu.ly == 0 && last_ly == 153 {
                wraps += 1;
            }
            last_ly = ppu.ly;
        }
        i += 1;
    }
    assert_eq!(seen_153, 1);
    assert_eq!(wraps, 1);
    assert_eq!(ppu.ly, 0);
    assert!(ppu.frame_ready);
}

#[test]
fn ppu_registers_roundtrip() {
    let mut ppu = Ppu::new();
    let _ = ppu.write(0xFF42, 0x12);
    let _ = ppu.write(0xFF43, 0x34);
    let _ = ppu.write(0xFF45, 0x56);
    let _ = ppu.write(0xFF47, 0xE4);
    let _ = ppu.write(0xFF4A, 0x78);
    let _ = ppu.write(0xFF4B, 0x9A);
    assert_eq!(ppu.read(0xFF42), 0x12);
    assert_eq!(ppu.read(0xFF43), 0x34);
    assert_eq!(ppu.read(0xFF45), 0x56);
    assert_eq!(ppu.read(0xFF47), 0xE4);
    assert_eq!(ppu.read(0xFF4A), 0x78);
    assert_eq!(ppu.read(0xFF4B), 0x9A);
}

#[test]
fn ppu_stat_reads_mode_and_bit7() {
    let mut ppu = Ppu::new();
    let _ = ppu.write(0xFF41, 0x28);
    let stat = ppu.read(0xFF41);
    assert_ne!(stat & 0x80, 0);
    assert_eq!(stat & 0x78, 0x28);
    // A fresh frame starts in OAM scan (mode 2).
    assert_eq!(stat & 0x03, 2);
}

#[test]
fn ppu_disable_blanks_and_resets() {
    let mut ppu = Ppu::new();
    let mut i = 0;
    while i < 1000 {
        ppu.tick();
        i += 1;
    }
    let _ = ppu.write(0xFF40, 0x11);
    assert!(!ppu.is_lcd_enabled());
    assert_eq!(ppu.ly, 0);
    assert_eq!(ppu.read(0xFF44), 0);
}
