use gbemu::button_state::ButtonState;
use gbemu::cpu::{CpuMode, MemoryBus};
use gbemu::mbc1::MBC1;
use gbemu::system::System;

/// A 32 KiB ROM of zeros apart from the MBC1 header bytes.
fn nop_rom() -> Vec<u8> {
    let mut rom = vec![0u8; 0x8000];
    rom[0x147] = 0x01;
    rom
}

#[test]
fn nop_rom_runs_a_million_cycles_with_only_vblank_flagged() {
    let mbc = MBC1::new(&nop_rom(), None).unwrap();
    let mut system = System::from_cart(mbc);
    let mut prev_pc = system.cpu().pc();
    for _ in 0..1_000_000 {
        system.m_cycle();
        let pc = system.cpu().pc();
        // monotone, except when a wrap lands back in low cartridge space
        assert!(pc >= prev_pc || pc < 0x100, "pc {pc:#06x} after {prev_pc:#06x}");
        prev_pc = pc;
    }
    let if_flags = system.mmio().if_();
    assert_eq!(if_flags & 0b11110, 0, "only VBlank may be pending");
    assert_eq!(if_flags & 0b00001, 1, "VBlank was flagged");
}

#[test]
fn three_instructions_halt_the_cpu() {
    // LD BC,0x1234; LD A,B; HALT starting at the 0x100 entry point
    let mut rom = nop_rom();
    rom[0x100] = 0x01;
    rom[0x101] = 0x34;
    rom[0x102] = 0x12;
    rom[0x103] = 0x78;
    rom[0x104] = 0x76;
    let mbc = MBC1::new(&rom, None).unwrap();
    let mut system = System::from_cart(mbc);
    assert_eq!(system.cpu().pc(), 0x100);
    for _ in 0..6 {
        system.m_cycle();
    }
    assert_eq!(system.cpu_mode(), CpuMode::Halted);
    assert_eq!(system.cpu().b(), 0x12);
    assert_eq!(system.cpu().c(), 0x34);
    assert_eq!(system.cpu().a(), 0x12);
}

#[test]
fn halted_cpu_stays_put_until_an_interrupt_pends() {
    let mut rom = nop_rom();
    rom[0x100] = 0x76; // HALT
    let mbc = MBC1::new(&rom, None).unwrap();
    let mut system = System::from_cart(mbc);
    for _ in 0..2 {
        system.m_cycle();
    }
    assert_eq!(system.cpu_mode(), CpuMode::Halted);
    let pc = system.cpu().pc();
    for _ in 0..100 {
        system.m_cycle();
    }
    // IE is zero, so even the VBlank flag cannot wake it... and none is
    // pending this early in the frame anyway
    assert_eq!(system.cpu_mode(), CpuMode::Halted);
    assert_eq!(system.cpu().pc(), pc);
}

#[test]
fn stopped_cpu_wakes_on_a_button_press() {
    // select the direction group, then STOP; a Right press wakes the CPU
    let mut rom = nop_rom();
    rom[0x100] = 0x3E; // LD A,0x10
    rom[0x101] = 0x10;
    rom[0x102] = 0xE0; // LDH (0x00),A — select the direction group
    rom[0x103] = 0x00;
    rom[0x104] = 0x10; // STOP
    let mbc = MBC1::new(&rom, None).unwrap();
    let mut system = System::from_cart(mbc);
    for _ in 0..7 {
        system.m_cycle();
    }
    assert_eq!(system.cpu_mode(), CpuMode::Stopped);
    let pc = system.cpu().pc();
    for _ in 0..10 {
        system.m_cycle();
    }
    assert_eq!(system.cpu_mode(), CpuMode::Stopped);
    assert_eq!(system.cpu().pc(), pc);
    system.set_button_state(ButtonState::new().with_right(true));
    system.m_cycle();
    assert_eq!(system.cpu_mode(), CpuMode::Normal);
}

#[test]
fn serial_log_collects_bytes_the_program_sends() {
    // write 'O' and 'k' to SB, requesting a transfer after each
    let mut rom = nop_rom();
    let program: [u8; 16] = [
        0x3E, b'O', // LD A,'O'
        0xE0, 0x01, // LDH (SB),A
        0x3E, 0x81, // LD A,0x81
        0xE0, 0x02, // LDH (SC),A
        0x3E, b'k', // LD A,'k'
        0xE0, 0x01, // LDH (SB),A
        0x3E, 0x81, // LD A,0x81
        0xE0, 0x02, // LDH (SC),A
    ];
    rom[0x100..0x110].copy_from_slice(&program);
    let mbc = MBC1::new(&rom, None).unwrap();
    let mut system = System::from_cart(mbc);
    system.set_serial_logging(true);
    for _ in 0..30 {
        system.m_cycle();
    }
    assert_eq!(system.serial_log(), vec![b'O', b'k']);
}

#[test]
fn ly_follows_the_ppu_through_a_frame() {
    let mbc = MBC1::new(&nop_rom(), None).unwrap();
    let mut system = System::from_cart(mbc);
    // 456 dots = 114 M-cycles per line
    for _ in 0..114 {
        system.m_cycle();
    }
    assert_eq!(system.mmio().ly(), 1);
    for _ in 0..114 * 143 {
        system.m_cycle();
    }
    assert_eq!(system.mmio().ly(), 144);
    assert_eq!(system.mmio().if_() & 1, 1);
}

#[test]
fn wram_and_hram_hold_their_bytes() {
    let mut rom = nop_rom();
    let program: [u8; 10] = [
        0x3E, 0x5A, // LD A,0x5A
        0xEA, 0x00, 0xC0, // LD (0xC000),A
        0x3E, 0xA5, // LD A,0xA5
        0xE0, 0x80, // LDH (0x80),A
        0x00,
    ];
    rom[0x100..0x10A].copy_from_slice(&program);
    let mbc = MBC1::new(&rom, None).unwrap();
    let mut system = System::from_cart(mbc);
    for _ in 0..20 {
        system.m_cycle();
    }
    assert_eq!(system.parts.read(0xC000), 0x5A);
    assert_eq!(system.mmio().read(0x80), 0xA5);
}

#[test]
fn timer_interrupt_wakes_a_halted_cpu() {
    // set SP into HRAM, enable the timer at period 4, enable the Timer
    // line, EI, HALT; about a thousand M-cycles later TIMA wraps, the
    // interrupt wakes the CPU and vectors it to 0x50
    let mut rom = nop_rom();
    let program: [u8; 21] = [
        0x31, 0x90, 0xFF, // LD SP,0xFF90
        0x3E, 0x05, // LD A,0b101
        0xE0, 0x07, // LDH (TAC),A
        0x3E, 0xF0, // LD A,0xF0
        0xE0, 0x06, // LDH (TMA),A
        0x3E, 0x04, // LD A,0x04
        0xE0, 0xFF, // LDH (IE),A
        0xFB, // EI
        0x76, // HALT
        0x00, 0x00, 0x00, 0x00,
    ];
    rom[0x100..0x115].copy_from_slice(&program);
    let mbc = MBC1::new(&rom, None).unwrap();
    let mut system = System::from_cart(mbc);
    for _ in 0..30 {
        system.m_cycle();
    }
    assert_eq!(system.cpu_mode(), CpuMode::Halted);
    let mut woke = false;
    for _ in 0..1200 {
        system.m_cycle();
        if system.cpu_mode() == CpuMode::Normal {
            woke = true;
            break;
        }
    }
    assert!(woke, "the timer interrupt should wake the CPU");
    // the wake cycle serviced the interrupt: five cycles push the return
    // address and jump to the vector
    for _ in 0..5 {
        system.m_cycle();
    }
    assert_eq!(system.cpu().pc(), 0x51);
    assert!(!system.cpu().ime());
    assert_eq!(system.mmio().if_() & 0b100, 0, "the serviced line was cleared");
    // the return address (the instruction after HALT) went onto the stack
    assert_eq!(system.cpu().sp(), 0xFF8E);
    assert_eq!(system.parts.read(0xFF8F), 0x01);
    assert_eq!(system.parts.read(0xFF8E), 0x12);
    // TIMA reloaded from TMA on the wrap
    assert!(system.mmio().tima() >= 0xF0);
}
