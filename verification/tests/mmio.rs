use gbemu::button_state::ButtonState;
use gbemu::mmio::{SerialControl, TimerControl, MMIO};
use gbemu::IrqTy;

#[test]
fn default_page_is_cleared_with_joyp_encoded() {
    let mmio = MMIO::default();
    assert_eq!(mmio.joyp(), 0x0F);
    for i in 1..=255u8 {
        assert_eq!(mmio.read(i), 0x00);
    }
    assert!(mmio.serial_log().is_empty());
}

#[test]
fn plain_bytes_store_and_read_back() {
    let mut mmio = MMIO::default();
    mmio.write(0x80, 0xAA); // HRAM
    mmio.write(0xFF, 0x1F); // IE
    mmio.write(0x0F, 0x02); // IF
    assert_eq!(mmio.read(0x80), 0xAA);
    assert_eq!(mmio.read(0xFF), 0x1F);
    assert_eq!(mmio.if_(), 0x02);
}

#[test]
fn timer_overflow_reloads_tma_and_flags_the_interrupt() {
    // TAC = 0b101: enabled, period 4; TIMA = 0xFF, TMA = 0xF0. Within five
    // M-cycles the timer ticks once, wraps, reloads and raises IF bit 2.
    let mut mmio = MMIO::default();
    mmio.write(0x07, 0b101);
    mmio.write(0x06, 0xF0);
    mmio.write(0x05, 0xFF);
    for _ in 0..5 {
        mmio.m_cycle();
    }
    assert_eq!(mmio.tima(), 0xF0);
    assert_eq!(mmio.tma(), 0xF0);
    assert_eq!(mmio.if_() & 0b100, 0b100);
}

#[test]
fn timer_counts_only_when_enabled() {
    let mut mmio = MMIO::default();
    mmio.write(0x07, 0b001); // period 4, but disabled
    mmio.write(0x05, 0x00);
    for _ in 0..64 {
        mmio.m_cycle();
    }
    assert_eq!(mmio.tima(), 0x00);
}

#[test]
fn timer_period_sixteen_ticks_once_in_sixteen_cycles() {
    let mut mmio = MMIO::default();
    mmio.write(0x07, 0b110); // enabled, period 16
    for _ in 0..15 {
        mmio.m_cycle();
    }
    assert_eq!(mmio.tima(), 0x00);
    mmio.m_cycle();
    assert_eq!(mmio.tima(), 0x01);
}

#[test]
fn tac_write_restarts_the_countdown() {
    let mut mmio = MMIO::default();
    mmio.write(0x07, 0b101); // enabled, period 4
    mmio.m_cycle();
    mmio.m_cycle();
    mmio.write(0x07, 0b101); // rewrite: the countdown starts over
    for _ in 0..3 {
        mmio.m_cycle();
    }
    assert_eq!(mmio.tima(), 0x00);
    mmio.m_cycle();
    assert_eq!(mmio.tima(), 0x01);
}

#[test]
fn sub_ticks_per_period_select() {
    assert_eq!(TimerControl(0b100).sub_ticks(), 256);
    assert_eq!(TimerControl(0b101).sub_ticks(), 4);
    assert_eq!(TimerControl(0b110).sub_ticks(), 16);
    assert_eq!(TimerControl(0b111).sub_ticks(), 64);
    assert!(TimerControl(0b100).enabled());
    assert!(!TimerControl(0b011).enabled());
}

#[test]
fn serial_control_bits() {
    let sc = SerialControl(0x81);
    assert!(sc.transfer());
    assert!(sc.internal());
    assert!(!sc.fast());
}

#[test]
fn serial_log_records_sb_on_transfer() {
    let mut mmio = MMIO::default();
    mmio.set_serial_logging(true);
    mmio.write(0x01, b'H');
    mmio.write(0x02, 0x81);
    mmio.write(0x01, b'i');
    mmio.write(0x02, 0x81);
    mmio.write(0x01, b'!');
    mmio.write(0x02, 0x01); // no transfer bit: nothing logged
    assert_eq!(mmio.serial_log(), vec![b'H', b'i']);
    mmio.set_serial_logging(false);
    assert!(mmio.serial_log().is_empty());
}

#[test]
fn serial_log_off_by_default() {
    let mut mmio = MMIO::default();
    mmio.write(0x01, b'x');
    mmio.write(0x02, 0x81);
    assert!(mmio.serial_log().is_empty());
}

#[test]
fn stat_low_bits_are_read_only() {
    let mut mmio = MMIO::default();
    mmio.set_ppu_mode(gbemu::ppu::PpuMode::Draw);
    mmio.write(0x41, 0xFF);
    // bits 0..=2 kept from before the write, the rest taken from it
    assert_eq!(mmio.read(0x41), 0xFB);
    mmio.write(0x41, 0x00);
    assert_eq!(mmio.read(0x41), 0x03);
}

#[test]
fn set_ly_flags_vblank_at_line_144_once() {
    let mut mmio = MMIO::default();
    mmio.set_ly(143);
    assert_eq!(mmio.if_(), 0x00);
    mmio.set_ly(144);
    assert_eq!(mmio.if_(), 0x01);
    mmio.write(0x0F, 0x00);
    mmio.set_ly(144);
    assert_eq!(mmio.if_(), 0x00);
}

#[test]
fn set_ly_tracks_the_lyc_match_bit() {
    let mut mmio = MMIO::default();
    mmio.write(0x45, 0x05); // LYC
    mmio.set_ly(0x05);
    assert_eq!(mmio.read(0x41) & 0x04, 0x04);
    assert_eq!(mmio.ly(), 0x05);
    mmio.set_ly(0x06);
    assert_eq!(mmio.read(0x41) & 0x04, 0x00);
}

#[test]
fn joyp_write_selects_a_group() {
    let mut mmio = MMIO::default();
    mmio.set_button_state(ButtonState::new().with_right(true));
    mmio.write(0x0F, 0x00);
    mmio.write(0x00, 0b0001_0000); // select the direction group
    assert_eq!(mmio.joyp(), 0b0001_1110);
}

#[test]
fn joypad_edge_flags_the_interrupt() {
    // select the direction group with everything released, then press Right:
    // IF bit 4 rises and the read reflects the press
    let mut mmio = MMIO::default();
    mmio.set_button_state(ButtonState::new());
    mmio.write(0x00, 0b0001_0000);
    assert_eq!(mmio.if_() & 0x10, 0x00);
    mmio.set_button_state(ButtonState::new().with_right(true));
    assert_eq!(mmio.if_() & 0x10, 0x10);
    assert_eq!(mmio.joyp(), 0b0001_1110);
}

#[test]
fn releasing_a_button_does_not_flag() {
    let mut mmio = MMIO::default();
    mmio.write(0x00, 0b0001_0000);
    mmio.set_button_state(ButtonState::new().with_right(true));
    mmio.write(0x0F, 0x00);
    mmio.set_button_state(ButtonState::new());
    assert_eq!(mmio.if_() & 0x10, 0x00);
}

#[test]
fn flag_interrupt_sets_each_line() {
    let mut mmio = MMIO::default();
    mmio.flag_interrupt(IrqTy::VBlank);
    mmio.flag_interrupt(IrqTy::LCDSTAT);
    mmio.flag_interrupt(IrqTy::Timer);
    mmio.flag_interrupt(IrqTy::Serial);
    mmio.flag_interrupt(IrqTy::Joypad);
    assert_eq!(mmio.if_(), 0x1F);
}
