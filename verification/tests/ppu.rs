use gbemu::ppu::{PpuMode, PPU};
use gbemu::system::{Lcd, Pixel, LCD_PIXEL_COUNT};

fn black() -> Lcd {
    vec![Pixel { r: 0, g: 0, b: 0, a: 0xFF }; LCD_PIXEL_COUNT]
}

#[test]
fn a_line_is_80_scan_160_draw_216_hblank() {
    let mut ppu = PPU::default();
    let mut lcd = black();
    for dot in 1..=456 {
        let mode = ppu.t_cycle(&mut lcd);
        if dot < 80 {
            assert_eq!(mode, PpuMode::Scan, "dot {dot}");
        } else if dot < 240 {
            assert_eq!(mode, PpuMode::Draw, "dot {dot}");
        } else if dot < 456 {
            assert_eq!(mode, PpuMode::HBlank, "dot {dot}");
        } else {
            assert_eq!(mode, PpuMode::Scan, "dot {dot}");
        }
    }
    assert_eq!(ppu.current_scanline(), 1);
}

#[test]
fn draw_mode_stamps_the_xor_pattern() {
    let mut ppu = PPU::default();
    let mut lcd = black();
    for _ in 0..81 {
        ppu.t_cycle(&mut lcd);
    }
    // the first pixel of line 0 has been painted exactly once
    assert_eq!(lcd[0], Pixel { r: 0xFF, g: 0xF0, b: 0x0F, a: 0xFF });
    assert_eq!(lcd[1], Pixel { r: 0x00, g: 0x00, b: 0x00, a: 0xFF });
}

#[test]
fn vblank_begins_at_line_144() {
    let mut ppu = PPU::default();
    let mut lcd = black();
    let mut mode = PpuMode::Scan;
    for _ in 0..144 * 456 {
        mode = ppu.t_cycle(&mut lcd);
    }
    assert_eq!(mode, PpuMode::VBlank);
    assert_eq!(ppu.current_scanline(), 144);
    assert_eq!(ppu.mode(), PpuMode::VBlank);
}

#[test]
fn a_frame_is_70224_dots() {
    let mut ppu = PPU::default();
    let mut lcd = black();
    for _ in 0..154 * 456 {
        ppu.t_cycle(&mut lcd);
    }
    assert_eq!(ppu.current_scanline(), 0);
    assert_eq!(ppu.mode(), PpuMode::Scan);
    // every pixel was painted exactly once per frame
    assert_eq!(lcd[LCD_PIXEL_COUNT - 1], Pixel { r: 0xFF, g: 0xF0, b: 0x0F, a: 0xFF });
}

#[test]
fn scanline_and_counter_stay_in_range_for_a_frame() {
    let mut ppu = PPU::default();
    let mut lcd = black();
    for _ in 0..154 * 456 {
        ppu.t_cycle(&mut lcd);
        assert!(ppu.current_scanline() <= 153);
        assert!(ppu.scanline_ticks <= 455);
    }
}
