//! The PPU scanline/dot state machine driving LY, the STAT mode and pixel
//! output.
//!
//! Each call advances one dot. A rendered line spends exactly 80 dots in
//! Scan, 160 in Draw (one pixel each) and 216 in HBlank — 456 in all; ten
//! VBlank lines of 456 dots follow line 143 before the frame restarts.

use vstd::prelude::*;

verus! {

use crate::system::{Lcd, LCD_HEIGHT, LCD_PIXEL_COUNT, LCD_WIDTH};

/// One entry of the object attribute memory.
#[derive(Clone, Copy, PartialEq, Eq, Structural, Debug)]
pub struct OamEntry {
    pub y: u8,
    pub x: u8,
    pub tile: u8,
    pub flags: u8,
}

impl Default for OamEntry {
    fn default() -> (r: Self)
        ensures
            r == (OamEntry { y: 0, x: 0, tile: 0, flags: 0 }),
    {
        OamEntry { y: 0, x: 0, tile: 0, flags: 0 }
    }
}

/// The mode the PPU is in, as exposed in the low 2 bits of `STAT`.
#[derive(Clone, Copy, PartialEq, Eq, Structural, Debug)]
pub enum PpuMode {
    HBlank,
    VBlank,
    Scan,
    Draw,
}

impl PpuMode {
    /// The mode's number in the `STAT` register: HBlank 0, VBlank 1, Scan 2,
    /// Draw 3.
    pub open spec fn spec_as_byte(self) -> u8 {
        match self {
            PpuMode::HBlank => 0,
            PpuMode::VBlank => 1,
            PpuMode::Scan => 2,
            PpuMode::Draw => 3,
        }
    }

    pub fn as_byte(self) -> (r: u8)
        ensures
            r == self.spec_as_byte(),
    {
        match self {
            PpuMode::HBlank => 0,
            PpuMode::VBlank => 1,
            PpuMode::Scan => 2,
            PpuMode::Draw => 3,
        }
    }
}

impl Default for PpuMode {
    fn default() -> (r: Self)
        ensures
            r == PpuMode::Scan,
    {
        PpuMode::Scan
    }
}

/// time spent scanning OAM at the start of each rendered line
pub const SCAN_TIME: u16 = 80;

/// scan + draw + blank time always adds up to this many dots per line
pub const DOTS_HORIZONTAL: u16 = 456;

/// the current line is always in `0..=LINES_VERTICAL`
pub const LINES_VERTICAL: u8 = 153;

/// The PPU state: the line and column the next pixel goes to, the current
/// mode, and how many dots of the current line have elapsed.
#[derive(Clone, Copy, PartialEq, Eq, Structural, Debug)]
pub struct PPU {
    pub next_y: u8,
    pub next_x: u8,
    pub mode: PpuMode,
    pub scanline_ticks: u16,
}

impl Default for PPU {
    /// Dot 0 of line 0, about to scan.
    fn default() -> (r: Self)
        ensures
            r == PPU::spec_line_start(0),
            r.inv(),
    {
        PPU { next_y: 0, next_x: 0, mode: PpuMode::Scan, scanline_ticks: 0 }
    }
}

/// One dot's worth of state change: Scan counts up to the scan time and hands
/// over to Draw; Draw advances one column per dot until the line's 160 pixels
/// are out; HBlank waits for dot 456, then starts the next line — or VBlank
/// once line 144 is reached; VBlank counts ten whole lines and then restarts
/// the frame at line 0.
pub open spec fn spec_ppu_step(s: PPU) -> PPU {
    match s.mode {
        PpuMode::Scan => {
            if s.scanline_ticks + 1 == SCAN_TIME {
                PPU { scanline_ticks: (s.scanline_ticks + 1) as u16, mode: PpuMode::Draw, ..s }
            } else {
                PPU { scanline_ticks: (s.scanline_ticks + 1) as u16, ..s }
            }
        },
        PpuMode::Draw => {
            let bumped = PPU {
                scanline_ticks: (s.scanline_ticks + 1) as u16,
                next_x: (s.next_x + 1) as u8,
                ..s
            };
            if s.next_x + 1 >= LCD_WIDTH {
                PPU { mode: PpuMode::HBlank, ..bumped }
            } else {
                bumped
            }
        },
        PpuMode::HBlank => {
            if s.scanline_ticks + 1 == DOTS_HORIZONTAL {
                PPU {
                    scanline_ticks: 0,
                    next_x: 0,
                    next_y: (s.next_y + 1) as u8,
                    mode: if s.next_y + 1 >= LCD_HEIGHT {
                        PpuMode::VBlank
                    } else {
                        PpuMode::Scan
                    },
                }
            } else {
                PPU { scanline_ticks: (s.scanline_ticks + 1) as u16, ..s }
            }
        },
        PpuMode::VBlank => {
            if s.scanline_ticks + 1 == DOTS_HORIZONTAL {
                if s.next_y + 1 > LINES_VERTICAL {
                    PPU { scanline_ticks: 0, next_y: 0, mode: PpuMode::Scan, ..s }
                } else {
                    PPU { scanline_ticks: 0, next_y: (s.next_y + 1) as u8, ..s }
                }
            } else {
                PPU { scanline_ticks: (s.scanline_ticks + 1) as u16, ..s }
            }
        },
    }
}

/// `spec_ppu_step` applied `n` times.
pub open spec fn spec_ppu_iter(s: PPU, n: nat) -> PPU
    decreases n,
{
    if n == 0 {
        s
    } else {
        spec_ppu_step(spec_ppu_iter(s, (n - 1) as nat))
    }
}

impl PPU {
    /// Dot 0 of line `y`, about to scan.
    pub open spec fn spec_line_start(y: u8) -> PPU {
        PPU { next_y: y, next_x: 0, mode: PpuMode::Scan, scanline_ticks: 0 }
    }

    /// What holds of the state between dots: the line is at most 153, the
    /// per-line dot counter at most 455, and each mode sits in its slice of
    /// the line: Scan in dots 0..80 of a rendered line, Draw in dots 80..240
    /// with the dot counter tracking the column, HBlank in dots 240..456,
    /// VBlank on lines 144..=153.
    pub open spec fn inv(&self) -> bool {
        match self.mode {
            PpuMode::Scan => self.next_y < LCD_HEIGHT && self.next_x == 0 && self.scanline_ticks
                < SCAN_TIME,
            PpuMode::Draw => self.next_y < LCD_HEIGHT && self.next_x < LCD_WIDTH
                && self.scanline_ticks == SCAN_TIME + self.next_x,
            PpuMode::HBlank => self.next_y < LCD_HEIGHT && self.next_x == LCD_WIDTH
                && SCAN_TIME + LCD_WIDTH <= self.scanline_ticks < DOTS_HORIZONTAL,
            PpuMode::VBlank => LCD_HEIGHT <= self.next_y <= LINES_VERTICAL && self.next_x == 0
                && self.scanline_ticks < DOTS_HORIZONTAL,
        }
    }

    /// Advances the PPU by one dot, painting one pixel when in Draw mode, and
    /// returns the mode now in force.
    pub fn t_cycle(&mut self, lcd: &mut Lcd) -> (r: PpuMode)
        requires
            old(self).inv(),
            old(lcd)@.len() == LCD_PIXEL_COUNT,
        ensures
            *final(self) == spec_ppu_step(*old(self)),
            final(self).inv(),
            r == final(self).mode,
            final(lcd)@.len() == old(lcd)@.len(),
            old(self).mode == PpuMode::Draw ==> final(lcd)@ == old(lcd)@.update(
                old(self).next_y as int * LCD_WIDTH as int + old(self).next_x as int,
                spec_paint(old(lcd)@[old(self).next_y as int * LCD_WIDTH as int + old(
                    self,
                ).next_x as int]),
            ),
            old(self).mode != PpuMode::Draw ==> final(lcd)@ == old(lcd)@,
    {
        match self.mode {
            PpuMode::Scan => {
                self.scanline_ticks = self.scanline_ticks + 1;
                if self.scanline_ticks == SCAN_TIME {
                    self.mode = PpuMode::Draw;
                }
            },
            PpuMode::Draw => {
                self.scanline_ticks = self.scanline_ticks + 1;
                let y = self.next_y;
                let x = self.next_x;
                let i = (y as usize) * (LCD_WIDTH as usize) + (x as usize);
                proof {
                    assert((y as usize) * 160 + (x as usize) < LCD_PIXEL_COUNT) by (nonlinear_arith)
                        requires
                            y < 144,
                            x < 160,
                    ;
                }
                let mut px = lcd[i];
                px.r = px.r ^ 0xFF;
                px.g = px.g ^ 0xF0;
                px.b = px.b ^ 0x0F;
                lcd[i] = px;
                self.next_x = self.next_x + 1;
                if self.next_x >= LCD_WIDTH {
                    self.mode = PpuMode::HBlank;
                }
            },
            PpuMode::HBlank => {
                self.scanline_ticks = self.scanline_ticks + 1;
                if self.scanline_ticks == DOTS_HORIZONTAL {
                    self.next_x = 0;
                    self.scanline_ticks = 0;
                    self.next_y = self.next_y + 1;
                    if self.next_y >= LCD_HEIGHT {
                        self.mode = PpuMode::VBlank;
                    } else {
                        self.mode = PpuMode::Scan;
                    }
                }
            },
            PpuMode::VBlank => {
                self.scanline_ticks = self.scanline_ticks + 1;
                if self.scanline_ticks == DOTS_HORIZONTAL {
                    self.next_y = self.next_y + 1;
                    self.scanline_ticks = 0;
                    if self.next_y > LINES_VERTICAL {
                        self.next_y = 0;
                        self.mode = PpuMode::Scan;
                    }
                }
            },
        }
        self.mode
    }

    /// The line the next pixel goes to; the harness copies it into `LY` every
    /// M-cycle.
    pub fn current_scanline(&self) -> (r: u8)
        ensures
            r == self.next_y,
    {
        self.next_y
    }

    /// The mode currently in force.
    pub fn mode(&self) -> (r: PpuMode)
        ensures
            r == self.mode,
    {
        self.mode
    }
}

/// The placeholder pixel rule: real tile fetching is deliberately not
/// modelled, so Draw mode stamps a recognizable XOR pattern instead.
pub open spec fn spec_paint(p: crate::system::Pixel) -> crate::system::Pixel {
    crate::system::Pixel { r: p.r ^ 0xFF, g: p.g ^ 0xF0, b: p.b ^ 0x0F, a: p.a }
}

/// Every reachable PPU state keeps the line in `0..=153` and the per-line dot
/// counter in `0..=455`.
pub proof fn lemma_ppu_ranges(s: &PPU)
    requires
        s.inv(),
    ensures
        s.next_y <= LINES_VERTICAL,
        s.scanline_ticks <= 455,
{
}

/// Scan mode runs out the rest of its 80 dots and hands over to Draw.
proof fn lemma_scan_phase(s: PPU)
    requires
        s.inv(),
        s.mode == PpuMode::Scan,
    ensures
        spec_ppu_iter(s, (SCAN_TIME - s.scanline_ticks) as nat) == (PPU {
            next_y: s.next_y,
            next_x: 0,
            mode: PpuMode::Draw,
            scanline_ticks: SCAN_TIME,
        }),
    decreases SCAN_TIME - s.scanline_ticks,
{
    let stepped = spec_ppu_step(s);
    assert(spec_ppu_iter(s, 0) == s);
    if s.scanline_ticks + 1 == SCAN_TIME {
        assert(spec_ppu_iter(s, 1) == stepped);
    } else {
        lemma_scan_phase(stepped);
        lemma_iter_unfold_front(s, (SCAN_TIME - s.scanline_ticks) as nat);
    }
}

/// Draw mode paints its remaining pixels, one per dot, and hands over to
/// HBlank at dot 240.
proof fn lemma_draw_phase(s: PPU)
    requires
        s.inv(),
        s.mode == PpuMode::Draw,
    ensures
        spec_ppu_iter(s, (LCD_WIDTH - s.next_x) as nat) == (PPU {
            next_y: s.next_y,
            next_x: LCD_WIDTH,
            mode: PpuMode::HBlank,
            scanline_ticks: (SCAN_TIME + LCD_WIDTH) as u16,
        }),
    decreases LCD_WIDTH - s.next_x,
{
    let stepped = spec_ppu_step(s);
    assert(spec_ppu_iter(s, 0) == s);
    if s.next_x + 1 == LCD_WIDTH {
        assert(spec_ppu_iter(s, 1) == stepped);
    } else {
        lemma_draw_phase(stepped);
        lemma_iter_unfold_front(s, (LCD_WIDTH - s.next_x) as nat);
    }
}

/// HBlank waits out the rest of the line's 456 dots, then starts the next
/// line: Scan again below line 144, VBlank at line 144.
proof fn lemma_hblank_phase(s: PPU)
    requires
        s.inv(),
        s.mode == PpuMode::HBlank,
    ensures
        spec_ppu_iter(s, (DOTS_HORIZONTAL - s.scanline_ticks) as nat) == (PPU {
            next_y: (s.next_y + 1) as u8,
            next_x: 0,
            mode: if s.next_y + 1 >= LCD_HEIGHT {
                PpuMode::VBlank
            } else {
                PpuMode::Scan
            },
            scanline_ticks: 0,
        }),
    decreases DOTS_HORIZONTAL - s.scanline_ticks,
{
    let stepped = spec_ppu_step(s);
    assert(spec_ppu_iter(s, 0) == s);
    if s.scanline_ticks + 1 == DOTS_HORIZONTAL {
        assert(spec_ppu_iter(s, 1) == stepped);
    } else {
        lemma_hblank_phase(stepped);
        lemma_iter_unfold_front(s, (DOTS_HORIZONTAL - s.scanline_ticks) as nat);
    }
}

/// Peeling one step off the front of an iteration.
proof fn lemma_iter_unfold_front(s: PPU, n: nat)
    requires
        n >= 1,
    ensures
        spec_ppu_iter(s, n) == spec_ppu_iter(spec_ppu_step(s), (n - 1) as nat),
    decreases n,
{
    let stepped = spec_ppu_step(s);
    if n == 1 {
        assert(spec_ppu_iter(s, 0) == s);
        assert(spec_ppu_iter(s, 1) == stepped);
        assert(spec_ppu_iter(stepped, 0) == stepped);
    } else {
        lemma_iter_unfold_front(stepped, (n - 1) as nat);
        assert(spec_ppu_iter(s, n) == spec_ppu_step(spec_ppu_iter(s, (n - 1) as nat)));
        assert(spec_ppu_iter(stepped, (n - 1) as nat) == spec_ppu_step(
            spec_ppu_iter(stepped, (n - 2) as nat),
        ));
        lemma_iter_unfold_front(s, (n - 1) as nat);
    }
}

/// Iterating `a + b` dots is iterating `a`, then `b`.
proof fn lemma_iter_add(s: PPU, a: nat, b: nat)
    ensures
        spec_ppu_iter(s, a + b) == spec_ppu_iter(spec_ppu_iter(s, a), b),
    decreases b,
{
    if b > 0 {
        lemma_iter_add(s, a, (b - 1) as nat);
    }
}

/// The per-line dot budget of a rendered line: starting a line below 144, the
/// PPU spends exactly 80 dots in Scan, the next 160 in Draw, and the last 216
/// in HBlank — 456 dots in all — and then stands at the start of the next
/// line (entering VBlank when line 144 is reached).
pub proof fn lemma_line_dot_budget(y: u8)
    requires
        y < LCD_HEIGHT,
    ensures
        spec_ppu_iter(PPU::spec_line_start(y), SCAN_TIME as nat) == (PPU {
            next_y: y,
            next_x: 0,
            mode: PpuMode::Draw,
            scanline_ticks: SCAN_TIME,
        }),
        spec_ppu_iter(PPU::spec_line_start(y), (SCAN_TIME + LCD_WIDTH) as nat) == (PPU {
            next_y: y,
            next_x: LCD_WIDTH,
            mode: PpuMode::HBlank,
            scanline_ticks: (SCAN_TIME + LCD_WIDTH) as u16,
        }),
        spec_ppu_iter(PPU::spec_line_start(y), DOTS_HORIZONTAL as nat) == (PPU {
            next_y: (y + 1) as u8,
            next_x: 0,
            mode: if y + 1 >= LCD_HEIGHT {
                PpuMode::VBlank
            } else {
                PpuMode::Scan
            },
            scanline_ticks: 0,
        }),
{
    let start = PPU::spec_line_start(y);
    lemma_scan_phase(start);
    let at_draw = spec_ppu_iter(start, SCAN_TIME as nat);
    lemma_draw_phase(at_draw);
    lemma_iter_add(start, SCAN_TIME as nat, LCD_WIDTH as nat);
    let at_hblank = spec_ppu_iter(start, (SCAN_TIME + LCD_WIDTH) as nat);
    lemma_hblank_phase(at_hblank);
    lemma_iter_add(start, (SCAN_TIME + LCD_WIDTH) as nat, (DOTS_HORIZONTAL - SCAN_TIME
        - LCD_WIDTH) as nat);
}

} // verus!
