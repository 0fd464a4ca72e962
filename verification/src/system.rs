//! The system harness: the T-clock that interleaves the PPU, the MMIO page
//! and the CPU at single-dot granularity.
//!
//! Every dot the PPU advances one step; every fourth dot is an M-cycle
//! boundary, where `LY` is refreshed from the PPU, the timer ticks, and the
//! CPU retires one micro-op — unless it is halted or stopped and its wake
//! condition has not come yet.

use vstd::prelude::*;

verus! {

use crate::button_state::ButtonState;
use crate::cpu::{spec_m_cycle_rel, CpuMode, SM83};
use crate::mbc1::MBC1;
use crate::mmio::{spec_log_seq, spec_set_ly_bytes, spec_timer_step, MMIO, IE, IF, JOYP};
use crate::ppu::{spec_paint, spec_ppu_iter, spec_ppu_step, PpuMode, PPU};
use crate::spare_parts::{SpareParts, OAM_SIZE};
use crate::{VRAM_BANK_SIZE, WRAM_BANK_SIZE};

/// Width of the LCD in pixels.
pub const LCD_WIDTH: u8 = 160;

/// Height of the LCD in pixels.
pub const LCD_HEIGHT: u8 = 144;

/// Number of pixels in the LCD.
pub const LCD_PIXEL_COUNT: usize = 160 * 144;

/// One RGBA framebuffer cell.
#[derive(Clone, Copy, PartialEq, Eq, Structural, Debug)]
pub struct Pixel {
    pub r: u8,
    pub g: u8,
    pub b: u8,
    pub a: u8,
}

/// Opaque black, the color the framebuffer starts out as.
pub open spec fn spec_opaque_black() -> Pixel {
    Pixel { r: 0, g: 0, b: 0, a: 0xFF }
}

/// The framebuffer: `LCD_PIXEL_COUNT` cells in row-major order.
pub type Lcd = Vec<Pixel>;

/// The T-clock after one dot: one more, wrapping at the machine word.
pub open spec fn spec_tick_clock(t: usize) -> usize {
    if t == usize::MAX {
        0
    } else {
        (t + 1) as usize
    }
}

/// The framebuffer after one dot of a PPU state: Draw mode paints one
/// pixel at the state's line and column, the other modes leave it alone.
pub open spec fn spec_lcd_after_dot(lcd: Seq<Pixel>, ppu: PPU) -> Seq<Pixel> {
    if ppu.mode == PpuMode::Draw {
        lcd.update(
            ppu.next_y as int * LCD_WIDTH as int + ppu.next_x as int,
            spec_paint(lcd[ppu.next_y as int * LCD_WIDTH as int + ppu.next_x as int]),
        )
    } else {
        lcd
    }
}

/// `parts` is `base` with only its MMIO page bytes and timer countdown
/// replaced — the shape of the container after the boundary's LY refresh
/// and timer tick, before the CPU runs.
pub open spec fn spec_parts_with_page(
    parts: SpareParts,
    base: SpareParts,
    bytes: Seq<u8>,
    sub: u16,
) -> bool {
    &&& parts.cart == base.cart
    &&& parts.vram == base.vram
    &&& parts.vram_bank == base.vram_bank
    &&& parts.wram == base.wram
    &&& parts.wram_bank == base.wram_bank
    &&& parts.oam == base.oam
    &&& parts.mmio.button_state == base.mmio.button_state
    &&& parts.mmio.serial_log == base.mmio.serial_log
    &&& parts.mmio.bytes@ == bytes
    &&& parts.mmio.timer_sub_ticks == sub
}

/// Whether the CPU retires on an M-cycle boundary, given its mode and the
/// page bytes after the LY refresh and timer tick: always while Normal; out
/// of Halted only once an enabled interrupt is pending; out of Stopped only
/// once some low bit of `JOYP` reads zero (a pressed button on a selected
/// line).
pub open spec fn spec_cpu_runs(mode: CpuMode, bytes: Seq<u8>) -> bool {
    match mode {
        CpuMode::Normal => true,
        CpuMode::Halted => bytes[IE as int] & bytes[IF as int] & 0x1F != 0,
        CpuMode::Stopped => bytes[JOYP as int] & 0xF != 0xF,
    }
}

/// Everything one dot does, as a relation between machine states. The clock
/// ticks and the PPU steps, painting when in Draw mode. Off an M-cycle
/// boundary nothing else changes. On a boundary, `LY` takes the stepped
/// PPU's line, the timer moves one M-cycle, and then — mode permitting —
/// the CPU retires one M-cycle against the whole container per
/// `spec_m_cycle_rel`, its returned mode becoming the machine's; a gated
/// CPU leaves everything but the page untouched. The TIMA tick and the LY
/// refresh land before the CPU, so the CPU sees them within the same
/// M-cycle.
pub open spec fn spec_t_cycle_rel(pre: System, post: System) -> bool {
    let stepped = spec_ppu_step(pre.ppu);
    &&& post.t_clock == spec_tick_clock(pre.t_clock)
    &&& post.ppu == stepped
    &&& post.lcd@ == spec_lcd_after_dot(pre.lcd@, pre.ppu)
    &&& (post.t_clock % 4 != 0 ==> post.cpu == pre.cpu && post.cpu_mode == pre.cpu_mode
        && post.parts == pre.parts)
    &&& (post.t_clock % 4 == 0 ==> ({
        let after_ly = spec_set_ly_bytes(pre.parts.mmio.bytes@, stepped.next_y);
        let ticked = spec_timer_step(after_ly, pre.parts.mmio.timer_sub_ticks);
        exists|mid: SpareParts|
            {
                &&& #[trigger] spec_parts_with_page(mid, pre.parts, ticked.0, ticked.1)
                &&& mid.inv()
                &&& if spec_cpu_runs(pre.cpu_mode, ticked.0) {
                    spec_m_cycle_rel(pre.cpu, mid, post.cpu, post.parts, post.cpu_mode)
                } else {
                    post.cpu == pre.cpu && post.parts == mid && post.cpu_mode == pre.cpu_mode
                }
            }
    }))
}

/// The whole emulated machine: CPU, PPU, framebuffer, and everything the
/// address router reaches.
pub struct System {
    pub cpu: SM83,
    pub cpu_mode: CpuMode,
    pub ppu: PPU,
    pub lcd: Lcd,
    pub parts: SpareParts,
    pub t_clock: usize,
}

impl System {
    /// Well-formed machine: every component holds its own invariant and the
    /// framebuffer has its full size.
    pub open spec fn inv(&self) -> bool {
        &&& self.cpu.inv()
        &&& self.ppu.inv()
        &&& self.lcd@.len() == LCD_PIXEL_COUNT
        &&& self.parts.inv()
    }

    /// Builds a machine around a cartridge: CPU registers cleared and PC at
    /// `0x100` (the entry point past the boot ROM, which is not
    /// implemented), the PPU at dot 0 of line 0, a black framebuffer, and
    /// the container around the cartridge zeroed — WRAM's switchable slot
    /// showing bank 1 and the MMIO page fresh.
    pub fn from_cart(cart: MBC1) -> (r: Self)
        requires
            cart.inv(),
        ensures
            r.inv(),
            r.cpu.pc == 0x100,
            r.cpu.af == 0 && r.cpu.bc == 0 && r.cpu.de == 0 && r.cpu.hl == 0 && r.cpu.sp == 0,
            !r.cpu.ime,
            r.cpu_mode == CpuMode::Normal,
            r.ppu == PPU::spec_line_start(0),
            r.t_clock == 0,
            r.parts.cart == cart,
            r.parts.vram_bank == 0,
            r.parts.wram_bank == 1,
            forall|i: int, j: int|
                0 <= i < 2 && 0 <= j < VRAM_BANK_SIZE ==> (#[trigger] r.parts.vram@[i]@[j]) == 0,
            forall|i: int, j: int|
                0 <= i < 8 && 0 <= j < WRAM_BANK_SIZE ==> (#[trigger] r.parts.wram@[i]@[j]) == 0,
            forall|j: int| 0 <= j < OAM_SIZE ==> (#[trigger] r.parts.oam@[j]) == 0,
            r.parts.mmio.bytes@[JOYP as int] == 0x0F,
            forall|i: int| 1 <= i < 256 ==> (#[trigger] r.parts.mmio.bytes@[i]) == 0,
            r.parts.mmio.serial_log is None,
            r.parts.mmio.timer_sub_ticks == 256,
            forall|i: int|
                0 <= i < LCD_PIXEL_COUNT ==> (#[trigger] r.lcd@[i]) == spec_opaque_black(),
    {
        let mut cpu = SM83::default();
        cpu.set_pc(0x100);
        System {
            cpu,
            cpu_mode: CpuMode::Normal,
            ppu: PPU::default(),
            lcd: black_lcd(),
            parts: SpareParts::from_cart(cart),
            t_clock: 0,
        }
    }

    /// Turns the serial log on (cleared) or off.
    pub fn set_serial_logging(&mut self, log: bool)
        requires
            old(self).inv(),
        ensures
            final(self).inv(),
            final(self).parts.mmio.serial_log is Some <==> log,
            spec_log_seq(&final(self).parts.mmio) == Seq::<u8>::empty(),
    {
        self.parts.set_serial_logging(log);
    }

    /// A copy of the serial log gathered so far.
    pub fn serial_log(&self) -> (r: Vec<u8>)
        ensures
            r@ == spec_log_seq(&self.parts.mmio),
    {
        self.parts.serial_log()
    }

    /// The framebuffer, 160 x 144 cells in row-major order.
    pub fn lcd(&self) -> (r: &Lcd)
        ensures
            r == &self.lcd,
    {
        &self.lcd
    }

    /// Latches a new button state (flagging the Joypad interrupt on a
    /// press).
    pub fn set_button_state(&mut self, button_state: ButtonState)
        requires
            old(self).inv(),
        ensures
            final(self).inv(),
            final(self).parts.mmio.button_state == button_state,
    {
        self.parts.set_button_state(button_state);
    }

    /// Advances the machine one dot, exactly as `spec_t_cycle_rel` says: the
    /// PPU always steps, and on every fourth dot `LY` is refreshed from the
    /// PPU, the timer ticks, and the CPU retires one M-cycle — a halted CPU
    /// only once an enabled interrupt is pending, a stopped one only once a
    /// selected button line reads pressed.
    pub fn t_cycle(&mut self)
        requires
            old(self).inv(),
        ensures
            final(self).inv(),
            spec_t_cycle_rel(*old(self), *final(self)),
    {
        self.t_clock = if self.t_clock == usize::MAX {
            0
        } else {
            self.t_clock + 1
        };
        self.ppu.t_cycle(&mut self.lcd);
        if self.t_clock % 4 == 0 {
            let ly = self.ppu.current_scanline();
            self.parts.mmio.set_ly(ly);
            self.parts.m_cycle();
            let ghost mid = self.parts;
            match self.cpu_mode {
                CpuMode::Normal => {
                    self.cpu_mode = self.cpu.m_cycle(&mut self.parts);
                },
                CpuMode::Halted => {
                    // wake up only once an interrupt is ready
                    if self.parts.check_pending_irqs() != 0 {
                        self.cpu_mode = self.cpu.m_cycle(&mut self.parts);
                    }
                },
                CpuMode::Stopped => {
                    // wake once any of the low 4 bits of JOYP reads zero (a
                    // pressed button on a selected line), regardless of
                    // interrupt settings
                    if self.parts.mmio.joyp() & 0b1111 != 0b1111 {
                        self.cpu_mode = self.cpu.m_cycle(&mut self.parts);
                    }
                },
            }
            proof {
                let stepped = spec_ppu_step(old(self).ppu);
                let after_ly = spec_set_ly_bytes(old(self).parts.mmio.bytes@, stepped.next_y);
                let ticked = spec_timer_step(after_ly, old(self).parts.mmio.timer_sub_ticks);
                assert(spec_parts_with_page(mid, old(self).parts, ticked.0, ticked.1));
                assert(mid.inv());
            }
        }
    }

    /// Advances the machine one M-cycle: exactly four dots, each per
    /// `spec_t_cycle_rel` — so the PPU steps four times, the clock gains
    /// four, and exactly one of the four dots is the M-cycle boundary that
    /// refreshes `LY`, ticks the timer once, and retires (at most) one CPU
    /// M-cycle.
    pub fn m_cycle(&mut self)
        requires
            old(self).inv(),
        ensures
            final(self).inv(),
            final(self).t_clock == spec_tick_clock(
                spec_tick_clock(spec_tick_clock(spec_tick_clock(old(self).t_clock))),
            ),
            final(self).ppu == spec_ppu_iter(old(self).ppu, 4),
            exists|s1: System, s2: System, s3: System|
                {
                    &&& #[trigger] spec_t_cycle_rel(*old(self), s1)
                    &&& #[trigger] spec_t_cycle_rel(s1, s2)
                    &&& #[trigger] spec_t_cycle_rel(s2, s3)
                    &&& spec_t_cycle_rel(s3, *final(self))
                },
    {
        self.t_cycle();
        let ghost s1 = *self;
        self.t_cycle();
        let ghost s2 = *self;
        self.t_cycle();
        let ghost s3 = *self;
        self.t_cycle();
        proof {
            assert(spec_t_cycle_rel(*old(self), s1));
            assert(spec_t_cycle_rel(s1, s2));
            assert(spec_t_cycle_rel(s2, s3));
            assert(spec_t_cycle_rel(s3, *final(self)));
            assert(spec_ppu_iter(old(self).ppu, 0) == old(self).ppu);
            assert(spec_ppu_iter(old(self).ppu, 1) == spec_ppu_step(old(self).ppu));
            assert(spec_ppu_iter(old(self).ppu, 2) == spec_ppu_step(
                spec_ppu_iter(old(self).ppu, 1),
            ));
            assert(spec_ppu_iter(old(self).ppu, 3) == spec_ppu_step(
                spec_ppu_iter(old(self).ppu, 2),
            ));
            assert(spec_ppu_iter(old(self).ppu, 4) == spec_ppu_step(
                spec_ppu_iter(old(self).ppu, 3),
            ));
        }
    }

    /// The MMIO register file, for the host to inspect.
    pub fn mmio(&self) -> (r: &MMIO)
        ensures
            r == &self.parts.mmio,
    {
        self.parts.mmio()
    }

    /// The CPU, for the host and tests to inspect.
    pub fn cpu(&self) -> (r: &SM83)
        ensures
            r == &self.cpu,
    {
        &self.cpu
    }

    /// The mode the CPU was left in by its last retired M-cycle.
    pub fn cpu_mode(&self) -> (r: CpuMode)
        ensures
            r == self.cpu_mode,
    {
        self.cpu_mode
    }
}

/// A full-size framebuffer of opaque black.
fn black_lcd() -> (lcd: Lcd)
    ensures
        lcd@.len() == LCD_PIXEL_COUNT,
        forall|i: int|
            0 <= i < LCD_PIXEL_COUNT ==> (#[trigger] lcd@[i]) == spec_opaque_black(),
{
    let mut lcd: Lcd = Vec::new();
    let mut i: usize = 0;
    while i < LCD_PIXEL_COUNT
        invariant
            i <= LCD_PIXEL_COUNT,
            lcd@.len() == i,
            forall|j: int| 0 <= j < i ==> (#[trigger] lcd@[j]) == spec_opaque_black(),
        decreases LCD_PIXEL_COUNT - i,
    {
        lcd.push(Pixel { r: 0, g: 0, b: 0, a: 0xFF });
        i = i + 1;
    }
    lcd
}

} // verus!
