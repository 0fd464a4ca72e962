//! The 256-byte memory-mapped I/O page at `0xFF00..=0xFFFF`, with live
//! semantics for the joypad, serial, timer and LCD status registers; the
//! rest of the page (HRAM included) is plain storage.

use vstd::prelude::*;

verus! {

use crate::bits::{bit_of, spec_bit_of, spec_with_bit, with_bit};
use crate::button_state::{spec_to_joyp, ButtonState};
use crate::ppu::PpuMode;
use crate::spare_parts::IrqTy;

/// Page index of the joypad register.
pub const JOYP: usize = 0x00;

/// Page index of the serial data register.
pub const SB: usize = 0x01;

/// Page index of the serial control register.
pub const SC: usize = 0x02;

/// Page index of the timer counter.
pub const TIMA: usize = 0x05;

/// Page index of the timer modulo.
pub const TMA: usize = 0x06;

/// Page index of the timer control.
pub const TAC: usize = 0x07;

/// Page index of the interrupt-pending flags.
pub const IF: usize = 0x0F;

/// Page index of the LCD status register.
pub const STAT: usize = 0x41;

/// Page index of the current-scanline register.
pub const LY: usize = 0x44;

/// Page index of the scanline-compare register.
pub const LYC: usize = 0x45;

/// Page index of the interrupt-enable mask.
pub const IE: usize = 0xFF;

/// The serial control register: bit 7 requests a transfer, bit 1 picks the
/// fast clock, bit 0 the internal clock.
#[derive(Clone, Copy, Debug)]
pub struct SerialControl(pub u8);

impl Default for SerialControl {
    fn default() -> (r: Self)
        ensures
            r.0 == 0,
    {
        SerialControl(0)
    }
}

impl SerialControl {
    pub fn transfer(self) -> (r: bool)
        ensures
            r == spec_bit_of(self.0, 7),
    {
        bit_of(self.0, 7)
    }

    pub fn fast(self) -> (r: bool)
        ensures
            r == spec_bit_of(self.0, 1),
    {
        bit_of(self.0, 1)
    }

    pub fn internal(self) -> (r: bool)
        ensures
            r == spec_bit_of(self.0, 0),
    {
        bit_of(self.0, 0)
    }
}

/// How many M-cycle sub-ticks of the timer pass before `TIMA` ticks, for a
/// `TAC` value: period select 0 means 256, 1 means 4, 2 means 16, 3 means 64.
pub open spec fn spec_sub_ticks(tac: u8) -> u16 {
    if tac % 4 == 0 {
        256
    } else if tac % 4 == 1 {
        4
    } else if tac % 4 == 2 {
        16
    } else {
        64
    }
}

/// The timer control register: bit 2 enables the timer, bits 1..0 select the
/// sub-tick period.
#[derive(Clone, Copy, Debug)]
pub struct TimerControl(pub u8);

impl Default for TimerControl {
    fn default() -> (r: Self)
        ensures
            r.0 == 0,
    {
        TimerControl(0)
    }
}

impl TimerControl {
    pub fn enabled(self) -> (r: bool)
        ensures
            r == spec_bit_of(self.0, 2),
    {
        bit_of(self.0, 2)
    }

    /// The number of M-cycle sub-ticks of the timer before the main value
    /// ticks.
    pub fn sub_ticks(self) -> (r: u16)
        ensures
            r == spec_sub_ticks(self.0),
    {
        match self.0 % 4 {
            0 => 256,
            1 => 4,
            2 => 16,
            _ => 64,
        }
    }
}

/// The MMIO register file: the 256-byte backing page, the last latched
/// button state, the optional serial output log, and the timer's sub-tick
/// countdown.
pub struct MMIO {
    pub bytes: Vec<u8>,
    pub button_state: ButtonState,
    pub serial_log: Option<Vec<u8>>,
    pub timer_sub_ticks: u16,
}

/// How one M-cycle moves the timer, over the page bytes and the sub-tick
/// countdown: nothing while `TAC` has it disabled; otherwise the countdown
/// drops by one, and on reaching zero it reloads from the `TAC` period while
/// `TIMA` ticks — a wrap copying `TMA` into `TIMA` and flagging the Timer
/// interrupt.
pub open spec fn spec_timer_step(bytes: Seq<u8>, sub: u16) -> (Seq<u8>, u16) {
    let tac = bytes[TAC as int];
    if !spec_bit_of(tac, 2) {
        (bytes, sub)
    } else if sub > 1 {
        (bytes, (sub - 1) as u16)
    } else {
        let ticked = if bytes[TIMA as int] == 0xFF {
            bytes.update(TIMA as int, bytes[TMA as int]).update(
                IF as int,
                bytes[IF as int] | 0x04,
            )
        } else {
            bytes.update(TIMA as int, (bytes[TIMA as int] + 1) as u8)
        };
        (ticked, spec_sub_ticks(tac))
    }
}

/// One timer M-cycle as a relation between register files: the page bytes
/// and the countdown move by `spec_timer_step`, everything else stays.
pub open spec fn spec_timer_rel(pre: &MMIO, post: &MMIO) -> bool {
    &&& post.button_state == pre.button_state
    &&& post.serial_log == pre.serial_log
    &&& post.bytes@ == spec_timer_step(pre.bytes@, pre.timer_sub_ticks).0
    &&& post.timer_sub_ticks == spec_timer_step(pre.bytes@, pre.timer_sub_ticks).1
}

/// How refreshing `LY` changes the page bytes: the VBlank interrupt is
/// flagged when the line first reaches 144, the `LY == LYC` match bit of
/// `STAT` is kept accurate, and the line is stored.
pub open spec fn spec_set_ly_bytes(bytes: Seq<u8>, byte: u8) -> Seq<u8> {
    let flagged = if byte == 144 && bytes[LY as int] < 144 {
        bytes.update(IF as int, bytes[IF as int] | 0x01)
    } else {
        bytes
    };
    let matched = flagged.update(
        STAT as int,
        spec_with_bit(flagged[STAT as int], 2, byte == flagged[LYC as int]),
    );
    matched.update(LY as int, byte)
}

/// The serial log gathered so far (empty when logging is off).
pub open spec fn spec_log_seq(m: &MMIO) -> Seq<u8> {
    match m.serial_log {
        Some(log) => log@,
        None => Seq::<u8>::empty(),
    }
}

impl MMIO {
    /// The page holds 256 bytes and the timer countdown is pinned between 1
    /// and its largest period, so a tick can always take one off it.
    pub open spec fn inv(&self) -> bool {
        &&& self.bytes@.len() == 256
        &&& 1 <= self.timer_sub_ticks <= 256
    }

    /// How a CPU write changes the page. `JOYP` stores the button state
    /// encoded under the written selection bits; `SC` with bit 7 set logs the
    /// current `SB` byte (when logging is on) and stores the byte; `TAC`
    /// stores the byte and restarts the sub-tick countdown at the new period;
    /// `STAT` keeps its read-only low 3 bits; every other index is plain
    /// storage. The button latch never changes here.
    pub open spec fn spec_write_rel(pre: &MMIO, index: u8, byte: u8, post: &MMIO) -> bool {
        &&& post.button_state == pre.button_state
        &&& (if index as int == JOYP {
            post.bytes@ == pre.bytes@.update(
                JOYP as int,
                spec_to_joyp(pre.button_state.0, !spec_bit_of(byte, 5), !spec_bit_of(byte, 4)),
            )
        } else if index as int == STAT {
            post.bytes@ == pre.bytes@.update(
                STAT as int,
                (byte & 0xF8) | (pre.bytes@[STAT as int] & 0x07),
            )
        } else {
            post.bytes@ == pre.bytes@.update(index as int, byte)
        })
        &&& (if index as int == SC {
            &&& (post.serial_log is Some <==> pre.serial_log is Some)
            &&& spec_log_seq(post) == (if spec_bit_of(byte, 7) && pre.serial_log is Some {
                spec_log_seq(pre).push(pre.bytes@[SB as int])
            } else {
                spec_log_seq(pre)
            })
        } else {
            post.serial_log == pre.serial_log
        })
        &&& post.timer_sub_ticks == (if index as int == TAC {
            spec_sub_ticks(byte)
        } else {
            pre.timer_sub_ticks
        })
    }

    /// Reads byte `index` of the page.
    pub fn read(&self, index: u8) -> (r: u8)
        requires
            self.inv(),
        ensures
            r == self.bytes@[index as int],
    {
        self.bytes[index as usize]
    }

    /// Writes byte `index` of the page, with the live semantics of
    /// `spec_write_rel`.
    pub fn write(&mut self, index: u8, byte: u8)
        requires
            old(self).inv(),
        ensures
            final(self).inv(),
            MMIO::spec_write_rel(old(self), index, byte, final(self)),
    {
        if index as usize == JOYP {
            let action = !bit_of(byte, 5);
            let direction = !bit_of(byte, 4);
            let encoded = self.button_state.to_joyp(action, direction);
            self.bytes[JOYP] = encoded;
        } else if index as usize == SC {
            if bit_of(byte, 7) {
                let sb = self.bytes[SB];
                match self.serial_log.take() {
                    Some(mut log) => {
                        log.push(sb);
                        self.serial_log = Some(log);
                    },
                    None => {},
                }
            }
            self.bytes[SC] = byte;
        } else if index as usize == STAT {
            // bits 0..=2 are read-only to the CPU.
            let old_stat = self.bytes[STAT];
            self.bytes[STAT] = (byte & 0xF8) | (old_stat & 0x07);
        } else if index as usize == TAC {
            self.bytes[TAC] = byte;
            self.timer_sub_ticks = TimerControl(byte).sub_ticks();
        } else {
            self.bytes[index as usize] = byte;
        }
    }

    /// Turns the serial log on (cleared) or off.
    pub fn set_serial_logging(&mut self, log: bool)
        requires
            old(self).inv(),
        ensures
            final(self).inv(),
            final(self).serial_log is Some <==> log,
            spec_log_seq(final(self)) == Seq::<u8>::empty(),
            final(self).bytes == old(self).bytes,
            final(self).button_state == old(self).button_state,
            final(self).timer_sub_ticks == old(self).timer_sub_ticks,
    {
        if log {
            self.serial_log = Some(Vec::new());
        } else {
            self.serial_log = None;
        }
    }

    /// A copy of the serial log gathered so far.
    pub fn serial_log(&self) -> (r: Vec<u8>)
        ensures
            r@ == spec_log_seq(self),
    {
        match &self.serial_log {
            Some(log) => {
                let mut out: Vec<u8> = Vec::new();
                let mut i: usize = 0;
                while i < log.len()
                    invariant
                        i <= log@.len(),
                        out@ == log@.subrange(0, i as int),
                    decreases log@.len() - i,
                {
                    out.push(log[i]);
                    i = i + 1;
                    proof {
                        assert(out@ =~= log@.subrange(0, i as int));
                    }
                }
                proof {
                    assert(out@ =~= log@);
                }
                out
            },
            None => Vec::new(),
        }
    }

    /// Latches a new button state, re-encodes `JOYP` under the current
    /// selection bits, and flags the Joypad interrupt when a selected button
    /// line goes from released to pressed (and not every line reads released
    /// afterwards).
    pub fn set_button_state(&mut self, button_state: ButtonState)
        requires
            old(self).inv(),
        ensures
            final(self).inv(),
            final(self).button_state == button_state,
            final(self).serial_log == old(self).serial_log,
            final(self).timer_sub_ticks == old(self).timer_sub_ticks,
            ({
                let oldj = old(self).bytes@[JOYP as int];
                let newj = spec_to_joyp(
                    button_state.0,
                    !spec_bit_of(oldj, 5),
                    !spec_bit_of(oldj, 4),
                );
                let pressed_edge = (oldj & 0xF) & (!newj & 0xF) != 0;
                let any_low = (newj & 0xF) != 0xF;
                final(self).bytes@ == (if pressed_edge && any_low {
                    old(self).bytes@.update(JOYP as int, newj).update(
                        IF as int,
                        old(self).bytes@[IF as int] | 0x10,
                    )
                } else {
                    old(self).bytes@.update(JOYP as int, newj)
                })
            }),
    {
        let oldj = self.bytes[JOYP];
        let action = !bit_of(oldj, 5);
        let direction = !bit_of(oldj, 4);
        self.button_state = button_state;
        let newj = self.button_state.to_joyp(action, direction);
        self.bytes[JOYP] = newj;
        // flag an interrupt on a released-to-pressed edge of a selected line,
        // unless the press leaves no line readable.
        let pressed_edge = (oldj & 0xF) & (!newj & 0xF) != 0;
        let any_low = (newj & 0xF) != 0xF;
        if pressed_edge && any_low {
            proof {
                assert(IrqTy::Joypad.spec_index() == 4);
                assert(1u8 << 4 == 0x10) by (bit_vector);
            }
            self.flag_interrupt(IrqTy::Joypad);
        }
    }

    /// Refreshes `LY` from the PPU: flags VBlank when the line first reaches
    /// 144, keeps the `LY == LYC` match bit of `STAT` accurate, and stores
    /// the line.
    pub fn set_ly(&mut self, byte: u8)
        requires
            old(self).inv(),
        ensures
            final(self).inv(),
            final(self).button_state == old(self).button_state,
            final(self).serial_log == old(self).serial_log,
            final(self).timer_sub_ticks == old(self).timer_sub_ticks,
            final(self).bytes@ == spec_set_ly_bytes(old(self).bytes@, byte),
    {
        // flag interrupt when we first get to line 144
        if byte == 144 && self.bytes[LY] < 144 {
            proof {
                assert(IrqTy::VBlank.spec_index() == 0);
                assert(1u8 << 0 == 0x01) by (bit_vector);
            }
            self.flag_interrupt(IrqTy::VBlank);
        }
        // always keep the lyc match bit accurate.
        let lyc = self.bytes[LYC];
        let stat = self.bytes[STAT];
        self.bytes[STAT] = with_bit(stat, 2, byte == lyc);
        self.bytes[LY] = byte;
    }

    /// Stores the PPU's mode in the low 2 bits of `STAT`.
    pub fn set_ppu_mode(&mut self, mode: PpuMode)
        requires
            old(self).inv(),
        ensures
            final(self).inv(),
            final(self).button_state == old(self).button_state,
            final(self).serial_log == old(self).serial_log,
            final(self).timer_sub_ticks == old(self).timer_sub_ticks,
            final(self).bytes@ == old(self).bytes@.update(
                STAT as int,
                (old(self).bytes@[STAT as int] & 0xFC) | mode.spec_as_byte(),
            ),
    {
        let stat = self.bytes[STAT];
        self.bytes[STAT] = (stat & 0xFC) | mode.as_byte();
    }

    /// One M-cycle of the timer: while `TAC` has the timer enabled, the
    /// sub-tick countdown drops by one; on reaching zero it reloads from the
    /// `TAC` period and `TIMA` ticks; a `TIMA` wrap reloads it from `TMA` and
    /// flags the Timer interrupt.
    pub fn m_cycle(&mut self)
        requires
            old(self).inv(),
        ensures
            final(self).inv(),
            spec_timer_rel(old(self), final(self)),
    {
        let tac = TimerControl(self.bytes[TAC]);
        // if timer enabled
        if tac.enabled() {
            self.timer_sub_ticks = self.timer_sub_ticks - 1;
            if self.timer_sub_ticks == 0 {
                self.timer_sub_ticks = tac.sub_ticks();
                let tima = self.bytes[TIMA];
                if tima == 0xFF {
                    let tma = self.bytes[TMA];
                    self.bytes[TIMA] = tma;
                    proof {
                        assert(IrqTy::Timer.spec_index() == 2);
                        assert(1u8 << 2 == 0x04) by (bit_vector);
                    }
                    self.flag_interrupt(IrqTy::Timer);
                } else {
                    self.bytes[TIMA] = tima + 1;
                }
            }
        }
    }

    pub fn joyp(&self) -> (r: u8)
        requires
            self.inv(),
        ensures
            r == self.bytes@[JOYP as int],
    {
        self.read(JOYP as u8)
    }

    pub fn sb(&self) -> (r: u8)
        requires
            self.inv(),
        ensures
            r == self.bytes@[SB as int],
    {
        self.read(SB as u8)
    }

    pub fn sc(&self) -> (r: u8)
        requires
            self.inv(),
        ensures
            r == self.bytes@[SC as int],
    {
        self.read(SC as u8)
    }

    pub fn tima(&self) -> (r: u8)
        requires
            self.inv(),
        ensures
            r == self.bytes@[TIMA as int],
    {
        self.read(TIMA as u8)
    }

    pub fn tma(&self) -> (r: u8)
        requires
            self.inv(),
        ensures
            r == self.bytes@[TMA as int],
    {
        self.read(TMA as u8)
    }

    pub fn tac(&self) -> (r: TimerControl)
        requires
            self.inv(),
        ensures
            r.0 == self.bytes@[TAC as int],
    {
        TimerControl(self.read(TAC as u8))
    }

    pub fn if_(&self) -> (r: u8)
        requires
            self.inv(),
        ensures
            r == self.bytes@[IF as int],
    {
        self.read(IF as u8)
    }

    pub fn ly(&self) -> (r: u8)
        requires
            self.inv(),
        ensures
            r == self.bytes@[LY as int],
    {
        self.read(LY as u8)
    }

    pub fn lyc(&self) -> (r: u8)
        requires
            self.inv(),
        ensures
            r == self.bytes@[LYC as int],
    {
        self.read(LYC as u8)
    }

    /// Raises interrupt line `ty` in the `IF` register.
    pub fn flag_interrupt(&mut self, ty: IrqTy)
        requires
            old(self).inv(),
        ensures
            final(self).inv(),
            final(self).button_state == old(self).button_state,
            final(self).serial_log == old(self).serial_log,
            final(self).timer_sub_ticks == old(self).timer_sub_ticks,
            final(self).bytes@ == old(self).bytes@.update(
                IF as int,
                old(self).bytes@[IF as int] | (1u8 << ty.spec_index()),
            ),
    {
        let bit = ty.index();
        let old_if = self.bytes[IF];
        self.bytes[IF] = old_if | (1u8 << bit);
    }
}

impl Default for MMIO {
    /// A cleared page — except `JOYP`, which starts out re-encoded from the
    /// all-released button latch with neither group selected — no serial log,
    /// and the timer countdown at the period `TAC = 0` selects.
    fn default() -> (r: Self)
        ensures
            r.inv(),
            r.bytes@.len() == 256,
            r.bytes@[JOYP as int] == 0x0F,
            forall|i: int| 1 <= i < 256 ==> r.bytes@[i] == 0,
            r.button_state.0 == 0xFF,
            r.serial_log is None,
            r.timer_sub_ticks == 256,
    {
        let mut bytes: Vec<u8> = Vec::new();
        let mut i: usize = 0;
        while i < 256
            invariant
                i <= 256,
                bytes@.len() == i,
                forall|j: int| 0 <= j < i ==> bytes@[j] == 0,
            decreases 256 - i,
        {
            bytes.push(0);
            i = i + 1;
        }
        let mut out = MMIO {
            bytes,
            button_state: ButtonState::new(),
            serial_log: None,
            timer_sub_ticks: TimerControl(0).sub_ticks(),
        };
        out.write(JOYP as u8, 0);
        proof {
            assert(!spec_bit_of(0u8, 5) && !spec_bit_of(0u8, 4)) by (bit_vector);
            assert(spec_to_joyp(0xFF, true, true) == 0x0F) by (bit_vector);
        }
        out
    }
}

} // verus!
