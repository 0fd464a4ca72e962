//! The parts of the system external to the CPU: VRAM, WRAM, OAM, the MMIO
//! page and the cartridge, with the router that dispatches CPU addresses
//! across them.

use vstd::prelude::*;

verus! {

use crate::cpu::MemoryBus;
use crate::button_state::ButtonState;
use crate::mbc1::MBC1;
use crate::mmio::{spec_log_seq, MMIO};
use crate::{VRAM_BANK_SIZE, WRAM_BANK_SIZE};

/// The five interrupt lines, in priority order (VBlank highest).
#[derive(Clone, Copy, PartialEq, Eq, Structural, Debug)]
pub enum IrqTy {
    VBlank,
    LCDSTAT,
    Timer,
    Serial,
    Joypad,
}

impl IrqTy {
    /// The line's bit position in the `IE` and `IF` registers.
    pub open spec fn spec_index(self) -> u8 {
        match self {
            IrqTy::VBlank => 0,
            IrqTy::LCDSTAT => 1,
            IrqTy::Timer => 2,
            IrqTy::Serial => 3,
            IrqTy::Joypad => 4,
        }
    }

    pub fn index(self) -> (r: u8)
        ensures
            r == self.spec_index(),
    {
        match self {
            IrqTy::VBlank => 0,
            IrqTy::LCDSTAT => 1,
            IrqTy::Timer => 2,
            IrqTy::Serial => 3,
            IrqTy::Joypad => 4,
        }
    }
}

/// Number of bytes in the object attribute memory: 40 entries of 4 bytes.
pub const OAM_SIZE: usize = 160;

/// Parts of the system that are external to the CPU.
pub struct SpareParts {
    /// Any ROM and SRAM accesses pass through to here.
    pub cart: MBC1,
    /// Video RAM (one slot visible).
    pub vram: Vec<Vec<u8>>,
    pub vram_bank: usize,
    /// Work RAM (bank 0 always visible, plus one other slot).
    pub wram: Vec<Vec<u8>>,
    pub wram_bank: usize,
    /// Object attributes, raw: entry `i` is bytes `4 * i .. 4 * i + 4`.
    pub oam: Vec<u8>,
    /// IO controls and high page ram.
    pub mmio: MMIO,
}

impl SpareParts {
    /// Well-formed container: a well-formed cartridge and MMIO page, two
    /// VRAM banks and eight WRAM banks of their nominal sizes, the visible
    /// banks in range (WRAM's switchable slot never shows bank 0), and 160
    /// bytes of OAM.
    pub open spec fn inv(&self) -> bool {
        &&& self.cart.inv()
        &&& self.vram@.len() == 2
        &&& (forall|i: int|
            0 <= i < self.vram@.len() ==> (#[trigger] self.vram@[i])@.len() == VRAM_BANK_SIZE)
        &&& self.vram_bank < 2
        &&& self.wram@.len() == 8
        &&& (forall|i: int|
            0 <= i < self.wram@.len() ==> (#[trigger] self.wram@[i])@.len() == WRAM_BANK_SIZE)
        &&& 1 <= self.wram_bank < 8
        &&& self.oam@.len() == OAM_SIZE
        &&& self.mmio.inv()
    }

    /// What the router reads: cartridge ROM below `0x8000`, the visible VRAM
    /// bank, cartridge SRAM at `0xA000..0xC000`, WRAM bank 0 then the
    /// visible WRAM bank, OAM at `0xFE00..0xFEA0`, the MMIO page at
    /// `0xFF00..=0xFFFF`, and `0xFF` anywhere unmapped.
    pub open spec fn spec_read(&self, address: u16) -> u8 {
        if address < 0x8000 {
            self.cart.spec_read(address)
        } else if address < 0xA000 {
            self.vram@[self.vram_bank as int]@[address - 0x8000]
        } else if address < 0xC000 {
            self.cart.spec_read(address)
        } else if address < 0xD000 {
            self.wram@[0]@[address - 0xC000]
        } else if address < 0xE000 {
            self.wram@[self.wram_bank as int]@[address - 0xD000]
        } else if 0xFE00 <= address < 0xFEA0 {
            self.oam@[address - 0xFE00]
        } else if 0xFF00 <= address {
            self.mmio.bytes@[address - 0xFF00]
        } else {
            0xFF
        }
    }

    /// What the router does on a write: the same dispatch, with cartridge
    /// writes following the mapper's latch semantics, MMIO writes the
    /// register file's live semantics, RAM and OAM writes storing the byte,
    /// and unmapped writes doing nothing.
    pub open spec fn spec_write_rel(pre: &SpareParts, address: u16, byte: u8, post: &SpareParts)
        -> bool {
        if address < 0x8000 || (0xA000 <= address && address < 0xC000) {
            &&& MBC1::spec_write_rel(pre.cart, address, byte, post.cart)
            &&& post.vram == pre.vram
            &&& post.vram_bank == pre.vram_bank
            &&& post.wram == pre.wram
            &&& post.wram_bank == pre.wram_bank
            &&& post.oam == pre.oam
            &&& post.mmio == pre.mmio
        } else if address < 0xA000 {
            &&& post.cart == pre.cart
            &&& post.vram@.len() == pre.vram@.len()
            &&& (forall|i: int|
                0 <= i < pre.vram@.len() && i != pre.vram_bank ==> (#[trigger] post.vram@[i])
                    == pre.vram@[i])
            &&& post.vram@[pre.vram_bank as int]@ == pre.vram@[pre.vram_bank as int]@.update(
                address - 0x8000,
                byte,
            )
            &&& post.vram_bank == pre.vram_bank
            &&& post.wram == pre.wram
            &&& post.wram_bank == pre.wram_bank
            &&& post.oam == pre.oam
            &&& post.mmio == pre.mmio
        } else if address < 0xE000 && 0xC000 <= address {
            &&& post.cart == pre.cart
            &&& post.vram == pre.vram
            &&& post.vram_bank == pre.vram_bank
            &&& ({
                let bank: int = if address < 0xD000 {
                    0
                } else {
                    pre.wram_bank as int
                };
                let offset: int = if address < 0xD000 {
                    address - 0xC000
                } else {
                    address - 0xD000
                };
                &&& post.wram@.len() == pre.wram@.len()
                &&& (forall|i: int|
                    0 <= i < pre.wram@.len() && i != bank ==> (#[trigger] post.wram@[i])
                        == pre.wram@[i])
                &&& post.wram@[bank]@ == pre.wram@[bank]@.update(offset, byte)
            })
            &&& post.wram_bank == pre.wram_bank
            &&& post.oam == pre.oam
            &&& post.mmio == pre.mmio
        } else if 0xFE00 <= address && address < 0xFEA0 {
            &&& post.cart == pre.cart
            &&& post.vram == pre.vram
            &&& post.vram_bank == pre.vram_bank
            &&& post.wram == pre.wram
            &&& post.wram_bank == pre.wram_bank
            &&& post.oam@ == pre.oam@.update(address - 0xFE00, byte)
            &&& post.mmio == pre.mmio
        } else if 0xFF00 <= address {
            &&& post.cart == pre.cart
            &&& post.vram == pre.vram
            &&& post.vram_bank == pre.vram_bank
            &&& post.wram == pre.wram
            &&& post.wram_bank == pre.wram_bank
            &&& post.oam == pre.oam
            &&& MMIO::spec_write_rel(&pre.mmio, (address - 0xFF00) as u8, byte, &post.mmio)
        } else {
            post == pre
        }
    }

    /// Wraps a cartridge with zeroed VRAM, WRAM and OAM, WRAM's switchable
    /// slot showing bank 1, and a fresh MMIO page.
    pub fn from_cart(cart: MBC1) -> (r: Self)
        requires
            cart.inv(),
        ensures
            r.inv(),
            r.cart == cart,
            r.vram_bank == 0,
            r.wram_bank == 1,
            forall|i: int, j: int|
                0 <= i < 2 && 0 <= j < VRAM_BANK_SIZE ==> (#[trigger] r.vram@[i]@[j]) == 0,
            forall|i: int, j: int|
                0 <= i < 8 && 0 <= j < WRAM_BANK_SIZE ==> (#[trigger] r.wram@[i]@[j]) == 0,
            forall|j: int| 0 <= j < OAM_SIZE ==> (#[trigger] r.oam@[j]) == 0,
            r.mmio.bytes@[crate::mmio::JOYP as int] == 0x0F,
            forall|i: int| 1 <= i < 256 ==> (#[trigger] r.mmio.bytes@[i]) == 0,
            r.mmio.serial_log is None,
            r.mmio.timer_sub_ticks == 256,
    {
        SpareParts {
            cart,
            vram: zeroed_banks(2, VRAM_BANK_SIZE),
            vram_bank: 0,
            wram: zeroed_banks(8, WRAM_BANK_SIZE),
            wram_bank: 1,
            oam: zeroed_bytes(OAM_SIZE),
            mmio: MMIO::default(),
        }
    }

    pub fn set_button_state(&mut self, button_state: ButtonState)
        requires
            old(self).inv(),
        ensures
            final(self).inv(),
            final(self).cart == old(self).cart,
            final(self).vram == old(self).vram,
            final(self).wram == old(self).wram,
            final(self).oam == old(self).oam,
            final(self).mmio.button_state == button_state,
    {
        self.mmio.set_button_state(button_state);
    }

    pub fn set_serial_logging(&mut self, log: bool)
        requires
            old(self).inv(),
        ensures
            final(self).inv(),
            final(self).cart == old(self).cart,
            final(self).mmio.serial_log is Some <==> log,
            spec_log_seq(&final(self).mmio) == Seq::<u8>::empty(),
            final(self).mmio.bytes == old(self).mmio.bytes,
    {
        self.mmio.set_serial_logging(log);
    }

    /// A copy of the serial log gathered so far.
    pub fn serial_log(&self) -> (r: Vec<u8>)
        ensures
            r@ == spec_log_seq(&self.mmio),
    {
        self.mmio.serial_log()
    }

    /// One M-cycle of the timer.
    pub fn m_cycle(&mut self)
        requires
            old(self).inv(),
        ensures
            final(self).inv(),
            final(self).cart == old(self).cart,
            final(self).vram == old(self).vram,
            final(self).wram == old(self).wram,
            final(self).oam == old(self).oam,
            final(self).vram_bank == old(self).vram_bank,
            final(self).wram_bank == old(self).wram_bank,
            crate::mmio::spec_timer_rel(&old(self).mmio, &final(self).mmio),
    {
        self.mmio.m_cycle();
    }

    /// The interrupt lines that are both enabled in `IE` and pending in
    /// `IF`; the CPU should be woken from Halted mode when this is not zero.
    pub fn check_pending_irqs(&self) -> (r: u8)
        requires
            self.inv(),
        ensures
            r == self.mmio.bytes@[crate::mmio::IE as int] & self.mmio.bytes@[
                crate::mmio::IF as int
            ] & 0x1F,
    {
        let ie = self.mmio.read(crate::mmio::IE as u8);
        let iff = self.mmio.read(crate::mmio::IF as u8);
        ie & iff & 0x1F
    }

    pub fn mmio(&self) -> (r: &MMIO)
        ensures
            r == &self.mmio,
    {
        &self.mmio
    }

    pub fn mmio_mut(&mut self) -> (r: &mut MMIO)
        ensures
            *r == old(self).mmio,
            *final(self) == (SpareParts { mmio: *final(r), ..*old(self) }),
    {
        &mut self.mmio
    }
}

impl MemoryBus for SpareParts {
    open spec fn bus_inv(&self) -> bool {
        self.inv()
    }

    open spec fn read_spec(&self, address: u16) -> u8 {
        self.spec_read(address)
    }

    fn read(&self, address: u16) -> (r: u8) {
        if address < 0x8000 {
            self.cart.read(address)
        } else if address < 0xA000 {
            self.vram[self.vram_bank][(address - 0x8000) as usize]
        } else if address < 0xC000 {
            self.cart.read(address)
        } else if address < 0xD000 {
            self.wram[0][(address - 0xC000) as usize]
        } else if address < 0xE000 {
            self.wram[self.wram_bank][(address - 0xD000) as usize]
        } else if 0xFE00 <= address && address < 0xFEA0 {
            self.oam[(address - 0xFE00) as usize]
        } else if 0xFF00 <= address {
            self.mmio.read((address - 0xFF00) as u8)
        } else {
            // unmapped locations read 0xFF
            0xFF
        }
    }

    fn write(&mut self, address: u16, byte: u8)
        ensures
            SpareParts::spec_write_rel(old(self), address, byte, final(self)),
    {
        if address < 0x8000 {
            self.cart.write(address, byte);
        } else if address < 0xA000 {
            let bank = self.vram_bank;
            self.vram[bank][(address - 0x8000) as usize] = byte;
        } else if address < 0xC000 {
            self.cart.write(address, byte);
        } else if address < 0xD000 {
            self.wram[0][(address - 0xC000) as usize] = byte;
        } else if address < 0xE000 {
            let bank = self.wram_bank;
            self.wram[bank][(address - 0xD000) as usize] = byte;
        } else if 0xFE00 <= address && address < 0xFEA0 {
            self.oam[(address - 0xFE00) as usize] = byte;
        } else if 0xFF00 <= address {
            self.mmio.write((address - 0xFF00) as u8, byte);
        }
        // unmapped locations ignore writes
    }
}

/// `count` zeroed banks of `size` bytes each.
fn zeroed_banks(count: usize, size: usize) -> (banks: Vec<Vec<u8>>)
    requires
        count <= 8,
        size <= 8192,
    ensures
        banks@.len() == count,
        forall|i: int| 0 <= i < count ==> (#[trigger] banks@[i])@.len() == size,
        forall|i: int, j: int|
            0 <= i < count && 0 <= j < size ==> (#[trigger] banks@[i]@[j]) == 0,
{
    let mut banks: Vec<Vec<u8>> = Vec::new();
    let mut i: usize = 0;
    while i < count
        invariant
            i <= count,
            size <= 8192,
            banks@.len() == i,
            forall|ii: int| 0 <= ii < i ==> (#[trigger] banks@[ii])@.len() == size,
            forall|ii: int, j: int|
                0 <= ii < i && 0 <= j < size ==> (#[trigger] banks@[ii]@[j]) == 0,
        decreases count - i,
    {
        banks.push(zeroed_bytes(size));
        i = i + 1;
    }
    banks
}

/// `len` zero bytes.
fn zeroed_bytes(len: usize) -> (bytes: Vec<u8>)
    requires
        len <= 8192,
    ensures
        bytes@.len() == len,
        forall|j: int| 0 <= j < len ==> (#[trigger] bytes@[j]) == 0,
{
    let mut bytes: Vec<u8> = Vec::new();
    let mut j: usize = 0;
    while j < len
        invariant
            j <= len,
            bytes@.len() == j,
            forall|jj: int| 0 <= jj < j ==> (#[trigger] bytes@[jj]) == 0,
        decreases len - j,
    {
        bytes.push(0);
        j = j + 1;
    }
    bytes
}

} // verus!
