//! The MBC1 cartridge mapper: bank-switched ROM/SRAM address translation.

use vstd::prelude::*;

verus! {

use crate::cpu::MemoryBus;
use crate::{ROM_BANK_SIZE, SRAM_BANK_SIZE};

/// An MBC1 cartridge: 16 KiB ROM banks, 8 KiB RAM banks, three banking
/// latches, a RAM-enable flag, and three cached bank indices that are
/// recomputed whenever a latch changes.
pub struct MBC1 {
    pub rom_banks: Vec<Vec<u8>>,
    pub ram_banks: Vec<Vec<u8>>,
    /// Low 5 bits of the switchable ROM bank number.
    pub low5_bits: u8,
    /// Upper 2 bits of the ROM bank number, or the RAM bank in advanced mode.
    pub upper2_bits: u8,
    /// Whether the RAM window at `0xA000..0xC000` is enabled.
    pub ram_active: bool,
    /// The advanced-banking mode flag (latch at `0x6000..0x8000`).
    pub advanced_banking: bool,
    /// Cached bank index of the fixed ROM region `0x0000..0x4000`.
    pub rom_0_index: usize,
    /// Cached bank index of the switchable ROM region `0x4000..0x8000`.
    pub rom_x_index: usize,
    /// Cached bank index of the RAM region `0xA000..0xC000`.
    pub ram_index: usize,
}

/// ROM bank counts an MBC1 cartridge can have: a power of two between 2
/// (the 32 KiB minimum) and 128 (the largest the 7 bank-number wires reach).
pub open spec fn is_rom_bank_count(n: int) -> bool {
    n == 2 || n == 4 || n == 8 || n == 16 || n == 32 || n == 64 || n == 128
}

/// ROM bank count for a header size code: `max(1 << code, 2)`.
pub open spec fn spec_rom_bank_count(code: u8) -> int {
    if code <= 1 {
        2
    } else if code == 2 {
        4
    } else if code == 3 {
        8
    } else if code == 4 {
        16
    } else if code == 5 {
        32
    } else if code == 6 {
        64
    } else {
        128
    }
}

/// RAM bank count for a header size code. Codes 0 (no RAM) and 1 (a partial
/// bank) are fudged up to one full bank so that no computation has to treat an
/// empty bank list specially.
pub open spec fn spec_ram_bank_count(code: u8) -> int {
    if code <= 2 {
        1
    } else {
        4
    }
}

/// A cartridge header this mapper accepts: the minimum length, a cart type
/// byte naming MBC1 (1, 2 or 3), and size codes in range.
pub open spec fn spec_cart_header_ok(rom: Seq<u8>) -> bool {
    &&& rom.len() >= 0x150
    &&& (rom[0x147] == 1 || rom[0x147] == 2 || rom[0x147] == 3)
    &&& rom[0x148] <= 7
    &&& rom[0x149] <= 3
}

/// The switchable-region ROM bank for the current latches: the low 5 bits
/// (with 0 mapping to 1), the upper 2 bits above them when the ROM is large
/// enough for them to matter, wrapped modulo the bank count.
pub open spec fn spec_rom_x_index(low5: u8, upper2: u8, n: int) -> int {
    let b5: int = if low5 == 0 {
        1
    } else {
        low5 as int
    };
    let b2: int = if n > 31 {
        upper2 as int
    } else {
        0
    };
    (b2 * 32 + b5) % n
}

/// The fixed-region ROM bank: 0 in simple mode, the upper 2 bits shifted up
/// (wrapped modulo the bank count) in advanced mode.
pub open spec fn spec_rom_0_index(upper2: u8, advanced: bool, n: int) -> int {
    if advanced {
        (upper2 as int * 32) % n
    } else {
        0
    }
}

/// The RAM bank: 0 in simple mode, the upper 2 bits (wrapped modulo the RAM
/// bank count) in advanced mode.
pub open spec fn spec_ram_index(upper2: u8, advanced: bool, k: int) -> int {
    if advanced {
        (upper2 as int) % k
    } else {
        0
    }
}

/// Byte `offset` of `data`, or 0 beyond its end (banks are zero-padded).
pub open spec fn spec_padded_byte(data: Seq<u8>, offset: int) -> u8 {
    if 0 <= offset < data.len() {
        data[offset]
    } else {
        0
    }
}

impl MBC1 {
    /// Bank lists have the shapes construction gives them and the latches are
    /// within their widths.
    pub open spec fn banks_wf(&self) -> bool {
        &&& is_rom_bank_count(self.rom_banks@.len() as int)
        &&& (forall|i: int|
            0 <= i < self.rom_banks@.len() ==> (#[trigger] self.rom_banks@[i])@.len()
                == ROM_BANK_SIZE)
        &&& (self.ram_banks@.len() == 1 || self.ram_banks@.len() == 4)
        &&& (forall|i: int|
            0 <= i < self.ram_banks@.len() ==> (#[trigger] self.ram_banks@[i])@.len()
                == SRAM_BANK_SIZE)
        &&& self.low5_bits < 32
        &&& self.upper2_bits < 4
    }

    /// Well-formed mapper state: shapes and latch widths hold, and the three
    /// cached indices are exactly what the latches dictate.
    pub open spec fn inv(&self) -> bool {
        &&& self.banks_wf()
        &&& self.rom_x_index as int == spec_rom_x_index(
            self.low5_bits,
            self.upper2_bits,
            self.rom_banks@.len() as int,
        )
        &&& self.rom_0_index as int == spec_rom_0_index(
            self.upper2_bits,
            self.advanced_banking,
            self.rom_banks@.len() as int,
        )
        &&& self.ram_index as int == spec_ram_index(
            self.upper2_bits,
            self.advanced_banking,
            self.ram_banks@.len() as int,
        )
    }

    /// Builds a mapper from raw ROM bytes and optional raw save-RAM bytes.
    ///
    /// Fails when the header is bad: the ROM shorter than `0x150`, a cart
    /// type byte other than 1/2/3, or a size code out of range. ROM bytes are
    /// split into 16 KiB banks and RAM bytes into 8 KiB banks, both
    /// zero-padded; the latches start cleared, RAM disabled, simple mode.
    pub fn new(raw_rom: &Vec<u8>, raw_ram: Option<&Vec<u8>>) -> (r: Result<MBC1, ()>)
        ensures
            r is Ok <==> spec_cart_header_ok(raw_rom@),
            r matches Ok(m) ==> {
                &&& m.inv()
                &&& m.rom_banks@.len() as int == spec_rom_bank_count(raw_rom@[0x148])
                &&& (forall|i: int, j: int|
                    0 <= i < m.rom_banks@.len() && 0 <= j < ROM_BANK_SIZE
                        ==> (#[trigger] m.rom_banks@[i]@[j]) == spec_padded_byte(
                        raw_rom@,
                        i * ROM_BANK_SIZE + j,
                    ))
                &&& m.ram_banks@.len() as int == spec_ram_bank_count(raw_rom@[0x149])
                &&& (forall|i: int, j: int|
                    0 <= i < m.ram_banks@.len() && 0 <= j < SRAM_BANK_SIZE
                        ==> (#[trigger] m.ram_banks@[i]@[j]) == spec_padded_byte(
                        (match raw_ram {
                            Some(ram) => ram@,
                            None => Seq::<u8>::empty(),
                        }),
                        i * SRAM_BANK_SIZE + j,
                    ))
                &&& m.low5_bits == 0
                &&& m.upper2_bits == 0
                &&& !m.ram_active
                &&& !m.advanced_banking
                &&& m.rom_0_index == 0
                &&& m.rom_x_index == 1
                &&& m.ram_index == 0
            },
    {
        if raw_rom.len() < 0x150 {
            return Err(());
        }
        let cart_type = raw_rom[0x147];
        if !(cart_type == 1 || cart_type == 2 || cart_type == 3) {
            return Err(());
        }
        let rom_code = raw_rom[0x148];
        let rom_bank_count: usize = match rom_code {
            0 | 1 => 2,
            2 => 4,
            3 => 8,
            4 => 16,
            5 => 32,
            6 => 64,
            7 => 128,
            _ => {
                return Err(());
            },
        };
        let ram_bank_count: usize = match raw_rom[0x149] {
            0 | 1 | 2 => 1,
            3 => 4,
            _ => {
                return Err(());
            },
        };
        let rom_banks = split_into_banks(raw_rom, rom_bank_count, ROM_BANK_SIZE);
        let ram_banks = match raw_ram {
            Some(ram) => split_into_banks(ram, ram_bank_count, SRAM_BANK_SIZE),
            None => {
                let empty: Vec<u8> = Vec::new();
                split_into_banks(&empty, ram_bank_count, SRAM_BANK_SIZE)
            },
        };
        Ok(
            MBC1 {
                rom_banks,
                ram_banks,
                low5_bits: 0,
                upper2_bits: 0,
                ram_active: false,
                advanced_banking: false,
                rom_0_index: 0,
                rom_x_index: 1,
                ram_index: 0,
            },
        )
    }

    /// Recomputes the three cached bank indices from the current latches.
    fn update_indexes(&mut self)
        requires
            old(self).banks_wf(),
        ensures
            final(self).inv(),
            final(self).rom_banks == old(self).rom_banks,
            final(self).ram_banks == old(self).ram_banks,
            final(self).low5_bits == old(self).low5_bits,
            final(self).upper2_bits == old(self).upper2_bits,
            final(self).ram_active == old(self).ram_active,
            final(self).advanced_banking == old(self).advanced_banking,
    {
        let n = self.rom_banks.len();
        let b5: usize = if self.low5_bits == 0 {
            1
        } else {
            self.low5_bits as usize
        };
        let b2: usize = if n > 31 {
            self.upper2_bits as usize
        } else {
            0
        };
        self.rom_x_index = (b2 * 32 + b5) % n;
        if self.advanced_banking {
            self.rom_0_index = ((self.upper2_bits as usize) * 32) % n;
            self.ram_index = (self.upper2_bits as usize) % self.ram_banks.len();
        } else {
            self.rom_0_index = 0;
            self.ram_index = 0;
        }
    }

    /// What a read returns: the fixed ROM bank below `0x4000`, the switchable
    /// ROM bank below `0x8000`, the current RAM bank at `0xA000..0xC000` when
    /// RAM is enabled, and `0xFF` anywhere else.
    pub open spec fn spec_read(&self, address: u16) -> u8 {
        if address < 0x4000 {
            self.rom_banks@[self.rom_0_index as int]@[address as int]
        } else if address < 0x8000 {
            self.rom_banks@[self.rom_x_index as int]@[address as int - 0x4000]
        } else if 0xA000 <= address < 0xC000 && self.ram_active {
            self.ram_banks@[self.ram_index as int]@[address as int - 0xA000]
        } else {
            0xFF
        }
    }

    /// How a write changes the mapper: `0x0000..0x2000` sets RAM enable,
    /// `0x2000..0x4000` the low 5 bank bits, `0x4000..0x6000` the upper 2
    /// bits, `0x6000..0x8000` the mode flag (each recomputing the cached
    /// indices, which `inv` pins); `0xA000..0xC000` stores into the current
    /// RAM bank when RAM is enabled; anything else is ignored.
    pub open spec fn spec_write_rel(pre: MBC1, address: u16, byte: u8, post: MBC1) -> bool {
        if address < 0x2000 {
            &&& post.rom_banks == pre.rom_banks
            &&& post.ram_banks == pre.ram_banks
            &&& post.low5_bits == pre.low5_bits
            &&& post.upper2_bits == pre.upper2_bits
            &&& post.advanced_banking == pre.advanced_banking
            &&& post.ram_active == ((byte & 0xF) == 0xA)
        } else if address < 0x4000 {
            &&& post.rom_banks == pre.rom_banks
            &&& post.ram_banks == pre.ram_banks
            &&& post.low5_bits == byte % 32
            &&& post.upper2_bits == pre.upper2_bits
            &&& post.advanced_banking == pre.advanced_banking
            &&& post.ram_active == pre.ram_active
        } else if address < 0x6000 {
            &&& post.rom_banks == pre.rom_banks
            &&& post.ram_banks == pre.ram_banks
            &&& post.low5_bits == pre.low5_bits
            &&& post.upper2_bits == byte % 4
            &&& post.advanced_banking == pre.advanced_banking
            &&& post.ram_active == pre.ram_active
        } else if address < 0x8000 {
            &&& post.rom_banks == pre.rom_banks
            &&& post.ram_banks == pre.ram_banks
            &&& post.low5_bits == pre.low5_bits
            &&& post.upper2_bits == pre.upper2_bits
            &&& post.advanced_banking == ((byte & 0b1) != 0)
            &&& post.ram_active == pre.ram_active
        } else if 0xA000 <= address < 0xC000 && pre.ram_active {
            &&& post.rom_banks == pre.rom_banks
            &&& post.ram_banks@.len() == pre.ram_banks@.len()
            &&& (forall|i: int|
                0 <= i < pre.ram_banks@.len() && i != pre.ram_index
                    ==> (#[trigger] post.ram_banks@[i]) == pre.ram_banks@[i])
            &&& post.ram_banks@[pre.ram_index as int]@ == pre.ram_banks@[
                pre.ram_index as int
            ]@.update(address as int - 0xA000, byte)
            &&& post.low5_bits == pre.low5_bits
            &&& post.upper2_bits == pre.upper2_bits
            &&& post.advanced_banking == pre.advanced_banking
            &&& post.ram_active == pre.ram_active
        } else {
            post == pre
        }
    }
}

/// The mapper's face on the memory bus: ROM at `0x0000..0x8000` and save RAM
/// at `0xA000..0xC000`; every other address is inert (reads `0xFF`, ignores
/// writes).
impl MemoryBus for MBC1 {
    open spec fn bus_inv(&self) -> bool {
        self.inv()
    }

    open spec fn read_spec(&self, address: u16) -> u8 {
        self.spec_read(address)
    }

    fn read(&self, address: u16) -> (r: u8) {
        proof {
            lemma_bank_indices_in_range(self);
        }
        if address < 0x4000 {
            self.rom_banks[self.rom_0_index][address as usize]
        } else if address < 0x8000 {
            self.rom_banks[self.rom_x_index][(address as usize) - 0x4000]
        } else if 0xA000 <= address && address < 0xC000 && self.ram_active {
            self.ram_banks[self.ram_index][(address as usize) - 0xA000]
        } else {
            0xFF
        }
    }

    fn write(&mut self, address: u16, byte: u8)
        ensures
            MBC1::spec_write_rel(*old(self), address, byte, *final(self)),
    {
        proof {
            lemma_bank_indices_in_range(old(self));
        }
        if address < 0x2000 {
            self.ram_active = (byte & 0xF) == 0xA;
        } else if address < 0x4000 {
            self.low5_bits = byte % 32;
            self.update_indexes();
        } else if address < 0x6000 {
            self.upper2_bits = byte % 4;
            self.update_indexes();
        } else if address < 0x8000 {
            self.advanced_banking = (byte & 0b1) != 0;
            self.update_indexes();
        } else if 0xA000 <= address && address < 0xC000 && self.ram_active {
            let i = self.ram_index;
            self.ram_banks[i][(address as usize) - 0xA000] = byte;
        }
    }
}

/// Splits `data` into `count` banks of `bank_size` bytes each, zero-padding
/// past the end of `data`.
fn split_into_banks(data: &Vec<u8>, count: usize, bank_size: usize) -> (banks: Vec<Vec<u8>>)
    requires
        1 <= count <= 128,
        1 <= bank_size <= 16384,
    ensures
        banks@.len() == count,
        forall|i: int|
            0 <= i < count ==> (#[trigger] banks@[i])@.len() == bank_size,
        forall|i: int, j: int|
            0 <= i < count && 0 <= j < bank_size ==> (#[trigger] banks@[i]@[j])
                == spec_padded_byte(data@, i * bank_size + j),
{
    let mut banks: Vec<Vec<u8>> = Vec::new();
    let mut i: usize = 0;
    while i < count
        invariant
            i <= count,
            1 <= count <= 128,
            1 <= bank_size <= 16384,
            banks@.len() == i,
            forall|ii: int|
                0 <= ii < i ==> (#[trigger] banks@[ii])@.len() == bank_size,
            forall|ii: int, j: int|
                0 <= ii < i && 0 <= j < bank_size ==> (#[trigger] banks@[ii]@[j])
                    == spec_padded_byte(data@, ii * bank_size + j),
        decreases count - i,
    {
        proof {
            assert(i * bank_size + bank_size <= 128 * 16384) by (nonlinear_arith)
                requires
                    i < 128,
                    bank_size <= 16384,
            ;
        }
        let mut bank: Vec<u8> = Vec::new();
        let base = i * bank_size;
        let mut j: usize = 0;
        while j < bank_size
            invariant
                j <= bank_size,
                base == i * bank_size,
                base + bank_size <= 128 * 16384,
                i < count <= 128,
                1 <= bank_size <= 16384,
                bank@.len() == j,
                forall|jj: int|
                    0 <= jj < j ==> (#[trigger] bank@[jj]) == spec_padded_byte(
                        data@,
                        base + jj,
                    ),
            decreases bank_size - j,
        {
            let offset = base + j;
            let b: u8 = if offset < data.len() {
                data[offset]
            } else {
                0
            };
            bank.push(b);
            j = j + 1;
        }
        banks.push(bank);
        i = i + 1;
    }
    banks
}

/// The cached indices always address a real bank, and the switchable-region
/// index is never bank 0 except when a low-5 value that is a nonzero multiple
/// of a small ROM's bank count wraps to 0.
pub proof fn lemma_bank_indices_in_range(m: &MBC1)
    requires
        m.inv(),
    ensures
        0 <= m.rom_0_index < m.rom_banks@.len(),
        0 <= m.rom_x_index < m.rom_banks@.len(),
        0 <= m.ram_index < m.ram_banks@.len(),
{
    let n = m.rom_banks@.len() as int;
    let k = m.ram_banks@.len() as int;
    assert(spec_rom_x_index(m.low5_bits, m.upper2_bits, n) < n) by {
        lemma_mod_bounds_pos(
            (if n > 31 {
                m.upper2_bits as int
            } else {
                0
            }) * 32 + (if m.low5_bits == 0 {
                1
            } else {
                m.low5_bits as int
            }),
            n,
        );
    }
    assert(spec_rom_0_index(m.upper2_bits, m.advanced_banking, n) < n) by {
        if m.advanced_banking {
            lemma_mod_bounds_pos(m.upper2_bits as int * 32, n);
        }
    }
    assert(spec_ram_index(m.upper2_bits, m.advanced_banking, k) < k) by {
        if m.advanced_banking {
            lemma_mod_bounds_pos(m.upper2_bits as int, k);
        }
    }
}

/// The switchable-region ROM bank index is at least 1 — bank 0 never shows in
/// the `0x4000..0x8000` window — for every latch setting, as long as the low
/// 5 bank bits are not a nonzero multiple of a small ROM's bank count.
pub proof fn lemma_rom_x_index_nonzero(m: &MBC1)
    requires
        m.inv(),
        m.low5_bits == 0 || m.rom_banks@.len() >= 32 || m.low5_bits as int % (
        m.rom_banks@.len() as int) != 0,
    ensures
        1 <= m.rom_x_index,
{
    let n = m.rom_banks@.len() as int;
    let b5: int = if m.low5_bits == 0 {
        1
    } else {
        m.low5_bits as int
    };
    if n <= 31 {
        assert(m.rom_x_index as int == b5 % n);
        if m.low5_bits == 0 {
            vstd::arithmetic::div_mod::lemma_small_mod(1nat, n as nat);
        } else {
            lemma_mod_bounds_pos(b5, n);
        }
    } else {
        let b2 = m.upper2_bits as int;
        assert(m.rom_x_index as int == (b2 * 32 + b5) % n);
        assert(0 < b5 < 32);
        assert(0 <= b2 < 4);
        if n == 32 {
            assert((b2 * 32 + b5) % 32 == b5 % 32) by {
                vstd::arithmetic::div_mod::lemma_mod_multiples_vanish(b2, b5, 32);
            }
            vstd::arithmetic::div_mod::lemma_small_mod(b5 as nat, 32nat);
        } else if n == 64 {
            assert((b2 * 32 + b5) % 64 >= 1) by (nonlinear_arith)
                requires
                    0 <= b2 < 4,
                    0 < b5 < 32,
            ;
        } else {
            assert(n == 128);
            assert(b2 * 32 + b5 < 128);
            vstd::arithmetic::div_mod::lemma_small_mod((b2 * 32 + b5) as nat, 128nat);
        }
    }
}

/// The cached indices are a function of the latches and the bank counts
/// alone: two mappers that agree on those agree on all three indices, no
/// matter by what sequence of writes each arrived at its latches.
pub proof fn lemma_indices_determined_by_latches(m1: &MBC1, m2: &MBC1)
    requires
        m1.inv(),
        m2.inv(),
        m1.low5_bits == m2.low5_bits,
        m1.upper2_bits == m2.upper2_bits,
        m1.advanced_banking == m2.advanced_banking,
        m1.rom_banks@.len() == m2.rom_banks@.len(),
        m1.ram_banks@.len() == m2.ram_banks@.len(),
    ensures
        m1.rom_0_index == m2.rom_0_index,
        m1.rom_x_index == m2.rom_x_index,
        m1.ram_index == m2.ram_index,
{
}

/// `0 <= x % m < m` for positive `m`.
proof fn lemma_mod_bounds_pos(x: int, m: int)
    requires
        x >= 0,
        m >= 1,
    ensures
        0 <= x % m < m,
{
    vstd::arithmetic::div_mod::lemma_mod_bound(x, m);
}

} // verus!
