//! The SM83 CPU: a micro-operation queue retired one machine cycle at a time.
//!
//! Each opcode expands into a short, fixed schedule of primitive actions that
//! are retired one per M-cycle, with the fetch of the next opcode embedded in
//! the final action's cycle. Between M-cycles the queue is never empty: when
//! retiring an action leaves it empty, the same M-cycle services a pending
//! interrupt or fetches the next opcode and enqueues its schedule.

use vstd::prelude::*;

verus! {

/// The memory fabric the CPU retires its micro-operations against: one byte
/// read, one byte wrote per call. An implementation is free to route
/// addresses to any devices; the CPU assumes nothing of what comes back.
pub trait MemoryBus: Sized {
    /// Well-formedness that `read` relies on and `write` preserves.
    spec fn bus_inv(&self) -> bool;

    /// What `read` returns on this bus state.
    spec fn read_spec(&self, address: u16) -> u8;

    fn read(&self, address: u16) -> (r: u8)
        requires
            self.bus_inv(),
        ensures
            r == self.read_spec(address),
    ;

    fn write(&mut self, address: u16, byte: u8)
        requires
            old(self).bus_inv(),
        ensures
            final(self).bus_inv(),
    ;
}

/// A flat 64 KiB address space (or any prefix of one): addresses beyond the
/// end read `0xFF` and ignore writes.
impl MemoryBus for Vec<u8> {
    open spec fn bus_inv(&self) -> bool {
        true
    }

    open spec fn read_spec(&self, address: u16) -> u8 {
        if address < self@.len() {
            self@[address as int]
        } else {
            0xFF
        }
    }

    fn read(&self, address: u16) -> (r: u8) {
        if (address as usize) < self.len() {
            self[address as usize]
        } else {
            0xFF
        }
    }

    fn write(&mut self, address: u16, byte: u8)
        ensures
            address < old(self)@.len() ==> final(self)@ == old(self)@.update(
                address as int,
                byte,
            ),
            address >= old(self)@.len() ==> final(self)@ == old(self)@,
    {
        if (address as usize) < self.len() {
            self[address as usize] = byte;
        }
    }
}

/// What the CPU does between M-cycles: run normally, sleep until an interrupt
/// is pending (`HALT`), or sleep until a button is pressed (`STOP`).
#[derive(Clone, Copy, PartialEq, Eq, Structural, Debug)]
pub enum CpuMode {
    Normal,
    Halted,
    Stopped,
}

/// An 8-bit register tag: a half of one of the seven 16-bit registers.
#[derive(Clone, Copy, PartialEq, Eq, Structural, Debug)]
pub enum Reg8 {
    A,
    F,
    B,
    C,
    D,
    E,
    H,
    L,
    SpH,
    SpL,
    PcH,
    PcL,
    ImmH,
    ImmL,
}

/// A 16-bit register tag.
#[derive(Clone, Copy, PartialEq, Eq, Structural, Debug)]
pub enum Reg16 {
    AF,
    BC,
    DE,
    HL,
    SP,
    PC,
    IMM,
}

/// An address-register tag: one of the 16-bit registers, or the high page
/// `0xFF00 | r8` (used by the `LDH` family).
#[derive(Clone, Copy, PartialEq, Eq, Structural, Debug)]
pub enum Addr {
    Wide(Reg16),
    HiPage(Reg8),
}

/// A branch condition over the flags.
#[derive(Clone, Copy, PartialEq, Eq, Structural, Debug)]
pub enum Cond {
    Always,
    Zero,
    NotZero,
    Carry,
    NotCarry,
}

/// A primitive scheduled step of the CPU; retiring one takes one M-cycle.
#[derive(Clone, Copy, PartialEq, Eq, Structural, Debug)]
pub enum Action {
    Nop,
    /// Read from the address held in a 16-bit register into an 8-bit
    /// register, then add the delta to the address register.
    Read(Reg8, Addr, i8),
    /// The symmetric write.
    Write(Addr, Reg8, i8),
    /// 16-bit register arithmetic; no flags.
    Delta16(Reg16, i8),
    /// 8-bit register arithmetic; sets Z, N from the delta's sign, H from the
    /// nibble crossing; Carry untouched.
    Delta8(Reg8, i8),
    /// 8-bit circular rotate of A; C takes the bit shifted out; Z, N, H
    /// cleared.
    RotateCyClearZ(bool),
    /// 9-bit rotate of A through C; Z, N, H cleared.
    RotateClearZ(bool),
    /// 16-bit add into HL; N cleared, H from bit 11, C from bit 15, Z kept.
    AddHl(Reg16),
    /// Relative jump by the sign-extended low immediate; a false condition
    /// truncates the rest of the schedule.
    JpRel(Cond),
    /// Absolute jump to the immediate register.
    Jp(Cond),
    /// Push the program counter and jump to the immediate register; taken
    /// calls enqueue their three remaining cycles.
    Call(Cond),
    /// Continue into the following pop-return actions, or truncate.
    RetIf(Cond),
    DecimalAdjustA,
    ComplimentA,
    ComplimentCarryFlag,
    SetCarryFlag,
    /// Copy one 8-bit register into another.
    Move(Reg8, Reg8),
    /// Copy a 16-bit register into the program counter.
    MovePc(Reg16),
    /// Jump to a fixed low address (the RST and interrupt vectors).
    SetPc(u8),
    /// Write the interrupt master enable.
    SetIme(bool),
    /// Compare A against a register: subtraction flags, no write-back.
    Compare(Reg8),
    /// Add a register (and optionally the carry) into A.
    AddA(Reg8, bool),
    /// Subtract a register (and optionally the carry) from A.
    SubA(Reg8, bool),
    AndA(Reg8),
    XorA(Reg8),
    OrA(Reg8),
    /// Add the sign-extended low immediate to SP, into SP or into HL; H and C
    /// come from the low byte's addition, Z and N are cleared.
    OffsetSp(bool),
    Rlc(Reg8),
    Rrc(Reg8),
    Rl(Reg8),
    Rr(Reg8),
    Sla(Reg8),
    Sra(Reg8),
    Swap(Reg8),
    Srl(Reg8),
    /// Test a bit: Z set from the complement of the bit, N cleared, H set, C
    /// kept.
    TestBit(u8, Reg8),
    /// Clear a bit; no flags.
    ResBit(u8, Reg8),
    /// Set a bit; no flags.
    SetBit(u8, Reg8),
    /// Fetch the second opcode byte of a `0xCB` prefix and enqueue its
    /// schedule.
    FetchCb,
    /// Enter Halted mode.
    Halt,
    /// Enter Stopped mode.
    Stop,
}

/// The CPU mode an action leaves the CPU in when retired.
pub open spec fn spec_mode_of(a: Action) -> CpuMode {
    match a {
        Action::Halt => CpuMode::Halted,
        Action::Stop => CpuMode::Stopped,
        _ => CpuMode::Normal,
    }
}

/// A flags byte from the four flags: bit 7 Zero, bit 6 Subtract, bit 5
/// Half-carry, bit 4 Carry; the low nibble is always zero.
pub open spec fn spec_flags(z: bool, n: bool, h: bool, c: bool) -> u8 {
    ((if z {
        128int
    } else {
        0int
    }) + (if n {
        64int
    } else {
        0int
    }) + (if h {
        32int
    } else {
        0int
    }) + (if c {
        16int
    } else {
        0int
    })) as u8
}

/// The Zero flag of a flags byte.
pub open spec fn spec_fz(f: u8) -> bool {
    (f / 128) % 2 == 1
}

/// The Subtract flag of a flags byte.
pub open spec fn spec_fn_(f: u8) -> bool {
    (f / 64) % 2 == 1
}

/// The Half-carry flag of a flags byte.
pub open spec fn spec_fh(f: u8) -> bool {
    (f / 32) % 2 == 1
}

/// The Carry flag of a flags byte.
pub open spec fn spec_fc(f: u8) -> bool {
    (f / 16) % 2 == 1
}

/// Whether a branch condition holds of a flags byte.
pub open spec fn spec_cond(c: Cond, f: u8) -> bool {
    match c {
        Cond::Always => true,
        Cond::Zero => spec_fz(f),
        Cond::NotZero => !spec_fz(f),
        Cond::Carry => spec_fc(f),
        Cond::NotCarry => !spec_fc(f),
    }
}

/// The SM83 register file and micro-op queue. Each 16-bit register holds its
/// nominal high byte in its own high byte (`af / 256` is A); the low nibble
/// of F is permanently zero.
pub struct SM83 {
    pub af: u16,
    pub bc: u16,
    pub de: u16,
    pub hl: u16,
    pub sp: u16,
    pub pc: u16,
    /// Scratch register staging operands fetched across M-cycles.
    pub imm: u16,
    /// The interrupt master enable.
    pub ime: bool,
    /// The pending micro-op schedule; never empty between M-cycles.
    pub queue: Vec<Action>,
}

impl SM83 {
    /// The low nibble of F reads zero, always.
    pub open spec fn f_inv(&self) -> bool {
        self.af % 16 == 0
    }

    /// Well-formed CPU state between M-cycles: the flag nibble is clean and
    /// the micro-op queue is non-empty.
    pub open spec fn inv(&self) -> bool {
        &&& self.f_inv()
        &&& self.queue@.len() >= 1
    }

    /// The value of an 8-bit register.
    pub open spec fn spec_get_r8(&self, r: Reg8) -> u8 {
        match r {
            Reg8::A => (self.af / 256) as u8,
            Reg8::F => (self.af % 256) as u8,
            Reg8::B => (self.bc / 256) as u8,
            Reg8::C => (self.bc % 256) as u8,
            Reg8::D => (self.de / 256) as u8,
            Reg8::E => (self.de % 256) as u8,
            Reg8::H => (self.hl / 256) as u8,
            Reg8::L => (self.hl % 256) as u8,
            Reg8::SpH => (self.sp / 256) as u8,
            Reg8::SpL => (self.sp % 256) as u8,
            Reg8::PcH => (self.pc / 256) as u8,
            Reg8::PcL => (self.pc % 256) as u8,
            Reg8::ImmH => (self.imm / 256) as u8,
            Reg8::ImmL => (self.imm % 256) as u8,
        }
    }

    /// The registers after writing an 8-bit register. A write to F masks off
    /// its low nibble.
    pub open spec fn spec_set_r8(self, r: Reg8, v: u8) -> SM83 {
        let hi = |w: u16| (v as u16 * 256 + w % 256) as u16;
        let lo = |w: u16| ((w / 256) * 256 + v as u16) as u16;
        match r {
            Reg8::A => SM83 { af: hi(self.af), ..self },
            Reg8::F => SM83 { af: ((self.af / 256) * 256 + (v as u16 / 16) * 16) as u16, ..self },
            Reg8::B => SM83 { bc: hi(self.bc), ..self },
            Reg8::C => SM83 { bc: lo(self.bc), ..self },
            Reg8::D => SM83 { de: hi(self.de), ..self },
            Reg8::E => SM83 { de: lo(self.de), ..self },
            Reg8::H => SM83 { hl: hi(self.hl), ..self },
            Reg8::L => SM83 { hl: lo(self.hl), ..self },
            Reg8::SpH => SM83 { sp: hi(self.sp), ..self },
            Reg8::SpL => SM83 { sp: lo(self.sp), ..self },
            Reg8::PcH => SM83 { pc: hi(self.pc), ..self },
            Reg8::PcL => SM83 { pc: lo(self.pc), ..self },
            Reg8::ImmH => SM83 { imm: hi(self.imm), ..self },
            Reg8::ImmL => SM83 { imm: lo(self.imm), ..self },
        }
    }

    /// The value of a 16-bit register.
    pub open spec fn spec_get_r16(&self, r: Reg16) -> u16 {
        match r {
            Reg16::AF => self.af,
            Reg16::BC => self.bc,
            Reg16::DE => self.de,
            Reg16::HL => self.hl,
            Reg16::SP => self.sp,
            Reg16::PC => self.pc,
            Reg16::IMM => self.imm,
        }
    }

    /// The registers after writing a 16-bit register. A write to AF masks off
    /// the low nibble of F.
    pub open spec fn spec_set_r16(self, r: Reg16, v: u16) -> SM83 {
        match r {
            Reg16::AF => SM83 { af: ((v / 16) * 16) as u16, ..self },
            Reg16::BC => SM83 { bc: v, ..self },
            Reg16::DE => SM83 { de: v, ..self },
            Reg16::HL => SM83 { hl: v, ..self },
            Reg16::SP => SM83 { sp: v, ..self },
            Reg16::PC => SM83 { pc: v, ..self },
            Reg16::IMM => SM83 { imm: v, ..self },
        }
    }

    fn get_r8(&self, r: Reg8) -> (v: u8)
        ensures
            v == self.spec_get_r8(r),
    {
        match r {
            Reg8::A => (self.af / 256) as u8,
            Reg8::F => (self.af % 256) as u8,
            Reg8::B => (self.bc / 256) as u8,
            Reg8::C => (self.bc % 256) as u8,
            Reg8::D => (self.de / 256) as u8,
            Reg8::E => (self.de % 256) as u8,
            Reg8::H => (self.hl / 256) as u8,
            Reg8::L => (self.hl % 256) as u8,
            Reg8::SpH => (self.sp / 256) as u8,
            Reg8::SpL => (self.sp % 256) as u8,
            Reg8::PcH => (self.pc / 256) as u8,
            Reg8::PcL => (self.pc % 256) as u8,
            Reg8::ImmH => (self.imm / 256) as u8,
            Reg8::ImmL => (self.imm % 256) as u8,
        }
    }

    fn set_r8_tag(&mut self, r: Reg8, v: u8)
        ensures
            *final(self) == old(self).spec_set_r8(r, v),
            final(self).queue == old(self).queue,
            old(self).f_inv() ==> final(self).f_inv(),
    {
        match r {
            Reg8::A => {
                self.af = v as u16 * 256 + self.af % 256;
            },
            Reg8::F => {
                self.af = (self.af / 256) * 256 + (v as u16 / 16) * 16;
            },
            Reg8::B => {
                self.bc = v as u16 * 256 + self.bc % 256;
            },
            Reg8::C => {
                self.bc = (self.bc / 256) * 256 + v as u16;
            },
            Reg8::D => {
                self.de = v as u16 * 256 + self.de % 256;
            },
            Reg8::E => {
                self.de = (self.de / 256) * 256 + v as u16;
            },
            Reg8::H => {
                self.hl = v as u16 * 256 + self.hl % 256;
            },
            Reg8::L => {
                self.hl = (self.hl / 256) * 256 + v as u16;
            },
            Reg8::SpH => {
                self.sp = v as u16 * 256 + self.sp % 256;
            },
            Reg8::SpL => {
                self.sp = (self.sp / 256) * 256 + v as u16;
            },
            Reg8::PcH => {
                self.pc = v as u16 * 256 + self.pc % 256;
            },
            Reg8::PcL => {
                self.pc = (self.pc / 256) * 256 + v as u16;
            },
            Reg8::ImmH => {
                self.imm = v as u16 * 256 + self.imm % 256;
            },
            Reg8::ImmL => {
                self.imm = (self.imm / 256) * 256 + v as u16;
            },
        }
    }

    fn get_r16_tag(&self, r: Reg16) -> (v: u16)
        ensures
            v == self.spec_get_r16(r),
    {
        match r {
            Reg16::AF => self.af,
            Reg16::BC => self.bc,
            Reg16::DE => self.de,
            Reg16::HL => self.hl,
            Reg16::SP => self.sp,
            Reg16::PC => self.pc,
            Reg16::IMM => self.imm,
        }
    }

    fn set_r16_tag(&mut self, r: Reg16, v: u16)
        ensures
            *final(self) == old(self).spec_set_r16(r, v),
            final(self).queue == old(self).queue,
            old(self).f_inv() ==> final(self).f_inv(),
    {
        match r {
            Reg16::AF => {
                self.af = (v / 16) * 16;
            },
            Reg16::BC => {
                self.bc = v;
            },
            Reg16::DE => {
                self.de = v;
            },
            Reg16::HL => {
                self.hl = v;
            },
            Reg16::SP => {
                self.sp = v;
            },
            Reg16::PC => {
                self.pc = v;
            },
            Reg16::IMM => {
                self.imm = v;
            },
        }
    }

    /// The current flags byte.
    pub open spec fn spec_f(&self) -> u8 {
        (self.af % 256) as u8
    }

    /// The registers after replacing the flags byte.
    pub open spec fn spec_with_f(self, f: u8) -> SM83 {
        self.spec_set_r8(Reg8::F, f)
    }

    pub fn a(&self) -> (r: u8)
        ensures
            r == self.spec_get_r8(Reg8::A),
    {
        self.get_r8(Reg8::A)
    }

    pub fn f(&self) -> (r: u8)
        ensures
            r == self.spec_get_r8(Reg8::F),
            self.f_inv() ==> r % 16 == 0,
    {
        self.get_r8(Reg8::F)
    }

    pub fn b(&self) -> (r: u8)
        ensures
            r == self.spec_get_r8(Reg8::B),
    {
        self.get_r8(Reg8::B)
    }

    pub fn c(&self) -> (r: u8)
        ensures
            r == self.spec_get_r8(Reg8::C),
    {
        self.get_r8(Reg8::C)
    }

    pub fn d(&self) -> (r: u8)
        ensures
            r == self.spec_get_r8(Reg8::D),
    {
        self.get_r8(Reg8::D)
    }

    pub fn e(&self) -> (r: u8)
        ensures
            r == self.spec_get_r8(Reg8::E),
    {
        self.get_r8(Reg8::E)
    }

    pub fn h(&self) -> (r: u8)
        ensures
            r == self.spec_get_r8(Reg8::H),
    {
        self.get_r8(Reg8::H)
    }

    pub fn l(&self) -> (r: u8)
        ensures
            r == self.spec_get_r8(Reg8::L),
    {
        self.get_r8(Reg8::L)
    }

    pub fn set_a(&mut self, v: u8)
        ensures
            *final(self) == old(self).spec_set_r8(Reg8::A, v),
            final(self).queue == old(self).queue,
            old(self).f_inv() ==> final(self).f_inv(),
    {
        self.set_r8_tag(Reg8::A, v)
    }

    /// Stores `v & 0xF0` into F: the low nibble is masked off on every write.
    pub fn set_f(&mut self, v: u8)
        ensures
            *final(self) == old(self).spec_set_r8(Reg8::F, v),
            final(self).queue == old(self).queue,
            final(self).f_inv(),
            final(self).spec_f() == (v / 16) * 16,
    {
        self.set_r8_tag(Reg8::F, v)
    }

    pub fn set_b(&mut self, v: u8)
        ensures
            *final(self) == old(self).spec_set_r8(Reg8::B, v),
            final(self).queue == old(self).queue,
            old(self).f_inv() ==> final(self).f_inv(),
    {
        self.set_r8_tag(Reg8::B, v)
    }

    pub fn set_c(&mut self, v: u8)
        ensures
            *final(self) == old(self).spec_set_r8(Reg8::C, v),
            final(self).queue == old(self).queue,
            old(self).f_inv() ==> final(self).f_inv(),
    {
        self.set_r8_tag(Reg8::C, v)
    }

    pub fn set_d(&mut self, v: u8)
        ensures
            *final(self) == old(self).spec_set_r8(Reg8::D, v),
            final(self).queue == old(self).queue,
            old(self).f_inv() ==> final(self).f_inv(),
    {
        self.set_r8_tag(Reg8::D, v)
    }

    pub fn set_e(&mut self, v: u8)
        ensures
            *final(self) == old(self).spec_set_r8(Reg8::E, v),
            final(self).queue == old(self).queue,
            old(self).f_inv() ==> final(self).f_inv(),
    {
        self.set_r8_tag(Reg8::E, v)
    }

    pub fn set_h(&mut self, v: u8)
        ensures
            *final(self) == old(self).spec_set_r8(Reg8::H, v),
            final(self).queue == old(self).queue,
            old(self).f_inv() ==> final(self).f_inv(),
    {
        self.set_r8_tag(Reg8::H, v)
    }

    pub fn set_l(&mut self, v: u8)
        ensures
            *final(self) == old(self).spec_set_r8(Reg8::L, v),
            final(self).queue == old(self).queue,
            old(self).f_inv() ==> final(self).f_inv(),
    {
        self.set_r8_tag(Reg8::L, v)
    }

    pub fn af(&self) -> (r: u16)
        ensures
            r == self.af,
    {
        self.af
    }

    pub fn bc(&self) -> (r: u16)
        ensures
            r == self.bc,
    {
        self.bc
    }

    pub fn de(&self) -> (r: u16)
        ensures
            r == self.de,
    {
        self.de
    }

    pub fn hl(&self) -> (r: u16)
        ensures
            r == self.hl,
    {
        self.hl
    }

    pub fn sp(&self) -> (r: u16)
        ensures
            r == self.sp,
    {
        self.sp
    }

    pub fn pc(&self) -> (r: u16)
        ensures
            r == self.pc,
    {
        self.pc
    }

    /// Stores AF with the low nibble of F masked off.
    pub fn set_af(&mut self, v: u16)
        ensures
            *final(self) == old(self).spec_set_r16(Reg16::AF, v),
            final(self).queue == old(self).queue,
            final(self).f_inv(),
    {
        self.set_r16_tag(Reg16::AF, v)
    }

    pub fn set_bc(&mut self, v: u16)
        ensures
            *final(self) == old(self).spec_set_r16(Reg16::BC, v),
            final(self).queue == old(self).queue,
            old(self).f_inv() ==> final(self).f_inv(),
    {
        self.set_r16_tag(Reg16::BC, v)
    }

    pub fn set_de(&mut self, v: u16)
        ensures
            *final(self) == old(self).spec_set_r16(Reg16::DE, v),
            final(self).queue == old(self).queue,
            old(self).f_inv() ==> final(self).f_inv(),
    {
        self.set_r16_tag(Reg16::DE, v)
    }

    pub fn set_hl(&mut self, v: u16)
        ensures
            *final(self) == old(self).spec_set_r16(Reg16::HL, v),
            final(self).queue == old(self).queue,
            old(self).f_inv() ==> final(self).f_inv(),
    {
        self.set_r16_tag(Reg16::HL, v)
    }

    pub fn set_sp(&mut self, v: u16)
        ensures
            *final(self) == old(self).spec_set_r16(Reg16::SP, v),
            final(self).queue == old(self).queue,
            old(self).f_inv() ==> final(self).f_inv(),
    {
        self.set_r16_tag(Reg16::SP, v)
    }

    pub fn set_pc(&mut self, v: u16)
        ensures
            *final(self) == old(self).spec_set_r16(Reg16::PC, v),
            final(self).queue == old(self).queue,
            old(self).f_inv() ==> final(self).f_inv(),
    {
        self.set_r16_tag(Reg16::PC, v)
    }

    pub fn ime(&self) -> (r: bool)
        ensures
            r == self.ime,
    {
        self.ime
    }

    pub fn set_ime(&mut self, v: bool)
        ensures
            *final(self) == (SM83 { ime: v, ..*old(self) }),
    {
        self.ime = v;
    }
}

/// What retiring an action leaves of the schedule that followed it:
/// conditionals keep it when their condition holds and truncate it to
/// nothing when it fails, taken calls append their three remaining cycles,
/// the `0xCB` fetch appends that opcode's schedule, and every other action
/// leaves it alone. `tail` is the queue with the retired action already
/// popped; flags, PC and the bus are read from the state the action started
/// in.
pub open spec fn spec_queue_result<B: MemoryBus>(
    pre: SM83,
    tail: Seq<Action>,
    bus: B,
    act: Action,
) -> Seq<Action> {
    match act {
        Action::JpRel(c) => if spec_cond(c, pre.spec_f()) {
            tail
        } else {
            Seq::<Action>::empty()
        },
        Action::Jp(c) => if spec_cond(c, pre.spec_f()) {
            tail
        } else {
            Seq::<Action>::empty()
        },
        Action::RetIf(c) => if spec_cond(c, pre.spec_f()) {
            tail
        } else {
            Seq::<Action>::empty()
        },
        Action::Call(c) => if spec_cond(c, pre.spec_f()) {
            tail + seq![
                Action::Write(Addr::Wide(Reg16::SP), Reg8::PcH, -1i8),
                Action::Write(Addr::Wide(Reg16::SP), Reg8::PcL, 0i8),
                Action::MovePc(Reg16::IMM),
            ]
        } else {
            Seq::<Action>::empty()
        },
        Action::FetchCb => tail + crate::opcodes::cb_schedule_of(bus.read_spec(pre.pc)),
        _ => tail,
    }
}

/// What retiring an action does to the registers, flags and interrupt
/// enable — everything but the queue — with bus reads taken from `bus`.
/// This is the action semantics itself, one case per primitive.
pub open spec fn spec_retire_regs<B: MemoryBus>(pre: SM83, bus: B, act: Action) -> SM83 {
    match act {
        Action::Nop => pre,
        Action::Halt => pre,
        Action::Stop => pre,
        Action::Read(dst, a, d) => {
            let address = pre.spec_addr_value(a);
            let v = bus.read_spec(address);
            let with_dst = pre.spec_set_r8(dst, v);
            match a {
                Addr::Wide(r) => with_dst.spec_set_r16(
                    r,
                    crate::alu::spec_wrap16_delta(address, d),
                ),
                Addr::HiPage(_) => with_dst,
            }
        },
        Action::Write(a, src, d) => {
            let address = pre.spec_addr_value(a);
            match a {
                Addr::Wide(r) => pre.spec_set_r16(r, crate::alu::spec_wrap16_delta(address, d)),
                Addr::HiPage(_) => pre,
            }
        },
        Action::Delta16(r, d) => pre.spec_set_r16(
            r,
            crate::alu::spec_wrap16_delta(pre.spec_get_r16(r), d),
        ),
        Action::Delta8(r, d) => {
            let v = pre.spec_get_r8(r);
            let nv = crate::alu::spec_wrap8_delta(v, d);
            let with_r = pre.spec_set_r8(r, nv);
            let h = (v / 16) % 2 != (nv / 16) % 2;
            with_r.spec_with_f(spec_flags(nv == 0, d < 0, h, spec_fc(with_r.spec_f())))
        },
        Action::RotateCyClearZ(left) => {
            let rc = if left {
                crate::alu::spec_rlc(pre.spec_get_r8(Reg8::A))
            } else {
                crate::alu::spec_rrc(pre.spec_get_r8(Reg8::A))
            };
            pre.spec_set_r8(Reg8::A, rc.0).spec_with_f(spec_flags(false, false, false, rc.1))
        },
        Action::RotateClearZ(left) => {
            let cin = spec_fc(pre.spec_f());
            let rc = if left {
                crate::alu::spec_rl(pre.spec_get_r8(Reg8::A), cin)
            } else {
                crate::alu::spec_rr(pre.spec_get_r8(Reg8::A), cin)
            };
            pre.spec_set_r8(Reg8::A, rc.0).spec_with_f(spec_flags(false, false, false, rc.1))
        },
        Action::AddHl(r) => {
            let sum = crate::alu::spec_add16(pre.hl, pre.spec_get_r16(r));
            let z = spec_fz(pre.spec_f());
            pre.spec_set_r16(Reg16::HL, sum.0).spec_with_f(spec_flags(z, false, sum.1, sum.2))
        },
        Action::JpRel(c) => if spec_cond(c, pre.spec_f()) {
            pre.spec_set_r16(
                Reg16::PC,
                crate::alu::spec_offset16(pre.pc, pre.spec_get_r8(Reg8::ImmL)),
            )
        } else {
            pre
        },
        Action::Jp(c) => if spec_cond(c, pre.spec_f()) {
            pre.spec_set_r16(Reg16::PC, pre.imm)
        } else {
            pre
        },
        Action::Call(c) => if spec_cond(c, pre.spec_f()) {
            pre.spec_set_r16(Reg16::SP, crate::alu::spec_wrap16_delta(pre.sp, -1i8))
        } else {
            pre
        },
        Action::RetIf(_) => pre,
        Action::DecimalAdjustA => {
            let f = pre.spec_f();
            let rf = crate::alu::spec_alu_daa(
                pre.spec_get_r8(Reg8::A),
                spec_fn_(f),
                spec_fh(f),
                spec_fc(f),
            );
            pre.spec_set_r8(Reg8::A, rf.0).spec_with_f(rf.1)
        },
        Action::ComplimentA => {
            let f = pre.spec_f();
            pre.spec_set_r8(Reg8::A, (255 - pre.spec_get_r8(Reg8::A)) as u8).spec_with_f(
                spec_flags(spec_fz(f), true, true, spec_fc(f)),
            )
        },
        Action::ComplimentCarryFlag => {
            let f = pre.spec_f();
            pre.spec_with_f(spec_flags(spec_fz(f), false, false, !spec_fc(f)))
        },
        Action::SetCarryFlag => {
            let f = pre.spec_f();
            pre.spec_with_f(spec_flags(spec_fz(f), false, false, true))
        },
        Action::Move(dst, src) => pre.spec_set_r8(dst, pre.spec_get_r8(src)),
        Action::MovePc(r) => pre.spec_set_r16(Reg16::PC, pre.spec_get_r16(r)),
        Action::SetPc(v) => pre.spec_set_r16(Reg16::PC, v as u16),
        Action::SetIme(v) => SM83 { ime: v, ..pre },
        Action::Compare(r) => {
            let rf = crate::alu::spec_alu_sub(
                pre.spec_get_r8(Reg8::A),
                pre.spec_get_r8(r),
                false,
            );
            pre.spec_with_f(rf.1)
        },
        Action::AddA(r, with_carry) => {
            let cin = with_carry && spec_fc(pre.spec_f());
            let rf = crate::alu::spec_alu_add(pre.spec_get_r8(Reg8::A), pre.spec_get_r8(r), cin);
            pre.spec_set_r8(Reg8::A, rf.0).spec_with_f(rf.1)
        },
        Action::SubA(r, with_carry) => {
            let cin = with_carry && spec_fc(pre.spec_f());
            let rf = crate::alu::spec_alu_sub(pre.spec_get_r8(Reg8::A), pre.spec_get_r8(r), cin);
            pre.spec_set_r8(Reg8::A, rf.0).spec_with_f(rf.1)
        },
        Action::AndA(r) => {
            let rf = crate::alu::spec_alu_and(pre.spec_get_r8(Reg8::A), pre.spec_get_r8(r));
            pre.spec_set_r8(Reg8::A, rf.0).spec_with_f(rf.1)
        },
        Action::XorA(r) => {
            let rf = crate::alu::spec_alu_xor(pre.spec_get_r8(Reg8::A), pre.spec_get_r8(r));
            pre.spec_set_r8(Reg8::A, rf.0).spec_with_f(rf.1)
        },
        Action::OrA(r) => {
            let rf = crate::alu::spec_alu_or(pre.spec_get_r8(Reg8::A), pre.spec_get_r8(r));
            pre.spec_set_r8(Reg8::A, rf.0).spec_with_f(rf.1)
        },
        Action::OffsetSp(to_hl) => {
            let d = pre.spec_get_r8(Reg8::ImmL);
            let res = crate::alu::spec_offset16(pre.sp, d);
            let h = pre.sp % 16 + d % 16 > 15;
            let c = pre.sp % 256 + d > 255;
            let moved = if to_hl {
                pre.spec_set_r16(Reg16::HL, res)
            } else {
                pre.spec_set_r16(Reg16::SP, res)
            };
            moved.spec_with_f(spec_flags(false, false, h, c))
        },
        Action::Rlc(r) => {
            let rc = crate::alu::spec_rlc(pre.spec_get_r8(r));
            pre.spec_set_r8(r, rc.0).spec_with_f(spec_flags(rc.0 == 0, false, false, rc.1))
        },
        Action::Rrc(r) => {
            let rc = crate::alu::spec_rrc(pre.spec_get_r8(r));
            pre.spec_set_r8(r, rc.0).spec_with_f(spec_flags(rc.0 == 0, false, false, rc.1))
        },
        Action::Rl(r) => {
            let rc = crate::alu::spec_rl(pre.spec_get_r8(r), spec_fc(pre.spec_f()));
            pre.spec_set_r8(r, rc.0).spec_with_f(spec_flags(rc.0 == 0, false, false, rc.1))
        },
        Action::Rr(r) => {
            let rc = crate::alu::spec_rr(pre.spec_get_r8(r), spec_fc(pre.spec_f()));
            pre.spec_set_r8(r, rc.0).spec_with_f(spec_flags(rc.0 == 0, false, false, rc.1))
        },
        Action::Sla(r) => {
            let rc = crate::alu::spec_sla(pre.spec_get_r8(r));
            pre.spec_set_r8(r, rc.0).spec_with_f(spec_flags(rc.0 == 0, false, false, rc.1))
        },
        Action::Sra(r) => {
            let rc = crate::alu::spec_sra(pre.spec_get_r8(r));
            pre.spec_set_r8(r, rc.0).spec_with_f(spec_flags(rc.0 == 0, false, false, rc.1))
        },
        Action::Swap(r) => {
            let res = crate::alu::spec_swap(pre.spec_get_r8(r));
            pre.spec_set_r8(r, res).spec_with_f(spec_flags(res == 0, false, false, false))
        },
        Action::Srl(r) => {
            let rc = crate::alu::spec_srl(pre.spec_get_r8(r));
            pre.spec_set_r8(r, rc.0).spec_with_f(spec_flags(rc.0 == 0, false, false, rc.1))
        },
        Action::TestBit(n, r) => {
            let z = pre.spec_get_r8(r) & crate::alu::spec_bit_mask(n) == 0;
            pre.spec_with_f(spec_flags(z, false, true, spec_fc(pre.spec_f())))
        },
        Action::ResBit(n, r) => pre.spec_set_r8(
            r,
            pre.spec_get_r8(r) & !crate::alu::spec_bit_mask(n),
        ),
        Action::SetBit(n, r) => pre.spec_set_r8(
            r,
            pre.spec_get_r8(r) | crate::alu::spec_bit_mask(n),
        ),
        Action::FetchCb => pre.spec_set_r16(
            Reg16::PC,
            crate::alu::spec_wrap16_delta(pre.pc, 1),
        ),
    }
}

/// The lowest set line of a nonzero pending mask: the one serviced first.
pub open spec fn spec_lowest_irq(pending: u8) -> u8 {
    if pending & 1 != 0 {
        0
    } else if pending & 2 != 0 {
        1
    } else if pending & 4 != 0 {
        2
    } else if pending & 8 != 0 {
        3
    } else {
        4
    }
}

/// The five-cycle schedule a serviced interrupt enqueues: a hardware
/// injected call to the fixed vector of line `idx`.
pub open spec fn spec_irq_entry(idx: u8) -> Seq<Action> {
    seq![
        Action::Nop,
        Action::Delta16(Reg16::SP, -1i8),
        Action::Write(Addr::Wide(Reg16::SP), Reg8::PcH, -1i8),
        Action::Write(Addr::Wide(Reg16::SP), Reg8::PcL, 0i8),
        Action::SetPc((0x40 + 8 * idx) as u8),
    ]
}

/// Everything one CPU M-cycle does, as a relation from the starting CPU and
/// bus to the final ones and the returned mode. The head action is popped
/// and retired: registers move by `spec_retire_regs`, the remaining
/// schedule by `spec_queue_result`, and the mode is the head's. If that
/// leaves the queue empty, the same M-cycle refills it: with the interrupt
/// entry for the lowest line that is pending and enabled when the master
/// enable allows, else with the schedule of the opcode fetched at PC, which
/// then advances. When the head was a bus write the boundary reads the
/// just-written bus, so the refetch is stated over the final bus; with the
/// master enable off that case is still fully pinned, and with it on the
/// cycle either serviced some line or fetched.
pub open spec fn spec_m_cycle_rel<B: MemoryBus>(
    pre: SM83,
    pre_bus: B,
    post: SM83,
    post_bus: B,
    m: CpuMode,
) -> bool {
    let head = pre.queue@[0];
    let regs_mid = spec_retire_regs(pre, pre_bus, head);
    let queue_mid = spec_queue_result(pre, pre.queue@.remove(0), pre_bus, head);
    &&& post.inv()
    &&& m == spec_mode_of(head)
    &&& (queue_mid.len() > 0 ==> {
        &&& post == (SM83 { queue: post.queue, ..regs_mid })
        &&& post.queue@ == queue_mid
        &&& (!(head matches Action::Write(_, _, _)) ==> post_bus == pre_bus)
    })
    &&& ((queue_mid.len() == 0 && !(head matches Action::Write(_, _, _))) ==> ({
        let ie = pre_bus.read_spec(0xFFFF);
        let iff = pre_bus.read_spec(0xFF0F);
        let pending = ie & iff & 0x1F;
        if regs_mid.ime && pending != 0 {
            &&& post == (SM83 { ime: false, queue: post.queue, ..regs_mid })
            &&& post.queue@ == spec_irq_entry(spec_lowest_irq(pending))
        } else {
            &&& post == (SM83 {
                pc: crate::alu::spec_wrap16_delta(regs_mid.pc, 1),
                queue: post.queue,
                ..regs_mid
            })
            &&& post.queue@ == crate::opcodes::schedule_of(pre_bus.read_spec(regs_mid.pc))
            &&& post_bus == pre_bus
        }
    }))
    &&& ((queue_mid.len() == 0 && head matches Action::Write(_, _, _)) ==> ({
        if !regs_mid.ime {
            // no interrupt can be serviced, and the fetch writes nothing, so
            // the final bus is the written one the opcode came from
            &&& post == (SM83 {
                pc: crate::alu::spec_wrap16_delta(regs_mid.pc, 1),
                queue: post.queue,
                ..regs_mid
            })
            &&& post.queue@ == crate::opcodes::schedule_of(post_bus.read_spec(regs_mid.pc))
        } else {
            // what the written bus reads back decides between a service and
            // a fetch
            ||| (post == (SM83 { ime: false, queue: post.queue, ..regs_mid }) && (exists|i: u8|
                i < 5 && post.queue@ == spec_irq_entry(i)))
            ||| (post == (SM83 {
                pc: crate::alu::spec_wrap16_delta(regs_mid.pc, 1),
                queue: post.queue,
                ..regs_mid
            }) && post.queue@ == crate::opcodes::schedule_of(post_bus.read_spec(regs_mid.pc)))
        }
    }))
}

impl SM83 {
    /// The effective address an address tag names: the 16-bit register's
    /// value, or `0xFF00 | r8` for the high page.
    pub open spec fn spec_addr_value(&self, a: Addr) -> u16 {
        match a {
            Addr::Wide(r) => self.spec_get_r16(r),
            Addr::HiPage(r) => (0xFF00 + self.spec_get_r8(r)) as u16,
        }
    }

    fn addr_value(&self, a: Addr) -> (v: u16)
        ensures
            v == self.spec_addr_value(a),
    {
        match a {
            Addr::Wide(r) => self.get_r16_tag(r),
            Addr::HiPage(r) => 0xFF00 + self.get_r8(r) as u16,
        }
    }

    /// After a read or write, the address register takes the address it
    /// supplied plus the delta; a high-page tag leaves its register alone.
    fn apply_addr_delta(&mut self, a: Addr, address: u16, d: i8)
        ensures
            *final(self) == (match a {
                Addr::Wide(r) => old(self).spec_set_r16(
                    r,
                    crate::alu::spec_wrap16_delta(address, d),
                ),
                Addr::HiPage(_) => *old(self),
            }),
            final(self).queue == old(self).queue,
            old(self).f_inv() ==> final(self).f_inv(),
    {
        match a {
            Addr::Wide(r) => {
                let nv = crate::alu::wrap16_delta(address, d);
                self.set_r16_tag(r, nv);
            },
            Addr::HiPage(_) => {},
        }
    }

    /// Pops and retires the head action: the heart of an M-cycle. The
    /// registers, flags and interrupt enable change exactly as
    /// `spec_retire_regs` says, the rest of the schedule exactly as
    /// `spec_queue_result` says; only a `Write` action touches the bus;
    /// `Halt` and `Stop` pick the returned mode.
    #[verifier::rlimit(100)]
    #[verifier::spinoff_prover]
    fn retire<B: MemoryBus>(&mut self, bus: &mut B) -> (m: CpuMode)
        requires
            old(self).f_inv(),
            old(self).queue@.len() >= 1,
            old(bus).bus_inv(),
        ensures
            final(self).f_inv(),
            final(bus).bus_inv(),
            m == spec_mode_of(old(self).queue@[0]),
            *final(self) == (SM83 {
                queue: final(self).queue,
                ..spec_retire_regs(*old(self), *old(bus), old(self).queue@[0])
            }),
            final(self).queue@ == spec_queue_result(
                *old(self),
                old(self).queue@.remove(0),
                *old(bus),
                old(self).queue@[0],
            ),
            !(old(self).queue@[0] matches Action::Write(_, _, _)) ==> *final(bus) == *old(
                bus,
            ),
    {
        let act = self.queue[0];
        match act {
            Action::Read(_, _, _) | Action::Write(_, _, _) | Action::FetchCb => {
                self.retire_memory(bus, act);
            },
            Action::JpRel(_) | Action::Jp(_) | Action::Call(_) | Action::RetIf(_) => {
                self.retire_control(bus, act);
            },
            Action::Delta8(_, _) | Action::RotateCyClearZ(_) | Action::RotateClearZ(_)
                | Action::AddHl(_) | Action::DecimalAdjustA | Action::Compare(_)
                | Action::AddA(_, _) | Action::SubA(_, _) | Action::AndA(_) | Action::XorA(_)
                | Action::OrA(_) | Action::OffsetSp(_) => {
                self.retire_arithmetic(bus, act);
                self.queue.remove(0);
            },
            Action::Rlc(_) | Action::Rrc(_) | Action::Rl(_) | Action::Rr(_) | Action::Sla(_)
                | Action::Sra(_) | Action::Swap(_) | Action::Srl(_) | Action::TestBit(_, _)
                | Action::ResBit(_, _) | Action::SetBit(_, _) => {
                self.retire_bit_op(bus, act);
                self.queue.remove(0);
            },
            _ => {
                self.retire_plain(bus, act);
                self.queue.remove(0);
            },
        }
        match act {
            Action::Halt => CpuMode::Halted,
            Action::Stop => CpuMode::Stopped,
            _ => CpuMode::Normal,
        }
    }

    /// The actions that touch neither the bus nor the queue: register
    /// moves, 16-bit deltas, the accumulator and carry specials, the mode
    /// markers, and the interrupt enable.
    #[verifier::rlimit(100)]
    #[verifier::spinoff_prover]
    fn retire_plain<B: MemoryBus>(&mut self, bus: &B, act: Action)
        requires
            old(self).f_inv(),
            (act matches Action::Nop || act matches Action::Halt || act matches Action::Stop
                || act matches Action::Delta16(_, _) || act matches Action::ComplimentA
                || act matches Action::ComplimentCarryFlag || act matches Action::SetCarryFlag
                || act matches Action::Move(_, _) || act matches Action::MovePc(_)
                || act matches Action::SetPc(_) || act matches Action::SetIme(_)),
        ensures
            final(self).f_inv(),
            *final(self) == (SM83 {
                queue: final(self).queue,
                ..spec_retire_regs(*old(self), *bus, act)
            }),
            final(self).queue == old(self).queue,
    {
        match act {
            Action::Nop => {},
            Action::Halt => {},
            Action::Stop => {},
            Action::Delta16(r, d) => {
                let v = self.get_r16_tag(r);
                let nv = crate::alu::wrap16_delta(v, d);
                self.set_r16_tag(r, nv);
            },
            Action::ComplimentA => {
                let a0 = self.a();
                let f = self.f();
                self.set_a(255 - a0);
                let nf = crate::alu::flags(crate::alu::fz(f), true, true, crate::alu::fc(f));
                self.set_f(nf);
            },
            Action::ComplimentCarryFlag => {
                let f = self.f();
                let nf = crate::alu::flags(crate::alu::fz(f), false, false, !crate::alu::fc(f));
                self.set_f(nf);
            },
            Action::SetCarryFlag => {
                let f = self.f();
                let nf = crate::alu::flags(crate::alu::fz(f), false, false, true);
                self.set_f(nf);
            },
            Action::Move(dst, src) => {
                let v = self.get_r8(src);
                self.set_r8_tag(dst, v);
            },
            Action::MovePc(r) => {
                let v = self.get_r16_tag(r);
                self.set_pc(v);
            },
            Action::SetPc(v) => {
                self.set_pc(v as u16);
            },
            Action::SetIme(v) => {
                self.ime = v;
            },
            _ => {},
        }
    }

    /// The arithmetic actions against A, HL and SP: the flag algebra
    /// kernels applied to register operands.
    #[verifier::rlimit(100)]
    #[verifier::spinoff_prover]
    fn retire_arithmetic<B: MemoryBus>(&mut self, bus: &B, act: Action)
        requires
            old(self).f_inv(),
            (act matches Action::Delta8(_, _) || act matches Action::RotateCyClearZ(_)
                || act matches Action::RotateClearZ(_) || act matches Action::AddHl(_)
                || act matches Action::DecimalAdjustA || act matches Action::Compare(_)
                || act matches Action::AddA(_, _) || act matches Action::SubA(_, _)
                || act matches Action::AndA(_) || act matches Action::XorA(_)
                || act matches Action::OrA(_) || act matches Action::OffsetSp(_)),
        ensures
            final(self).f_inv(),
            *final(self) == (SM83 {
                queue: final(self).queue,
                ..spec_retire_regs(*old(self), *bus, act)
            }),
            final(self).queue == old(self).queue,
    {
        match act {
            Action::Delta8(r, d) => {
                let v = self.get_r8(r);
                let nv = crate::alu::wrap8_delta(v, d);
                self.set_r8_tag(r, nv);
                let f = self.f();
                let h = (v / 16) % 2 != (nv / 16) % 2;
                let nf = crate::alu::flags(nv == 0, d < 0, h, crate::alu::fc(f));
                self.set_f(nf);
            },
            Action::RotateCyClearZ(left) => {
                let a0 = self.a();
                let rc = if left {
                    crate::alu::rlc(a0)
                } else {
                    crate::alu::rrc(a0)
                };
                self.set_a(rc.0);
                let nf = crate::alu::flags(false, false, false, rc.1);
                self.set_f(nf);
            },
            Action::RotateClearZ(left) => {
                let a0 = self.a();
                let cin = crate::alu::fc(self.f());
                let rc = if left {
                    crate::alu::rl(a0, cin)
                } else {
                    crate::alu::rr(a0, cin)
                };
                self.set_a(rc.0);
                let nf = crate::alu::flags(false, false, false, rc.1);
                self.set_f(nf);
            },
            Action::AddHl(r) => {
                let v = self.get_r16_tag(r);
                let hl = self.hl();
                let sum = crate::alu::add16(hl, v);
                let z = crate::alu::fz(self.f());
                self.set_hl(sum.0);
                let nf = crate::alu::flags(z, false, sum.1, sum.2);
                self.set_f(nf);
            },
            Action::DecimalAdjustA => {
                let f = self.f();
                let a0 = self.a();
                let rf = crate::alu::alu_daa(
                    a0,
                    crate::alu::fn_(f),
                    crate::alu::fh(f),
                    crate::alu::fc(f),
                );
                self.set_a(rf.0);
                self.set_f(rf.1);
            },
            Action::Compare(r) => {
                let a0 = self.a();
                let v = self.get_r8(r);
                let rf = crate::alu::alu_sub(a0, v, false);
                self.set_f(rf.1);
            },
            Action::AddA(r, with_carry) => {
                let cin = with_carry && crate::alu::fc(self.f());
                let a0 = self.a();
                let v = self.get_r8(r);
                let rf = crate::alu::alu_add(a0, v, cin);
                self.set_a(rf.0);
                self.set_f(rf.1);
            },
            Action::SubA(r, with_carry) => {
                let cin = with_carry && crate::alu::fc(self.f());
                let a0 = self.a();
                let v = self.get_r8(r);
                let rf = crate::alu::alu_sub(a0, v, cin);
                self.set_a(rf.0);
                self.set_f(rf.1);
            },
            Action::AndA(r) => {
                let a0 = self.a();
                let v = self.get_r8(r);
                let rf = crate::alu::alu_and(a0, v);
                self.set_a(rf.0);
                self.set_f(rf.1);
            },
            Action::XorA(r) => {
                let a0 = self.a();
                let v = self.get_r8(r);
                let rf = crate::alu::alu_xor(a0, v);
                self.set_a(rf.0);
                self.set_f(rf.1);
            },
            Action::OrA(r) => {
                let a0 = self.a();
                let v = self.get_r8(r);
                let rf = crate::alu::alu_or(a0, v);
                self.set_a(rf.0);
                self.set_f(rf.1);
            },
            Action::OffsetSp(to_hl) => {
                let d = self.get_r8(Reg8::ImmL);
                let sp = self.sp();
                let res = crate::alu::offset16(sp, d);
                let h = sp % 16 + (d as u16) % 16 > 15;
                let c = sp % 256 + d as u16 > 255;
                if to_hl {
                    self.set_hl(res);
                } else {
                    self.set_sp(res);
                }
                let nf = crate::alu::flags(false, false, h, c);
                self.set_f(nf);
            },
            _ => {},
        }
    }

    /// The `0xCB` single-register actions: rotates, shifts, the nibble
    /// swap, and bit tests, clears and sets.
    #[verifier::rlimit(100)]
    #[verifier::spinoff_prover]
    fn retire_bit_op<B: MemoryBus>(&mut self, bus: &B, act: Action)
        requires
            old(self).f_inv(),
            (act matches Action::Rlc(_) || act matches Action::Rrc(_)
                || act matches Action::Rl(_) || act matches Action::Rr(_)
                || act matches Action::Sla(_) || act matches Action::Sra(_)
                || act matches Action::Swap(_) || act matches Action::Srl(_)
                || act matches Action::TestBit(_, _) || act matches Action::ResBit(_, _)
                || act matches Action::SetBit(_, _)),
        ensures
            final(self).f_inv(),
            *final(self) == (SM83 {
                queue: final(self).queue,
                ..spec_retire_regs(*old(self), *bus, act)
            }),
            final(self).queue == old(self).queue,
    {
        match act {
            Action::Rlc(r) => {
                let v = self.get_r8(r);
                let rc = crate::alu::rlc(v);
                self.set_r8_tag(r, rc.0);
                let nf = crate::alu::flags(rc.0 == 0, false, false, rc.1);
                self.set_f(nf);
            },
            Action::Rrc(r) => {
                let v = self.get_r8(r);
                let rc = crate::alu::rrc(v);
                self.set_r8_tag(r, rc.0);
                let nf = crate::alu::flags(rc.0 == 0, false, false, rc.1);
                self.set_f(nf);
            },
            Action::Rl(r) => {
                let cin = crate::alu::fc(self.f());
                let v = self.get_r8(r);
                let rc = crate::alu::rl(v, cin);
                self.set_r8_tag(r, rc.0);
                let nf = crate::alu::flags(rc.0 == 0, false, false, rc.1);
                self.set_f(nf);
            },
            Action::Rr(r) => {
                let cin = crate::alu::fc(self.f());
                let v = self.get_r8(r);
                let rc = crate::alu::rr(v, cin);
                self.set_r8_tag(r, rc.0);
                let nf = crate::alu::flags(rc.0 == 0, false, false, rc.1);
                self.set_f(nf);
            },
            Action::Sla(r) => {
                let v = self.get_r8(r);
                let rc = crate::alu::sla(v);
                self.set_r8_tag(r, rc.0);
                let nf = crate::alu::flags(rc.0 == 0, false, false, rc.1);
                self.set_f(nf);
            },
            Action::Sra(r) => {
                let v = self.get_r8(r);
                let rc = crate::alu::sra(v);
                self.set_r8_tag(r, rc.0);
                let nf = crate::alu::flags(rc.0 == 0, false, false, rc.1);
                self.set_f(nf);
            },
            Action::Swap(r) => {
                let v = self.get_r8(r);
                let res = crate::alu::swap(v);
                self.set_r8_tag(r, res);
                let nf = crate::alu::flags(res == 0, false, false, false);
                self.set_f(nf);
            },
            Action::Srl(r) => {
                let v = self.get_r8(r);
                let rc = crate::alu::srl(v);
                self.set_r8_tag(r, rc.0);
                let nf = crate::alu::flags(rc.0 == 0, false, false, rc.1);
                self.set_f(nf);
            },
            Action::TestBit(n, r) => {
                let v = self.get_r8(r);
                let mask = crate::alu::bit_mask(n);
                let f = self.f();
                let nf = crate::alu::flags((v & mask) == 0, false, true, crate::alu::fc(f));
                self.set_f(nf);
            },
            Action::ResBit(n, r) => {
                let v = self.get_r8(r);
                let mask = crate::alu::bit_mask(n);
                self.set_r8_tag(r, v & !mask);
            },
            Action::SetBit(n, r) => {
                let v = self.get_r8(r);
                let mask = crate::alu::bit_mask(n);
                self.set_r8_tag(r, v | mask);
            },
            _ => {},
        }
    }

    /// The actions that use the bus: memory reads and writes with their
    /// post-delta on the address register, and the `0xCB` fetch that
    /// enqueues the prefixed opcode's schedule.
    #[verifier::rlimit(100)]
    #[verifier::spinoff_prover]
    fn retire_memory<B: MemoryBus>(&mut self, bus: &mut B, act: Action)
        requires
            old(self).f_inv(),
            old(self).queue@.len() >= 1,
            old(bus).bus_inv(),
            (act matches Action::Read(_, _, _) || act matches Action::Write(_, _, _)
                || act matches Action::FetchCb),
        ensures
            final(self).f_inv(),
            final(bus).bus_inv(),
            *final(self) == (SM83 {
                queue: final(self).queue,
                ..spec_retire_regs(*old(self), *old(bus), act)
            }),
            final(self).queue@ == spec_queue_result(
                *old(self),
                old(self).queue@.remove(0),
                *old(bus),
                act,
            ),
            !(act matches Action::Write(_, _, _)) ==> *final(bus) == *old(bus),
    {
        self.queue.remove(0);
        match act {
            Action::Read(dst, a, d) => {
                let address = self.addr_value(a);
                let v = bus.read(address);
                self.set_r8_tag(dst, v);
                self.apply_addr_delta(a, address, d);
            },
            Action::Write(a, src, d) => {
                let address = self.addr_value(a);
                let v = self.get_r8(src);
                bus.write(address, v);
                self.apply_addr_delta(a, address, d);
            },
            Action::FetchCb => {
                let pc = self.pc();
                let op = bus.read(pc);
                let npc = crate::alu::wrap16_delta(pc, 1);
                self.set_pc(npc);
                let mut sched = crate::opcodes::cb_schedule(op);
                self.queue.append(&mut sched);
            },
            _ => {},
        }
    }

    /// The conditionals: a held condition transfers control (or, for a
    /// taken call, dips SP and enqueues the push-and-jump cycles); a failed
    /// one truncates the rest of the schedule, ending the instruction early.
    #[verifier::rlimit(100)]
    #[verifier::spinoff_prover]
    fn retire_control<B: MemoryBus>(&mut self, bus: &B, act: Action)
        requires
            old(self).f_inv(),
            old(self).queue@.len() >= 1,
            (act matches Action::JpRel(_) || act matches Action::Jp(_)
                || act matches Action::Call(_) || act matches Action::RetIf(_)),
        ensures
            final(self).f_inv(),
            *final(self) == (SM83 {
                queue: final(self).queue,
                ..spec_retire_regs(*old(self), *bus, act)
            }),
            final(self).queue@ == spec_queue_result(
                *old(self),
                old(self).queue@.remove(0),
                *bus,
                act,
            ),
    {
        self.queue.remove(0);
        match act {
            Action::JpRel(c) => {
                if crate::alu::cond_holds(c, self.f()) {
                    let d = self.get_r8(Reg8::ImmL);
                    let pc = self.pc();
                    let npc = crate::alu::offset16(pc, d);
                    self.set_pc(npc);
                } else {
                    self.queue.clear();
                }
            },
            Action::Jp(c) => {
                if crate::alu::cond_holds(c, self.f()) {
                    let t = self.imm;
                    self.set_pc(t);
                } else {
                    self.queue.clear();
                }
            },
            Action::Call(c) => {
                if crate::alu::cond_holds(c, self.f()) {
                    let nsp = crate::alu::wrap16_delta(self.sp(), -1);
                    self.set_sp(nsp);
                    self.queue.push(Action::Write(Addr::Wide(Reg16::SP), Reg8::PcH, -1));
                    self.queue.push(Action::Write(Addr::Wide(Reg16::SP), Reg8::PcL, 0));
                    self.queue.push(Action::MovePc(Reg16::IMM));
                } else {
                    self.queue.clear();
                }
            },
            Action::RetIf(c) => {
                if !crate::alu::cond_holds(c, self.f()) {
                    self.queue.clear();
                }
            },
            _ => {},
        }
    }

    /// The queue has run dry at a fetch boundary: service the
    /// highest-priority pending interrupt if the master enable and the
    /// `IE`/`IF` registers allow one, else fetch the opcode at PC, advance
    /// PC, and enqueue the opcode's schedule. Either way the queue is
    /// non-empty again.
    fn fetch_or_interrupt<B: MemoryBus>(&mut self, bus: &mut B)
        requires
            old(self).f_inv(),
            old(bus).bus_inv(),
        ensures
            final(self).f_inv(),
            final(bus).bus_inv(),
            final(self).queue@.len() >= 1,
            ({
                let ie = old(bus).read_spec(0xFFFF);
                let iff = old(bus).read_spec(0xFF0F);
                let pending = ie & iff & 0x1F;
                if old(self).ime && pending != 0 {
                    &&& *final(self) == (SM83 {
                        ime: false,
                        queue: final(self).queue,
                        ..*old(self)
                    })
                    &&& final(self).queue@ == old(self).queue@ + spec_irq_entry(
                        spec_lowest_irq(pending),
                    )
                } else {
                    &&& *final(self) == (SM83 {
                        pc: crate::alu::spec_wrap16_delta(old(self).pc, 1),
                        queue: final(self).queue,
                        ..*old(self)
                    })
                    &&& final(self).queue@ == old(self).queue@ + crate::opcodes::schedule_of(
                        old(bus).read_spec(old(self).pc),
                    )
                    &&& *final(bus) == *old(bus)
                }
            }),
    {
        let ie = bus.read(0xFFFF);
        let iff = bus.read(0xFF0F);
        let pending = ie & iff & 0x1F;
        if self.ime && pending != 0 {
            // the lowest set bit has the highest priority
            let idx: u8 = if pending & 1 != 0 {
                0
            } else if pending & 2 != 0 {
                1
            } else if pending & 4 != 0 {
                2
            } else if pending & 8 != 0 {
                3
            } else {
                4
            };
            let mask = crate::alu::bit_mask(idx);
            bus.write(0xFF0F, iff & !mask);
            self.ime = false;
            // a hardware-injected call to the fixed vector, five cycles in all
            self.queue.push(Action::Nop);
            self.queue.push(Action::Delta16(Reg16::SP, -1));
            self.queue.push(Action::Write(Addr::Wide(Reg16::SP), Reg8::PcH, -1));
            self.queue.push(Action::Write(Addr::Wide(Reg16::SP), Reg8::PcL, 0));
            self.queue.push(Action::SetPc(0x40 + 8 * idx));
        } else {
            let pc = self.pc();
            let op = bus.read(pc);
            let npc = crate::alu::wrap16_delta(pc, 1);
            self.set_pc(npc);
            let mut sched = crate::opcodes::op_schedule(op);
            self.queue.append(&mut sched);
        }
    }

    /// Retires one M-cycle against the bus, exactly as `spec_m_cycle_rel`
    /// says, and returns the mode the CPU is in afterwards. The head action
    /// is popped and retired per the action semantics; if that leaves the
    /// queue empty, the same M-cycle services a pending interrupt or
    /// fetches the next opcode — so the queue is never empty between
    /// M-cycles, and the low nibble of F stays zero.
    pub fn m_cycle<B: MemoryBus>(&mut self, bus: &mut B) -> (m: CpuMode)
        requires
            old(self).inv(),
            old(bus).bus_inv(),
        ensures
            final(self).inv(),
            final(bus).bus_inv(),
            final(self).queue@.len() >= 1,
            final(self).f_inv(),
            m == spec_mode_of(old(self).queue@[0]),
            spec_m_cycle_rel(*old(self), *old(bus), *final(self), *final(bus), m),
    {
        let ghost head = self.queue@[0];
        let mode = self.retire(bus);
        let ghost mid_cpu = *self;
        let ghost mid_bus = *bus;
        if self.queue.len() == 0 {
            self.fetch_or_interrupt(bus);
            proof {
                if head matches Action::Write(_, _, _) && mid_cpu.ime {
                    let ie = mid_bus.read_spec(0xFFFF);
                    let iff = mid_bus.read_spec(0xFF0F);
                    let pending = ie & iff & 0x1F;
                    if pending != 0 {
                        assert(spec_lowest_irq(pending) < 5);
                        assert(self.queue@ == spec_irq_entry(spec_lowest_irq(pending)));
                    }
                }
            }
        }
        mode
    }
}

/// Every F value read back from the CPU has its low 4 bits zero.
pub proof fn lemma_f_low_nibble_zero(cpu: &SM83)
    requires
        cpu.f_inv(),
    ensures
        cpu.spec_get_r8(Reg8::F) % 16 == 0,
{
}

/// Writing any value to F and reading it back yields the value masked with
/// `0xF0`.
pub proof fn lemma_f_round_trip(cpu: SM83, v: u8)
    ensures
        cpu.spec_set_r8(Reg8::F, v).spec_get_r8(Reg8::F) == v & 0xF0,
        cpu.spec_set_r8(Reg8::F, v).f_inv(),
{
    assert((v / 16) * 16 == v & 0xF0) by (bit_vector);
}

/// For every register pair — BC, DE and HL — writing 16 bits and reading
/// back each half reproduces those bytes in big-endian register
/// order: the first-named register holds the high byte.
pub proof fn lemma_pair_round_trip(cpu: SM83, v: u16)
    ensures
        cpu.spec_set_r16(Reg16::BC, v).spec_get_r8(Reg8::B) == v / 256,
        cpu.spec_set_r16(Reg16::BC, v).spec_get_r8(Reg8::C) == v % 256,
        cpu.spec_set_r16(Reg16::DE, v).spec_get_r8(Reg8::D) == v / 256,
        cpu.spec_set_r16(Reg16::DE, v).spec_get_r8(Reg8::E) == v % 256,
        cpu.spec_set_r16(Reg16::HL, v).spec_get_r8(Reg8::H) == v / 256,
        cpu.spec_set_r16(Reg16::HL, v).spec_get_r8(Reg8::L) == v % 256,
{
}

impl Default for SM83 {
    /// All registers zero, interrupts disabled, and a single `Nop` queued, so
    /// the first M-cycle fetches the opcode at PC.
    fn default() -> (r: Self)
        ensures
            r.inv(),
            r.af == 0 && r.bc == 0 && r.de == 0 && r.hl == 0,
            r.sp == 0 && r.pc == 0 && r.imm == 0,
            !r.ime,
            r.queue@ == seq![Action::Nop],
    {
        SM83 {
            af: 0,
            bc: 0,
            de: 0,
            hl: 0,
            sp: 0,
            pc: 0,
            imm: 0,
            ime: false,
            queue: vec![Action::Nop],
        }
    }
}

} // verus!
