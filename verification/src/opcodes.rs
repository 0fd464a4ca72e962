//! The opcode tables: the fixed micro-op schedule of each of the 256 main
//! opcodes and the 256 `0xCB`-prefixed opcodes, each stated once as a
//! mathematical sequence and once as the executable table proved equal to
//! it. A schedule's length is the instruction's M-cycle count; taken calls
//! and the `0xCB` fetch enqueue their remaining cycles when retired. Illegal
//! opcodes get a lone `Nop`.

use vstd::prelude::*;

verus! {

use crate::cpu::{Action, Addr, Cond, Reg16, Reg8};

/// The register an SM83 3-bit operand field names (6, memory at HL, has no
/// tag and is handled by the callers).
pub open spec fn spec_reg_code(c: u8) -> Reg8 {
    if c == 0 {
        Reg8::B
    } else if c == 1 {
        Reg8::C
    } else if c == 2 {
        Reg8::D
    } else if c == 3 {
        Reg8::E
    } else if c == 4 {
        Reg8::H
    } else if c == 5 {
        Reg8::L
    } else {
        Reg8::A
    }
}

fn reg_code(c: u8) -> (r: Reg8)
    ensures
        r == spec_reg_code(c),
{
    if c == 0 {
        Reg8::B
    } else if c == 1 {
        Reg8::C
    } else if c == 2 {
        Reg8::D
    } else if c == 3 {
        Reg8::E
    } else if c == 4 {
        Reg8::H
    } else if c == 5 {
        Reg8::L
    } else {
        Reg8::A
    }
}

/// The ALU action for a 3-bit operation field: add, add-with-carry, sub,
/// sub-with-carry, and, xor, or, compare.
pub open spec fn spec_alu_code(kind: u8, r: Reg8) -> Action {
    if kind == 0 {
        Action::AddA(r, false)
    } else if kind == 1 {
        Action::AddA(r, true)
    } else if kind == 2 {
        Action::SubA(r, false)
    } else if kind == 3 {
        Action::SubA(r, true)
    } else if kind == 4 {
        Action::AndA(r)
    } else if kind == 5 {
        Action::XorA(r)
    } else if kind == 6 {
        Action::OrA(r)
    } else {
        Action::Compare(r)
    }
}

fn alu_code(kind: u8, r: Reg8) -> (a: Action)
    ensures
        a == spec_alu_code(kind, r),
{
    if kind == 0 {
        Action::AddA(r, false)
    } else if kind == 1 {
        Action::AddA(r, true)
    } else if kind == 2 {
        Action::SubA(r, false)
    } else if kind == 3 {
        Action::SubA(r, true)
    } else if kind == 4 {
        Action::AndA(r)
    } else if kind == 5 {
        Action::XorA(r)
    } else if kind == 6 {
        Action::OrA(r)
    } else {
        Action::Compare(r)
    }
}

/// The schedule of a main-table opcode, as a sequence.
pub open spec fn schedule_of(op: u8) -> Seq<Action> {
    if op < 0x40 {
        spec_sched_misc_low(op)
    } else if op < 0x80 {
        spec_sched_loads(op)
    } else if op < 0xC0 {
        spec_sched_alu(op)
    } else {
        spec_sched_misc_high(op)
    }
}

/// Loads between 8-bit registers and memory at HL (`0x40..=0x7F`), and HALT.
pub open spec fn spec_sched_loads(op: u8) -> Seq<Action> {
    if op == 0x76 {
        seq![Action::Halt]
    } else {
        let d = ((op - 0x40) / 8) as u8;
        let s = (op % 8) as u8;
        if d == 6 {
            seq![Action::Write(Addr::Wide(Reg16::HL), spec_reg_code(s), 0), Action::Nop]
        } else if s == 6 {
            seq![Action::Read(spec_reg_code(d), Addr::Wide(Reg16::HL), 0), Action::Nop]
        } else {
            seq![Action::Move(spec_reg_code(d), spec_reg_code(s))]
        }
    }
}

/// ALU operations against A (`0x80..=0xBF`).
pub open spec fn spec_sched_alu(op: u8) -> Seq<Action> {
    let kind = ((op - 0x80) / 8) as u8;
    let s = (op % 8) as u8;
    if s == 6 {
        seq![
            Action::Read(Reg8::ImmL, Addr::Wide(Reg16::HL), 0),
            spec_alu_code(kind, Reg8::ImmL),
        ]
    } else {
        seq![spec_alu_code(kind, spec_reg_code(s))]
    }
}

/// Opcodes `0x00..=0x3F`: 16-bit loads and arithmetic, 8-bit immediates,
/// increments, rotates of A, relative jumps, and the accumulator specials.
pub open spec fn spec_sched_misc_low(op: u8) -> Seq<Action> {
    if op == 0x00 {
        seq![Action::Nop]
    } else if op == 0x01 {
        seq![Action::Read(Reg8::C, Addr::Wide(Reg16::PC), 1), Action::Read(Reg8::B, Addr::Wide(Reg16::PC), 1), Action::Nop]
    } else if op == 0x02 {
        seq![Action::Write(Addr::Wide(Reg16::BC), Reg8::A, 0), Action::Nop]
    } else if op == 0x03 {
        seq![Action::Delta16(Reg16::BC, 1), Action::Nop]
    } else if op == 0x04 {
        seq![Action::Delta8(Reg8::B, 1)]
    } else if op == 0x05 {
        seq![Action::Delta8(Reg8::B, -1i8)]
    } else if op == 0x06 {
        seq![Action::Read(Reg8::B, Addr::Wide(Reg16::PC), 1), Action::Nop]
    } else if op == 0x07 {
        seq![Action::RotateCyClearZ(true)]
    } else if op == 0x08 {
        seq![Action::Read(Reg8::ImmL, Addr::Wide(Reg16::PC), 1), Action::Read(Reg8::ImmH, Addr::Wide(Reg16::PC), 1), Action::Write(Addr::Wide(Reg16::IMM), Reg8::SpL, 1), Action::Write(Addr::Wide(Reg16::IMM), Reg8::SpH, 0), Action::Nop]
    } else if op == 0x09 {
        seq![Action::AddHl(Reg16::BC), Action::Nop]
    } else if op == 0x0a {
        seq![Action::Read(Reg8::A, Addr::Wide(Reg16::BC), 0), Action::Nop]
    } else if op == 0x0b {
        seq![Action::Delta16(Reg16::BC, -1i8), Action::Nop]
    } else if op == 0x0c {
        seq![Action::Delta8(Reg8::C, 1)]
    } else if op == 0x0d {
        seq![Action::Delta8(Reg8::C, -1i8)]
    } else if op == 0x0e {
        seq![Action::Read(Reg8::C, Addr::Wide(Reg16::PC), 1), Action::Nop]
    } else if op == 0x0f {
        seq![Action::RotateCyClearZ(false)]
    } else if op == 0x10 {
        seq![Action::Stop]
    } else if op == 0x11 {
        seq![Action::Read(Reg8::E, Addr::Wide(Reg16::PC), 1), Action::Read(Reg8::D, Addr::Wide(Reg16::PC), 1), Action::Nop]
    } else if op == 0x12 {
        seq![Action::Write(Addr::Wide(Reg16::DE), Reg8::A, 0), Action::Nop]
    } else if op == 0x13 {
        seq![Action::Delta16(Reg16::DE, 1), Action::Nop]
    } else if op == 0x14 {
        seq![Action::Delta8(Reg8::D, 1)]
    } else if op == 0x15 {
        seq![Action::Delta8(Reg8::D, -1i8)]
    } else if op == 0x16 {
        seq![Action::Read(Reg8::D, Addr::Wide(Reg16::PC), 1), Action::Nop]
    } else if op == 0x17 {
        seq![Action::RotateClearZ(true)]
    } else if op == 0x18 {
        seq![Action::Read(Reg8::ImmL, Addr::Wide(Reg16::PC), 1), Action::JpRel(Cond::Always), Action::Nop]
    } else if op == 0x19 {
        seq![Action::AddHl(Reg16::DE), Action::Nop]
    } else if op == 0x1a {
        seq![Action::Read(Reg8::A, Addr::Wide(Reg16::DE), 0), Action::Nop]
    } else if op == 0x1b {
        seq![Action::Delta16(Reg16::DE, -1i8), Action::Nop]
    } else if op == 0x1c {
        seq![Action::Delta8(Reg8::E, 1)]
    } else if op == 0x1d {
        seq![Action::Delta8(Reg8::E, -1i8)]
    } else if op == 0x1e {
        seq![Action::Read(Reg8::E, Addr::Wide(Reg16::PC), 1), Action::Nop]
    } else if op == 0x1f {
        seq![Action::RotateClearZ(false)]
    } else if op == 0x20 {
        seq![Action::Read(Reg8::ImmL, Addr::Wide(Reg16::PC), 1), Action::JpRel(Cond::NotZero), Action::Nop]
    } else if op == 0x21 {
        seq![Action::Read(Reg8::L, Addr::Wide(Reg16::PC), 1), Action::Read(Reg8::H, Addr::Wide(Reg16::PC), 1), Action::Nop]
    } else if op == 0x22 {
        seq![Action::Write(Addr::Wide(Reg16::HL), Reg8::A, 1), Action::Nop]
    } else if op == 0x23 {
        seq![Action::Delta16(Reg16::HL, 1), Action::Nop]
    } else if op == 0x24 {
        seq![Action::Delta8(Reg8::H, 1)]
    } else if op == 0x25 {
        seq![Action::Delta8(Reg8::H, -1i8)]
    } else if op == 0x26 {
        seq![Action::Read(Reg8::H, Addr::Wide(Reg16::PC), 1), Action::Nop]
    } else if op == 0x27 {
        seq![Action::DecimalAdjustA]
    } else if op == 0x28 {
        seq![Action::Read(Reg8::ImmL, Addr::Wide(Reg16::PC), 1), Action::JpRel(Cond::Zero), Action::Nop]
    } else if op == 0x29 {
        seq![Action::AddHl(Reg16::HL), Action::Nop]
    } else if op == 0x2a {
        seq![Action::Read(Reg8::A, Addr::Wide(Reg16::HL), 1), Action::Nop]
    } else if op == 0x2b {
        seq![Action::Delta16(Reg16::HL, -1i8), Action::Nop]
    } else if op == 0x2c {
        seq![Action::Delta8(Reg8::L, 1)]
    } else if op == 0x2d {
        seq![Action::Delta8(Reg8::L, -1i8)]
    } else if op == 0x2e {
        seq![Action::Read(Reg8::L, Addr::Wide(Reg16::PC), 1), Action::Nop]
    } else if op == 0x2f {
        seq![Action::ComplimentA]
    } else if op == 0x30 {
        seq![Action::Read(Reg8::ImmL, Addr::Wide(Reg16::PC), 1), Action::JpRel(Cond::NotCarry), Action::Nop]
    } else if op == 0x31 {
        seq![Action::Read(Reg8::SpL, Addr::Wide(Reg16::PC), 1), Action::Read(Reg8::SpH, Addr::Wide(Reg16::PC), 1), Action::Nop]
    } else if op == 0x32 {
        seq![Action::Write(Addr::Wide(Reg16::HL), Reg8::A, -1i8), Action::Nop]
    } else if op == 0x33 {
        seq![Action::Delta16(Reg16::SP, 1), Action::Nop]
    } else if op == 0x34 {
        seq![Action::Read(Reg8::ImmL, Addr::Wide(Reg16::HL), 0), Action::Delta8(Reg8::ImmL, 1), Action::Write(Addr::Wide(Reg16::HL), Reg8::ImmL, 0)]
    } else if op == 0x35 {
        seq![Action::Read(Reg8::ImmL, Addr::Wide(Reg16::HL), 0), Action::Delta8(Reg8::ImmL, -1i8), Action::Write(Addr::Wide(Reg16::HL), Reg8::ImmL, 0)]
    } else if op == 0x36 {
        seq![Action::Read(Reg8::ImmL, Addr::Wide(Reg16::PC), 1), Action::Write(Addr::Wide(Reg16::HL), Reg8::ImmL, 0), Action::Nop]
    } else if op == 0x37 {
        seq![Action::SetCarryFlag]
    } else if op == 0x38 {
        seq![Action::Read(Reg8::ImmL, Addr::Wide(Reg16::PC), 1), Action::JpRel(Cond::Carry), Action::Nop]
    } else if op == 0x39 {
        seq![Action::AddHl(Reg16::SP), Action::Nop]
    } else if op == 0x3a {
        seq![Action::Read(Reg8::A, Addr::Wide(Reg16::HL), -1i8), Action::Nop]
    } else if op == 0x3b {
        seq![Action::Delta16(Reg16::SP, -1i8), Action::Nop]
    } else if op == 0x3c {
        seq![Action::Delta8(Reg8::A, 1)]
    } else if op == 0x3d {
        seq![Action::Delta8(Reg8::A, -1i8)]
    } else if op == 0x3e {
        seq![Action::Read(Reg8::A, Addr::Wide(Reg16::PC), 1), Action::Nop]
    } else {
        seq![Action::ComplimentCarryFlag]
    }
}

/// Opcodes `0xC0..=0xFF`: returns, jumps, calls, stack pushes and pops,
/// restarts, the high-page loads, interrupt enable and the illegal opcodes.
pub open spec fn spec_sched_misc_high(op: u8) -> Seq<Action> {
    if op == 0xc0 {
        seq![Action::Nop, Action::RetIf(Cond::NotZero), Action::Read(Reg8::PcL, Addr::Wide(Reg16::SP), 1), Action::Read(Reg8::PcH, Addr::Wide(Reg16::SP), 1), Action::Nop]
    } else if op == 0xc1 {
        seq![Action::Read(Reg8::C, Addr::Wide(Reg16::SP), 1), Action::Read(Reg8::B, Addr::Wide(Reg16::SP), 1), Action::Nop]
    } else if op == 0xc2 {
        seq![Action::Read(Reg8::ImmL, Addr::Wide(Reg16::PC), 1), Action::Read(Reg8::ImmH, Addr::Wide(Reg16::PC), 1), Action::Jp(Cond::NotZero), Action::Nop]
    } else if op == 0xc3 {
        seq![Action::Read(Reg8::ImmL, Addr::Wide(Reg16::PC), 1), Action::Read(Reg8::ImmH, Addr::Wide(Reg16::PC), 1), Action::Jp(Cond::Always), Action::Nop]
    } else if op == 0xc4 {
        seq![Action::Read(Reg8::ImmL, Addr::Wide(Reg16::PC), 1), Action::Read(Reg8::ImmH, Addr::Wide(Reg16::PC), 1), Action::Call(Cond::NotZero)]
    } else if op == 0xc5 {
        seq![Action::Delta16(Reg16::SP, -1i8), Action::Write(Addr::Wide(Reg16::SP), Reg8::B, -1i8), Action::Write(Addr::Wide(Reg16::SP), Reg8::C, 0), Action::Nop]
    } else if op == 0xc6 {
        seq![Action::Read(Reg8::ImmL, Addr::Wide(Reg16::PC), 1), Action::AddA(Reg8::ImmL, false)]
    } else if op == 0xc7 {
        seq![Action::Delta16(Reg16::SP, -1i8), Action::Write(Addr::Wide(Reg16::SP), Reg8::PcH, -1i8), Action::Write(Addr::Wide(Reg16::SP), Reg8::PcL, 0), Action::SetPc(0x0)]
    } else if op == 0xc8 {
        seq![Action::Nop, Action::RetIf(Cond::Zero), Action::Read(Reg8::PcL, Addr::Wide(Reg16::SP), 1), Action::Read(Reg8::PcH, Addr::Wide(Reg16::SP), 1), Action::Nop]
    } else if op == 0xc9 {
        seq![Action::Read(Reg8::PcL, Addr::Wide(Reg16::SP), 1), Action::Read(Reg8::PcH, Addr::Wide(Reg16::SP), 1), Action::Nop, Action::Nop]
    } else if op == 0xca {
        seq![Action::Read(Reg8::ImmL, Addr::Wide(Reg16::PC), 1), Action::Read(Reg8::ImmH, Addr::Wide(Reg16::PC), 1), Action::Jp(Cond::Zero), Action::Nop]
    } else if op == 0xcb {
        seq![Action::FetchCb]
    } else if op == 0xcc {
        seq![Action::Read(Reg8::ImmL, Addr::Wide(Reg16::PC), 1), Action::Read(Reg8::ImmH, Addr::Wide(Reg16::PC), 1), Action::Call(Cond::Zero)]
    } else if op == 0xcd {
        seq![Action::Read(Reg8::ImmL, Addr::Wide(Reg16::PC), 1), Action::Read(Reg8::ImmH, Addr::Wide(Reg16::PC), 1), Action::Call(Cond::Always)]
    } else if op == 0xce {
        seq![Action::Read(Reg8::ImmL, Addr::Wide(Reg16::PC), 1), Action::AddA(Reg8::ImmL, true)]
    } else if op == 0xcf {
        seq![Action::Delta16(Reg16::SP, -1i8), Action::Write(Addr::Wide(Reg16::SP), Reg8::PcH, -1i8), Action::Write(Addr::Wide(Reg16::SP), Reg8::PcL, 0), Action::SetPc(0x8)]
    } else if op == 0xd0 {
        seq![Action::Nop, Action::RetIf(Cond::NotCarry), Action::Read(Reg8::PcL, Addr::Wide(Reg16::SP), 1), Action::Read(Reg8::PcH, Addr::Wide(Reg16::SP), 1), Action::Nop]
    } else if op == 0xd1 {
        seq![Action::Read(Reg8::E, Addr::Wide(Reg16::SP), 1), Action::Read(Reg8::D, Addr::Wide(Reg16::SP), 1), Action::Nop]
    } else if op == 0xd2 {
        seq![Action::Read(Reg8::ImmL, Addr::Wide(Reg16::PC), 1), Action::Read(Reg8::ImmH, Addr::Wide(Reg16::PC), 1), Action::Jp(Cond::NotCarry), Action::Nop]
    } else if op == 0xd3 {
        seq![Action::Nop]
    } else if op == 0xd4 {
        seq![Action::Read(Reg8::ImmL, Addr::Wide(Reg16::PC), 1), Action::Read(Reg8::ImmH, Addr::Wide(Reg16::PC), 1), Action::Call(Cond::NotCarry)]
    } else if op == 0xd5 {
        seq![Action::Delta16(Reg16::SP, -1i8), Action::Write(Addr::Wide(Reg16::SP), Reg8::D, -1i8), Action::Write(Addr::Wide(Reg16::SP), Reg8::E, 0), Action::Nop]
    } else if op == 0xd6 {
        seq![Action::Read(Reg8::ImmL, Addr::Wide(Reg16::PC), 1), Action::SubA(Reg8::ImmL, false)]
    } else if op == 0xd7 {
        seq![Action::Delta16(Reg16::SP, -1i8), Action::Write(Addr::Wide(Reg16::SP), Reg8::PcH, -1i8), Action::Write(Addr::Wide(Reg16::SP), Reg8::PcL, 0), Action::SetPc(0x10)]
    } else if op == 0xd8 {
        seq![Action::Nop, Action::RetIf(Cond::Carry), Action::Read(Reg8::PcL, Addr::Wide(Reg16::SP), 1), Action::Read(Reg8::PcH, Addr::Wide(Reg16::SP), 1), Action::Nop]
    } else if op == 0xd9 {
        seq![Action::Read(Reg8::PcL, Addr::Wide(Reg16::SP), 1), Action::Read(Reg8::PcH, Addr::Wide(Reg16::SP), 1), Action::Nop, Action::SetIme(true)]
    } else if op == 0xda {
        seq![Action::Read(Reg8::ImmL, Addr::Wide(Reg16::PC), 1), Action::Read(Reg8::ImmH, Addr::Wide(Reg16::PC), 1), Action::Jp(Cond::Carry), Action::Nop]
    } else if op == 0xdb {
        seq![Action::Nop]
    } else if op == 0xdc {
        seq![Action::Read(Reg8::ImmL, Addr::Wide(Reg16::PC), 1), Action::Read(Reg8::ImmH, Addr::Wide(Reg16::PC), 1), Action::Call(Cond::Carry)]
    } else if op == 0xdd {
        seq![Action::Nop]
    } else if op == 0xde {
        seq![Action::Read(Reg8::ImmL, Addr::Wide(Reg16::PC), 1), Action::SubA(Reg8::ImmL, true)]
    } else if op == 0xdf {
        seq![Action::Delta16(Reg16::SP, -1i8), Action::Write(Addr::Wide(Reg16::SP), Reg8::PcH, -1i8), Action::Write(Addr::Wide(Reg16::SP), Reg8::PcL, 0), Action::SetPc(0x18)]
    } else if op == 0xe0 {
        seq![Action::Read(Reg8::ImmL, Addr::Wide(Reg16::PC), 1), Action::Write(Addr::HiPage(Reg8::ImmL), Reg8::A, 0), Action::Nop]
    } else if op == 0xe1 {
        seq![Action::Read(Reg8::L, Addr::Wide(Reg16::SP), 1), Action::Read(Reg8::H, Addr::Wide(Reg16::SP), 1), Action::Nop]
    } else if op == 0xe2 {
        seq![Action::Write(Addr::HiPage(Reg8::C), Reg8::A, 0), Action::Nop]
    } else if op == 0xe3 {
        seq![Action::Nop]
    } else if op == 0xe4 {
        seq![Action::Nop]
    } else if op == 0xe5 {
        seq![Action::Delta16(Reg16::SP, -1i8), Action::Write(Addr::Wide(Reg16::SP), Reg8::H, -1i8), Action::Write(Addr::Wide(Reg16::SP), Reg8::L, 0), Action::Nop]
    } else if op == 0xe6 {
        seq![Action::Read(Reg8::ImmL, Addr::Wide(Reg16::PC), 1), Action::AndA(Reg8::ImmL)]
    } else if op == 0xe7 {
        seq![Action::Delta16(Reg16::SP, -1i8), Action::Write(Addr::Wide(Reg16::SP), Reg8::PcH, -1i8), Action::Write(Addr::Wide(Reg16::SP), Reg8::PcL, 0), Action::SetPc(0x20)]
    } else if op == 0xe8 {
        seq![Action::Read(Reg8::ImmL, Addr::Wide(Reg16::PC), 1), Action::OffsetSp(false), Action::Nop, Action::Nop]
    } else if op == 0xe9 {
        seq![Action::MovePc(Reg16::HL)]
    } else if op == 0xea {
        seq![Action::Read(Reg8::ImmL, Addr::Wide(Reg16::PC), 1), Action::Read(Reg8::ImmH, Addr::Wide(Reg16::PC), 1), Action::Write(Addr::Wide(Reg16::IMM), Reg8::A, 0), Action::Nop]
    } else if op == 0xeb {
        seq![Action::Nop]
    } else if op == 0xec {
        seq![Action::Nop]
    } else if op == 0xed {
        seq![Action::Nop]
    } else if op == 0xee {
        seq![Action::Read(Reg8::ImmL, Addr::Wide(Reg16::PC), 1), Action::XorA(Reg8::ImmL)]
    } else if op == 0xef {
        seq![Action::Delta16(Reg16::SP, -1i8), Action::Write(Addr::Wide(Reg16::SP), Reg8::PcH, -1i8), Action::Write(Addr::Wide(Reg16::SP), Reg8::PcL, 0), Action::SetPc(0x28)]
    } else if op == 0xf0 {
        seq![Action::Read(Reg8::ImmL, Addr::Wide(Reg16::PC), 1), Action::Read(Reg8::A, Addr::HiPage(Reg8::ImmL), 0), Action::Nop]
    } else if op == 0xf1 {
        seq![Action::Read(Reg8::F, Addr::Wide(Reg16::SP), 1), Action::Read(Reg8::A, Addr::Wide(Reg16::SP), 1), Action::Nop]
    } else if op == 0xf2 {
        seq![Action::Read(Reg8::A, Addr::HiPage(Reg8::C), 0), Action::Nop]
    } else if op == 0xf3 {
        seq![Action::SetIme(false)]
    } else if op == 0xf4 {
        seq![Action::Nop]
    } else if op == 0xf5 {
        seq![Action::Delta16(Reg16::SP, -1i8), Action::Write(Addr::Wide(Reg16::SP), Reg8::A, -1i8), Action::Write(Addr::Wide(Reg16::SP), Reg8::F, 0), Action::Nop]
    } else if op == 0xf6 {
        seq![Action::Read(Reg8::ImmL, Addr::Wide(Reg16::PC), 1), Action::OrA(Reg8::ImmL)]
    } else if op == 0xf7 {
        seq![Action::Delta16(Reg16::SP, -1i8), Action::Write(Addr::Wide(Reg16::SP), Reg8::PcH, -1i8), Action::Write(Addr::Wide(Reg16::SP), Reg8::PcL, 0), Action::SetPc(0x30)]
    } else if op == 0xf8 {
        seq![Action::Read(Reg8::ImmL, Addr::Wide(Reg16::PC), 1), Action::OffsetSp(true), Action::Nop]
    } else if op == 0xf9 {
        seq![Action::Move(Reg8::SpL, Reg8::L), Action::Move(Reg8::SpH, Reg8::H)]
    } else if op == 0xfa {
        seq![Action::Read(Reg8::ImmL, Addr::Wide(Reg16::PC), 1), Action::Read(Reg8::ImmH, Addr::Wide(Reg16::PC), 1), Action::Read(Reg8::A, Addr::Wide(Reg16::IMM), 0), Action::Nop]
    } else if op == 0xfb {
        seq![Action::SetIme(true)]
    } else if op == 0xfc {
        seq![Action::Nop]
    } else if op == 0xfd {
        seq![Action::Nop]
    } else if op == 0xfe {
        seq![Action::Read(Reg8::ImmL, Addr::Wide(Reg16::PC), 1), Action::Compare(Reg8::ImmL)]
    } else {
        seq![Action::Delta16(Reg16::SP, -1i8), Action::Write(Addr::Wide(Reg16::SP), Reg8::PcH, -1i8), Action::Write(Addr::Wide(Reg16::SP), Reg8::PcL, 0), Action::SetPc(0x38)]
    }
}

/// The schedule of a `0xCB`-prefixed opcode, as a sequence (the prefix
/// byte's own fetch cycle comes before it): rotates and shifts, bit tests,
/// bit clears and bit sets, on a register or on memory at HL.
pub open spec fn cb_schedule_of(op: u8) -> Seq<Action> {
    let s = (op % 8) as u8;
    let n = ((op / 8) % 8) as u8;
    let class = (op / 64) as u8;
    if s == 6 {
        if class == 1 {
            seq![
                Action::Read(Reg8::ImmL, Addr::Wide(Reg16::HL), 0),
                Action::TestBit(n, Reg8::ImmL),
            ]
        } else {
            seq![
                Action::Read(Reg8::ImmL, Addr::Wide(Reg16::HL), 0),
                spec_cb_op(class, n, Reg8::ImmL),
                Action::Write(Addr::Wide(Reg16::HL), Reg8::ImmL, 0),
            ]
        }
    } else {
        seq![spec_cb_op(class, n, spec_reg_code(s))]
    }
}

/// One register-targeted CB action: a rotate or shift for class 0 (picked by
/// the middle field), a bit test, clear or set for classes 1, 2 and 3.
pub open spec fn spec_cb_op(class: u8, n: u8, r: Reg8) -> Action {
    if class == 0 {
        if n == 0 {
            Action::Rlc(r)
        } else if n == 1 {
            Action::Rrc(r)
        } else if n == 2 {
            Action::Rl(r)
        } else if n == 3 {
            Action::Rr(r)
        } else if n == 4 {
            Action::Sla(r)
        } else if n == 5 {
            Action::Sra(r)
        } else if n == 6 {
            Action::Swap(r)
        } else {
            Action::Srl(r)
        }
    } else if class == 1 {
        Action::TestBit(n, r)
    } else if class == 2 {
        Action::ResBit(n, r)
    } else {
        Action::SetBit(n, r)
    }
}

/// The schedule of a main-table opcode; its length is the instruction's
/// M-cycle count, between 1 and 6.
pub fn op_schedule(op: u8) -> (r: Vec<Action>)
    ensures
        r@ == schedule_of(op),
        1 <= r@.len() <= 6,
{
    if op < 0x40 {
        sched_misc_low(op)
    } else if op < 0x80 {
        sched_loads(op)
    } else if op < 0xC0 {
        sched_alu(op)
    } else {
        sched_misc_high(op)
    }
}

fn sched_loads(op: u8) -> (r: Vec<Action>)
    requires
        0x40 <= op < 0x80,
    ensures
        r@ == spec_sched_loads(op),
        1 <= r@.len() <= 2,
{
    if op == 0x76 {
        return vec![Action::Halt];
    }
    let d = (op - 0x40) / 8;
    let s = op % 8;
    if d == 6 {
        vec![Action::Write(Addr::Wide(Reg16::HL), reg_code(s), 0), Action::Nop]
    } else if s == 6 {
        vec![Action::Read(reg_code(d), Addr::Wide(Reg16::HL), 0), Action::Nop]
    } else {
        vec![Action::Move(reg_code(d), reg_code(s))]
    }
}

fn sched_alu(op: u8) -> (r: Vec<Action>)
    requires
        0x80 <= op < 0xC0,
    ensures
        r@ == spec_sched_alu(op),
        1 <= r@.len() <= 2,
{
    let kind = (op - 0x80) / 8;
    let s = op % 8;
    if s == 6 {
        vec![
            Action::Read(Reg8::ImmL, Addr::Wide(Reg16::HL), 0),
            alu_code(kind, Reg8::ImmL),
        ]
    } else {
        vec![alu_code(kind, reg_code(s))]
    }
}

#[verifier::rlimit(100)]
#[verifier::spinoff_prover]
fn sched_misc_low(op: u8) -> (r: Vec<Action>)
    requires
        op < 0x40,
    ensures
        r@ == spec_sched_misc_low(op),
        1 <= r@.len() <= 5,
{
    match op {
        0x00 => vec![
            Action::Nop,
        ],
        0x01 => vec![
            Action::Read(Reg8::C, Addr::Wide(Reg16::PC), 1),
            Action::Read(Reg8::B, Addr::Wide(Reg16::PC), 1),
            Action::Nop,
        ],
        0x02 => vec![
            Action::Write(Addr::Wide(Reg16::BC), Reg8::A, 0),
            Action::Nop,
        ],
        0x03 => vec![
            Action::Delta16(Reg16::BC, 1),
            Action::Nop,
        ],
        0x04 => vec![
            Action::Delta8(Reg8::B, 1),
        ],
        0x05 => vec![
            Action::Delta8(Reg8::B, -1),
        ],
        0x06 => vec![
            Action::Read(Reg8::B, Addr::Wide(Reg16::PC), 1),
            Action::Nop,
        ],
        0x07 => vec![
            Action::RotateCyClearZ(true),
        ],
        0x08 => vec![
            Action::Read(Reg8::ImmL, Addr::Wide(Reg16::PC), 1),
            Action::Read(Reg8::ImmH, Addr::Wide(Reg16::PC), 1),
            Action::Write(Addr::Wide(Reg16::IMM), Reg8::SpL, 1),
            Action::Write(Addr::Wide(Reg16::IMM), Reg8::SpH, 0),
            Action::Nop,
        ],
        0x09 => vec![
            Action::AddHl(Reg16::BC),
            Action::Nop,
        ],
        0x0a => vec![
            Action::Read(Reg8::A, Addr::Wide(Reg16::BC), 0),
            Action::Nop,
        ],
        0x0b => vec![
            Action::Delta16(Reg16::BC, -1),
            Action::Nop,
        ],
        0x0c => vec![
            Action::Delta8(Reg8::C, 1),
        ],
        0x0d => vec![
            Action::Delta8(Reg8::C, -1),
        ],
        0x0e => vec![
            Action::Read(Reg8::C, Addr::Wide(Reg16::PC), 1),
            Action::Nop,
        ],
        0x0f => vec![
            Action::RotateCyClearZ(false),
        ],
        0x10 => vec![
            Action::Stop,
        ],
        0x11 => vec![
            Action::Read(Reg8::E, Addr::Wide(Reg16::PC), 1),
            Action::Read(Reg8::D, Addr::Wide(Reg16::PC), 1),
            Action::Nop,
        ],
        0x12 => vec![
            Action::Write(Addr::Wide(Reg16::DE), Reg8::A, 0),
            Action::Nop,
        ],
        0x13 => vec![
            Action::Delta16(Reg16::DE, 1),
            Action::Nop,
        ],
        0x14 => vec![
            Action::Delta8(Reg8::D, 1),
        ],
        0x15 => vec![
            Action::Delta8(Reg8::D, -1),
        ],
        0x16 => vec![
            Action::Read(Reg8::D, Addr::Wide(Reg16::PC), 1),
            Action::Nop,
        ],
        0x17 => vec![
            Action::RotateClearZ(true),
        ],
        0x18 => vec![
            Action::Read(Reg8::ImmL, Addr::Wide(Reg16::PC), 1),
            Action::JpRel(Cond::Always),
            Action::Nop,
        ],
        0x19 => vec![
            Action::AddHl(Reg16::DE),
            Action::Nop,
        ],
        0x1a => vec![
            Action::Read(Reg8::A, Addr::Wide(Reg16::DE), 0),
            Action::Nop,
        ],
        0x1b => vec![
            Action::Delta16(Reg16::DE, -1),
            Action::Nop,
        ],
        0x1c => vec![
            Action::Delta8(Reg8::E, 1),
        ],
        0x1d => vec![
            Action::Delta8(Reg8::E, -1),
        ],
        0x1e => vec![
            Action::Read(Reg8::E, Addr::Wide(Reg16::PC), 1),
            Action::Nop,
        ],
        0x1f => vec![
            Action::RotateClearZ(false),
        ],
        0x20 => vec![
            Action::Read(Reg8::ImmL, Addr::Wide(Reg16::PC), 1),
            Action::JpRel(Cond::NotZero),
            Action::Nop,
        ],
        0x21 => vec![
            Action::Read(Reg8::L, Addr::Wide(Reg16::PC), 1),
            Action::Read(Reg8::H, Addr::Wide(Reg16::PC), 1),
            Action::Nop,
        ],
        0x22 => vec![
            Action::Write(Addr::Wide(Reg16::HL), Reg8::A, 1),
            Action::Nop,
        ],
        0x23 => vec![
            Action::Delta16(Reg16::HL, 1),
            Action::Nop,
        ],
        0x24 => vec![
            Action::Delta8(Reg8::H, 1),
        ],
        0x25 => vec![
            Action::Delta8(Reg8::H, -1),
        ],
        0x26 => vec![
            Action::Read(Reg8::H, Addr::Wide(Reg16::PC), 1),
            Action::Nop,
        ],
        0x27 => vec![
            Action::DecimalAdjustA,
        ],
        0x28 => vec![
            Action::Read(Reg8::ImmL, Addr::Wide(Reg16::PC), 1),
            Action::JpRel(Cond::Zero),
            Action::Nop,
        ],
        0x29 => vec![
            Action::AddHl(Reg16::HL),
            Action::Nop,
        ],
        0x2a => vec![
            Action::Read(Reg8::A, Addr::Wide(Reg16::HL), 1),
            Action::Nop,
        ],
        0x2b => vec![
            Action::Delta16(Reg16::HL, -1),
            Action::Nop,
        ],
        0x2c => vec![
            Action::Delta8(Reg8::L, 1),
        ],
        0x2d => vec![
            Action::Delta8(Reg8::L, -1),
        ],
        0x2e => vec![
            Action::Read(Reg8::L, Addr::Wide(Reg16::PC), 1),
            Action::Nop,
        ],
        0x2f => vec![
            Action::ComplimentA,
        ],
        0x30 => vec![
            Action::Read(Reg8::ImmL, Addr::Wide(Reg16::PC), 1),
            Action::JpRel(Cond::NotCarry),
            Action::Nop,
        ],
        0x31 => vec![
            Action::Read(Reg8::SpL, Addr::Wide(Reg16::PC), 1),
            Action::Read(Reg8::SpH, Addr::Wide(Reg16::PC), 1),
            Action::Nop,
        ],
        0x32 => vec![
            Action::Write(Addr::Wide(Reg16::HL), Reg8::A, -1),
            Action::Nop,
        ],
        0x33 => vec![
            Action::Delta16(Reg16::SP, 1),
            Action::Nop,
        ],
        0x34 => vec![
            Action::Read(Reg8::ImmL, Addr::Wide(Reg16::HL), 0),
            Action::Delta8(Reg8::ImmL, 1),
            Action::Write(Addr::Wide(Reg16::HL), Reg8::ImmL, 0),
        ],
        0x35 => vec![
            Action::Read(Reg8::ImmL, Addr::Wide(Reg16::HL), 0),
            Action::Delta8(Reg8::ImmL, -1),
            Action::Write(Addr::Wide(Reg16::HL), Reg8::ImmL, 0),
        ],
        0x36 => vec![
            Action::Read(Reg8::ImmL, Addr::Wide(Reg16::PC), 1),
            Action::Write(Addr::Wide(Reg16::HL), Reg8::ImmL, 0),
            Action::Nop,
        ],
        0x37 => vec![
            Action::SetCarryFlag,
        ],
        0x38 => vec![
            Action::Read(Reg8::ImmL, Addr::Wide(Reg16::PC), 1),
            Action::JpRel(Cond::Carry),
            Action::Nop,
        ],
        0x39 => vec![
            Action::AddHl(Reg16::SP),
            Action::Nop,
        ],
        0x3a => vec![
            Action::Read(Reg8::A, Addr::Wide(Reg16::HL), -1),
            Action::Nop,
        ],
        0x3b => vec![
            Action::Delta16(Reg16::SP, -1),
            Action::Nop,
        ],
        0x3c => vec![
            Action::Delta8(Reg8::A, 1),
        ],
        0x3d => vec![
            Action::Delta8(Reg8::A, -1),
        ],
        0x3e => vec![
            Action::Read(Reg8::A, Addr::Wide(Reg16::PC), 1),
            Action::Nop,
        ],
        _ => vec![
            Action::ComplimentCarryFlag,
        ],
    }
}

#[verifier::rlimit(100)]
#[verifier::spinoff_prover]
fn sched_misc_high(op: u8) -> (r: Vec<Action>)
    requires
        0xC0 <= op,
    ensures
        r@ == spec_sched_misc_high(op),
        1 <= r@.len() <= 5,
{
    match op {
        0xc0 => vec![
            Action::Nop,
            Action::RetIf(Cond::NotZero),
            Action::Read(Reg8::PcL, Addr::Wide(Reg16::SP), 1),
            Action::Read(Reg8::PcH, Addr::Wide(Reg16::SP), 1),
            Action::Nop,
        ],
        0xc1 => vec![
            Action::Read(Reg8::C, Addr::Wide(Reg16::SP), 1),
            Action::Read(Reg8::B, Addr::Wide(Reg16::SP), 1),
            Action::Nop,
        ],
        0xc2 => vec![
            Action::Read(Reg8::ImmL, Addr::Wide(Reg16::PC), 1),
            Action::Read(Reg8::ImmH, Addr::Wide(Reg16::PC), 1),
            Action::Jp(Cond::NotZero),
            Action::Nop,
        ],
        0xc3 => vec![
            Action::Read(Reg8::ImmL, Addr::Wide(Reg16::PC), 1),
            Action::Read(Reg8::ImmH, Addr::Wide(Reg16::PC), 1),
            Action::Jp(Cond::Always),
            Action::Nop,
        ],
        0xc4 => vec![
            Action::Read(Reg8::ImmL, Addr::Wide(Reg16::PC), 1),
            Action::Read(Reg8::ImmH, Addr::Wide(Reg16::PC), 1),
            Action::Call(Cond::NotZero),
        ],
        0xc5 => vec![
            Action::Delta16(Reg16::SP, -1),
            Action::Write(Addr::Wide(Reg16::SP), Reg8::B, -1),
            Action::Write(Addr::Wide(Reg16::SP), Reg8::C, 0),
            Action::Nop,
        ],
        0xc6 => vec![
            Action::Read(Reg8::ImmL, Addr::Wide(Reg16::PC), 1),
            Action::AddA(Reg8::ImmL, false),
        ],
        0xc7 => vec![
            Action::Delta16(Reg16::SP, -1),
            Action::Write(Addr::Wide(Reg16::SP), Reg8::PcH, -1),
            Action::Write(Addr::Wide(Reg16::SP), Reg8::PcL, 0),
            Action::SetPc(0x0),
        ],
        0xc8 => vec![
            Action::Nop,
            Action::RetIf(Cond::Zero),
            Action::Read(Reg8::PcL, Addr::Wide(Reg16::SP), 1),
            Action::Read(Reg8::PcH, Addr::Wide(Reg16::SP), 1),
            Action::Nop,
        ],
        0xc9 => vec![
            Action::Read(Reg8::PcL, Addr::Wide(Reg16::SP), 1),
            Action::Read(Reg8::PcH, Addr::Wide(Reg16::SP), 1),
            Action::Nop,
            Action::Nop,
        ],
        0xca => vec![
            Action::Read(Reg8::ImmL, Addr::Wide(Reg16::PC), 1),
            Action::Read(Reg8::ImmH, Addr::Wide(Reg16::PC), 1),
            Action::Jp(Cond::Zero),
            Action::Nop,
        ],
        0xcb => vec![
            Action::FetchCb,
        ],
        0xcc => vec![
            Action::Read(Reg8::ImmL, Addr::Wide(Reg16::PC), 1),
            Action::Read(Reg8::ImmH, Addr::Wide(Reg16::PC), 1),
            Action::Call(Cond::Zero),
        ],
        0xcd => vec![
            Action::Read(Reg8::ImmL, Addr::Wide(Reg16::PC), 1),
            Action::Read(Reg8::ImmH, Addr::Wide(Reg16::PC), 1),
            Action::Call(Cond::Always),
        ],
        0xce => vec![
            Action::Read(Reg8::ImmL, Addr::Wide(Reg16::PC), 1),
            Action::AddA(Reg8::ImmL, true),
        ],
        0xcf => vec![
            Action::Delta16(Reg16::SP, -1),
            Action::Write(Addr::Wide(Reg16::SP), Reg8::PcH, -1),
            Action::Write(Addr::Wide(Reg16::SP), Reg8::PcL, 0),
            Action::SetPc(0x8),
        ],
        0xd0 => vec![
            Action::Nop,
            Action::RetIf(Cond::NotCarry),
            Action::Read(Reg8::PcL, Addr::Wide(Reg16::SP), 1),
            Action::Read(Reg8::PcH, Addr::Wide(Reg16::SP), 1),
            Action::Nop,
        ],
        0xd1 => vec![
            Action::Read(Reg8::E, Addr::Wide(Reg16::SP), 1),
            Action::Read(Reg8::D, Addr::Wide(Reg16::SP), 1),
            Action::Nop,
        ],
        0xd2 => vec![
            Action::Read(Reg8::ImmL, Addr::Wide(Reg16::PC), 1),
            Action::Read(Reg8::ImmH, Addr::Wide(Reg16::PC), 1),
            Action::Jp(Cond::NotCarry),
            Action::Nop,
        ],
        0xd3 => vec![
            Action::Nop,
        ],
        0xd4 => vec![
            Action::Read(Reg8::ImmL, Addr::Wide(Reg16::PC), 1),
            Action::Read(Reg8::ImmH, Addr::Wide(Reg16::PC), 1),
            Action::Call(Cond::NotCarry),
        ],
        0xd5 => vec![
            Action::Delta16(Reg16::SP, -1),
            Action::Write(Addr::Wide(Reg16::SP), Reg8::D, -1),
            Action::Write(Addr::Wide(Reg16::SP), Reg8::E, 0),
            Action::Nop,
        ],
        0xd6 => vec![
            Action::Read(Reg8::ImmL, Addr::Wide(Reg16::PC), 1),
            Action::SubA(Reg8::ImmL, false),
        ],
        0xd7 => vec![
            Action::Delta16(Reg16::SP, -1),
            Action::Write(Addr::Wide(Reg16::SP), Reg8::PcH, -1),
            Action::Write(Addr::Wide(Reg16::SP), Reg8::PcL, 0),
            Action::SetPc(0x10),
        ],
        0xd8 => vec![
            Action::Nop,
            Action::RetIf(Cond::Carry),
            Action::Read(Reg8::PcL, Addr::Wide(Reg16::SP), 1),
            Action::Read(Reg8::PcH, Addr::Wide(Reg16::SP), 1),
            Action::Nop,
        ],
        0xd9 => vec![
            Action::Read(Reg8::PcL, Addr::Wide(Reg16::SP), 1),
            Action::Read(Reg8::PcH, Addr::Wide(Reg16::SP), 1),
            Action::Nop,
            Action::SetIme(true),
        ],
        0xda => vec![
            Action::Read(Reg8::ImmL, Addr::Wide(Reg16::PC), 1),
            Action::Read(Reg8::ImmH, Addr::Wide(Reg16::PC), 1),
            Action::Jp(Cond::Carry),
            Action::Nop,
        ],
        0xdb => vec![
            Action::Nop,
        ],
        0xdc => vec![
            Action::Read(Reg8::ImmL, Addr::Wide(Reg16::PC), 1),
            Action::Read(Reg8::ImmH, Addr::Wide(Reg16::PC), 1),
            Action::Call(Cond::Carry),
        ],
        0xdd => vec![
            Action::Nop,
        ],
        0xde => vec![
            Action::Read(Reg8::ImmL, Addr::Wide(Reg16::PC), 1),
            Action::SubA(Reg8::ImmL, true),
        ],
        0xdf => vec![
            Action::Delta16(Reg16::SP, -1),
            Action::Write(Addr::Wide(Reg16::SP), Reg8::PcH, -1),
            Action::Write(Addr::Wide(Reg16::SP), Reg8::PcL, 0),
            Action::SetPc(0x18),
        ],
        0xe0 => vec![
            Action::Read(Reg8::ImmL, Addr::Wide(Reg16::PC), 1),
            Action::Write(Addr::HiPage(Reg8::ImmL), Reg8::A, 0),
            Action::Nop,
        ],
        0xe1 => vec![
            Action::Read(Reg8::L, Addr::Wide(Reg16::SP), 1),
            Action::Read(Reg8::H, Addr::Wide(Reg16::SP), 1),
            Action::Nop,
        ],
        0xe2 => vec![
            Action::Write(Addr::HiPage(Reg8::C), Reg8::A, 0),
            Action::Nop,
        ],
        0xe3 => vec![
            Action::Nop,
        ],
        0xe4 => vec![
            Action::Nop,
        ],
        0xe5 => vec![
            Action::Delta16(Reg16::SP, -1),
            Action::Write(Addr::Wide(Reg16::SP), Reg8::H, -1),
            Action::Write(Addr::Wide(Reg16::SP), Reg8::L, 0),
            Action::Nop,
        ],
        0xe6 => vec![
            Action::Read(Reg8::ImmL, Addr::Wide(Reg16::PC), 1),
            Action::AndA(Reg8::ImmL),
        ],
        0xe7 => vec![
            Action::Delta16(Reg16::SP, -1),
            Action::Write(Addr::Wide(Reg16::SP), Reg8::PcH, -1),
            Action::Write(Addr::Wide(Reg16::SP), Reg8::PcL, 0),
            Action::SetPc(0x20),
        ],
        0xe8 => vec![
            Action::Read(Reg8::ImmL, Addr::Wide(Reg16::PC), 1),
            Action::OffsetSp(false),
            Action::Nop,
            Action::Nop,
        ],
        0xe9 => vec![
            Action::MovePc(Reg16::HL),
        ],
        0xea => vec![
            Action::Read(Reg8::ImmL, Addr::Wide(Reg16::PC), 1),
            Action::Read(Reg8::ImmH, Addr::Wide(Reg16::PC), 1),
            Action::Write(Addr::Wide(Reg16::IMM), Reg8::A, 0),
            Action::Nop,
        ],
        0xeb => vec![
            Action::Nop,
        ],
        0xec => vec![
            Action::Nop,
        ],
        0xed => vec![
            Action::Nop,
        ],
        0xee => vec![
            Action::Read(Reg8::ImmL, Addr::Wide(Reg16::PC), 1),
            Action::XorA(Reg8::ImmL),
        ],
        0xef => vec![
            Action::Delta16(Reg16::SP, -1),
            Action::Write(Addr::Wide(Reg16::SP), Reg8::PcH, -1),
            Action::Write(Addr::Wide(Reg16::SP), Reg8::PcL, 0),
            Action::SetPc(0x28),
        ],
        0xf0 => vec![
            Action::Read(Reg8::ImmL, Addr::Wide(Reg16::PC), 1),
            Action::Read(Reg8::A, Addr::HiPage(Reg8::ImmL), 0),
            Action::Nop,
        ],
        0xf1 => vec![
            Action::Read(Reg8::F, Addr::Wide(Reg16::SP), 1),
            Action::Read(Reg8::A, Addr::Wide(Reg16::SP), 1),
            Action::Nop,
        ],
        0xf2 => vec![
            Action::Read(Reg8::A, Addr::HiPage(Reg8::C), 0),
            Action::Nop,
        ],
        0xf3 => vec![
            Action::SetIme(false),
        ],
        0xf4 => vec![
            Action::Nop,
        ],
        0xf5 => vec![
            Action::Delta16(Reg16::SP, -1),
            Action::Write(Addr::Wide(Reg16::SP), Reg8::A, -1),
            Action::Write(Addr::Wide(Reg16::SP), Reg8::F, 0),
            Action::Nop,
        ],
        0xf6 => vec![
            Action::Read(Reg8::ImmL, Addr::Wide(Reg16::PC), 1),
            Action::OrA(Reg8::ImmL),
        ],
        0xf7 => vec![
            Action::Delta16(Reg16::SP, -1),
            Action::Write(Addr::Wide(Reg16::SP), Reg8::PcH, -1),
            Action::Write(Addr::Wide(Reg16::SP), Reg8::PcL, 0),
            Action::SetPc(0x30),
        ],
        0xf8 => vec![
            Action::Read(Reg8::ImmL, Addr::Wide(Reg16::PC), 1),
            Action::OffsetSp(true),
            Action::Nop,
        ],
        0xf9 => vec![
            Action::Move(Reg8::SpL, Reg8::L),
            Action::Move(Reg8::SpH, Reg8::H),
        ],
        0xfa => vec![
            Action::Read(Reg8::ImmL, Addr::Wide(Reg16::PC), 1),
            Action::Read(Reg8::ImmH, Addr::Wide(Reg16::PC), 1),
            Action::Read(Reg8::A, Addr::Wide(Reg16::IMM), 0),
            Action::Nop,
        ],
        0xfb => vec![
            Action::SetIme(true),
        ],
        0xfc => vec![
            Action::Nop,
        ],
        0xfd => vec![
            Action::Nop,
        ],
        0xfe => vec![
            Action::Read(Reg8::ImmL, Addr::Wide(Reg16::PC), 1),
            Action::Compare(Reg8::ImmL),
        ],
        _ => vec![
            Action::Delta16(Reg16::SP, -1),
            Action::Write(Addr::Wide(Reg16::SP), Reg8::PcH, -1),
            Action::Write(Addr::Wide(Reg16::SP), Reg8::PcL, 0),
            Action::SetPc(0x38),
        ],
    }
}

/// The schedule of a `0xCB`-prefixed opcode; with the prefix byte's own
/// fetch cycle it makes up the instruction's M-cycle count.
fn cb_op(class: u8, n: u8, r: Reg8) -> (a: Action)
    ensures
        a == spec_cb_op(class, n, r),
{
    if class == 0 {
        if n == 0 {
            Action::Rlc(r)
        } else if n == 1 {
            Action::Rrc(r)
        } else if n == 2 {
            Action::Rl(r)
        } else if n == 3 {
            Action::Rr(r)
        } else if n == 4 {
            Action::Sla(r)
        } else if n == 5 {
            Action::Sra(r)
        } else if n == 6 {
            Action::Swap(r)
        } else {
            Action::Srl(r)
        }
    } else if class == 1 {
        Action::TestBit(n, r)
    } else if class == 2 {
        Action::ResBit(n, r)
    } else {
        Action::SetBit(n, r)
    }
}

pub fn cb_schedule(op: u8) -> (r: Vec<Action>)
    ensures
        r@ == cb_schedule_of(op),
        1 <= r@.len() <= 3,
{
    let s = op % 8;
    let n = (op / 8) % 8;
    let class = op / 64;
    if s == 6 {
        if class == 1 {
            vec![
                Action::Read(Reg8::ImmL, Addr::Wide(Reg16::HL), 0),
                Action::TestBit(n, Reg8::ImmL),
            ]
        } else {
            vec![
                Action::Read(Reg8::ImmL, Addr::Wide(Reg16::HL), 0),
                cb_op(class, n, Reg8::ImmL),
                Action::Write(Addr::Wide(Reg16::HL), Reg8::ImmL, 0),
            ]
        }
    } else {
        vec![cb_op(class, n, reg_code(s))]
    }
}

} // verus!
