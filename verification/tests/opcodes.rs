use gbemu::opcodes::{cb_schedule, op_schedule};

/// The documented M-cycle count of each opcode in `0x00..=0x3F` (branches
/// taken).
const CYCLES_LOW: [usize; 64] = [
    1, 3, 2, 2, 1, 1, 2, 1, 5, 2, 2, 2, 1, 1, 2, 1, // 0x00
    1, 3, 2, 2, 1, 1, 2, 1, 3, 2, 2, 2, 1, 1, 2, 1, // 0x10
    3, 3, 2, 2, 1, 1, 2, 1, 3, 2, 2, 2, 1, 1, 2, 1, // 0x20
    3, 3, 2, 2, 3, 3, 3, 1, 3, 2, 2, 2, 1, 1, 2, 1, // 0x30
];

/// The documented M-cycle count of each opcode in `0xC0..=0xFF` (branches
/// taken; the `0xCB` prefix counts only its own fetch cycle here; illegal
/// opcodes behave as a one-cycle no-op). A call's schedule holds only its
/// first three cycles — a taken `Call` enqueues the other three when it
/// retires, reaching the documented six.
const CYCLES_HIGH: [usize; 64] = [
    5, 3, 4, 4, 3, 4, 2, 4, 5, 4, 4, 1, 3, 3, 2, 4, // 0xC0
    5, 3, 4, 1, 3, 4, 2, 4, 5, 4, 4, 1, 3, 1, 2, 4, // 0xD0
    3, 3, 2, 1, 1, 4, 2, 4, 4, 1, 4, 1, 1, 1, 2, 4, // 0xE0
    3, 3, 2, 1, 1, 4, 2, 4, 3, 2, 4, 1, 1, 1, 2, 4, // 0xF0
];

#[test]
fn main_table_lengths_match_documented_timings() {
    for op in 0..=0xFFu16 {
        let op = op as u8;
        let expected = if op < 0x40 {
            CYCLES_LOW[op as usize]
        } else if op < 0xC0 {
            // register-to-register work is one cycle; memory at HL adds one
            let d = (op / 8) % 8;
            let s = op % 8;
            if op == 0x76 {
                1 // HALT
            } else if (op < 0x80 && d == 6) || s == 6 {
                2
            } else {
                1
            }
        } else {
            CYCLES_HIGH[(op - 0xC0) as usize]
        };
        assert_eq!(op_schedule(op).len(), expected, "opcode {op:#04x}");
    }
}

#[test]
fn cb_table_lengths_match_documented_timings() {
    // with the prefix byte's fetch cycle added, a register op costs 2,
    // a bit test on (HL) costs 3, and a read-modify-write on (HL) costs 4
    for op in 0..=0xFFu16 {
        let op = op as u8;
        let s = op % 8;
        let class = op / 64;
        let expected = if s != 6 {
            1
        } else if class == 1 {
            2
        } else {
            3
        };
        assert_eq!(cb_schedule(op).len(), expected, "cb opcode {op:#04x}");
    }
}
