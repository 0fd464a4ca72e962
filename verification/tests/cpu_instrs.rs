use gbemu::cpu::{CpuMode, SM83};

/// A fresh CPU over a flat 64 KiB RAM holding `program` at address 0, with
/// the first opcode already fetched (the pre-loaded `Nop` retired).
fn boot(program: &[u8]) -> (SM83, Vec<u8>) {
    let mut ram = vec![0u8; 0x1_0000];
    ram[..program.len()].copy_from_slice(program);
    let mut cpu = SM83::default();
    cpu.m_cycle(&mut ram);
    (cpu, ram)
}

fn run(cpu: &mut SM83, ram: &mut Vec<u8>, cycles: usize) -> CpuMode {
    let mut mode = CpuMode::Normal;
    for _ in 0..cycles {
        mode = cpu.m_cycle(ram);
    }
    mode
}

#[test]
fn nop_advances_pc_one_per_cycle() {
    let (mut cpu, mut ram) = boot(&[0x00, 0x00, 0x00, 0x00]);
    assert_eq!(cpu.pc(), 1);
    run(&mut cpu, &mut ram, 3);
    assert_eq!(cpu.pc(), 4);
}

#[test]
fn ld_bc_d16_then_ld_a_b_then_halt() {
    // LD BC,0x1234; LD A,B; HALT — three instructions, five more M-cycles
    let mut ram = vec![0u8; 0x1_0000];
    ram[0x100] = 0x01;
    ram[0x101] = 0x34;
    ram[0x102] = 0x12;
    ram[0x103] = 0x78;
    ram[0x104] = 0x76;
    let mut cpu = SM83::default();
    cpu.set_pc(0x100);
    cpu.m_cycle(&mut ram);
    let mode = run(&mut cpu, &mut ram, 5);
    assert_eq!(cpu.b(), 0x12);
    assert_eq!(cpu.c(), 0x34);
    assert_eq!(cpu.a(), 0x12);
    assert_eq!(mode, CpuMode::Halted);
}

#[test]
fn add_sets_zero_half_and_carry() {
    let (mut cpu, mut ram) = boot(&[0x80]);
    cpu.set_a(0x3A);
    cpu.set_b(0xC6);
    run(&mut cpu, &mut ram, 1);
    assert_eq!(cpu.a(), 0x00);
    assert_eq!(cpu.f(), 0xB0);
}

#[test]
fn adc_adds_the_carry_in() {
    let (mut cpu, mut ram) = boot(&[0x8B]);
    cpu.set_a(0xE1);
    cpu.set_e(0x0F);
    cpu.set_f(0x10);
    run(&mut cpu, &mut ram, 1);
    assert_eq!(cpu.a(), 0xF1);
    assert_eq!(cpu.f(), 0x20);
}

#[test]
fn sub_of_equal_values_sets_zero_and_subtract() {
    let (mut cpu, mut ram) = boot(&[0x90]);
    cpu.set_a(0x3E);
    cpu.set_b(0x3E);
    run(&mut cpu, &mut ram, 1);
    assert_eq!(cpu.a(), 0x00);
    assert_eq!(cpu.f(), 0xC0);
}

#[test]
fn sbc_subtracts_the_borrow() {
    let (mut cpu, mut ram) = boot(&[0x9C]);
    cpu.set_a(0x3B);
    cpu.set_h(0x2A);
    cpu.set_f(0x10);
    run(&mut cpu, &mut ram, 1);
    assert_eq!(cpu.a(), 0x10);
    assert_eq!(cpu.f(), 0x40);
}

#[test]
fn and_sets_half_carry_always() {
    let (mut cpu, mut ram) = boot(&[0xA5]);
    cpu.set_a(0x5A);
    cpu.set_l(0x3F);
    run(&mut cpu, &mut ram, 1);
    assert_eq!(cpu.a(), 0x1A);
    assert_eq!(cpu.f(), 0x20);
}

#[test]
fn xor_with_itself_clears_a() {
    let (mut cpu, mut ram) = boot(&[0xAF]);
    cpu.set_a(0xFF);
    run(&mut cpu, &mut ram, 1);
    assert_eq!(cpu.a(), 0x00);
    assert_eq!(cpu.f(), 0x80);
}

#[test]
fn or_of_zeros_sets_zero_flag_only() {
    let (mut cpu, mut ram) = boot(&[0xB1]);
    cpu.set_a(0x00);
    cpu.set_c(0x00);
    run(&mut cpu, &mut ram, 1);
    assert_eq!(cpu.a(), 0x00);
    assert_eq!(cpu.f(), 0x80);
}

#[test]
fn cp_flags_without_writing_a() {
    let (mut cpu, mut ram) = boot(&[0xB8]);
    cpu.set_a(0x3C);
    cpu.set_b(0x2F);
    run(&mut cpu, &mut ram, 1);
    assert_eq!(cpu.a(), 0x3C);
    assert_eq!(cpu.f(), 0x60);
}

#[test]
fn inc_crosses_the_nibble() {
    let (mut cpu, mut ram) = boot(&[0x04]);
    cpu.set_b(0x0F);
    cpu.set_f(0x10);
    run(&mut cpu, &mut ram, 1);
    assert_eq!(cpu.b(), 0x10);
    // Z0 N0 H1, carry untouched
    assert_eq!(cpu.f(), 0x30);
}

#[test]
fn dec_to_zero() {
    let (mut cpu, mut ram) = boot(&[0x0D]);
    cpu.set_c(0x01);
    run(&mut cpu, &mut ram, 1);
    assert_eq!(cpu.c(), 0x00);
    assert_eq!(cpu.f(), 0xC0);
}

#[test]
fn daa_after_add() {
    let (mut cpu, mut ram) = boot(&[0x27]);
    cpu.set_a(0x7D);
    cpu.set_f(0x00);
    run(&mut cpu, &mut ram, 1);
    assert_eq!(cpu.a(), 0x83);
    assert_eq!(cpu.f(), 0x00);
}

#[test]
fn daa_after_subtract() {
    let (mut cpu, mut ram) = boot(&[0x27]);
    cpu.set_a(0x4B);
    cpu.set_f(0x60);
    run(&mut cpu, &mut ram, 1);
    assert_eq!(cpu.a(), 0x45);
    assert_eq!(cpu.f(), 0x40);
}

#[test]
fn rlca_rotates_into_carry() {
    let (mut cpu, mut ram) = boot(&[0x07]);
    cpu.set_a(0x85);
    run(&mut cpu, &mut ram, 1);
    assert_eq!(cpu.a(), 0x0B);
    assert_eq!(cpu.f(), 0x10);
}

#[test]
fn rla_rotates_through_carry() {
    let (mut cpu, mut ram) = boot(&[0x17]);
    cpu.set_a(0x95);
    cpu.set_f(0x00);
    run(&mut cpu, &mut ram, 1);
    assert_eq!(cpu.a(), 0x2A);
    assert_eq!(cpu.f(), 0x10);
}

#[test]
fn rrca_rotates_into_carry() {
    let (mut cpu, mut ram) = boot(&[0x0F]);
    cpu.set_a(0x3B);
    run(&mut cpu, &mut ram, 1);
    assert_eq!(cpu.a(), 0x9D);
    assert_eq!(cpu.f(), 0x10);
}

#[test]
fn rra_rotates_through_carry() {
    let (mut cpu, mut ram) = boot(&[0x1F]);
    cpu.set_a(0x81);
    cpu.set_f(0x00);
    run(&mut cpu, &mut ram, 1);
    assert_eq!(cpu.a(), 0x40);
    assert_eq!(cpu.f(), 0x10);
}

#[test]
fn cpl_complements_a() {
    let (mut cpu, mut ram) = boot(&[0x2F]);
    cpu.set_a(0x35);
    cpu.set_f(0x90);
    run(&mut cpu, &mut ram, 1);
    assert_eq!(cpu.a(), 0xCA);
    // Z and C kept, N and H set
    assert_eq!(cpu.f(), 0xF0);
}

#[test]
fn scf_and_ccf() {
    let (mut cpu, mut ram) = boot(&[0x37, 0x3F]);
    cpu.set_f(0x80);
    run(&mut cpu, &mut ram, 1);
    assert_eq!(cpu.f(), 0x90);
    run(&mut cpu, &mut ram, 1);
    assert_eq!(cpu.f(), 0x80);
}

#[test]
fn jr_taken_costs_three_cycles() {
    let (mut cpu, mut ram) = boot(&[0x18, 0x03]);
    run(&mut cpu, &mut ram, 3);
    // pc landed on 5, and the fetch lookahead moved it one past
    assert_eq!(cpu.pc(), 6);
}

#[test]
fn jr_backwards() {
    let mut ram = vec![0u8; 0x1_0000];
    ram[0x100] = 0x18;
    ram[0x101] = 0xFB; // -5
    let mut cpu = SM83::default();
    cpu.set_pc(0x100);
    cpu.m_cycle(&mut ram);
    run(&mut cpu, &mut ram, 3);
    assert_eq!(cpu.pc(), 0x100 + 2 - 5 + 1);
}

#[test]
fn jr_not_taken_costs_two_cycles() {
    let (mut cpu, mut ram) = boot(&[0x20, 0x10, 0x00]);
    cpu.set_f(0x80); // Z set, so JR NZ falls through
    run(&mut cpu, &mut ram, 2);
    assert_eq!(cpu.pc(), 3);
}

#[test]
fn jp_absolute() {
    let (mut cpu, mut ram) = boot(&[0xC3, 0x34, 0x12]);
    run(&mut cpu, &mut ram, 4);
    assert_eq!(cpu.pc(), 0x1235);
}

#[test]
fn jp_hl_is_one_cycle() {
    let (mut cpu, mut ram) = boot(&[0xE9]);
    cpu.set_hl(0x0200);
    run(&mut cpu, &mut ram, 1);
    assert_eq!(cpu.pc(), 0x0201);
}

#[test]
fn call_pushes_return_address_and_ret_pops_it() {
    let mut program = vec![0xCD, 0x10, 0x00]; // CALL 0x0010
    program.resize(0x10, 0x00);
    program.push(0xC9); // RET at 0x0010
    let (mut cpu, mut ram) = boot(&program);
    cpu.set_sp(0xFFFE);
    run(&mut cpu, &mut ram, 6);
    assert_eq!(cpu.sp(), 0xFFFC);
    assert_eq!(ram[0xFFFD], 0x00);
    assert_eq!(ram[0xFFFC], 0x03);
    assert_eq!(cpu.pc(), 0x0011);
    run(&mut cpu, &mut ram, 4);
    assert_eq!(cpu.sp(), 0xFFFE);
    assert_eq!(cpu.pc(), 0x0004);
}

#[test]
fn call_not_taken_costs_three_cycles() {
    let (mut cpu, mut ram) = boot(&[0xC4, 0x10, 0x00, 0x00]); // CALL NZ
    cpu.set_f(0x80);
    cpu.set_sp(0xFFFE);
    run(&mut cpu, &mut ram, 3);
    assert_eq!(cpu.pc(), 4);
    assert_eq!(cpu.sp(), 0xFFFE);
}

#[test]
fn ret_cc_not_taken_costs_two_cycles() {
    let (mut cpu, mut ram) = boot(&[0xC8, 0x00]); // RET Z with Z clear
    cpu.set_f(0x00);
    cpu.set_sp(0xFFFE);
    run(&mut cpu, &mut ram, 2);
    assert_eq!(cpu.pc(), 2);
}

#[test]
fn rst_jumps_to_its_vector() {
    let mut ram = vec![0u8; 0x1_0000];
    ram[0x100] = 0xE7; // RST 0x20
    let mut cpu = SM83::default();
    cpu.set_pc(0x100);
    cpu.set_sp(0xFFFE);
    cpu.m_cycle(&mut ram);
    run(&mut cpu, &mut ram, 4);
    assert_eq!(cpu.pc(), 0x21);
    assert_eq!(cpu.sp(), 0xFFFC);
    assert_eq!(ram[0xFFFD], 0x01);
    assert_eq!(ram[0xFFFC], 0x01);
}

#[test]
fn push_af_pop_bc_sees_masked_flags() {
    let (mut cpu, mut ram) = boot(&[0xF5, 0xC1]); // PUSH AF; POP BC
    cpu.set_a(0x12);
    cpu.set_f(0xFF);
    cpu.set_sp(0xFFFE);
    run(&mut cpu, &mut ram, 7);
    assert_eq!(cpu.bc(), 0x12F0);
}

#[test]
fn pop_af_masks_the_low_nibble() {
    let (mut cpu, mut ram) = boot(&[0xC5, 0xF1]); // PUSH BC; POP AF
    cpu.set_bc(0x34FF);
    cpu.set_sp(0xFFFE);
    run(&mut cpu, &mut ram, 7);
    assert_eq!(cpu.af(), 0x34F0);
    assert_eq!(cpu.f(), 0xF0);
}

#[test]
fn ld_hl_plus_and_minus() {
    let (mut cpu, mut ram) = boot(&[0x22, 0x32]); // LD (HL+),A; LD (HL-),A
    cpu.set_a(0x99);
    cpu.set_hl(0x8000);
    run(&mut cpu, &mut ram, 2);
    assert_eq!(ram[0x8000], 0x99);
    assert_eq!(cpu.hl(), 0x8001);
    run(&mut cpu, &mut ram, 2);
    assert_eq!(ram[0x8001], 0x99);
    assert_eq!(cpu.hl(), 0x8000);
}

#[test]
fn inc_hl_memory_wraps_to_zero() {
    let (mut cpu, mut ram) = boot(&[0x34]); // INC (HL)
    cpu.set_hl(0x0010);
    cpu.set_f(0x10);
    ram[0x0010] = 0xFF;
    run(&mut cpu, &mut ram, 3);
    assert_eq!(ram[0x0010], 0x00);
    // Z1 N0 H1 and the old carry kept
    assert_eq!(cpu.f(), 0xB0);
}

#[test]
fn ldh_writes_the_high_page() {
    let (mut cpu, mut ram) = boot(&[0xE0, 0x80]); // LDH (0x80),A
    cpu.set_a(0x42);
    run(&mut cpu, &mut ram, 3);
    assert_eq!(ram[0xFF80], 0x42);
}

#[test]
fn ldh_a_c_reads_the_high_page() {
    let (mut cpu, mut ram) = boot(&[0xF2]); // LD A,(C)
    cpu.set_c(0x81);
    ram[0xFF81] = 0x77;
    run(&mut cpu, &mut ram, 2);
    assert_eq!(cpu.a(), 0x77);
}

#[test]
fn ld_a16_sp_stores_both_bytes() {
    let (mut cpu, mut ram) = boot(&[0x08, 0x00, 0xC0]); // LD (0xC000),SP
    cpu.set_sp(0x1234);
    run(&mut cpu, &mut ram, 5);
    assert_eq!(ram[0xC000], 0x34);
    assert_eq!(ram[0xC001], 0x12);
}

#[test]
fn ld_a_a16_loads() {
    let (mut cpu, mut ram) = boot(&[0xFA, 0x00, 0xC0]); // LD A,(0xC000)
    ram[0xC000] = 0x5D;
    run(&mut cpu, &mut ram, 4);
    assert_eq!(cpu.a(), 0x5D);
}

#[test]
fn add_hl_sets_half_from_bit_eleven() {
    let (mut cpu, mut ram) = boot(&[0x09]); // ADD HL,BC
    cpu.set_hl(0x8A23);
    cpu.set_bc(0x0605);
    cpu.set_f(0x80);
    run(&mut cpu, &mut ram, 2);
    assert_eq!(cpu.hl(), 0x9028);
    assert_eq!(cpu.f(), 0xA0);
}

#[test]
fn inc_and_dec_sixteen_bits_wrap() {
    let (mut cpu, mut ram) = boot(&[0x03, 0x0B, 0x0B]); // INC BC; DEC BC; DEC BC
    cpu.set_bc(0xFFFF);
    run(&mut cpu, &mut ram, 2);
    assert_eq!(cpu.bc(), 0x0000);
    run(&mut cpu, &mut ram, 4);
    assert_eq!(cpu.bc(), 0xFFFE);
}

#[test]
fn add_sp_e8_flags_come_from_the_low_byte() {
    let (mut cpu, mut ram) = boot(&[0xE8, 0x08]); // ADD SP,8
    cpu.set_sp(0xFFF8);
    run(&mut cpu, &mut ram, 4);
    assert_eq!(cpu.sp(), 0x0000);
    assert_eq!(cpu.f(), 0x30);
}

#[test]
fn ld_hl_sp_e8_keeps_sp() {
    let (mut cpu, mut ram) = boot(&[0xF8, 0x08]); // LD HL,SP+8
    cpu.set_sp(0xFFF8);
    run(&mut cpu, &mut ram, 3);
    assert_eq!(cpu.hl(), 0x0000);
    assert_eq!(cpu.sp(), 0xFFF8);
    assert_eq!(cpu.f(), 0x30);
}

#[test]
fn ld_sp_hl_takes_two_cycles() {
    let (mut cpu, mut ram) = boot(&[0xF9, 0x00]); // LD SP,HL
    cpu.set_hl(0xABCD);
    run(&mut cpu, &mut ram, 2);
    assert_eq!(cpu.sp(), 0xABCD);
    assert_eq!(cpu.pc(), 2);
}

#[test]
fn ld_register_to_register() {
    let (mut cpu, mut ram) = boot(&[0x41, 0x6F, 0x7E, 0x70]);
    cpu.set_c(0x9A);
    cpu.set_a(0x11);
    run(&mut cpu, &mut ram, 1); // LD B,C
    assert_eq!(cpu.b(), 0x9A);
    run(&mut cpu, &mut ram, 1); // LD L,A
    assert_eq!(cpu.l(), 0x11);
    cpu.set_hl(0xC000);
    ram[0xC000] = 0x66;
    run(&mut cpu, &mut ram, 2); // LD A,(HL)
    assert_eq!(cpu.a(), 0x66);
    cpu.set_b(0x27);
    run(&mut cpu, &mut ram, 2); // LD (HL),B
    assert_eq!(ram[0xC000], 0x27);
}

#[test]
fn cb_swap_a() {
    let (mut cpu, mut ram) = boot(&[0xCB, 0x37]);
    cpu.set_a(0xF0);
    run(&mut cpu, &mut ram, 2);
    assert_eq!(cpu.a(), 0x0F);
    assert_eq!(cpu.f(), 0x00);
}

#[test]
fn cb_bit_test_sets_zero_from_the_bit() {
    let (mut cpu, mut ram) = boot(&[0xCB, 0x7C, 0xCB, 0x7C]); // BIT 7,H twice
    cpu.set_h(0x80);
    cpu.set_f(0x10);
    run(&mut cpu, &mut ram, 2);
    // bit is 1: Z0 N0 H1, C kept
    assert_eq!(cpu.f(), 0x30);
    cpu.set_h(0x00);
    run(&mut cpu, &mut ram, 2);
    assert_eq!(cpu.f(), 0xB0);
}

#[test]
fn cb_set_and_res_on_memory() {
    let (mut cpu, mut ram) = boot(&[0xCB, 0xC6, 0xCB, 0x86]); // SET 0,(HL); RES 0,(HL)
    cpu.set_hl(0xC020);
    run(&mut cpu, &mut ram, 4);
    assert_eq!(ram[0xC020], 0x01);
    run(&mut cpu, &mut ram, 4);
    assert_eq!(ram[0xC020], 0x00);
}

#[test]
fn cb_srl_and_rr_chain() {
    let (mut cpu, mut ram) = boot(&[0xCB, 0x3F, 0xCB, 0x1F]); // SRL A; RR A
    cpu.set_a(0x81);
    cpu.set_f(0x00);
    run(&mut cpu, &mut ram, 2);
    assert_eq!(cpu.a(), 0x40);
    assert_eq!(cpu.f(), 0x10);
    run(&mut cpu, &mut ram, 2);
    // RR shifts the carry back in at the top
    assert_eq!(cpu.a(), 0xA0);
    assert_eq!(cpu.f(), 0x00);
}

#[test]
fn cb_rlc_on_register() {
    let (mut cpu, mut ram) = boot(&[0xCB, 0x00]); // RLC B
    cpu.set_b(0x00);
    run(&mut cpu, &mut ram, 2);
    assert_eq!(cpu.b(), 0x00);
    // unlike RLCA, the CB rotate sets Z from the result
    assert_eq!(cpu.f(), 0x80);
}

#[test]
fn cb_sra_keeps_the_sign_bit() {
    let (mut cpu, mut ram) = boot(&[0xCB, 0x2F]); // SRA A
    cpu.set_a(0x8A);
    run(&mut cpu, &mut ram, 2);
    assert_eq!(cpu.a(), 0xC5);
    assert_eq!(cpu.f(), 0x00);
}

#[test]
fn illegal_opcode_behaves_as_a_nop() {
    let (mut cpu, mut ram) = boot(&[0xD3, 0x00]);
    run(&mut cpu, &mut ram, 1);
    assert_eq!(cpu.pc(), 2);
}

#[test]
fn stop_reports_stopped_mode() {
    let (mut cpu, mut ram) = boot(&[0x10, 0x00]);
    let mode = run(&mut cpu, &mut ram, 1);
    assert_eq!(mode, CpuMode::Stopped);
}

#[test]
fn di_clears_and_ei_sets_ime() {
    let (mut cpu, mut ram) = boot(&[0xFB, 0xF3]);
    run(&mut cpu, &mut ram, 1);
    assert!(cpu.ime());
    run(&mut cpu, &mut ram, 1);
    assert!(!cpu.ime());
}

#[test]
fn interrupt_is_serviced_at_the_fetch_boundary() {
    // EI, then a pending, enabled Timer interrupt: five cycles push PC and
    // jump to vector 0x50, clearing IME and the IF bit
    let (mut cpu, mut ram) = boot(&[0xFB, 0x00, 0x00]);
    cpu.set_sp(0xFFF0);
    ram[0xFFFF] = 0x04; // IE: Timer
    ram[0xFF0F] = 0x04; // IF: Timer pending
    run(&mut cpu, &mut ram, 1); // EI retires; servicing replaces the fetch
    run(&mut cpu, &mut ram, 5); // Nop, SP dip, push PCH, push PCL, jump
    assert_eq!(cpu.pc(), 0x51);
    assert!(!cpu.ime());
    assert_eq!(ram[0xFF0F], 0x00);
    assert_eq!(cpu.sp(), 0xFFEE);
    assert_eq!(ram[0xFFEF], 0x00);
    assert_eq!(ram[0xFFEE], 0x01);
}

#[test]
fn interrupt_priority_picks_the_lowest_bit() {
    let (mut cpu, mut ram) = boot(&[0xFB, 0x00]);
    cpu.set_sp(0xFFF0);
    ram[0xFFFF] = 0x1F;
    ram[0xFF0F] = 0x14; // Joypad and Timer pending: Timer wins
    run(&mut cpu, &mut ram, 6);
    assert_eq!(cpu.pc(), 0x51);
    assert_eq!(ram[0xFF0F], 0x10);
}

#[test]
fn reti_reenables_interrupts() {
    let mut program = vec![0u8; 0x20];
    program[0x00] = 0xC3; // JP 0x0010
    program[0x01] = 0x10;
    program[0x02] = 0x00;
    program[0x10] = 0xD9; // RETI
    let (mut cpu, mut ram) = boot(&program);
    cpu.set_sp(0xFFFC);
    ram[0xFFFC] = 0x05;
    ram[0xFFFD] = 0x00;
    run(&mut cpu, &mut ram, 4); // JP
    run(&mut cpu, &mut ram, 4); // RETI
    assert!(cpu.ime());
    assert_eq!(cpu.pc(), 0x06);
    assert_eq!(cpu.sp(), 0xFFFE);
}

#[test]
fn daa_wraps_past_ninety_nine() {
    let (mut cpu, mut ram) = boot(&[0x27]);
    cpu.set_a(0x9A);
    cpu.set_f(0x00);
    run(&mut cpu, &mut ram, 1);
    assert_eq!(cpu.a(), 0x00);
    assert_eq!(cpu.f(), 0x90);
}

#[test]
fn add_sp_negative_offset() {
    let (mut cpu, mut ram) = boot(&[0xE8, 0xFF]); // ADD SP,-1
    cpu.set_sp(0x0000);
    run(&mut cpu, &mut ram, 4);
    assert_eq!(cpu.sp(), 0xFFFF);
    assert_eq!(cpu.f(), 0x00);
}

#[test]
fn cb_bit_on_memory_at_hl() {
    let (mut cpu, mut ram) = boot(&[0xCB, 0x76]); // BIT 6,(HL)
    cpu.set_hl(0xC000);
    cpu.set_f(0x10);
    ram[0xC000] = 0x40;
    run(&mut cpu, &mut ram, 3);
    // the bit is set: Z0 N0 H1, carry kept; the byte itself is untouched
    assert_eq!(cpu.f(), 0x30);
    assert_eq!(ram[0xC000], 0x40);
}

#[test]
fn jr_across_the_address_wrap() {
    let mut ram = vec![0u8; 0x1_0000];
    ram[0xFFFE] = 0x18; // JR +1
    ram[0xFFFF] = 0x01;
    let mut cpu = SM83::default();
    cpu.set_pc(0xFFFE);
    cpu.m_cycle(&mut ram);
    run(&mut cpu, &mut ram, 3);
    assert_eq!(cpu.pc(), 0x0002);
}
