use mos6502::cpu::CPU;

#[test]
fn machine_reset_sequencing() {
    // Asserting power with reset held low costs one release-poll cycle,
    // seven settle cycles, and two vector fetches: ten cycles before the
    // first opcode fetch, with the registers at their power-up defaults.
    let mut cpu = CPU::new();
    let mut mem: [u8; 0x10000] = [0; 0x10000];
    mem[0xFFFC] = 0x00;
    mem[0xFFFD] = 0x80;
    cpu.inp.res = false;
    cpu.a = 0x55;
    cpu.x = 0x66;
    cpu.y = 0x77;
    cpu.sp = 3;
    cpu.c = true;
    cpu.d = true;
    let cycles: u32 = 10;
    assert_eq!(cpu.run(cycles, &mut mem), cycles);
    assert_eq!(cpu.pc, 0x8000, "pc at the reset vector");
    assert_eq!(cpu.sp, 255, "sp default");
    assert_eq!(cpu.a, 0, "a default");
    assert_eq!(cpu.x, 0, "x default");
    assert_eq!(cpu.y, 0, "y default");
    assert_eq!(cpu.c, false, "c default");
    assert_eq!(cpu.z, false, "z default");
    assert_eq!(cpu.i, false, "i default");
    assert_eq!(cpu.d, false, "d default");
    assert_eq!(cpu.v, false, "v default");
    assert_eq!(cpu.n, false, "n default");
    assert!(cpu.inp.res, "reset released");
}

#[test]
fn machine_reset_then_first_instruction() {
    let mut cpu = CPU::new();
    let mut mem: [u8; 0x10000] = [0; 0x10000];
    mem[0xFFFC] = 0x00;
    mem[0xFFFD] = 0x80;
    mem[0x8000] = CPU::LDA_IM;
    mem[0x8001] = 0x42;
    cpu.inp.res = false;
    let cycles: u32 = 12;
    assert_eq!(cpu.run(cycles, &mut mem), cycles);
    assert_eq!(cpu.a, 0x42, "A reg");
    assert_eq!(cpu.pc, 0x8002, "pc past the first instruction");
}

#[test]
fn machine_power_off_runs_nothing() {
    let mut cpu = CPU::new();
    let mut mem: [u8; 0x10000] = [0; 0x10000];
    mem[0xFFFC] = CPU::LDA_IM;
    mem[0xFFFD] = 0x42;
    cpu.inp.vdd = false;
    assert_eq!(cpu.run(8, &mut mem), 0);
    assert_eq!(cpu.a, 0, "A reg untouched");
    assert_eq!(cpu.pc, 0xFFFC, "pc untouched");
}

#[test]
fn machine_unknown_opcode_stops() {
    // 0x02 is not an opcode of this processor: the machine stops without
    // charging a cycle, the program counter resting on the offending byte.
    let mut cpu = CPU::new();
    let mut mem: [u8; 0x10000] = [0; 0x10000];
    mem[0xFFFC] = 0x02;
    assert_eq!(cpu.run(8, &mut mem), 0);
    assert_eq!(cpu.pc, 0xFFFC, "pc on the unknown opcode");
    assert_eq!(mem[cpu.pc as usize], 0x02, "the diagnostic byte");
}

#[test]
fn machine_unknown_opcode_after_instruction() {
    let mut cpu = CPU::new();
    let mut mem: [u8; 0x10000] = [0; 0x10000];
    mem[0xFFFC] = CPU::NOP;
    mem[0xFFFD] = 0x02;
    assert_eq!(cpu.run(10, &mut mem), 2, "only the NOP ran");
    assert_eq!(cpu.pc, 0xFFFD, "pc on the unknown opcode");
}

#[test]
fn machine_budget_finishes_instruction() {
    // An instruction begun within the budget completes: one cycle of
    // budget still runs the whole two-cycle NOP.
    let mut cpu = CPU::new();
    let mut mem: [u8; 0x10000] = [0; 0x10000];
    mem[0xFFFC] = CPU::NOP;
    mem[0xFFFD] = CPU::NOP;
    assert_eq!(cpu.run(1, &mut mem), 2);
    assert_eq!(cpu.pc, 0xFFFD);
}

#[test]
fn machine_jmp_absolute() {
    let mut cpu = CPU::new();
    let mut mem: [u8; 0x10000] = [0; 0x10000];
    mem[0xFFFC] = CPU::JMP_ABS;
    mem[0xFFFD] = 0x34;
    mem[0xFFFE] = 0x12;
    let cycles: u32 = 3;
    assert_eq!(cpu.run(cycles, &mut mem), cycles);
    assert_eq!(cpu.pc, 0x1234);
}

#[test]
fn machine_jmp_indirect() {
    let mut cpu = CPU::new();
    let mut mem: [u8; 0x10000] = [0; 0x10000];
    mem[0xFFFC] = CPU::JMP_IND;
    mem[0xFFFD] = 0x00;
    mem[0xFFFE] = 0x20;
    mem[0x2000] = 0x78;
    mem[0x2001] = 0x56;
    let cycles: u32 = 5;
    assert_eq!(cpu.run(cycles, &mut mem), cycles);
    assert_eq!(cpu.pc, 0x5678);
}

#[test]
fn machine_sta_absolute_writes_memory() {
    let mut cpu = CPU::new();
    let mut mem: [u8; 0x10000] = [0; 0x10000];
    mem[0xFFFC] = CPU::STA_ABS;
    mem[0xFFFD] = 0x00;
    mem[0xFFFE] = 0x40;
    cpu.a = 0x99;
    let cycles: u32 = 4;
    assert_eq!(cpu.run(cycles, &mut mem), cycles);
    assert_eq!(mem[0x4000], 0x99, "stored byte");
    assert_eq!(cpu.a, 0x99, "A reg unchanged");
}

#[test]
fn machine_sta_absolute_x_cycles() {
    // Stores charge the index penalty cycle unconditionally: 5 cycles
    // with or without a page crossing.
    let mut cpu = CPU::new();
    let mut mem: [u8; 0x10000] = [0; 0x10000];
    mem[0xFFFC] = CPU::STA_ABSX;
    mem[0xFFFD] = 0x00;
    mem[0xFFFE] = 0x40;
    cpu.a = 0x77;
    cpu.x = 0x05;
    let cycles: u32 = 5;
    assert_eq!(cpu.run(cycles, &mut mem), cycles);
    assert_eq!(mem[0x4005], 0x77, "stored byte");
}

#[test]
fn machine_asl_absolute_x_seven_cycles() {
    let mut cpu = CPU::new();
    let mut mem: [u8; 0x10000] = [0; 0x10000];
    mem[0xFFFC] = CPU::ASL_ABSX;
    mem[0xFFFD] = 0x00;
    mem[0xFFFE] = 0x40;
    mem[0x4002] = 0b0100_0001;
    cpu.x = 0x02;
    let cycles: u32 = 7;
    assert_eq!(cpu.run(cycles, &mut mem), cycles);
    assert_eq!(mem[0x4002], 0b1000_0010, "shifted byte");
    assert_eq!(cpu.c, false, "c reg");
    assert_eq!(cpu.n, true, "n reg");
}

#[test]
fn machine_inc_and_dec_memory() {
    let mut cpu = CPU::new();
    let mut mem: [u8; 0x10000] = [0; 0x10000];
    mem[0xFFFC] = CPU::INC_ZP;
    mem[0xFFFD] = 0x10;
    mem[0x0010] = 0xFF;
    let cycles: u32 = 5;
    assert_eq!(cpu.run(cycles, &mut mem), cycles);
    assert_eq!(mem[0x0010], 0x00, "wrapped increment");
    assert_eq!(cpu.z, true, "z reg");

    let mut cpu = CPU::new();
    mem[0xFFFC] = CPU::DEC_ZP;
    mem[0x0010] = 0x00;
    assert_eq!(cpu.run(cycles, &mut mem), cycles);
    assert_eq!(mem[0x0010], 0xFF, "wrapped decrement");
    assert_eq!(cpu.n, true, "n reg");
}

#[test]
fn machine_bit_sets_flags_only() {
    let mut cpu = CPU::new();
    let mut mem: [u8; 0x10000] = [0; 0x10000];
    mem[0xFFFC] = CPU::BIT_ZP;
    mem[0xFFFD] = 0x21;
    mem[0x0021] = 0b1100_0000;
    cpu.a = 0b0011_1111;
    let cycles: u32 = 3;
    assert_eq!(cpu.run(cycles, &mut mem), cycles);
    assert_eq!(cpu.n, true, "n from bit 7");
    assert_eq!(cpu.v, true, "v from bit 6");
    assert_eq!(cpu.z, true, "z from the and");
    assert_eq!(cpu.a, 0b0011_1111, "A reg unchanged");
}

#[test]
fn machine_logic_ops() {
    let mut cpu = CPU::new();
    let mut mem: [u8; 0x10000] = [0; 0x10000];
    mem[0xFFFC] = CPU::AND_IM;
    mem[0xFFFD] = 0b1010_1010;
    cpu.a = 0b1100_1100;
    let cycles: u32 = 2;
    assert_eq!(cpu.run(cycles, &mut mem), cycles);
    assert_eq!(cpu.a, 0b1000_1000);
    assert_eq!(cpu.n, true, "n reg");

    let mut cpu = CPU::new();
    mem[0xFFFC] = CPU::ORA_IM;
    mem[0xFFFD] = 0b0000_1111;
    cpu.a = 0b0011_0000;
    assert_eq!(cpu.run(cycles, &mut mem), cycles);
    assert_eq!(cpu.a, 0b0011_1111);

    let mut cpu = CPU::new();
    mem[0xFFFC] = CPU::EOR_IM;
    mem[0xFFFD] = 0b1111_0000;
    cpu.a = 0b1010_1010;
    assert_eq!(cpu.run(cycles, &mut mem), cycles);
    assert_eq!(cpu.a, 0b0101_1010);
}

#[test]
fn machine_lda_zero_page_x_wraps() {
    // The zero-page index addition wraps within the page.
    let mut cpu = CPU::new();
    let mut mem: [u8; 0x10000] = [0; 0x10000];
    mem[0xFFFC] = CPU::LDA_ZPX;
    mem[0xFFFD] = 0x80;
    mem[0x007F] = 0x5A;
    cpu.x = 0xFF;
    let cycles: u32 = 4;
    assert_eq!(cpu.run(cycles, &mut mem), cycles);
    assert_eq!(cpu.a, 0x5A);
}

#[test]
fn machine_sty_zero_page() {
    let mut cpu = CPU::new();
    let mut mem: [u8; 0x10000] = [0; 0x10000];
    mem[0xFFFC] = CPU::STY_ZP;
    mem[0xFFFD] = 0x33;
    cpu.y = 0x5C;
    let cycles: u32 = 3;
    assert_eq!(cpu.run(cycles, &mut mem), cycles);
    assert_eq!(mem[0x0033], 0x5C, "stored byte");
}

#[test]
fn machine_dey_wraps() {
    let mut cpu = CPU::new();
    let mut mem: [u8; 0x10000] = [0; 0x10000];
    mem[0xFFFC] = CPU::DEY;
    cpu.y = 0;
    let cycles: u32 = 2;
    assert_eq!(cpu.run(cycles, &mut mem), cycles);
    assert_eq!(cpu.y, 0xFF, "wrapped decrement");
    assert_eq!(cpu.n, true, "n reg");
}

#[test]
fn machine_bcs_taken() {
    let mut cpu = CPU::new();
    let mut mem: [u8; 0x10000] = [0; 0x10000];
    mem[0xFFFC] = CPU::BCS;
    mem[0xFFFD] = 0x01;
    cpu.c = true;
    let cycles: u32 = 3;
    assert_eq!(cpu.run(cycles, &mut mem), cycles);
    assert_eq!(cpu.pc, 0xFFFF, "branch taken");
}

#[test]
fn machine_bvs_not_taken() {
    let mut cpu = CPU::new();
    let mut mem: [u8; 0x10000] = [0; 0x10000];
    mem[0xFFFC] = CPU::BVS;
    mem[0xFFFD] = 0x10;
    cpu.v = false;
    let cycles: u32 = 2;
    assert_eq!(cpu.run(cycles, &mut mem), cycles);
    assert_eq!(cpu.pc, 0xFFFE, "fell through");
}

#[test]
fn machine_beq_taken() {
    let mut cpu = CPU::new();
    let mut mem: [u8; 0x10000] = [0; 0x10000];
    mem[0xFFFC] = CPU::BEQ;
    mem[0xFFFD] = 0x02;
    cpu.z = true;
    // taken and crossing into page zero: 2 base + 1 taken + 1 cross
    let cycles: u32 = 4;
    assert_eq!(cpu.run(cycles, &mut mem), cycles);
    assert_eq!(cpu.pc, 0x0000, "branch past the end wraps");
}

#[test]
fn machine_cli_clears_interrupt_disable() {
    let mut cpu = CPU::new();
    let mut mem: [u8; 0x10000] = [0; 0x10000];
    mem[0xFFFC] = CPU::CLI;
    cpu.i = true;
    let cycles: u32 = 2;
    assert_eq!(cpu.run(cycles, &mut mem), cycles);
    assert_eq!(cpu.i, false, "flag cleared");
}
