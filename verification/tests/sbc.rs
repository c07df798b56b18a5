use mos6502::cpu::CPU;

#[test]
fn test_sbc_bcd_1() {
    // SED      ; Decimal mode (BCD subtraction: 46 - 12 = 34)
    // SEC
    // LDA #$46
    // SBC #$12 ; After this instruction, C = 1, A = $34)
    let mut cpu = CPU::new();
    let mut mem: [u8; 0x10000] = [0; 0x10000];
    cpu.d = true;
    mem[0xFFFC] = CPU::SBC_IM;
    mem[0xFFFD] = 0x12;
    cpu.c = true;
    cpu.a = 0x46;
    let cycles: u32 = 2;
    assert_eq!(cpu.run(cycles, &mut mem), cycles);
    assert_eq!(cpu.a, 0x34, "A reg");
    assert_eq!(cpu.c, true, "c reg");
}

#[test]
fn test_sbc_bcd_2() {
    // SED      ; Decimal mode (BCD subtraction: 40 - 13 = 27)
    // SEC
    // LDA #$40
    // SBC #$13 ; After this instruction, C = 1, A = $27)
    let mut cpu = CPU::new();
    let mut mem: [u8; 0x10000] = [0; 0x10000];
    cpu.d = true;
    mem[0xFFFC] = CPU::SBC_IM;
    mem[0xFFFD] = 0x13;
    cpu.c = true;
    cpu.a = 0x40;
    let cycles: u32 = 2;
    assert_eq!(cpu.run(cycles, &mut mem), cycles);
    assert_eq!(cpu.a, 0x27, "A reg");
    assert_eq!(cpu.c, true, "c reg");
}

#[test]
fn test_sbc_bcd_3() {
    // SED      ; Decimal mode (BCD subtraction: 32 - 2 - 1 = 29)
    // CLC      ; Note: carry is clear, not set!
    // LDA #$32
    // SBC #$02 ; After this instruction, C = 1, A = $29)
    let mut cpu = CPU::new();
    let mut mem: [u8; 0x10000] = [0; 0x10000];
    cpu.d = true;
    mem[0xFFFC] = CPU::SBC_IM;
    mem[0xFFFD] = 0x02;
    cpu.c = false;
    cpu.a = 0x32;
    let cycles: u32 = 2;
    assert_eq!(cpu.run(cycles, &mut mem), cycles);
    assert_eq!(cpu.a, 0x29, "A reg");
    assert_eq!(cpu.c, true, "c reg");
}

#[test]
fn test_sbc_bcd_4() {
    // SED      ; Decimal mode (BCD subtraction: 12 - 21)
    // SEC
    // LDA #$12
    // SBC #$21 ; After this instruction, C = 0, A = $91)
    let mut cpu = CPU::new();
    let mut mem: [u8; 0x10000] = [0; 0x10000];
    cpu.d = true;
    mem[0xFFFC] = CPU::SBC_IM;
    mem[0xFFFD] = 0x21;
    cpu.c = true;
    cpu.a = 0x12;
    let cycles: u32 = 2;
    assert_eq!(cpu.run(cycles, &mut mem), cycles);
    assert_eq!(cpu.a, 0x91, "A reg");
    assert_eq!(cpu.c, false, "c reg");
}

#[test]
fn test_sbc_bcd_5() {
    // SED      ; Decimal mode (BCD subtraction: 21 - 34)
    // SEC
    // LDA #$21
    // SBC #$34 ; After this instruction, C = 0, A = $87)
    let mut cpu = CPU::new();
    let mut mem: [u8; 0x10000] = [0; 0x10000];
    cpu.d = true;
    mem[0xFFFC] = CPU::SBC_IM;
    mem[0xFFFD] = 0x34;
    cpu.c = true;
    cpu.a = 0x21;
    let cycles: u32 = 2;
    assert_eq!(cpu.run(cycles, &mut mem), cycles);
    assert_eq!(cpu.a, 0x87, "A reg");
    assert_eq!(cpu.c, false, "c reg");
}

#[test]
fn test_sbc_bcd_6() {
    // SED      ; Decimal mode (BCD subtraction: 46 - 12 = 34)
    // SEC
    // LDA #$00
    // SBC #$60 ; After this instruction, C = 1, A = $34)
    let mut cpu = CPU::new();
    let mut mem: [u8; 0x10000] = [0; 0x10000];
    cpu.d = true;
    mem[0xFFFC] = CPU::SBC_IM;
    mem[0xFFFD] = 0x60;
    cpu.c = false;
    cpu.a = 0x00;
    let cycles: u32 = 2;
    assert_eq!(cpu.run(cycles, &mut mem), cycles);
    assert_eq!(cpu.a, 0x39, "A reg");
    assert_eq!(cpu.c, false, "c reg");
}

#[test]
fn test_sbc_1() {
    // 0 - 0 = 0
    let mut cpu = CPU::new();
    let mut mem: [u8; 0x10000] = [0; 0x10000];
    mem[0xFFFC] = CPU::SBC_IM;
    mem[0xFFFD] = 0x00;
    cpu.c = true;
    cpu.a = 0;
    let cycles: u32 = 2;
    assert_eq!(cpu.run(cycles, &mut mem), cycles);
    assert_eq!(cpu.a, 0, "A reg");
    assert_eq!(cpu.c, true, "c reg");
    assert_eq!(cpu.n, false, "n reg");
    assert_eq!(cpu.v, false, "v reg");
    assert_eq!(cpu.z, true, "z reg");
}

#[test]
fn test_sbc_2() {
    // 0 - 0 - !c = -11
    let mut cpu = CPU::new();
    let mut mem: [u8; 0x10000] = [0; 0x10000];
    mem[0xFFFC] = CPU::SBC_IM;
    mem[0xFFFD] = 0x00;
    cpu.c = false;
    cpu.a = 0;
    let cycles: u32 = 2;
    assert_eq!(cpu.run(cycles, &mut mem), cycles);
    assert_eq!(cpu.a as i8, -1, "A reg");
    assert_eq!(cpu.c, false, "c reg");
    assert_eq!(cpu.n, true, "n reg");
    assert_eq!(cpu.v, false, "v reg");
    assert_eq!(cpu.z, false, "z reg");
}

#[test]
fn test_sbc_2b() {
    // 0 - 1
    let mut cpu = CPU::new();
    let mut mem: [u8; 0x10000] = [0; 0x10000];
    mem[0xFFFC] = CPU::SBC_IM;
    mem[0xFFFD] = 1;
    cpu.c = true;
    cpu.a = 0;
    let cycles: u32 = 2;
    assert_eq!(cpu.run(cycles, &mut mem), cycles);
    assert_eq!(cpu.a, -1i8 as u8, "A reg");
    assert_eq!(cpu.c, false, "c reg");
    assert_eq!(cpu.n, true, "n reg");
    assert_eq!(cpu.v, false, "v reg");
    assert_eq!(cpu.z, false, "z reg");
}

#[test]
fn test_sbc_3() {
    // 100 - 37
    let mut cpu = CPU::new();
    let mut mem: [u8; 0x10000] = [0; 0x10000];
    mem[0xFFFC] = CPU::SBC_IM;
    mem[0xFFFD] = 37;
    cpu.c = true;
    cpu.a = 100;
    let cycles: u32 = 2;
    assert_eq!(cpu.run(cycles, &mut mem), cycles);
    assert_eq!(cpu.a, 63, "A reg");
    assert_eq!(cpu.c, true, "c reg");
    assert_eq!(cpu.n, false, "n reg");
    assert_eq!(cpu.v, false, "v reg");
    assert_eq!(cpu.z, false, "z reg");
}

#[test]
fn test_sbc_3b() {
    // 37 - 100
    let mut cpu = CPU::new();
    let mut mem: [u8; 0x10000] = [0; 0x10000];
    mem[0xFFFC] = CPU::SBC_IM;
    mem[0xFFFD] = 100;
    cpu.c = true;
    cpu.a = 37;
    let cycles: u32 = 2;
    assert_eq!(cpu.run(cycles, &mut mem), cycles);
    assert_eq!(cpu.a, -63i8 as u8, "A reg");
    assert_eq!(cpu.c, false, "c reg");
    assert_eq!(cpu.n, true, "n reg");
    assert_eq!(cpu.v, false, "v reg");
    assert_eq!(cpu.z, false, "z reg");
}

#[test]
fn test_sbc_4() {
    // pos - neg
    let mut cpu = CPU::new();
    let mut mem: [u8; 0x10000] = [0; 0x10000];
    mem[0xFFFC] = CPU::SBC_IM;
    mem[0xFFFD] = 0b1110_1111;  // -17
    cpu.c = true;
    cpu.a = 20;
    let cycles: u32 = 2;
    assert_eq!(cpu.run(cycles, &mut mem), cycles);
    assert_eq!(cpu.a, 37, "A reg");
    assert_eq!(cpu.c, false, "c reg");
    assert_eq!(cpu.n, false, "n reg");
    assert_eq!(cpu.v, false, "v reg");
    assert_eq!(cpu.z, false, "z reg");
}

#[test]
fn test_sbc_5() {
    // test carry
    let mut cpu = CPU::new();
    let mut mem: [u8; 0x10000] = [0; 0x10000];
    mem[0xFFFC] = CPU::SBC_IM;
    mem[0xFFFD] = 1;
    cpu.c = true;
    cpu.a = 0x80;
    let cycles: u32 = 2;
    assert_eq!(cpu.run(cycles, &mut mem), cycles);
    assert_eq!(cpu.a, 127, "A reg");
    assert_eq!(cpu.c, true, "c reg");
    assert_eq!(cpu.n, false, "n reg");
    assert_eq!(cpu.v, true, "v reg");
    assert_eq!(cpu.z, false, "z reg");
}

#[test]
fn test_sbc_6() {
    // test overflow
    let mut cpu = CPU::new();
    let mut mem: [u8; 0x10000] = [0; 0x10000];
    mem[0xFFFC] = CPU::SBC_IM;
    mem[0xFFFD] = 0b1111_1111; // -1
    cpu.c = true;
    cpu.a = 127;
    let cycles: u32 = 2;
    assert_eq!(cpu.run(cycles, &mut mem), cycles);
    assert_eq!(cpu.a, 0x80, "A reg");  // 128 / -128
    assert_eq!(cpu.c, false, "c reg");
    assert_eq!(cpu.n, true, "n reg");
    assert_eq!(cpu.v, true, "v reg");
    assert_eq!(cpu.z, false, "z reg");
}

#[test]
fn test_sbc_7() {
    // test overflow 2
    let mut cpu = CPU::new();
    let mut mem: [u8; 0x10000] = [0; 0x10000];
    mem[0xFFFC] = CPU::SBC_IM;
    mem[0xFFFD] = 1;
    cpu.c = true;
    cpu.a = 0x80; // -128
    let cycles: u32 = 2;
    assert_eq!(cpu.run(cycles, &mut mem), cycles);
    assert_eq!(cpu.a, 127, "A reg"); // -128
    assert_eq!(cpu.c, true, "c reg");
    assert_eq!(cpu.n, false, "n reg");
    assert_eq!(cpu.v, true, "v reg");
    assert_eq!(cpu.z, false, "z reg");
}

#[test]
fn test_sbc_8() {
    // neg - neg
    let mut cpu = CPU::new();
    let mut mem: [u8; 0x10000] = [0; 0x10000];
    mem[0xFFFC] = CPU::SBC_IM;
    mem[0xFFFD] = -20i8 as u8;
    cpu.c = false;
    cpu.a = -32i8 as u8;
    let cycles: u32 = 2;
    assert_eq!(cpu.run(cycles, &mut mem), cycles);
    assert_eq!(cpu.a, -13i8 as u8, "A reg"); // -128
    assert_eq!(cpu.c, false, "c reg");
    assert_eq!(cpu.n, true, "n reg");
    assert_eq!(cpu.v, false, "v reg");
    assert_eq!(cpu.z, false, "z reg");
}
