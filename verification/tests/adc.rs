use mos6502::cpu::CPU;

#[test]
fn test_adc_bcd_1() {
    // SED      ; Decimal mode (BCD addition: 58 + 46 + 1 = 105)
    // SEC      ; Note: carry is set, not clear!
    // LDA #$58
    // ADC #$46 ; After this instruction, C = 1, A = $05
    let mut cpu = CPU::new();
    let mut mem: [u8; 0x10000] = [0; 0x10000];
    cpu.d = true;
    mem[0xFFFC] = CPU::ADC_IM;
    mem[0xFFFD] = 0x46;
    cpu.a = 0x58;
    cpu.c = true;
    let cycles: u32 = 2;
    assert_eq!(cpu.run(cycles, &mut mem), cycles);
    assert_eq!(cpu.a, 0x05, "A reg");
    assert_eq!(cpu.c, true, "c reg");
}

#[test]
fn test_adc_bcd_2() {
    // SED      ; Decimal mode (BCD addition: 12 + 34 = 46)
    // CLC
    // LDA #$12
    // ADC #$34 ; After this instruction, C = 0, A = $46
    let mut cpu = CPU::new();
    let mut mem: [u8; 0x10000] = [0; 0x10000];
    cpu.d = true;
    mem[0xFFFC] = CPU::ADC_IM;
    mem[0xFFFD] = 0x34;
    cpu.a = 0x12;
    cpu.c = false;
    let cycles: u32 = 2;
    assert_eq!(cpu.run(cycles, &mut mem), cycles);
    assert_eq!(cpu.a, 0x46, "A reg");
    assert_eq!(cpu.c, false, "c reg");
}

#[test]
fn test_adc_bcd_3() {
    // SED      ; Decimal mode (BCD addition: 15 + 26 = 41)
    // CLC
    // LDA #$15
    // ADC #$26 ; After this instruction, C = 0, A = $41
    let mut cpu = CPU::new();
    let mut mem: [u8; 0x10000] = [0; 0x10000];
    cpu.d = true;
    mem[0xFFFC] = CPU::ADC_IM;
    mem[0xFFFD] = 0x26;
    cpu.a = 0x15;
    cpu.c = false;
    let cycles: u32 = 2;
    assert_eq!(cpu.run(cycles, &mut mem), cycles);
    assert_eq!(cpu.a, 0x41, "A reg");
    assert_eq!(cpu.c, false, "c reg");
}

#[test]
fn test_adc_bcd_4() {
    // SED      ; Decimal mode (BCD addition: 81 + 92 = 173)
    // CLC
    // LDA #$81
    // ADC #$92 ; After this instruction, C = 1, A = $73
    let mut cpu = CPU::new();
    let mut mem: [u8; 0x10000] = [0; 0x10000];
    cpu.d = true;
    mem[0xFFFC] = CPU::ADC_IM;
    mem[0xFFFD] = 0x92;
    cpu.a = 0x81;
    cpu.c = false;
    let cycles: u32 = 2;
    assert_eq!(cpu.run(cycles, &mut mem), cycles);
    assert_eq!(cpu.a, 0x73, "A reg");
    assert_eq!(cpu.c, true, "c reg");
}

#[test]
fn test_adc_1() {
    // 0 + 0 = 0
    let mut cpu = CPU::new();
    let mut mem: [u8; 0x10000] = [0; 0x10000];
    mem[0xFFFC] = CPU::ADC_IM;
    mem[0xFFFD] = 0x00;
    cpu.c = false;
    cpu.a = 0;
    let cycles: u32 = 2;
    assert_eq!(cpu.run(cycles, &mut mem), cycles);
    assert_eq!(cpu.a, 0, "A reg");
    assert_eq!(cpu.c, false, "c reg");
    assert_eq!(cpu.n, false, "n reg");
    assert_eq!(cpu.v, false, "v reg");
    assert_eq!(cpu.z, true, "z reg");
}

#[test]
fn test_adc_2() {
    // 0 + 0 + c = 1
    let mut cpu = CPU::new();
    let mut mem: [u8; 0x10000] = [0; 0x10000];
    mem[0xFFFC] = CPU::ADC_IM;
    mem[0xFFFD] = 0x00;
    cpu.c = true;
    cpu.a = 0;
    let cycles: u32 = 2;
    assert_eq!(cpu.run(cycles, &mut mem), cycles);
    assert_eq!(cpu.a, 1, "A reg");
    assert_eq!(cpu.c, false, "c reg");
    assert_eq!(cpu.n, false, "n reg");
    assert_eq!(cpu.v, false, "v reg");
    assert_eq!(cpu.z, false, "z reg");
}

#[test]
fn test_adc_3() {
    // pos + pos + c
    let mut cpu = CPU::new();
    let mut mem: [u8; 0x10000] = [0; 0x10000];
    mem[0xFFFC] = CPU::ADC_IM;
    mem[0xFFFD] = 20;
    cpu.c = true;
    cpu.a = 17;
    let cycles: u32 = 2;
    assert_eq!(cpu.run(cycles, &mut mem), cycles);
    assert_eq!(cpu.a, 38, "A reg");
    assert_eq!(cpu.c, false, "c reg");
    assert_eq!(cpu.n, false, "n reg");
    assert_eq!(cpu.v, false, "v reg");
    assert_eq!(cpu.z, false, "z reg");
}

#[test]
fn test_adc_4() {
    // pos + neg
    let mut cpu = CPU::new();
    let mut mem: [u8; 0x10000] = [0; 0x10000];
    mem[0xFFFC] = CPU::ADC_IM;
    mem[0xFFFD] = 0b1110_1111;  // -17
    cpu.c = true;
    cpu.a = 20;
    let cycles: u32 = 2;
    assert_eq!(cpu.run(cycles, &mut mem), cycles);
    assert_eq!(cpu.a, 4, "A reg");
    assert_eq!(cpu.c, true, "c reg");
    assert_eq!(cpu.n, false, "n reg");
    assert_eq!(cpu.v, false, "v reg");
    assert_eq!(cpu.z, false, "z reg");
}

#[test]
fn test_adc_5() {
    // test carry
    let mut cpu = CPU::new();
    let mut mem: [u8; 0x10000] = [0; 0x10000];
    mem[0xFFFC] = CPU::ADC_IM;
    mem[0xFFFD] = 0xff;
    cpu.c = false;
    cpu.a = 1;
    let cycles: u32 = 2;
    assert_eq!(cpu.run(cycles, &mut mem), cycles);
    assert_eq!(cpu.a, 0, "A reg");
    assert_eq!(cpu.c, true, "c reg");
    assert_eq!(cpu.n, false, "n reg");
    assert_eq!(cpu.v, false, "v reg");
    assert_eq!(cpu.z, true, "z reg");
}

#[test]
fn test_adc_6() {
    // test overflow
    let mut cpu = CPU::new();
    let mut mem: [u8; 0x10000] = [0; 0x10000];
    mem[0xFFFC] = CPU::ADC_IM;
    mem[0xFFFD] = 0b1111_1111; // -1
    cpu.c = false;
    cpu.a = 0b1000_0000; // -128
    let cycles: u32 = 2;
    assert_eq!(cpu.run(cycles, &mut mem), cycles);
    assert_eq!(cpu.a, 0b01111111, "A reg");  // 127
    assert_eq!(cpu.c, true, "c reg");
    assert_eq!(cpu.n, false, "n reg");
    assert_eq!(cpu.v, true, "v reg");
    assert_eq!(cpu.z, false, "z reg");
}

#[test]
fn test_adc_7() {
    // test overflow 2
    let mut cpu = CPU::new();
    let mut mem: [u8; 0x10000] = [0; 0x10000];
    mem[0xFFFC] = CPU::ADC_IM;
    mem[0xFFFD] = 0b1111_1111; // -1
    cpu.c = true;
    cpu.a = 0b1000_0000; // -128
    let cycles: u32 = 2;
    assert_eq!(cpu.run(cycles, &mut mem), cycles);
    assert_eq!(cpu.a, 0b1000_0000, "A reg"); // -128
    assert_eq!(cpu.c, true, "c reg");
    assert_eq!(cpu.n, true, "n reg");
    assert_eq!(cpu.v, false, "v reg");
    assert_eq!(cpu.z, false, "z reg");
}

#[test]
fn test_adc_8() {
    // test overflow 2
    let mut cpu = CPU::new();
    let mut mem: [u8; 0x10000] = [0; 0x10000];
    mem[0xFFFC] = CPU::ADC_IM;
    mem[0xFFFD] = 0x01; // 1
    cpu.c = false;
    cpu.a = 0b0111_1111; // 127
    let cycles: u32 = 2;
    assert_eq!(cpu.run(cycles, &mut mem), cycles);
    assert_eq!(cpu.a, 0b1000_0000, "A reg"); // -128
    assert_eq!(cpu.c, false, "c reg");
    assert_eq!(cpu.n, true, "n reg");
    assert_eq!(cpu.v, true, "v reg");
    assert_eq!(cpu.z, false, "z reg");
}

#[test]
fn test_adc_9() {
    let mut cpu = CPU::new();
    let mut mem: [u8; 0x10000] = [0; 0x10000];
    mem[0xFFFC] = CPU::ADC_IM;
    mem[0xFFFD] = 0b00000001; // 1
    cpu.c = false;
    cpu.a = 0b0111_1111; // 127
    let cycles: u32 = 2;
    assert_eq!(cpu.run(cycles, &mut mem), cycles);
    assert_eq!(cpu.a, 0b1000_0000, "A reg"); // 128
    assert_eq!(cpu.c, false, "c reg");
    assert_eq!(cpu.n, true, "n reg");
    assert_eq!(cpu.v, true, "v reg");
    assert_eq!(cpu.z, false, "z reg");
}
