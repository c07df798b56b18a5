use mos6502::cpu::CPU;

#[test]
fn test_dec_1() {
    let mut cpu = CPU::new();
    let mut mem: [u8; 0x10000] = [0; 0x10000];
    mem[0xFFFC] = CPU::DEC_ZP;
    mem[0xFFFD] = 0x54;
    mem[0x0054] = 54;
    let cycles: u32 = 5;
    assert_eq!(cpu.run(cycles, &mut mem), cycles);
    assert_eq!(mem[0x0054], 53);
    assert_eq!(cpu.n, false);
    assert_eq!(cpu.z, false);
}

#[test]
fn test_dec_2() {
    let mut cpu = CPU::new();
    let mut mem: [u8; 0x10000] = [0; 0x10000];
    mem[0xFFFC] = CPU::DEC_ZP;
    mem[0xFFFD] = 0x54;
    mem[0x0054] = 0;
    let cycles: u32 = 5;
    assert_eq!(cpu.run(cycles, &mut mem), cycles);
    assert_eq!(mem[0x0054], 0xff);
    assert_eq!(cpu.n, true);
    assert_eq!(cpu.z, false);
}

#[test]
fn test_dec_3() {
    let mut cpu = CPU::new();
    let mut mem: [u8; 0x10000] = [0; 0x10000];
    mem[0xFFFC] = CPU::DEC_ZP;
    mem[0xFFFD] = 0x54;
    mem[0x0054] = 1;
    let cycles: u32 = 5;
    assert_eq!(cpu.run(cycles, &mut mem), cycles);
    assert_eq!(mem[0x0054], 0);
    assert_eq!(cpu.n, false);
    assert_eq!(cpu.z, true);
}

#[test]
fn test_dec_4() {
    let mut cpu = CPU::new();
    let mut mem: [u8; 0x10000] = [0; 0x10000];
    mem[0xFFFC] = CPU::DEC_ZPX;
    mem[0xFFFD] = 0x50;
    mem[0x0054] = 8;
    cpu.x = 4;
    let cycles: u32 = 6;
    assert_eq!(cpu.run(cycles, &mut mem), cycles);
    assert_eq!(mem[0x0054], 7);
}

#[test]
fn test_dec_5() {
    let mut cpu = CPU::new();
    let mut mem: [u8; 0x10000] = [0; 0x10000];
    mem[0xFFFC] = CPU::DEC_ABS;
    mem[0xFFFD] = 0x50;
    mem[0xFFFE] = 0x40;
    mem[0x4050] = 8;
    let cycles: u32 = 6;
    assert_eq!(cpu.run(cycles, &mut mem), cycles);
    assert_eq!(mem[0x4050], 7);
}

#[test]
fn test_dec_6() {
    let mut cpu = CPU::new();
    let mut mem: [u8; 0x10000] = [0; 0x10000];
    mem[0xFFFC] = CPU::DEC_ABSX;
    mem[0xFFFD] = 0x50;
    mem[0xFFFE] = 0x40;
    mem[0x4054] = 8;
    cpu.x = 4;
    let cycles: u32 = 7;
    assert_eq!(cpu.run(cycles, &mut mem), cycles);
    assert_eq!(mem[0x4054], 7);
}
