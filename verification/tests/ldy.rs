use mos6502::cpu::CPU;

#[test]
fn ldy_test_ldy_im_1() {
    let mut cpu = CPU::new();
    let mut mem: [u8; 0x10000] = [0; 0x10000];
    mem[0xFFFC] = CPU::LDY_IM;
    mem[0xFFFD] = 0x48;
    let cycles: u32 = 2;
    assert_eq!(cpu.run(cycles, &mut mem), cycles);
    assert_eq!(cpu.y, 0x48, "Y reg");
    assert_eq!(cpu.n, false, "N flag");
    assert_eq!(cpu.z, false, "Z flag");
}

#[test]
fn ldy_test_ldy_im_2() {
    let mut cpu = CPU::new();
    let mut mem: [u8; 0x10000] = [0; 0x10000];
    mem[0xFFFC] = CPU::LDY_IM;
    mem[0xFFFD] = 0b10000001;
    let cycles: u32 = 2;
    assert_eq!(cpu.run(cycles, &mut mem), cycles);
    assert_eq!(cpu.y, 0b10000001, "Y reg");
    assert_eq!(cpu.n, true, "N flag");
    assert_eq!(cpu.z, false, "Z flag");
}

#[test]
fn ldy_test_ldy_im_3() {
    let mut cpu = CPU::new();
    let mut mem: [u8; 0x10000] = [0; 0x10000];
    mem[0xFFFC] = CPU::LDY_IM;
    mem[0xFFFD] = 0b00000000;
    let cycles: u32 = 2;
    assert_eq!(cpu.run(cycles, &mut mem), cycles);
    assert_eq!(cpu.y, 0, "Y reg");
    assert_eq!(cpu.n, false, "N flag");
    assert_eq!(cpu.z, true, "Z flag");
}

#[test]
fn ldy_test_ldy_zp_1() {
    let mut cpu = CPU::new();
    let mut mem: [u8; 0x10000] = [0; 0x10000];
    mem[0xFFFC] = CPU::LDY_ZP;
    mem[0xFFFD] = 0x48;
    mem[0x0048] = 0x42;
    let cycles: u32 = 3;
    assert_eq!(cpu.run(cycles, &mut mem), cycles);
    assert_eq!(cpu.y, 0x42, "Y reg");
}

#[test]
fn ldy_test_ldy_zpx_1() {
    let mut cpu = CPU::new();
    let mut mem: [u8; 0x10000] = [0; 0x10000];
    mem[0xFFFC] = CPU::LDY_ZPX;
    mem[0xFFFD] = 0x80;
    mem[0x008F] = 0x41;
    let cycles: u32 = 4;
    cpu.x = 0x0f;
    assert_eq!(cpu.run(cycles, &mut mem), cycles);
    assert_eq!(cpu.y, 0x41, "Y reg");
}

#[test]
fn ldy_test_ldy_zpx_2() {
    let mut cpu = CPU::new();
    let mut mem: [u8; 0x10000] = [0; 0x10000];
    mem[0xFFFC] = CPU::LDY_ZPX;
    mem[0xFFFD] = 0x80;
    mem[0x007F] = 0x40;
    let cycles: u32 = 4;
    cpu.x = 0xff;
    assert_eq!(cpu.run(cycles, &mut mem), cycles);
    assert_eq!(cpu.y, 0x40, "Y reg");
}

#[test]
fn ldy_test_ldy_abs() {
    let mut cpu = CPU::new();
    let mut mem: [u8; 0x10000] = [0; 0x10000];
    mem[0xFFFC] = CPU::LDY_ABS;
    mem[0xFFFD] = 0x80;
    mem[0xFFFE] = 0x54;
    mem[0x5480] = 0x39;
    let cycles: u32 = 4;
    assert_eq!(cpu.run(cycles, &mut mem), cycles);
    assert_eq!(cpu.y, 0x39, "Y reg");
}

#[test]
fn ldy_test_ldy_absx_1() {
    let mut cpu = CPU::new();
    let mut mem: [u8; 0x10000] = [0; 0x10000];
    mem[0xFFFC] = CPU::LDY_ABSX;
    mem[0xFFFD] = 0x80;
    mem[0xFFFE] = 0x54;
    mem[0x5483] = 0x39;
    cpu.x = 0x03;
    let cycles: u32 = 4;
    assert_eq!(cpu.run(cycles, &mut mem), cycles);
    assert_eq!(cpu.y, 0x39, "Y reg");
}

#[test]
fn ldy_test_ldy_absx_2() {
    let mut cpu = CPU::new();
    let mut mem: [u8; 0x10000] = [0; 0x10000];
    mem[0xFFFC] = CPU::LDY_ABSX;
    mem[0xFFFD] = 0x80;
    mem[0xFFFE] = 0x54;
    mem[0x5523] = 0x38;
    cpu.x = 0xA3;
    let cycles: u32 = 5;
    assert_eq!(cpu.run(cycles, &mut mem), cycles);
    assert_eq!(cpu.y, 0x38, "Y reg");
}
