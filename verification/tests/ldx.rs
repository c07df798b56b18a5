use mos6502::cpu::CPU;

#[test]
fn ldx_test_ldx_im_1() {
    let mut cpu = CPU::new();
    let mut mem: [u8; 0x10000] = [0; 0x10000];
    mem[0xFFFC] = CPU::LDX_IM;
    mem[0xFFFD] = 0x48;
    let cycles: u32 = 2;
    assert_eq!(cpu.run(cycles, &mut mem), cycles);
    assert_eq!(cpu.x, 0x48, "X reg");
    assert_eq!(cpu.n, false, "N flag");
    assert_eq!(cpu.z, false, "Z flag");
}

#[test]
fn ldx_test_ldx_im_2() {
    let mut cpu = CPU::new();
    let mut mem: [u8; 0x10000] = [0; 0x10000];
    mem[0xFFFC] = CPU::LDX_IM;
    mem[0xFFFD] = 0b10000001;
    let cycles: u32 = 2;
    assert_eq!(cpu.run(cycles, &mut mem), cycles);
    assert_eq!(cpu.x, 0b10000001, "X reg");
    assert_eq!(cpu.n, true, "N flag");
    assert_eq!(cpu.z, false, "Z flag");
}

#[test]
fn ldx_test_ldx_im_3() {
    let mut cpu = CPU::new();
    let mut mem: [u8; 0x10000] = [0; 0x10000];
    mem[0xFFFC] = CPU::LDX_IM;
    mem[0xFFFD] = 0b00000000;
    let cycles: u32 = 2;
    assert_eq!(cpu.run(cycles, &mut mem), cycles);
    assert_eq!(cpu.x, 0, "X reg");
    assert_eq!(cpu.n, false, "N flag");
    assert_eq!(cpu.z, true, "Z flag");
}

#[test]
fn ldx_test_ldx_zp_1() {
    let mut cpu = CPU::new();
    let mut mem: [u8; 0x10000] = [0; 0x10000];
    mem[0xFFFC] = CPU::LDX_ZP;
    mem[0xFFFD] = 0x48;
    mem[0x0048] = 0x42;
    let cycles: u32 = 3;
    assert_eq!(cpu.run(cycles, &mut mem), cycles);
    assert_eq!(cpu.x, 0x42, "X reg");
}

#[test]
fn ldx_test_ldx_zpy_1() {
    let mut cpu = CPU::new();
    let mut mem: [u8; 0x10000] = [0; 0x10000];
    mem[0xFFFC] = CPU::LDX_ZPY;
    mem[0xFFFD] = 0x80;
    mem[0x008F] = 0x41;
    let cycles: u32 = 4;
    cpu.y = 0x0f;
    assert_eq!(cpu.run(cycles, &mut mem), cycles);
    assert_eq!(cpu.x, 0x41, "X reg");
}

#[test]
fn ldx_test_ldx_zpy_2() {
    let mut cpu = CPU::new();
    let mut mem: [u8; 0x10000] = [0; 0x10000];
    mem[0xFFFC] = CPU::LDX_ZPY;
    mem[0xFFFD] = 0x80;
    mem[0x007F] = 0x40;
    let cycles: u32 = 4;
    cpu.y = 0xff;
    assert_eq!(cpu.run(cycles, &mut mem), cycles);
    assert_eq!(cpu.x, 0x40, "X reg");
}

#[test]
fn ldx_test_ldx_abs() {
    let mut cpu = CPU::new();
    let mut mem: [u8; 0x10000] = [0; 0x10000];
    mem[0xFFFC] = CPU::LDX_ABS;
    mem[0xFFFD] = 0x80;
    mem[0xFFFE] = 0x54;
    mem[0x5480] = 0x39;
    let cycles: u32 = 4;
    assert_eq!(cpu.run(cycles, &mut mem), cycles);
    assert_eq!(cpu.x, 0x39, "X reg");
}

#[test]
fn ldx_test_ldx_absy_1() {
    let mut cpu = CPU::new();
    let mut mem: [u8; 0x10000] = [0; 0x10000];
    mem[0xFFFC] = CPU::LDX_ABSY;
    mem[0xFFFD] = 0x80;
    mem[0xFFFE] = 0x54;
    mem[0x5483] = 0x39;
    cpu.y = 0x03;
    let cycles: u32 = 4;
    assert_eq!(cpu.run(cycles, &mut mem), cycles);
    assert_eq!(cpu.x, 0x39, "A reg");
}

#[test]
fn ldx_test_ldx_absy_2() {
    let mut cpu = CPU::new();
    let mut mem: [u8; 0x10000] = [0; 0x10000];
    mem[0xFFFC] = CPU::LDX_ABSY;
    mem[0xFFFD] = 0x80;
    mem[0xFFFE] = 0x54;
    mem[0x5523] = 0x38;
    cpu.y = 0xA3;
    let cycles: u32 = 5;
    assert_eq!(cpu.run(cycles, &mut mem), cycles);
    assert_eq!(cpu.x, 0x38, "A reg");
}
