use mos6502::cpu::CPU;

#[test]
fn test_stx_zp() {
    let mut cpu = CPU::new();
    let mut mem: [u8; 0x10000] = [0; 0x10000];
    mem[0xFFFC] = CPU::STX_ZP;
    mem[0xFFFD] = 0x25;
    cpu.x = 62;
    let cycles: u32 = 3;
    assert_eq!(cpu.run(cycles, &mut mem), cycles);
    assert_eq!(mem[0x0025], 62);
}

#[test]
fn test_stx_zpy() {
    let mut cpu = CPU::new();
    let mut mem: [u8; 0x10000] = [0; 0x10000];
    mem[0xFFFC] = CPU::STX_ZPY;
    mem[0xFFFD] = 0x25;
    cpu.x = 62;
    cpu.y = 2;
    let cycles: u32 = 4;
    assert_eq!(cpu.run(cycles, &mut mem), cycles);
    assert_eq!(mem[0x0027], 62);
}

#[test]
fn test_stx_abs() {
    let mut cpu = CPU::new();
    let mut mem: [u8; 0x10000] = [0; 0x10000];
    mem[0xFFFC] = CPU::STX_ABS;
    mem[0xFFFD] = 0x25;
    mem[0xFFFE] = 0x48;
    cpu.x = 62;
    let cycles: u32 = 4;
    assert_eq!(cpu.run(cycles, &mut mem), cycles);
    assert_eq!(mem[0x4825], 62);
}
