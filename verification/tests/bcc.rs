use mos6502::cpu::CPU;

#[test]
fn test_bcc_1() {
    let mut cpu = CPU::new();
    let mut mem: [u8; 0x10000] = [0; 0x10000];
    mem[0xFFFC] = CPU::BCC;
    mem[0xFFFD] = 0x01;
    cpu.c = true;
    let cycles: u32 = 2;
    assert_eq!(cpu.run(cycles, &mut mem), cycles);
    assert_eq!(cpu.pc, 0xFFFE);
}

#[test]
fn test_bcc_2() {
    let mut cpu = CPU::new();
    let mut mem: [u8; 0x10000] = [0; 0x10000];
    mem[0xFFFC] = CPU::BCC;
    mem[0xFFFD] = 0x01;
    cpu.c = false;
    let cycles: u32 = 3;
    assert_eq!(cpu.run(cycles, &mut mem), cycles);
    assert_eq!(cpu.pc, 0xFFFF);
}

#[test]
fn test_bcc_3() {
    let mut cpu = CPU::new();
    let mut mem: [u8; 0x10000] = [0; 0x10000];
    mem[0xFFFC] = CPU::BCC;
    mem[0xFFFD] = 0xFF;
    cpu.c = false;
    let cycles: u32 = 3;
    assert_eq!(cpu.run(cycles, &mut mem), cycles);
    assert_eq!(cpu.pc, 0xFFFD);
}

#[test]
fn test_bcc_4() {
    let mut cpu = CPU::new();
    let mut mem: [u8; 0x10000] = [0; 0x10000];
    mem[0xFF0C] = CPU::BCC;
    mem[0xFF0D] = 0x80;
    cpu.pc = 0xFF0C;
    cpu.c = false;
    let cycles: u32 = 4;
    assert_eq!(cpu.run(cycles, &mut mem), cycles);
    assert_eq!(cpu.pc, 0xFE8E);
}
