use mos6502::cpu::CPU;

#[test]
fn test_dex() {
    let mut cpu = CPU::new();
    let mut mem: [u8; 0x10000] = [0; 0x10000];
    mem[0xFFFC] = CPU::DEX;
    cpu.x = 0x42;
    let cycles: u32 = 2;
    assert_eq!(cpu.run(cycles, &mut mem), cycles);
    assert_eq!(cpu.x, 0x41);
}
