use mos6502::cpu::CPU;

#[test]
fn test_txs() {
    let mut cpu = CPU::new();
    let mut mem: [u8; 0x10000] = [0; 0x10000];
    mem[0xFFFC] = CPU::TXS;
    cpu.sp = 5;
    cpu.x = 0x45;
    let cycles: u32 = 2;
    assert_eq!(cpu.run(cycles, &mut mem), cycles);
    assert_eq!(cpu.sp, 0x45);
}
