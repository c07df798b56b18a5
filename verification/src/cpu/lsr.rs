use vstd::prelude::*;
use crate::cpu::{CPU, read_byte, write_byte};
use crate::cpu::model::{Mode, is_lsr, lsr_spec};

verus! {

impl CPU {
    pub const LSR_A: u8 = 0x4A;
    pub const LSR_ZP: u8 = 0x46;
    pub const LSR_ZPX: u8 = 0x56;
    pub const LSR_ABS: u8 = 0x4E;
    pub const LSR_ABSX: u8 = 0x5E;

    /// LSR: shift right one bit; the bit shifted out becomes the carry. When
    /// `inst` is one of this instruction's opcodes the handler runs it and
    /// returns true; any other byte leaves everything unchanged and returns
    /// false. [`lsr_spec`] states the exact effect and the cycles charged
    /// beyond the opcode fetch.
    pub fn run_lsr(&mut self, cycles: &mut u32, mem: &mut [u8; 0x10000], inst: u8) -> (r: bool)
        requires
            *old(cycles) <= u32::MAX - 7,
        ensures
            r == is_lsr(inst),
            !is_lsr(inst) ==> *final(self) == *old(self) && final(mem)@ == old(mem)@
                && *final(cycles) == *old(cycles),
            is_lsr(inst) ==> ({
                let (c2, m2, k) = lsr_spec(*old(self), old(mem)@, inst);
                *final(self) == c2 && final(mem)@ == m2 && *final(cycles) == *old(cycles) + k
            }),
    {
        if inst == CPU::LSR_A {
            *cycles += 1;  // the shift itself burns a cycle
            self.c = self.a % 2 == 1;
            let r = self.a / 2;
            self.a = r;
            self.set_flags(r);
            return true;
        }
        let mode = if inst == CPU::LSR_ZP {
            Mode::ZeroPage
        } else if inst == CPU::LSR_ZPX {
            Mode::ZeroPageX
        } else if inst == CPU::LSR_ABS {
            Mode::Absolute
        } else if inst == CPU::LSR_ABSX {
            Mode::AbsoluteX
        } else {
            return false;
        };
        let addr = self.rmw_target(cycles, mem, mode);
        let v = read_byte(cycles, mem, addr);
        *cycles += 1;  // the modify step burns a cycle
        self.c = v % 2 == 1;
        let r = v / 2;
        write_byte(cycles, mem, addr, r);
        self.set_flags(r);
        true
    }
}

} // verus!
