use vstd::prelude::*;
use crate::cpu::{CPU, read_byte};
use crate::cpu::model::{is_jmp, jmp_spec};

verus! {

impl CPU {
    pub const JMP_ABS: u8 = 0x4C;
    pub const JMP_IND: u8 = 0x6C;

    /// JMP: load the program counter, directly or through a 16-bit pointer.
    /// When `inst` is this instruction's opcode the handler runs it and returns
    /// true; any other byte leaves everything unchanged and returns false.
    /// [`jmp_spec`] states the exact effect and the cycles charged beyond the
    /// opcode fetch.
    pub fn run_jmp(&mut self, cycles: &mut u32, mem: &mut [u8; 0x10000], inst: u8) -> (r: bool)
        requires
            *old(cycles) <= u32::MAX - 7,
        ensures
            r == is_jmp(inst),
            !is_jmp(inst) ==> *final(self) == *old(self) && final(mem)@ == old(mem)@
                && *final(cycles) == *old(cycles),
            is_jmp(inst) ==> ({
                let (c2, m2, k) = jmp_spec(*old(self), old(mem)@, inst);
                *final(self) == c2 && final(mem)@ == m2 && *final(cycles) == *old(cycles) + k
            }),
    {
        if inst == CPU::JMP_ABS {
            let lsb = self.read_next_byte(cycles, mem);
            let msb = self.read_next_byte(cycles, mem);
            self.pc = (msb as u16) * 0x100 + (lsb as u16);
            true
        } else if inst == CPU::JMP_IND {
            let lsb = self.read_next_byte(cycles, mem);
            let msb = self.read_next_byte(cycles, mem);
            let ptr = (msb as u16) * 0x100 + (lsb as u16);
            let lo = read_byte(cycles, mem, ptr);
            let hi = read_byte(cycles, mem, ptr.wrapping_add(1));
            self.pc = (hi as u16) * 0x100 + (lo as u16);
            true
        } else {
            false
        }
    }
}

} // verus!
