use vstd::prelude::*;
use crate::cpu::CPU;
use crate::cpu::model::{Mode, cpy_spec, is_cpy};

verus! {

impl CPU {
    pub const CPY_IM: u8 = 0xC0;
    pub const CPY_ZP: u8 = 0xC4;
    pub const CPY_ABS: u8 = 0xCC;

    /// CPY: compare the Y register with the operand; the register itself is not
    /// changed. When `inst` is one of this instruction's opcodes the handler
    /// runs it and returns true; any other byte leaves everything unchanged and
    /// returns false. [`cpy_spec`] states the exact effect and the cycles
    /// charged beyond the opcode fetch.
    pub fn run_cpy(&mut self, cycles: &mut u32, mem: &mut [u8; 0x10000], inst: u8) -> (r: bool)
        requires
            *old(cycles) <= u32::MAX - 7,
        ensures
            r == is_cpy(inst),
            !is_cpy(inst) ==> *final(self) == *old(self) && final(mem)@ == old(mem)@
                && *final(cycles) == *old(cycles),
            is_cpy(inst) ==> ({
                let (c2, m2, k) = cpy_spec(*old(self), old(mem)@, inst);
                *final(self) == c2 && final(mem)@ == m2 && *final(cycles) == *old(cycles) + k
            }),
    {
        let mode = if inst == CPU::CPY_IM {
            Mode::Immediate
        } else if inst == CPU::CPY_ZP {
            Mode::ZeroPage
        } else if inst == CPU::CPY_ABS {
            Mode::Absolute
        } else {
            return false;
        };
        let v = self.fetch_operand(cycles, mem, mode);
        self.compare(self.y, v);
        true
    }
}

} // verus!
