use vstd::prelude::*;
use crate::cpu::CPU;
use crate::cpu::model::{Mode, cpx_spec, is_cpx};

verus! {

impl CPU {
    pub const CPX_IM: u8 = 0xE0;
    pub const CPX_ZP: u8 = 0xE4;
    pub const CPX_ABS: u8 = 0xEC;

    /// CPX: compare the X register with the operand; the register itself is not
    /// changed. When `inst` is one of this instruction's opcodes the handler
    /// runs it and returns true; any other byte leaves everything unchanged and
    /// returns false. [`cpx_spec`] states the exact effect and the cycles
    /// charged beyond the opcode fetch.
    pub fn run_cpx(&mut self, cycles: &mut u32, mem: &mut [u8; 0x10000], inst: u8) -> (r: bool)
        requires
            *old(cycles) <= u32::MAX - 7,
        ensures
            r == is_cpx(inst),
            !is_cpx(inst) ==> *final(self) == *old(self) && final(mem)@ == old(mem)@
                && *final(cycles) == *old(cycles),
            is_cpx(inst) ==> ({
                let (c2, m2, k) = cpx_spec(*old(self), old(mem)@, inst);
                *final(self) == c2 && final(mem)@ == m2 && *final(cycles) == *old(cycles) + k
            }),
    {
        let mode = if inst == CPU::CPX_IM {
            Mode::Immediate
        } else if inst == CPU::CPX_ZP {
            Mode::ZeroPage
        } else if inst == CPU::CPX_ABS {
            Mode::Absolute
        } else {
            return false;
        };
        let v = self.fetch_operand(cycles, mem, mode);
        self.compare(self.x, v);
        true
    }
}

} // verus!
