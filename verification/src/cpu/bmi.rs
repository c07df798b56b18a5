use vstd::prelude::*;
use crate::cpu::CPU;
use crate::cpu::model::{bmi_spec, is_bmi};

verus! {

impl CPU {
    pub const BMI: u8 = 0x30;

    /// BMI: branch when the negative flag is set. When `inst` is one of this
    /// instruction's opcodes the handler runs it and returns true; any other
    /// byte leaves everything unchanged and returns false. [`bmi_spec`] states
    /// the exact effect and the cycles charged beyond the opcode fetch.
    pub fn run_bmi(&mut self, cycles: &mut u32, mem: &mut [u8; 0x10000], inst: u8) -> (r: bool)
        requires
            *old(cycles) <= u32::MAX - 7,
        ensures
            r == is_bmi(inst),
            !is_bmi(inst) ==> *final(self) == *old(self) && final(mem)@ == old(mem)@
                && *final(cycles) == *old(cycles),
            is_bmi(inst) ==> ({
                let (c2, m2, k) = bmi_spec(*old(self), old(mem)@, inst);
                *final(self) == c2 && final(mem)@ == m2 && *final(cycles) == *old(cycles) + k
            }),
    {
        if inst == CPU::BMI {
            let cond = self.n;
            self.take_branch(cycles, mem, cond);
            true
        } else {
            false
        }
    }
}

} // verus!
