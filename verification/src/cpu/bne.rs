use vstd::prelude::*;
use crate::cpu::CPU;
use crate::cpu::model::{bne_spec, is_bne};

verus! {

impl CPU {
    pub const BNE: u8 = 0xD0;

    /// BNE: branch when the zero flag is clear. When `inst` is one of this
    /// instruction's opcodes the handler runs it and returns true; any other
    /// byte leaves everything unchanged and returns false. [`bne_spec`] states
    /// the exact effect and the cycles charged beyond the opcode fetch.
    pub fn run_bne(&mut self, cycles: &mut u32, mem: &mut [u8; 0x10000], inst: u8) -> (r: bool)
        requires
            *old(cycles) <= u32::MAX - 7,
        ensures
            r == is_bne(inst),
            !is_bne(inst) ==> *final(self) == *old(self) && final(mem)@ == old(mem)@
                && *final(cycles) == *old(cycles),
            is_bne(inst) ==> ({
                let (c2, m2, k) = bne_spec(*old(self), old(mem)@, inst);
                *final(self) == c2 && final(mem)@ == m2 && *final(cycles) == *old(cycles) + k
            }),
    {
        if inst == CPU::BNE {
            let cond = !self.z;
            self.take_branch(cycles, mem, cond);
            true
        } else {
            false
        }
    }
}

} // verus!
