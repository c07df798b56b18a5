use vstd::prelude::*;
use crate::cpu::CPU;
use crate::cpu::model::{bcs_spec, is_bcs};

verus! {

impl CPU {
    pub const BCS: u8 = 0xB0;

    /// BCS: branch when the carry flag is set. When `inst` is one of this
    /// instruction's opcodes the handler runs it and returns true; any other
    /// byte leaves everything unchanged and returns false. [`bcs_spec`] states
    /// the exact effect and the cycles charged beyond the opcode fetch.
    pub fn run_bcs(&mut self, cycles: &mut u32, mem: &mut [u8; 0x10000], inst: u8) -> (r: bool)
        requires
            *old(cycles) <= u32::MAX - 7,
        ensures
            r == is_bcs(inst),
            !is_bcs(inst) ==> *final(self) == *old(self) && final(mem)@ == old(mem)@
                && *final(cycles) == *old(cycles),
            is_bcs(inst) ==> ({
                let (c2, m2, k) = bcs_spec(*old(self), old(mem)@, inst);
                *final(self) == c2 && final(mem)@ == m2 && *final(cycles) == *old(cycles) + k
            }),
    {
        if inst == CPU::BCS {
            let cond = self.c;
            self.take_branch(cycles, mem, cond);
            true
        } else {
            false
        }
    }
}

} // verus!
