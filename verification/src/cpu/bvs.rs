use vstd::prelude::*;
use crate::cpu::CPU;
use crate::cpu::model::{bvs_spec, is_bvs};

verus! {

impl CPU {
    pub const BVS: u8 = 0x70;

    /// BVS: branch when the overflow flag is set. When `inst` is one of this
    /// instruction's opcodes the handler runs it and returns true; any other
    /// byte leaves everything unchanged and returns false. [`bvs_spec`] states
    /// the exact effect and the cycles charged beyond the opcode fetch.
    pub fn run_bvs(&mut self, cycles: &mut u32, mem: &mut [u8; 0x10000], inst: u8) -> (r: bool)
        requires
            *old(cycles) <= u32::MAX - 7,
        ensures
            r == is_bvs(inst),
            !is_bvs(inst) ==> *final(self) == *old(self) && final(mem)@ == old(mem)@
                && *final(cycles) == *old(cycles),
            is_bvs(inst) ==> ({
                let (c2, m2, k) = bvs_spec(*old(self), old(mem)@, inst);
                *final(self) == c2 && final(mem)@ == m2 && *final(cycles) == *old(cycles) + k
            }),
    {
        if inst == CPU::BVS {
            let cond = self.v;
            self.take_branch(cycles, mem, cond);
            true
        } else {
            false
        }
    }
}

} // verus!
