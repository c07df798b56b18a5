use vstd::prelude::*;
use crate::cpu::CPU;
use crate::cpu::model::{beq_spec, is_beq};

verus! {

impl CPU {
    pub const BEQ: u8 = 0xF0;

    /// BEQ: branch when the zero flag is set. When `inst` is one of this
    /// instruction's opcodes the handler runs it and returns true; any other
    /// byte leaves everything unchanged and returns false. [`beq_spec`] states
    /// the exact effect and the cycles charged beyond the opcode fetch.
    pub fn run_beq(&mut self, cycles: &mut u32, mem: &mut [u8; 0x10000], inst: u8) -> (r: bool)
        requires
            *old(cycles) <= u32::MAX - 7,
        ensures
            r == is_beq(inst),
            !is_beq(inst) ==> *final(self) == *old(self) && final(mem)@ == old(mem)@
                && *final(cycles) == *old(cycles),
            is_beq(inst) ==> ({
                let (c2, m2, k) = beq_spec(*old(self), old(mem)@, inst);
                *final(self) == c2 && final(mem)@ == m2 && *final(cycles) == *old(cycles) + k
            }),
    {
        if inst == CPU::BEQ {
            let cond = self.z;
            self.take_branch(cycles, mem, cond);
            true
        } else {
            false
        }
    }
}

} // verus!
