use vstd::prelude::*;
use crate::cpu::CPU;
use crate::cpu::model::{clv_spec, is_clv};

verus! {

impl CPU {
    pub const CLV: u8 = 0xB8;

    /// CLV: clear the overflow flag. When `inst` is one of this instruction's
    /// opcodes the handler runs it and returns true; any other byte leaves
    /// everything unchanged and returns false. [`clv_spec`] states the exact
    /// effect and the cycles charged beyond the opcode fetch.
    pub fn run_clv(&mut self, cycles: &mut u32, mem: &mut [u8; 0x10000], inst: u8) -> (r: bool)
        requires
            *old(cycles) <= u32::MAX - 7,
        ensures
            r == is_clv(inst),
            !is_clv(inst) ==> *final(self) == *old(self) && final(mem)@ == old(mem)@
                && *final(cycles) == *old(cycles),
            is_clv(inst) ==> ({
                let (c2, m2, k) = clv_spec(*old(self), old(mem)@, inst);
                *final(self) == c2 && final(mem)@ == m2 && *final(cycles) == *old(cycles) + k
            }),
    {
        if inst == CPU::CLV {
            *cycles += 1;  // internal operation cycle
            self.v = false;
            true
        } else {
            false
        }
    }
}

} // verus!
