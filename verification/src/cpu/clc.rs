use vstd::prelude::*;
use crate::cpu::CPU;
use crate::cpu::model::{clc_spec, is_clc};

verus! {

impl CPU {
    pub const CLC: u8 = 0x18;

    /// CLC: clear the carry flag. When `inst` is one of this instruction's
    /// opcodes the handler runs it and returns true; any other byte leaves
    /// everything unchanged and returns false. [`clc_spec`] states the exact
    /// effect and the cycles charged beyond the opcode fetch.
    pub fn run_clc(&mut self, cycles: &mut u32, mem: &mut [u8; 0x10000], inst: u8) -> (r: bool)
        requires
            *old(cycles) <= u32::MAX - 7,
        ensures
            r == is_clc(inst),
            !is_clc(inst) ==> *final(self) == *old(self) && final(mem)@ == old(mem)@
                && *final(cycles) == *old(cycles),
            is_clc(inst) ==> ({
                let (c2, m2, k) = clc_spec(*old(self), old(mem)@, inst);
                *final(self) == c2 && final(mem)@ == m2 && *final(cycles) == *old(cycles) + k
            }),
    {
        if inst == CPU::CLC {
            *cycles += 1;  // internal operation cycle
            self.c = false;
            true
        } else {
            false
        }
    }
}

} // verus!
