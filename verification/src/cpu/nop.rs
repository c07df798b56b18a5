use vstd::prelude::*;
use crate::cpu::CPU;
use crate::cpu::model::{is_nop, nop_spec};

verus! {

impl CPU {
    pub const NOP: u8 = 0xEA;

    /// NOP: do nothing for one cycle. When `inst` is one of this instruction's
    /// opcodes the handler runs it and returns true; any other byte leaves
    /// everything unchanged and returns false. [`nop_spec`] states the exact
    /// effect and the cycles charged beyond the opcode fetch.
    pub fn run_nop(&mut self, cycles: &mut u32, mem: &mut [u8; 0x10000], inst: u8) -> (r: bool)
        requires
            *old(cycles) <= u32::MAX - 7,
        ensures
            r == is_nop(inst),
            !is_nop(inst) ==> *final(self) == *old(self) && final(mem)@ == old(mem)@
                && *final(cycles) == *old(cycles),
            is_nop(inst) ==> ({
                let (c2, m2, k) = nop_spec(*old(self), old(mem)@, inst);
                *final(self) == c2 && final(mem)@ == m2 && *final(cycles) == *old(cycles) + k
            }),
    {
        if inst == CPU::NOP {
            *cycles += 1;  // internal operation cycle
            true
        } else {
            false
        }
    }
}

} // verus!
