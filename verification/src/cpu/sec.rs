use vstd::prelude::*;
use crate::cpu::CPU;
use crate::cpu::model::{is_sec, sec_spec};

verus! {

impl CPU {
    pub const SEC: u8 = 0x38;

    /// SEC: set the carry flag. When `inst` is one of this instruction's
    /// opcodes the handler runs it and returns true; any other byte leaves
    /// everything unchanged and returns false. [`sec_spec`] states the exact
    /// effect and the cycles charged beyond the opcode fetch.
    pub fn run_sec(&mut self, cycles: &mut u32, mem: &mut [u8; 0x10000], inst: u8) -> (r: bool)
        requires
            *old(cycles) <= u32::MAX - 7,
        ensures
            r == is_sec(inst),
            !is_sec(inst) ==> *final(self) == *old(self) && final(mem)@ == old(mem)@
                && *final(cycles) == *old(cycles),
            is_sec(inst) ==> ({
                let (c2, m2, k) = sec_spec(*old(self), old(mem)@, inst);
                *final(self) == c2 && final(mem)@ == m2 && *final(cycles) == *old(cycles) + k
            }),
    {
        if inst == CPU::SEC {
            *cycles += 1;  // internal operation cycle
            self.c = true;
            true
        } else {
            false
        }
    }
}

} // verus!
