use vstd::prelude::*;
use crate::cpu::CPU;
use crate::cpu::model::{is_sed, sed_spec};

verus! {

impl CPU {
    pub const SED: u8 = 0xF8;

    /// SED: set the decimal-mode flag. When `inst` is one of this instruction's
    /// opcodes the handler runs it and returns true; any other byte leaves
    /// everything unchanged and returns false. [`sed_spec`] states the exact
    /// effect and the cycles charged beyond the opcode fetch.
    pub fn run_sed(&mut self, cycles: &mut u32, mem: &mut [u8; 0x10000], inst: u8) -> (r: bool)
        requires
            *old(cycles) <= u32::MAX - 7,
        ensures
            r == is_sed(inst),
            !is_sed(inst) ==> *final(self) == *old(self) && final(mem)@ == old(mem)@
                && *final(cycles) == *old(cycles),
            is_sed(inst) ==> ({
                let (c2, m2, k) = sed_spec(*old(self), old(mem)@, inst);
                *final(self) == c2 && final(mem)@ == m2 && *final(cycles) == *old(cycles) + k
            }),
    {
        if inst == CPU::SED {
            *cycles += 1;  // internal operation cycle
            self.d = true;
            true
        } else {
            false
        }
    }
}

} // verus!
