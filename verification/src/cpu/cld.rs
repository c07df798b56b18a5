use vstd::prelude::*;
use crate::cpu::CPU;
use crate::cpu::model::{cld_spec, is_cld};

verus! {

impl CPU {
    pub const CLD: u8 = 0xD8;

    /// CLD: clear the decimal-mode flag. When `inst` is one of this
    /// instruction's opcodes the handler runs it and returns true; any other
    /// byte leaves everything unchanged and returns false. [`cld_spec`] states
    /// the exact effect and the cycles charged beyond the opcode fetch.
    pub fn run_cld(&mut self, cycles: &mut u32, mem: &mut [u8; 0x10000], inst: u8) -> (r: bool)
        requires
            *old(cycles) <= u32::MAX - 7,
        ensures
            r == is_cld(inst),
            !is_cld(inst) ==> *final(self) == *old(self) && final(mem)@ == old(mem)@
                && *final(cycles) == *old(cycles),
            is_cld(inst) ==> ({
                let (c2, m2, k) = cld_spec(*old(self), old(mem)@, inst);
                *final(self) == c2 && final(mem)@ == m2 && *final(cycles) == *old(cycles) + k
            }),
    {
        if inst == CPU::CLD {
            *cycles += 1;  // internal operation cycle
            self.d = false;
            true
        } else {
            false
        }
    }
}

} // verus!
