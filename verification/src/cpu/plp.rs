use vstd::prelude::*;
use crate::cpu::CPU;
use crate::cpu::model::{is_plp, plp_spec, unpack_status};

verus! {

impl CPU {
    pub const PLP: u8 = 0x28;

    /// PLP: pull the status byte and restore the flags from it; the break flag
    /// is not restored. When `inst` is this instruction's opcode the handler
    /// runs it and returns true; any other byte leaves everything unchanged and
    /// returns false. [`plp_spec`] states the exact effect and the cycles
    /// charged beyond the opcode fetch.
    pub fn run_plp(&mut self, cycles: &mut u32, mem: &mut [u8; 0x10000], inst: u8) -> (r: bool)
        requires
            *old(cycles) <= u32::MAX - 7,
        ensures
            r == is_plp(inst),
            !is_plp(inst) ==> *final(self) == *old(self) && final(mem)@ == old(mem)@
                && *final(cycles) == *old(cycles),
            is_plp(inst) ==> ({
                let (c2, m2, k) = plp_spec(*old(self), old(mem)@, inst);
                *final(self) == c2 && final(mem)@ == m2 && *final(cycles) == *old(cycles) + k
            }),
    {
        if inst == CPU::PLP {
            let p = self.pop_from_stack(cycles, mem);
            self.restore_status(p);
            *cycles += 2;  // internal cycles around the pull
            true
        } else {
            false
        }
    }

    /// Restore the flags from a pulled status byte, as PLP and RTI do;
    /// the break flag is not a stored flag and stays as it was.
    pub(crate) fn restore_status(&mut self, p: u8)
        ensures
            *final(self) == unpack_status(*old(self), p),
    {
        self.c = p % 2 == 1;
        self.z = (p / 2) % 2 == 1;
        self.i = (p / 4) % 2 == 1;
        self.d = (p / 8) % 2 == 1;
        self.v = (p / 64) % 2 == 1;
        self.n = (p / 128) % 2 == 1;
    }
}

} // verus!
