use vstd::prelude::*;
use crate::cpu::CPU;
use crate::cpu::model::{is_pla, pla_spec};

verus! {

impl CPU {
    pub const PLA: u8 = 0x68;

    /// PLA: pull the accumulator from the stack, setting the negative and zero
    /// flags. When `inst` is this instruction's opcode the handler runs it and
    /// returns true; any other byte leaves everything unchanged and returns
    /// false. [`pla_spec`] states the exact effect and the cycles charged
    /// beyond the opcode fetch.
    pub fn run_pla(&mut self, cycles: &mut u32, mem: &mut [u8; 0x10000], inst: u8) -> (r: bool)
        requires
            *old(cycles) <= u32::MAX - 7,
        ensures
            r == is_pla(inst),
            !is_pla(inst) ==> *final(self) == *old(self) && final(mem)@ == old(mem)@
                && *final(cycles) == *old(cycles),
            is_pla(inst) ==> ({
                let (c2, m2, k) = pla_spec(*old(self), old(mem)@, inst);
                *final(self) == c2 && final(mem)@ == m2 && *final(cycles) == *old(cycles) + k
            }),
    {
        if inst == CPU::PLA {
            let v = self.pop_from_stack(cycles, mem);
            self.a = v;
            *cycles += 2;  // internal cycles around the pull
            self.set_flags(v);
            true
        } else {
            false
        }
    }
}

} // verus!
