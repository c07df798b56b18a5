use vstd::prelude::*;
use crate::cpu::CPU;
use crate::cpu::model::{is_pha, pha_spec};

verus! {

impl CPU {
    pub const PHA: u8 = 0x48;

    /// PHA: push the accumulator onto the stack. When `inst` is this
    /// instruction's opcode the handler runs it and returns true; any other
    /// byte leaves everything unchanged and returns false. [`pha_spec`] states
    /// the exact effect and the cycles charged beyond the opcode fetch.
    pub fn run_pha(&mut self, cycles: &mut u32, mem: &mut [u8; 0x10000], inst: u8) -> (r: bool)
        requires
            *old(cycles) <= u32::MAX - 7,
        ensures
            r == is_pha(inst),
            !is_pha(inst) ==> *final(self) == *old(self) && final(mem)@ == old(mem)@
                && *final(cycles) == *old(cycles),
            is_pha(inst) ==> ({
                let (c2, m2, k) = pha_spec(*old(self), old(mem)@, inst);
                *final(self) == c2 && final(mem)@ == m2 && *final(cycles) == *old(cycles) + k
            }),
    {
        if inst == CPU::PHA {
            let v = self.a;
            self.push_to_stack(cycles, mem, v);
            *cycles += 1;  // internal cycle after the push
            true
        } else {
            false
        }
    }
}

} // verus!
