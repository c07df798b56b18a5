use vstd::prelude::*;
use crate::cpu::CPU;
use crate::cpu::model::{dey_spec, is_dey};

verus! {

impl CPU {
    pub const DEY: u8 = 0x88;

    /// DEY: decrement Y, wrapping at the byte boundary. When `inst` is one of
    /// this instruction's opcodes the handler runs it and returns true; any
    /// other byte leaves everything unchanged and returns false. [`dey_spec`]
    /// states the exact effect and the cycles charged beyond the opcode fetch.
    pub fn run_dey(&mut self, cycles: &mut u32, mem: &mut [u8; 0x10000], inst: u8) -> (r: bool)
        requires
            *old(cycles) <= u32::MAX - 7,
        ensures
            r == is_dey(inst),
            !is_dey(inst) ==> *final(self) == *old(self) && final(mem)@ == old(mem)@
                && *final(cycles) == *old(cycles),
            is_dey(inst) ==> ({
                let (c2, m2, k) = dey_spec(*old(self), old(mem)@, inst);
                *final(self) == c2 && final(mem)@ == m2 && *final(cycles) == *old(cycles) + k
            }),
    {
        if inst == CPU::DEY {
            *cycles += 1;  // internal operation cycle
            self.y = self.y.wrapping_sub(1);
            let r = self.y;
            self.set_flags(r);
            true
        } else {
            false
        }
    }
}

} // verus!
