use vstd::prelude::*;
use crate::cpu::CPU;
use crate::cpu::model::{is_tay, tay_spec};

verus! {

impl CPU {
    pub const TAY: u8 = 0xA8;

    /// TAY: transfer the accumulator to Y. When `inst` is one of this
    /// instruction's opcodes the handler runs it and returns true; any other
    /// byte leaves everything unchanged and returns false. [`tay_spec`] states
    /// the exact effect and the cycles charged beyond the opcode fetch.
    pub fn run_tay(&mut self, cycles: &mut u32, mem: &mut [u8; 0x10000], inst: u8) -> (r: bool)
        requires
            *old(cycles) <= u32::MAX - 7,
        ensures
            r == is_tay(inst),
            !is_tay(inst) ==> *final(self) == *old(self) && final(mem)@ == old(mem)@
                && *final(cycles) == *old(cycles),
            is_tay(inst) ==> ({
                let (c2, m2, k) = tay_spec(*old(self), old(mem)@, inst);
                *final(self) == c2 && final(mem)@ == m2 && *final(cycles) == *old(cycles) + k
            }),
    {
        if inst == CPU::TAY {
            *cycles += 1;  // internal operation cycle
            self.y = self.a;
            let r = self.y;
            self.set_flags(r);
            true
        } else {
            false
        }
    }
}

} // verus!
