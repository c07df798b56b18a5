use vstd::prelude::*;
use crate::cpu::CPU;
use crate::cpu::model::{is_txa, txa_spec};

verus! {

impl CPU {
    pub const TXA: u8 = 0x8A;

    /// TXA: transfer X to the accumulator. When `inst` is one of this
    /// instruction's opcodes the handler runs it and returns true; any other
    /// byte leaves everything unchanged and returns false. [`txa_spec`] states
    /// the exact effect and the cycles charged beyond the opcode fetch.
    pub fn run_txa(&mut self, cycles: &mut u32, mem: &mut [u8; 0x10000], inst: u8) -> (r: bool)
        requires
            *old(cycles) <= u32::MAX - 7,
        ensures
            r == is_txa(inst),
            !is_txa(inst) ==> *final(self) == *old(self) && final(mem)@ == old(mem)@
                && *final(cycles) == *old(cycles),
            is_txa(inst) ==> ({
                let (c2, m2, k) = txa_spec(*old(self), old(mem)@, inst);
                *final(self) == c2 && final(mem)@ == m2 && *final(cycles) == *old(cycles) + k
            }),
    {
        if inst == CPU::TXA {
            *cycles += 1;  // internal operation cycle
            self.a = self.x;
            let r = self.a;
            self.set_flags(r);
            true
        } else {
            false
        }
    }
}

} // verus!
