use vstd::prelude::*;
use crate::cpu::CPU;
use crate::cpu::model::{dex_spec, is_dex};

verus! {

impl CPU {
    pub const DEX: u8 = 0xCA;

    /// DEX: decrement X, wrapping at the byte boundary. When `inst` is one of
    /// this instruction's opcodes the handler runs it and returns true; any
    /// other byte leaves everything unchanged and returns false. [`dex_spec`]
    /// states the exact effect and the cycles charged beyond the opcode fetch.
    pub fn run_dex(&mut self, cycles: &mut u32, mem: &mut [u8; 0x10000], inst: u8) -> (r: bool)
        requires
            *old(cycles) <= u32::MAX - 7,
        ensures
            r == is_dex(inst),
            !is_dex(inst) ==> *final(self) == *old(self) && final(mem)@ == old(mem)@
                && *final(cycles) == *old(cycles),
            is_dex(inst) ==> ({
                let (c2, m2, k) = dex_spec(*old(self), old(mem)@, inst);
                *final(self) == c2 && final(mem)@ == m2 && *final(cycles) == *old(cycles) + k
            }),
    {
        if inst == CPU::DEX {
            *cycles += 1;  // internal operation cycle
            self.x = self.x.wrapping_sub(1);
            let r = self.x;
            self.set_flags(r);
            true
        } else {
            false
        }
    }
}

} // verus!
