use vstd::prelude::*;
use crate::cpu::CPU;
use crate::cpu::model::{inx_spec, is_inx};

verus! {

impl CPU {
    pub const INX: u8 = 0xE8;

    /// INX: increment X, wrapping at the byte boundary. When `inst` is one of
    /// this instruction's opcodes the handler runs it and returns true; any
    /// other byte leaves everything unchanged and returns false. [`inx_spec`]
    /// states the exact effect and the cycles charged beyond the opcode fetch.
    pub fn run_inx(&mut self, cycles: &mut u32, mem: &mut [u8; 0x10000], inst: u8) -> (r: bool)
        requires
            *old(cycles) <= u32::MAX - 7,
        ensures
            r == is_inx(inst),
            !is_inx(inst) ==> *final(self) == *old(self) && final(mem)@ == old(mem)@
                && *final(cycles) == *old(cycles),
            is_inx(inst) ==> ({
                let (c2, m2, k) = inx_spec(*old(self), old(mem)@, inst);
                *final(self) == c2 && final(mem)@ == m2 && *final(cycles) == *old(cycles) + k
            }),
    {
        if inst == CPU::INX {
            *cycles += 1;  // internal operation cycle
            self.x = self.x.wrapping_add(1);
            let r = self.x;
            self.set_flags(r);
            true
        } else {
            false
        }
    }
}

} // verus!
