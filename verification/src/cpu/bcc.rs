use vstd::prelude::*;
use crate::cpu::CPU;
use crate::cpu::model::{bcc_spec, is_bcc};

verus! {

impl CPU {
    pub const BCC: u8 = 0x90;

    /// BCC: branch when the carry flag is clear. When `inst` is one of this
    /// instruction's opcodes the handler runs it and returns true; any other
    /// byte leaves everything unchanged and returns false. [`bcc_spec`] states
    /// the exact effect and the cycles charged beyond the opcode fetch.
    pub fn run_bcc(&mut self, cycles: &mut u32, mem: &mut [u8; 0x10000], inst: u8) -> (r: bool)
        requires
            *old(cycles) <= u32::MAX - 7,
        ensures
            r == is_bcc(inst),
            !is_bcc(inst) ==> *final(self) == *old(self) && final(mem)@ == old(mem)@
                && *final(cycles) == *old(cycles),
            is_bcc(inst) ==> ({
                let (c2, m2, k) = bcc_spec(*old(self), old(mem)@, inst);
                *final(self) == c2 && final(mem)@ == m2 && *final(cycles) == *old(cycles) + k
            }),
    {
        if inst == CPU::BCC {
            let cond = !self.c;
            self.take_branch(cycles, mem, cond);
            true
        } else {
            false
        }
    }
}

} // verus!
