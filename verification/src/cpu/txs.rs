use vstd::prelude::*;
use crate::cpu::CPU;
use crate::cpu::model::{is_txs, txs_spec};

verus! {

impl CPU {
    pub const TXS: u8 = 0x9A;

    /// TXS: transfer X to the stack pointer; no flags change. When `inst` is
    /// one of this instruction's opcodes the handler runs it and returns true;
    /// any other byte leaves everything unchanged and returns false.
    /// [`txs_spec`] states the exact effect and the cycles charged beyond the
    /// opcode fetch.
    pub fn run_txs(&mut self, cycles: &mut u32, mem: &mut [u8; 0x10000], inst: u8) -> (r: bool)
        requires
            *old(cycles) <= u32::MAX - 7,
        ensures
            r == is_txs(inst),
            !is_txs(inst) ==> *final(self) == *old(self) && final(mem)@ == old(mem)@
                && *final(cycles) == *old(cycles),
            is_txs(inst) ==> ({
                let (c2, m2, k) = txs_spec(*old(self), old(mem)@, inst);
                *final(self) == c2 && final(mem)@ == m2 && *final(cycles) == *old(cycles) + k
            }),
    {
        if inst == CPU::TXS {
            *cycles += 1;  // internal operation cycle
            self.sp = self.x;
            true
        } else {
            false
        }
    }
}

} // verus!
