use vstd::prelude::*;
use crate::cpu::CPU;
use crate::cpu::model::{is_rts, rts_spec};

verus! {

impl CPU {
    pub const RTS: u8 = 0x60;

    /// RTS: pop the return address, low byte first, and resume one byte past
    /// it. When `inst` is this instruction's opcode the handler runs it and
    /// returns true; any other byte leaves everything unchanged and returns
    /// false. [`rts_spec`] states the exact effect and the cycles charged
    /// beyond the opcode fetch.
    pub fn run_rts(&mut self, cycles: &mut u32, mem: &mut [u8; 0x10000], inst: u8) -> (r: bool)
        requires
            *old(cycles) <= u32::MAX - 7,
        ensures
            r == is_rts(inst),
            !is_rts(inst) ==> *final(self) == *old(self) && final(mem)@ == old(mem)@
                && *final(cycles) == *old(cycles),
            is_rts(inst) ==> ({
                let (c2, m2, k) = rts_spec(*old(self), old(mem)@, inst);
                *final(self) == c2 && final(mem)@ == m2 && *final(cycles) == *old(cycles) + k
            }),
    {
        if inst == CPU::RTS {
            let lsb = self.pop_from_stack(cycles, mem);
            let msb = self.pop_from_stack(cycles, mem);
            *cycles += 3;  // internal cycles of the return sequence
            self.pc = ((msb as u16) * 0x100 + (lsb as u16)).wrapping_add(1);
            true
        } else {
            false
        }
    }
}

} // verus!
