use vstd::prelude::*;
use crate::cpu::CPU;
use crate::cpu::model::{is_rti, rti_spec};

verus! {

impl CPU {
    pub const RTI: u8 = 0x40;

    /// RTI: pop the status byte (the break flag is not restored), then the
    /// interrupted program counter, low byte first. When `inst` is this
    /// instruction's opcode the handler runs it and returns true; any other
    /// byte leaves everything unchanged and returns false. [`rti_spec`] states
    /// the exact effect and the cycles charged beyond the opcode fetch.
    pub fn run_rti(&mut self, cycles: &mut u32, mem: &mut [u8; 0x10000], inst: u8) -> (r: bool)
        requires
            *old(cycles) <= u32::MAX - 7,
        ensures
            r == is_rti(inst),
            !is_rti(inst) ==> *final(self) == *old(self) && final(mem)@ == old(mem)@
                && *final(cycles) == *old(cycles),
            is_rti(inst) ==> ({
                let (c2, m2, k) = rti_spec(*old(self), old(mem)@, inst);
                *final(self) == c2 && final(mem)@ == m2 && *final(cycles) == *old(cycles) + k
            }),
    {
        if inst == CPU::RTI {
            let p = self.pop_from_stack(cycles, mem);
            self.restore_status(p);
            *cycles += 2;  // internal cycles of the return sequence
            let lsb = self.pop_from_stack(cycles, mem);
            let msb = self.pop_from_stack(cycles, mem);
            self.pc = (msb as u16) * 0x100 + (lsb as u16);
            true
        } else {
            false
        }
    }
}

} // verus!
