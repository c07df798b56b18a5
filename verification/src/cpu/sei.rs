use vstd::prelude::*;
use crate::cpu::CPU;
use crate::cpu::model::{is_sei, sei_spec};

verus! {

impl CPU {
    pub const SEI: u8 = 0x78;

    /// SEI: set the interrupt-disable flag. When `inst` is one of this
    /// instruction's opcodes the handler runs it and returns true; any other
    /// byte leaves everything unchanged and returns false. [`sei_spec`] states
    /// the exact effect and the cycles charged beyond the opcode fetch.
    pub fn run_sei(&mut self, cycles: &mut u32, mem: &mut [u8; 0x10000], inst: u8) -> (r: bool)
        requires
            *old(cycles) <= u32::MAX - 7,
        ensures
            r == is_sei(inst),
            !is_sei(inst) ==> *final(self) == *old(self) && final(mem)@ == old(mem)@
                && *final(cycles) == *old(cycles),
            is_sei(inst) ==> ({
                let (c2, m2, k) = sei_spec(*old(self), old(mem)@, inst);
                *final(self) == c2 && final(mem)@ == m2 && *final(cycles) == *old(cycles) + k
            }),
    {
        if inst == CPU::SEI {
            *cycles += 1;  // internal operation cycle
            self.i = true;
            true
        } else {
            false
        }
    }
}

} // verus!
