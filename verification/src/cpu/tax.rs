use vstd::prelude::*;
use crate::cpu::CPU;
use crate::cpu::model::{is_tax, tax_spec};

verus! {

impl CPU {
    pub const TAX: u8 = 0xAA;

    /// TAX: transfer the accumulator to X. When `inst` is one of this
    /// instruction's opcodes the handler runs it and returns true; any other
    /// byte leaves everything unchanged and returns false. [`tax_spec`] states
    /// the exact effect and the cycles charged beyond the opcode fetch.
    pub fn run_tax(&mut self, cycles: &mut u32, mem: &mut [u8; 0x10000], inst: u8) -> (r: bool)
        requires
            *old(cycles) <= u32::MAX - 7,
        ensures
            r == is_tax(inst),
            !is_tax(inst) ==> *final(self) == *old(self) && final(mem)@ == old(mem)@
                && *final(cycles) == *old(cycles),
            is_tax(inst) ==> ({
                let (c2, m2, k) = tax_spec(*old(self), old(mem)@, inst);
                *final(self) == c2 && final(mem)@ == m2 && *final(cycles) == *old(cycles) + k
            }),
    {
        if inst == CPU::TAX {
            *cycles += 1;  // internal operation cycle
            self.x = self.a;
            let r = self.x;
            self.set_flags(r);
            true
        } else {
            false
        }
    }
}

} // verus!
