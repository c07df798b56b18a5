use vstd::prelude::*;
use crate::cpu::CPU;
use crate::cpu::model::{is_jsr, jsr_spec};

verus! {

impl CPU {
    pub const JSR: u8 = 0x20;

    /// JSR: push the address of the last operand byte (the return address minus
    /// one), high byte first, then jump. When `inst` is this instruction's
    /// opcode the handler runs it and returns true; any other byte leaves
    /// everything unchanged and returns false. [`jsr_spec`] states the exact
    /// effect and the cycles charged beyond the opcode fetch.
    pub fn run_jsr(&mut self, cycles: &mut u32, mem: &mut [u8; 0x10000], inst: u8) -> (r: bool)
        requires
            *old(cycles) <= u32::MAX - 7,
        ensures
            r == is_jsr(inst),
            !is_jsr(inst) ==> *final(self) == *old(self) && final(mem)@ == old(mem)@
                && *final(cycles) == *old(cycles),
            is_jsr(inst) ==> ({
                let (c2, m2, k) = jsr_spec(*old(self), old(mem)@, inst);
                *final(self) == c2 && final(mem)@ == m2 && *final(cycles) == *old(cycles) + k
            }),
    {
        if inst == CPU::JSR {
            let lsb = self.read_next_byte(cycles, mem);
            let msb = self.read_next_byte(cycles, mem);
            let ret = self.pc.wrapping_sub(1);
            self.push_to_stack(cycles, mem, (ret / 0x100) as u8);
            self.push_to_stack(cycles, mem, (ret % 0x100) as u8);
            self.pc = (msb as u16) * 0x100 + (lsb as u16);
            *cycles += 1;  // internal cycle after the pushes
            true
        } else {
            false
        }
    }
}

} // verus!
