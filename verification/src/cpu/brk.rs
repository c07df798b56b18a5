use vstd::prelude::*;
use crate::cpu::{CPU, read_byte};
use crate::cpu::model::{brk_spec, is_brk};

verus! {

impl CPU {
    pub const BRK: u8 = 0x00;

    /// BRK: push the address one past the padding byte and the status byte,
    /// raise the interrupt-disable flag, and load the program counter from the
    /// interrupt vector. When `inst` is this instruction's opcode the handler
    /// runs it and returns true; any other byte leaves everything unchanged and
    /// returns false. [`brk_spec`] states the exact effect and the cycles
    /// charged beyond the opcode fetch.
    pub fn run_brk(&mut self, cycles: &mut u32, mem: &mut [u8; 0x10000], inst: u8) -> (r: bool)
        requires
            *old(cycles) <= u32::MAX - 7,
        ensures
            r == is_brk(inst),
            !is_brk(inst) ==> *final(self) == *old(self) && final(mem)@ == old(mem)@
                && *final(cycles) == *old(cycles),
            is_brk(inst) ==> ({
                let (c2, m2, k) = brk_spec(*old(self), old(mem)@, inst);
                *final(self) == c2 && final(mem)@ == m2 && *final(cycles) == *old(cycles) + k
            }),
    {
        if inst == CPU::BRK {
            let ret = self.pc.wrapping_add(1);
            let p = self.pack_status();
            self.push_to_stack(cycles, mem, (ret / 0x100) as u8);
            self.push_to_stack(cycles, mem, (ret % 0x100) as u8);
            self.push_to_stack(cycles, mem, p);
            self.i = true;
            *cycles += 1;  // internal cycle before the vector fetch
            let lsb = read_byte(cycles, mem, 0xFFFE);
            let msb = read_byte(cycles, mem, 0xFFFF);
            self.pc = (msb as u16) * 0x100 + (lsb as u16);
            true
        } else {
            false
        }
    }
}

} // verus!
