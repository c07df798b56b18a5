use vstd::prelude::*;
use crate::cpu::CPU;
use crate::cpu::model::{cli_spec, is_cli};

verus! {

impl CPU {
    pub const CLI: u8 = 0x58;

    /// CLI: clear the interrupt-disable flag. When `inst` is one of this
    /// instruction's opcodes the handler runs it and returns true; any other
    /// byte leaves everything unchanged and returns false. [`cli_spec`] states
    /// the exact effect and the cycles charged beyond the opcode fetch.
    pub fn run_cli(&mut self, cycles: &mut u32, mem: &mut [u8; 0x10000], inst: u8) -> (r: bool)
        requires
            *old(cycles) <= u32::MAX - 7,
        ensures
            r == is_cli(inst),
            !is_cli(inst) ==> *final(self) == *old(self) && final(mem)@ == old(mem)@
                && *final(cycles) == *old(cycles),
            is_cli(inst) ==> ({
                let (c2, m2, k) = cli_spec(*old(self), old(mem)@, inst);
                *final(self) == c2 && final(mem)@ == m2 && *final(cycles) == *old(cycles) + k
            }),
    {
        if inst == CPU::CLI {
            *cycles += 1;  // internal operation cycle
            self.i = false;
            true
        } else {
            false
        }
    }
}

} // verus!
