use vstd::prelude::*;
use crate::cpu::CPU;
use crate::cpu::model::{is_tsx, tsx_spec};

verus! {

impl CPU {
    pub const TSX: u8 = 0xBA;

    /// TSX: transfer the stack pointer to X. When `inst` is one of this
    /// instruction's opcodes the handler runs it and returns true; any other
    /// byte leaves everything unchanged and returns false. [`tsx_spec`] states
    /// the exact effect and the cycles charged beyond the opcode fetch.
    pub fn run_tsx(&mut self, cycles: &mut u32, mem: &mut [u8; 0x10000], inst: u8) -> (r: bool)
        requires
            *old(cycles) <= u32::MAX - 7,
        ensures
            r == is_tsx(inst),
            !is_tsx(inst) ==> *final(self) == *old(self) && final(mem)@ == old(mem)@
                && *final(cycles) == *old(cycles),
            is_tsx(inst) ==> ({
                let (c2, m2, k) = tsx_spec(*old(self), old(mem)@, inst);
                *final(self) == c2 && final(mem)@ == m2 && *final(cycles) == *old(cycles) + k
            }),
    {
        if inst == CPU::TSX {
            *cycles += 1;  // internal operation cycle
            self.x = self.sp;
            let r = self.x;
            self.set_flags(r);
            true
        } else {
            false
        }
    }
}

} // verus!
