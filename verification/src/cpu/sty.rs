use vstd::prelude::*;
use crate::cpu::{CPU, write_byte};
use crate::cpu::model::{Mode, is_sty, sty_spec};

verus! {

impl CPU {
    pub const STY_ZP: u8 = 0x84;
    pub const STY_ZPX: u8 = 0x94;
    pub const STY_ABS: u8 = 0x8C;

    /// STY: store the Y register. When `inst` is one of this instruction's
    /// opcodes the handler runs it and returns true; any other byte leaves
    /// everything unchanged and returns false. [`sty_spec`] states the exact
    /// effect and the cycles charged beyond the opcode fetch.
    pub fn run_sty(&mut self, cycles: &mut u32, mem: &mut [u8; 0x10000], inst: u8) -> (r: bool)
        requires
            *old(cycles) <= u32::MAX - 7,
        ensures
            r == is_sty(inst),
            !is_sty(inst) ==> *final(self) == *old(self) && final(mem)@ == old(mem)@
                && *final(cycles) == *old(cycles),
            is_sty(inst) ==> ({
                let (c2, m2, k) = sty_spec(*old(self), old(mem)@, inst);
                *final(self) == c2 && final(mem)@ == m2 && *final(cycles) == *old(cycles) + k
            }),
    {
        let mode = if inst == CPU::STY_ZP {
            Mode::ZeroPage
        } else if inst == CPU::STY_ZPX {
            Mode::ZeroPageX
        } else if inst == CPU::STY_ABS {
            Mode::Absolute
        } else {
            return false;
        };
        let addr = self.store_target(cycles, mem, mode);
        write_byte(cycles, mem, addr, self.y);
        true
    }
}

} // verus!
