use vstd::prelude::*;
use crate::cpu::{CPU, write_byte};
use crate::cpu::model::{Mode, is_stx, stx_spec};

verus! {

impl CPU {
    pub const STX_ZP: u8 = 0x86;
    pub const STX_ZPY: u8 = 0x96;
    pub const STX_ABS: u8 = 0x8E;

    /// STX: store the X register. When `inst` is one of this instruction's
    /// opcodes the handler runs it and returns true; any other byte leaves
    /// everything unchanged and returns false. [`stx_spec`] states the exact
    /// effect and the cycles charged beyond the opcode fetch.
    pub fn run_stx(&mut self, cycles: &mut u32, mem: &mut [u8; 0x10000], inst: u8) -> (r: bool)
        requires
            *old(cycles) <= u32::MAX - 7,
        ensures
            r == is_stx(inst),
            !is_stx(inst) ==> *final(self) == *old(self) && final(mem)@ == old(mem)@
                && *final(cycles) == *old(cycles),
            is_stx(inst) ==> ({
                let (c2, m2, k) = stx_spec(*old(self), old(mem)@, inst);
                *final(self) == c2 && final(mem)@ == m2 && *final(cycles) == *old(cycles) + k
            }),
    {
        let mode = if inst == CPU::STX_ZP {
            Mode::ZeroPage
        } else if inst == CPU::STX_ZPY {
            Mode::ZeroPageY
        } else if inst == CPU::STX_ABS {
            Mode::Absolute
        } else {
            return false;
        };
        let addr = self.store_target(cycles, mem, mode);
        write_byte(cycles, mem, addr, self.x);
        true
    }
}

} // verus!
