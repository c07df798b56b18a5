use vstd::prelude::*;
use crate::cpu::CPU;
use crate::cpu::model::{Mode, is_ldy, ldy_spec};

verus! {

impl CPU {
    pub const LDY_IM: u8 = 0xA0;
    pub const LDY_ZP: u8 = 0xA4;
    pub const LDY_ZPX: u8 = 0xB4;
    pub const LDY_ABS: u8 = 0xAC;
    pub const LDY_ABSX: u8 = 0xBC;

    /// LDY: load the Y register. When `inst` is one of this instruction's
    /// opcodes the handler runs it and returns true; any other byte leaves
    /// everything unchanged and returns false. [`ldy_spec`] states the exact
    /// effect and the cycles charged beyond the opcode fetch.
    pub fn run_ldy(&mut self, cycles: &mut u32, mem: &mut [u8; 0x10000], inst: u8) -> (r: bool)
        requires
            *old(cycles) <= u32::MAX - 7,
        ensures
            r == is_ldy(inst),
            !is_ldy(inst) ==> *final(self) == *old(self) && final(mem)@ == old(mem)@
                && *final(cycles) == *old(cycles),
            is_ldy(inst) ==> ({
                let (c2, m2, k) = ldy_spec(*old(self), old(mem)@, inst);
                *final(self) == c2 && final(mem)@ == m2 && *final(cycles) == *old(cycles) + k
            }),
    {
        let mode = if inst == CPU::LDY_IM {
            Mode::Immediate
        } else if inst == CPU::LDY_ZP {
            Mode::ZeroPage
        } else if inst == CPU::LDY_ZPX {
            Mode::ZeroPageX
        } else if inst == CPU::LDY_ABS {
            Mode::Absolute
        } else if inst == CPU::LDY_ABSX {
            Mode::AbsoluteX
        } else {
            return false;
        };
        let v = self.fetch_operand(cycles, mem, mode);
        self.y = v;
        self.set_flags(v);
        true
    }
}

} // verus!
