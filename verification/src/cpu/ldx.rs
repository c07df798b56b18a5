use vstd::prelude::*;
use crate::cpu::CPU;
use crate::cpu::model::{Mode, is_ldx, ldx_spec};

verus! {

impl CPU {
    pub const LDX_IM: u8 = 0xA2;
    pub const LDX_ZP: u8 = 0xA6;
    pub const LDX_ZPY: u8 = 0xB6;
    pub const LDX_ABS: u8 = 0xAE;
    pub const LDX_ABSY: u8 = 0xBE;

    /// LDX: load the X register. When `inst` is one of this instruction's
    /// opcodes the handler runs it and returns true; any other byte leaves
    /// everything unchanged and returns false. [`ldx_spec`] states the exact
    /// effect and the cycles charged beyond the opcode fetch.
    pub fn run_ldx(&mut self, cycles: &mut u32, mem: &mut [u8; 0x10000], inst: u8) -> (r: bool)
        requires
            *old(cycles) <= u32::MAX - 7,
        ensures
            r == is_ldx(inst),
            !is_ldx(inst) ==> *final(self) == *old(self) && final(mem)@ == old(mem)@
                && *final(cycles) == *old(cycles),
            is_ldx(inst) ==> ({
                let (c2, m2, k) = ldx_spec(*old(self), old(mem)@, inst);
                *final(self) == c2 && final(mem)@ == m2 && *final(cycles) == *old(cycles) + k
            }),
    {
        let mode = if inst == CPU::LDX_IM {
            Mode::Immediate
        } else if inst == CPU::LDX_ZP {
            Mode::ZeroPage
        } else if inst == CPU::LDX_ZPY {
            Mode::ZeroPageY
        } else if inst == CPU::LDX_ABS {
            Mode::Absolute
        } else if inst == CPU::LDX_ABSY {
            Mode::AbsoluteY
        } else {
            return false;
        };
        let v = self.fetch_operand(cycles, mem, mode);
        self.x = v;
        self.set_flags(v);
        true
    }
}

} // verus!
