use vstd::prelude::*;
use crate::cpu::CPU;
use crate::cpu::model::{Mode, is_lda, lda_spec};

verus! {

impl CPU {
    pub const LDA_IM: u8 = 0xA9;
    pub const LDA_ZP: u8 = 0xA5;
    pub const LDA_ZPX: u8 = 0xB5;
    pub const LDA_ABS: u8 = 0xAD;
    pub const LDA_ABSX: u8 = 0xBD;
    pub const LDA_ABSY: u8 = 0xB9;
    pub const LDA_INDX: u8 = 0xA1;
    pub const LDA_INDY: u8 = 0xB1;

    /// LDA: load the accumulator. When `inst` is one of this instruction's
    /// opcodes the handler runs it and returns true; any other byte leaves
    /// everything unchanged and returns false. [`lda_spec`] states the exact
    /// effect and the cycles charged beyond the opcode fetch.
    pub fn run_lda(&mut self, cycles: &mut u32, mem: &mut [u8; 0x10000], inst: u8) -> (r: bool)
        requires
            *old(cycles) <= u32::MAX - 7,
        ensures
            r == is_lda(inst),
            !is_lda(inst) ==> *final(self) == *old(self) && final(mem)@ == old(mem)@
                && *final(cycles) == *old(cycles),
            is_lda(inst) ==> ({
                let (c2, m2, k) = lda_spec(*old(self), old(mem)@, inst);
                *final(self) == c2 && final(mem)@ == m2 && *final(cycles) == *old(cycles) + k
            }),
    {
        let mode = if inst == CPU::LDA_IM {
            Mode::Immediate
        } else if inst == CPU::LDA_ZP {
            Mode::ZeroPage
        } else if inst == CPU::LDA_ZPX {
            Mode::ZeroPageX
        } else if inst == CPU::LDA_ABS {
            Mode::Absolute
        } else if inst == CPU::LDA_ABSX {
            Mode::AbsoluteX
        } else if inst == CPU::LDA_ABSY {
            Mode::AbsoluteY
        } else if inst == CPU::LDA_INDX {
            Mode::IndirectX
        } else if inst == CPU::LDA_INDY {
            Mode::IndirectY
        } else {
            return false;
        };
        let v = self.fetch_operand(cycles, mem, mode);
        self.a = v;
        self.set_flags(v);
        true
    }
}

} // verus!
