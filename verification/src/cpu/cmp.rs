use vstd::prelude::*;
use crate::cpu::CPU;
use crate::cpu::model::{Mode, cmp_spec, compare_flags, is_cmp};

verus! {

impl CPU {
    pub const CMP_IM: u8 = 0xC9;
    pub const CMP_ZP: u8 = 0xC5;
    pub const CMP_ZPX: u8 = 0xD5;
    pub const CMP_ABS: u8 = 0xCD;
    pub const CMP_ABSX: u8 = 0xDD;
    pub const CMP_ABSY: u8 = 0xD9;
    pub const CMP_INDX: u8 = 0xC1;
    pub const CMP_INDY: u8 = 0xD1;

    /// CMP: compare the accumulator with the operand; the accumulator itself is
    /// not changed. When `inst` is one of this instruction's opcodes the
    /// handler runs it and returns true; any other byte leaves everything
    /// unchanged and returns false. [`cmp_spec`] states the exact effect and
    /// the cycles charged beyond the opcode fetch. The accumulator is never
    /// written (see the compare contracts).
    pub fn run_cmp(&mut self, cycles: &mut u32, mem: &mut [u8; 0x10000], inst: u8) -> (r: bool)
        requires
            *old(cycles) <= u32::MAX - 7,
        ensures
            r == is_cmp(inst),
            !is_cmp(inst) ==> *final(self) == *old(self) && final(mem)@ == old(mem)@
                && *final(cycles) == *old(cycles),
            is_cmp(inst) ==> ({
                let (c2, m2, k) = cmp_spec(*old(self), old(mem)@, inst);
                *final(self) == c2 && final(mem)@ == m2 && *final(cycles) == *old(cycles) + k
            }),
    {
        let mode = if inst == CPU::CMP_IM {
            Mode::Immediate
        } else if inst == CPU::CMP_ZP {
            Mode::ZeroPage
        } else if inst == CPU::CMP_ZPX {
            Mode::ZeroPageX
        } else if inst == CPU::CMP_ABS {
            Mode::Absolute
        } else if inst == CPU::CMP_ABSX {
            Mode::AbsoluteX
        } else if inst == CPU::CMP_ABSY {
            Mode::AbsoluteY
        } else if inst == CPU::CMP_INDX {
            Mode::IndirectX
        } else if inst == CPU::CMP_INDY {
            Mode::IndirectY
        } else {
            return false;
        };
        let v = self.fetch_operand(cycles, mem, mode);
        self.compare(self.a, v);
        true
    }

    /// Compare a register with an operand: the flags of `reg - val`,
    /// without storing the difference anywhere.
    pub(crate) fn compare(&mut self, reg: u8, val: u8)
        ensures
            *final(self) == compare_flags(*old(self), reg, val),
    {
        let diff = reg.wrapping_sub(val);
        self.n = diff >= 0x80;
        self.c = reg >= val;
        self.z = reg == val;
    }
}

} // verus!
