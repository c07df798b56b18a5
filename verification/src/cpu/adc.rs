use vstd::prelude::*;
use crate::cpu::CPU;
use crate::cpu::model::{Mode, adc_apply, adc_spec, is_adc};

verus! {

impl CPU {
    pub const ADC_IM: u8 = 0x69;
    pub const ADC_ZP: u8 = 0x65;
    pub const ADC_ZPX: u8 = 0x75;
    pub const ADC_ABS: u8 = 0x6D;
    pub const ADC_ABSX: u8 = 0x7D;
    pub const ADC_ABSY: u8 = 0x79;
    pub const ADC_INDX: u8 = 0x61;
    pub const ADC_INDY: u8 = 0x71;

    /// ADC: add the operand and the carry into the accumulator, in binary or
    /// decimal mode. When `inst` is one of this instruction's opcodes the
    /// handler runs it and returns true; any other byte leaves everything
    /// unchanged and returns false. [`adc_spec`] states the exact effect and
    /// the cycles charged beyond the opcode fetch.
    pub fn run_adc(&mut self, cycles: &mut u32, mem: &mut [u8; 0x10000], inst: u8) -> (r: bool)
        requires
            *old(cycles) <= u32::MAX - 7,
        ensures
            r == is_adc(inst),
            !is_adc(inst) ==> *final(self) == *old(self) && final(mem)@ == old(mem)@
                && *final(cycles) == *old(cycles),
            is_adc(inst) ==> ({
                let (c2, m2, k) = adc_spec(*old(self), old(mem)@, inst);
                *final(self) == c2 && final(mem)@ == m2 && *final(cycles) == *old(cycles) + k
            }),
    {
        let mode = if inst == CPU::ADC_IM {
            Mode::Immediate
        } else if inst == CPU::ADC_ZP {
            Mode::ZeroPage
        } else if inst == CPU::ADC_ZPX {
            Mode::ZeroPageX
        } else if inst == CPU::ADC_ABS {
            Mode::Absolute
        } else if inst == CPU::ADC_ABSX {
            Mode::AbsoluteX
        } else if inst == CPU::ADC_ABSY {
            Mode::AbsoluteY
        } else if inst == CPU::ADC_INDX {
            Mode::IndirectX
        } else if inst == CPU::ADC_INDY {
            Mode::IndirectY
        } else {
            return false;
        };
        let v = self.fetch_operand(cycles, mem, mode);
        self.adc(v);
        true
    }

    /// Add with carry into the accumulator: a 9-bit binary sum, or the
    /// nibble-wise decimal correction when the decimal flag is set.
    pub(crate) fn adc(&mut self, val: u8)
        ensures
            *final(self) == adc_apply(*old(self), val),
    {
        let carry: u8 = if self.c { 1 } else { 0 };
        let sum: u16 = self.a as u16 + val as u16 + carry as u16;
        let bin = (sum % 0x100) as u8;
        if self.d {
            let mut lo = self.a % 16 + val % 16 + carry;
            let lo_carry = lo > 9;
            if lo_carry {
                lo = (lo + 6) % 16;
            }
            let mut hi = self.a / 16 + val / 16 + if lo_carry { 1 } else { 0 };
            self.c = hi > 9;
            if hi > 9 {
                hi = (hi + 6) % 16;
            }
            self.a = hi * 16 + lo;
            self.n = bin >= 0x80;
            self.z = bin == 0;
        } else {
            let a_neg = self.a >= 0x80;
            let val_neg = val >= 0x80;
            self.c = sum >= 0x100;
            self.a = bin;
            self.v = a_neg == val_neg && (bin >= 0x80) != a_neg;
            self.n = bin >= 0x80;
            self.z = bin == 0;
        }
    }
}

} // verus!
