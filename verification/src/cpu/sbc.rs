use vstd::prelude::*;
use crate::cpu::CPU;
use crate::cpu::model::{Mode, is_sbc, sbc_apply, sbc_decimal_a, sbc_spec};

verus! {

impl CPU {
    pub const SBC_IM: u8 = 0xE9;
    pub const SBC_ZP: u8 = 0xE5;
    pub const SBC_ZPX: u8 = 0xF5;
    pub const SBC_ABS: u8 = 0xED;
    pub const SBC_ABSX: u8 = 0xFD;
    pub const SBC_ABSY: u8 = 0xF9;
    pub const SBC_INDX: u8 = 0xE1;
    pub const SBC_INDY: u8 = 0xF1;

    /// SBC: subtract the operand and the borrow from the accumulator, in binary
    /// or decimal mode. When `inst` is one of this instruction's opcodes the
    /// handler runs it and returns true; any other byte leaves everything
    /// unchanged and returns false. [`sbc_spec`] states the exact effect and
    /// the cycles charged beyond the opcode fetch.
    pub fn run_sbc(&mut self, cycles: &mut u32, mem: &mut [u8; 0x10000], inst: u8) -> (r: bool)
        requires
            *old(cycles) <= u32::MAX - 7,
        ensures
            r == is_sbc(inst),
            !is_sbc(inst) ==> *final(self) == *old(self) && final(mem)@ == old(mem)@
                && *final(cycles) == *old(cycles),
            is_sbc(inst) ==> ({
                let (c2, m2, k) = sbc_spec(*old(self), old(mem)@, inst);
                *final(self) == c2 && final(mem)@ == m2 && *final(cycles) == *old(cycles) + k
            }),
    {
        let mode = if inst == CPU::SBC_IM {
            Mode::Immediate
        } else if inst == CPU::SBC_ZP {
            Mode::ZeroPage
        } else if inst == CPU::SBC_ZPX {
            Mode::ZeroPageX
        } else if inst == CPU::SBC_ABS {
            Mode::Absolute
        } else if inst == CPU::SBC_ABSX {
            Mode::AbsoluteX
        } else if inst == CPU::SBC_ABSY {
            Mode::AbsoluteY
        } else if inst == CPU::SBC_INDX {
            Mode::IndirectX
        } else if inst == CPU::SBC_INDY {
            Mode::IndirectY
        } else {
            return false;
        };
        let v = self.fetch_operand(cycles, mem, mode);
        self.sbc(v);
        true
    }

    /// Subtract with carry: add with the operand's bits inverted; in
    /// decimal mode the accumulator is corrected nibble-wise with
    /// independent borrow propagation, while the flags come from the
    /// binary sum.
    #[verifier::rlimit(100)]
    pub(crate) fn sbc(&mut self, val: u8)
        ensures
            *final(self) == sbc_apply(*old(self), val),
    {
        let inv: u8 = 0xff - val;
        let carry: u8 = if self.c { 1 } else { 0 };
        let sum: u16 = self.a as u16 + inv as u16 + carry as u16;
        let bin = (sum % 0x100) as u8;
        let a_neg = self.a >= 0x80;
        let inv_neg = inv >= 0x80;
        if self.d {
            self.a = CPU::sbc_decimal(self.a, val, self.c);
        } else {
            self.a = bin;
        }
        self.c = sum >= 0x100;
        self.v = a_neg == inv_neg && (bin >= 0x80) != a_neg;
        self.n = bin >= 0x80;
        self.z = bin == 0;
    }

    /// The decimal-mode accumulator correction of SBC.
    pub(crate) fn sbc_decimal(a: u8, val: u8, c: bool) -> (r: u8)
        ensures
            r == sbc_decimal_a(a, val, c),
    {
        let borrow: u8 = if c { 0 } else { 1 };
        let mut lo = (a % 16).wrapping_sub(val % 16).wrapping_sub(borrow);
        let rest = lo > 9;
        if rest {
            lo = lo.wrapping_sub(6) % 16;
        }
        let mut hi = (a / 16).wrapping_sub(val / 16).wrapping_sub(
            if rest { 1 } else { 0 },
        );
        if hi > 9 {
            hi = hi.wrapping_sub(6) % 16;
        }
        hi * 16 + lo
    }
}

} // verus!
