use vstd::prelude::*;
use crate::cpu::CPU;
use crate::cpu::model::{Mode, bit_spec, is_bit};

verus! {

impl CPU {
    pub const BIT_ZP: u8 = 0x24;
    pub const BIT_ABS: u8 = 0x2C;

    /// BIT: test operand bits against the accumulator without changing either.
    /// When `inst` is one of this instruction's opcodes the handler runs it and
    /// returns true; any other byte leaves everything unchanged and returns
    /// false. [`bit_spec`] states the exact effect and the cycles charged
    /// beyond the opcode fetch.
    pub fn run_bit(&mut self, cycles: &mut u32, mem: &mut [u8; 0x10000], inst: u8) -> (r: bool)
        requires
            *old(cycles) <= u32::MAX - 7,
        ensures
            r == is_bit(inst),
            !is_bit(inst) ==> *final(self) == *old(self) && final(mem)@ == old(mem)@
                && *final(cycles) == *old(cycles),
            is_bit(inst) ==> ({
                let (c2, m2, k) = bit_spec(*old(self), old(mem)@, inst);
                *final(self) == c2 && final(mem)@ == m2 && *final(cycles) == *old(cycles) + k
            }),
    {
        let mode = if inst == CPU::BIT_ZP {
            Mode::ZeroPage
        } else if inst == CPU::BIT_ABS {
            Mode::Absolute
        } else {
            return false;
        };
        let v = self.fetch_operand(cycles, mem, mode);
        self.n = v >= 0x80;
        self.v = (v / 64) % 2 == 1;
        self.z = (v & self.a) == 0;
        true
    }
}

} // verus!
