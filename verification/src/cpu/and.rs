use vstd::prelude::*;
use crate::cpu::CPU;
use crate::cpu::model::{Mode, and_spec, is_and};

verus! {

impl CPU {
    pub const AND_IM: u8 = 0x29;
    pub const AND_ZP: u8 = 0x25;
    pub const AND_ZPX: u8 = 0x35;
    pub const AND_ABS: u8 = 0x2D;
    pub const AND_ABSX: u8 = 0x3D;
    pub const AND_ABSY: u8 = 0x39;
    pub const AND_INDX: u8 = 0x21;
    pub const AND_INDY: u8 = 0x31;

    /// AND: bitwise-and the operand into the accumulator. When `inst` is one of
    /// this instruction's opcodes the handler runs it and returns true; any
    /// other byte leaves everything unchanged and returns false. [`and_spec`]
    /// states the exact effect and the cycles charged beyond the opcode fetch.
    pub fn run_and(&mut self, cycles: &mut u32, mem: &mut [u8; 0x10000], inst: u8) -> (r: bool)
        requires
            *old(cycles) <= u32::MAX - 7,
        ensures
            r == is_and(inst),
            !is_and(inst) ==> *final(self) == *old(self) && final(mem)@ == old(mem)@
                && *final(cycles) == *old(cycles),
            is_and(inst) ==> ({
                let (c2, m2, k) = and_spec(*old(self), old(mem)@, inst);
                *final(self) == c2 && final(mem)@ == m2 && *final(cycles) == *old(cycles) + k
            }),
    {
        let mode = if inst == CPU::AND_IM {
            Mode::Immediate
        } else if inst == CPU::AND_ZP {
            Mode::ZeroPage
        } else if inst == CPU::AND_ZPX {
            Mode::ZeroPageX
        } else if inst == CPU::AND_ABS {
            Mode::Absolute
        } else if inst == CPU::AND_ABSX {
            Mode::AbsoluteX
        } else if inst == CPU::AND_ABSY {
            Mode::AbsoluteY
        } else if inst == CPU::AND_INDX {
            Mode::IndirectX
        } else if inst == CPU::AND_INDY {
            Mode::IndirectY
        } else {
            return false;
        };
        let v = self.fetch_operand(cycles, mem, mode);
        self.a = self.a & v;
        let r = self.a;
        self.set_flags(r);
        true
    }
}

} // verus!
