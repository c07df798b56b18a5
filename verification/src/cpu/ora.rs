use vstd::prelude::*;
use crate::cpu::CPU;
use crate::cpu::model::{Mode, is_ora, ora_spec};

verus! {

impl CPU {
    pub const ORA_IM: u8 = 0x09;
    pub const ORA_ZP: u8 = 0x05;
    pub const ORA_ZPX: u8 = 0x15;
    pub const ORA_ABS: u8 = 0x0D;
    pub const ORA_ABSX: u8 = 0x1D;
    pub const ORA_ABSY: u8 = 0x19;
    pub const ORA_INDX: u8 = 0x01;
    pub const ORA_INDY: u8 = 0x11;

    /// ORA: bitwise-or the operand into the accumulator. When `inst` is one of
    /// this instruction's opcodes the handler runs it and returns true; any
    /// other byte leaves everything unchanged and returns false. [`ora_spec`]
    /// states the exact effect and the cycles charged beyond the opcode fetch.
    pub fn run_ora(&mut self, cycles: &mut u32, mem: &mut [u8; 0x10000], inst: u8) -> (r: bool)
        requires
            *old(cycles) <= u32::MAX - 7,
        ensures
            r == is_ora(inst),
            !is_ora(inst) ==> *final(self) == *old(self) && final(mem)@ == old(mem)@
                && *final(cycles) == *old(cycles),
            is_ora(inst) ==> ({
                let (c2, m2, k) = ora_spec(*old(self), old(mem)@, inst);
                *final(self) == c2 && final(mem)@ == m2 && *final(cycles) == *old(cycles) + k
            }),
    {
        let mode = if inst == CPU::ORA_IM {
            Mode::Immediate
        } else if inst == CPU::ORA_ZP {
            Mode::ZeroPage
        } else if inst == CPU::ORA_ZPX {
            Mode::ZeroPageX
        } else if inst == CPU::ORA_ABS {
            Mode::Absolute
        } else if inst == CPU::ORA_ABSX {
            Mode::AbsoluteX
        } else if inst == CPU::ORA_ABSY {
            Mode::AbsoluteY
        } else if inst == CPU::ORA_INDX {
            Mode::IndirectX
        } else if inst == CPU::ORA_INDY {
            Mode::IndirectY
        } else {
            return false;
        };
        let v = self.fetch_operand(cycles, mem, mode);
        self.a = self.a | v;
        let r = self.a;
        self.set_flags(r);
        true
    }
}

} // verus!
