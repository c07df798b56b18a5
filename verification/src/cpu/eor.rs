use vstd::prelude::*;
use crate::cpu::CPU;
use crate::cpu::model::{Mode, eor_spec, is_eor};

verus! {

impl CPU {
    pub const EOR_IM: u8 = 0x49;
    pub const EOR_ZP: u8 = 0x45;
    pub const EOR_ZPX: u8 = 0x55;
    pub const EOR_ABS: u8 = 0x4D;
    pub const EOR_ABSX: u8 = 0x5D;
    pub const EOR_ABSY: u8 = 0x59;
    pub const EOR_INDX: u8 = 0x41;
    pub const EOR_INDY: u8 = 0x51;

    /// EOR: bitwise-exclusive-or the operand into the accumulator. When `inst`
    /// is one of this instruction's opcodes the handler runs it and returns
    /// true; any other byte leaves everything unchanged and returns false.
    /// [`eor_spec`] states the exact effect and the cycles charged beyond the
    /// opcode fetch.
    pub fn run_eor(&mut self, cycles: &mut u32, mem: &mut [u8; 0x10000], inst: u8) -> (r: bool)
        requires
            *old(cycles) <= u32::MAX - 7,
        ensures
            r == is_eor(inst),
            !is_eor(inst) ==> *final(self) == *old(self) && final(mem)@ == old(mem)@
                && *final(cycles) == *old(cycles),
            is_eor(inst) ==> ({
                let (c2, m2, k) = eor_spec(*old(self), old(mem)@, inst);
                *final(self) == c2 && final(mem)@ == m2 && *final(cycles) == *old(cycles) + k
            }),
    {
        let mode = if inst == CPU::EOR_IM {
            Mode::Immediate
        } else if inst == CPU::EOR_ZP {
            Mode::ZeroPage
        } else if inst == CPU::EOR_ZPX {
            Mode::ZeroPageX
        } else if inst == CPU::EOR_ABS {
            Mode::Absolute
        } else if inst == CPU::EOR_ABSX {
            Mode::AbsoluteX
        } else if inst == CPU::EOR_ABSY {
            Mode::AbsoluteY
        } else if inst == CPU::EOR_INDX {
            Mode::IndirectX
        } else if inst == CPU::EOR_INDY {
            Mode::IndirectY
        } else {
            return false;
        };
        let v = self.fetch_operand(cycles, mem, mode);
        self.a = self.a ^ v;
        let r = self.a;
        self.set_flags(r);
        true
    }
}

} // verus!
