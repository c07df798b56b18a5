use vstd::prelude::*;
use crate::cpu::{CPU, write_byte};
use crate::cpu::model::{Mode, is_sta, sta_spec};

verus! {

impl CPU {
    pub const STA_ZP: u8 = 0x85;
    pub const STA_ZPX: u8 = 0x95;
    pub const STA_ABS: u8 = 0x8D;
    pub const STA_ABSX: u8 = 0x9D;
    pub const STA_ABSY: u8 = 0x99;
    pub const STA_INDX: u8 = 0x81;
    pub const STA_INDY: u8 = 0x91;

    /// STA: store the accumulator. When `inst` is one of this instruction's
    /// opcodes the handler runs it and returns true; any other byte leaves
    /// everything unchanged and returns false. [`sta_spec`] states the exact
    /// effect and the cycles charged beyond the opcode fetch.
    pub fn run_sta(&mut self, cycles: &mut u32, mem: &mut [u8; 0x10000], inst: u8) -> (r: bool)
        requires
            *old(cycles) <= u32::MAX - 7,
        ensures
            r == is_sta(inst),
            !is_sta(inst) ==> *final(self) == *old(self) && final(mem)@ == old(mem)@
                && *final(cycles) == *old(cycles),
            is_sta(inst) ==> ({
                let (c2, m2, k) = sta_spec(*old(self), old(mem)@, inst);
                *final(self) == c2 && final(mem)@ == m2 && *final(cycles) == *old(cycles) + k
            }),
    {
        let mode = if inst == CPU::STA_ZP {
            Mode::ZeroPage
        } else if inst == CPU::STA_ZPX {
            Mode::ZeroPageX
        } else if inst == CPU::STA_ABS {
            Mode::Absolute
        } else if inst == CPU::STA_ABSX {
            Mode::AbsoluteX
        } else if inst == CPU::STA_ABSY {
            Mode::AbsoluteY
        } else if inst == CPU::STA_INDX {
            Mode::IndirectX
        } else if inst == CPU::STA_INDY {
            Mode::IndirectY
        } else {
            return false;
        };
        let addr = self.store_target(cycles, mem, mode);
        write_byte(cycles, mem, addr, self.a);
        true
    }
}

} // verus!
