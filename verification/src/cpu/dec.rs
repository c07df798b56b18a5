use vstd::prelude::*;
use crate::cpu::{CPU, read_byte, write_byte};
use crate::cpu::model::{Mode, dec_spec, is_dec};

verus! {

impl CPU {
    pub const DEC_ZP: u8 = 0xC6;
    pub const DEC_ZPX: u8 = 0xD6;
    pub const DEC_ABS: u8 = 0xCE;
    pub const DEC_ABSX: u8 = 0xDE;

    /// DEC: decrement a memory byte, wrapping at the byte boundary. When `inst`
    /// is one of this instruction's opcodes the handler runs it and returns
    /// true; any other byte leaves everything unchanged and returns false.
    /// [`dec_spec`] states the exact effect and the cycles charged beyond the
    /// opcode fetch.
    pub fn run_dec(&mut self, cycles: &mut u32, mem: &mut [u8; 0x10000], inst: u8) -> (r: bool)
        requires
            *old(cycles) <= u32::MAX - 7,
        ensures
            r == is_dec(inst),
            !is_dec(inst) ==> *final(self) == *old(self) && final(mem)@ == old(mem)@
                && *final(cycles) == *old(cycles),
            is_dec(inst) ==> ({
                let (c2, m2, k) = dec_spec(*old(self), old(mem)@, inst);
                *final(self) == c2 && final(mem)@ == m2 && *final(cycles) == *old(cycles) + k
            }),
    {
        let mode = if inst == CPU::DEC_ZP {
            Mode::ZeroPage
        } else if inst == CPU::DEC_ZPX {
            Mode::ZeroPageX
        } else if inst == CPU::DEC_ABS {
            Mode::Absolute
        } else if inst == CPU::DEC_ABSX {
            Mode::AbsoluteX
        } else {
            return false;
        };
        let addr = self.rmw_target(cycles, mem, mode);
        let v = read_byte(cycles, mem, addr);
        *cycles += 1;  // the modify step burns a cycle
        // no carry effect
        let r = v.wrapping_sub(1);
        write_byte(cycles, mem, addr, r);
        self.set_flags(r);
        true
    }
}

} // verus!
