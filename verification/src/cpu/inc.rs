use vstd::prelude::*;
use crate::cpu::{CPU, read_byte, write_byte};
use crate::cpu::model::{Mode, inc_spec, is_inc};

verus! {

impl CPU {
    pub const INC_ZP: u8 = 0xE6;
    pub const INC_ZPX: u8 = 0xF6;
    pub const INC_ABS: u8 = 0xEE;
    pub const INC_ABSX: u8 = 0xFE;

    /// INC: increment a memory byte, wrapping at the byte boundary. When `inst`
    /// is one of this instruction's opcodes the handler runs it and returns
    /// true; any other byte leaves everything unchanged and returns false.
    /// [`inc_spec`] states the exact effect and the cycles charged beyond the
    /// opcode fetch.
    pub fn run_inc(&mut self, cycles: &mut u32, mem: &mut [u8; 0x10000], inst: u8) -> (r: bool)
        requires
            *old(cycles) <= u32::MAX - 7,
        ensures
            r == is_inc(inst),
            !is_inc(inst) ==> *final(self) == *old(self) && final(mem)@ == old(mem)@
                && *final(cycles) == *old(cycles),
            is_inc(inst) ==> ({
                let (c2, m2, k) = inc_spec(*old(self), old(mem)@, inst);
                *final(self) == c2 && final(mem)@ == m2 && *final(cycles) == *old(cycles) + k
            }),
    {
        let mode = if inst == CPU::INC_ZP {
            Mode::ZeroPage
        } else if inst == CPU::INC_ZPX {
            Mode::ZeroPageX
        } else if inst == CPU::INC_ABS {
            Mode::Absolute
        } else if inst == CPU::INC_ABSX {
            Mode::AbsoluteX
        } else {
            return false;
        };
        let addr = self.rmw_target(cycles, mem, mode);
        let v = read_byte(cycles, mem, addr);
        *cycles += 1;  // the modify step burns a cycle
        // no carry effect
        let r = v.wrapping_add(1);
        write_byte(cycles, mem, addr, r);
        self.set_flags(r);
        true
    }
}

} // verus!
