use vstd::prelude::*;
use crate::cpu::{CPU, read_byte, write_byte};
use crate::cpu::model::{Mode, asl_spec, is_asl};

verus! {

impl CPU {
    pub const ASL_A: u8 = 0x0A;
    pub const ASL_ZP: u8 = 0x06;
    pub const ASL_ZPX: u8 = 0x16;
    pub const ASL_ABS: u8 = 0x0E;
    pub const ASL_ABSX: u8 = 0x1E;

    /// ASL: shift left one bit; the bit shifted out becomes the carry. When
    /// `inst` is one of this instruction's opcodes the handler runs it and
    /// returns true; any other byte leaves everything unchanged and returns
    /// false. [`asl_spec`] states the exact effect and the cycles charged
    /// beyond the opcode fetch.
    pub fn run_asl(&mut self, cycles: &mut u32, mem: &mut [u8; 0x10000], inst: u8) -> (r: bool)
        requires
            *old(cycles) <= u32::MAX - 7,
        ensures
            r == is_asl(inst),
            !is_asl(inst) ==> *final(self) == *old(self) && final(mem)@ == old(mem)@
                && *final(cycles) == *old(cycles),
            is_asl(inst) ==> ({
                let (c2, m2, k) = asl_spec(*old(self), old(mem)@, inst);
                *final(self) == c2 && final(mem)@ == m2 && *final(cycles) == *old(cycles) + k
            }),
    {
        if inst == CPU::ASL_A {
            *cycles += 1;  // the shift itself burns a cycle
            self.c = self.a >= 0x80;
            let r = self.a.wrapping_add(self.a);
            self.a = r;
            self.set_flags(r);
            return true;
        }
        let mode = if inst == CPU::ASL_ZP {
            Mode::ZeroPage
        } else if inst == CPU::ASL_ZPX {
            Mode::ZeroPageX
        } else if inst == CPU::ASL_ABS {
            Mode::Absolute
        } else if inst == CPU::ASL_ABSX {
            Mode::AbsoluteX
        } else {
            return false;
        };
        let addr = self.rmw_target(cycles, mem, mode);
        let v = read_byte(cycles, mem, addr);
        *cycles += 1;  // the modify step burns a cycle
        self.c = v >= 0x80;
        let r = v.wrapping_add(v);
        write_byte(cycles, mem, addr, r);
        self.set_flags(r);
        true
    }
}

} // verus!
