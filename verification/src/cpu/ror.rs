use vstd::prelude::*;
use crate::cpu::{CPU, read_byte, write_byte};
use crate::cpu::model::{Mode, is_ror, ror_spec};

verus! {

impl CPU {
    pub const ROR_A: u8 = 0x6A;
    pub const ROR_ZP: u8 = 0x66;
    pub const ROR_ZPX: u8 = 0x76;
    pub const ROR_ABS: u8 = 0x6E;
    pub const ROR_ABSX: u8 = 0x7E;

    /// ROR: rotate right through the carry. When `inst` is one of this
    /// instruction's opcodes the handler runs it and returns true; any other
    /// byte leaves everything unchanged and returns false. [`ror_spec`] states
    /// the exact effect and the cycles charged beyond the opcode fetch.
    pub fn run_ror(&mut self, cycles: &mut u32, mem: &mut [u8; 0x10000], inst: u8) -> (r: bool)
        requires
            *old(cycles) <= u32::MAX - 7,
        ensures
            r == is_ror(inst),
            !is_ror(inst) ==> *final(self) == *old(self) && final(mem)@ == old(mem)@
                && *final(cycles) == *old(cycles),
            is_ror(inst) ==> ({
                let (c2, m2, k) = ror_spec(*old(self), old(mem)@, inst);
                *final(self) == c2 && final(mem)@ == m2 && *final(cycles) == *old(cycles) + k
            }),
    {
        if inst == CPU::ROR_A {
            *cycles += 1;  // the shift itself burns a cycle
            let hi_bit: u8 = if self.c { 0x80 } else { 0 };
        self.c = self.a % 2 == 1;
            let r = self.a / 2 + hi_bit;
            self.a = r;
            self.set_flags(r);
            return true;
        }
        let mode = if inst == CPU::ROR_ZP {
            Mode::ZeroPage
        } else if inst == CPU::ROR_ZPX {
            Mode::ZeroPageX
        } else if inst == CPU::ROR_ABS {
            Mode::Absolute
        } else if inst == CPU::ROR_ABSX {
            Mode::AbsoluteX
        } else {
            return false;
        };
        let addr = self.rmw_target(cycles, mem, mode);
        let v = read_byte(cycles, mem, addr);
        *cycles += 1;  // the modify step burns a cycle
        let hi_bit: u8 = if self.c { 0x80 } else { 0 };
        self.c = v % 2 == 1;
        let r = v / 2 + hi_bit;
        write_byte(cycles, mem, addr, r);
        self.set_flags(r);
        true
    }
}

} // verus!
