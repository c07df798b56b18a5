use vstd::prelude::*;
use crate::cpu::{CPU, read_byte, write_byte};
use crate::cpu::model::{Mode, is_rol, rol_spec};

verus! {

impl CPU {
    pub const ROL_A: u8 = 0x2A;
    pub const ROL_ZP: u8 = 0x26;
    pub const ROL_ZPX: u8 = 0x36;
    pub const ROL_ABS: u8 = 0x2E;
    pub const ROL_ABSX: u8 = 0x3E;

    /// ROL: rotate left through the carry. When `inst` is one of this
    /// instruction's opcodes the handler runs it and returns true; any other
    /// byte leaves everything unchanged and returns false. [`rol_spec`] states
    /// the exact effect and the cycles charged beyond the opcode fetch.
    pub fn run_rol(&mut self, cycles: &mut u32, mem: &mut [u8; 0x10000], inst: u8) -> (r: bool)
        requires
            *old(cycles) <= u32::MAX - 7,
        ensures
            r == is_rol(inst),
            !is_rol(inst) ==> *final(self) == *old(self) && final(mem)@ == old(mem)@
                && *final(cycles) == *old(cycles),
            is_rol(inst) ==> ({
                let (c2, m2, k) = rol_spec(*old(self), old(mem)@, inst);
                *final(self) == c2 && final(mem)@ == m2 && *final(cycles) == *old(cycles) + k
            }),
    {
        if inst == CPU::ROL_A {
            *cycles += 1;  // the shift itself burns a cycle
            let carry: u8 = if self.c { 1 } else { 0 };
        self.c = self.a >= 0x80;
            let r = self.a.wrapping_add(self.a).wrapping_add(carry);
            self.a = r;
            self.set_flags(r);
            return true;
        }
        let mode = if inst == CPU::ROL_ZP {
            Mode::ZeroPage
        } else if inst == CPU::ROL_ZPX {
            Mode::ZeroPageX
        } else if inst == CPU::ROL_ABS {
            Mode::Absolute
        } else if inst == CPU::ROL_ABSX {
            Mode::AbsoluteX
        } else {
            return false;
        };
        let addr = self.rmw_target(cycles, mem, mode);
        let v = read_byte(cycles, mem, addr);
        *cycles += 1;  // the modify step burns a cycle
        let carry: u8 = if self.c { 1 } else { 0 };
        self.c = v >= 0x80;
        let r = v.wrapping_add(v).wrapping_add(carry);
        write_byte(cycles, mem, addr, r);
        self.set_flags(r);
        true
    }
}

} // verus!
