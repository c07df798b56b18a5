use vstd::prelude::*;
use crate::cpu::CPU;
use crate::cpu::model::{is_php, php_spec, status_byte};

verus! {

impl CPU {
    pub const PHP: u8 = 0x08;

    /// PHP: push the packed status byte, with the break and unused bits set.
    /// When `inst` is this instruction's opcode the handler runs it and returns
    /// true; any other byte leaves everything unchanged and returns false.
    /// [`php_spec`] states the exact effect and the cycles charged beyond the
    /// opcode fetch.
    pub fn run_php(&mut self, cycles: &mut u32, mem: &mut [u8; 0x10000], inst: u8) -> (r: bool)
        requires
            *old(cycles) <= u32::MAX - 7,
        ensures
            r == is_php(inst),
            !is_php(inst) ==> *final(self) == *old(self) && final(mem)@ == old(mem)@
                && *final(cycles) == *old(cycles),
            is_php(inst) ==> ({
                let (c2, m2, k) = php_spec(*old(self), old(mem)@, inst);
                *final(self) == c2 && final(mem)@ == m2 && *final(cycles) == *old(cycles) + k
            }),
    {
        if inst == CPU::PHP {
            let p = self.pack_status();
            self.push_to_stack(cycles, mem, p);
            *cycles += 1;  // internal cycle after the push
            true
        } else {
            false
        }
    }

    /// The packed status byte as pushed by PHP and BRK.
    pub(crate) fn pack_status(&self) -> (p: u8)
        ensures
            p == status_byte(*self),
    {
        let mut p: u8 = 48;  // break and unused bits are always set
        if self.c {
            p += 1;
        }
        if self.z {
            p += 2;
        }
        if self.i {
            p += 4;
        }
        if self.d {
            p += 8;
        }
        if self.v {
            p += 64;
        }
        if self.n {
            p += 128;
        }
        p
    }
}

} // verus!
