//! The processor core: architectural state, bus primitives, addressing-mode
//! resolvers, and the reset/run sequencer. The per-instruction handlers live
//! in the submodules, one per mnemonic; their semantics — including every
//! cycle charge — is written down once, in [`model`].
//!
//! Memory is the degenerate bus responder: a flat 64 KiB array answers every
//! transaction directly. Each read or write of one byte is one bus
//! transaction and charges exactly one clock cycle.

use vstd::prelude::*;
use crate::cpu::model::{
    Mode,
    branch_spec,
    byte_at,
    dispatch_spec,
    is_known,
    lemma_step_cost,
    read_op,
    reset_spec,
    rmw_resolve,
    run_spec,
    spec_run,
    spec_step,
    stack_addr,
    store_resolve,
    with_nz,
    wrap16,
    wrap8,
};

pub mod model;

mod adc;
mod and;
mod asl;
mod bcc;
mod bcs;
mod beq;
mod bit;
mod bmi;
mod bne;
mod bpl;
mod brk;
mod bvc;
mod bvs;
mod clc;
mod cld;
mod cli;
mod clv;
mod cmp;
mod cpx;
mod cpy;
mod dec;
mod dex;
mod dey;
mod eor;
mod inc;
mod inx;
mod iny;
mod jmp;
mod jsr;
pub mod laws;
mod lda;
mod ldx;
mod ldy;
mod lsr;
mod nop;
mod ora;
mod pha;
mod php;
mod pla;
mod plp;
mod rol;
mod ror;
mod rti;
mod rts;
mod sbc;
mod sec;
mod sed;
mod sei;
mod sta;
mod stx;
mod sty;
mod tax;
mod tay;
mod tsx;
mod txa;
mod txs;
mod tya;

verus! {

/// The input pin levels the processor samples: the data lines and the
/// control lines (interrupt request, non-maskable interrupt, clock, ready,
/// reset, power). With the flat-memory responder the levels are latched in
/// the struct; [`CPU::run`] honors `res` and `vdd` at instruction
/// boundaries.
pub struct CpuInputPins {
    pub data: u8,
    /// Interrupt request, active low.
    pub irq: bool,
    /// Non-maskable interrupt, active low.
    pub nmi: bool,
    /// Clock line.
    pub phi2: bool,
    /// Ready line; execution pauses while low.
    pub rdy: bool,
    /// Reset line; holding it low makes [`CPU::run`] perform the reset
    /// sequence before the next instruction.
    pub res: bool,
    /// Power line; [`CPU::run`] stops when it is low.
    pub vdd: bool,
}

/// The output pin levels the processor publishes for one bus transaction:
/// the address lines, the data lines (valid on a write), the read/write
/// direction, and the opcode-fetch marker.
pub struct CpuOutputPins {
    pub addr: u16,
    pub data: u8,
    /// Read when high, write when low.
    pub rwb: bool,
    /// High while the first byte of an instruction is fetched.
    pub sync: bool,
}

/// The architectural state of the processor: program counter, stack
/// pointer, the three 8-bit registers, the six status flags (plus the
/// break flag, which only exists in pushed status bytes), and the latched
/// pin levels.
pub struct CPU {
    pub pc: u16,
    pub sp: u8,
    pub a: u8,
    pub x: u8,
    pub y: u8,
    /// Carry flag.
    pub c: bool,
    /// Zero flag.
    pub z: bool,
    /// Interrupt-disable flag.
    pub i: bool,
    /// Decimal-mode flag.
    pub d: bool,
    /// Break flag.
    pub b: bool,
    /// Overflow flag.
    pub v: bool,
    /// Negative flag.
    pub n: bool,
    pub inp: CpuInputPins,
    pub out: CpuOutputPins,
}

/// One bus read: answered from the memory image, one cycle.
pub(crate) fn read_byte(cycles: &mut u32, mem: &[u8; 0x10000], addr: u16) -> (v: u8)
    requires
        *old(cycles) < u32::MAX,
    ensures
        v == byte_at(mem@, addr),
        *final(cycles) == *old(cycles) + 1,
{
    *cycles += 1;
    mem[addr as usize]
}

/// One bus write: stored into the memory image, one cycle.
pub(crate) fn write_byte(cycles: &mut u32, mem: &mut [u8; 0x10000], addr: u16, val: u8)
    requires
        *old(cycles) < u32::MAX,
    ensures
        final(mem)@ == old(mem)@.update(addr as int, val),
        *final(cycles) == *old(cycles) + 1,
{
    *cycles += 1;
    mem[addr as usize] = val;
}

impl CPU {
    /// A processor at its power-up defaults: the program counter aimed at
    /// the reset vector location, the stack pointer at the top of the
    /// stack page, registers and flags cleared, power applied and reset
    /// released.
    pub fn new() -> (cpu: CPU)
        ensures
            cpu.pc == 0xFFFC,
            cpu.sp == 255,
            cpu.a == 0 && cpu.x == 0 && cpu.y == 0,
            !cpu.c && !cpu.z && !cpu.i && !cpu.d && !cpu.b && !cpu.v && !cpu.n,
            cpu.inp == (CpuInputPins {
                data: 0,
                irq: false,
                nmi: false,
                phi2: false,
                rdy: true,
                res: true,
                vdd: true,
            }),
            cpu.out == (CpuOutputPins { addr: 0, data: 0, rwb: false, sync: false }),
    {
        CPU {
            pc: 0xFFFC,
            sp: 255,
            a: 0,
            x: 0,
            y: 0,
            c: false,
            z: false,
            i: false,
            d: false,
            b: false,
            v: false,
            n: false,
            inp: CpuInputPins {
                data: 0,
                irq: false,
                nmi: false,
                phi2: false,
                rdy: true,
                res: true,
                vdd: true,
            },
            out: CpuOutputPins { addr: 0, data: 0, rwb: false, sync: false },
        }
    }

    /// Fetch the byte the program counter points at and advance it.
    pub(crate) fn read_next_byte(&mut self, cycles: &mut u32, mem: &[u8; 0x10000]) -> (v: u8)
        requires
            *old(cycles) < u32::MAX,
        ensures
            v == byte_at(mem@, old(self).pc),
            *final(self) == (CPU { pc: wrap16(old(self).pc + 1), ..*old(self) }),
            *final(cycles) == *old(cycles) + 1,
    {
        let v = read_byte(cycles, mem, self.pc);
        self.pc = self.pc.wrapping_add(1);
        v
    }

    /// Write a byte at the stack pointer's slot in the stack page, then
    /// decrement the pointer; it wraps at the page boundary by design.
    pub(crate) fn push_to_stack(&mut self, cycles: &mut u32, mem: &mut [u8; 0x10000], val: u8)
        requires
            *old(cycles) < u32::MAX,
        ensures
            final(mem)@ == old(mem)@.update(stack_addr(old(self).sp) as int, val),
            *final(self) == (CPU { sp: wrap8(old(self).sp - 1), ..*old(self) }),
            *final(cycles) == *old(cycles) + 1,
    {
        let addr: u16 = 0x0100 + (self.sp as u16);
        write_byte(cycles, mem, addr, val);
        self.sp = self.sp.wrapping_sub(1);
    }

    /// Increment the stack pointer, then read the byte at its slot; the
    /// exact inverse of a push.
    pub(crate) fn pop_from_stack(&mut self, cycles: &mut u32, mem: &[u8; 0x10000]) -> (v: u8)
        requires
            *old(cycles) < u32::MAX,
        ensures
            v == byte_at(mem@, stack_addr(wrap8(old(self).sp + 1))),
            *final(self) == (CPU { sp: wrap8(old(self).sp + 1), ..*old(self) }),
            *final(cycles) == *old(cycles) + 1,
    {
        self.sp = self.sp.wrapping_add(1);
        let addr: u16 = 0x0100 + (self.sp as u16);
        read_byte(cycles, mem, addr)
    }

    /// Set the negative and zero flags from a freshly produced value.
    pub(crate) fn set_flags(&mut self, val: u8)
        ensures
            *final(self) == with_nz(*old(self), val),
    {
        self.n = val >= 0x80;
        self.z = val == 0;
    }

    /// Resolve a read operand: perform the mode's bus transactions and
    /// return the value, charging exactly the cycles of [`read_op`].
    pub(crate) fn fetch_operand(&mut self, cycles: &mut u32, mem: &[u8; 0x10000], mode: Mode) -> (v:
        u8)
        requires
            *old(cycles) <= u32::MAX - 6,
        ensures
            ({
                let (val, pc2, k) = read_op(*old(self), mem@, mode);
                v == val && *final(self) == (CPU { pc: pc2, ..*old(self) }) && *final(cycles)
                    == *old(cycles) + k
            }),
    {
        match mode {
            Mode::Immediate => self.read_next_byte(cycles, mem),
            Mode::ZeroPage => {
                let addr = self.read_next_byte(cycles, mem) as u16;
                read_byte(cycles, mem, addr)
            },
            Mode::ZeroPageX => {
                let base = self.read_next_byte(cycles, mem);
                *cycles += 1;  // the index addition burns a cycle
                read_byte(cycles, mem, base.wrapping_add(self.x) as u16)
            },
            Mode::ZeroPageY => {
                let base = self.read_next_byte(cycles, mem);
                *cycles += 1;  // the index addition burns a cycle
                read_byte(cycles, mem, base.wrapping_add(self.y) as u16)
            },
            Mode::Absolute => {
                let lsb = self.read_next_byte(cycles, mem);
                let msb = self.read_next_byte(cycles, mem);
                read_byte(cycles, mem, (msb as u16) * 0x100 + (lsb as u16))
            },
            Mode::AbsoluteX => {
                let lsb = self.read_next_byte(cycles, mem);
                let msb = self.read_next_byte(cycles, mem);
                let base = (msb as u16) * 0x100 + (lsb as u16);
                let addr = base.wrapping_add(self.x as u16);
                if base / 0x100 != addr / 0x100 {
                    *cycles += 1;  // page crossed
                }
                read_byte(cycles, mem, addr)
            },
            Mode::AbsoluteY => {
                let lsb = self.read_next_byte(cycles, mem);
                let msb = self.read_next_byte(cycles, mem);
                let base = (msb as u16) * 0x100 + (lsb as u16);
                let addr = base.wrapping_add(self.y as u16);
                if base / 0x100 != addr / 0x100 {
                    *cycles += 1;  // page crossed
                }
                read_byte(cycles, mem, addr)
            },
            Mode::IndirectX => {
                let base = self.read_next_byte(cycles, mem);
                *cycles += 1;  // the index addition burns a cycle
                let zp = base.wrapping_add(self.x);
                let lsb = read_byte(cycles, mem, zp as u16);
                let msb = read_byte(cycles, mem, zp.wrapping_add(1) as u16);
                read_byte(cycles, mem, (msb as u16) * 0x100 + (lsb as u16))
            },
            Mode::IndirectY => {
                let zp = self.read_next_byte(cycles, mem);
                let lsb = read_byte(cycles, mem, zp as u16);
                let msb = read_byte(cycles, mem, zp.wrapping_add(1) as u16);
                let base = (msb as u16) * 0x100 + (lsb as u16);
                let addr = base.wrapping_add(self.y as u16);
                if base / 0x100 != addr / 0x100 {
                    *cycles += 1;  // page crossed
                }
                read_byte(cycles, mem, addr)
            },
        }
    }

    /// Resolve a store target: the address to write, charging exactly the
    /// cycles of [`store_resolve`]. Indexed modes charge their penalty
    /// cycle unconditionally.
    pub(crate) fn store_target(&mut self, cycles: &mut u32, mem: &[u8; 0x10000], mode: Mode) -> (addr:
        u16)
        requires
            *old(cycles) <= u32::MAX - 5,
            !(mode is Immediate),
        ensures
            ({
                let (a, pc2, k) = store_resolve(*old(self), mem@, mode);
                addr == a && *final(self) == (CPU { pc: pc2, ..*old(self) }) && *final(cycles)
                    == *old(cycles) + k
            }),
    {
        match mode {
            Mode::Immediate => 0,  // excluded by the precondition
            Mode::ZeroPage => self.read_next_byte(cycles, mem) as u16,
            Mode::ZeroPageX => {
                let base = self.read_next_byte(cycles, mem);
                *cycles += 1;  // the index addition burns a cycle
                base.wrapping_add(self.x) as u16
            },
            Mode::ZeroPageY => {
                let base = self.read_next_byte(cycles, mem);
                *cycles += 1;  // the index addition burns a cycle
                base.wrapping_add(self.y) as u16
            },
            Mode::Absolute => {
                let lsb = self.read_next_byte(cycles, mem);
                let msb = self.read_next_byte(cycles, mem);
                (msb as u16) * 0x100 + (lsb as u16)
            },
            Mode::AbsoluteX => {
                let lsb = self.read_next_byte(cycles, mem);
                let msb = self.read_next_byte(cycles, mem);
                *cycles += 1;  // writes always charge the index cycle
                ((msb as u16) * 0x100 + (lsb as u16)).wrapping_add(self.x as u16)
            },
            Mode::AbsoluteY => {
                let lsb = self.read_next_byte(cycles, mem);
                let msb = self.read_next_byte(cycles, mem);
                *cycles += 1;  // writes always charge the index cycle
                ((msb as u16) * 0x100 + (lsb as u16)).wrapping_add(self.y as u16)
            },
            Mode::IndirectX => {
                let base = self.read_next_byte(cycles, mem);
                *cycles += 1;  // the index addition burns a cycle
                let zp = base.wrapping_add(self.x);
                let lsb = read_byte(cycles, mem, zp as u16);
                let msb = read_byte(cycles, mem, zp.wrapping_add(1) as u16);
                (msb as u16) * 0x100 + (lsb as u16)
            },
            Mode::IndirectY => {
                let zp = self.read_next_byte(cycles, mem);
                let lsb = read_byte(cycles, mem, zp as u16);
                let msb = read_byte(cycles, mem, zp.wrapping_add(1) as u16);
                *cycles += 1;  // writes always charge the index cycle
                ((msb as u16) * 0x100 + (lsb as u16)).wrapping_add(self.y as u16)
            },
        }
    }

    /// Resolve a read-modify-write target, charging exactly the cycles of
    /// [`rmw_resolve`]. Only the four modes with such a form are accepted.
    pub(crate) fn rmw_target(&mut self, cycles: &mut u32, mem: &[u8; 0x10000], mode: Mode) -> (addr:
        u16)
        requires
            *old(cycles) <= u32::MAX - 3,
            mode is ZeroPage || mode is ZeroPageX || mode is Absolute || mode is AbsoluteX,
        ensures
            ({
                let (a, pc2, k) = rmw_resolve(*old(self), mem@, mode);
                addr == a && *final(self) == (CPU { pc: pc2, ..*old(self) }) && *final(cycles)
                    == *old(cycles) + k
            }),
    {
        match mode {
            Mode::ZeroPage => self.read_next_byte(cycles, mem) as u16,
            Mode::ZeroPageX => {
                let base = self.read_next_byte(cycles, mem);
                *cycles += 1;  // the index addition burns a cycle
                base.wrapping_add(self.x) as u16
            },
            Mode::Absolute => {
                let lsb = self.read_next_byte(cycles, mem);
                let msb = self.read_next_byte(cycles, mem);
                (msb as u16) * 0x100 + (lsb as u16)
            },
            Mode::AbsoluteX => {
                let lsb = self.read_next_byte(cycles, mem);
                let msb = self.read_next_byte(cycles, mem);
                *cycles += 1;  // the index cycle is charged unconditionally
                ((msb as u16) * 0x100 + (lsb as u16)).wrapping_add(self.x as u16)
            },
            _ => 0,  // excluded by the precondition
        }
    }

    /// Read the displacement byte; when the condition holds, take the
    /// branch, charging one extra cycle and a second on a page crossing.
    pub(crate) fn take_branch(&mut self, cycles: &mut u32, mem: &[u8; 0x10000], cond: bool)
        requires
            *old(cycles) <= u32::MAX - 3,
        ensures
            ({
                let (c2, k) = branch_spec(*old(self), mem@, cond);
                *final(self) == c2 && *final(cycles) == *old(cycles) + k
            }),
    {
        let off = self.read_next_byte(cycles, mem);
        if cond {
            *cycles += 1;
            let pc2 = self.pc;
            let dest = if off < 0x80 {
                pc2.wrapping_add(off as u16)
            } else {
                pc2.wrapping_sub(0x100 - off as u16)
            };
            if pc2 / 0x100 != dest / 0x100 {
                *cycles += 1;  // page crossed
            }
            self.pc = dest;
        }
    }

    /// Execute one whole instruction: fetch the opcode and dispatch it to
    /// its handler. An unknown opcode is the fatal condition: nothing is
    /// charged or changed, and the offending byte stays at the program
    /// counter for the caller's diagnostic.
    fn step(&mut self, cycles: &mut u32, mem: &mut [u8; 0x10000]) -> (r: bool)
        requires
            *old(cycles) <= u32::MAX - 8,
        ensures
            match spec_step(*old(self), old(mem)@) {
                None => !r && *final(self) == *old(self) && final(mem)@ == old(mem)@
                    && *final(cycles) == *old(cycles),
                Some((c2, m2, k)) => r && *final(self) == c2 && final(mem)@ == m2
                    && *final(cycles) == *old(cycles) + k,
            },
    {
        proof {
            reveal(is_known);
            reveal(dispatch_spec);
        }
        let pc0 = self.pc;
        let inst = self.read_next_byte(cycles, mem);
        if self.run_lda(cycles, mem, inst) {
            return true;
        }
        if self.run_ldx(cycles, mem, inst) {
            return true;
        }
        if self.run_ldy(cycles, mem, inst) {
            return true;
        }
        if self.run_lsr(cycles, mem, inst) {
            return true;
        }
        if self.run_ora(cycles, mem, inst) {
            return true;
        }
        if self.run_nop(cycles, mem, inst) {
            return true;
        }
        if self.run_pha(cycles, mem, inst) {
            return true;
        }
        if self.run_php(cycles, mem, inst) {
            return true;
        }
        if self.run_pla(cycles, mem, inst) {
            return true;
        }
        if self.run_plp(cycles, mem, inst) {
            return true;
        }
        if self.run_adc(cycles, mem, inst) {
            return true;
        }
        if self.run_and(cycles, mem, inst) {
            return true;
        }
        if self.run_asl(cycles, mem, inst) {
            return true;
        }
        if self.run_rol(cycles, mem, inst) {
            return true;
        }
        if self.run_bcc(cycles, mem, inst) {
            return true;
        }
        if self.run_bcs(cycles, mem, inst) {
            return true;
        }
        if self.run_beq(cycles, mem, inst) {
            return true;
        }
        if self.run_bit(cycles, mem, inst) {
            return true;
        }
        if self.run_bmi(cycles, mem, inst) {
            return true;
        }
        if self.run_bne(cycles, mem, inst) {
            return true;
        }
        if self.run_bpl(cycles, mem, inst) {
            return true;
        }
        if self.run_brk(cycles, mem, inst) {
            return true;
        }
        if self.run_bvc(cycles, mem, inst) {
            return true;
        }
        if self.run_bvs(cycles, mem, inst) {
            return true;
        }
        if self.run_clc(cycles, mem, inst) {
            return true;
        }
        if self.run_cld(cycles, mem, inst) {
            return true;
        }
        if self.run_cli(cycles, mem, inst) {
            return true;
        }
        if self.run_clv(cycles, mem, inst) {
            return true;
        }
        if self.run_cmp(cycles, mem, inst) {
            return true;
        }
        if self.run_cpx(cycles, mem, inst) {
            return true;
        }
        if self.run_cpy(cycles, mem, inst) {
            return true;
        }
        if self.run_dec(cycles, mem, inst) {
            return true;
        }
        if self.run_dex(cycles, mem, inst) {
            return true;
        }
        if self.run_dey(cycles, mem, inst) {
            return true;
        }
        if self.run_eor(cycles, mem, inst) {
            return true;
        }
        if self.run_inc(cycles, mem, inst) {
            return true;
        }
        if self.run_inx(cycles, mem, inst) {
            return true;
        }
        if self.run_iny(cycles, mem, inst) {
            return true;
        }
        if self.run_jmp(cycles, mem, inst) {
            return true;
        }
        if self.run_jsr(cycles, mem, inst) {
            return true;
        }
        if self.run_ror(cycles, mem, inst) {
            return true;
        }
        if self.run_rti(cycles, mem, inst) {
            return true;
        }
        if self.run_rts(cycles, mem, inst) {
            return true;
        }
        if self.run_sbc(cycles, mem, inst) {
            return true;
        }
        if self.run_sec(cycles, mem, inst) {
            return true;
        }
        if self.run_sed(cycles, mem, inst) {
            return true;
        }
        if self.run_sei(cycles, mem, inst) {
            return true;
        }
        if self.run_sta(cycles, mem, inst) {
            return true;
        }
        if self.run_stx(cycles, mem, inst) {
            return true;
        }
        if self.run_sty(cycles, mem, inst) {
            return true;
        }
        if self.run_tax(cycles, mem, inst) {
            return true;
        }
        if self.run_tay(cycles, mem, inst) {
            return true;
        }
        if self.run_tsx(cycles, mem, inst) {
            return true;
        }
        if self.run_txa(cycles, mem, inst) {
            return true;
        }
        if self.run_txs(cycles, mem, inst) {
            return true;
        }
        if self.run_tya(cycles, mem, inst) {
            return true;
        }
        // No handler claimed the byte: undo the fetch and report the
        // unknown opcode by leaving the program counter on it.
        self.pc = pc0;
        *cycles -= 1;
        false
    }

    /// Run the machine for at least `cycles` clock cycles, against the
    /// flat-memory bus responder, and return the cycles consumed.
    ///
    /// Without power (`inp.vdd` low) nothing runs and the count is zero.
    /// While reset is asserted (`inp.res` low) the reset sequence runs
    /// first: one transaction observing the release, seven settle cycles,
    /// and the two reset-vector fetches, ten cycles in all, after which
    /// registers hold their power-up defaults. Then instructions execute
    /// one at a time until the budget is spent; an instruction begun
    /// within the budget completes, so the count returned can exceed the
    /// budget by the tail of the last instruction. An unknown opcode stops
    /// the machine early: the count returned then falls short of the
    /// budget and the program counter rests on the offending byte.
    ///
    /// The interrupt-request, non-maskable-interrupt and ready lines are
    /// latched but not acted on here: interrupt entry exists through the
    /// BRK instruction, and a ready-line pause has no meaning against a
    /// memory that answers instantly.
    pub fn run(&mut self, cycles: u32, mem: &mut [u8; 0x10000]) -> (consumed: u32)
        requires
            cycles <= 0xFFFF_FF00,
        ensures
            ({
                let (c2, m2, used) = run_spec(*old(self), old(mem)@, cycles as int);
                *final(self) == c2 && final(mem)@ == m2 && consumed == used
            }),
    {
        let ghost entry_cpu = *old(self);
        let ghost entry_mem = old(mem)@;
        let mut consumed: u32 = 0;
        if !self.inp.vdd {
            return 0;
        }
        if !self.inp.res {
            consumed += 8;  // the release poll and seven settle cycles
            let lsb = read_byte(&mut consumed, mem, 0xFFFC);
            let msb = read_byte(&mut consumed, mem, 0xFFFD);
            self.pc = (msb as u16) * 0x100 + (lsb as u16);
            self.sp = 255;
            self.a = 0;
            self.x = 0;
            self.y = 0;
            self.c = false;
            self.z = false;
            self.i = false;
            self.d = false;
            self.b = false;
            self.v = false;
            self.n = false;
            self.inp.res = true;
            proof {
                assert(*self == reset_spec(entry_cpu, entry_mem).0);
            }
        }
        let ghost mid_cpu = *self;
        let ghost mid_mem = mem@;
        let ghost mid_used = consumed as int;
        while consumed < cycles
            invariant
                cycles <= 0xFFFF_FF00,
                mid_used <= consumed,
                ({
                    let (cf, mf, kf) = spec_run(*self, mem@, cycles - consumed);
                    spec_run(mid_cpu, mid_mem, cycles - mid_used) == (
                        cf,
                        mf,
                        (consumed - mid_used) + kf,
                    )
                }),
            ensures
                consumed >= cycles || spec_step(*self, mem@) is None,
            decreases (if consumed < cycles {
                cycles - consumed
            } else {
                0int
            }),
        {
            let ghost prev_cpu = *self;
            let ghost prev_mem = mem@;
            let ghost prev_used = consumed as int;
            proof {
                lemma_step_cost(*self, mem@);
            }
            let stepped = self.step(&mut consumed, mem);
            proof {
                let budget_prev = cycles - prev_used;
                match spec_step(prev_cpu, prev_mem) {
                    None => {},
                    Some((c2, m2, k)) => {
                        let next = if budget_prev - k > 0 {
                            budget_prev - k
                        } else {
                            0
                        };
                        assert(spec_run(prev_cpu, prev_mem, budget_prev) == (
                            spec_run(c2, m2, next).0,
                            spec_run(c2, m2, next).1,
                            k + spec_run(c2, m2, next).2,
                        ));
                        if next != cycles - consumed {
                            assert(spec_run(c2, m2, next) == (c2, m2, 0int));
                            assert(spec_run(c2, m2, cycles - consumed) == (c2, m2, 0int));
                        }
                    },
                }
            }
            if !stepped {
                break;
            }
        }
        proof {
            if entry_cpu.inp.vdd && !entry_cpu.inp.res {
                assert(run_spec(entry_cpu, entry_mem, cycles as int) == (
                    spec_run(mid_cpu, mid_mem, cycles - 10).0,
                    spec_run(mid_cpu, mid_mem, cycles - 10).1,
                    10 + spec_run(mid_cpu, mid_mem, cycles - 10).2,
                ));
            }
        }
        consumed
    }
}

} // verus!
