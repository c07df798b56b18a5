//! The mathematical model of the processor: what every instruction does to
//! the architectural state, the memory, and the cycle counter.
//!
//! The executable handlers in the sibling modules carry contracts stated
//! over these functions, so this file is the single place where the
//! instruction-set semantics — including every cycle charge — is written
//! down.

use vstd::prelude::*;
use crate::cpu::{CPU, CpuInputPins};

verus! {

/// An addressing mode of the instruction set.
#[derive(Clone, Copy)]
pub enum Mode {
    Immediate,
    ZeroPage,
    ZeroPageX,
    ZeroPageY,
    Absolute,
    AbsoluteX,
    AbsoluteY,
    IndirectX,
    IndirectY,
}

pub open spec fn b2i(b: bool) -> int {
    if b {
        1
    } else {
        0
    }
}

/// A 16-bit value reduced modulo 2^16. Every use stays within one wrap.
pub open spec fn wrap16(v: int) -> u16
    recommends
        -0x10000 <= v < 0x20000,
{
    if v >= 0x10000 {
        (v - 0x10000) as u16
    } else if v < 0 {
        (v + 0x10000) as u16
    } else {
        v as u16
    }
}

/// An 8-bit value reduced modulo 2^8. Every use stays within one wrap.
pub open spec fn wrap8(v: int) -> u8
    recommends
        -0x100 <= v < 0x200,
{
    if v >= 0x100 {
        (v - 0x100) as u8
    } else if v < 0 {
        (v + 0x100) as u8
    } else {
        v as u8
    }
}

/// Bit 7 of a byte: the sign of its two's-complement reading.
pub open spec fn is_neg(v: u8) -> bool {
    v >= 0x80
}

/// The two's-complement value of a byte.
pub open spec fn signed8(v: u8) -> int {
    if v < 0x80 {
        v as int
    } else {
        v - 0x100
    }
}

/// A 16-bit address assembled from its low and high bytes.
pub open spec fn addr16(lsb: u8, msb: u8) -> u16 {
    (msb as int * 0x100 + lsb) as u16
}

/// The byte a memory image holds at an address.
pub open spec fn byte_at(mem: Seq<u8>, addr: u16) -> u8 {
    mem[addr as int]
}

/// One extra cycle when an indexed address falls on a different page
/// (its high byte differs) than its base.
pub open spec fn cross1(base: u16, addr: u16) -> int {
    if base / 0x100 != addr / 0x100 {
        1
    } else {
        0
    }
}

/// The address in the stack page that a stack pointer designates.
pub open spec fn stack_addr(sp: u8) -> u16 {
    (0x100 + sp) as u16
}

/// The destination of a relative branch: the program counter after the
/// displacement byte, plus the displacement read as a signed byte.
pub open spec fn rel_target(pc: u16, off: u8) -> u16 {
    wrap16(pc + signed8(off))
}

/// The 16-bit operand of an absolute-mode instruction: low byte first.
pub open spec fn abs_operand(mem: Seq<u8>, pc: u16) -> u16 {
    addr16(byte_at(mem, pc), byte_at(mem, wrap16(pc + 1)))
}

/// The pointer fetched from a zero-page slot, wrapping within the page.
pub open spec fn zp_pointer(mem: Seq<u8>, zp: u8) -> u16 {
    addr16(byte_at(mem, zp as u16), byte_at(mem, wrap8(zp + 1) as u16))
}

/// Resolving a read operand: the value read, the program counter after the
/// operand bytes, and the cycles charged (fetch of the opcode excluded).
pub open spec fn read_op(cpu: CPU, mem: Seq<u8>, mode: Mode) -> (u8, u16, int) {
    match mode {
        Mode::Immediate => (byte_at(mem, cpu.pc), wrap16(cpu.pc + 1), 1),
        Mode::ZeroPage => (byte_at(mem, byte_at(mem, cpu.pc) as u16), wrap16(cpu.pc + 1), 2),
        Mode::ZeroPageX => (
            byte_at(mem, wrap8(byte_at(mem, cpu.pc) + cpu.x) as u16),
            wrap16(cpu.pc + 1),
            3,
        ),
        Mode::ZeroPageY => (
            byte_at(mem, wrap8(byte_at(mem, cpu.pc) + cpu.y) as u16),
            wrap16(cpu.pc + 1),
            3,
        ),
        Mode::Absolute => (byte_at(mem, abs_operand(mem, cpu.pc)), wrap16(cpu.pc + 2), 3),
        Mode::AbsoluteX => {
            let base = abs_operand(mem, cpu.pc);
            let addr = wrap16(base + cpu.x);
            (byte_at(mem, addr), wrap16(cpu.pc + 2), 3 + cross1(base, addr))
        },
        Mode::AbsoluteY => {
            let base = abs_operand(mem, cpu.pc);
            let addr = wrap16(base + cpu.y);
            (byte_at(mem, addr), wrap16(cpu.pc + 2), 3 + cross1(base, addr))
        },
        Mode::IndirectX => {
            let zp = wrap8(byte_at(mem, cpu.pc) + cpu.x);
            (byte_at(mem, zp_pointer(mem, zp)), wrap16(cpu.pc + 1), 5)
        },
        Mode::IndirectY => {
            let base = zp_pointer(mem, byte_at(mem, cpu.pc));
            let addr = wrap16(base + cpu.y);
            (byte_at(mem, addr), wrap16(cpu.pc + 1), 4 + cross1(base, addr))
        },
    }
}

/// Resolving a store target: the address written, the program counter after
/// the operand bytes, and the cycles charged before the write itself.
/// Indexed modes charge their penalty cycle unconditionally.
pub open spec fn store_resolve(cpu: CPU, mem: Seq<u8>, mode: Mode) -> (u16, u16, int) {
    match mode {
        Mode::Immediate => (0, cpu.pc, 0),  // stores have no immediate form
        Mode::ZeroPage => (byte_at(mem, cpu.pc) as u16, wrap16(cpu.pc + 1), 1),
        Mode::ZeroPageX => (wrap8(byte_at(mem, cpu.pc) + cpu.x) as u16, wrap16(cpu.pc + 1), 2),
        Mode::ZeroPageY => (wrap8(byte_at(mem, cpu.pc) + cpu.y) as u16, wrap16(cpu.pc + 1), 2),
        Mode::Absolute => (abs_operand(mem, cpu.pc), wrap16(cpu.pc + 2), 2),
        Mode::AbsoluteX => (
            wrap16(abs_operand(mem, cpu.pc) + cpu.x),
            wrap16(cpu.pc + 2),
            3,
        ),
        Mode::AbsoluteY => (
            wrap16(abs_operand(mem, cpu.pc) + cpu.y),
            wrap16(cpu.pc + 2),
            3,
        ),
        Mode::IndirectX => (
            zp_pointer(mem, wrap8(byte_at(mem, cpu.pc) + cpu.x)),
            wrap16(cpu.pc + 1),
            4,
        ),
        Mode::IndirectY => (
            wrap16(zp_pointer(mem, byte_at(mem, cpu.pc)) + cpu.y),
            wrap16(cpu.pc + 1),
            4,
        ),
    }
}

/// Resolving a read-modify-write target: the address, the program counter
/// after the operand bytes, and the cycles charged before the read, the
/// modify cycle, and the write that follow.
pub open spec fn rmw_resolve(cpu: CPU, mem: Seq<u8>, mode: Mode) -> (u16, u16, int) {
    match mode {
        Mode::ZeroPage => (byte_at(mem, cpu.pc) as u16, wrap16(cpu.pc + 1), 1),
        Mode::ZeroPageX => (wrap8(byte_at(mem, cpu.pc) + cpu.x) as u16, wrap16(cpu.pc + 1), 2),
        Mode::Absolute => (abs_operand(mem, cpu.pc), wrap16(cpu.pc + 2), 2),
        Mode::AbsoluteX => (
            wrap16(abs_operand(mem, cpu.pc) + cpu.x),
            wrap16(cpu.pc + 2),
            3,
        ),
        _ => (0, cpu.pc, 0),  // no other mode has a read-modify-write form
    }
}

/// The negative and zero flags that a freshly produced value sets.
pub open spec fn with_nz(cpu: CPU, v: u8) -> CPU {
    CPU { n: is_neg(v), z: v == 0, ..cpu }
}

/// The packed status byte as pushed by PHP and BRK: carry, zero,
/// interrupt-disable, decimal, break (always set in the pushed byte), the
/// always-set unused bit, overflow, negative.
pub open spec fn status_byte(cpu: CPU) -> u8 {
    (b2i(cpu.c) + 2 * b2i(cpu.z) + 4 * b2i(cpu.i) + 8 * b2i(cpu.d) + 16 + 32 + 64 * b2i(cpu.v)
        + 128 * b2i(cpu.n)) as u8
}

/// Whether the status-byte bit of weight `w` is set in `p`.
pub open spec fn bit_of(p: u8, w: int) -> bool
    recommends
        w == 1 || w == 2 || w == 4 || w == 8 || w == 16 || w == 32 || w == 64 || w == 128,
{
    (p as int / w) % 2 == 1
}

/// Flags restored from a pulled status byte, as PLP and RTI do it: the
/// break flag is intentionally not restored — it is not a stored flag.
pub open spec fn unpack_status(cpu: CPU, p: u8) -> CPU {
    CPU {
        c: bit_of(p, 1),
        z: bit_of(p, 2),
        i: bit_of(p, 4),
        d: bit_of(p, 8),
        v: bit_of(p, 64),
        n: bit_of(p, 128),
        ..cpu
    }
}

/// Binary-mode add with carry: a 9-bit sum; carry is bit 8, overflow is set
/// when both addends share a sign and the truncated sum's sign differs.
pub open spec fn adc_binary(cpu: CPU, val: u8) -> CPU {
    let sum = cpu.a + val + b2i(cpu.c);
    let r = wrap8(sum);
    CPU {
        a: r,
        c: sum >= 0x100,
        v: is_neg(cpu.a) == is_neg(val) && is_neg(r) != is_neg(cpu.a),
        n: is_neg(r),
        z: r == 0,
        ..cpu
    }
}

/// Decimal-mode add with carry: nibble-wise, correcting a nibble by six
/// when it exceeds nine and carrying the correction upward. The carry comes
/// from the correction pass; the negative and zero flags come from the
/// uncorrected binary sum. The overflow flag is left unchanged.
pub open spec fn adc_decimal(cpu: CPU, val: u8) -> CPU {
    let bin = wrap8(cpu.a + val + b2i(cpu.c));
    let lo = cpu.a % 16 + val % 16 + b2i(cpu.c);
    let lc = lo > 9;
    let lo2 = if lc {
        (lo + 6) % 16
    } else {
        lo
    };
    let hi = cpu.a / 16 + val / 16 + b2i(lc);
    let hc = hi > 9;
    let hi2 = if hc {
        (hi + 6) % 16
    } else {
        hi
    };
    CPU { a: (hi2 * 16 + lo2) as u8, c: hc, n: is_neg(bin), z: bin == 0, ..cpu }
}

pub open spec fn adc_apply(cpu: CPU, val: u8) -> CPU {
    if cpu.d {
        adc_decimal(cpu, val)
    } else {
        adc_binary(cpu, val)
    }
}


/// The decimal-mode accumulator correction of SBC: nibble-wise subtraction
/// with a borrow of six applied to a nibble that underflowed or exceeds
/// nine, the low nibble's borrow propagating into the high one.
pub open spec fn sbc_decimal_a(a: u8, val: u8, c: bool) -> u8 {
    let lo1 = wrap8(a % 16 - val % 16 - b2i(!c));
    let rest = lo1 > 9;
    let lo2 = if rest {
        (wrap8(lo1 - 6) % 16) as int
    } else {
        lo1 as int
    };
    let hi1 = wrap8(a / 16 - val / 16 - b2i(rest));
    let hi2 = if hi1 > 9 {
        (wrap8(hi1 - 6) % 16) as int
    } else {
        hi1 as int
    };
    (hi2 * 16 + lo2) as u8
}

/// Subtract with carry: add with the operand's bits inverted. Carry,
/// overflow, negative and zero always come from that binary sum; in
/// decimal mode the accumulator is corrected nibble-wise with independent
/// borrow propagation.
pub open spec fn sbc_apply(cpu: CPU, val: u8) -> CPU {
    let inv = (0xff - val) as u8;
    let sum = cpu.a + inv + b2i(cpu.c);
    let bin = wrap8(sum);
    let cf = sum >= 0x100;
    let vf = is_neg(cpu.a) == is_neg(inv) && is_neg(bin) != is_neg(cpu.a);
    if cpu.d {
        CPU { a: sbc_decimal_a(cpu.a, val, cpu.c), c: cf, v: vf, n: is_neg(bin), z: bin == 0, ..cpu }
    } else {
        CPU { a: bin, c: cf, v: vf, n: is_neg(bin), z: bin == 0, ..cpu }
    }
}

/// Compare: flags of `reg - val` without storing the result.
pub open spec fn compare_flags(cpu: CPU, reg: u8, val: u8) -> CPU {
    CPU { c: reg >= val, z: reg == val, n: is_neg(wrap8(reg - val)), ..cpu }
}

/// A taken or not-taken relative branch: the displacement byte is always
/// read; a taken branch costs one extra cycle, and one more when the
/// destination's page differs from that of the instruction's end.
pub open spec fn branch_spec(cpu: CPU, mem: Seq<u8>, cond: bool) -> (CPU, int) {
    let off = byte_at(mem, cpu.pc);
    let pc2 = wrap16(cpu.pc + 1);
    if cond {
        let dest = rel_target(pc2, off);
        (CPU { pc: dest, ..cpu }, 2 + cross1(pc2, dest))
    } else {
        (CPU { pc: pc2, ..cpu }, 1)
    }
}

//
// Per-instruction semantics. Each `xxx_spec` maps the state after the
// opcode fetch (and the memory image) to the state after the instruction,
// the memory after it, and the cycles charged beyond the opcode fetch.
//

pub open spec fn is_lda(op: u8) -> bool {
    op == CPU::LDA_IM || op == CPU::LDA_ZP || op == CPU::LDA_ZPX || op == CPU::LDA_ABS || op == CPU::LDA_ABSX || op == CPU::LDA_ABSY || op == CPU::LDA_INDX || op == CPU::LDA_INDY
}

pub open spec fn lda_mode(op: u8) -> Mode
    recommends
        is_lda(op),
{
    if op == CPU::LDA_IM {
        Mode::Immediate
    } else if op == CPU::LDA_ZP {
        Mode::ZeroPage
    } else if op == CPU::LDA_ZPX {
        Mode::ZeroPageX
    } else if op == CPU::LDA_ABS {
        Mode::Absolute
    } else if op == CPU::LDA_ABSX {
        Mode::AbsoluteX
    } else if op == CPU::LDA_ABSY {
        Mode::AbsoluteY
    } else if op == CPU::LDA_INDX {
        Mode::IndirectX
    } else if op == CPU::LDA_INDY {
        Mode::IndirectY
    } else {
        Mode::Immediate  // unreachable under the recommends
    }
}

/// LDA: load the accumulator.
pub open spec fn lda_spec(cpu: CPU, mem: Seq<u8>, op: u8) -> (CPU, Seq<u8>, int)
    recommends
        is_lda(op),
{
    let (v, pc2, k) = read_op(cpu, mem, lda_mode(op));
    (with_nz(CPU { a: v, pc: pc2, ..cpu }, v), mem, k)
}

pub open spec fn is_ldx(op: u8) -> bool {
    op == CPU::LDX_IM || op == CPU::LDX_ZP || op == CPU::LDX_ZPY || op == CPU::LDX_ABS || op == CPU::LDX_ABSY
}

pub open spec fn ldx_mode(op: u8) -> Mode
    recommends
        is_ldx(op),
{
    if op == CPU::LDX_IM {
        Mode::Immediate
    } else if op == CPU::LDX_ZP {
        Mode::ZeroPage
    } else if op == CPU::LDX_ZPY {
        Mode::ZeroPageY
    } else if op == CPU::LDX_ABS {
        Mode::Absolute
    } else if op == CPU::LDX_ABSY {
        Mode::AbsoluteY
    } else {
        Mode::Immediate  // unreachable under the recommends
    }
}

/// LDX: load the X register.
pub open spec fn ldx_spec(cpu: CPU, mem: Seq<u8>, op: u8) -> (CPU, Seq<u8>, int)
    recommends
        is_ldx(op),
{
    let (v, pc2, k) = read_op(cpu, mem, ldx_mode(op));
    (with_nz(CPU { x: v, pc: pc2, ..cpu }, v), mem, k)
}

pub open spec fn is_ldy(op: u8) -> bool {
    op == CPU::LDY_IM || op == CPU::LDY_ZP || op == CPU::LDY_ZPX || op == CPU::LDY_ABS || op == CPU::LDY_ABSX
}

pub open spec fn ldy_mode(op: u8) -> Mode
    recommends
        is_ldy(op),
{
    if op == CPU::LDY_IM {
        Mode::Immediate
    } else if op == CPU::LDY_ZP {
        Mode::ZeroPage
    } else if op == CPU::LDY_ZPX {
        Mode::ZeroPageX
    } else if op == CPU::LDY_ABS {
        Mode::Absolute
    } else if op == CPU::LDY_ABSX {
        Mode::AbsoluteX
    } else {
        Mode::Immediate  // unreachable under the recommends
    }
}

/// LDY: load the Y register.
pub open spec fn ldy_spec(cpu: CPU, mem: Seq<u8>, op: u8) -> (CPU, Seq<u8>, int)
    recommends
        is_ldy(op),
{
    let (v, pc2, k) = read_op(cpu, mem, ldy_mode(op));
    (with_nz(CPU { y: v, pc: pc2, ..cpu }, v), mem, k)
}

pub open spec fn is_and(op: u8) -> bool {
    op == CPU::AND_IM || op == CPU::AND_ZP || op == CPU::AND_ZPX || op == CPU::AND_ABS || op == CPU::AND_ABSX || op == CPU::AND_ABSY || op == CPU::AND_INDX || op == CPU::AND_INDY
}

pub open spec fn and_mode(op: u8) -> Mode
    recommends
        is_and(op),
{
    if op == CPU::AND_IM {
        Mode::Immediate
    } else if op == CPU::AND_ZP {
        Mode::ZeroPage
    } else if op == CPU::AND_ZPX {
        Mode::ZeroPageX
    } else if op == CPU::AND_ABS {
        Mode::Absolute
    } else if op == CPU::AND_ABSX {
        Mode::AbsoluteX
    } else if op == CPU::AND_ABSY {
        Mode::AbsoluteY
    } else if op == CPU::AND_INDX {
        Mode::IndirectX
    } else if op == CPU::AND_INDY {
        Mode::IndirectY
    } else {
        Mode::Immediate  // unreachable under the recommends
    }
}

/// AND: bitwise-and the operand into the accumulator.
pub open spec fn and_spec(cpu: CPU, mem: Seq<u8>, op: u8) -> (CPU, Seq<u8>, int)
    recommends
        is_and(op),
{
    let (v, pc2, k) = read_op(cpu, mem, and_mode(op));
    (with_nz(CPU { a: cpu.a & v, pc: pc2, ..cpu }, cpu.a & v), mem, k)
}

pub open spec fn is_ora(op: u8) -> bool {
    op == CPU::ORA_IM || op == CPU::ORA_ZP || op == CPU::ORA_ZPX || op == CPU::ORA_ABS || op == CPU::ORA_ABSX || op == CPU::ORA_ABSY || op == CPU::ORA_INDX || op == CPU::ORA_INDY
}

pub open spec fn ora_mode(op: u8) -> Mode
    recommends
        is_ora(op),
{
    if op == CPU::ORA_IM {
        Mode::Immediate
    } else if op == CPU::ORA_ZP {
        Mode::ZeroPage
    } else if op == CPU::ORA_ZPX {
        Mode::ZeroPageX
    } else if op == CPU::ORA_ABS {
        Mode::Absolute
    } else if op == CPU::ORA_ABSX {
        Mode::AbsoluteX
    } else if op == CPU::ORA_ABSY {
        Mode::AbsoluteY
    } else if op == CPU::ORA_INDX {
        Mode::IndirectX
    } else if op == CPU::ORA_INDY {
        Mode::IndirectY
    } else {
        Mode::Immediate  // unreachable under the recommends
    }
}

/// ORA: bitwise-or the operand into the accumulator.
pub open spec fn ora_spec(cpu: CPU, mem: Seq<u8>, op: u8) -> (CPU, Seq<u8>, int)
    recommends
        is_ora(op),
{
    let (v, pc2, k) = read_op(cpu, mem, ora_mode(op));
    (with_nz(CPU { a: cpu.a | v, pc: pc2, ..cpu }, cpu.a | v), mem, k)
}

pub open spec fn is_eor(op: u8) -> bool {
    op == CPU::EOR_IM || op == CPU::EOR_ZP || op == CPU::EOR_ZPX || op == CPU::EOR_ABS || op == CPU::EOR_ABSX || op == CPU::EOR_ABSY || op == CPU::EOR_INDX || op == CPU::EOR_INDY
}

pub open spec fn eor_mode(op: u8) -> Mode
    recommends
        is_eor(op),
{
    if op == CPU::EOR_IM {
        Mode::Immediate
    } else if op == CPU::EOR_ZP {
        Mode::ZeroPage
    } else if op == CPU::EOR_ZPX {
        Mode::ZeroPageX
    } else if op == CPU::EOR_ABS {
        Mode::Absolute
    } else if op == CPU::EOR_ABSX {
        Mode::AbsoluteX
    } else if op == CPU::EOR_ABSY {
        Mode::AbsoluteY
    } else if op == CPU::EOR_INDX {
        Mode::IndirectX
    } else if op == CPU::EOR_INDY {
        Mode::IndirectY
    } else {
        Mode::Immediate  // unreachable under the recommends
    }
}

/// EOR: bitwise-exclusive-or the operand into the accumulator.
pub open spec fn eor_spec(cpu: CPU, mem: Seq<u8>, op: u8) -> (CPU, Seq<u8>, int)
    recommends
        is_eor(op),
{
    let (v, pc2, k) = read_op(cpu, mem, eor_mode(op));
    (with_nz(CPU { a: cpu.a ^ v, pc: pc2, ..cpu }, cpu.a ^ v), mem, k)
}

pub open spec fn is_adc(op: u8) -> bool {
    op == CPU::ADC_IM || op == CPU::ADC_ZP || op == CPU::ADC_ZPX || op == CPU::ADC_ABS || op == CPU::ADC_ABSX || op == CPU::ADC_ABSY || op == CPU::ADC_INDX || op == CPU::ADC_INDY
}

pub open spec fn adc_mode(op: u8) -> Mode
    recommends
        is_adc(op),
{
    if op == CPU::ADC_IM {
        Mode::Immediate
    } else if op == CPU::ADC_ZP {
        Mode::ZeroPage
    } else if op == CPU::ADC_ZPX {
        Mode::ZeroPageX
    } else if op == CPU::ADC_ABS {
        Mode::Absolute
    } else if op == CPU::ADC_ABSX {
        Mode::AbsoluteX
    } else if op == CPU::ADC_ABSY {
        Mode::AbsoluteY
    } else if op == CPU::ADC_INDX {
        Mode::IndirectX
    } else if op == CPU::ADC_INDY {
        Mode::IndirectY
    } else {
        Mode::Immediate  // unreachable under the recommends
    }
}

/// ADC: add the operand and the carry into the accumulator, in binary or decimal mode.
pub open spec fn adc_spec(cpu: CPU, mem: Seq<u8>, op: u8) -> (CPU, Seq<u8>, int)
    recommends
        is_adc(op),
{
    let (v, pc2, k) = read_op(cpu, mem, adc_mode(op));
    (adc_apply(CPU { pc: pc2, ..cpu }, v), mem, k)
}

pub open spec fn is_sbc(op: u8) -> bool {
    op == CPU::SBC_IM || op == CPU::SBC_ZP || op == CPU::SBC_ZPX || op == CPU::SBC_ABS || op == CPU::SBC_ABSX || op == CPU::SBC_ABSY || op == CPU::SBC_INDX || op == CPU::SBC_INDY
}

pub open spec fn sbc_mode(op: u8) -> Mode
    recommends
        is_sbc(op),
{
    if op == CPU::SBC_IM {
        Mode::Immediate
    } else if op == CPU::SBC_ZP {
        Mode::ZeroPage
    } else if op == CPU::SBC_ZPX {
        Mode::ZeroPageX
    } else if op == CPU::SBC_ABS {
        Mode::Absolute
    } else if op == CPU::SBC_ABSX {
        Mode::AbsoluteX
    } else if op == CPU::SBC_ABSY {
        Mode::AbsoluteY
    } else if op == CPU::SBC_INDX {
        Mode::IndirectX
    } else if op == CPU::SBC_INDY {
        Mode::IndirectY
    } else {
        Mode::Immediate  // unreachable under the recommends
    }
}

/// SBC: subtract the operand and the borrow from the accumulator, in binary or decimal mode.
pub open spec fn sbc_spec(cpu: CPU, mem: Seq<u8>, op: u8) -> (CPU, Seq<u8>, int)
    recommends
        is_sbc(op),
{
    let (v, pc2, k) = read_op(cpu, mem, sbc_mode(op));
    (sbc_apply(CPU { pc: pc2, ..cpu }, v), mem, k)
}

pub open spec fn is_cmp(op: u8) -> bool {
    op == CPU::CMP_IM || op == CPU::CMP_ZP || op == CPU::CMP_ZPX || op == CPU::CMP_ABS || op == CPU::CMP_ABSX || op == CPU::CMP_ABSY || op == CPU::CMP_INDX || op == CPU::CMP_INDY
}

pub open spec fn cmp_mode(op: u8) -> Mode
    recommends
        is_cmp(op),
{
    if op == CPU::CMP_IM {
        Mode::Immediate
    } else if op == CPU::CMP_ZP {
        Mode::ZeroPage
    } else if op == CPU::CMP_ZPX {
        Mode::ZeroPageX
    } else if op == CPU::CMP_ABS {
        Mode::Absolute
    } else if op == CPU::CMP_ABSX {
        Mode::AbsoluteX
    } else if op == CPU::CMP_ABSY {
        Mode::AbsoluteY
    } else if op == CPU::CMP_INDX {
        Mode::IndirectX
    } else if op == CPU::CMP_INDY {
        Mode::IndirectY
    } else {
        Mode::Immediate  // unreachable under the recommends
    }
}

/// CMP: compare the accumulator with the operand; the accumulator itself is not changed.
pub open spec fn cmp_spec(cpu: CPU, mem: Seq<u8>, op: u8) -> (CPU, Seq<u8>, int)
    recommends
        is_cmp(op),
{
    let (v, pc2, k) = read_op(cpu, mem, cmp_mode(op));
    (compare_flags(CPU { pc: pc2, ..cpu }, cpu.a, v), mem, k)
}

pub open spec fn is_cpx(op: u8) -> bool {
    op == CPU::CPX_IM || op == CPU::CPX_ZP || op == CPU::CPX_ABS
}

pub open spec fn cpx_mode(op: u8) -> Mode
    recommends
        is_cpx(op),
{
    if op == CPU::CPX_IM {
        Mode::Immediate
    } else if op == CPU::CPX_ZP {
        Mode::ZeroPage
    } else if op == CPU::CPX_ABS {
        Mode::Absolute
    } else {
        Mode::Immediate  // unreachable under the recommends
    }
}

/// CPX: compare the X register with the operand; the register itself is not changed.
pub open spec fn cpx_spec(cpu: CPU, mem: Seq<u8>, op: u8) -> (CPU, Seq<u8>, int)
    recommends
        is_cpx(op),
{
    let (v, pc2, k) = read_op(cpu, mem, cpx_mode(op));
    (compare_flags(CPU { pc: pc2, ..cpu }, cpu.x, v), mem, k)
}

pub open spec fn is_cpy(op: u8) -> bool {
    op == CPU::CPY_IM || op == CPU::CPY_ZP || op == CPU::CPY_ABS
}

pub open spec fn cpy_mode(op: u8) -> Mode
    recommends
        is_cpy(op),
{
    if op == CPU::CPY_IM {
        Mode::Immediate
    } else if op == CPU::CPY_ZP {
        Mode::ZeroPage
    } else if op == CPU::CPY_ABS {
        Mode::Absolute
    } else {
        Mode::Immediate  // unreachable under the recommends
    }
}

/// CPY: compare the Y register with the operand; the register itself is not changed.
pub open spec fn cpy_spec(cpu: CPU, mem: Seq<u8>, op: u8) -> (CPU, Seq<u8>, int)
    recommends
        is_cpy(op),
{
    let (v, pc2, k) = read_op(cpu, mem, cpy_mode(op));
    (compare_flags(CPU { pc: pc2, ..cpu }, cpu.y, v), mem, k)
}

pub open spec fn is_bit(op: u8) -> bool {
    op == CPU::BIT_ZP || op == CPU::BIT_ABS
}

pub open spec fn bit_mode(op: u8) -> Mode
    recommends
        is_bit(op),
{
    if op == CPU::BIT_ZP {
        Mode::ZeroPage
    } else if op == CPU::BIT_ABS {
        Mode::Absolute
    } else {
        Mode::Immediate  // unreachable under the recommends
    }
}

/// BIT: test operand bits against the accumulator without changing either.
pub open spec fn bit_spec(cpu: CPU, mem: Seq<u8>, op: u8) -> (CPU, Seq<u8>, int)
    recommends
        is_bit(op),
{
    let (v, pc2, k) = read_op(cpu, mem, bit_mode(op));
    (CPU { pc: pc2, n: is_neg(v), v: bit_of(v, 64), z: (v & cpu.a) == 0, ..cpu }, mem, k)
}

pub open spec fn is_sta(op: u8) -> bool {
    op == CPU::STA_ZP || op == CPU::STA_ZPX || op == CPU::STA_ABS || op == CPU::STA_ABSX || op == CPU::STA_ABSY || op == CPU::STA_INDX || op == CPU::STA_INDY
}

pub open spec fn sta_mode(op: u8) -> Mode
    recommends
        is_sta(op),
{
    if op == CPU::STA_ZP {
        Mode::ZeroPage
    } else if op == CPU::STA_ZPX {
        Mode::ZeroPageX
    } else if op == CPU::STA_ABS {
        Mode::Absolute
    } else if op == CPU::STA_ABSX {
        Mode::AbsoluteX
    } else if op == CPU::STA_ABSY {
        Mode::AbsoluteY
    } else if op == CPU::STA_INDX {
        Mode::IndirectX
    } else if op == CPU::STA_INDY {
        Mode::IndirectY
    } else {
        Mode::Immediate  // unreachable under the recommends
    }
}

/// STA: store the accumulator.
pub open spec fn sta_spec(cpu: CPU, mem: Seq<u8>, op: u8) -> (CPU, Seq<u8>, int)
    recommends
        is_sta(op),
{
    let (addr, pc2, k) = store_resolve(cpu, mem, sta_mode(op));
    (CPU { pc: pc2, ..cpu }, mem.update(addr as int, cpu.a), k + 1)
}

pub open spec fn is_stx(op: u8) -> bool {
    op == CPU::STX_ZP || op == CPU::STX_ZPY || op == CPU::STX_ABS
}

pub open spec fn stx_mode(op: u8) -> Mode
    recommends
        is_stx(op),
{
    if op == CPU::STX_ZP {
        Mode::ZeroPage
    } else if op == CPU::STX_ZPY {
        Mode::ZeroPageY
    } else if op == CPU::STX_ABS {
        Mode::Absolute
    } else {
        Mode::Immediate  // unreachable under the recommends
    }
}

/// STX: store the X register.
pub open spec fn stx_spec(cpu: CPU, mem: Seq<u8>, op: u8) -> (CPU, Seq<u8>, int)
    recommends
        is_stx(op),
{
    let (addr, pc2, k) = store_resolve(cpu, mem, stx_mode(op));
    (CPU { pc: pc2, ..cpu }, mem.update(addr as int, cpu.x), k + 1)
}

pub open spec fn is_sty(op: u8) -> bool {
    op == CPU::STY_ZP || op == CPU::STY_ZPX || op == CPU::STY_ABS
}

pub open spec fn sty_mode(op: u8) -> Mode
    recommends
        is_sty(op),
{
    if op == CPU::STY_ZP {
        Mode::ZeroPage
    } else if op == CPU::STY_ZPX {
        Mode::ZeroPageX
    } else if op == CPU::STY_ABS {
        Mode::Absolute
    } else {
        Mode::Immediate  // unreachable under the recommends
    }
}

/// STY: store the Y register.
pub open spec fn sty_spec(cpu: CPU, mem: Seq<u8>, op: u8) -> (CPU, Seq<u8>, int)
    recommends
        is_sty(op),
{
    let (addr, pc2, k) = store_resolve(cpu, mem, sty_mode(op));
    (CPU { pc: pc2, ..cpu }, mem.update(addr as int, cpu.y), k + 1)
}

pub open spec fn is_asl(op: u8) -> bool {
    op == CPU::ASL_A || op == CPU::ASL_ZP || op == CPU::ASL_ZPX || op == CPU::ASL_ABS || op == CPU::ASL_ABSX
}

pub open spec fn asl_mode(op: u8) -> Mode
    recommends
        is_asl(op),
{
    if op == CPU::ASL_ZP {
        Mode::ZeroPage
    } else if op == CPU::ASL_ZPX {
        Mode::ZeroPageX
    } else if op == CPU::ASL_ABS {
        Mode::Absolute
    } else if op == CPU::ASL_ABSX {
        Mode::AbsoluteX
    } else {
        Mode::Immediate  // unreachable under the recommends
    }
}

/// ASL: shift left one bit; the bit shifted out becomes the carry. The negative and zero flags follow the result.
pub open spec fn asl_spec(cpu: CPU, mem: Seq<u8>, op: u8) -> (CPU, Seq<u8>, int)
    recommends
        is_asl(op),
{
    if op == CPU::ASL_A {
        let r = wrap8(2 * cpu.a);
        (with_nz(CPU { a: r, c: is_neg(cpu.a), ..cpu }, r), mem, 1)
    } else {
        let (addr, pc2, k) = rmw_resolve(cpu, mem, asl_mode(op));
        let v = byte_at(mem, addr);
        let r = wrap8(2 * v);
        (with_nz(CPU { pc: pc2, c: is_neg(v), ..cpu }, r), mem.update(addr as int, r), k + 3)
    }
}

pub open spec fn is_lsr(op: u8) -> bool {
    op == CPU::LSR_A || op == CPU::LSR_ZP || op == CPU::LSR_ZPX || op == CPU::LSR_ABS || op == CPU::LSR_ABSX
}

pub open spec fn lsr_mode(op: u8) -> Mode
    recommends
        is_lsr(op),
{
    if op == CPU::LSR_ZP {
        Mode::ZeroPage
    } else if op == CPU::LSR_ZPX {
        Mode::ZeroPageX
    } else if op == CPU::LSR_ABS {
        Mode::Absolute
    } else if op == CPU::LSR_ABSX {
        Mode::AbsoluteX
    } else {
        Mode::Immediate  // unreachable under the recommends
    }
}

/// LSR: shift right one bit; the bit shifted out becomes the carry. The negative and zero flags follow the result.
pub open spec fn lsr_spec(cpu: CPU, mem: Seq<u8>, op: u8) -> (CPU, Seq<u8>, int)
    recommends
        is_lsr(op),
{
    if op == CPU::LSR_A {
        let r = cpu.a / 2;
        (with_nz(CPU { a: r, c: cpu.a % 2 == 1, ..cpu }, r), mem, 1)
    } else {
        let (addr, pc2, k) = rmw_resolve(cpu, mem, lsr_mode(op));
        let v = byte_at(mem, addr);
        let r = v / 2;
        (with_nz(CPU { pc: pc2, c: v % 2 == 1, ..cpu }, r), mem.update(addr as int, r), k + 3)
    }
}

pub open spec fn is_rol(op: u8) -> bool {
    op == CPU::ROL_A || op == CPU::ROL_ZP || op == CPU::ROL_ZPX || op == CPU::ROL_ABS || op == CPU::ROL_ABSX
}

pub open spec fn rol_mode(op: u8) -> Mode
    recommends
        is_rol(op),
{
    if op == CPU::ROL_ZP {
        Mode::ZeroPage
    } else if op == CPU::ROL_ZPX {
        Mode::ZeroPageX
    } else if op == CPU::ROL_ABS {
        Mode::Absolute
    } else if op == CPU::ROL_ABSX {
        Mode::AbsoluteX
    } else {
        Mode::Immediate  // unreachable under the recommends
    }
}

/// ROL: rotate left through the carry. The negative and zero flags follow the result.
pub open spec fn rol_spec(cpu: CPU, mem: Seq<u8>, op: u8) -> (CPU, Seq<u8>, int)
    recommends
        is_rol(op),
{
    if op == CPU::ROL_A {
        let r = wrap8(2 * cpu.a + b2i(cpu.c));
        (with_nz(CPU { a: r, c: is_neg(cpu.a), ..cpu }, r), mem, 1)
    } else {
        let (addr, pc2, k) = rmw_resolve(cpu, mem, rol_mode(op));
        let v = byte_at(mem, addr);
        let r = wrap8(2 * v + b2i(cpu.c));
        (with_nz(CPU { pc: pc2, c: is_neg(v), ..cpu }, r), mem.update(addr as int, r), k + 3)
    }
}

pub open spec fn is_ror(op: u8) -> bool {
    op == CPU::ROR_A || op == CPU::ROR_ZP || op == CPU::ROR_ZPX || op == CPU::ROR_ABS || op == CPU::ROR_ABSX
}

pub open spec fn ror_mode(op: u8) -> Mode
    recommends
        is_ror(op),
{
    if op == CPU::ROR_ZP {
        Mode::ZeroPage
    } else if op == CPU::ROR_ZPX {
        Mode::ZeroPageX
    } else if op == CPU::ROR_ABS {
        Mode::Absolute
    } else if op == CPU::ROR_ABSX {
        Mode::AbsoluteX
    } else {
        Mode::Immediate  // unreachable under the recommends
    }
}

/// ROR: rotate right through the carry. The negative and zero flags follow the result.
pub open spec fn ror_spec(cpu: CPU, mem: Seq<u8>, op: u8) -> (CPU, Seq<u8>, int)
    recommends
        is_ror(op),
{
    if op == CPU::ROR_A {
        let r = (cpu.a / 2 + 128 * b2i(cpu.c)) as u8;
        (with_nz(CPU { a: r, c: cpu.a % 2 == 1, ..cpu }, r), mem, 1)
    } else {
        let (addr, pc2, k) = rmw_resolve(cpu, mem, ror_mode(op));
        let v = byte_at(mem, addr);
        let r = (v / 2 + 128 * b2i(cpu.c)) as u8;
        (with_nz(CPU { pc: pc2, c: v % 2 == 1, ..cpu }, r), mem.update(addr as int, r), k + 3)
    }
}

pub open spec fn is_inc(op: u8) -> bool {
    op == CPU::INC_ZP || op == CPU::INC_ZPX || op == CPU::INC_ABS || op == CPU::INC_ABSX
}

pub open spec fn inc_mode(op: u8) -> Mode
    recommends
        is_inc(op),
{
    if op == CPU::INC_ZP {
        Mode::ZeroPage
    } else if op == CPU::INC_ZPX {
        Mode::ZeroPageX
    } else if op == CPU::INC_ABS {
        Mode::Absolute
    } else if op == CPU::INC_ABSX {
        Mode::AbsoluteX
    } else {
        Mode::Immediate  // unreachable under the recommends
    }
}

/// INC: increment a memory byte, wrapping at the byte boundary. The negative and zero flags follow the result.
pub open spec fn inc_spec(cpu: CPU, mem: Seq<u8>, op: u8) -> (CPU, Seq<u8>, int)
    recommends
        is_inc(op),
{
    let (addr, pc2, k) = rmw_resolve(cpu, mem, inc_mode(op));
    let v = byte_at(mem, addr);
    let r = wrap8(v + 1);
    (with_nz(CPU { pc: pc2, ..cpu }, r), mem.update(addr as int, r), k + 3)
}

pub open spec fn is_dec(op: u8) -> bool {
    op == CPU::DEC_ZP || op == CPU::DEC_ZPX || op == CPU::DEC_ABS || op == CPU::DEC_ABSX
}

pub open spec fn dec_mode(op: u8) -> Mode
    recommends
        is_dec(op),
{
    if op == CPU::DEC_ZP {
        Mode::ZeroPage
    } else if op == CPU::DEC_ZPX {
        Mode::ZeroPageX
    } else if op == CPU::DEC_ABS {
        Mode::Absolute
    } else if op == CPU::DEC_ABSX {
        Mode::AbsoluteX
    } else {
        Mode::Immediate  // unreachable under the recommends
    }
}

/// DEC: decrement a memory byte, wrapping at the byte boundary. The negative and zero flags follow the result.
pub open spec fn dec_spec(cpu: CPU, mem: Seq<u8>, op: u8) -> (CPU, Seq<u8>, int)
    recommends
        is_dec(op),
{
    let (addr, pc2, k) = rmw_resolve(cpu, mem, dec_mode(op));
    let v = byte_at(mem, addr);
    let r = wrap8(v - 1);
    (with_nz(CPU { pc: pc2, ..cpu }, r), mem.update(addr as int, r), k + 3)
}

pub open spec fn is_bcc(op: u8) -> bool {
    op == CPU::BCC
}

/// BCC: branch when the carry flag is clear.
pub open spec fn bcc_spec(cpu: CPU, mem: Seq<u8>, op: u8) -> (CPU, Seq<u8>, int)
    recommends
        is_bcc(op),
{
    let (c2, k) = branch_spec(cpu, mem, !cpu.c);
    (c2, mem, k)
}

pub open spec fn is_bcs(op: u8) -> bool {
    op == CPU::BCS
}

/// BCS: branch when the carry flag is set.
pub open spec fn bcs_spec(cpu: CPU, mem: Seq<u8>, op: u8) -> (CPU, Seq<u8>, int)
    recommends
        is_bcs(op),
{
    let (c2, k) = branch_spec(cpu, mem, cpu.c);
    (c2, mem, k)
}

pub open spec fn is_beq(op: u8) -> bool {
    op == CPU::BEQ
}

/// BEQ: branch when the zero flag is set.
pub open spec fn beq_spec(cpu: CPU, mem: Seq<u8>, op: u8) -> (CPU, Seq<u8>, int)
    recommends
        is_beq(op),
{
    let (c2, k) = branch_spec(cpu, mem, cpu.z);
    (c2, mem, k)
}

pub open spec fn is_bmi(op: u8) -> bool {
    op == CPU::BMI
}

/// BMI: branch when the negative flag is set.
pub open spec fn bmi_spec(cpu: CPU, mem: Seq<u8>, op: u8) -> (CPU, Seq<u8>, int)
    recommends
        is_bmi(op),
{
    let (c2, k) = branch_spec(cpu, mem, cpu.n);
    (c2, mem, k)
}

pub open spec fn is_bne(op: u8) -> bool {
    op == CPU::BNE
}

/// BNE: branch when the zero flag is clear.
pub open spec fn bne_spec(cpu: CPU, mem: Seq<u8>, op: u8) -> (CPU, Seq<u8>, int)
    recommends
        is_bne(op),
{
    let (c2, k) = branch_spec(cpu, mem, !cpu.z);
    (c2, mem, k)
}

pub open spec fn is_bpl(op: u8) -> bool {
    op == CPU::BPL
}

/// BPL: branch when the negative flag is clear.
pub open spec fn bpl_spec(cpu: CPU, mem: Seq<u8>, op: u8) -> (CPU, Seq<u8>, int)
    recommends
        is_bpl(op),
{
    let (c2, k) = branch_spec(cpu, mem, !cpu.n);
    (c2, mem, k)
}

pub open spec fn is_bvc(op: u8) -> bool {
    op == CPU::BVC
}

/// BVC: branch when the overflow flag is clear.
pub open spec fn bvc_spec(cpu: CPU, mem: Seq<u8>, op: u8) -> (CPU, Seq<u8>, int)
    recommends
        is_bvc(op),
{
    let (c2, k) = branch_spec(cpu, mem, !cpu.v);
    (c2, mem, k)
}

pub open spec fn is_bvs(op: u8) -> bool {
    op == CPU::BVS
}

/// BVS: branch when the overflow flag is set.
pub open spec fn bvs_spec(cpu: CPU, mem: Seq<u8>, op: u8) -> (CPU, Seq<u8>, int)
    recommends
        is_bvs(op),
{
    let (c2, k) = branch_spec(cpu, mem, cpu.v);
    (c2, mem, k)
}

pub open spec fn is_clc(op: u8) -> bool {
    op == CPU::CLC
}

/// CLC: clear the carry flag.
pub open spec fn clc_spec(cpu: CPU, mem: Seq<u8>, op: u8) -> (CPU, Seq<u8>, int)
    recommends
        is_clc(op),
{
    (CPU { c: false, ..cpu }, mem, 1)
}

pub open spec fn is_cld(op: u8) -> bool {
    op == CPU::CLD
}

/// CLD: clear the decimal-mode flag.
pub open spec fn cld_spec(cpu: CPU, mem: Seq<u8>, op: u8) -> (CPU, Seq<u8>, int)
    recommends
        is_cld(op),
{
    (CPU { d: false, ..cpu }, mem, 1)
}

pub open spec fn is_cli(op: u8) -> bool {
    op == CPU::CLI
}

/// CLI: clear the interrupt-disable flag.
pub open spec fn cli_spec(cpu: CPU, mem: Seq<u8>, op: u8) -> (CPU, Seq<u8>, int)
    recommends
        is_cli(op),
{
    (CPU { i: false, ..cpu }, mem, 1)
}

pub open spec fn is_clv(op: u8) -> bool {
    op == CPU::CLV
}

/// CLV: clear the overflow flag.
pub open spec fn clv_spec(cpu: CPU, mem: Seq<u8>, op: u8) -> (CPU, Seq<u8>, int)
    recommends
        is_clv(op),
{
    (CPU { v: false, ..cpu }, mem, 1)
}

pub open spec fn is_sec(op: u8) -> bool {
    op == CPU::SEC
}

/// SEC: set the carry flag.
pub open spec fn sec_spec(cpu: CPU, mem: Seq<u8>, op: u8) -> (CPU, Seq<u8>, int)
    recommends
        is_sec(op),
{
    (CPU { c: true, ..cpu }, mem, 1)
}

pub open spec fn is_sed(op: u8) -> bool {
    op == CPU::SED
}

/// SED: set the decimal-mode flag.
pub open spec fn sed_spec(cpu: CPU, mem: Seq<u8>, op: u8) -> (CPU, Seq<u8>, int)
    recommends
        is_sed(op),
{
    (CPU { d: true, ..cpu }, mem, 1)
}

pub open spec fn is_sei(op: u8) -> bool {
    op == CPU::SEI
}

/// SEI: set the interrupt-disable flag.
pub open spec fn sei_spec(cpu: CPU, mem: Seq<u8>, op: u8) -> (CPU, Seq<u8>, int)
    recommends
        is_sei(op),
{
    (CPU { i: true, ..cpu }, mem, 1)
}

pub open spec fn is_nop(op: u8) -> bool {
    op == CPU::NOP
}

/// NOP: do nothing for one cycle.
pub open spec fn nop_spec(cpu: CPU, mem: Seq<u8>, op: u8) -> (CPU, Seq<u8>, int)
    recommends
        is_nop(op),
{
    (cpu, mem, 1)
}

pub open spec fn is_tax(op: u8) -> bool {
    op == CPU::TAX
}

/// TAX: transfer the accumulator to X.
pub open spec fn tax_spec(cpu: CPU, mem: Seq<u8>, op: u8) -> (CPU, Seq<u8>, int)
    recommends
        is_tax(op),
{
    (with_nz(CPU { x: cpu.a, ..cpu }, cpu.a), mem, 1)
}

pub open spec fn is_tay(op: u8) -> bool {
    op == CPU::TAY
}

/// TAY: transfer the accumulator to Y.
pub open spec fn tay_spec(cpu: CPU, mem: Seq<u8>, op: u8) -> (CPU, Seq<u8>, int)
    recommends
        is_tay(op),
{
    (with_nz(CPU { y: cpu.a, ..cpu }, cpu.a), mem, 1)
}

pub open spec fn is_tsx(op: u8) -> bool {
    op == CPU::TSX
}

/// TSX: transfer the stack pointer to X.
pub open spec fn tsx_spec(cpu: CPU, mem: Seq<u8>, op: u8) -> (CPU, Seq<u8>, int)
    recommends
        is_tsx(op),
{
    (with_nz(CPU { x: cpu.sp, ..cpu }, cpu.sp), mem, 1)
}

pub open spec fn is_txa(op: u8) -> bool {
    op == CPU::TXA
}

/// TXA: transfer X to the accumulator.
pub open spec fn txa_spec(cpu: CPU, mem: Seq<u8>, op: u8) -> (CPU, Seq<u8>, int)
    recommends
        is_txa(op),
{
    (with_nz(CPU { a: cpu.x, ..cpu }, cpu.x), mem, 1)
}

pub open spec fn is_txs(op: u8) -> bool {
    op == CPU::TXS
}

/// TXS: transfer X to the stack pointer; no flags change.
pub open spec fn txs_spec(cpu: CPU, mem: Seq<u8>, op: u8) -> (CPU, Seq<u8>, int)
    recommends
        is_txs(op),
{
    (CPU { sp: cpu.x, ..cpu }, mem, 1)
}

pub open spec fn is_tya(op: u8) -> bool {
    op == CPU::TYA
}

/// TYA: transfer Y to the accumulator.
pub open spec fn tya_spec(cpu: CPU, mem: Seq<u8>, op: u8) -> (CPU, Seq<u8>, int)
    recommends
        is_tya(op),
{
    (with_nz(CPU { a: cpu.y, ..cpu }, cpu.y), mem, 1)
}

pub open spec fn is_inx(op: u8) -> bool {
    op == CPU::INX
}

/// INX: increment X, wrapping at the byte boundary.
pub open spec fn inx_spec(cpu: CPU, mem: Seq<u8>, op: u8) -> (CPU, Seq<u8>, int)
    recommends
        is_inx(op),
{
    (with_nz(CPU { x: wrap8(cpu.x + 1), ..cpu }, wrap8(cpu.x + 1)), mem, 1)
}

pub open spec fn is_iny(op: u8) -> bool {
    op == CPU::INY
}

/// INY: increment Y, wrapping at the byte boundary.
pub open spec fn iny_spec(cpu: CPU, mem: Seq<u8>, op: u8) -> (CPU, Seq<u8>, int)
    recommends
        is_iny(op),
{
    (with_nz(CPU { y: wrap8(cpu.y + 1), ..cpu }, wrap8(cpu.y + 1)), mem, 1)
}

pub open spec fn is_dex(op: u8) -> bool {
    op == CPU::DEX
}

/// DEX: decrement X, wrapping at the byte boundary.
pub open spec fn dex_spec(cpu: CPU, mem: Seq<u8>, op: u8) -> (CPU, Seq<u8>, int)
    recommends
        is_dex(op),
{
    (with_nz(CPU { x: wrap8(cpu.x - 1), ..cpu }, wrap8(cpu.x - 1)), mem, 1)
}

pub open spec fn is_dey(op: u8) -> bool {
    op == CPU::DEY
}

/// DEY: decrement Y, wrapping at the byte boundary.
pub open spec fn dey_spec(cpu: CPU, mem: Seq<u8>, op: u8) -> (CPU, Seq<u8>, int)
    recommends
        is_dey(op),
{
    (with_nz(CPU { y: wrap8(cpu.y - 1), ..cpu }, wrap8(cpu.y - 1)), mem, 1)
}

pub open spec fn is_pha(op: u8) -> bool {
    op == CPU::PHA
}

/// PHA: push the accumulator onto the stack.
pub open spec fn pha_spec(cpu: CPU, mem: Seq<u8>, op: u8) -> (CPU, Seq<u8>, int)
    recommends
        is_pha(op),
{
    (CPU { sp: wrap8(cpu.sp - 1), ..cpu }, mem.update(stack_addr(cpu.sp) as int, cpu.a), 2)
}

pub open spec fn is_php(op: u8) -> bool {
    op == CPU::PHP
}

/// PHP: push the packed status byte, with the break and unused bits set.
pub open spec fn php_spec(cpu: CPU, mem: Seq<u8>, op: u8) -> (CPU, Seq<u8>, int)
    recommends
        is_php(op),
{
    (CPU { sp: wrap8(cpu.sp - 1), ..cpu }, mem.update(stack_addr(cpu.sp) as int, status_byte(cpu)), 2)
}

pub open spec fn is_pla(op: u8) -> bool {
    op == CPU::PLA
}

/// PLA: pull the accumulator from the stack, setting the negative and zero
/// flags.
pub open spec fn pla_spec(cpu: CPU, mem: Seq<u8>, op: u8) -> (CPU, Seq<u8>, int)
    recommends
        is_pla(op),
{
    let sp2 = wrap8(cpu.sp + 1);
    let v = byte_at(mem, stack_addr(sp2));
    (with_nz(CPU { a: v, sp: sp2, ..cpu }, v), mem, 3)
}

pub open spec fn is_plp(op: u8) -> bool {
    op == CPU::PLP
}

/// PLP: pull the status byte and restore the flags from it; the break flag
/// is not restored.
pub open spec fn plp_spec(cpu: CPU, mem: Seq<u8>, op: u8) -> (CPU, Seq<u8>, int)
    recommends
        is_plp(op),
{
    let sp2 = wrap8(cpu.sp + 1);
    (unpack_status(CPU { sp: sp2, ..cpu }, byte_at(mem, stack_addr(sp2))), mem, 3)
}

pub open spec fn is_jmp(op: u8) -> bool {
    op == CPU::JMP_ABS || op == CPU::JMP_IND
}

/// JMP: load the program counter, directly or through a 16-bit pointer.
/// The indirect form reads its pointer with a plain 16-bit increment
/// between the two bytes; the hardware's page-wrap quirk is not modeled.
pub open spec fn jmp_spec(cpu: CPU, mem: Seq<u8>, op: u8) -> (CPU, Seq<u8>, int)
    recommends
        is_jmp(op),
{
    if op == CPU::JMP_ABS {
        (CPU { pc: abs_operand(mem, cpu.pc), ..cpu }, mem, 2)
    } else {
        let ptr = abs_operand(mem, cpu.pc);
        (CPU { pc: addr16(byte_at(mem, ptr), byte_at(mem, wrap16(ptr + 1))), ..cpu }, mem, 4)
    }
}

pub open spec fn is_jsr(op: u8) -> bool {
    op == CPU::JSR
}

/// JSR: push the address of the last operand byte (the return address
/// minus one), high byte first, then jump.
pub open spec fn jsr_spec(cpu: CPU, mem: Seq<u8>, op: u8) -> (CPU, Seq<u8>, int)
    recommends
        is_jsr(op),
{
    let dest = abs_operand(mem, cpu.pc);
    let ret = wrap16(cpu.pc + 1);
    let m1 = mem.update(stack_addr(cpu.sp) as int, (ret / 0x100) as u8);
    let m2 = m1.update(stack_addr(wrap8(cpu.sp - 1)) as int, (ret % 0x100) as u8);
    (CPU { pc: dest, sp: wrap8(cpu.sp - 2), ..cpu }, m2, 5)
}

pub open spec fn is_rts(op: u8) -> bool {
    op == CPU::RTS
}

/// RTS: pop the return address, low byte first, and resume one byte past
/// it.
pub open spec fn rts_spec(cpu: CPU, mem: Seq<u8>, op: u8) -> (CPU, Seq<u8>, int)
    recommends
        is_rts(op),
{
    let lsb = byte_at(mem, stack_addr(wrap8(cpu.sp + 1)));
    let msb = byte_at(mem, stack_addr(wrap8(cpu.sp + 2)));
    (CPU { pc: wrap16(addr16(lsb, msb) + 1), sp: wrap8(cpu.sp + 2), ..cpu }, mem, 5)
}

pub open spec fn is_rti(op: u8) -> bool {
    op == CPU::RTI
}

/// RTI: pop the status byte (the break flag is not restored), then the
/// interrupted program counter, low byte first.
pub open spec fn rti_spec(cpu: CPU, mem: Seq<u8>, op: u8) -> (CPU, Seq<u8>, int)
    recommends
        is_rti(op),
{
    let p = byte_at(mem, stack_addr(wrap8(cpu.sp + 1)));
    let lsb = byte_at(mem, stack_addr(wrap8(cpu.sp + 2)));
    let msb = byte_at(mem, stack_addr(wrap8(cpu.sp + 3)));
    (unpack_status(CPU { pc: addr16(lsb, msb), sp: wrap8(cpu.sp + 3), ..cpu }, p), mem, 5)
}

pub open spec fn is_brk(op: u8) -> bool {
    op == CPU::BRK
}

/// BRK: push the address one past the padding byte and the status byte
/// (break and unused bits set), raise the interrupt-disable flag, and load
/// the program counter from the interrupt vector.
pub open spec fn brk_spec(cpu: CPU, mem: Seq<u8>, op: u8) -> (CPU, Seq<u8>, int)
    recommends
        is_brk(op),
{
    let ret = wrap16(cpu.pc + 1);
    let m1 = mem.update(stack_addr(cpu.sp) as int, (ret / 0x100) as u8);
    let m2 = m1.update(stack_addr(wrap8(cpu.sp - 1)) as int, (ret % 0x100) as u8);
    let m3 = m2.update(stack_addr(wrap8(cpu.sp - 2)) as int, status_byte(cpu));
    (
        CPU {
            pc: addr16(byte_at(m3, 0xFFFE), byte_at(m3, 0xFFFF)),
            i: true,
            sp: wrap8(cpu.sp - 3),
            ..cpu
        },
        m3,
        6,
    )
}


/// Whether an opcode byte is one this processor implements. Any other
/// byte is the fatal unknown-instruction condition.
#[verifier::opaque]
pub open spec fn is_known(op: u8) -> bool {
    is_lda(op) || is_ldx(op) || is_ldy(op) || is_lsr(op) || is_ora(op) || is_nop(op)
        || is_pha(op) || is_php(op) || is_pla(op) || is_plp(op) || is_adc(op) || is_and(op)
        || is_asl(op) || is_rol(op) || is_bcc(op) || is_bcs(op) || is_beq(op) || is_bit(op)
        || is_bmi(op) || is_bne(op) || is_bpl(op) || is_brk(op) || is_bvc(op) || is_bvs(op)
        || is_clc(op) || is_cld(op) || is_cli(op) || is_clv(op) || is_cmp(op) || is_cpx(op)
        || is_cpy(op) || is_dec(op) || is_dex(op) || is_dey(op) || is_eor(op) || is_inc(op)
        || is_inx(op) || is_iny(op) || is_jmp(op) || is_jsr(op) || is_ror(op) || is_rti(op)
        || is_rts(op) || is_sbc(op) || is_sec(op) || is_sed(op) || is_sei(op) || is_sta(op)
        || is_stx(op) || is_sty(op) || is_tax(op) || is_tay(op) || is_tsx(op) || is_txa(op)
        || is_txs(op) || is_tya(op)
}

/// The instruction an opcode selects, applied to the state after the
/// opcode fetch. The handlers are tried in a fixed order; opcode sets are
/// disjoint, so the order is immaterial.
#[verifier::opaque]
pub open spec fn dispatch_spec(cpu: CPU, mem: Seq<u8>, op: u8) -> (CPU, Seq<u8>, int)
    recommends
        is_known(op),
{
    if is_lda(op) {
        lda_spec(cpu, mem, op)
    } else if is_ldx(op) {
        ldx_spec(cpu, mem, op)
    } else if is_ldy(op) {
        ldy_spec(cpu, mem, op)
    } else if is_lsr(op) {
        lsr_spec(cpu, mem, op)
    } else if is_ora(op) {
        ora_spec(cpu, mem, op)
    } else if is_nop(op) {
        nop_spec(cpu, mem, op)
    } else if is_pha(op) {
        pha_spec(cpu, mem, op)
    } else if is_php(op) {
        php_spec(cpu, mem, op)
    } else if is_pla(op) {
        pla_spec(cpu, mem, op)
    } else if is_plp(op) {
        plp_spec(cpu, mem, op)
    } else if is_adc(op) {
        adc_spec(cpu, mem, op)
    } else if is_and(op) {
        and_spec(cpu, mem, op)
    } else if is_asl(op) {
        asl_spec(cpu, mem, op)
    } else if is_rol(op) {
        rol_spec(cpu, mem, op)
    } else if is_bcc(op) {
        bcc_spec(cpu, mem, op)
    } else if is_bcs(op) {
        bcs_spec(cpu, mem, op)
    } else if is_beq(op) {
        beq_spec(cpu, mem, op)
    } else if is_bit(op) {
        bit_spec(cpu, mem, op)
    } else if is_bmi(op) {
        bmi_spec(cpu, mem, op)
    } else if is_bne(op) {
        bne_spec(cpu, mem, op)
    } else if is_bpl(op) {
        bpl_spec(cpu, mem, op)
    } else if is_brk(op) {
        brk_spec(cpu, mem, op)
    } else if is_bvc(op) {
        bvc_spec(cpu, mem, op)
    } else if is_bvs(op) {
        bvs_spec(cpu, mem, op)
    } else if is_clc(op) {
        clc_spec(cpu, mem, op)
    } else if is_cld(op) {
        cld_spec(cpu, mem, op)
    } else if is_cli(op) {
        cli_spec(cpu, mem, op)
    } else if is_clv(op) {
        clv_spec(cpu, mem, op)
    } else if is_cmp(op) {
        cmp_spec(cpu, mem, op)
    } else if is_cpx(op) {
        cpx_spec(cpu, mem, op)
    } else if is_cpy(op) {
        cpy_spec(cpu, mem, op)
    } else if is_dec(op) {
        dec_spec(cpu, mem, op)
    } else if is_dex(op) {
        dex_spec(cpu, mem, op)
    } else if is_dey(op) {
        dey_spec(cpu, mem, op)
    } else if is_eor(op) {
        eor_spec(cpu, mem, op)
    } else if is_inc(op) {
        inc_spec(cpu, mem, op)
    } else if is_inx(op) {
        inx_spec(cpu, mem, op)
    } else if is_iny(op) {
        iny_spec(cpu, mem, op)
    } else if is_jmp(op) {
        jmp_spec(cpu, mem, op)
    } else if is_jsr(op) {
        jsr_spec(cpu, mem, op)
    } else if is_ror(op) {
        ror_spec(cpu, mem, op)
    } else if is_rti(op) {
        rti_spec(cpu, mem, op)
    } else if is_rts(op) {
        rts_spec(cpu, mem, op)
    } else if is_sbc(op) {
        sbc_spec(cpu, mem, op)
    } else if is_sec(op) {
        sec_spec(cpu, mem, op)
    } else if is_sed(op) {
        sed_spec(cpu, mem, op)
    } else if is_sei(op) {
        sei_spec(cpu, mem, op)
    } else if is_sta(op) {
        sta_spec(cpu, mem, op)
    } else if is_stx(op) {
        stx_spec(cpu, mem, op)
    } else if is_sty(op) {
        sty_spec(cpu, mem, op)
    } else if is_tax(op) {
        tax_spec(cpu, mem, op)
    } else if is_tay(op) {
        tay_spec(cpu, mem, op)
    } else if is_tsx(op) {
        tsx_spec(cpu, mem, op)
    } else if is_txa(op) {
        txa_spec(cpu, mem, op)
    } else if is_txs(op) {
        txs_spec(cpu, mem, op)
    } else if is_tya(op) {
        tya_spec(cpu, mem, op)
    } else {
        (cpu, mem, 0)  // unreachable: the opcode is known
    }
}

/// One whole instruction: fetch the opcode (one cycle), then dispatch.
/// `None` is the fatal unknown-instruction condition; nothing happens.
pub open spec fn spec_step(cpu: CPU, mem: Seq<u8>) -> Option<(CPU, Seq<u8>, int)> {
    let op = byte_at(mem, cpu.pc);
    if is_known(op) {
        let r = dispatch_spec(CPU { pc: wrap16(cpu.pc + 1), ..cpu }, mem, op);
        Some((r.0, r.1, 1 + r.2))
    } else {
        None
    }
}

/// Every dispatched instruction charges a non-negative cycle count beyond
/// the opcode fetch.
pub proof fn lemma_dispatch_cost(cpu: CPU, mem: Seq<u8>, op: u8)
    ensures
        dispatch_spec(cpu, mem, op).2 >= 0,
{
    reveal(dispatch_spec);
}

/// A whole instruction charges at least its opcode-fetch cycle.
pub proof fn lemma_step_cost(cpu: CPU, mem: Seq<u8>)
    ensures
        match spec_step(cpu, mem) {
            None => true,
            Some(r) => r.2 >= 1,
        },
{
    let op = byte_at(mem, cpu.pc);
    if is_known(op) {
        lemma_dispatch_cost(CPU { pc: wrap16(cpu.pc + 1), ..cpu }, mem, op);
    }
}

/// Instructions executed one after another until the cycle budget is spent
/// or an unknown opcode stops the machine: the final state, the final
/// memory, and the cycles consumed. An instruction begun within the budget
/// always completes, so the consumed count may exceed the budget by the
/// tail of the last instruction.
pub open spec fn spec_run(cpu: CPU, mem: Seq<u8>, budget: int) -> (CPU, Seq<u8>, int)
    decreases budget,
    via spec_run_decreases
{
    if budget <= 0 {
        (cpu, mem, 0)
    } else {
        match spec_step(cpu, mem) {
            None => (cpu, mem, 0),
            Some((c2, m2, k)) => {
                let next = if budget - k > 0 {
                    budget - k
                } else {
                    0
                };
                let (c3, m3, k3) = spec_run(c2, m2, next);
                (c3, m3, k + k3)
            },
        }
    }
}

#[via_fn]
proof fn spec_run_decreases(cpu: CPU, mem: Seq<u8>, budget: int) {
    lemma_step_cost(cpu, mem);
}

/// The reset sequence: one transaction observes the released reset line,
/// seven settle cycles follow, then the reset vector's two bytes are
/// fetched. Registers and flags take their power-up defaults and the
/// released reset level is latched.
pub open spec fn reset_spec(cpu: CPU, mem: Seq<u8>) -> (CPU, int) {
    (
        CPU {
            pc: addr16(byte_at(mem, 0xFFFC), byte_at(mem, 0xFFFD)),
            sp: 255,
            a: 0,
            x: 0,
            y: 0,
            c: false,
            z: false,
            i: false,
            d: false,
            b: false,
            v: false,
            n: false,
            inp: CpuInputPins { res: true, ..cpu.inp },
            ..cpu
        },
        10,
    )
}

/// What one call of [`CPU::run`] does: nothing without power; the reset
/// sequence first while the reset line is held low; then instructions
/// until the budget is spent or an unknown opcode stops the machine.
pub open spec fn run_spec(cpu: CPU, mem: Seq<u8>, budget: int) -> (CPU, Seq<u8>, int) {
    if !cpu.inp.vdd {
        (cpu, mem, 0)
    } else if !cpu.inp.res {
        let (c2, k) = reset_spec(cpu, mem);
        let (c3, m3, k3) = spec_run(c2, mem, budget - k);
        (c3, m3, k + k3)
    } else {
        spec_run(cpu, mem, budget)
    }
}

} // verus!
