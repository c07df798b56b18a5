//! General laws of the instruction set, each proved over the model.

use vstd::prelude::*;
use vstd::arithmetic::div_mod::lemma_fundamental_div_mod_converse;
use crate::cpu::CPU;
use crate::cpu::model::{
    adc_apply,
    b2i,
    cmp_spec,
    cpx_spec,
    cpy_spec,
    is_cmp,
    is_cpx,
    is_cpy,
    pha_spec,
    pla_spec,
    sbc_apply,
    signed8,
    wrap8,
};

verus! {

/// A valid binary-coded-decimal byte: both nibbles at most nine.
pub open spec fn is_bcd(v: u8) -> bool {
    v % 16 <= 9 && v / 16 <= 9
}

/// The two-digit decimal value a BCD byte encodes.
pub open spec fn bcd_val(v: u8) -> int {
    10 * (v / 16) + v % 16
}

/// ADC in binary mode sets the overflow flag exactly when the true signed
/// sum of accumulator, operand, and carry-in leaves the two's-complement
/// byte range [-128, 127].
pub proof fn lemma_adc_overflow(cpu: CPU, val: u8)
    requires
        !cpu.d,
    ensures
        ({
            let s = signed8(cpu.a) + signed8(val) + b2i(cpu.c);
            adc_apply(cpu, val).v == (s < -128 || s > 127)
        }),
{
}

/// ADC in decimal mode on valid BCD operands yields a valid BCD result
/// whose value is the decimal sum modulo one hundred, with the carry flag
/// as the hundreds digit.
pub proof fn lemma_adc_decimal_bcd(cpu: CPU, val: u8)
    requires
        cpu.d,
        is_bcd(cpu.a),
        is_bcd(val),
    ensures
        ({
            let r = adc_apply(cpu, val);
            is_bcd(r.a) && bcd_val(r.a) + (if r.c {
                100int
            } else {
                0
            }) == bcd_val(cpu.a) + bcd_val(val) + b2i(cpu.c)
        }),
{
    let lo = cpu.a % 16 + val % 16 + b2i(cpu.c);
    let lc = lo > 9;
    let lo2 = if lc {
        (lo + 6) % 16
    } else {
        lo
    };
    let hi = cpu.a / 16 + val / 16 + b2i(lc);
    let hc = hi > 9;
    let hi2 = if hc {
        (hi + 6) % 16
    } else {
        hi
    };
    assert(lc ==> lo2 == lo - 10);
    assert(hc ==> hi2 == hi - 10);
    assert(0 <= lo2 <= 9 && 0 <= hi2 <= 9);
    lemma_fundamental_div_mod_converse(hi2 * 16 + lo2, 16, hi2, lo2);
}

/// SBC in decimal mode on valid BCD operands yields a valid BCD result:
/// the decimal difference modulo one hundred, with the carry flag set
/// exactly when no borrow was needed.
pub proof fn lemma_sbc_decimal_bcd(cpu: CPU, val: u8)
    requires
        cpu.d,
        is_bcd(cpu.a),
        is_bcd(val),
    ensures
        ({
            let r = sbc_apply(cpu, val);
            let diff = bcd_val(cpu.a) - bcd_val(val) - b2i(!cpu.c);
            is_bcd(r.a) && r.c == (diff >= 0) && bcd_val(r.a) == (diff + 100) % 100
        }),
{
    let b = b2i(!cpu.c);
    let al = cpu.a % 16;
    let ah = cpu.a / 16;
    let vl = val % 16;
    let vh = val / 16;
    let xl = al - vl - b;  // the low digit before correction, -10 to 9
    let s1: int = if xl < 0 {
        1
    } else {
        0
    };
    let lo1 = wrap8(xl);
    assert(lo1 == xl + 256 * s1);
    assert((lo1 > 9) == (s1 == 1));
    let lo2: int = if lo1 > 9 {
        (wrap8(lo1 - 6) % 16) as int
    } else {
        lo1 as int
    };
    assert(lo2 == xl + 10 * s1);
    let xh = ah - vh - s1;  // the high digit before correction, -10 to 9
    let s2: int = if xh < 0 {
        1
    } else {
        0
    };
    let hi1 = wrap8(xh);
    assert(hi1 == xh + 256 * s2);
    assert((hi1 > 9) == (s2 == 1));
    let hi2: int = if hi1 > 9 {
        (wrap8(hi1 - 6) % 16) as int
    } else {
        hi1 as int
    };
    assert(hi2 == xh + 10 * s2);
    lemma_fundamental_div_mod_converse(hi2 * 16 + lo2, 16, hi2, lo2);
    let diff = bcd_val(cpu.a) - bcd_val(val) - b;
    assert(diff == 10 * (ah - vh) + (al - vl) - b);
    assert(diff == 10 * (xh + s1) + xl);
    assert(10 * hi2 + lo2 == diff + 100 * s2);
    assert((s2 == 1) == (diff < 0));
    // the carry flag comes from the binary sum; relate it to the sign
    let sum = cpu.a + (0xff - val) + b2i(cpu.c);
    assert(cpu.a - val == 16 * (ah - vh) + (al - vl));
    assert((sum >= 0x100) == (cpu.a - val - b >= 0));
    assert((cpu.a - val - b >= 0) == (diff >= 0));
}

/// The state after `n` consecutive PHA instructions, ignoring the opcode
/// fetches between them.
pub open spec fn pha_many(cpu: CPU, mem: Seq<u8>, n: nat) -> (CPU, Seq<u8>)
    decreases n,
{
    if n == 0 {
        (cpu, mem)
    } else {
        let (c1, m1) = pha_many(cpu, mem, (n - 1) as nat);
        let r = pha_spec(c1, m1, CPU::PHA);
        (r.0, r.1)
    }
}

proof fn lemma_pha_many_sp(cpu: CPU, mem: Seq<u8>, n: nat)
    requires
        n <= 256,
    ensures
        pha_many(cpu, mem, n).0.sp == wrap8(cpu.sp - n),
    decreases n,
{
    if n > 0 {
        lemma_pha_many_sp(cpu, mem, (n - 1) as nat);
    }
}

/// Pushing 256 times returns the stack pointer to where it began: the
/// pointer wraps at the page boundary by design instead of failing.
pub proof fn lemma_stack_wrap(cpu: CPU, mem: Seq<u8>)
    ensures
        pha_many(cpu, mem, 256).0.sp == cpu.sp,
{
    lemma_pha_many_sp(cpu, mem, 256);
}

/// A pull is the exact inverse of a push: PLA right after PHA restores
/// the stack pointer and reads back the very byte PHA wrote, whatever the
/// state it starts from. Chaining this step gives the last-in-first-out
/// property of the stack for any sequence of pushes and pulls.
pub proof fn lemma_pull_inverts_push(cpu: CPU, mem: Seq<u8>)
    requires
        mem.len() == 0x10000,
    ensures
        ({
            let (c1, m1, k1) = pha_spec(cpu, mem, CPU::PHA);
            let (c2, m2, k2) = pla_spec(c1, m1, CPU::PLA);
            c2.a == cpu.a && c2.sp == cpu.sp && m2 == m1
        }),
{
}

/// Compare instructions never mutate the compared register: CMP, CPX and
/// CPY leave the accumulator, both index registers, and the stack pointer
/// exactly as they were, whatever the flags come out as.
pub proof fn lemma_compare_preserves_registers(cpu: CPU, mem: Seq<u8>, op: u8)
    ensures
        is_cmp(op) ==> {
            let c2 = cmp_spec(cpu, mem, op).0;
            c2.a == cpu.a && c2.x == cpu.x && c2.y == cpu.y && c2.sp == cpu.sp
        },
        is_cpx(op) ==> {
            let c2 = cpx_spec(cpu, mem, op).0;
            c2.a == cpu.a && c2.x == cpu.x && c2.y == cpu.y && c2.sp == cpu.sp
        },
        is_cpy(op) ==> {
            let c2 = cpy_spec(cpu, mem, op).0;
            c2.a == cpu.a && c2.x == cpu.x && c2.y == cpu.y && c2.sp == cpu.sp
        },
{
}

} // verus!

