//! Bit-field decoding of instruction words and sign extension.
//!
//! An instruction word keeps its opcode in bits 15..12, its destination (or
//! source) register in bits 11..9, its first source or base register in bits
//! 8..6, and its immediate fields in the low bits.

use vstd::prelude::*;

verus! {

/// The sign extension of the low `n` bits of `x` to sixteen bits: when bit
/// `n - 1` is set, every bit from `n` upwards is set as well.
pub open spec fn sext(x: u16, n: u16) -> u16
    recommends
        1 <= n <= 15,
{
    if (x >> (n - 1) as u16) & 1 != 0 {
        x | (0xFFFFu16 << n)
    } else {
        x
    }
}

/// The sum of two words modulo 65536.
pub open spec fn wadd(a: u16, b: u16) -> u16 {
    ((a + b) % 0x10000) as u16
}

/// The opcode: bits 15..12.
pub open spec fn opcode_bits(i: u16) -> u16 {
    i >> 12u16
}

/// The register selected by bits 11..9 (destination, or the source of a store).
pub open spec fn dst(i: u16) -> int {
    ((i >> 9u16) & 7u16) as int
}

/// The register selected by bits 8..6 (first source, or base register).
pub open spec fn src1(i: u16) -> int {
    ((i >> 6u16) & 7u16) as int
}

/// The register selected by bits 2..0 (second source in register mode).
pub open spec fn src2(i: u16) -> int {
    (i & 7u16) as int
}

/// Bit 5: the immediate-mode flag of ADD and AND.
pub open spec fn imm_mode(i: u16) -> bool {
    (i >> 5u16) & 1u16 != 0
}

/// Bit 11: the long-offset flag of JSR.
pub open spec fn long_flag(i: u16) -> bool {
    (i >> 11u16) & 1u16 != 0
}

/// Bits 11..9 of a branch: the condition flags that it tests.
pub open spec fn cond_bits(i: u16) -> u16 {
    (i >> 9u16) & 7u16
}

/// The sign-extended 5-bit immediate.
pub open spec fn imm5(i: u16) -> u16 {
    sext(i & 0x1Fu16, 5)
}

/// The sign-extended 6-bit offset.
pub open spec fn offset6(i: u16) -> u16 {
    sext(i & 0x3Fu16, 6)
}

/// The sign-extended 9-bit offset.
pub open spec fn offset9(i: u16) -> u16 {
    sext(i & 0x1FFu16, 9)
}

/// The sign-extended 11-bit offset.
pub open spec fn offset11(i: u16) -> u16 {
    sext(i & 0x7FFu16, 11)
}

/// The trap vector: the low eight bits.
pub open spec fn trap_vector(i: u16) -> u16 {
    i & 0xFFu16
}

/// The register selectors are three bits wide and the opcode four.
pub proof fn lemma_field_bounds(i: u16)
    ensures
        0 <= dst(i) < 8,
        0 <= src1(i) < 8,
        0 <= src2(i) < 8,
        opcode_bits(i) < 16,
        cond_bits(i) < 8,
        trap_vector(i) < 256,
{
    assert((i >> 9u16) & 7u16 < 8 && (i >> 6u16) & 7u16 < 8 && i & 7u16 < 8 && i >> 12u16 < 16
        && i & 0xFFu16 < 256) by (bit_vector);
}

/// Widens the `bit_count`-bit two's-complement field `x` to sixteen bits.
pub fn sign_extend(x: u16, bit_count: usize) -> (r: u16)
    requires
        1 <= bit_count <= 15,
    ensures
        r == sext(x, bit_count as u16),
{
    let n: u16 = bit_count as u16;
    if (x >> (n - 1)) & 1 != 0 {
        x | (0xFFFFu16 << n)
    } else {
        x
    }
}

/// Bits 11..9 as a register index.
pub fn dst_field(i: u16) -> (r: usize)
    ensures
        r == dst(i),
        r < 8,
{
    proof {
        lemma_field_bounds(i);
    }
    ((i >> 9) & 7) as usize
}

/// Bits 8..6 as a register index.
pub fn src1_field(i: u16) -> (r: usize)
    ensures
        r == src1(i),
        r < 8,
{
    proof {
        lemma_field_bounds(i);
    }
    ((i >> 6) & 7) as usize
}

/// Bits 2..0 as a register index.
pub fn src2_field(i: u16) -> (r: usize)
    ensures
        r == src2(i),
        r < 8,
{
    proof {
        lemma_field_bounds(i);
    }
    (i & 7) as usize
}

/// The sum of two words, wrapping at 65536.
pub fn wrapping_add16(a: u16, b: u16) -> (r: u16)
    ensures
        r == wadd(a, b),
{
    a.wrapping_add(b)
}

} // verus!
