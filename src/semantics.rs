//! What each instruction does to the machine, as functions on `VmState`.

use vstd::prelude::*;
use crate::bits::{
    wadd, dst, src1, src2, imm_mode, long_flag, cond_bits, imm5, offset6, offset9, offset11,
};
use crate::vm::{VmState, read_mem, R_PC, R_R7};

verus! {

/// ADD: the first source plus the immediate or the second source, modulo 65536.
pub open spec fn add_spec(s: VmState, i: u16) -> VmState {
    let b = if imm_mode(i) { imm5(i) } else { s.reg[src2(i)] };
    s.with_result(dst(i), wadd(s.reg[src1(i)], b))
}

/// AND: the first source and the immediate or the second source, bitwise.
pub open spec fn and_spec(s: VmState, i: u16) -> VmState {
    let b = if imm_mode(i) { imm5(i) } else { s.reg[src2(i)] };
    s.with_result(dst(i), s.reg[src1(i)] & b)
}

/// NOT: the bitwise complement of the source.
pub open spec fn not_spec(s: VmState, i: u16) -> VmState {
    s.with_result(dst(i), !s.reg[src1(i)])
}

/// BR: when a tested flag is set, PC moves by the 9-bit offset.
pub open spec fn br_spec(s: VmState, i: u16) -> VmState {
    if cond_bits(i) & s.cond() != 0 {
        s.with_reg(R_PC as int, wadd(s.pc(), offset9(i)))
    } else {
        s
    }
}

/// JMP: PC takes the base register.
pub open spec fn jmp_spec(s: VmState, i: u16) -> VmState {
    s.with_reg(R_PC as int, s.reg[src1(i)])
}

/// JSR / JSRR: R7 takes PC, then PC moves by the 11-bit offset (JSR) or takes
/// the base register (JSRR).
pub open spec fn jsr_spec(s: VmState, i: u16) -> VmState {
    let t = s.with_reg(R_R7 as int, s.pc());
    if long_flag(i) {
        t.with_reg(R_PC as int, wadd(t.pc(), offset11(i)))
    } else {
        t.with_reg(R_PC as int, t.reg[src1(i)])
    }
}

/// LD: the word at PC plus the 9-bit offset.
pub open spec fn ld_spec(s: VmState, i: u16) -> VmState {
    let (t, v) = read_mem(s, wadd(s.pc(), offset9(i)));
    t.with_result(dst(i), v)
}

/// LDI: the word at the address held at PC plus the 9-bit offset.
pub open spec fn ldi_spec(s: VmState, i: u16) -> VmState {
    let (t, a) = read_mem(s, wadd(s.pc(), offset9(i)));
    let (u, v) = read_mem(t, a);
    u.with_result(dst(i), v)
}

/// LDR: the word at the base register plus the 6-bit offset.
pub open spec fn ldr_spec(s: VmState, i: u16) -> VmState {
    let (t, v) = read_mem(s, wadd(s.reg[src1(i)], offset6(i)));
    t.with_result(dst(i), v)
}

/// LEA: the address PC plus the 9-bit offset.
pub open spec fn lea_spec(s: VmState, i: u16) -> VmState {
    s.with_result(dst(i), wadd(s.pc(), offset9(i)))
}

/// ST: the source register goes to PC plus the 9-bit offset.
pub open spec fn st_spec(s: VmState, i: u16) -> VmState {
    s.with_mem(wadd(s.pc(), offset9(i)), s.reg[dst(i)])
}

/// STI: the source register goes to the address held at PC plus the 9-bit
/// offset.
pub open spec fn sti_spec(s: VmState, i: u16) -> VmState {
    let (t, a) = read_mem(s, wadd(s.pc(), offset9(i)));
    t.with_mem(a, t.reg[dst(i)])
}

/// STR: the source register goes to the base register plus the 6-bit offset.
pub open spec fn str_spec(s: VmState, i: u16) -> VmState {
    s.with_mem(wadd(s.reg[src1(i)], offset6(i)), s.reg[dst(i)])
}

} // verus!
