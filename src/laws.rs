//! Properties of the machine that relate several operations or hold for
//! every input.

use vstd::prelude::*;
use crate::bits::{
    sext, wadd, dst, src1, src2, imm_mode, imm5, cond_bits, offset9, offset11, long_flag,
    trap_vector, opcode_bits, lemma_field_bounds,
};
use crate::image::place;
use crate::engine::{ActionModel, trap_spec, step_spec, TRAP_HALT};
use crate::semantics::{add_spec, and_spec, br_spec, jsr_spec, ldi_spec};
use crate::vm::{VmState, flag_of, valid_flag, FL_POS, FL_ZRO, FL_NEG, MR_KBSR, R_PC, R_R7};

verus! {

/// Sign extension is idempotent: extending an already extended value at the
/// same bit count changes nothing.
pub proof fn law_sign_extend_idempotent(x: u16, n: u16)
    requires
        1 <= n <= 15,
    ensures
        sext(sext(x, n), n) == sext(x, n),
{
    assert(1 <= n <= 15 ==> sext(sext(x, n), n) == sext(x, n)) by (bit_vector);
}

/// ADD and AND give the same machine in immediate mode as in register mode
/// when the second source register holds the sign-extended immediate, for
/// every choice of registers.
pub proof fn law_immediate_matches_register(s: VmState, imm: u16, regi: u16)
    requires
        s.wf(),
        imm_mode(imm),
        !imm_mode(regi),
        dst(imm) == dst(regi),
        src1(imm) == src1(regi),
        s.reg[src2(regi)] == imm5(imm),
    ensures
        add_spec(s, imm) == add_spec(s, regi),
        and_spec(s, imm) == and_spec(s, regi),
{
}

/// Exactly one of POS, ZRO and NEG is set for every written value: ZRO for
/// zero, NEG when bit 15 is set, POS otherwise.
pub proof fn law_flags_exactly_one(v: u16)
    ensures
        valid_flag(flag_of(v)),
        (flag_of(v) == FL_POS) as int + (flag_of(v) == FL_ZRO) as int + (flag_of(v) == FL_NEG) as int
            == 1,
        flag_of(v) == FL_ZRO <==> v == 0,
        flag_of(v) == FL_NEG <==> (v >> 15u16) & 1 == 1,
        flag_of(v) == FL_POS <==> v != 0 && (v >> 15u16) & 1 == 0,
{
    assert(((v >> 15u16) & 1 == 1 <==> v >= 0x8000) && ((v >> 15u16) & 1 == 0 <==> v < 0x8000))
        by (bit_vector);
}

/// After an instruction defines general register `r`, the condition
/// register holds exactly the flag of the value written.
pub proof fn law_flags_follow_result(s: VmState, r: int, v: u16)
    requires
        s.wf(),
        0 <= r < 8,
    ensures
        s.with_result(r, v).wf(),
        s.with_result(r, v).reg[r] == v,
        s.with_result(r, v).cond() == flag_of(v),
{
    law_flags_exactly_one(v);
}

/// BR with no condition bits never branches, whatever the flags; BR with all
/// three always branches.
pub proof fn law_branch_never_and_always(s: VmState, i: u16)
    requires
        s.wf(),
    ensures
        cond_bits(i) == 0 ==> br_spec(s, i) == s,
        cond_bits(i) == 7 ==> br_spec(s, i) == s.with_reg(R_PC as int, wadd(s.pc(), offset9(i))),
{
    let c = s.cond();
    let b = cond_bits(i);
    assert(b == 0 ==> b & c == 0) by (bit_vector);
    assert((b == 7 && (c == 1 || c == 2 || c == 4)) ==> b & c != 0) by (bit_vector);
}

/// JSR and JSRR both set R7 to the PC before the jump. JSR then moves PC by
/// the 11-bit offset; JSRR sets PC to the base register (read after R7 is
/// written, so JSRR R7 returns to the same PC).
pub proof fn law_jsr_links(s: VmState, i: u16)
    requires
        s.wf(),
    ensures
        jsr_spec(s, i).reg[R_R7 as int] == s.pc(),
        long_flag(i) ==> jsr_spec(s, i).pc() == wadd(s.pc(), offset11(i)),
        !long_flag(i) && src1(i) != R_R7 ==> jsr_spec(s, i).pc() == s.reg[src1(i)],
        !long_flag(i) && src1(i) == R_R7 ==> jsr_spec(s, i).pc() == s.pc(),
        forall|r: int| 0 <= r < 7 || r == 9 ==> jsr_spec(s, i).reg[r] == s.reg[r],
        jsr_spec(s, i).mem == s.mem,
{
    lemma_field_bounds(i);
}

/// LDI reads twice: with `A` at PC plus the offset and `V` at `A`, the
/// destination receives `V`, not `A` (neither address being the keyboard
/// status register, whose read polls the keyboard).
pub proof fn law_ldi_double_indirection(s: VmState, i: u16)
    requires
        s.wf(),
        wadd(s.pc(), offset9(i)) != MR_KBSR,
        s.mem[wadd(s.pc(), offset9(i)) as int] != MR_KBSR,
    ensures
        ldi_spec(s, i).reg[dst(i)] == s.mem[s.mem[wadd(s.pc(), offset9(i)) as int] as int],
        ldi_spec(s, i).cond() == flag_of(s.mem[s.mem[wadd(s.pc(), offset9(i)) as int] as int]),
{
    lemma_field_bounds(i);
}

/// The HALT trap clears the running flag, after which a cycle fetches
/// nothing and leaves the machine as it is.
pub proof fn law_halt_stops(s: VmState, i: u16)
    requires
        s.wf(),
        trap_vector(i) == TRAP_HALT,
    ensures
        !trap_spec(s, i).0.running,
        trap_spec(s, i).1 == Ok::<ActionModel, crate::error::VMError>(ActionModel::Halt),
        step_spec(trap_spec(s, i).0) == (trap_spec(s, i).0, Ok::<ActionModel, crate::error::VMError>(ActionModel::Halt)),
{
}

/// A running machine whose PC points at a HALT instruction stops in one
/// cycle, and the next cycle fetches nothing.
pub proof fn law_halt_instruction_stops(s: VmState)
    requires
        s.wf(),
        s.running,
        s.pc() != MR_KBSR,
        opcode_bits(s.mem[s.pc() as int]) == 15,
        trap_vector(s.mem[s.pc() as int]) == TRAP_HALT,
    ensures
        !step_spec(s).0.running,
        step_spec(step_spec(s).0).0 == step_spec(s).0,
{
}

/// Loading words that fit in memory stores the `k`-th word at the origin
/// plus `k` (wrapping) and leaves every other cell as it was.
pub proof fn law_place_stores_each_word(mem: Seq<u16>, origin: u16, words: Seq<u16>)
    requires
        mem.len() == 0x10000,
        words.len() <= 0x10000,
    ensures
        place(mem, origin, words).len() == 0x10000,
        forall|k: int|
            0 <= k < words.len() ==> #[trigger] place(mem, origin, words)[(origin + k) % 0x10000]
                == words[k],
        forall|a: int|
            0 <= a < 0x10000 && (a - origin) % 0x10000 >= words.len() ==> #[trigger] place(
                mem,
                origin,
                words,
            )[a] == mem[a],
    decreases words.len(),
{
    if words.len() > 0 {
        let n = words.len() - 1;
        let prev = words.drop_last();
        law_place_stores_each_word(mem, origin, prev);
        let last = (origin + n) % 0x10000;
        assert forall|k: int| 0 <= k < words.len() implies #[trigger] place(mem, origin, words)[(
        origin + k) % 0x10000] == words[k] by {
            if k < n {
                assert((origin + k) % 0x10000 != last);
                assert(prev[k] == words[k]);
            }
        }
        assert forall|a: int|
            0 <= a < 0x10000 && (a - origin) % 0x10000 >= words.len() implies #[trigger] place(
            mem,
            origin,
            words,
        )[a] == mem[a] by {
            assert(a != last);
        }
    }
}

} // verus!
