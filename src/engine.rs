//! The trap routines and the fetch-decode-execute cycle, as functions on
//! `VmState`, and the actions that a cycle asks of the console.

use vstd::prelude::*;
use crate::bits::{wadd, trap_vector};
use crate::error::VMError;
use crate::opcode::Opcodes;
use crate::semantics::{
    add_spec, and_spec, not_spec, br_spec, jmp_spec, jsr_spec, ld_spec, ldi_spec, ldr_spec,
    lea_spec, st_spec, sti_spec, str_spec,
};
use crate::vm::{VmState, read_mem, R_PC, R_R7};

verus! {

/// Trap vector: read a character without echo.
pub const TRAP_GETC: u16 = 0x20;
/// Trap vector: write the low byte of R0.
pub const TRAP_OUT: u16 = 0x21;
/// Trap vector: write a string of one character per word.
pub const TRAP_PUTS: u16 = 0x22;
/// Trap vector: prompt for a character, read it and echo it.
pub const TRAP_IN: u16 = 0x23;
/// Trap vector: write a string of two characters per word.
pub const TRAP_PUTSP: u16 = 0x24;
/// Trap vector: halt the machine.
pub const TRAP_HALT: u16 = 0x25;

/// What an executed instruction asks of the console.
#[derive(Debug, PartialEq, Eq)]
pub enum Action {
    /// Nothing: go on with the next cycle.
    Continue,
    /// Write these bytes and flush.
    Output(Vec<u8>),
    /// Read one character (blocking) and hand it to `finish_input`; with
    /// `echo`, prompt first and write the character back.
    Input { echo: bool },
    /// The machine has halted.
    Halt,
}

/// `Action` as a mathematical value.
pub enum ActionModel {
    Continue,
    Output(Seq<u8>),
    Input { echo: bool },
    Halt,
}

impl View for Action {
    type V = ActionModel;

    open spec fn view(&self) -> ActionModel {
        match self {
            Action::Continue => ActionModel::Continue,
            Action::Output(b) => ActionModel::Output(b@),
            Action::Input { echo } => ActionModel::Input { echo: *echo },
            Action::Halt => ActionModel::Halt,
        }
    }
}

/// The result of an instruction as a mathematical value.
pub open spec fn outcome_view(r: Result<Action, VMError>) -> Result<ActionModel, VMError> {
    match r {
        Ok(a) => Ok(a@),
        Err(e) => Err(e),
    }
}

/// The low byte of a word.
pub open spec fn low_byte(w: u16) -> u8 {
    (w % 256) as u8
}

/// The high byte of a word.
pub open spec fn high_byte(w: u16) -> u8 {
    (w / 256) as u8
}

/// The `j`-th cell from `start`, wrapping at the end of memory.
pub open spec fn cell(mem: Seq<u16>, start: u16, j: int) -> u16 {
    mem[(start + j) % 0x10000]
}

/// The number of cells from the `k`-th on, counted from `start`, before the
/// first zero cell, plus `k`; at most the whole memory.
pub open spec fn string_len_from(mem: Seq<u16>, start: u16, k: nat) -> nat
    decreases 0x10000 - k,
{
    if k >= 0x10000 || cell(mem, start, k as int) == 0 {
        k
    } else {
        string_len_from(mem, start, k + 1)
    }
}

/// The number of cells of the zero-terminated string at `start` (at most the
/// whole memory).
pub open spec fn string_len(mem: Seq<u16>, start: u16) -> nat {
    string_len_from(mem, start, 0)
}

/// The low bytes of the first `k` cells from `start`.
pub open spec fn word_chars(mem: Seq<u16>, start: u16, k: nat) -> Seq<u8>
    decreases k,
{
    if k == 0 {
        Seq::empty()
    } else {
        word_chars(mem, start, (k - 1) as nat).push(low_byte(cell(mem, start, k - 1)))
    }
}

/// The characters packed in a word: the low byte, then the high byte unless
/// it is zero.
pub open spec fn packed_chars(w: u16) -> Seq<u8> {
    if high_byte(w) != 0 {
        seq![low_byte(w), high_byte(w)]
    } else {
        seq![low_byte(w)]
    }
}

/// The packed characters of the first `k` cells from `start`.
pub open spec fn packed_string(mem: Seq<u16>, start: u16, k: nat) -> Seq<u8>
    decreases k,
{
    if k == 0 {
        Seq::empty()
    } else {
        packed_string(mem, start, (k - 1) as nat) + packed_chars(cell(mem, start, k - 1))
    }
}

/// A trap: the state afterwards and what the console is asked to do.
pub open spec fn trap_spec(s: VmState, i: u16) -> (VmState, Result<ActionModel, VMError>) {
    let v = trap_vector(i);
    let r0 = s.reg[0];
    if v == TRAP_GETC {
        (s, Ok(ActionModel::Input { echo: false }))
    } else if v == TRAP_OUT {
        (s, Ok(ActionModel::Output(seq![low_byte(r0)])))
    } else if v == TRAP_PUTS {
        (s, Ok(ActionModel::Output(word_chars(s.mem, r0, string_len(s.mem, r0)))))
    } else if v == TRAP_IN {
        (s, Ok(ActionModel::Input { echo: true }))
    } else if v == TRAP_PUTSP {
        (s, Ok(ActionModel::Output(packed_string(s.mem, r0, string_len(s.mem, r0)))))
    } else if v == TRAP_HALT {
        (VmState { running: false, ..s }, Ok(ActionModel::Halt))
    } else {
        (s, Err(VMError::InvalidOpcode))
    }
}

/// An instruction whose PC has been advanced: the state afterwards and the
/// action. TRAP first links R7 to PC; RTI and RES are invalid.
pub open spec fn execute_spec(s: VmState, i: u16) -> (VmState, Result<ActionModel, VMError>) {
    match Opcodes::spec_of_instruction(i) {
        Opcodes::BR => (br_spec(s, i), Ok(ActionModel::Continue)),
        Opcodes::ADD => (add_spec(s, i), Ok(ActionModel::Continue)),
        Opcodes::LD => (ld_spec(s, i), Ok(ActionModel::Continue)),
        Opcodes::ST => (st_spec(s, i), Ok(ActionModel::Continue)),
        Opcodes::JSR => (jsr_spec(s, i), Ok(ActionModel::Continue)),
        Opcodes::AND => (and_spec(s, i), Ok(ActionModel::Continue)),
        Opcodes::LDR => (ldr_spec(s, i), Ok(ActionModel::Continue)),
        Opcodes::STR => (str_spec(s, i), Ok(ActionModel::Continue)),
        Opcodes::RTI => (s, Err(VMError::InvalidOpcode)),
        Opcodes::NOT => (not_spec(s, i), Ok(ActionModel::Continue)),
        Opcodes::LDI => (ldi_spec(s, i), Ok(ActionModel::Continue)),
        Opcodes::STI => (sti_spec(s, i), Ok(ActionModel::Continue)),
        Opcodes::JMP => (jmp_spec(s, i), Ok(ActionModel::Continue)),
        Opcodes::RES => (s, Err(VMError::InvalidOpcode)),
        Opcodes::LEA => (lea_spec(s, i), Ok(ActionModel::Continue)),
        Opcodes::TRAP => trap_spec(s.with_reg(R_R7 as int, s.pc()), i),
    }
}

/// One cycle: a stopped machine is left as it is; a running one fetches the
/// word at PC, advances PC and executes the word.
pub open spec fn step_spec(s: VmState) -> (VmState, Result<ActionModel, VMError>) {
    if !s.running {
        (s, Ok(ActionModel::Halt))
    } else {
        let (t, i) = read_mem(s, s.pc());
        execute_spec(t.with_reg(R_PC as int, wadd(t.pc(), 1)), i)
    }
}

} // verus!
