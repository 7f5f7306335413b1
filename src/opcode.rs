//! The sixteen opcodes.

use vstd::prelude::*;
use crate::bits::opcode_bits;

verus! {

/// The operation selected by the top four bits of an instruction word.
#[derive(Debug, Clone, Copy, PartialEq, Eq, Structural)]
pub enum Opcodes {
    /// Conditional branch (0).
    BR,
    /// Addition (1).
    ADD,
    /// Load, PC-relative (2).
    LD,
    /// Store, PC-relative (3).
    ST,
    /// Jump to subroutine (4).
    JSR,
    /// Bitwise and (5).
    AND,
    /// Load, base plus offset (6).
    LDR,
    /// Store, base plus offset (7).
    STR,
    /// Return from interrupt; unused (8).
    RTI,
    /// Bitwise complement (9).
    NOT,
    /// Load indirect (10).
    LDI,
    /// Store indirect (11).
    STI,
    /// Jump (12).
    JMP,
    /// Reserved (13).
    RES,
    /// Load effective address (14).
    LEA,
    /// Trap (15).
    TRAP,
}

impl Opcodes {
    /// The opcode numbered `n` (taken modulo 16).
    pub open spec fn spec_from_bits(n: u16) -> Opcodes {
        let k = n % 16;
        if k == 0 { Opcodes::BR }
        else if k == 1 { Opcodes::ADD }
        else if k == 2 { Opcodes::LD }
        else if k == 3 { Opcodes::ST }
        else if k == 4 { Opcodes::JSR }
        else if k == 5 { Opcodes::AND }
        else if k == 6 { Opcodes::LDR }
        else if k == 7 { Opcodes::STR }
        else if k == 8 { Opcodes::RTI }
        else if k == 9 { Opcodes::NOT }
        else if k == 10 { Opcodes::LDI }
        else if k == 11 { Opcodes::STI }
        else if k == 12 { Opcodes::JMP }
        else if k == 13 { Opcodes::RES }
        else if k == 14 { Opcodes::LEA }
        else { Opcodes::TRAP }
    }

    /// The opcode of an instruction word.
    pub open spec fn spec_of_instruction(i: u16) -> Opcodes {
        Opcodes::spec_from_bits(opcode_bits(i))
    }

    /// Decodes the opcode of an instruction word (bits 15..12).
    pub fn of_instruction(instruction: u16) -> (r: Opcodes)
        ensures
            r == Opcodes::spec_of_instruction(instruction),
    {
        Opcodes::from_bits(instruction >> 12)
    }

    /// The opcode numbered by the low four bits of `n`.
    pub fn from_bits(n: u16) -> (r: Opcodes)
        ensures
            r == Opcodes::spec_from_bits(n),
    {
        match n % 16 {
            0 => Opcodes::BR,
            1 => Opcodes::ADD,
            2 => Opcodes::LD,
            3 => Opcodes::ST,
            4 => Opcodes::JSR,
            5 => Opcodes::AND,
            6 => Opcodes::LDR,
            7 => Opcodes::STR,
            8 => Opcodes::RTI,
            9 => Opcodes::NOT,
            10 => Opcodes::LDI,
            11 => Opcodes::STI,
            12 => Opcodes::JMP,
            13 => Opcodes::RES,
            14 => Opcodes::LEA,
            _ => Opcodes::TRAP,
        }
    }
}

} // verus!
