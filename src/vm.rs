//! The machine: register file, memory unit and running flag, with the
//! mathematical model that every operation is stated against.

use vstd::prelude::*;
use crate::bits::{
    wadd, sign_extend, dst_field, src1_field, src2_field, wrapping_add16,
};
use crate::error::VMError;
use crate::opcode::Opcodes;
use crate::engine::{
    Action, outcome_view, trap_spec, execute_spec, step_spec, low_byte,
    cell, string_len, string_len_from, word_chars, packed_string, TRAP_GETC,
    TRAP_OUT, TRAP_PUTS, TRAP_IN, TRAP_PUTSP, TRAP_HALT,
};
use crate::image::{
    image_well_formed, image_origin, image_words, place, word_from_be,
};
use crate::semantics::{
    add_spec, and_spec, not_spec, br_spec, jmp_spec, jsr_spec, ld_spec, ldi_spec, ldr_spec,
    lea_spec, st_spec, sti_spec, str_spec,
};


verus! {

/// The entry address at which a program starts.
pub const PC_START: u16 = 0x3000;
/// The number of memory cells.
pub const MEMORY_SIZE: usize = 65536;
/// The number of cells in the register file.
pub const REGISTER_COUNT: usize = 10;
/// Memory-mapped keyboard status register (bit 15: a character is ready).
pub const MR_KBSR: u16 = 0xFE00;
/// Memory-mapped keyboard data register (low eight bits: the character).
pub const MR_KBDR: u16 = 0xFE02;
/// Condition flag: the last value written was positive.
pub const FL_POS: u16 = 1;
/// Condition flag: the last value written was zero.
pub const FL_ZRO: u16 = 2;
/// Condition flag: the last value written was negative.
pub const FL_NEG: u16 = 4;
/// Index of the program counter in the register file.
pub const R_PC: usize = 8;
/// Index of the condition register in the register file.
pub const R_COND: usize = 9;
/// Index of the link register R7.
pub const R_R7: usize = 7;

/// The cells of the register file.
#[derive(Debug, Clone, Copy, PartialEq, Eq, Structural)]
pub enum Register {
    R0,
    R1,
    R2,
    R3,
    R4,
    R5,
    R6,
    R7,
    /// Program counter.
    PC,
    /// Condition flags.
    COND,
    /// The number of cells; names no cell.
    COUNT,
}

impl Register {
    /// The position of the cell in the register file.
    pub open spec fn spec_id(self) -> usize {
        match self {
            Register::R0 => 0,
            Register::R1 => 1,
            Register::R2 => 2,
            Register::R3 => 3,
            Register::R4 => 4,
            Register::R5 => 5,
            Register::R6 => 6,
            Register::R7 => 7,
            Register::PC => 8,
            Register::COND => 9,
            Register::COUNT => 10,
        }
    }

    /// The position of the cell in the register file.
    pub fn id(self) -> (r: usize)
        ensures
            r == self.spec_id(),
    {
        match self {
            Register::R0 => 0,
            Register::R1 => 1,
            Register::R2 => 2,
            Register::R3 => 3,
            Register::R4 => 4,
            Register::R5 => 5,
            Register::R6 => 6,
            Register::R7 => 7,
            Register::PC => 8,
            Register::COND => 9,
            Register::COUNT => 10,
        }
    }
}

/// The condition flag that a written value sets: ZRO for zero, NEG when bit
/// 15 is set, POS otherwise.
pub open spec fn flag_of(v: u16) -> u16 {
    if v == 0 {
        FL_ZRO
    } else if v >= 0x8000 {
        FL_NEG
    } else {
        FL_POS
    }
}

/// Exactly one of the three condition flags.
pub open spec fn valid_flag(c: u16) -> bool {
    c == FL_POS || c == FL_ZRO || c == FL_NEG
}

/// The machine as a mathematical value.
pub struct VmState {
    /// R0..R7, PC, COND.
    pub reg: Seq<u16>,
    /// The 65536 memory cells.
    pub mem: Seq<u16>,
    /// Whether the machine runs.
    pub running: bool,
    /// A character that the keyboard holds ready and no status poll has taken.
    pub key: Option<u8>,
}

impl VmState {
    /// Ten registers, 65536 cells, and a condition register holding exactly
    /// one flag.
    pub open spec fn wf(self) -> bool {
        &&& self.reg.len() == REGISTER_COUNT
        &&& self.mem.len() == MEMORY_SIZE
        &&& valid_flag(self.reg[R_COND as int])
    }

    pub open spec fn pc(self) -> u16 {
        self.reg[R_PC as int]
    }

    pub open spec fn cond(self) -> u16 {
        self.reg[R_COND as int]
    }

    /// The state with register `r` holding `v`.
    pub open spec fn with_reg(self, r: int, v: u16) -> VmState {
        VmState { reg: self.reg.update(r, v), ..self }
    }

    /// The state with general register `r` defined as `v`, and the condition
    /// register recomputed from it.
    pub open spec fn with_result(self, r: int, v: u16) -> VmState {
        self.with_reg(r, v).with_reg(R_COND as int, flag_of(v))
    }

    /// The state with memory cell `a` holding `v`.
    pub open spec fn with_mem(self, a: u16, v: u16) -> VmState {
        VmState { mem: self.mem.update(a as int, v), ..self }
    }
}

/// The state after the keyboard status register is polled: a ready character
/// sets bit 15 of the status cell and moves into the data cell; with none the
/// status cell is cleared.
pub open spec fn poll_keyboard(s: VmState) -> VmState {
    match s.key {
        Some(b) => VmState {
            mem: s.mem.update(MR_KBSR as int, 0x8000).update(MR_KBDR as int, b as u16),
            key: None,
            ..s
        },
        None => VmState { mem: s.mem.update(MR_KBSR as int, 0), ..s },
    }
}

/// A memory read: the state afterwards and the word read. Only a read of the
/// status register changes the state.
pub open spec fn read_mem(s: VmState, a: u16) -> (VmState, u16) {
    let t = if a == MR_KBSR { poll_keyboard(s) } else { s };
    (t, t.mem[a as int])
}

/// The machine: ten registers, 65536 words of memory, the running flag, and
/// the keyboard's ready character.
pub struct VM {
    reg: Vec<u16>,
    mem: Vec<u16>,
    running: bool,
    key: Option<u8>,
}

impl View for VM {
    type V = VmState;

    closed spec fn view(&self) -> VmState {
        VmState { reg: self.reg@, mem: self.mem@, running: self.running, key: self.key }
    }
}

impl VM {
    pub open spec fn wf(&self) -> bool {
        self@.wf()
    }

    /// A machine with zeroed registers and memory, PC at the entry address,
    /// the ZRO flag, stopped, and no character ready.
    pub fn new() -> (r: VM)
        ensures
            r.wf(),
            r@.reg == seq![0u16, 0, 0, 0, 0, 0, 0, 0, PC_START, FL_ZRO],
            r@.mem == Seq::new(MEMORY_SIZE as nat, |a: int| 0u16),
            !r@.running,
            r@.key is None,
    {
        let mut reg: Vec<u16> = Vec::new();
        let mut i: usize = 0;
        while i < REGISTER_COUNT
            invariant
                i <= REGISTER_COUNT,
                reg@ == Seq::new(i as nat, |k: int| 0u16),
            decreases REGISTER_COUNT - i,
        {
            reg.push(0);
            i = i + 1;
        }
        let mut mem: Vec<u16> = Vec::new();
        let mut j: usize = 0;
        while j < MEMORY_SIZE
            invariant
                j <= MEMORY_SIZE,
                mem@ == Seq::new(j as nat, |k: int| 0u16),
            decreases MEMORY_SIZE - j,
        {
            mem.push(0);
            j = j + 1;
        }
        reg.set(R_PC, PC_START);
        reg.set(R_COND, FL_ZRO);
        let vm = VM { reg, mem, running: false, key: None };
        assert(vm@.reg =~= seq![0u16, 0, 0, 0, 0, 0, 0, 0, PC_START, FL_ZRO]);
        vm
    }

    /// Moves PC to the next word, wrapping at 65536.
    pub fn advance_pc(&mut self)
        requires
            old(self).wf(),
        ensures
            final(self).wf(),
            final(self)@ == old(self)@.with_reg(R_PC as int, wadd(old(self)@.pc(), 1)),
    {
        let pc = self.reg[R_PC];
        self.reg[R_PC] = wrapping_add16(pc, 1);
    }

    pub fn get_pc(&self) -> (r: u16)
        requires
            self.wf(),
        ensures
            r == self@.pc(),
    {
        self.reg[R_PC]
    }

    pub fn set_pc(&mut self, pc: u16)
        requires
            old(self).wf(),
        ensures
            final(self).wf(),
            final(self)@ == old(self)@.with_reg(R_PC as int, pc),
    {
        self.reg[R_PC] = pc;
    }

    /// Reads memory cell `addr`. A read of the keyboard status register first
    /// polls the keyboard (see `poll_keyboard`); any other read is a lookup.
    pub fn mem_read(&mut self, addr: u16) -> (r: u16)
        requires
            old(self).wf(),
        ensures
            final(self).wf(),
            (final(self)@, r) == read_mem(old(self)@, addr),
    {
        if addr == MR_KBSR {
            match self.key {
                Some(b) => {
                    self.mem[MR_KBSR as usize] = 0x8000;
                    self.mem[MR_KBDR as usize] = b as u16;
                    self.key = None;
                },
                None => {
                    self.mem[MR_KBSR as usize] = 0;
                },
            }
        }
        self.mem[addr as usize]
    }

    /// Stores `val` in memory cell `addr`.
    pub fn mem_write(&mut self, addr: u16, val: u16)
        requires
            old(self).wf(),
        ensures
            final(self).wf(),
            final(self)@ == old(self)@.with_mem(addr, val),
    {
        self.mem[addr as usize] = val;
    }

    /// The value of register cell `id` (R0..R7, PC, COND).
    pub fn read_reg(&self, id: usize) -> (r: u16)
        requires
            self.wf(),
            id < REGISTER_COUNT,
        ensures
            r == self@.reg[id as int],
    {
        self.reg[id]
    }

    /// Stores `value` in register cell `id`; the condition register only
    /// takes a single flag.
    pub fn set_reg(&mut self, id: usize, value: u16)
        requires
            old(self).wf(),
            id < REGISTER_COUNT,
            id == R_COND ==> valid_flag(value),
        ensures
            final(self).wf(),
            final(self)@ == old(self)@.with_reg(id as int, value),
    {
        self.reg[id] = value;
    }

    /// Sets the running flag.
    pub fn turn_on(&mut self)
        requires
            old(self).wf(),
        ensures
            final(self).wf(),
            final(self)@ == (VmState { running: true, ..old(self)@ }),
    {
        self.running = true;
    }

    pub fn is_running(&self) -> (r: bool)
        ensures
            r == self@.running,
    {
        self.running
    }

    /// Sets the condition register from the value of general register `r`.
    fn update_flags(&mut self, r: usize)
        requires
            old(self).wf(),
            r < 8,
        ensures
            final(self).wf(),
            final(self)@ == old(self)@.with_reg(R_COND as int, flag_of(old(self)@.reg[r as int])),
    {
        if self.reg[r] == 0 {
            self.reg[R_COND] = FL_ZRO;
        } else if self.reg[r] >= 0x8000 {
            self.reg[R_COND] = FL_NEG;
        } else {
            self.reg[R_COND] = FL_POS;
        }
    }

    /// ADD: register or immediate mode, wrapping; sets the flags.
    pub fn add(&mut self, instruction: u16)
        requires
            old(self).wf(),
        ensures
            final(self).wf(),
            final(self)@ == add_spec(old(self)@, instruction),
    {
        let r0 = dst_field(instruction);
        let r1 = src1_field(instruction);
        let b = if (instruction >> 5) & 1 != 0 {
            sign_extend(instruction & 0x1F, 5)
        } else {
            self.reg[src2_field(instruction)]
        };
        self.reg[r0] = wrapping_add16(self.reg[r1], b);
        self.update_flags(r0);
    }

    /// LDI: loads through the pointer at PC plus the 9-bit offset; sets the
    /// flags.
    pub fn ldi(&mut self, instruction: u16)
        requires
            old(self).wf(),
        ensures
            final(self).wf(),
            final(self)@ == ldi_spec(old(self)@, instruction),
    {
        let r0 = dst_field(instruction);
        let pc_offset = sign_extend(instruction & 0x1FF, 9);
        let pc = self.reg[R_PC];
        let addr = self.mem_read(wrapping_add16(pc, pc_offset));
        let v = self.mem_read(addr);
        self.reg[r0] = v;
        self.update_flags(r0);
    }

    /// AND: register or immediate mode; sets the flags.
    pub fn and(&mut self, instruction: u16)
        requires
            old(self).wf(),
        ensures
            final(self).wf(),
            final(self)@ == and_spec(old(self)@, instruction),
    {
        let r0 = dst_field(instruction);
        let r1 = src1_field(instruction);
        let b = if (instruction >> 5) & 1 != 0 {
            sign_extend(instruction & 0x1F, 5)
        } else {
            self.reg[src2_field(instruction)]
        };
        self.reg[r0] = self.reg[r1] & b;
        self.update_flags(r0);
    }

    /// NOT: bitwise complement; sets the flags.
    pub fn not(&mut self, instruction: u16)
        requires
            old(self).wf(),
        ensures
            final(self).wf(),
            final(self)@ == not_spec(old(self)@, instruction),
    {
        let r0 = dst_field(instruction);
        let r1 = src1_field(instruction);
        self.reg[r0] = !self.reg[r1];
        self.update_flags(r0);
    }

    /// BR: branches when a tested flag is set; flags unchanged.
    pub fn branch(&mut self, instruction: u16)
        requires
            old(self).wf(),
        ensures
            final(self).wf(),
            final(self)@ == br_spec(old(self)@, instruction),
    {
        let pc_offset = sign_extend(instruction & 0x1FF, 9);
        let cond_flag: u16 = (instruction >> 9) & 0x7;
        if cond_flag & self.reg[R_COND] != 0 {
            let pc = self.reg[R_PC];
            self.reg[R_PC] = wrapping_add16(pc, pc_offset);
        }
    }

    /// JMP: PC takes the base register.
    pub fn jmp(&mut self, instruction: u16)
        requires
            old(self).wf(),
        ensures
            final(self).wf(),
            final(self)@ == jmp_spec(old(self)@, instruction),
    {
        let r1 = src1_field(instruction);
        let target = self.reg[r1];
        self.reg[R_PC] = target;
    }

    /// JSR / JSRR: links R7 to PC, then jumps.
    pub fn jump(&mut self, instruction: u16)
        requires
            old(self).wf(),
        ensures
            final(self).wf(),
            final(self)@ == jsr_spec(old(self)@, instruction),
    {
        let long_flag: u16 = (instruction >> 11) & 1;
        let pc = self.reg[R_PC];
        self.reg[R_R7] = pc;
        if long_flag != 0 {
            let long_offset = sign_extend(instruction & 0x7FF, 11);
            self.reg[R_PC] = wrapping_add16(pc, long_offset);
        } else {
            let r1 = src1_field(instruction);
            let target = self.reg[r1];
            self.reg[R_PC] = target;
        }
    }

    /// LD: loads from PC plus the 9-bit offset; sets the flags.
    pub fn load(&mut self, instruction: u16)
        requires
            old(self).wf(),
        ensures
            final(self).wf(),
            final(self)@ == ld_spec(old(self)@, instruction),
    {
        let r0 = dst_field(instruction);
        let pc_offset = sign_extend(instruction & 0x1FF, 9);
        let pc = self.reg[R_PC];
        let v = self.mem_read(wrapping_add16(pc, pc_offset));
        self.reg[r0] = v;
        self.update_flags(r0);
    }

    /// LDR: loads from the base register plus the 6-bit offset; sets the flags.
    pub fn ldr(&mut self, instruction: u16)
        requires
            old(self).wf(),
        ensures
            final(self).wf(),
            final(self)@ == ldr_spec(old(self)@, instruction),
    {
        let r0 = dst_field(instruction);
        let r1 = src1_field(instruction);
        let offset = sign_extend(instruction & 0x3F, 6);
        let base = self.reg[r1];
        let v = self.mem_read(wrapping_add16(base, offset));
        self.reg[r0] = v;
        self.update_flags(r0);
    }

    /// LEA: the address PC plus the 9-bit offset; sets the flags.
    pub fn lea(&mut self, instruction: u16)
        requires
            old(self).wf(),
        ensures
            final(self).wf(),
            final(self)@ == lea_spec(old(self)@, instruction),
    {
        let r0 = dst_field(instruction);
        let pc_offset = sign_extend(instruction & 0x1FF, 9);
        let pc = self.reg[R_PC];
        self.reg[r0] = wrapping_add16(pc, pc_offset);
        self.update_flags(r0);
    }

    /// ST: stores the source register at PC plus the 9-bit offset.
    pub fn store(&mut self, instruction: u16)
        requires
            old(self).wf(),
        ensures
            final(self).wf(),
            final(self)@ == st_spec(old(self)@, instruction),
    {
        let r0 = dst_field(instruction);
        let pc_offset = sign_extend(instruction & 0x1FF, 9);
        let pc = self.reg[R_PC];
        let v = self.reg[r0];
        self.mem_write(wrapping_add16(pc, pc_offset), v);
    }

    /// STI: stores the source register through the pointer at PC plus the
    /// 9-bit offset.
    pub fn store_indirect(&mut self, instruction: u16)
        requires
            old(self).wf(),
        ensures
            final(self).wf(),
            final(self)@ == sti_spec(old(self)@, instruction),
    {
        let r0 = dst_field(instruction);
        let pc_offset = sign_extend(instruction & 0x1FF, 9);
        let pc = self.reg[R_PC];
        let indirect_addr = self.mem_read(wrapping_add16(pc, pc_offset));
        let v = self.reg[r0];
        self.mem_write(indirect_addr, v);
    }

    /// STR: stores the source register at the base register plus the 6-bit
    /// offset.
    pub fn store_register(&mut self, instruction: u16)
        requires
            old(self).wf(),
        ensures
            final(self).wf(),
            final(self)@ == str_spec(old(self)@, instruction),
    {
        let r0 = dst_field(instruction);
        let r1 = src1_field(instruction);
        let offset = sign_extend(instruction & 0x3F, 6);
        let base = self.reg[r1];
        let v = self.reg[r0];
        self.mem_write(wrapping_add16(base, offset), v);
    }

    /// The characters of the zero-terminated string at `start`, one per word
    /// (its low byte), reading at most the whole memory.
    fn word_string(&self, start: u16) -> (r: Vec<u8>)
        requires
            self.wf(),
        ensures
            r@ == word_chars(self@.mem, start, string_len(self@.mem, start)),
    {
        let mut out: Vec<u8> = Vec::new();
        let mut k: usize = 0;
        let mut a: u16 = start;
        while k < MEMORY_SIZE && self.mem[a as usize] != 0
            invariant
                self.wf(),
                k <= MEMORY_SIZE,
                a as int == (start + k) % 0x10000,
                string_len(self@.mem, start) == string_len_from(self@.mem, start, k as nat),
                out@ == word_chars(self@.mem, start, k as nat),
            decreases MEMORY_SIZE - k,
        {
            let w = self.mem[a as usize];
            proof {
                lemma_byte_split(w);
            }
            out.push((w & 0xFF) as u8);
            a = wrapping_add16(a, 1);
            k = k + 1;
        }
        out
    }

    /// The characters of the zero-terminated string at `start`, two per word
    /// (low byte, then high byte unless zero), reading at most the whole
    /// memory.
    fn packed_word_string(&self, start: u16) -> (r: Vec<u8>)
        requires
            self.wf(),
        ensures
            r@ == packed_string(self@.mem, start, string_len(self@.mem, start)),
    {
        let mut out: Vec<u8> = Vec::new();
        let mut k: usize = 0;
        let mut a: u16 = start;
        while k < MEMORY_SIZE && self.mem[a as usize] != 0
            invariant
                self.wf(),
                k <= MEMORY_SIZE,
                a as int == (start + k) % 0x10000,
                string_len(self@.mem, start) == string_len_from(self@.mem, start, k as nat),
                out@ == packed_string(self@.mem, start, k as nat),
            decreases MEMORY_SIZE - k,
        {
            let w = self.mem[a as usize];
            proof {
                lemma_byte_split(w);
            }
            out.push((w & 0xFF) as u8);
            let hi = (w >> 8) as u8;
            if hi != 0 {
                out.push(hi);
            }
            assert(out@ =~= packed_string(self@.mem, start, (k + 1) as nat));
            a = wrapping_add16(a, 1);
            k = k + 1;
        }
        out
    }

    /// TRAP: runs the routine named by the low eight bits. GETC and IN leave
    /// the read to the console (`Action::Input`); OUT, PUTS and PUTSP hand it
    /// the bytes to write; HALT stops the machine. Any other vector is an
    /// invalid opcode.
    pub fn execute_trap_routine(&mut self, instruction: u16) -> (r: Result<Action, VMError>)
        requires
            old(self).wf(),
        ensures
            final(self).wf(),
            (final(self)@, outcome_view(r)) == trap_spec(old(self)@, instruction),
    {
        let vector = instruction & 0xFF;
        let r0 = self.reg[0];
        if vector == TRAP_GETC {
            Ok(Action::Input { echo: false })
        } else if vector == TRAP_OUT {
            proof {
                lemma_byte_split(r0);
            }
            let mut out: Vec<u8> = Vec::new();
            out.push((r0 & 0xFF) as u8);
            assert(out@ =~= seq![low_byte(r0)]);
            Ok(Action::Output(out))
        } else if vector == TRAP_PUTS {
            Ok(Action::Output(self.word_string(r0)))
        } else if vector == TRAP_IN {
            Ok(Action::Input { echo: true })
        } else if vector == TRAP_PUTSP {
            Ok(Action::Output(self.packed_word_string(r0)))
        } else if vector == TRAP_HALT {
            self.running = false;
            Ok(Action::Halt)
        } else {
            Err(VMError::InvalidOpcode)
        }
    }

    /// Executes one instruction whose PC has already been advanced. TRAP
    /// links R7 to PC before its routine runs; RTI and RES are invalid.
    pub fn execute(&mut self, instruction: u16) -> (r: Result<Action, VMError>)
        requires
            old(self).wf(),
        ensures
            final(self).wf(),
            (final(self)@, outcome_view(r)) == execute_spec(old(self)@, instruction),
    {
        match Opcodes::of_instruction(instruction) {
            Opcodes::BR => {
                self.branch(instruction);
                Ok(Action::Continue)
            },
            Opcodes::ADD => {
                self.add(instruction);
                Ok(Action::Continue)
            },
            Opcodes::LD => {
                self.load(instruction);
                Ok(Action::Continue)
            },
            Opcodes::ST => {
                self.store(instruction);
                Ok(Action::Continue)
            },
            Opcodes::JSR => {
                self.jump(instruction);
                Ok(Action::Continue)
            },
            Opcodes::AND => {
                self.and(instruction);
                Ok(Action::Continue)
            },
            Opcodes::LDR => {
                self.ldr(instruction);
                Ok(Action::Continue)
            },
            Opcodes::STR => {
                self.store_register(instruction);
                Ok(Action::Continue)
            },
            Opcodes::RTI => Err(VMError::InvalidOpcode),
            Opcodes::NOT => {
                self.not(instruction);
                Ok(Action::Continue)
            },
            Opcodes::LDI => {
                self.ldi(instruction);
                Ok(Action::Continue)
            },
            Opcodes::STI => {
                self.store_indirect(instruction);
                Ok(Action::Continue)
            },
            Opcodes::JMP => {
                self.jmp(instruction);
                Ok(Action::Continue)
            },
            Opcodes::RES => Err(VMError::InvalidOpcode),
            Opcodes::LEA => {
                self.lea(instruction);
                Ok(Action::Continue)
            },
            Opcodes::TRAP => {
                let pc = self.reg[R_PC];
                self.reg[R_R7] = pc;
                self.execute_trap_routine(instruction)
            },
        }
    }

    /// One cycle of the engine. A stopped machine is left as it is and
    /// reports `Halt`: no word is fetched. A running one fetches the word at
    /// PC (a memory read), advances PC and executes the word.
    pub fn step(&mut self) -> (r: Result<Action, VMError>)
        requires
            old(self).wf(),
        ensures
            final(self).wf(),
            (final(self)@, outcome_view(r)) == step_spec(old(self)@),
    {
        if !self.running {
            return Ok(Action::Halt);
        }
        let pc = self.reg[R_PC];
        let instruction = self.mem_read(pc);
        self.advance_pc();
        self.execute(instruction)
    }

    /// Whether the keyboard holds a character that no poll has taken.
    pub fn key_ready(&self) -> (r: bool)
        ensures
            r == self@.key is Some,
    {
        self.key.is_some()
    }

    /// The keyboard receives a character: the next poll of the status
    /// register, or the next console read, takes it.
    pub fn press_key(&mut self, byte: u8)
        requires
            old(self).wf(),
        ensures
            final(self).wf(),
            final(self)@ == (VmState { key: Some(byte), ..old(self)@ }),
    {
        self.key = Some(byte);
    }

    /// Takes the keyboard's ready character, if any.
    pub fn take_key(&mut self) -> (r: Option<u8>)
        requires
            old(self).wf(),
        ensures
            final(self).wf(),
            r == old(self)@.key,
            final(self)@ == (VmState { key: None, ..old(self)@ }),
    {
        let k = self.key;
        self.key = None;
        k
    }

    /// Completes GETC or IN with the character read: R0 takes it and the
    /// flags follow.
    pub fn finish_input(&mut self, byte: u8)
        requires
            old(self).wf(),
        ensures
            final(self).wf(),
            final(self)@ == old(self)@.with_result(0, byte as u16),
    {
        self.reg[0] = byte as u16;
        self.update_flags(0);
    }

    /// Loads a program image: the origin, then each word at the next address
    /// up, wrapping at the end of memory. An image shorter than an origin,
    /// or with a truncated final word, is malformed and changes nothing.
    pub fn read_image(&mut self, image: &[u8]) -> (r: Result<(), VMError>)
        requires
            old(self).wf(),
        ensures
            final(self).wf(),
            r is Ok <==> image_well_formed(image@),
            r is Ok ==> final(self)@ == (VmState {
                mem: place(old(self)@.mem, image_origin(image@), image_words(image@)),
                ..old(self)@
            }),
            r is Err ==> r == Err::<(), VMError>(VMError::MalformedImage) && final(self)@ == old(self)@,
    {
        let len = image.len();
        if len < 2 || len % 2 != 0 {
            return Err(VMError::MalformedImage);
        }
        let origin = word_from_be(image[0], image[1]);
        let n: usize = (len - 2) / 2;
        let ghost words = image_words(image@);
        let ghost mem0 = self@.mem;
        let mut k: usize = 0;
        let mut addr: u16 = origin;
        while k < n
            invariant
                self.wf(),
                len == image@.len(),
                image_well_formed(image@),
                n == words.len(),
                words == image_words(image@),
                origin == image_origin(image@),
                k <= n,
                addr as int == (origin + k) % 0x10000,
                self@ == (VmState { mem: place(mem0, origin, words.take(k as int)), ..old(self)@ }),
            decreases n - k,
        {
            assert(2 + 2 * k + 1 < len);
            let w = word_from_be(image[2 + 2 * k], image[3 + 2 * k]);
            self.mem[addr as usize] = w;
            assert(words.take(k + 1).drop_last() =~= words.take(k as int));
            assert(self@.mem =~= place(mem0, origin, words.take(k + 1)));
            addr = wrapping_add16(addr, 1);
            k = k + 1;
        }
        assert(words.take(n as int) =~= words);
        Ok(())
    }
}

/// The low and high bytes of a word, as bit operations.
proof fn lemma_byte_split(w: u16)
    ensures
        w & 0xFF == w % 256,
        w >> 8 == w / 256,
        w / 256 < 256,
{
    assert(w & 0xFF == w % 256 && w >> 8 == w / 256 && w / 256 < 256) by (bit_vector);
}

} // verus!
