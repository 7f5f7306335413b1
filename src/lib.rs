//! A virtual machine for a 16-bit register architecture with eight general
//! registers, sixteen opcodes and a word-addressed memory of 65536 cells.
//! The execution engine is verified against a mathematical model of the
//! machine; console I/O is left to the caller through explicit actions.

pub mod bits;
pub mod error;
pub mod opcode;
pub mod vm;
pub mod semantics;
pub mod engine;
pub mod image;
pub mod operations;
pub mod laws;

pub use crate::bits::sign_extend;
pub use crate::engine::Action;
pub use crate::error::VMError;
pub use crate::opcode::Opcodes;
pub use crate::operations::Operations;
pub use crate::vm::{Register, VM};
