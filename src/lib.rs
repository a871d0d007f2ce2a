//! An interpreter for the Reustmann abstract machine: a fixed-memory stack
//! machine in which every byte sequence is a legal program, with no
//! instruction faults and no memory faults.
//!
//! The machine has `L` cells of `W` bits, a program counter `PC`, a stack
//! pointer `SP` and a non-zero flag `NZ`. Programs are written one character
//! per instruction; any character that is no mnemonic executes as `NOP`.

pub mod op_codes;
pub mod instruction;
pub mod machine;
pub mod error;
pub mod program;
pub mod memory;
pub mod interpreter;
pub mod io;
pub mod debugger;
pub mod command;

pub use program::Program;
pub use interpreter::{DebugInfos, Interpreter, Statement};
