//! Bytecode chunks for a small stack-based virtual machine: the instruction
//! set and its one-byte encoding, the chunk that holds a program, and the
//! disassembler that lists a chunk's instructions as text.

pub mod opcode;
pub mod text;
pub mod value;
pub mod chunk;
pub mod disassembler;
