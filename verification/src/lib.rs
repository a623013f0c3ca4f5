//! Bytecode representation layer for a stack-based expression virtual
//! machine: the instruction set, the chunk encoding scheme (a linear byte
//! stream plus a constant pool), and a decoder/disassembler that fixes the
//! operand layout of every instruction byte-for-byte.

pub mod chunk;
pub mod disasm;
pub mod op;
