//! Instruction-stream decoding: the opcode shapes, the strict decoder that
//! stops at the first unknown opcode, and the permissive decoder that
//! substitutes a sentinel for unrecognized bytes.

pub mod instruction;
pub mod instruction_reader;
