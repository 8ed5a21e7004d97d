//! Decoding of Game Boy cartridge images: the fixed-layout header with its
//! lookup tables and checksums, and a length-aware instruction-stream decoder.
//!
//! A cartridge image is a plain byte buffer.  The header region
//! (`0x0100..=0x014F`) is decoded field by field from fixed offsets; the
//! instruction decoder walks any byte slice and classifies each opcode.
//! Every decoder is total over the inputs its contract admits: malformed
//! bytes surface as explicit error values, never as panics.

pub mod cpu;
pub mod cpu_flags;
pub mod errors;
pub mod formatting;
pub mod instructions;
pub mod memory;
pub mod native;
pub mod opcodes;
pub mod registers;
pub mod rom_scanner;
pub mod roms;
pub mod text;
