//! The decoded instruction shapes and the strict decoder.
//!
//! The decoder walks a byte buffer from offset zero.  Each byte either
//! selects an entry of the (partial) opcode table, or — for `0xCB` — escapes
//! into the 256-entry prefixed opcode space, of which no entry is tabulated
//! yet.  The decoder commits to each instruction's declared length before
//! reading the next opcode byte; it never resynchronizes.

use vstd::prelude::*;

use crate::cpu_flags::CpuFlags;
use crate::errors::JayBoyError;
use crate::formatting::spec_hex_word;
use crate::formatting::TextBuilder;
use crate::native::gb_u16;
use crate::native::gb_u8;

verus! {

/// An 8-bit CPU register an instruction can name.
#[derive(Debug, Eq, PartialEq, Structural, Clone, Copy)]
pub enum Register {
    A,
    B,
    C,
    D,
    E,
    H,
    L,
}

/// One decoded instruction.  `Unknown` is the sentinel the permissive
/// decoder substitutes for an unrecognized byte: one byte long, zero cycles.
#[derive(Debug, Eq, PartialEq, Structural, Clone, Copy)]
pub enum Instruction {
    NOP,
    JPa16(gb_u16),
    LD(Register, Register),
    LDA(gb_u16),
    /// Reset the master interrupt-enable flag.
    DI,
    CALLa16(gb_u16),
    ANDd8(gb_u8),
    /// An unrecognized byte, kept as found.
    Unknown(gb_u8),
}

impl Instruction {
    /// Whether `byte` escapes into the prefixed opcode space.
    pub fn is_prefix(byte: u8) -> (r: bool)
        ensures
            r == (byte == 0xCB),
    {
        byte == 0xCB
    }

    /// Total encoded length: opcode plus operand bytes.
    pub open spec fn spec_byte_size(self) -> usize {
        match self {
            Instruction::NOP => 1,
            Instruction::JPa16(_) => 3,
            Instruction::LD(_, _) => 1,
            Instruction::LDA(_) => 2,
            Instruction::DI => 1,
            Instruction::CALLa16(_) => 3,
            Instruction::ANDd8(_) => 2,
            Instruction::Unknown(_) => 1,
        }
    }

    pub fn byte_size(&self) -> (r: usize)
        ensures
            r == self.spec_byte_size(),
    {
        match self {
            Instruction::JPa16(_) => 3,
            Instruction::CALLa16(_) => 3,
            Instruction::LDA(_) => 2,
            Instruction::ANDd8(_) => 2,
            _ => 1,
        }
    }

    /// Clock cycles; the unknown sentinel takes none.
    pub open spec fn spec_cycle_count(self) -> usize {
        match self {
            Instruction::Unknown(_) => 0,
            _ => 1,
        }
    }

    pub fn cycle_count(&self) -> (r: usize)
        ensures
            r == self.spec_cycle_count(),
    {
        match self {
            Instruction::Unknown(_) => 0,
            _ => 1,
        }
    }

    /// The CPU flags the instruction affects: none, for every tabulated
    /// opcode.
    pub fn cpu_flags(&self) -> (r: CpuFlags)
        ensures
            r.spec_bits() == 0,
    {
        CpuFlags::none()
    }

    /// What `describe` renders: a mnemonic, with the jump target where one
    /// is tabulated, and a placeholder for the rest.
    pub open spec fn spec_describe(self) -> Seq<char> {
        match self {
            Instruction::NOP => "NOP"@,
            Instruction::JPa16(v) => "JP a16: "@ + spec_hex_word(v.0),
            Instruction::LD(Register::A, Register::A) => "LD: A A"@,
            Instruction::DI => "DI"@,
            _ => "???"@,
        }
    }

    /// The instruction as text.
    pub fn describe(&self) -> (r: String)
        ensures
            r@ == self.spec_describe(),
    {
        let mut b = TextBuilder::new();
        match self {
            Instruction::NOP => b.append("NOP"),
            Instruction::JPa16(v) => {
                b.append("JP a16: ");
                b.append_hex_word(v.0);
            },
            Instruction::LD(Register::A, Register::A) => b.append("LD: A A"),
            Instruction::DI => b.append("DI"),
            _ => b.append("???"),
        }
        let r = b.build_string();
        proof {
            assert(r@ =~= self.spec_describe());
        }
        r
    }
}

/// Reads one operand byte at `*index`, advancing it on success.
pub fn read_gb_u8(bytes: &[u8], index: &mut usize) -> (r: Result<gb_u8, JayBoyError>)
    ensures
        *old(index) < bytes@.len() ==> r == Ok::<gb_u8, JayBoyError>(gb_u8(bytes@[*old(index) as int]))
            && *final(index) == *old(index) + 1,
        *old(index) >= bytes@.len() ==> r == Err::<gb_u8, JayBoyError>(JayBoyError::NotEnoughBytes)
            && *final(index) == *old(index),
{
    let i = *index;
    if i >= bytes.len() {
        Err(JayBoyError::NotEnoughBytes)
    } else {
        *index = i + 1;
        Ok(gb_u8(*vstd::slice::slice_index_get(bytes, i)))
    }
}

/// The 16-bit value stored little-endian at `s[j]` and `s[j + 1]`.
pub open spec fn spec_le16(s: Seq<u8>, j: int) -> gb_u16 {
    gb_u16((s[j] + s[j + 1] * 256) as u16)
}

/// Reads one little-endian 16-bit operand at `*index`, advancing it on
/// success.
pub fn read_gb_u16(bytes: &[u8], index: &mut usize) -> (r: Result<gb_u16, JayBoyError>)
    ensures
        *old(index) + 2 <= bytes@.len() ==> r == Ok::<gb_u16, JayBoyError>(
            spec_le16(bytes@, *old(index) as int),
        ) && *final(index) == *old(index) + 2,
        *old(index) + 2 > bytes@.len() ==> r == Err::<gb_u16, JayBoyError>(
            JayBoyError::NotEnoughBytes,
        ) && *final(index) == *old(index),
{
    let i = *index;
    if i >= bytes.len() {
        Err(JayBoyError::NotEnoughBytes)
    } else if i + 1 >= bytes.len() {
        Err(JayBoyError::NotEnoughBytes)
    } else {
        *index = i + 2;
        let low = *vstd::slice::slice_index_get(bytes, i);
        let high = *vstd::slice::slice_index_get(bytes, i + 1);
        Ok(gb_u16::from_le_bytes(low, high))
    }
}

/// An instruction paired with the byte offset it starts at.
#[derive(Debug, Eq, PartialEq, Structural, Clone, Copy)]
pub struct InstructionPosition(pub gb_u16, pub Instruction);

impl InstructionPosition {
    /// The position and instruction as one line of text.
    pub fn describe(&self) -> (r: String)
        ensures
            r@ == spec_hex_word(self.0.0) + ": "@ + self.1.spec_describe(),
    {
        let mut b = TextBuilder::new();
        b.append_hex_word(self.0.0);
        b.append(": ");
        b.append(self.1.describe().as_str());
        let r = b.build_string();
        proof {
            assert(r@ =~= spec_hex_word(self.0.0) + ": "@ + self.1.spec_describe());
        }
        r
    }
}

/// Prepends the instruction decoded at `i` onto the rest of a decode.
pub open spec fn spec_parse_cons(
    i: int,
    ins: Instruction,
    rest: Result<Seq<InstructionPosition>, JayBoyError>,
) -> Result<Seq<InstructionPosition>, JayBoyError> {
    match rest {
        Ok(tail) => Ok(seq![InstructionPosition(gb_u16(i as u16), ins)] + tail),
        Err(e) => Err(e),
    }
}

/// What a strict decode of `s` from offset `i` yields: the position-tagged
/// instructions to the end of the buffer, or the first failure.
///
/// A byte with no table entry fails with the byte and its instruction's
/// offset.  `0xCB` selects from the prefixed table, which has no entries
/// tabulated, so a complete two-byte prefixed opcode fails as unknown, and
/// a lone `0xCB` at the end of the buffer fails as truncated.
pub open spec fn spec_parse(s: Seq<u8>, i: int) -> Result<Seq<InstructionPosition>, JayBoyError>
    decreases s.len() - i,
{
    if i < 0 || i >= s.len() {
        Ok(Seq::empty())
    } else {
        let b = s[i];
        if b == 0x00 {
            spec_parse_cons(i, Instruction::NOP, spec_parse(s, i + 1))
        } else if b == 0x7F {
            spec_parse_cons(i, Instruction::LD(Register::A, Register::A), spec_parse(s, i + 1))
        } else if b == 0xF3 {
            spec_parse_cons(i, Instruction::DI, spec_parse(s, i + 1))
        } else if b == 0xC3 {
            if i + 3 <= s.len() {
                spec_parse_cons(i, Instruction::JPa16(spec_le16(s, i + 1)), spec_parse(s, i + 3))
            } else {
                Err(JayBoyError::NotEnoughBytes)
            }
        } else if b == 0xCD {
            if i + 3 <= s.len() {
                spec_parse_cons(i, Instruction::CALLa16(spec_le16(s, i + 1)), spec_parse(s, i + 3))
            } else {
                Err(JayBoyError::NotEnoughBytes)
            }
        } else if b == 0xE6 {
            if i + 2 <= s.len() {
                spec_parse_cons(i, Instruction::ANDd8(gb_u8(s[i + 1])), spec_parse(s, i + 2))
            } else {
                Err(JayBoyError::NotEnoughBytes)
            }
        } else if b == 0xF0 {
            if i + 2 <= s.len() {
                spec_parse_cons(
                    i,
                    Instruction::LDA(gb_u16((0xFF00 + s[i + 1]) as u16)),
                    spec_parse(s, i + 2),
                )
            } else {
                Err(JayBoyError::NotEnoughBytes)
            }
        } else if b == 0xCB {
            if i + 2 <= s.len() {
                Err(JayBoyError::UnknownOpcode(s[i + 1], i as u16))
            } else {
                Err(JayBoyError::NotEnoughBytes)
            }
        } else {
            Err(JayBoyError::UnknownOpcode(b, i as u16))
        }
    }
}

/// The strict decoder.
pub struct InstructionReader;

impl InstructionReader {
    /// Decodes the whole buffer, stopping at the first unknown opcode or
    /// truncated operand.
    pub fn try_parse(bytes: &[u8]) -> (r: Result<Vec<InstructionPosition>, JayBoyError>)
        requires
            bytes@.len() <= 0xFFFF,
        ensures
            (match r {
                Ok(v) => spec_parse(bytes@, 0) == Ok::<Seq<InstructionPosition>, JayBoyError>(v@),
                Err(e) => spec_parse(bytes@, 0) == Err::<Seq<InstructionPosition>, JayBoyError>(e),
            }),
    {
        let mut instruction_positions: Vec<InstructionPosition> = Vec::new();
        let mut index: usize = 0;
        while index < bytes.len()
            invariant
                0 <= index <= bytes@.len() <= 0xFFFF,
                (match spec_parse(bytes@, index as int) {
                    Ok(rest) => spec_parse(bytes@, 0) == Ok::<Seq<InstructionPosition>, JayBoyError>(
                        instruction_positions@ + rest,
                    ),
                    Err(e) => spec_parse(bytes@, 0) == Err::<Seq<InstructionPosition>, JayBoyError>(
                        e,
                    ),
                }),
            decreases bytes@.len() - index,
        {
            let offset = index;
            let byte = *vstd::slice::slice_index_get(bytes, index);
            index = index + 1;
            let instruction = match byte {
                0x00 => Instruction::NOP,
                0x7F => Instruction::LD(Register::A, Register::A),
                0xF3 => Instruction::DI,
                0xC3 => {
                    match read_gb_u16(bytes, &mut index) {
                        Ok(address) => Instruction::JPa16(address),
                        Err(e) => {
                            return Err(e);
                        },
                    }
                },
                0xCD => {
                    match read_gb_u16(bytes, &mut index) {
                        Ok(address) => Instruction::CALLa16(address),
                        Err(e) => {
                            return Err(e);
                        },
                    }
                },
                0xE6 => {
                    match read_gb_u8(bytes, &mut index) {
                        Ok(value) => Instruction::ANDd8(value),
                        Err(e) => {
                            return Err(e);
                        },
                    }
                },
                0xF0 => {
                    match read_gb_u8(bytes, &mut index) {
                        Ok(value) => Instruction::LDA(gb_u16::from_le_bytes(value.0, 0xFF)),
                        Err(e) => {
                            return Err(e);
                        },
                    }
                },
                0xCB => {
                    if index < bytes.len() {
                        let prefixed = *vstd::slice::slice_index_get(bytes, index);
                        return Err(JayBoyError::UnknownOpcode(prefixed, offset as u16));
                    } else {
                        return Err(JayBoyError::NotEnoughBytes);
                    }
                },
                _ => {
                    return Err(JayBoyError::UnknownOpcode(byte, offset as u16));
                },
            };
            let position = InstructionPosition(gb_u16(offset as u16), instruction);
            let ghost prev_acc = instruction_positions@;
            instruction_positions.push(position);
            proof {
                let s = bytes@;
                assert(spec_parse(s, offset as int) == spec_parse_cons(
                    offset as int,
                    instruction,
                    spec_parse(s, index as int),
                ));
                match spec_parse(s, index as int) {
                    Ok(rest) => {
                        assert(instruction_positions@ + rest =~= prev_acc + (seq![position]
                            + rest));
                    },
                    Err(_) => {},
                }
            }
        }
        Ok(instruction_positions)
    }
}

} // verus!
