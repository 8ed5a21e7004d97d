//! The permissive batch decoder: best-effort disassembly that substitutes
//! a sentinel for unrecognized bytes instead of stopping.

use vstd::prelude::*;

use crate::instructions::instruction::spec_le16;
use crate::instructions::instruction::Instruction;
use crate::instructions::instruction::Register;
use crate::native::gb_u16;
use crate::native::gb_u8;

verus! {

/// What a permissive decode of `s` from offset `i` yields.  A byte that does
/// not begin a complete tabulated instruction — an unknown opcode, a `0xCB`
/// prefix (whose table has no entries tabulated), or a tabulated opcode with
/// its operand cut off — becomes the one-byte `Unknown` sentinel, and
/// decoding resumes at the next byte.
pub open spec fn spec_parse_permissive(s: Seq<u8>, i: int) -> Seq<Instruction>
    decreases s.len() - i,
{
    if i < 0 || i >= s.len() {
        Seq::empty()
    } else {
        let b = s[i];
        if b == 0x00 {
            seq![Instruction::NOP] + spec_parse_permissive(s, i + 1)
        } else if b == 0x7F {
            seq![Instruction::LD(Register::A, Register::A)] + spec_parse_permissive(s, i + 1)
        } else if b == 0xF3 {
            seq![Instruction::DI] + spec_parse_permissive(s, i + 1)
        } else if b == 0xC3 && i + 3 <= s.len() {
            seq![Instruction::JPa16(spec_le16(s, i + 1))] + spec_parse_permissive(s, i + 3)
        } else if b == 0xCD && i + 3 <= s.len() {
            seq![Instruction::CALLa16(spec_le16(s, i + 1))] + spec_parse_permissive(s, i + 3)
        } else if b == 0xE6 && i + 2 <= s.len() {
            seq![Instruction::ANDd8(gb_u8(s[i + 1]))] + spec_parse_permissive(s, i + 2)
        } else if b == 0xF0 && i + 2 <= s.len() {
            seq![Instruction::LDA(gb_u16((0xFF00 + s[i + 1]) as u16))] + spec_parse_permissive(
                s,
                i + 2,
            )
        } else {
            seq![Instruction::Unknown(gb_u8(b))] + spec_parse_permissive(s, i + 1)
        }
    }
}

/// The permissive batch decoder.
pub struct InstructionReader {}

impl InstructionReader {
    /// Decodes the whole buffer, substituting the `Unknown` sentinel for
    /// every byte that does not begin a complete tabulated instruction.
    pub fn as_instructions(bytes: &[u8]) -> (r: Vec<Instruction>)
        ensures
            r@ == spec_parse_permissive(bytes@, 0),
    {
        let mut instructions: Vec<Instruction> = Vec::new();
        let mut index: usize = 0;
        while index < bytes.len()
            invariant
                0 <= index <= bytes@.len(),
                spec_parse_permissive(bytes@, 0) == instructions@ + spec_parse_permissive(
                    bytes@,
                    index as int,
                ),
            decreases bytes@.len() - index,
        {
            let ghost prev = index;
            let byte = *vstd::slice::slice_index_get(bytes, index);
            let len = bytes.len();
            if byte == 0x00 {
                instructions.push(Instruction::NOP);
                index = index + 1;
            } else if byte == 0x7F {
                instructions.push(Instruction::LD(Register::A, Register::A));
                index = index + 1;
            } else if byte == 0xF3 {
                instructions.push(Instruction::DI);
                index = index + 1;
            } else if byte == 0xC3 && len - index >= 3 {
                let low = *vstd::slice::slice_index_get(bytes, index + 1);
                let high = *vstd::slice::slice_index_get(bytes, index + 2);
                instructions.push(Instruction::JPa16(gb_u16::from_le_bytes(low, high)));
                index = index + 3;
            } else if byte == 0xCD && len - index >= 3 {
                let low = *vstd::slice::slice_index_get(bytes, index + 1);
                let high = *vstd::slice::slice_index_get(bytes, index + 2);
                instructions.push(Instruction::CALLa16(gb_u16::from_le_bytes(low, high)));
                index = index + 3;
            } else if byte == 0xE6 && len - index >= 2 {
                let operand = *vstd::slice::slice_index_get(bytes, index + 1);
                instructions.push(Instruction::ANDd8(gb_u8(operand)));
                index = index + 2;
            } else if byte == 0xF0 && len - index >= 2 {
                let operand = *vstd::slice::slice_index_get(bytes, index + 1);
                instructions.push(Instruction::LDA(gb_u16::from_le_bytes(operand, 0xFF)));
                index = index + 2;
            } else {
                instructions.push(Instruction::Unknown(gb_u8(byte)));
                index = index + 1;
            }
            proof {
                assert(instructions@ + spec_parse_permissive(bytes@, index as int)
                    =~= instructions@.drop_last() + spec_parse_permissive(bytes@, prev as int));
            }
        }
        instructions
    }
}

} // verus!
