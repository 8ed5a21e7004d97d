use jayboy::errors::JayBoyError;
use jayboy::instructions::instruction::read_gb_u16;
use jayboy::instructions::instruction::read_gb_u8;
use jayboy::instructions::instruction::Instruction;
use jayboy::instructions::instruction::InstructionPosition;
use jayboy::instructions::instruction::InstructionReader;
use jayboy::instructions::instruction::Register;
use jayboy::instructions::instruction_reader::InstructionReader as BatchReader;
use jayboy::native::gb_u16;
use jayboy::native::gb_u8;
use jayboy::roms::cgbflag::CGBFlag;

#[test]
fn test_parse_nop() {
    let decoded = InstructionReader::try_parse(&[0x00]).unwrap();
    assert_eq!(decoded.len(), 1);
    assert_eq!(
        decoded[0],
        InstructionPosition(gb_u16(0x0000), Instruction::NOP)
    );
    assert_eq!(decoded[0].1.byte_size(), 1);
}

#[test]
fn test_parse_jp_a16_little_endian() {
    let decoded = InstructionReader::try_parse(&[0xC3, 0x50, 0x01]).unwrap();
    assert_eq!(decoded.len(), 1);
    assert_eq!(
        decoded[0],
        InstructionPosition(gb_u16(0x0000), Instruction::JPa16(gb_u16(0x0150)))
    );
    assert_eq!(decoded[0].1.byte_size(), 3);
}

#[test]
fn test_parse_lone_prefix_is_truncation_error() {
    assert_eq!(
        InstructionReader::try_parse(&[0xCB]),
        Err(JayBoyError::NotEnoughBytes)
    );
}

#[test]
fn test_parse_prefixed_opcode_unknown() {
    // the prefixed table has no entries tabulated, so a complete 0xCB pair
    // reports the prefixed byte at the instruction's offset
    assert_eq!(
        InstructionReader::try_parse(&[0x00, 0xCB, 0x37]),
        Err(JayBoyError::UnknownOpcode(0x37, 1))
    );
}

#[test]
fn test_parse_unknown_opcode_reports_byte_and_offset() {
    assert_eq!(
        InstructionReader::try_parse(&[0x00, 0x00, 0x42]),
        Err(JayBoyError::UnknownOpcode(0x42, 2))
    );
}

#[test]
fn test_parse_truncated_operand() {
    assert_eq!(
        InstructionReader::try_parse(&[0xC3, 0x50]),
        Err(JayBoyError::NotEnoughBytes)
    );
    assert_eq!(
        InstructionReader::try_parse(&[0xE6]),
        Err(JayBoyError::NotEnoughBytes)
    );
}

#[test]
fn test_parse_sequence_with_positions() {
    let decoded = InstructionReader::try_parse(&[0x00, 0xF3, 0xCD, 0x00, 0x80, 0xF0, 0x44, 0xE6,
        0x0F, 0x7F])
    .unwrap();
    assert_eq!(
        decoded,
        vec![
            InstructionPosition(gb_u16(0), Instruction::NOP),
            InstructionPosition(gb_u16(1), Instruction::DI),
            InstructionPosition(gb_u16(2), Instruction::CALLa16(gb_u16(0x8000))),
            InstructionPosition(gb_u16(5), Instruction::LDA(gb_u16(0xFF44))),
            InstructionPosition(gb_u16(7), Instruction::ANDd8(gb_u8(0x0F))),
            InstructionPosition(gb_u16(9), Instruction::LD(Register::A, Register::A)),
        ]
    );
}

#[test]
fn test_batch_decode_substitutes_sentinel() {
    let decoded = BatchReader::as_instructions(&[0x00, 0x42, 0xC3, 0x50, 0x01]);
    assert_eq!(
        decoded,
        vec![
            Instruction::NOP,
            Instruction::Unknown(gb_u8(0x42)),
            Instruction::JPa16(gb_u16(0x0150)),
        ]
    );
    // the sentinel is one byte long and takes no cycles
    assert_eq!(decoded[1].byte_size(), 1);
    assert_eq!(decoded[1].cycle_count(), 0);
    assert_eq!(decoded[0].cycle_count(), 1);
}

#[test]
fn test_batch_decode_truncated_operand_becomes_sentinel() {
    // a truncated JP and a lone prefix both fall back to one-byte sentinels
    assert_eq!(
        BatchReader::as_instructions(&[0xCB]),
        vec![Instruction::Unknown(gb_u8(0xCB))]
    );
    assert_eq!(
        BatchReader::as_instructions(&[0xC3, 0x50]),
        vec![
            Instruction::Unknown(gb_u8(0xC3)),
            Instruction::Unknown(gb_u8(0x50)),
        ]
    );
}

#[test]
fn test_instruction_describe() {
    assert_eq!(Instruction::NOP.describe(), "NOP");
    assert_eq!(Instruction::JPa16(gb_u16(0x0150)).describe(), "JP a16: 0x0150");
    assert_eq!(Instruction::LD(Register::A, Register::A).describe(), "LD: A A");
    assert_eq!(Instruction::DI.describe(), "DI");
    assert_eq!(Instruction::ANDd8(gb_u8(0x0F)).describe(), "???");
    assert_eq!(
        InstructionPosition(gb_u16(0x0100), Instruction::NOP).describe(),
        "0x0100: NOP"
    );
}

#[test]
fn test_cgb_flag_describe() {
    assert_eq!(CGBFlag::Compat.describe(), "CGB-Compat");
    assert_eq!(CGBFlag::GCBOnly.describe(), "CGB-Compat");
    assert_eq!(CGBFlag::PGBMode.describe(), "!PGB Mode!");
}

#[test]
fn test_is_prefix() {
    assert!(Instruction::is_prefix(0xCB));
    assert!(!Instruction::is_prefix(0x00));
}

#[test]
fn test_cpu_flags_of_tabulated_opcodes() {
    assert_eq!(Instruction::NOP.cpu_flags().bits(), 0);
    assert_eq!(Instruction::DI.cpu_flags().bits(), 0);
}

#[test]
fn test_read_operand_helpers() {
    let bytes = [0x50u8, 0x01];
    let mut index = 0usize;
    assert_eq!(read_gb_u8(&bytes, &mut index), Ok(gb_u8(0x50)));
    assert_eq!(index, 1);
    index = 0;
    assert_eq!(read_gb_u16(&bytes, &mut index), Ok(gb_u16(0x0150)));
    assert_eq!(index, 2);
    index = 1;
    assert_eq!(
        read_gb_u16(&bytes, &mut index),
        Err(JayBoyError::NotEnoughBytes)
    );
    assert_eq!(index, 1);
    index = 2;
    assert_eq!(
        read_gb_u8(&bytes, &mut index),
        Err(JayBoyError::NotEnoughBytes)
    );
}
