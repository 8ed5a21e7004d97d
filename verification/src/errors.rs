//! The error values that decoding and validation can surface.

use vstd::prelude::*;

verus! {

/// Everything that can go wrong while reading a buffer, decoding a header
/// field, validating a cartridge, or decoding an instruction stream.
///
/// Buffer access keeps start-of-range and end-of-range failures distinct so
/// that a truncated file can be diagnosed.  Closed-table lookups (cartridge
/// type, ROM size) carry the offending byte.  `UnknownOpcode` carries the
/// offending byte together with the offset of the instruction it belongs to.
#[derive(Debug, Clone, Copy, PartialEq, Eq, Structural)]
pub enum JayBoyError {
    /// A single-byte read outside the buffer.
    IndexOutOfRange,
    /// A range read or write whose start lies at or past the buffer's end.
    StartOutOfRange,
    /// A range read or write whose end lies past the buffer's end, or
    /// before its start.
    EndOutOfRange,
    /// A range write whose replacement bytes do not match the range's length.
    LengthMismatch,
    /// A cartridge buffer too small to hold the fixed header region.
    BufferTooSmall,
    /// A cartridge-type byte with no entry in the closed cartridge-type table.
    UnknownCartridgeType(u8),
    /// A ROM-size byte with no entry in the closed ROM-size table.
    UnknownRomSize(u8),
    /// A RAM-size byte with no entry in the open RAM-size table; the size
    /// degrades to zero and this is reported as a warning.
    UnknownRamSize(u8),
    /// A destination byte that names neither region; the field degrades to
    /// Overseas and this is reported as a warning.
    UnknownDestination(u8),
    /// An old-licensee byte with no entry in the legacy publisher table.
    UnknownOldLicensee(u8),
    /// A new-licensee two-character code with no entry in the new-style table.
    UnknownNewLicensee(u8, u8),
    /// The old-licensee byte `0x33`, which demands the new-licensee table.
    NewLicenseeRequired,
    /// Bytes that are not ASCII where ASCII is required.
    InvalidText,
    /// An instruction stream that ends in the middle of an instruction.
    NotEnoughBytes,
    /// An instruction byte with no entry in the opcode table, and the offset
    /// of the instruction it starts (or, after the `0xCB` prefix, belongs to).
    UnknownOpcode(u8, u16),
    /// The logo region does not match the fixed reference bytes.
    InvalidLogo,
    /// The cartridge type's RAM flag and the decoded RAM size disagree.
    RamSizeMismatch,
    /// The recomputed header checksum does not match the stored byte.
    HeaderChecksumMismatch,
    /// The recomputed global checksum does not match the stored word.
    GlobalChecksumMismatch,
}

impl JayBoyError {
    /// A short fixed description of the error kind, for reports.
    pub fn message(&self) -> (r: &'static str)
        ensures
            r@ == self.spec_message(),
    {
        match self {
            JayBoyError::IndexOutOfRange => "Invalid Index",
            JayBoyError::StartOutOfRange => "Invalid Range Start",
            JayBoyError::EndOutOfRange => "Invalid Range End",
            JayBoyError::LengthMismatch => "Invalid Range Length",
            JayBoyError::BufferTooSmall => "Buffer too small for header",
            JayBoyError::UnknownCartridgeType(_) => "Unknown cartridge type",
            JayBoyError::UnknownRomSize(_) => "Unknown ROM size byte",
            JayBoyError::UnknownRamSize(_) => "Unknown RAM size byte",
            JayBoyError::UnknownDestination(_) => "Unknown Destination code byte",
            JayBoyError::UnknownOldLicensee(_) => "Unknown old licensee",
            JayBoyError::UnknownNewLicensee(_, _) => "Invalid New Licensee chars",
            JayBoyError::NewLicenseeRequired => "This is a New Licensee",
            JayBoyError::InvalidText => "Invalid ASCII bytes",
            JayBoyError::NotEnoughBytes => "Not enough bytes",
            JayBoyError::UnknownOpcode(_, _) => "Unknown Instruction Byte",
            JayBoyError::InvalidLogo => "Invalid Nintendo Logo",
            JayBoyError::RamSizeMismatch => "Cartridge Type and RAM size disagree",
            JayBoyError::HeaderChecksumMismatch => "Invalid Header Checksum",
            JayBoyError::GlobalChecksumMismatch => "Invalid Global Checksum",
        }
    }

    /// What `message` returns for each error kind.
    pub open spec fn spec_message(self) -> Seq<char> {
        match self {
            JayBoyError::IndexOutOfRange => "Invalid Index"@,
            JayBoyError::StartOutOfRange => "Invalid Range Start"@,
            JayBoyError::EndOutOfRange => "Invalid Range End"@,
            JayBoyError::LengthMismatch => "Invalid Range Length"@,
            JayBoyError::BufferTooSmall => "Buffer too small for header"@,
            JayBoyError::UnknownCartridgeType(_) => "Unknown cartridge type"@,
            JayBoyError::UnknownRomSize(_) => "Unknown ROM size byte"@,
            JayBoyError::UnknownRamSize(_) => "Unknown RAM size byte"@,
            JayBoyError::UnknownDestination(_) => "Unknown Destination code byte"@,
            JayBoyError::UnknownOldLicensee(_) => "Unknown old licensee"@,
            JayBoyError::UnknownNewLicensee(_, _) => "Invalid New Licensee chars"@,
            JayBoyError::NewLicenseeRequired => "This is a New Licensee"@,
            JayBoyError::InvalidText => "Invalid ASCII bytes"@,
            JayBoyError::NotEnoughBytes => "Not enough bytes"@,
            JayBoyError::UnknownOpcode(_, _) => "Unknown Instruction Byte"@,
            JayBoyError::InvalidLogo => "Invalid Nintendo Logo"@,
            JayBoyError::RamSizeMismatch => "Cartridge Type and RAM size disagree"@,
            JayBoyError::HeaderChecksumMismatch => "Invalid Header Checksum"@,
            JayBoyError::GlobalChecksumMismatch => "Invalid Global Checksum"@,
        }
    }
}

} // verus!
