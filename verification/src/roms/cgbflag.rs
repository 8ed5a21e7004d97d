//! The Color Game Boy compatibility flag: the header byte at `0x0143`,
//! where it is not simply part of the title.

use vstd::prelude::*;

verus! {

/// The Color Game Boy compatibility mode a cartridge declares.
#[derive(Debug, Eq, PartialEq, Structural, Clone, Copy)]
pub enum CGBFlag {
    /// Aware of the Game Boy Color.
    Compat,
    /// Declared to work only on the Game Boy Color; the hardware ignores
    /// bit 6, so this behaves as `Compat`.
    GCBOnly,
    /// A special non-CGB mode; little is documented about it.
    PGBMode,
}

/// The flag a header byte declares: `0x80` and `0xC0` the CGB modes,
/// `0x88` and `0x84` the special non-CGB mode, anything else no flag at
/// all (the byte is then part of the title).
pub open spec fn spec_cgb_flag(byte: u8) -> Option<CGBFlag> {
    if byte == 0x80 {
        Some(CGBFlag::Compat)
    } else if byte == 0xC0 {
        Some(CGBFlag::GCBOnly)
    } else if byte == 0x88 || byte == 0x84 {
        Some(CGBFlag::PGBMode)
    } else {
        None
    }
}

impl CGBFlag {
    /// Whether the header byte declares any specific flag.
    pub fn not_none(byte: u8) -> (r: bool)
        ensures
            r == (spec_cgb_flag(byte) is Some),
    {
        byte == 0x80 || byte == 0xC0 || byte == 0x88 || byte == 0x84
    }

    /// The flag as text: the two CGB modes behave alike and read alike.
    pub fn describe(&self) -> (r: &'static str)
        ensures
            (*self == CGBFlag::Compat || *self == CGBFlag::GCBOnly) ==> r@ == "CGB-Compat"@,
            *self == CGBFlag::PGBMode ==> r@ == "!PGB Mode!"@,
    {
        match self {
            CGBFlag::Compat => "CGB-Compat",
            CGBFlag::GCBOnly => "CGB-Compat",
            CGBFlag::PGBMode => "!PGB Mode!",
        }
    }

    /// Decodes the header byte, `None` where it declares no flag.
    pub fn try_from(value: u8) -> (r: Option<CGBFlag>)
        ensures
            r == spec_cgb_flag(value),
    {
        if value == 0x80 {
            Some(CGBFlag::Compat)
        } else if value == 0xC0 {
            Some(CGBFlag::GCBOnly)
        } else if value == 0x88 || value == 0x84 {
            Some(CGBFlag::PGBMode)
        } else {
            None
        }
    }
}

} // verus!
