//! The publisher (licensee) tables: the legacy single-byte table and the
//! new-style two-character table, both open tables whose misses degrade.

use vstd::prelude::*;

use crate::errors::JayBoyError;

verus! {

/// A resolved publisher: the original code(s) and a readable name.
///
/// A legacy-table entry carries its single byte in `old_code` and zeroes in
/// `new_code`; a new-style entry carries `0x33` in `old_code` (the byte that
/// selects the new table) and its two characters in `new_code`.
#[derive(Debug, Eq, PartialEq, Clone, Copy)]
pub struct Publisher {
    pub old_code: u8,
    pub new_code: [u8; 2],
    pub name: &'static str,
}

/// The legacy table: the name each old-licensee byte resolves to, `None`
/// for a byte with no entry.  `0x33` has no entry — it demands the
/// new-style table.
pub open spec fn spec_old_publisher_name(code: u8) -> Option<Seq<char>> {
    match code {
        0x00 => Some("None"@),
        0x01 => Some("Nintendo"@),
        0x08 => Some("Capcom"@),
        0x09 => Some("Hot-B"@),
        0x0A => Some("Jaleco"@),
        0x0B => Some("Coconuts Japan"@),
        0x0C => Some("Elite Systems"@),
        0x13 => Some("EA (Electronic Arts)"@),
        0x18 => Some("Hudsonsoft"@),
        0x19 => Some("ITC Entertainment"@),
        0x1A => Some("Yanoman"@),
        0x1D => Some("Japan Clary"@),
        0x1F => Some("Virgin Interactive"@),
        0x24 => Some("PCM Complete"@),
        0x25 => Some("San-X"@),
        0x28 => Some("Kotobuki Systems"@),
        0x29 => Some("Seta"@),
        0x30 => Some("Infogrames"@),
        0x31 => Some("Nintendo"@),
        0x32 => Some("Bandai"@),
        0x34 => Some("Konami"@),
        0x35 => Some("HectorSoft"@),
        0x38 => Some("Capcom"@),
        0x39 => Some("Banpresto"@),
        0x3C => Some(".Entertainment i"@),
        0x3E => Some("Gremlin"@),
        0x41 => Some("Ubisoft"@),
        0x42 => Some("Atlus"@),
        0x44 => Some("Malibu"@),
        0x46 => Some("Angel"@),
        0x47 => Some("Spectrum Holoby"@),
        0x49 => Some("Irem"@),
        0x4A => Some("Virgin Interactive"@),
        0x4D => Some("Malibu"@),
        0x4F => Some("U.S. Gold"@),
        0x50 => Some("Absolute"@),
        0x51 => Some("Acclaim"@),
        0x52 => Some("Activision"@),
        0x53 => Some("American Sammy"@),
        0x54 => Some("GameTek"@),
        0x55 => Some("Park Place"@),
        0x56 => Some("LJN"@),
        0x57 => Some("Matchbox"@),
        0x59 => Some("Milton Bradley"@),
        0x5A => Some("Mindscape"@),
        0x5B => Some("Romstar"@),
        0x5C => Some("Naxat Soft"@),
        0x5D => Some("Tradewest"@),
        0x60 => Some("Titus"@),
        0x61 => Some("Virgin Interactive"@),
        0x67 => Some("Ocean Interactive"@),
        0x69 => Some("EA (Electronic Arts)"@),
        0x6E => Some("Elite Systems"@),
        0x6F => Some("Electro Brain"@),
        0x70 => Some("Infogrames"@),
        0x71 => Some("Interplay"@),
        0x72 => Some("Broderbund"@),
        0x73 => Some("Sculptered Soft"@),
        0x75 => Some("The Sales Curve"@),
        0x78 => Some("t.hq"@),
        0x79 => Some("Accolade"@),
        0x7A => Some("Triffix Entertainment"@),
        0x7C => Some("Microprose"@),
        0x7F => Some("Kemco"@),
        0x80 => Some("Misawa Entertainment"@),
        0x83 => Some("Lozc"@),
        0x86 => Some("Tokuma Shoten Intermedia"@),
        0x8B => Some("Bullet-Proof Software"@),
        0x8C => Some("Vic Tokai"@),
        0x8E => Some("Ape"@),
        0x8F => Some("I’Max"@),
        0x91 => Some("Chunsoft Co."@),
        0x92 => Some("Video System"@),
        0x93 => Some("Tsubaraya Productions Co."@),
        0x95 => Some("Varie Corporation"@),
        0x96 => Some("Yonezawa/S’Pal"@),
        0x97 => Some("Kaneko"@),
        0x99 => Some("Arc"@),
        0x9A => Some("Nihon Bussan"@),
        0x9B => Some("Tecmo"@),
        0x9C => Some("Imagineer"@),
        0x9D => Some("Banpresto"@),
        0x9F => Some("Nova"@),
        0xA1 => Some("Hori Electric"@),
        0xA2 => Some("Bandai"@),
        0xA4 => Some("Konami"@),
        0xA6 => Some("Kawada"@),
        0xA7 => Some("Takara"@),
        0xA9 => Some("Technos Japan"@),
        0xAA => Some("Broderbund"@),
        0xAC => Some("Toei Animation"@),
        0xAD => Some("Toho"@),
        0xAF => Some("Namco"@),
        0xB0 => Some("acclaim"@),
        0xB1 => Some("ASCII or Nexsoft"@),
        0xB2 => Some("Bandai"@),
        0xB4 => Some("Square Enix"@),
        0xB6 => Some("HAL Laboratory"@),
        0xB7 => Some("SNK"@),
        0xB9 => Some("Pony Canyon"@),
        0xBA => Some("Culture Brain"@),
        0xBB => Some("Sunsoft"@),
        0xBD => Some("Sony Imagesoft"@),
        0xBF => Some("Sammy"@),
        0xC0 => Some("Taito"@),
        0xC2 => Some("Kemco"@),
        0xC3 => Some("Squaresoft"@),
        0xC4 => Some("Tokuma Shoten Intermedia"@),
        0xC5 => Some("Data East"@),
        0xC6 => Some("Tonkinhouse"@),
        0xC8 => Some("Koei"@),
        0xC9 => Some("UFL"@),
        0xCA => Some("Ultra"@),
        0xCB => Some("Vap"@),
        0xCC => Some("Use Corporation"@),
        0xCD => Some("Meldac"@),
        0xCE => Some(".Pony Canyon or"@),
        0xCF => Some("Angel"@),
        0xD0 => Some("Taito"@),
        0xD1 => Some("Sofel"@),
        0xD2 => Some("Quest"@),
        0xD3 => Some("Sigma Enterprises"@),
        0xD4 => Some("ASK Kodansha Co."@),
        0xD6 => Some("Naxat Soft"@),
        0xD7 => Some("Copya System"@),
        0xD9 => Some("Banpresto"@),
        0xDA => Some("Tomy"@),
        0xDB => Some("LJN"@),
        0xDD => Some("NCS"@),
        0xDE => Some("Human"@),
        0xDF => Some("Altron"@),
        0xE0 => Some("Jaleco"@),
        0xE1 => Some("Towa Chiki"@),
        0xE2 => Some("Yutaka"@),
        0xE3 => Some("Varie"@),
        0xE5 => Some("Epcoh"@),
        0xE7 => Some("Athena"@),
        0xE8 => Some("Asmik ACE Entertainment"@),
        0xE9 => Some("Natsume"@),
        0xEA => Some("King Records"@),
        0xEB => Some("Atlus"@),
        0xEC => Some("Epic/Sony Records"@),
        0xEE => Some("IGS"@),
        0xF0 => Some("A Wave"@),
        0xF3 => Some("Extreme Entertainment"@),
        0xFF => Some("LJN"@),
        _ => None,
    }
}

/// The new-style table: the name each two-character code resolves to,
/// `None` for a pair with no entry.  The pair `"00"` names no publisher.
pub open spec fn spec_new_publisher_name(left: u8, right: u8) -> Option<Seq<char>> {
    match (left, right) {
        (0x30, 0x30) => Some("None"@),  // "00"
        (0x30, 0x31) => Some("Nintendo R&D1"@),  // "01"
        (0x30, 0x38) => Some("Capcom"@),  // "08"
        (0x31, 0x33) => Some("Electronic Arts"@),  // "13"
        (0x31, 0x38) => Some("Hudson Soft"@),  // "18"
        (0x31, 0x39) => Some("b-ai"@),  // "19"
        (0x32, 0x30) => Some("kss"@),  // "20"
        (0x32, 0x32) => Some("pow"@),  // "22"
        (0x32, 0x34) => Some("PCM Complete"@),  // "24"
        (0x32, 0x35) => Some("san-x"@),  // "25"
        (0x32, 0x38) => Some("Kemco Japan"@),  // "28"
        (0x32, 0x39) => Some("seta"@),  // "29"
        (0x33, 0x30) => Some("Viacom"@),  // "30"
        (0x33, 0x31) => Some("Nintendo"@),  // "31"
        (0x33, 0x32) => Some("Bandai"@),  // "32"
        (0x33, 0x33) => Some("Ocean/Acclaim"@),  // "33"
        (0x33, 0x34) => Some("Konami"@),  // "34"
        (0x33, 0x35) => Some("Hector"@),  // "35"
        (0x33, 0x37) => Some("Taito"@),  // "37"
        (0x33, 0x38) => Some("Hudson"@),  // "38"
        (0x33, 0x39) => Some("Banpresto"@),  // "39"
        (0x34, 0x31) => Some("Ubi Soft"@),  // "41"
        (0x34, 0x32) => Some("Atlus"@),  // "42"
        (0x34, 0x34) => Some("Malibu"@),  // "44"
        (0x34, 0x36) => Some("angel"@),  // "46"
        (0x34, 0x37) => Some("Bullet-Proof"@),  // "47"
        (0x34, 0x39) => Some("irem"@),  // "49"
        (0x35, 0x30) => Some("Absolute"@),  // "50"
        (0x35, 0x31) => Some("Acclaim"@),  // "51"
        (0x35, 0x32) => Some("Activision"@),  // "52"
        (0x35, 0x33) => Some("American sammy"@),  // "53"
        (0x35, 0x34) => Some("Konami"@),  // "54"
        (0x35, 0x35) => Some("Hi tech entertainment"@),  // "55"
        (0x35, 0x36) => Some("LJN"@),  // "56"
        (0x35, 0x37) => Some("Matchbox"@),  // "57"
        (0x35, 0x38) => Some("Mattel"@),  // "58"
        (0x35, 0x39) => Some("Milton Bradley"@),  // "59"
        (0x36, 0x30) => Some("Titus"@),  // "60"
        (0x36, 0x31) => Some("Virgin"@),  // "61"
        (0x36, 0x34) => Some("LucasArts"@),  // "64"
        (0x36, 0x37) => Some("Ocean"@),  // "67"
        (0x36, 0x39) => Some("Electronic Arts"@),  // "69"
        (0x37, 0x30) => Some("Infogrames"@),  // "70"
        (0x37, 0x31) => Some("Interplay"@),  // "71"
        (0x37, 0x32) => Some("Broderbund"@),  // "72"
        (0x37, 0x33) => Some("sculptured"@),  // "73"
        (0x37, 0x35) => Some("sci"@),  // "75"
        (0x37, 0x38) => Some("THQ"@),  // "78"
        (0x37, 0x39) => Some("Accolade"@),  // "79"
        (0x38, 0x30) => Some("misawa"@),  // "80"
        (0x38, 0x33) => Some("lozc"@),  // "83"
        (0x38, 0x36) => Some("Tokuma Shoten Intermedia"@),  // "86"
        (0x38, 0x37) => Some("Tsukuda Original"@),  // "87"
        (0x39, 0x31) => Some("Chunsoft"@),  // "91"
        (0x39, 0x32) => Some("Video system"@),  // "92"
        (0x39, 0x33) => Some("Ocean/Acclaim"@),  // "93"
        (0x39, 0x35) => Some("Varie"@),  // "95"
        (0x39, 0x36) => Some("Yonezawa/s’pal"@),  // "96"
        (0x39, 0x37) => Some("Kaneko"@),  // "97"
        (0x39, 0x39) => Some("Pack in soft"@),  // "99"
        (0x41, 0x34) => Some("Konami (Yu-Gi-Oh!)"@),  // "A4"
        _ => None,
    }
}

impl Publisher {
    /// The "no publisher" value: code zero, new-style code `"00"`.
    pub fn none() -> (r: Publisher)
        ensures
            r.old_code == 0x00,
            r.new_code@ == seq![0x30u8, 0x30u8],
            r.name@ == "None"@,
    {
        let r = Publisher { old_code: 0x00, new_code: [0x30, 0x30], name: "None" };
        proof {
            assert(r.new_code@ =~= seq![0x30u8, 0x30u8]);
        }
        r
    }

    /// A legacy-table entry: the byte itself, and zeroes for the new code.
    pub fn create_old(old_code: u8, name: &'static str) -> (r: Publisher)
        ensures
            r.old_code == old_code,
            r.new_code@ == seq![0x00u8, 0x00u8],
            r.name == name,
    {
        let r = Publisher { old_code, new_code: [0x00, 0x00], name };
        proof {
            assert(r.new_code@ =~= seq![0x00u8, 0x00u8]);
        }
        r
    }

    /// A new-style entry: the selector byte `0x33`, and the two characters.
    pub fn create_new(new_code_left: u8, new_code_right: u8, name: &'static str) -> (r: Publisher)
        ensures
            r.old_code == 0x33,
            r.new_code@ == seq![new_code_left, new_code_right],
            r.name == name,
    {
        let r = Publisher { old_code: 0x33, new_code: [new_code_left, new_code_right], name };
        proof {
            assert(r.new_code@ =~= seq![new_code_left, new_code_right]);
        }
        r
    }

    /// Resolves an old-licensee byte through the legacy table.  `0x33` is
    /// refused with its own error — the new-style table is authoritative
    /// then; any other byte without an entry is an open-table miss.
    pub fn try_from_old(value: u8) -> (r: Result<Publisher, JayBoyError>)
        ensures
            (match r {
                Ok(p) => {
                    &&& spec_old_publisher_name(value) == Some(p.name@)
                    &&& p.old_code == value
                    &&& (value == 0x00 ==> p.new_code@ == seq![0x30u8, 0x30u8])
                    &&& (value != 0x00 ==> p.new_code@ == seq![0x00u8, 0x00u8])
                },
                Err(e) => {
                    &&& spec_old_publisher_name(value) is None
                    &&& (if value == 0x33 {
                        e == JayBoyError::NewLicenseeRequired
                    } else {
                        e == JayBoyError::UnknownOldLicensee(value)
                    })
                },
            }),
    {
        if value == 0x00 {
            return Ok(Publisher::none());
        }
        if value == 0x33 {
            return Err(JayBoyError::NewLicenseeRequired);
        }
        match value {
            0x01 => Ok(Publisher::create_old(value, "Nintendo")),
            0x08 => Ok(Publisher::create_old(value, "Capcom")),
            0x09 => Ok(Publisher::create_old(value, "Hot-B")),
            0x0A => Ok(Publisher::create_old(value, "Jaleco")),
            0x0B => Ok(Publisher::create_old(value, "Coconuts Japan")),
            0x0C => Ok(Publisher::create_old(value, "Elite Systems")),
            0x13 => Ok(Publisher::create_old(value, "EA (Electronic Arts)")),
            0x18 => Ok(Publisher::create_old(value, "Hudsonsoft")),
            0x19 => Ok(Publisher::create_old(value, "ITC Entertainment")),
            0x1A => Ok(Publisher::create_old(value, "Yanoman")),
            0x1D => Ok(Publisher::create_old(value, "Japan Clary")),
            0x1F => Ok(Publisher::create_old(value, "Virgin Interactive")),
            0x24 => Ok(Publisher::create_old(value, "PCM Complete")),
            0x25 => Ok(Publisher::create_old(value, "San-X")),
            0x28 => Ok(Publisher::create_old(value, "Kotobuki Systems")),
            0x29 => Ok(Publisher::create_old(value, "Seta")),
            0x30 => Ok(Publisher::create_old(value, "Infogrames")),
            0x31 => Ok(Publisher::create_old(value, "Nintendo")),
            0x32 => Ok(Publisher::create_old(value, "Bandai")),
            0x34 => Ok(Publisher::create_old(value, "Konami")),
            0x35 => Ok(Publisher::create_old(value, "HectorSoft")),
            0x38 => Ok(Publisher::create_old(value, "Capcom")),
            0x39 => Ok(Publisher::create_old(value, "Banpresto")),
            0x3C => Ok(Publisher::create_old(value, ".Entertainment i")),
            0x3E => Ok(Publisher::create_old(value, "Gremlin")),
            0x41 => Ok(Publisher::create_old(value, "Ubisoft")),
            0x42 => Ok(Publisher::create_old(value, "Atlus")),
            0x44 => Ok(Publisher::create_old(value, "Malibu")),
            0x46 => Ok(Publisher::create_old(value, "Angel")),
            0x47 => Ok(Publisher::create_old(value, "Spectrum Holoby")),
            0x49 => Ok(Publisher::create_old(value, "Irem")),
            0x4A => Ok(Publisher::create_old(value, "Virgin Interactive")),
            0x4D => Ok(Publisher::create_old(value, "Malibu")),
            0x4F => Ok(Publisher::create_old(value, "U.S. Gold")),
            0x50 => Ok(Publisher::create_old(value, "Absolute")),
            0x51 => Ok(Publisher::create_old(value, "Acclaim")),
            0x52 => Ok(Publisher::create_old(value, "Activision")),
            0x53 => Ok(Publisher::create_old(value, "American Sammy")),
            0x54 => Ok(Publisher::create_old(value, "GameTek")),
            0x55 => Ok(Publisher::create_old(value, "Park Place")),
            0x56 => Ok(Publisher::create_old(value, "LJN")),
            0x57 => Ok(Publisher::create_old(value, "Matchbox")),
            0x59 => Ok(Publisher::create_old(value, "Milton Bradley")),
            0x5A => Ok(Publisher::create_old(value, "Mindscape")),
            0x5B => Ok(Publisher::create_old(value, "Romstar")),
            0x5C => Ok(Publisher::create_old(value, "Naxat Soft")),
            0x5D => Ok(Publisher::create_old(value, "Tradewest")),
            0x60 => Ok(Publisher::create_old(value, "Titus")),
            0x61 => Ok(Publisher::create_old(value, "Virgin Interactive")),
            0x67 => Ok(Publisher::create_old(value, "Ocean Interactive")),
            0x69 => Ok(Publisher::create_old(value, "EA (Electronic Arts)")),
            0x6E => Ok(Publisher::create_old(value, "Elite Systems")),
            0x6F => Ok(Publisher::create_old(value, "Electro Brain")),
            0x70 => Ok(Publisher::create_old(value, "Infogrames")),
            0x71 => Ok(Publisher::create_old(value, "Interplay")),
            0x72 => Ok(Publisher::create_old(value, "Broderbund")),
            0x73 => Ok(Publisher::create_old(value, "Sculptered Soft")),
            0x75 => Ok(Publisher::create_old(value, "The Sales Curve")),
            0x78 => Ok(Publisher::create_old(value, "t.hq")),
            0x79 => Ok(Publisher::create_old(value, "Accolade")),
            0x7A => Ok(Publisher::create_old(value, "Triffix Entertainment")),
            0x7C => Ok(Publisher::create_old(value, "Microprose")),
            0x7F => Ok(Publisher::create_old(value, "Kemco")),
            0x80 => Ok(Publisher::create_old(value, "Misawa Entertainment")),
            0x83 => Ok(Publisher::create_old(value, "Lozc")),
            0x86 => Ok(Publisher::create_old(value, "Tokuma Shoten Intermedia")),
            0x8B => Ok(Publisher::create_old(value, "Bullet-Proof Software")),
            0x8C => Ok(Publisher::create_old(value, "Vic Tokai")),
            0x8E => Ok(Publisher::create_old(value, "Ape")),
            0x8F => Ok(Publisher::create_old(value, "I’Max")),
            0x91 => Ok(Publisher::create_old(value, "Chunsoft Co.")),
            0x92 => Ok(Publisher::create_old(value, "Video System")),
            0x93 => Ok(Publisher::create_old(value, "Tsubaraya Productions Co.")),
            0x95 => Ok(Publisher::create_old(value, "Varie Corporation")),
            0x96 => Ok(Publisher::create_old(value, "Yonezawa/S’Pal")),
            0x97 => Ok(Publisher::create_old(value, "Kaneko")),
            0x99 => Ok(Publisher::create_old(value, "Arc")),
            0x9A => Ok(Publisher::create_old(value, "Nihon Bussan")),
            0x9B => Ok(Publisher::create_old(value, "Tecmo")),
            0x9C => Ok(Publisher::create_old(value, "Imagineer")),
            0x9D => Ok(Publisher::create_old(value, "Banpresto")),
            0x9F => Ok(Publisher::create_old(value, "Nova")),
            0xA1 => Ok(Publisher::create_old(value, "Hori Electric")),
            0xA2 => Ok(Publisher::create_old(value, "Bandai")),
            0xA4 => Ok(Publisher::create_old(value, "Konami")),
            0xA6 => Ok(Publisher::create_old(value, "Kawada")),
            0xA7 => Ok(Publisher::create_old(value, "Takara")),
            0xA9 => Ok(Publisher::create_old(value, "Technos Japan")),
            0xAA => Ok(Publisher::create_old(value, "Broderbund")),
            0xAC => Ok(Publisher::create_old(value, "Toei Animation")),
            0xAD => Ok(Publisher::create_old(value, "Toho")),
            0xAF => Ok(Publisher::create_old(value, "Namco")),
            0xB0 => Ok(Publisher::create_old(value, "acclaim")),
            0xB1 => Ok(Publisher::create_old(value, "ASCII or Nexsoft")),
            0xB2 => Ok(Publisher::create_old(value, "Bandai")),
            0xB4 => Ok(Publisher::create_old(value, "Square Enix")),
            0xB6 => Ok(Publisher::create_old(value, "HAL Laboratory")),
            0xB7 => Ok(Publisher::create_old(value, "SNK")),
            0xB9 => Ok(Publisher::create_old(value, "Pony Canyon")),
            0xBA => Ok(Publisher::create_old(value, "Culture Brain")),
            0xBB => Ok(Publisher::create_old(value, "Sunsoft")),
            0xBD => Ok(Publisher::create_old(value, "Sony Imagesoft")),
            0xBF => Ok(Publisher::create_old(value, "Sammy")),
            0xC0 => Ok(Publisher::create_old(value, "Taito")),
            0xC2 => Ok(Publisher::create_old(value, "Kemco")),
            0xC3 => Ok(Publisher::create_old(value, "Squaresoft")),
            0xC4 => Ok(Publisher::create_old(value, "Tokuma Shoten Intermedia")),
            0xC5 => Ok(Publisher::create_old(value, "Data East")),
            0xC6 => Ok(Publisher::create_old(value, "Tonkinhouse")),
            0xC8 => Ok(Publisher::create_old(value, "Koei")),
            0xC9 => Ok(Publisher::create_old(value, "UFL")),
            0xCA => Ok(Publisher::create_old(value, "Ultra")),
            0xCB => Ok(Publisher::create_old(value, "Vap")),
            0xCC => Ok(Publisher::create_old(value, "Use Corporation")),
            0xCD => Ok(Publisher::create_old(value, "Meldac")),
            0xCE => Ok(Publisher::create_old(value, ".Pony Canyon or")),
            0xCF => Ok(Publisher::create_old(value, "Angel")),
            0xD0 => Ok(Publisher::create_old(value, "Taito")),
            0xD1 => Ok(Publisher::create_old(value, "Sofel")),
            0xD2 => Ok(Publisher::create_old(value, "Quest")),
            0xD3 => Ok(Publisher::create_old(value, "Sigma Enterprises")),
            0xD4 => Ok(Publisher::create_old(value, "ASK Kodansha Co.")),
            0xD6 => Ok(Publisher::create_old(value, "Naxat Soft")),
            0xD7 => Ok(Publisher::create_old(value, "Copya System")),
            0xD9 => Ok(Publisher::create_old(value, "Banpresto")),
            0xDA => Ok(Publisher::create_old(value, "Tomy")),
            0xDB => Ok(Publisher::create_old(value, "LJN")),
            0xDD => Ok(Publisher::create_old(value, "NCS")),
            0xDE => Ok(Publisher::create_old(value, "Human")),
            0xDF => Ok(Publisher::create_old(value, "Altron")),
            0xE0 => Ok(Publisher::create_old(value, "Jaleco")),
            0xE1 => Ok(Publisher::create_old(value, "Towa Chiki")),
            0xE2 => Ok(Publisher::create_old(value, "Yutaka")),
            0xE3 => Ok(Publisher::create_old(value, "Varie")),
            0xE5 => Ok(Publisher::create_old(value, "Epcoh")),
            0xE7 => Ok(Publisher::create_old(value, "Athena")),
            0xE8 => Ok(Publisher::create_old(value, "Asmik ACE Entertainment")),
            0xE9 => Ok(Publisher::create_old(value, "Natsume")),
            0xEA => Ok(Publisher::create_old(value, "King Records")),
            0xEB => Ok(Publisher::create_old(value, "Atlus")),
            0xEC => Ok(Publisher::create_old(value, "Epic/Sony Records")),
            0xEE => Ok(Publisher::create_old(value, "IGS")),
            0xF0 => Ok(Publisher::create_old(value, "A Wave")),
            0xF3 => Ok(Publisher::create_old(value, "Extreme Entertainment")),
            0xFF => Ok(Publisher::create_old(value, "LJN")),
            _ => Err(JayBoyError::UnknownOldLicensee(value)),
        }
    }

    /// Resolves a new-licensee two-character code through the new-style
    /// table.  The code `"00"` resolves to no publisher; a pair without an
    /// entry — non-ASCII bytes included — is an open-table miss.
    pub fn try_from_new(value: [u8; 2]) -> (r: Result<Publisher, JayBoyError>)
        ensures
            (match r {
                Ok(p) => {
                    &&& spec_new_publisher_name(value@[0], value@[1]) == Some(p.name@)
                    &&& (if value@[0] == 0x30 && value@[1] == 0x30 {
                        p.old_code == 0x00 && p.new_code@ == seq![0x30u8, 0x30u8]
                    } else {
                        p.old_code == 0x33 && p.new_code@ == value@
                    })
                },
                Err(e) => {
                    &&& spec_new_publisher_name(value@[0], value@[1]) is None
                    &&& e == JayBoyError::UnknownNewLicensee(value@[0], value@[1])
                },
            }),
    {
        let left = value[0];
        let right = value[1];
        if left == 0x30 && right == 0x30 {
            return Ok(Publisher::none());
        }
        proof {
            assert(value@ =~= seq![left, right]);
        }
        match (left, right) {
            (0x30, 0x31) => Ok(Publisher::create_new(0x30, 0x31, "Nintendo R&D1")),  // "01"
            (0x30, 0x38) => Ok(Publisher::create_new(0x30, 0x38, "Capcom")),  // "08"
            (0x31, 0x33) => Ok(Publisher::create_new(0x31, 0x33, "Electronic Arts")),  // "13"
            (0x31, 0x38) => Ok(Publisher::create_new(0x31, 0x38, "Hudson Soft")),  // "18"
            (0x31, 0x39) => Ok(Publisher::create_new(0x31, 0x39, "b-ai")),  // "19"
            (0x32, 0x30) => Ok(Publisher::create_new(0x32, 0x30, "kss")),  // "20"
            (0x32, 0x32) => Ok(Publisher::create_new(0x32, 0x32, "pow")),  // "22"
            (0x32, 0x34) => Ok(Publisher::create_new(0x32, 0x34, "PCM Complete")),  // "24"
            (0x32, 0x35) => Ok(Publisher::create_new(0x32, 0x35, "san-x")),  // "25"
            (0x32, 0x38) => Ok(Publisher::create_new(0x32, 0x38, "Kemco Japan")),  // "28"
            (0x32, 0x39) => Ok(Publisher::create_new(0x32, 0x39, "seta")),  // "29"
            (0x33, 0x30) => Ok(Publisher::create_new(0x33, 0x30, "Viacom")),  // "30"
            (0x33, 0x31) => Ok(Publisher::create_new(0x33, 0x31, "Nintendo")),  // "31"
            (0x33, 0x32) => Ok(Publisher::create_new(0x33, 0x32, "Bandai")),  // "32"
            (0x33, 0x33) => Ok(Publisher::create_new(0x33, 0x33, "Ocean/Acclaim")),  // "33"
            (0x33, 0x34) => Ok(Publisher::create_new(0x33, 0x34, "Konami")),  // "34"
            (0x33, 0x35) => Ok(Publisher::create_new(0x33, 0x35, "Hector")),  // "35"
            (0x33, 0x37) => Ok(Publisher::create_new(0x33, 0x37, "Taito")),  // "37"
            (0x33, 0x38) => Ok(Publisher::create_new(0x33, 0x38, "Hudson")),  // "38"
            (0x33, 0x39) => Ok(Publisher::create_new(0x33, 0x39, "Banpresto")),  // "39"
            (0x34, 0x31) => Ok(Publisher::create_new(0x34, 0x31, "Ubi Soft")),  // "41"
            (0x34, 0x32) => Ok(Publisher::create_new(0x34, 0x32, "Atlus")),  // "42"
            (0x34, 0x34) => Ok(Publisher::create_new(0x34, 0x34, "Malibu")),  // "44"
            (0x34, 0x36) => Ok(Publisher::create_new(0x34, 0x36, "angel")),  // "46"
            (0x34, 0x37) => Ok(Publisher::create_new(0x34, 0x37, "Bullet-Proof")),  // "47"
            (0x34, 0x39) => Ok(Publisher::create_new(0x34, 0x39, "irem")),  // "49"
            (0x35, 0x30) => Ok(Publisher::create_new(0x35, 0x30, "Absolute")),  // "50"
            (0x35, 0x31) => Ok(Publisher::create_new(0x35, 0x31, "Acclaim")),  // "51"
            (0x35, 0x32) => Ok(Publisher::create_new(0x35, 0x32, "Activision")),  // "52"
            (0x35, 0x33) => Ok(Publisher::create_new(0x35, 0x33, "American sammy")),  // "53"
            (0x35, 0x34) => Ok(Publisher::create_new(0x35, 0x34, "Konami")),  // "54"
            (0x35, 0x35) => Ok(Publisher::create_new(0x35, 0x35, "Hi tech entertainment")),  // "55"
            (0x35, 0x36) => Ok(Publisher::create_new(0x35, 0x36, "LJN")),  // "56"
            (0x35, 0x37) => Ok(Publisher::create_new(0x35, 0x37, "Matchbox")),  // "57"
            (0x35, 0x38) => Ok(Publisher::create_new(0x35, 0x38, "Mattel")),  // "58"
            (0x35, 0x39) => Ok(Publisher::create_new(0x35, 0x39, "Milton Bradley")),  // "59"
            (0x36, 0x30) => Ok(Publisher::create_new(0x36, 0x30, "Titus")),  // "60"
            (0x36, 0x31) => Ok(Publisher::create_new(0x36, 0x31, "Virgin")),  // "61"
            (0x36, 0x34) => Ok(Publisher::create_new(0x36, 0x34, "LucasArts")),  // "64"
            (0x36, 0x37) => Ok(Publisher::create_new(0x36, 0x37, "Ocean")),  // "67"
            (0x36, 0x39) => Ok(Publisher::create_new(0x36, 0x39, "Electronic Arts")),  // "69"
            (0x37, 0x30) => Ok(Publisher::create_new(0x37, 0x30, "Infogrames")),  // "70"
            (0x37, 0x31) => Ok(Publisher::create_new(0x37, 0x31, "Interplay")),  // "71"
            (0x37, 0x32) => Ok(Publisher::create_new(0x37, 0x32, "Broderbund")),  // "72"
            (0x37, 0x33) => Ok(Publisher::create_new(0x37, 0x33, "sculptured")),  // "73"
            (0x37, 0x35) => Ok(Publisher::create_new(0x37, 0x35, "sci")),  // "75"
            (0x37, 0x38) => Ok(Publisher::create_new(0x37, 0x38, "THQ")),  // "78"
            (0x37, 0x39) => Ok(Publisher::create_new(0x37, 0x39, "Accolade")),  // "79"
            (0x38, 0x30) => Ok(Publisher::create_new(0x38, 0x30, "misawa")),  // "80"
            (0x38, 0x33) => Ok(Publisher::create_new(0x38, 0x33, "lozc")),  // "83"
            (0x38, 0x36) => Ok(Publisher::create_new(0x38, 0x36, "Tokuma Shoten Intermedia")),  // "86"
            (0x38, 0x37) => Ok(Publisher::create_new(0x38, 0x37, "Tsukuda Original")),  // "87"
            (0x39, 0x31) => Ok(Publisher::create_new(0x39, 0x31, "Chunsoft")),  // "91"
            (0x39, 0x32) => Ok(Publisher::create_new(0x39, 0x32, "Video system")),  // "92"
            (0x39, 0x33) => Ok(Publisher::create_new(0x39, 0x33, "Ocean/Acclaim")),  // "93"
            (0x39, 0x35) => Ok(Publisher::create_new(0x39, 0x35, "Varie")),  // "95"
            (0x39, 0x36) => Ok(Publisher::create_new(0x39, 0x36, "Yonezawa/s’pal")),  // "96"
            (0x39, 0x37) => Ok(Publisher::create_new(0x39, 0x37, "Kaneko")),  // "97"
            (0x39, 0x39) => Ok(Publisher::create_new(0x39, 0x39, "Pack in soft")),  // "99"
            (0x41, 0x34) => Ok(Publisher::create_new(0x41, 0x34, "Konami (Yu-Gi-Oh!)")),  // "A4"
            _ => Err(JayBoyError::UnknownNewLicensee(left, right)),
        }
    }
}

} // verus!
