//! The cartridge: an owned ROM image plus a display name, with every header
//! field computed from fixed byte offsets of the buffer.  Nothing is cached:
//! the buffer is the single source of truth, so decoding is idempotent.

use vstd::prelude::*;

use crate::errors::JayBoyError;
use crate::formatting::spec_udec;
use crate::formatting::TextBuilder;
use crate::roms::cart_type::spec_cartridge_type;
use crate::roms::cart_type::CartridgeType;
use crate::roms::cgbflag::spec_cgb_flag;
use crate::roms::cgbflag::CGBFlag;
use crate::roms::publisher::spec_new_publisher_name;
use crate::roms::publisher::spec_old_publisher_name;
use crate::roms::publisher::Publisher;
use crate::text::all_ascii;
use crate::text::all_upper_or_digit;
use crate::text::gb_str;

verus! {

/// Whether the version of a game is meant to be sold in Japan or elsewhere.
#[derive(Debug, Eq, PartialEq, Structural, Clone, Copy)]
pub enum Destination {
    Japan,
    Overseas,
}

/// The four entry-point bytes, `0x0100..=0x0103`.
pub open spec fn spec_entry_point(b: Seq<u8>) -> Seq<u8> {
    b.subrange(0x100, 0x104)
}

/// The 48 logo bytes, `0x0104..=0x0133`.
pub open spec fn spec_logo_bytes(b: Seq<u8>) -> Seq<u8> {
    b.subrange(0x104, 0x134)
}

/// The whole fixed header region, `0x0100..=0x014F`.
pub open spec fn spec_header_bytes(b: Seq<u8>) -> Seq<u8> {
    b.subrange(0x100, 0x150)
}

/// Everything after the fixed header region.
pub open spec fn spec_non_header_bytes(b: Seq<u8>) -> Seq<u8> {
    b.subrange(0x150, b.len() as int)
}

/// The four manufacturer-code bytes, `0x013F..=0x0142`.
pub open spec fn spec_manufacturer_bytes(b: Seq<u8>) -> Seq<u8> {
    b.subrange(0x13F, 0x143)
}

/// A manufacturer code is present when its four bytes are all uppercase
/// ASCII letters or digits.
pub open spec fn spec_has_manufacturer(b: Seq<u8>) -> bool {
    all_upper_or_digit(spec_manufacturer_bytes(b))
}

/// The manufacturer code, absent when any of its four bytes falls outside
/// the uppercase-letter / digit alphabet.
pub open spec fn spec_manufacturer_code(b: Seq<u8>) -> Option<Seq<u8>> {
    if spec_has_manufacturer(b) {
        Some(spec_manufacturer_bytes(b))
    } else {
        None
    }
}

/// How much of the 16-byte title region belongs to the title: 11 bytes when
/// a manufacturer code occupies the tail, 15 when the final byte carries a
/// CGB flag, the full 16 otherwise.
pub open spec fn spec_title_limit(b: Seq<u8>) -> int {
    if spec_has_manufacturer(b) {
        11
    } else if spec_cgb_flag(b[0x143]) is Some {
        15
    } else {
        16
    }
}

/// The greatest index below `l` at which `t` holds a nonzero byte, or `-1`
/// when `t` is zero everywhere below `l`.
pub open spec fn spec_last_nonzero(t: Seq<u8>, l: int) -> int
    decreases l,
{
    if l <= 0 {
        -1
    } else if t[l - 1] != 0 {
        l - 1
    } else {
        spec_last_nonzero(t, l - 1)
    }
}

/// The title bytes: the prefix of the effective title region up to and
/// including its last nonzero byte; empty when the region is all zero.
pub open spec fn spec_title_bytes(b: Seq<u8>) -> Seq<u8> {
    let region = b.subrange(0x134, 0x144);
    region.subrange(0, spec_last_nonzero(region, spec_title_limit(b)) + 1)
}

/// The decoded title: its bytes where they are all ASCII, absent otherwise.
pub open spec fn spec_title(b: Seq<u8>) -> Option<Seq<u8>> {
    if all_ascii(spec_title_bytes(b)) {
        Some(spec_title_bytes(b))
    } else {
        None
    }
}

/// The title of a buffer, or the empty text where the title bytes are not
/// all ASCII.
pub open spec fn spec_title_or_empty(b: Seq<u8>) -> Seq<u8> {
    match spec_title(b) {
        Some(t) => t,
        None => Seq::empty(),
    }
}

/// ASCII bytes as the chars with the same code points.
pub open spec fn chars_of_ascii(s: Seq<u8>) -> Seq<char> {
    s.map_values(|b: u8| b as char)
}

/// The publisher name the header resolves to, with open-table misses
/// degraded to `None`.
pub open spec fn spec_publisher_name(b: Seq<u8>) -> Seq<char> {
    if b[0x14B] == 0x33 {
        match spec_new_publisher_name(b[0x144], b[0x145]) {
            Some(n) => n,
            None => "None"@,
        }
    } else {
        match spec_old_publisher_name(b[0x14B]) {
            Some(n) => n,
            None => "None"@,
        }
    }
}

/// The closed ROM-size table: `0x00..=0x08` give `32 KiB * 2^code`, three
/// unofficial codes give the tabulated sizes, anything else has no entry.
pub open spec fn spec_rom_size(code: u8) -> Option<usize> {
    match code {
        0x00 => Some(32768),
        0x01 => Some(65536),
        0x02 => Some(131072),
        0x03 => Some(262144),
        0x04 => Some(524288),
        0x05 => Some(1048576),
        0x06 => Some(2097152),
        0x07 => Some(4194304),
        0x08 => Some(8388608),
        0x52 => Some(1179648),
        0x53 => Some(1310720),
        0x54 => Some(1572864),
        _ => None,
    }
}

/// The open RAM-size table; a byte with no entry degrades to zero.
pub open spec fn spec_ram_size(code: u8) -> usize {
    match code {
        0x00 => 0,
        0x01 => 2048,
        0x02 => 8192,
        0x03 => 32768,
        0x04 => 131072,
        0x05 => 65536,
        _ => 0,
    }
}

/// The destination byte: zero means Japan, one means Overseas, and an
/// unknown byte degrades to Overseas.
pub open spec fn spec_destination(code: u8) -> Destination {
    if code == 0x00 {
        Destination::Japan
    } else {
        Destination::Overseas
    }
}

/// The "no publisher" value that licensee lookups degrade to.
pub open spec fn is_none_publisher(r: Publisher) -> bool {
    &&& r.old_code == 0x00
    &&& r.new_code@ == seq![0x30u8, 0x30u8]
    &&& r.name@ == "None"@
}

/// What resolving the old-licensee byte of `b` must yield: the legacy-table
/// entry where one exists, the "no publisher" value otherwise.
pub open spec fn is_old_resolution(b: Seq<u8>, r: Publisher) -> bool {
    let code = b[0x14B];
    match spec_old_publisher_name(code) {
        Some(n) => {
            &&& r.name@ == n
            &&& r.old_code == code
            &&& (code == 0x00 ==> r.new_code@ == seq![0x30u8, 0x30u8])
            &&& (code != 0x00 ==> r.new_code@ == seq![0x00u8, 0x00u8])
        },
        None => is_none_publisher(r),
    }
}

/// What resolving the new-licensee characters of `b` must yield: the
/// new-style entry where one exists, the "no publisher" value otherwise.
pub open spec fn is_new_resolution(b: Seq<u8>, r: Publisher) -> bool {
    let left = b[0x144];
    let right = b[0x145];
    match spec_new_publisher_name(left, right) {
        Some(n) => {
            &&& r.name@ == n
            &&& (if left == 0x30 && right == 0x30 {
                r.old_code == 0x00 && r.new_code@ == seq![0x30u8, 0x30u8]
            } else {
                r.old_code == 0x33 && r.new_code@ == seq![left, right]
            })
        },
        None => is_none_publisher(r),
    }
}

/// A cartridge image: the raw bytes and a display name for diagnostics.
///
/// Every header accessor requires `wf()`: the buffer reaches past the fixed
/// header region, which `from_bytes` checks once.
#[derive(Debug, Default)]
pub struct Cartridge {
    /// The source file's name, for reports.
    pub file_name: String,
    bytes: Vec<u8>,
}

impl Cartridge {
    /// The image's bytes.
    pub closed spec fn spec_bytes(&self) -> Seq<u8> {
        self.bytes@
    }

    /// The display name.
    pub closed spec fn spec_file_name(&self) -> Seq<char> {
        self.file_name@
    }

    /// The well-formedness `from_bytes` establishes: the buffer holds the
    /// whole fixed header region.
    pub open spec fn wf(&self) -> bool {
        self.spec_bytes().len() >= 0x150
    }

    /// Wraps a whole ROM image.  Exactly the buffers long enough to hold
    /// the fixed header region are accepted.
    pub fn from_bytes(file_name: String, bytes: Vec<u8>) -> (r: Result<Cartridge, JayBoyError>)
        ensures
            bytes@.len() >= 0x150 ==> (r matches Ok(c) && c.spec_bytes() == bytes@
                && c.spec_file_name() == file_name@ && c.wf()),
            bytes@.len() < 0x150 ==> r == Err::<Cartridge, JayBoyError>(
                JayBoyError::BufferTooSmall,
            ),
    {
        if bytes.len() < 0x150 {
            Err(JayBoyError::BufferTooSmall)
        } else {
            Ok(Cartridge { file_name, bytes })
        }
    }

    /// The whole image.
    pub fn get_bytes(&self) -> (r: &[u8])
        ensures
            r@ == self.spec_bytes(),
    {
        self.bytes.as_slice()
    }

    /// The fixed header region, `0x0100..=0x014F`.
    pub fn header_bytes(&self) -> (r: &[u8])
        requires
            self.wf(),
        ensures
            r@ == spec_header_bytes(self.spec_bytes()),
    {
        vstd::slice::slice_subrange(self.bytes.as_slice(), 0x100, 0x150)
    }

    /// Everything after the fixed header region.
    pub fn non_header_bytes(&self) -> (r: &[u8])
        requires
            self.wf(),
        ensures
            r@ == spec_non_header_bytes(self.spec_bytes()),
    {
        vstd::slice::slice_subrange(self.bytes.as_slice(), 0x150, self.bytes.len())
    }

    /// The four entry-point bytes: the first instructions run after boot.
    pub fn entry_point(&self) -> (r: &[u8])
        requires
            self.wf(),
        ensures
            r@ == spec_entry_point(self.spec_bytes()),
    {
        vstd::slice::slice_subrange(self.bytes.as_slice(), 0x100, 0x104)
    }

    /// The 48 logo bytes shown at power-on; they must match the fixed
    /// reference for the game to run.
    pub fn logo_bytes(&self) -> (r: &[u8])
        requires
            self.wf(),
        ensures
            r@ == spec_logo_bytes(self.spec_bytes()),
    {
        vstd::slice::slice_subrange(self.bytes.as_slice(), 0x104, 0x134)
    }

    /// The title: the effective title region — shortened when the
    /// manufacturer code or the CGB flag occupies its tail — up to its last
    /// nonzero byte.  Absent when those bytes are not all ASCII.
    pub fn title(&self) -> (r: Option<gb_str>)
        requires
            self.wf(),
        ensures
            (match r {
                Some(t) => spec_title(self.spec_bytes()) == Some(t@) && t.wf(),
                None => spec_title(self.spec_bytes()) is None,
            }),
    {
        let ghost b = self.spec_bytes();
        let ghost region = b.subrange(0x134, 0x144);
        let title_length: usize = if self.manufacturer_code().is_some() {
            11
        } else if CGBFlag::not_none(self.bytes[0x0143]) {
            15
        } else {
            16
        };
        assert(title_length as int == spec_title_limit(b));
        let mut end: usize = title_length;
        while end > 0 && self.bytes[0x0134 + end - 1] == 0
            invariant
                self.wf(),
                b == self.spec_bytes(),
                region == b.subrange(0x134, 0x144),
                0 <= end <= title_length <= 16,
                spec_last_nonzero(region, title_length as int) == spec_last_nonzero(
                    region,
                    end as int,
                ),
            decreases end,
        {
            proof {
                assert(region[end - 1] == b[0x134 + (end - 1)]);
            }
            end = end - 1;
        }
        proof {
            if end == 0 {
                assert(spec_last_nonzero(region, end as int) == -1);
            } else {
                assert(region[end - 1] == b[0x134 + (end - 1)]);
                assert(spec_last_nonzero(region, end as int) == end - 1);
            }
            assert(b.subrange(0x134, 0x134 + end as int) =~= region.subrange(0, end as int));
        }
        let str_bytes = vstd::slice::slice_subrange(self.bytes.as_slice(), 0x0134, 0x0134 + end);
        match gb_str::try_from_ascii(str_bytes) {
            Ok(text) => Some(text),
            Err(_) => None,
        }
    }

    /// The manufacturer code: four uppercase ASCII letters or digits in the
    /// title region's tail, absent when any byte falls outside that
    /// alphabet.
    pub fn manufacturer_code(&self) -> (r: Option<gb_str>)
        requires
            self.wf(),
        ensures
            (match r {
                Some(t) => spec_manufacturer_code(self.spec_bytes()) == Some(t@) && t.wf(),
                None => spec_manufacturer_code(self.spec_bytes()) is None,
            }),
            r is Some <==> spec_has_manufacturer(self.spec_bytes()),
    {
        let code_bytes = vstd::slice::slice_subrange(self.bytes.as_slice(), 0x013F, 0x0143);
        match gb_str::try_from_uppercase_ascii(code_bytes) {
            Ok(text) => Some(text),
            Err(_) => None,
        }
    }

    /// The CGB flag at `0x0143`, `None` when the byte is part of the title.
    pub fn cgb_flag(&self) -> (r: Option<CGBFlag>)
        requires
            self.wf(),
        ensures
            r == spec_cgb_flag(self.spec_bytes()[0x143]),
    {
        CGBFlag::try_from(self.bytes[0x0143])
    }

    /// The publisher named by the two new-licensee characters; an unknown
    /// pair degrades to no publisher.  Authoritative only where the
    /// old-licensee byte is `0x33`.
    pub fn new_licensee(&self) -> (r: Publisher)
        requires
            self.wf(),
        ensures
            is_new_resolution(self.spec_bytes(), r),
    {
        let code = [self.bytes[0x0144], self.bytes[0x0145]];
        proof {
            assert(code@ =~= seq![self.spec_bytes()[0x144], self.spec_bytes()[0x145]]);
        }
        match Publisher::try_from_new(code) {
            Ok(publisher) => publisher,
            Err(_) => Publisher::none(),
        }
    }

    /// Whether the game declares Super Game Boy support: the flag byte is
    /// exactly `0x03`.
    pub fn sgb_support(&self) -> (r: bool)
        requires
            self.wf(),
        ensures
            r == (self.spec_bytes()[0x146] == 0x03),
    {
        self.bytes[0x0146] == 0x03
    }

    /// The cartridge type: the hardware on the cartridge, most notably its
    /// mapper.  The table is closed; an unknown byte is an error.
    pub fn cartridge_type(&self) -> (r: Result<CartridgeType, JayBoyError>)
        requires
            self.wf(),
        ensures
            (match r {
                Ok(t) => spec_cartridge_type(self.spec_bytes()[0x147]) == Some(t),
                Err(e) => spec_cartridge_type(self.spec_bytes()[0x147]) is None && e
                    == JayBoyError::UnknownCartridgeType(self.spec_bytes()[0x147]),
            }),
    {
        CartridgeType::try_from(self.bytes[0x0147])
    }

    /// How many bytes of ROM the cartridge holds.  The table is closed; an
    /// unknown byte is an error.
    pub fn rom_size(&self) -> (r: Result<usize, JayBoyError>)
        requires
            self.wf(),
        ensures
            (match r {
                Ok(n) => spec_rom_size(self.spec_bytes()[0x148]) == Some(n),
                Err(e) => spec_rom_size(self.spec_bytes()[0x148]) is None && e
                    == JayBoyError::UnknownRomSize(self.spec_bytes()[0x148]),
            }),
    {
        let byte = self.bytes[0x0148];
        match byte {
            0x00 => Ok(32768),
            0x01 => Ok(65536),
            0x02 => Ok(131072),
            0x03 => Ok(262144),
            0x04 => Ok(524288),
            0x05 => Ok(1048576),
            0x06 => Ok(2097152),
            0x07 => Ok(4194304),
            0x08 => Ok(8388608),
            0x52 => Ok(1179648),
            0x53 => Ok(1310720),
            0x54 => Ok(1572864),
            _ => Err(JayBoyError::UnknownRomSize(byte)),
        }
    }

    /// How many bytes of RAM the cartridge holds; an unknown byte degrades
    /// to zero.
    pub fn ram_size(&self) -> (r: usize)
        requires
            self.wf(),
        ensures
            r == spec_ram_size(self.spec_bytes()[0x149]),
    {
        let byte = self.bytes[0x0149];
        match byte {
            0x00 => 0,
            0x01 => 2048,
            0x02 => 8192,
            0x03 => 32768,
            0x04 => 131072,
            0x05 => 65536,
            _ => 0,
        }
    }

    /// The destination code; an unknown byte degrades to Overseas.
    pub fn destination(&self) -> (r: Destination)
        requires
            self.wf(),
        ensures
            r == spec_destination(self.spec_bytes()[0x14A]),
    {
        let byte = self.bytes[0x014A];
        match byte {
            0x00 => Destination::Japan,
            _ => Destination::Overseas,
        }
    }

    /// The publisher named by the old-licensee byte; an unknown byte — the
    /// new-table selector `0x33` included — degrades to no publisher.
    pub fn old_licensee(&self) -> (r: Publisher)
        requires
            self.wf(),
        ensures
            is_old_resolution(self.spec_bytes(), r),
    {
        match Publisher::try_from_old(self.bytes[0x014B]) {
            Ok(publisher) => publisher,
            Err(_) => Publisher::none(),
        }
    }

    /// The mask ROM version number, usually zero.
    pub fn version(&self) -> (r: u8)
        requires
            self.wf(),
        ensures
            r == self.spec_bytes()[0x14C],
    {
        self.bytes[0x014C]
    }

    /// The stored header checksum over `0x0134..=0x014C`.
    pub fn header_checksum(&self) -> (r: u8)
        requires
            self.wf(),
        ensures
            r == self.spec_bytes()[0x14D],
    {
        self.bytes[0x014D]
    }

    /// The stored global checksum, big-endian.
    pub fn global_checksum(&self) -> (r: u16)
        requires
            self.wf(),
        ensures
            r == self.spec_bytes()[0x14E] * 256 + self.spec_bytes()[0x14F],
    {
        (self.bytes[0x014E] as u16) * 256 + (self.bytes[0x014F] as u16)
    }

    /// The publisher.  The old-licensee byte `0x33` makes the new-style
    /// table authoritative, whatever its characters hold; any other byte
    /// resolves through the legacy table and the new-licensee characters
    /// are ignored.
    pub fn publisher(&self) -> (r: Publisher)
        requires
            self.wf(),
        ensures
            self.spec_bytes()[0x14B] == 0x33 ==> is_new_resolution(self.spec_bytes(), r),
            self.spec_bytes()[0x14B] != 0x33 ==> is_old_resolution(self.spec_bytes(), r),
    {
        let old_byte = self.bytes[0x014B];
        if old_byte == 0x33 {
            self.new_licensee()
        } else {
            self.old_licensee()
        }
    }
}

/// The recoverable decode warnings a header surfaces, in field order: a
/// non-ASCII title, an unresolved licensee (through whichever table the
/// old-licensee byte selects), an unknown RAM-size byte, and an unknown
/// destination byte.  None of these stops the rest of the header from
/// decoding.
pub open spec fn spec_decode_warnings(b: Seq<u8>) -> Seq<JayBoyError> {
    (if spec_title(b) is None {
        seq![JayBoyError::InvalidText]
    } else {
        Seq::<JayBoyError>::empty()
    }) + (if b[0x14B] == 0x33 {
        if spec_new_publisher_name(b[0x144], b[0x145]) is None {
            seq![JayBoyError::UnknownNewLicensee(b[0x144], b[0x145])]
        } else {
            Seq::<JayBoyError>::empty()
        }
    } else {
        if spec_old_publisher_name(b[0x14B]) is None {
            seq![JayBoyError::UnknownOldLicensee(b[0x14B])]
        } else {
            Seq::<JayBoyError>::empty()
        }
    }) + (if b[0x149] > 0x05 {
        seq![JayBoyError::UnknownRamSize(b[0x149])]
    } else {
        Seq::<JayBoyError>::empty()
    }) + (if b[0x14A] > 0x01 {
        seq![JayBoyError::UnknownDestination(b[0x14A])]
    } else {
        Seq::<JayBoyError>::empty()
    })
}

/// What `Cartridge::describe` renders, for a buffer whose cartridge-type
/// and ROM-size bytes both have table entries.
pub open spec fn spec_cart_describe(b: Seq<u8>, name: Seq<char>) -> Seq<char> {
    "File: "@ + name + "\nTitle: "@ + chars_of_ascii(spec_title_or_empty(b)) + "\nPublisher: "@
        + spec_publisher_name(b) + "\nType: "@ + spec_cartridge_type(
        b[0x147],
    ).unwrap().spec_describe() + "\nROM: "@ + spec_udec((spec_rom_size(b[0x148]).unwrap() / 1024) as nat)
        + " KiB,  RAM: "@ + spec_udec((spec_ram_size(b[0x149]) / 1024) as nat) + " KiB\nDest: "@ + (
    if spec_destination(b[0x14A]) == Destination::Japan {
        "Japan"@
    } else {
        "Overseas"@
    }) + ",  Version: "@ + spec_udec(b[0x14C] as nat) + "\n"@
}

impl Cartridge {
    /// The recoverable warnings this header's fields degrade with.  They
    /// are collected, not thrown: every degraded field still decodes, and
    /// the warnings stand alongside the decoded values.
    pub fn decode_warnings(&self) -> (r: Vec<JayBoyError>)
        requires
            self.wf(),
        ensures
            r@ == spec_decode_warnings(self.spec_bytes()),
    {
        let ghost b = self.spec_bytes();
        let mut warnings: Vec<JayBoyError> = Vec::new();
        if self.title().is_none() {
            warnings.push(JayBoyError::InvalidText);
        }
        let ghost p1 = (if spec_title(b) is None {
            seq![JayBoyError::InvalidText]
        } else {
            Seq::<JayBoyError>::empty()
        });
        proof {
            assert(warnings@ =~= p1);
        }
        let old_byte = self.bytes[0x014B];
        if old_byte == 0x33 {
            let code = [self.bytes[0x0144], self.bytes[0x0145]];
            proof {
                assert(code@ =~= seq![b[0x144], b[0x145]]);
            }
            if Publisher::try_from_new(code).is_err() {
                warnings.push(JayBoyError::UnknownNewLicensee(code[0], code[1]));
            }
        } else {
            if Publisher::try_from_old(old_byte).is_err() {
                warnings.push(JayBoyError::UnknownOldLicensee(old_byte));
            }
        }
        let ghost p2 = p1 + (if b[0x14B] == 0x33 {
            if spec_new_publisher_name(b[0x144], b[0x145]) is None {
                seq![JayBoyError::UnknownNewLicensee(b[0x144], b[0x145])]
            } else {
                Seq::<JayBoyError>::empty()
            }
        } else {
            if spec_old_publisher_name(b[0x14B]) is None {
                seq![JayBoyError::UnknownOldLicensee(b[0x14B])]
            } else {
                Seq::<JayBoyError>::empty()
            }
        });
        proof {
            assert(warnings@ =~= p2);
        }
        let ram_byte = self.bytes[0x0149];
        if ram_byte > 0x05 {
            warnings.push(JayBoyError::UnknownRamSize(ram_byte));
        }
        let ghost p3 = p2 + (if b[0x149] > 0x05 {
            seq![JayBoyError::UnknownRamSize(b[0x149])]
        } else {
            Seq::<JayBoyError>::empty()
        });
        proof {
            assert(warnings@ =~= p3);
        }
        let dest_byte = self.bytes[0x014A];
        if dest_byte > 0x01 {
            warnings.push(JayBoyError::UnknownDestination(dest_byte));
        }
        proof {
            assert(warnings@ =~= spec_decode_warnings(b));
        }
        warnings
    }

    /// The cartridge summarized as text: file, title, publisher, type,
    /// sizes, destination and version, one line each.  Fails exactly where
    /// the closed tables fail: an unknown cartridge-type byte first, then
    /// an unknown ROM-size byte.
    #[verifier::spinoff_prover]
    #[verifier::rlimit(100)]
    pub fn describe(&self) -> (r: Result<String, JayBoyError>)
        requires
            self.wf(),
        ensures
            ({
                let b = self.spec_bytes();
                match r {
                    Ok(s) => {
                        &&& spec_cartridge_type(b[0x147]) is Some
                        &&& spec_rom_size(b[0x148]) is Some
                        &&& s@ == spec_cart_describe(b, self.spec_file_name())
                    },
                    Err(e) => {
                        if spec_cartridge_type(b[0x147]) is None {
                            e == JayBoyError::UnknownCartridgeType(b[0x147])
                        } else {
                            spec_rom_size(b[0x148]) is None && e == JayBoyError::UnknownRomSize(
                                b[0x148],
                            )
                        }
                    },
                }
            }),
    {
        let ghost b = self.spec_bytes();
        let cart_type = match self.cartridge_type() {
            Ok(t) => t,
            Err(e) => {
                return Err(e);
            },
        };
        let rom_size = match self.rom_size() {
            Ok(n) => n,
            Err(e) => {
                return Err(e);
            },
        };
        let title_text = match self.title() {
            Some(t) => t.to_text(),
            None => String::new(),
        };
        proof {
            assert(title_text@ =~= chars_of_ascii(spec_title_or_empty(b)));
        }
        let publisher = self.publisher();
        let type_text = cart_type.describe();
        let mut builder = TextBuilder::new();
        builder.append("File: ");
        builder.append(self.file_name.as_str());
        builder.append("\nTitle: ");
        builder.append(title_text.as_str());
        builder.append("\nPublisher: ");
        builder.append(publisher.name);
        builder.append("\nType: ");
        builder.append(type_text.as_str());
        builder.append("\nROM: ");
        builder.append_udec((rom_size / 1024) as u64);
        builder.append(" KiB,  RAM: ");
        builder.append_udec((self.ram_size() / 1024) as u64);
        builder.append(" KiB\nDest: ");
        match self.destination() {
            Destination::Japan => builder.append("Japan"),
            Destination::Overseas => builder.append("Overseas"),
        }
        builder.append(",  Version: ");
        builder.append_udec(self.version() as u64);
        builder.append("\n");
        let r = builder.build_string();
        proof {
            assert(r@ =~= spec_cart_describe(b, self.spec_file_name()));
        }
        Ok(r)
    }
}

/// Header decoding is a pure function of the buffer: two cartridges holding
/// the same bytes decode every field identically, so decoding twice from
/// the same buffer cannot differ.
pub proof fn lemma_header_decode_deterministic(c1: &Cartridge, c2: &Cartridge)
    requires
        c1.spec_bytes() == c2.spec_bytes(),
    ensures
        spec_title(c1.spec_bytes()) == spec_title(c2.spec_bytes()),
        spec_manufacturer_code(c1.spec_bytes()) == spec_manufacturer_code(c2.spec_bytes()),
        spec_cgb_flag(c1.spec_bytes()[0x143]) == spec_cgb_flag(c2.spec_bytes()[0x143]),
        spec_cartridge_type(c1.spec_bytes()[0x147]) == spec_cartridge_type(c2.spec_bytes()[0x147]),
        spec_rom_size(c1.spec_bytes()[0x148]) == spec_rom_size(c2.spec_bytes()[0x148]),
        spec_ram_size(c1.spec_bytes()[0x149]) == spec_ram_size(c2.spec_bytes()[0x149]),
        spec_destination(c1.spec_bytes()[0x14A]) == spec_destination(c2.spec_bytes()[0x14A]),
        spec_old_publisher_name(c1.spec_bytes()[0x14B]) == spec_old_publisher_name(
            c2.spec_bytes()[0x14B],
        ),
        spec_new_publisher_name(c1.spec_bytes()[0x144], c1.spec_bytes()[0x145])
            == spec_new_publisher_name(c2.spec_bytes()[0x144], c2.spec_bytes()[0x145]),
{
}

} // verus!
