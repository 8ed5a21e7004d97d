//! Thin wrappers around the Game Boy's native value shapes: bytes, signed
//! bytes, 16-bit words read least-significant byte first, and byte slices
//! with a hexadecimal rendering.

use vstd::prelude::*;

use crate::formatting::spec_delimited;
use crate::formatting::spec_hex_byte;
use crate::formatting::spec_hex_word;
use crate::formatting::TextBuilder;

verus! {

/// A wrapper around `u8`.
#[allow(non_camel_case_types)]
#[derive(Debug, Default, Eq, PartialEq, Ord, PartialOrd, Hash, Clone, Copy, Structural)]
pub struct gb_u8(pub u8);

impl From<u8> for gb_u8 {
    fn from(value: u8) -> (r: Self) {
        gb_u8(value)
    }
}

impl vstd::std_specs::convert::FromSpecImpl<u8> for gb_u8 {
    open spec fn obeys_from_spec() -> bool {
        true
    }

    open spec fn from_spec(t: u8) -> Self {
        gb_u8(t)
    }
}

impl From<gb_u8> for u8 {
    fn from(value: gb_u8) -> (r: Self) {
        value.0
    }
}

impl vstd::std_specs::convert::FromSpecImpl<gb_u8> for u8 {
    open spec fn obeys_from_spec() -> bool {
        true
    }

    open spec fn from_spec(t: gb_u8) -> Self {
        t.0
    }
}

/// A wrapper around `i8`.
#[allow(non_camel_case_types)]
#[derive(Debug, Default, Eq, PartialEq, Ord, PartialOrd, Hash, Clone, Copy, Structural)]
pub struct gb_i8(pub i8);

impl From<i8> for gb_i8 {
    fn from(value: i8) -> (r: Self) {
        gb_i8(value)
    }
}

impl vstd::std_specs::convert::FromSpecImpl<i8> for gb_i8 {
    open spec fn obeys_from_spec() -> bool {
        true
    }

    open spec fn from_spec(t: i8) -> Self {
        gb_i8(t)
    }
}

impl From<gb_i8> for i8 {
    fn from(value: gb_i8) -> (r: Self) {
        value.0
    }
}

impl vstd::std_specs::convert::FromSpecImpl<gb_i8> for i8 {
    open spec fn obeys_from_spec() -> bool {
        true
    }

    open spec fn from_spec(t: gb_i8) -> Self {
        t.0
    }
}

/// A wrapper around `u16`, built from and split into little-endian bytes.
#[allow(non_camel_case_types)]
#[derive(Debug, Default, Eq, PartialEq, Ord, PartialOrd, Hash, Clone, Copy, Structural)]
pub struct gb_u16(pub u16);

impl gb_u16 {
    /// The word whose low byte is `low` and high byte is `high`.
    pub fn from_le_bytes(low: u8, high: u8) -> (r: Self)
        ensures
            r.0 == low + high * 256,
    {
        gb_u16((low as u16) + (high as u16) * 256)
    }

    /// The word's bytes, least significant first.
    pub fn to_le_bytes(&self) -> (r: [u8; 2])
        ensures
            r@ == seq![(self.0 % 256) as u8, (self.0 / 256) as u8],
    {
        let r = [(self.0 % 256) as u8, (self.0 / 256) as u8];
        proof {
            assert(r@ =~= seq![(self.0 % 256) as u8, (self.0 / 256) as u8]);
        }
        r
    }

    pub fn low_byte(&self) -> (r: u8)
        ensures
            r == self.0 % 256,
    {
        (self.0 % 256) as u8
    }

    pub fn high_byte(&self) -> (r: u8)
        ensures
            r == self.0 / 256,
    {
        (self.0 / 256) as u8
    }

    /// The word as `0x` and four uppercase hexadecimal digits.
    pub fn to_upper_hex(&self) -> (r: String)
        ensures
            r@ == spec_hex_word(self.0),
    {
        let mut b = TextBuilder::new();
        b.append_hex_word(self.0);
        let r = b.build_string();
        proof {
            assert(r@ =~= spec_hex_word(self.0));
        }
        r
    }
}

impl From<u16> for gb_u16 {
    fn from(value: u16) -> (r: Self) {
        gb_u16(value)
    }
}

impl vstd::std_specs::convert::FromSpecImpl<u16> for gb_u16 {
    open spec fn obeys_from_spec() -> bool {
        true
    }

    open spec fn from_spec(t: u16) -> Self {
        gb_u16(t)
    }
}

impl From<gb_u16> for u16 {
    fn from(value: gb_u16) -> (r: Self) {
        value.0
    }
}

impl vstd::std_specs::convert::FromSpecImpl<gb_u16> for u16 {
    open spec fn obeys_from_spec() -> bool {
        true
    }

    open spec fn from_spec(t: gb_u16) -> Self {
        t.0
    }
}

/// A wrapper around `u8` that renders as `0x` and two hexadecimal digits.
#[derive(Debug, Default, Eq, PartialEq, Hash, Ord, PartialOrd, Clone, Copy, Structural)]
pub struct GByte(pub u8);

impl GByte {
    /// The byte as `0x` and two uppercase hexadecimal digits.
    pub fn to_upper_hex(&self) -> (r: String)
        ensures
            r@ == spec_hex_byte(self.0),
    {
        let mut b = TextBuilder::new();
        b.append_hex_byte(self.0);
        let r = b.build_string();
        proof {
            assert(r@ =~= spec_hex_byte(self.0));
        }
        r
    }
}

impl From<u8> for GByte {
    fn from(value: u8) -> (r: Self) {
        GByte(value)
    }
}

impl vstd::std_specs::convert::FromSpecImpl<u8> for GByte {
    open spec fn obeys_from_spec() -> bool {
        true
    }

    open spec fn from_spec(t: u8) -> Self {
        GByte(t)
    }
}

impl From<GByte> for u8 {
    fn from(value: GByte) -> (r: Self) {
        value.0
    }
}

impl vstd::std_specs::convert::FromSpecImpl<GByte> for u8 {
    open spec fn obeys_from_spec() -> bool {
        true
    }

    open spec fn from_spec(t: GByte) -> Self {
        t.0
    }
}

/// What `GBytes::to_text` renders: every byte in hexadecimal, comma
/// separated, in square brackets.
pub open spec fn spec_bytes_text(s: Seq<u8>) -> Seq<char> {
    "["@ + spec_delimited(","@, s.map_values(|b: u8| spec_hex_byte(b))) + "]"@
}

/// A wrapper around a byte slice with a hexadecimal rendering.
pub struct GBytes<'a>(pub &'a [u8]);

impl<'a> GBytes<'a> {
    /// The bytes as text: hexadecimal, comma separated, in square brackets.
    pub fn to_text(&self) -> (r: String)
        ensures
            r@ == spec_bytes_text(self.0@),
    {
        let mut items: Vec<String> = Vec::new();
        let mut i: usize = 0;
        while i < self.0.len()
            invariant
                0 <= i <= self.0@.len(),
                items@.len() == i,
                forall|j: int| 0 <= j < i ==> (#[trigger] items@[j])@ == spec_hex_byte(self.0@[j]),
            decreases self.0@.len() - i,
        {
            let byte = GByte(*vstd::slice::slice_index_get(self.0, i));
            items.push(byte.to_upper_hex());
            i = i + 1;
        }
        let mut b = TextBuilder::new();
        b.append("[");
        b.delimit(",", &items);
        b.append("]");
        let r = b.build_string();
        proof {
            assert(items@.map_values(|s: String| s@) =~= self.0@.map_values(
                |b0: u8| spec_hex_byte(b0),
            ));
            assert(r@ =~= spec_bytes_text(self.0@));
        }
        r
    }
}

impl<'a> From<&'a [u8]> for GBytes<'a> {
    fn from(value: &'a [u8]) -> (r: Self) {
        GBytes(value)
    }
}

impl<'a> vstd::std_specs::convert::FromSpecImpl<&'a [u8]> for GBytes<'a> {
    open spec fn obeys_from_spec() -> bool {
        true
    }

    open spec fn from_spec(t: &'a [u8]) -> Self {
        GBytes(t)
    }
}

impl<'a> From<GBytes<'a>> for &'a [u8] {
    fn from(value: GBytes<'a>) -> (r: Self) {
        value.0
    }
}

impl<'a> vstd::std_specs::convert::FromSpecImpl<GBytes<'a>> for &'a [u8] {
    open spec fn obeys_from_spec() -> bool {
        true
    }

    open spec fn from_spec(t: GBytes<'a>) -> Self {
        t.0
    }
}

} // verus!
