//! ASCII byte strings: the title and manufacturer-code texts of a cartridge
//! header, validated on construction and renderable as `String`s.

use vstd::prelude::*;

use crate::errors::JayBoyError;

verus! {

/// True of a byte that is ASCII.
pub open spec fn is_ascii_byte(b: u8) -> bool {
    b < 128
}

/// True of a byte that is an uppercase ASCII letter or an ASCII digit —
/// the alphabet of manufacturer codes.
pub open spec fn is_upper_or_digit(b: u8) -> bool {
    (0x41 <= b <= 0x5A) || (0x30 <= b <= 0x39)
}

/// True when every byte of `s` is ASCII.
pub open spec fn all_ascii(s: Seq<u8>) -> bool {
    forall|i: int| 0 <= i < s.len() ==> is_ascii_byte(#[trigger] s[i])
}

/// True when every byte of `s` is an uppercase ASCII letter or digit.
pub open spec fn all_upper_or_digit(s: Seq<u8>) -> bool {
    forall|i: int| 0 <= i < s.len() ==> is_upper_or_digit(#[trigger] s[i])
}

/// An owned byte string whose bytes are all ASCII.
#[allow(non_camel_case_types)]
#[derive(Debug, Eq, PartialEq)]
pub struct gb_str {
    bytes: Vec<u8>,
}

impl View for gb_str {
    type V = Seq<u8>;

    closed spec fn view(&self) -> Seq<u8> {
        self.bytes@
    }
}

impl gb_str {
    /// The well-formedness every constructor establishes: only ASCII bytes.
    pub open spec fn wf(&self) -> bool {
        all_ascii(self@)
    }

    /// The empty byte string.
    pub fn empty() -> (r: Self)
        ensures
            r@ == Seq::<u8>::empty(),
            r.wf(),
    {
        gb_str { bytes: Vec::new() }
    }

    /// Accepts exactly the byte slices whose bytes are all ASCII.
    pub fn try_from_ascii(bytes: &[u8]) -> (r: Result<Self, JayBoyError>)
        ensures
            all_ascii(bytes@) ==> (r matches Ok(t) && t@ == bytes@ && t.wf()),
            !all_ascii(bytes@) ==> r == Err::<gb_str, JayBoyError>(JayBoyError::InvalidText),
    {
        let mut i: usize = 0;
        while i < bytes.len()
            invariant
                0 <= i <= bytes@.len(),
                forall|j: int| 0 <= j < i ==> is_ascii_byte(#[trigger] bytes@[j]),
            decreases bytes@.len() - i,
        {
            if bytes[i] >= 128 {
                return Err(JayBoyError::InvalidText);
            }
            i = i + 1;
        }
        let mut v: Vec<u8> = Vec::new();
        let mut k: usize = 0;
        while k < bytes.len()
            invariant
                0 <= k <= bytes@.len(),
                v@ == bytes@.subrange(0, k as int),
            decreases bytes@.len() - k,
        {
            v.push(bytes[k]);
            k = k + 1;
        }
        proof {
            assert(v@ =~= bytes@);
        }
        Ok(gb_str { bytes: v })
    }

    /// Accepts exactly the byte slices made of uppercase ASCII letters and
    /// digits — the alphabet of manufacturer codes.
    pub fn try_from_uppercase_ascii(bytes: &[u8]) -> (r: Result<Self, JayBoyError>)
        ensures
            all_upper_or_digit(bytes@) ==> (r matches Ok(t) && t@ == bytes@ && t.wf()),
            !all_upper_or_digit(bytes@) ==> r == Err::<gb_str, JayBoyError>(
                JayBoyError::InvalidText,
            ),
    {
        let mut i: usize = 0;
        while i < bytes.len()
            invariant
                0 <= i <= bytes@.len(),
                forall|j: int| 0 <= j < i ==> is_upper_or_digit(#[trigger] bytes@[j]),
            decreases bytes@.len() - i,
        {
            let b = bytes[i];
            if !((0x41 <= b && b <= 0x5A) || (0x30 <= b && b <= 0x39)) {
                return Err(JayBoyError::InvalidText);
            }
            i = i + 1;
        }
        match Self::try_from_ascii(bytes) {
            Ok(t) => Ok(t),
            Err(e) => Err(e),
        }
    }

    pub fn len(&self) -> (r: usize)
        ensures
            r == self@.len(),
    {
        self.bytes.len()
    }

    /// The text as a `String`, one `char` per ASCII byte.
    pub fn to_text(&self) -> (r: String)
        requires
            self.wf(),
        ensures
            r@.len() == self@.len(),
            forall|i: int| 0 <= i < self@.len() ==> r@[i] == self@[i] as char,
    {
        let copy = self.bytes.clone();
        ascii_bytes_to_string(copy)
    }
}

/// Relies on `String::from_utf8`: ASCII bytes are valid UTF-8 and decode to
/// the chars with the same code points, one per byte.
#[verifier::external_body]
pub(crate) fn ascii_bytes_to_string(bytes: Vec<u8>) -> (r: String)
    requires
        all_ascii(bytes@),
    ensures
        r@.len() == bytes@.len(),
        forall|i: int| 0 <= i < bytes@.len() ==> r@[i] == bytes@[i] as char,
{
    match String::from_utf8(bytes) {
        Ok(s) => s,
        Err(_) => String::new(),
    }
}

/// A borrowed byte string checked to hold only ASCII bytes.
#[derive(Eq, PartialEq)]
pub struct GBText<'a> {
    bytes: &'a [u8],
}

impl<'a> GBText<'a> {
    /// The bytes this text holds.
    pub closed spec fn contents(&self) -> Seq<u8> {
        self.bytes@
    }

    /// Accepts exactly the byte slices whose bytes are all ASCII.
    pub fn try_from_ascii<'b: 'a>(value: &'b [u8]) -> (r: Result<Self, JayBoyError>)
        ensures
            all_ascii(value@) ==> (r matches Ok(t) && t.contents() == value@),
            !all_ascii(value@) ==> r == Err::<GBText<'a>, JayBoyError>(JayBoyError::InvalidText),
    {
        let mut i: usize = 0;
        while i < value.len()
            invariant
                0 <= i <= value@.len(),
                forall|j: int| 0 <= j < i ==> is_ascii_byte(#[trigger] value@[j]),
            decreases value@.len() - i,
        {
            if value[i] > 127 {
                return Err(JayBoyError::InvalidText);
            }
            i = i + 1;
        }
        Ok(GBText { bytes: value })
    }

    pub fn len(&self) -> (r: usize)
        ensures
            r == self.contents().len(),
    {
        self.bytes.len()
    }
}

} // verus!
