//! The CPU's four condition flags, packed into the high nibble of a byte.
//! The low nibble is always zero; any conversion from a raw byte masks it
//! off.

use vstd::prelude::*;

verus! {

/// Zero, Subtract, Half-carry and Carry, packed as bits 7..4 of a byte.
#[derive(Debug, Default, Clone, Copy, PartialEq, Eq, PartialOrd, Ord, Hash, Structural)]
pub struct CpuFlags {
    bits: u8,
}

impl CpuFlags {
    /// The packed byte: high nibble the flags, low nibble zero.
    pub closed spec fn spec_bits(&self) -> u8 {
        self.bits
    }

    /// The invariant every constructor establishes: the low nibble is zero.
    pub open spec fn wf(&self) -> bool {
        self.spec_bits() & 0x0F == 0
    }

    /// No flag set.
    pub fn empty() -> (r: Self)
        ensures
            r.spec_bits() == 0,
            r.wf(),
    {
        proof {
            assert(0u8 & 0x0F == 0) by (bit_vector);
        }
        CpuFlags { bits: 0 }
    }

    /// No flag set; the value raw byte conversions degrade to.
    pub fn none() -> (r: Self)
        ensures
            r.spec_bits() == 0,
            r.wf(),
    {
        CpuFlags::empty()
    }

    /// Keeps the four flag bits of `value` and clears the rest.
    pub fn from_bits_truncate(value: u8) -> (r: Self)
        ensures
            r.spec_bits() == value & 0xF0,
            r.wf(),
    {
        proof {
            assert((value & 0xF0) & 0x0F == 0) by (bit_vector);
        }
        CpuFlags { bits: value & 0xF0 }
    }

    /// The packed byte.
    pub fn bits(&self) -> (r: u8)
        ensures
            r == self.spec_bits(),
    {
        self.bits
    }

    /// The Zero flag, bit 7.
    pub fn z(&self) -> (r: bool)
        ensures
            r == (self.spec_bits() & 0x80 != 0),
    {
        self.bits & 0x80 != 0
    }

    /// The Subtract flag, bit 6.
    pub fn s(&self) -> (r: bool)
        ensures
            r == (self.spec_bits() & 0x40 != 0),
    {
        self.bits & 0x40 != 0
    }

    /// The Half-carry flag, bit 5.
    pub fn h(&self) -> (r: bool)
        ensures
            r == (self.spec_bits() & 0x20 != 0),
    {
        self.bits & 0x20 != 0
    }

    /// The Carry flag, bit 4.
    pub fn c(&self) -> (r: bool)
        ensures
            r == (self.spec_bits() & 0x10 != 0),
    {
        self.bits & 0x10 != 0
    }
}

impl From<u8> for CpuFlags {
    fn from(value: u8) -> (r: Self) {
        CpuFlags::from_bits_truncate(value)
    }
}

impl vstd::std_specs::convert::FromSpecImpl<u8> for CpuFlags {
    open spec fn obeys_from_spec() -> bool {
        true
    }

    closed spec fn from_spec(t: u8) -> Self {
        CpuFlags { bits: t & 0xF0 }
    }
}

impl From<CpuFlags> for u8 {
    fn from(value: CpuFlags) -> (r: Self) {
        value.bits
    }
}

impl vstd::std_specs::convert::FromSpecImpl<CpuFlags> for u8 {
    open spec fn obeys_from_spec() -> bool {
        true
    }

    open spec fn from_spec(t: CpuFlags) -> Self {
        t.spec_bits()
    }
}

} // verus!
