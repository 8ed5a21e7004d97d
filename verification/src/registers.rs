//! The CPU register file: eight 8-bit registers, the stack pointer and the
//! program counter, with the paired 16-bit views `AF`, `BC`, `DE` and `HL`.

use vstd::prelude::*;

use crate::cpu_flags::CpuFlags;

verus! {

/// The register file.  `f` keeps its low nibble zero.
#[derive(Debug, Default, Eq, PartialEq, Clone, Copy)]
pub struct Registers {
    /// Accumulator.
    pub a: u8,
    /// Flags.
    pub f: CpuFlags,
    /// B, the high byte of BC.
    pub b: u8,
    /// C, the low byte of BC.
    pub c: u8,
    /// D, the high byte of DE.
    pub d: u8,
    /// E, the low byte of DE.
    pub e: u8,
    /// H, the high byte of HL.
    pub h: u8,
    /// L, the low byte of HL.
    pub l: u8,
    /// Stack pointer.
    pub sp: u16,
    /// Program counter.
    pub pc: u16,
}

impl Registers {
    /// The register state before the boot ROM has run: everything zero.
    pub fn pre_boot() -> (r: Self)
        ensures
            r.a == 0 && r.f.spec_bits() == 0 && r.b == 0 && r.c == 0 && r.d == 0 && r.e == 0
                && r.h == 0 && r.l == 0 && r.pc == 0 && r.sp == 0,
    {
        Registers {
            a: 0x00,
            f: CpuFlags::empty(),
            b: 0x00,
            c: 0x00,
            d: 0x00,
            e: 0x00,
            h: 0x00,
            l: 0x00,
            pc: 0x0000,
            sp: 0x0000,
        }
    }

    /// The register state right after the boot ROM has run.
    pub fn post_boot() -> (r: Self)
        ensures
            r.a == 0x01 && r.f.spec_bits() == 0xB0 && r.b == 0x00 && r.c == 0x13 && r.d == 0x00
                && r.e == 0xD8 && r.h == 0x01 && r.l == 0x4D && r.pc == 0x0100 && r.sp == 0xFFFE,
    {
        proof {
            assert(0xB0u8 & 0xF0 == 0xB0) by (bit_vector);
        }
        Registers {
            a: 0x01,
            f: CpuFlags::from_bits_truncate(0xB0),
            b: 0x00,
            c: 0x13,
            d: 0x00,
            e: 0xD8,
            h: 0x01,
            l: 0x4D,
            pc: 0x0100,
            sp: 0xFFFE,
        }
    }

    /// `A` and `F` read together as one 16-bit value.
    pub fn get_af(&self) -> (r: u16)
        ensures
            r == self.a * 256 + self.f.spec_bits(),
    {
        (self.a as u16) * 256 + (self.f.bits() as u16)
    }

    /// Writes `A` and `F` from one 16-bit value; the low nibble of `F` is
    /// forced to zero.
    pub fn set_af(&mut self, value: u16)
        ensures
            final(self).a == value / 256,
            final(self).f.spec_bits() == (value % 256) as u8 & 0xF0,
            final(self).f.wf(),
            *final(self) == (Registers {
                a: final(self).a,
                f: final(self).f,
                ..*old(self)
            }),
    {
        self.a = (value / 256) as u8;
        self.f = CpuFlags::from_bits_truncate((value % 256) as u8);
    }

    /// `B` and `C` read together as one 16-bit value.
    pub fn get_bc(&self) -> (r: u16)
        ensures
            r == self.b * 256 + self.c,
    {
        (self.b as u16) * 256 + (self.c as u16)
    }

    pub fn set_bc(&mut self, value: u16)
        ensures
            final(self).b == value / 256,
            final(self).c == value % 256,
            *final(self) == (Registers { b: final(self).b, c: final(self).c, ..*old(self) }),
    {
        self.b = (value / 256) as u8;
        self.c = (value % 256) as u8;
    }

    /// `D` and `E` read together as one 16-bit value.
    pub fn get_de(&self) -> (r: u16)
        ensures
            r == self.d * 256 + self.e,
    {
        (self.d as u16) * 256 + (self.e as u16)
    }

    pub fn set_de(&mut self, value: u16)
        ensures
            final(self).d == value / 256,
            final(self).e == value % 256,
            *final(self) == (Registers { d: final(self).d, e: final(self).e, ..*old(self) }),
    {
        self.d = (value / 256) as u8;
        self.e = (value % 256) as u8;
    }

    /// `H` and `L` read together as one 16-bit value.
    pub fn get_hl(&self) -> (r: u16)
        ensures
            r == self.h * 256 + self.l,
    {
        (self.h as u16) * 256 + (self.l as u16)
    }

    pub fn set_hl(&mut self, value: u16)
        ensures
            final(self).h == value / 256,
            final(self).l == value % 256,
            *final(self) == (Registers { h: final(self).h, l: final(self).l, ..*old(self) }),
    {
        self.h = (value / 256) as u8;
        self.l = (value % 256) as u8;
    }
}

} // verus!
