//! Bounds-checked access to a contiguous byte region.
//!
//! `VecMemory` owns its bytes and offers single-byte and range reads (and
//! writes), addressed by 16-bit index or by a pair of range endpoints.  Every
//! access outside the valid region fails with an explicit error — a start
//! past the end is kept distinct from an end past the end, so a caller can
//! tell a truncated file from a bad range.

use vstd::prelude::*;

use crate::errors::JayBoyError;

verus! {

/// One endpoint of a byte range: a closed bound, an open bound, or no bound.
///
/// An absent start resolves to `0`; an absent end resolves to the buffer's
/// length.
#[derive(Debug, Clone, Copy, PartialEq, Eq, Structural)]
pub enum ByteBound {
    Included(u16),
    Excluded(u16),
    Unbounded,
}

/// The inclusive start index that a start bound resolves to.
pub open spec fn resolve_start(b: ByteBound) -> int {
    match b {
        ByteBound::Included(v) => v as int,
        ByteBound::Excluded(v) => v as int + 1,
        ByteBound::Unbounded => 0,
    }
}

/// The exclusive end index that an end bound resolves to, in a buffer of
/// length `len`.
pub open spec fn resolve_end(b: ByteBound, len: int) -> int {
    match b {
        ByteBound::Included(v) => v as int + 1,
        ByteBound::Excluded(v) => v as int,
        ByteBound::Unbounded => len,
    }
}

/// What a range read of `[start, end)` over bytes `s` must return:
/// the distinct start / end errors, or the bytes of the range.
pub open spec fn spec_get_bytes(s: Seq<u8>, start: ByteBound, end: ByteBound) -> Result<
    Seq<u8>,
    JayBoyError,
> {
    let lo = resolve_start(start);
    let hi = resolve_end(end, s.len() as int);
    if lo >= s.len() {
        Err(JayBoyError::StartOutOfRange)
    } else if hi > s.len() || hi < lo {
        Err(JayBoyError::EndOutOfRange)
    } else {
        Ok(s.subrange(lo, hi))
    }
}

/// Read access to a byte region.
pub trait ReadOnlyMemory: Sized {
    /// The bytes this region holds.
    spec fn contents(&self) -> Seq<u8>;

    fn len(&self) -> (r: usize)
        ensures
            r == self.contents().len(),
    ;

    fn is_empty(&self) -> (r: bool)
        ensures
            r == (self.contents().len() == 0),
    ;

    fn get_byte(&self, index: u16) -> (r: Result<u8, JayBoyError>)
        ensures
            index < self.contents().len() ==> r == Ok::<u8, JayBoyError>(
                self.contents()[index as int],
            ),
            index >= self.contents().len() ==> r == Err::<u8, JayBoyError>(
                JayBoyError::IndexOutOfRange,
            ),
    ;

    fn get_bytes(&self, start: ByteBound, end: ByteBound) -> (r: Result<&[u8], JayBoyError>)
        ensures
            (match r {
                Ok(b) => spec_get_bytes(self.contents(), start, end) == Ok::<Seq<u8>, JayBoyError>(
                    b@,
                ),
                Err(e) => spec_get_bytes(self.contents(), start, end) == Err::<Seq<u8>, JayBoyError>(
                    e,
                ),
            }),
    ;
}

/// Write access to a byte region, on top of read access.
pub trait ReadWriteMemory: ReadOnlyMemory {
    fn set_byte(&mut self, index: u16, byte: u8) -> (r: Result<(), JayBoyError>)
        ensures
            index < old(self).contents().len() ==> r == Ok::<(), JayBoyError>(())
                && final(self).contents() == old(self).contents().update(index as int, byte),
            index >= old(self).contents().len() ==> r == Err::<(), JayBoyError>(
                JayBoyError::IndexOutOfRange,
            ) && final(self).contents() == old(self).contents(),
    ;

    fn set_bytes(&mut self, start: ByteBound, end: ByteBound, bytes: &[u8]) -> (r: Result<
        (),
        JayBoyError,
    >)
        ensures
            (match r {
                Ok(()) => {
                    let lo = resolve_start(start);
                    let hi = resolve_end(end, old(self).contents().len() as int);
                    &&& spec_get_bytes(old(self).contents(), start, end) matches Ok(range)
                        && range.len() == bytes@.len()
                    &&& final(self).contents() == old(self).contents().subrange(0, lo) + bytes@
                        + old(self).contents().subrange(hi, old(self).contents().len() as int)
                },
                Err(e) => {
                    &&& final(self).contents() == old(self).contents()
                    &&& (match spec_get_bytes(old(self).contents(), start, end) {
                        Err(range_err) => e == range_err,
                        Ok(range) => range.len() != bytes@.len() && e
                            == JayBoyError::LengthMismatch,
                    })
                },
            }),
    ;
}

/// An owned byte buffer with bounds-checked access.
#[derive(Debug, Eq, PartialEq, Default)]
pub struct VecMemory(Vec<u8>);

impl VecMemory {
    pub fn new(vec: Vec<u8>) -> (r: Self)
        ensures
            r.contents() == vec@,
    {
        VecMemory(vec)
    }
}

impl ReadOnlyMemory for VecMemory {
    closed spec fn contents(&self) -> Seq<u8> {
        self.0@
    }

    fn len(&self) -> (r: usize) {
        self.0.len()
    }

    fn is_empty(&self) -> (r: bool) {
        self.0.len() == 0
    }

    fn get_byte(&self, index: u16) -> (r: Result<u8, JayBoyError>) {
        let i = index as usize;
        if i < self.0.len() {
            Ok(self.0[i])
        } else {
            Err(JayBoyError::IndexOutOfRange)
        }
    }

    fn get_bytes(&self, start: ByteBound, end: ByteBound) -> (r: Result<&[u8], JayBoyError>) {
        let len = self.0.len();
        let inclusive_start: usize = match start {
            ByteBound::Included(v) => v as usize,
            ByteBound::Excluded(v) => (v as usize) + 1,
            ByteBound::Unbounded => 0,
        };
        if inclusive_start >= len {
            return Err(JayBoyError::StartOutOfRange);
        }
        let exclusive_end: usize = match end {
            ByteBound::Included(v) => (v as usize) + 1,
            ByteBound::Excluded(v) => v as usize,
            ByteBound::Unbounded => len,
        };
        if exclusive_end > len || exclusive_end < inclusive_start {
            return Err(JayBoyError::EndOutOfRange);
        }
        Ok(vstd::slice::slice_subrange(self.0.as_slice(), inclusive_start, exclusive_end))
    }
}

impl ReadWriteMemory for VecMemory {
    fn set_byte(&mut self, index: u16, byte: u8) -> (r: Result<(), JayBoyError>) {
        let i = index as usize;
        if i >= self.0.len() {
            return Err(JayBoyError::IndexOutOfRange);
        }
        self.0.set(i, byte);
        Ok(())
    }

    fn set_bytes(&mut self, start: ByteBound, end: ByteBound, bytes: &[u8]) -> (r: Result<
        (),
        JayBoyError,
    >) {
        let len = self.0.len();
        let inclusive_start: usize = match start {
            ByteBound::Included(v) => v as usize,
            ByteBound::Excluded(v) => (v as usize) + 1,
            ByteBound::Unbounded => 0,
        };
        if inclusive_start >= len {
            return Err(JayBoyError::StartOutOfRange);
        }
        let exclusive_end: usize = match end {
            ByteBound::Included(v) => (v as usize) + 1,
            ByteBound::Excluded(v) => v as usize,
            ByteBound::Unbounded => len,
        };
        if exclusive_end > len || exclusive_end < inclusive_start {
            return Err(JayBoyError::EndOutOfRange);
        }
        if exclusive_end - inclusive_start != bytes.len() {
            return Err(JayBoyError::LengthMismatch);
        }
        let mut i: usize = 0;
        while i < bytes.len()
            invariant
                0 <= i <= bytes@.len(),
                inclusive_start + bytes@.len() <= self.0@.len(),
                inclusive_start + bytes@.len() <= usize::MAX,
                self.0@.len() == old(self).0@.len(),
                forall|j: int|
                    0 <= j < self.0@.len() && !(inclusive_start <= j < inclusive_start + i)
                        ==> self.0@[j] == old(self).0@[j],
                forall|j: int|
                    0 <= j < i ==> self.0@[inclusive_start + j] == bytes@[j],
            decreases bytes@.len() - i,
        {
            self.0.set(inclusive_start + i, bytes[i]);
            i = i + 1;
        }
        proof {
            assert(self.0@ =~= old(self).0@.subrange(0, inclusive_start as int) + bytes@ + old(
                self,
            ).0@.subrange(exclusive_end as int, old(self).0@.len() as int));
        }
        Ok(())
    }
}

/// The full 16-bit address space, with the boot ROM in its first 256
/// bytes.
#[derive(Debug, Eq, PartialEq)]
pub struct Memory {
    bytes: Vec<u8>,
}

impl Memory {
    /// The bytes this memory holds.
    pub closed spec fn contents(&self) -> Seq<u8> {
        self.bytes@
    }

    /// The shape every constructor keeps: exactly 65536 bytes.
    pub open spec fn wf(&self) -> bool {
        self.contents().len() == 0x10000
    }

    /// A zeroed 16-bit address space.
    pub fn new() -> (r: Self)
        ensures
            r.wf(),
            forall|i: int| 0 <= i < 0x10000 ==> r.contents()[i] == 0,
    {
        let bytes = vec![0u8; 0x10000];
        Memory { bytes }
    }

    /// Installs a boot ROM of exactly 256 bytes over the first 256 bytes.
    pub fn set_boot_rom(&mut self, rom: &[u8])
        requires
            old(self).wf(),
            rom@.len() == 256,
        ensures
            final(self).wf(),
            final(self).contents() == rom@ + old(self).contents().subrange(256, 0x10000),
    {
        let mut i: usize = 0;
        while i < 256
            invariant
                self.contents().len() == 0x10000,
                rom@.len() == 256,
                0 <= i <= 256,
                forall|j: int| 0 <= j < i ==> self.contents()[j] == rom@[j],
                forall|j: int| i <= j < 0x10000 ==> self.contents()[j] == old(self).contents()[j],
            decreases 256 - i,
        {
            let byte = *vstd::slice::slice_index_get(rom, i);
            self.bytes.set(i, byte);
            i = i + 1;
        }
        proof {
            assert(self.contents() =~= rom@ + old(self).contents().subrange(256, 0x10000));
        }
    }

    /// The installed boot ROM: the first 256 bytes.
    pub fn get_boot_rom(&self) -> (r: &[u8])
        requires
            self.wf(),
        ensures
            r@ == self.contents().subrange(0, 256),
    {
        vstd::slice::slice_subrange(self.bytes.as_slice(), 0, 256)
    }
}

/// A read-only window onto a borrowed byte slice.
pub struct MemoryArea<'m> {
    memory_area: &'m [u8],
}

impl<'m> MemoryArea<'m> {
    /// The bytes this window shows.
    pub closed spec fn contents(&self) -> Seq<u8> {
        self.memory_area@
    }

    pub fn new(slice: &'m [u8]) -> (r: Self)
        ensures
            r.contents() == slice@,
    {
        Self { memory_area: slice }
    }

    pub fn len(&self) -> (r: usize)
        ensures
            r == self.contents().len(),
    {
        self.memory_area.len()
    }

    pub fn is_empty(&self) -> (r: bool)
        ensures
            r == (self.contents().len() == 0),
    {
        self.memory_area.is_empty()
    }

    /// Reads a bit out of the window's leading bytes: bit `i` lives in byte
    /// `i % 8` under mask `1 << (i / 8)`.
    pub fn get_bit(&self, bit_index: u16) -> (r: bool)
        requires
            bit_index < 64,
            (bit_index % 8) < self.contents().len(),
        ensures
            r == ((self.contents()[(bit_index % 8) as int] & (1u8 << ((bit_index / 8) as u8)))
                != 0),
    {
        let byte_offset = bit_index % 8;
        let shift = (bit_index / 8) as u8;
        assert(shift < 8) by (bit_vector)
            requires
                bit_index < 64 && shift == (bit_index / 8) as u8,
        ;
        let bit_flag: u8 = 1u8 << shift;
        (self.memory_area[byte_offset as usize] & bit_flag) != 0
    }
}

} // verus!
