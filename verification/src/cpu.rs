//! The processor shell: a register file and a memory.  Execution itself is
//! out of scope — nothing here runs instructions.

use vstd::prelude::*;

use crate::memory::ReadOnlyMemory;
use crate::memory::VecMemory;
use crate::registers::Registers;

verus! {

/// A processor: registers and memory, both in their power-on state when
/// freshly built.
pub struct CPU {
    pub registers: Registers,
    pub memory: VecMemory,
}

impl CPU {
    /// A processor with zeroed registers and empty memory.
    pub fn new() -> (r: Self)
        ensures
            r.registers.a == 0 && r.registers.f.spec_bits() == 0 && r.registers.b == 0
                && r.registers.c == 0 && r.registers.d == 0 && r.registers.e == 0
                && r.registers.h == 0 && r.registers.l == 0 && r.registers.pc == 0
                && r.registers.sp == 0,
            r.memory.contents().len() == 0,
    {
        CPU { registers: Registers::pre_boot(), memory: VecMemory::new(Vec::new()) }
    }
}

} // verus!
