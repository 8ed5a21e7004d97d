//! A tabulated opcode description: raw value, mnemonic, encoded length and
//! clock time.

use vstd::prelude::*;

verus! {

/// One opcode-table entry.
pub struct OpCode {
    pub value: u8,
    pub name: &'static str,
    pub length: u8,
    pub time: u8,
}

impl OpCode {
    pub fn new(value: u8, name: &'static str, length: u8, time: u8) -> (r: Self)
        ensures
            r.value == value,
            r.name == name,
            r.length == length,
            r.time == time,
    {
        Self { value, name, length, time }
    }
}

} // verus!
