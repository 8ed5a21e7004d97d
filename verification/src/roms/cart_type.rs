//! The cartridge-type byte, decoded into a capability set: the memory-bank
//! controller generation and the feature flags the cartridge carries.

use vstd::prelude::*;

use crate::errors::JayBoyError;
use crate::formatting::spec_hex_byte;
use crate::formatting::spec_udec;
use crate::formatting::TextBuilder;

verus! {

/// The capability set a cartridge-type byte decodes to.
///
/// `mbc` is the memory-bank-controller generation, `0` where none is named;
/// `huc` is the Hudson controller variant, `0` where none is named.  The
/// flags are independent.  `byte` keeps the raw code the set was decoded
/// from.
#[derive(Debug, Default, Eq, PartialEq, Structural, Clone, Copy)]
pub struct CartridgeType {
    pub byte: u8,
    pub mbc: u8,
    pub ram: bool,
    pub battery: bool,
    pub rom: bool,
    pub mmm01: bool,
    pub timer: bool,
    pub rumble: bool,
    pub sensor: bool,
    pub camera: bool,
    pub tamagochi: bool,
    pub huc: u8,
    pub bootleg: bool,
}

/// The capability set with no capability named, for code `byte`.
pub open spec fn spec_ct_base(byte: u8) -> CartridgeType {
    CartridgeType {
        byte,
        mbc: 0,
        ram: false,
        battery: false,
        rom: false,
        mmm01: false,
        timer: false,
        rumble: false,
        sensor: false,
        camera: false,
        tamagochi: false,
        huc: 0,
        bootleg: false,
    }
}

/// The closed cartridge-type table: what each documented byte decodes to,
/// and `None` for every byte outside the table.
pub open spec fn spec_cartridge_type(byte: u8) -> Option<CartridgeType> {
    let base = spec_ct_base(byte);
    match byte {
        0x00 => Some(CartridgeType { rom: true, ..base }),
        0x01 => Some(CartridgeType { mbc: 1, ..base }),
        0x02 => Some(CartridgeType { mbc: 1, ram: true, ..base }),
        0x03 => Some(CartridgeType { mbc: 1, ram: true, battery: true, ..base }),
        0x05 => Some(CartridgeType { mbc: 2, ..base }),
        0x06 => Some(CartridgeType { mbc: 2, battery: true, ..base }),
        0x08 => Some(CartridgeType { rom: true, ram: true, ..base }),
        0x09 => Some(CartridgeType { rom: true, ram: true, battery: true, ..base }),
        0x0B => Some(CartridgeType { mmm01: true, ..base }),
        0x0C => Some(CartridgeType { mmm01: true, ram: true, ..base }),
        0x0D => Some(CartridgeType { mmm01: true, ram: true, battery: true, ..base }),
        0x0F => Some(CartridgeType { mbc: 3, timer: true, battery: true, ..base }),
        0x10 => Some(CartridgeType { mbc: 3, timer: true, battery: true, ram: true, ..base }),
        0x11 => Some(CartridgeType { mbc: 3, ..base }),
        0x12 => Some(CartridgeType { mbc: 3, ram: true, ..base }),
        0x13 => Some(CartridgeType { mbc: 3, ram: true, battery: true, ..base }),
        0x19 => Some(CartridgeType { mbc: 5, ..base }),
        0x1A => Some(CartridgeType { mbc: 5, ram: true, ..base }),
        0x1B => Some(CartridgeType { mbc: 5, ram: true, battery: true, ..base }),
        0x1C => Some(CartridgeType { mbc: 5, rumble: true, ..base }),
        0x1D => Some(CartridgeType { mbc: 5, rumble: true, ram: true, ..base }),
        0x1E => Some(CartridgeType { mbc: 5, rumble: true, ram: true, battery: true, ..base }),
        0x20 => Some(CartridgeType { mbc: 6, ..base }),
        0x22 => Some(
            CartridgeType { mbc: 7, sensor: true, rumble: true, ram: true, battery: true, ..base },
        ),
        0xFC => Some(CartridgeType { camera: true, ram: true, ..base }),
        0xFD => Some(CartridgeType { tamagochi: true, ..base }),
        0xFE => Some(CartridgeType { huc: 3, ..base }),
        0xFF => Some(CartridgeType { huc: 1, ram: true, battery: true, ..base }),
        _ => None,
    }
}

impl CartridgeType {
    /// The capability set with no capability named, for code `byte`.
    pub fn base(byte: u8) -> (r: CartridgeType)
        ensures
            r == spec_ct_base(byte),
    {
        CartridgeType {
            byte,
            mbc: 0,
            ram: false,
            battery: false,
            rom: false,
            mmm01: false,
            timer: false,
            rumble: false,
            sensor: false,
            camera: false,
            tamagochi: false,
            huc: 0,
            bootleg: false,
        }
    }

    /// Decodes a cartridge-type byte.  The table is closed: every byte
    /// outside it is an error carrying the byte, exactly when
    /// `spec_cartridge_type` has no entry for it.
    pub fn try_from(value: u8) -> (r: Result<CartridgeType, JayBoyError>)
        ensures
            (match r {
                Ok(t) => spec_cartridge_type(value) == Some(t),
                Err(e) => spec_cartridge_type(value) is None && e == JayBoyError::UnknownCartridgeType(
                    value,
                ),
            }),
    {
        let base = CartridgeType::base(value);
        match value {
            0x00 => Ok(CartridgeType { rom: true, ..base }),
            0x01 => Ok(CartridgeType { mbc: 1, ..base }),
            0x02 => Ok(CartridgeType { mbc: 1, ram: true, ..base }),
            0x03 => Ok(CartridgeType { mbc: 1, ram: true, battery: true, ..base }),
            0x05 => Ok(CartridgeType { mbc: 2, ..base }),
            0x06 => Ok(CartridgeType { mbc: 2, battery: true, ..base }),
            0x08 => Ok(CartridgeType { rom: true, ram: true, ..base }),
            0x09 => Ok(CartridgeType { rom: true, ram: true, battery: true, ..base }),
            0x0B => Ok(CartridgeType { mmm01: true, ..base }),
            0x0C => Ok(CartridgeType { mmm01: true, ram: true, ..base }),
            0x0D => Ok(CartridgeType { mmm01: true, ram: true, battery: true, ..base }),
            0x0F => Ok(CartridgeType { mbc: 3, timer: true, battery: true, ..base }),
            0x10 => Ok(CartridgeType { mbc: 3, timer: true, battery: true, ram: true, ..base }),
            0x11 => Ok(CartridgeType { mbc: 3, ..base }),
            0x12 => Ok(CartridgeType { mbc: 3, ram: true, ..base }),
            0x13 => Ok(CartridgeType { mbc: 3, ram: true, battery: true, ..base }),
            0x19 => Ok(CartridgeType { mbc: 5, ..base }),
            0x1A => Ok(CartridgeType { mbc: 5, ram: true, ..base }),
            0x1B => Ok(CartridgeType { mbc: 5, ram: true, battery: true, ..base }),
            0x1C => Ok(CartridgeType { mbc: 5, rumble: true, ..base }),
            0x1D => Ok(CartridgeType { mbc: 5, rumble: true, ram: true, ..base }),
            0x1E => Ok(CartridgeType { mbc: 5, rumble: true, ram: true, battery: true, ..base }),
            0x20 => Ok(CartridgeType { mbc: 6, ..base }),
            0x22 => Ok(
                CartridgeType {
                    mbc: 7,
                    sensor: true,
                    rumble: true,
                    ram: true,
                    battery: true,
                    ..base
                },
            ),
            0xFC => Ok(CartridgeType { camera: true, ram: true, ..base }),
            0xFD => Ok(CartridgeType { tamagochi: true, ..base }),
            0xFE => Ok(CartridgeType { huc: 3, ..base }),
            0xFF => Ok(CartridgeType { huc: 1, ram: true, battery: true, ..base }),
            _ => Err(JayBoyError::UnknownCartridgeType(value)),
        }
    }

    /// What `describe` renders: the raw code, the controller generation,
    /// and one `+NAME` per flag that is set.
    pub open spec fn spec_describe(self) -> Seq<char> {
        if self.bootleg {
            "BOOTLEG"@
        } else {
            spec_hex_byte(self.byte) + ": MBC"@ + spec_udec(self.mbc as nat) + (if self.ram {
                "+RAM"@
            } else {
                Seq::<char>::empty()
            }) + (if self.battery {
                "+BATTERY"@
            } else {
                Seq::<char>::empty()
            }) + (if self.rom {
                "+ROM"@
            } else {
                Seq::<char>::empty()
            }) + (if self.mmm01 {
                "+MMM01"@
            } else {
                Seq::<char>::empty()
            }) + (if self.timer {
                "+TIMER"@
            } else {
                Seq::<char>::empty()
            }) + (if self.rumble {
                "+RUMBLE"@
            } else {
                Seq::<char>::empty()
            }) + (if self.sensor {
                "+SENSOR"@
            } else {
                Seq::<char>::empty()
            }) + (if self.camera {
                "+CAMERA"@
            } else {
                Seq::<char>::empty()
            }) + (if self.tamagochi {
                "+TAMAGOCHI"@
            } else {
                Seq::<char>::empty()
            }) + (if self.huc > 0 {
                "+HUC"@ + spec_udec(self.huc as nat)
            } else {
                Seq::<char>::empty()
            })
        }
    }

    /// The capability set as text, such as `0x13: MBC3+RAM+BATTERY`.
    #[verifier::spinoff_prover]
    #[verifier::rlimit(100)]
    pub fn describe(&self) -> (r: String)
        ensures
            r@ == self.spec_describe(),
    {
        if self.bootleg {
            let mut b = TextBuilder::new();
            b.append("BOOTLEG");
            let r = b.build_string();
            proof {
                assert(r@ =~= self.spec_describe());
            }
            return r;
        }
        let mut b = TextBuilder::new();
        b.append_hex_byte(self.byte);
        b.append(": MBC");
        b.append_udec(self.mbc as u64);
        append_when(&mut b, self.ram, "+RAM");
        append_when(&mut b, self.battery, "+BATTERY");
        append_when(&mut b, self.rom, "+ROM");
        append_when(&mut b, self.mmm01, "+MMM01");
        append_when(&mut b, self.timer, "+TIMER");
        append_when(&mut b, self.rumble, "+RUMBLE");
        append_when(&mut b, self.sensor, "+SENSOR");
        append_when(&mut b, self.camera, "+CAMERA");
        append_when(&mut b, self.tamagochi, "+TAMAGOCHI");
        if self.huc > 0 {
            b.append("+HUC");
            b.append_udec(self.huc as u64);
        }
        let r = b.build_string();
        proof {
            assert(r@ =~= self.spec_describe());
        }
        r
    }
}

/// Appends `text` exactly when `cond` holds.
fn append_when(b: &mut TextBuilder, cond: bool, text: &str)
    ensures
        final(b)@ == old(b)@ + (if cond {
            text@
        } else {
            Seq::<char>::empty()
        }),
{
    if cond {
        b.append(text);
    } else {
        proof {
            assert(b@ =~= b@ + Seq::<char>::empty());
        }
    }
}

} // verus!
