//! The I/O register file behind `0xFF00..=0xFF4B`.
//!
//! Each register is a plain byte latch here: a load returns what was last
//! stored. What a device does with its registers is the embedding program's
//! business.

use crate::rom::zeros;
use vstd::prelude::*;

verus! {

/// The I/O registers, indexed by the low byte of their address.
pub struct IoPorts {
    pub regs: [u8; 76],
}

/// The byte that register `reg` of the register file `regs` returns: its
/// latch, or `0xFF` where there is no register.
pub open spec fn port_read(regs: Seq<u8>, reg: u8) -> u8 {
    if reg < 76 {
        regs[reg as int]
    } else {
        0xFF
    }
}

/// The register file after `val` is stored in register `reg`; a store where
/// there is no register changes nothing.
pub open spec fn port_write(regs: Seq<u8>, reg: u8, val: u8) -> Seq<u8> {
    if reg < 76 {
        regs.update(reg as int, val)
    } else {
        regs
    }
}

impl View for IoPorts {
    type V = Seq<u8>;

    open spec fn view(&self) -> Seq<u8> {
        self.regs@
    }
}

impl IoPorts {
    /// A register file with every latch zero.
    pub fn build() -> (io: IoPorts)
        ensures
            io@ == zeros(76),
    {
        IoPorts { regs: [0u8; 76] }
    }

    /// Loads from register `reg`.
    pub fn read(&self, reg: u8) -> (value: u8)
        ensures
            value == port_read(self@, reg),
    {
        if reg < 76 {
            self.regs[reg as usize]
        } else {
            0xFF
        }
    }

    /// Stores `val` in register `reg`.
    pub fn write(&mut self, reg: u8, val: u8)
        ensures
            final(self)@ == port_write(old(self)@, reg, val),
    {
        if reg < 76 {
            self.regs[reg as usize] = val;
        }
    }
}

} // verus!
