//! The cartridge: a read-only program image behind the lower half of the
//! address space, and 8 KiB of cartridge RAM.
//!
//! The cartridge modelled here carries no bank controller. The first 32 KiB
//! of the image are visible. A store into the image's range, which is what a
//! controller would take as a bank selection, changes no byte that can be
//! read; the cartridge keeps a record of each such store, which exists for
//! the proofs only and costs nothing when the program runs.

use vstd::prelude::*;

verus! {

/// A cartridge: its program image and its RAM.
pub struct GameROM {
    pub data: Vec<u8>,
    pub ram: [u8; 8192],
    /// The stores that the image's range was handed, oldest first, each as
    /// address and byte.
    pub selects: Ghost<Seq<(u16, u8)>>,
}

/// What a cartridge holds, as two sequences of bytes.
#[verifier::ext_equal]
pub struct CartView {
    pub image: Seq<u8>,
    pub ram: Seq<u8>,
    /// The stores that the image's range was handed, oldest first.
    pub selects: Seq<(u16, u8)>,
}

/// A sequence of `n` zero bytes.
pub open spec fn zeros(n: nat) -> Seq<u8> {
    Seq::new(n, |i: int| 0u8)
}

impl CartView {
    /// The cartridge RAM has its full size.
    pub open spec fn wf(self) -> bool {
        self.ram.len() == 8192
    }

    /// The byte seen at `addr` of the image's window: the image's byte, or
    /// `0xFF` past the end of the image or of the window.
    pub open spec fn read(self, addr: u16) -> u8 {
        if addr < 0x8000 && addr < self.image.len() {
            self.image[addr as int]
        } else {
            0xFF
        }
    }

    /// The cartridge after it was handed a store into the image's range: the
    /// store is on record, image and RAM are as they were.
    pub open spec fn write(self, addr: u16, val: u8) -> CartView {
        CartView { selects: self.selects.push((addr, val)), ..self }
    }

    /// The byte of cartridge RAM at `offset`, or `0xFF` past its end.
    pub open spec fn read_ram(self, offset: u16) -> u8 {
        if offset < 8192 {
            self.ram[offset as int]
        } else {
            0xFF
        }
    }

    /// The cartridge after `val` is stored at `offset` of its RAM; a store
    /// past the end changes nothing.
    pub open spec fn write_ram(self, offset: u16, val: u8) -> CartView {
        if offset < 8192 {
            CartView { ram: self.ram.update(offset as int, val), ..self }
        } else {
            self
        }
    }
}

impl View for GameROM {
    type V = CartView;

    open spec fn view(&self) -> CartView {
        CartView { image: self.data@, ram: self.ram@, selects: self.selects@ }
    }
}

impl GameROM {
    /// A cartridge with the given program image, zeroed RAM and no store on
    /// record.
    pub fn build(data: Vec<u8>) -> (rom: GameROM)
        ensures
            rom@ == (CartView { image: data@, ram: zeros(8192), selects: Seq::empty() }),
            rom@.wf(),
    {
        GameROM { data, ram: [0u8; 8192], selects: Ghost(Seq::empty()) }
    }

    /// Reads a byte of the program image.
    pub fn read(&self, addr: u16) -> (value: u8)
        ensures
            value == self@.read(addr),
    {
        if addr < 0x8000 && (addr as usize) < self.data.len() {
            self.data[addr as usize]
        } else {
            0xFF
        }
    }

    /// Takes a store into the program image's range. Without a bank
    /// controller there is nothing to select: the store goes on record and
    /// changes nothing else.
    pub fn write(&mut self, addr: u16, val: u8)
        ensures
            final(self)@ == old(self)@.write(addr, val),
    {
        self.selects = Ghost(self.selects@.push((addr, val)));
    }

    /// Reads a byte of cartridge RAM.
    pub fn read_ram(&self, offset: u16) -> (value: u8)
        ensures
            value == self@.read_ram(offset),
    {
        if offset < 8192 {
            self.ram[offset as usize]
        } else {
            0xFF
        }
    }

    /// Stores a byte in cartridge RAM.
    pub fn write_ram(&mut self, offset: u16, val: u8)
        ensures
            final(self)@ == old(self)@.write_ram(offset, val),
    {
        if offset < 8192 {
            self.ram[offset as usize] = val;
        }
    }
}

} // verus!
