//! The register file: seven general 8-bit registers, the flag register, the
//! stack pointer and the program counter, with 16-bit views of register pairs.

use crate::bits::{high, high_byte, join, low, low_byte, word};
use vstd::prelude::*;

verus! {

/// Names of the 8-bit registers.
#[derive(Clone, Copy, Debug, PartialEq, Eq, Structural)]
pub enum Reg8 {
    A,
    F,
    B,
    C,
    D,
    E,
    H,
    L,
}

/// Names of the 16-bit registers and register pairs.
#[derive(Clone, Copy, Debug, PartialEq, Eq, Structural)]
pub enum Reg16 {
    AF,
    BC,
    DE,
    HL,
    SP,
}

/// Mask of the zero flag in the flag register.
pub const ZERO_BIT: u8 = 0x80;

/// Mask of the subtract flag in the flag register.
pub const SUBTRACT_BIT: u8 = 0x40;

/// Mask of the half-carry flag in the flag register.
pub const HALF_CARRY_BIT: u8 = 0x20;

/// Mask of the carry flag in the flag register.
pub const CARRY_BIT: u8 = 0x10;

/// The four condition flags, as booleans.
#[derive(Clone, Copy, Debug, PartialEq, Eq, Structural)]
pub struct Flags {
    pub zero: bool,
    pub subtract: bool,
    pub half_carry: bool,
    pub carry: bool,
}

/// The masks of the four flags, as arithmetic on the flag register byte.
pub proof fn lemma_flag_masks(z: u8, n: u8, h: u8, c: u8, b: u8)
    by (bit_vector)
    requires
        z == 0 || z == 0x80,
        n == 0 || n == 0x40,
        h == 0 || h == 0x20,
        c == 0 || c == 0x10,
    ensures
        z | n | h | c == z + n + h + c,
        z + n + h + c < 0x100,
        ((z + n + h + c) as u8 >= 0x80) == (z == 0x80),
        ((z + n + h + c) as u8 % 0x80 >= 0x40) == (n == 0x40),
        ((z + n + h + c) as u8 % 0x40 >= 0x20) == (h == 0x20),
        ((z + n + h + c) as u8 % 0x20 >= 0x10) == (c == 0x10),
        (z + n + h + c) as u8 % 0x10 == 0,
        (if b >= 0x80 { 0x80u8 } else { 0u8 }) + (if b % 0x80 >= 0x40 { 0x40u8 } else { 0u8 }) + (
        if b % 0x40 >= 0x20 { 0x20u8 } else { 0u8 }) + (if b % 0x20 >= 0x10 { 0x10u8 } else { 0u8 })
            == b - b % 0x10,
        (b & 0x80 != 0) == (b >= 0x80),
        (b & 0x40 != 0) == (b % 0x80 >= 0x40),
        (b & 0x20 != 0) == (b % 0x40 >= 0x20),
        (b & 0x10 != 0) == (b % 0x20 >= 0x10),
        b & 0xF0 == b - b % 0x10,
{
}

impl Flags {
    /// The flag register byte that holds these flags: zero in bit 7,
    /// subtract in bit 6, half-carry in bit 5, carry in bit 4, the lower
    /// nibble clear.
    pub open spec fn bits(self) -> u8 {
        ((if self.zero { 0x80int } else { 0 }) + (if self.subtract { 0x40int } else { 0 }) + (
        if self.half_carry { 0x20int } else { 0 }) + (if self.carry { 0x10int } else { 0 })) as u8
    }

    /// The flags that a flag register byte holds; its lower nibble is ignored.
    pub open spec fn from_bits(b: u8) -> Flags {
        Flags {
            zero: b >= 0x80,
            subtract: b % 0x80 >= 0x40,
            half_carry: b % 0x40 >= 0x20,
            carry: b % 0x20 >= 0x10,
        }
    }

    /// Packs the flags into a flag register byte.
    pub fn to_byte(self) -> (b: u8)
        ensures
            b == self.bits(),
    {
        let z: u8 = if self.zero { ZERO_BIT } else { 0 };
        let n: u8 = if self.subtract { SUBTRACT_BIT } else { 0 };
        let h: u8 = if self.half_carry { HALF_CARRY_BIT } else { 0 };
        let c: u8 = if self.carry { CARRY_BIT } else { 0 };
        proof {
            lemma_flag_masks(z, n, h, c, 0);
        }
        z | n | h | c
    }

    /// Reads the flags out of a flag register byte.
    pub fn from_byte(b: u8) -> (f: Flags)
        ensures
            f == Flags::from_bits(b),
    {
        proof {
            lemma_flag_masks(0, 0, 0, 0, b);
        }
        Flags {
            zero: b & ZERO_BIT != 0,
            subtract: b & SUBTRACT_BIT != 0,
            half_carry: b & HALF_CARRY_BIT != 0,
            carry: b & CARRY_BIT != 0,
        }
    }

    /// Packing flags and reading them back gives the same flags; reading a
    /// byte and packing the flags keeps its upper nibble and clears the lower.
    pub proof fn lemma_round_trip(self, b: u8)
        ensures
            Flags::from_bits(self.bits()) == self,
            self.bits() % 0x10 == 0,
            Flags::from_bits(b).bits() == b - b % 0x10,
    {
        let z: u8 = if self.zero { 0x80 } else { 0 };
        let n: u8 = if self.subtract { 0x40 } else { 0 };
        let h: u8 = if self.half_carry { 0x20 } else { 0 };
        let c: u8 = if self.carry { 0x10 } else { 0 };
        lemma_flag_masks(z, n, h, c, b);
    }
}

/// The register file.
#[derive(Clone, Copy, Debug, PartialEq, Eq, Structural)]
pub struct Registers {
    pub a: u8,
    pub f: u8,
    pub b: u8,
    pub c: u8,
    pub d: u8,
    pub e: u8,
    pub h: u8,
    pub l: u8,
    pub sp: u16,
    pub pc: u16,
}

impl Registers {
    /// The byte held in register `r`.
    pub open spec fn reg(self, r: Reg8) -> u8 {
        match r {
            Reg8::A => self.a,
            Reg8::F => self.f,
            Reg8::B => self.b,
            Reg8::C => self.c,
            Reg8::D => self.d,
            Reg8::E => self.e,
            Reg8::H => self.h,
            Reg8::L => self.l,
        }
    }

    /// This register file with register `r` holding `v`.
    pub open spec fn with_reg(self, r: Reg8, v: u8) -> Registers {
        match r {
            Reg8::A => Registers { a: v, ..self },
            Reg8::F => Registers { f: v, ..self },
            Reg8::B => Registers { b: v, ..self },
            Reg8::C => Registers { c: v, ..self },
            Reg8::D => Registers { d: v, ..self },
            Reg8::E => Registers { e: v, ..self },
            Reg8::H => Registers { h: v, ..self },
            Reg8::L => Registers { l: v, ..self },
        }
    }

    /// The 16-bit value of the pair `hi`, `lo`: `hi` supplies the high byte.
    pub open spec fn pair(self, hi: Reg8, lo: Reg8) -> u16 {
        word(self.reg(hi), self.reg(lo))
    }

    /// This register file after `value` is stored in the pair `hi`, `lo`:
    /// the high byte goes to `hi`, then the low byte to `lo`.
    pub open spec fn with_pair(self, hi: Reg8, lo: Reg8, value: u16) -> Registers {
        self.with_reg(hi, high_byte(value)).with_reg(lo, low_byte(value))
    }

    /// The value of a 16-bit register or register pair.
    pub open spec fn reg16(self, rr: Reg16) -> u16 {
        match rr {
            Reg16::AF => self.pair(Reg8::A, Reg8::F),
            Reg16::BC => self.pair(Reg8::B, Reg8::C),
            Reg16::DE => self.pair(Reg8::D, Reg8::E),
            Reg16::HL => self.pair(Reg8::H, Reg8::L),
            Reg16::SP => self.sp,
        }
    }

    /// This register file with a 16-bit register or register pair replaced.
    pub open spec fn with_reg16(self, rr: Reg16, value: u16) -> Registers {
        match rr {
            Reg16::AF => self.with_pair(Reg8::A, Reg8::F, value),
            Reg16::BC => self.with_pair(Reg8::B, Reg8::C, value),
            Reg16::DE => self.with_pair(Reg8::D, Reg8::E, value),
            Reg16::HL => self.with_pair(Reg8::H, Reg8::L, value),
            Reg16::SP => Registers { sp: value, ..self },
        }
    }

    /// The condition flags held in the flag register.
    pub open spec fn flags(self) -> Flags {
        Flags::from_bits(self.f)
    }

    /// This register file with the flag register holding exactly `flags`.
    pub open spec fn with_flags(self, flags: Flags) -> Registers {
        Registers { f: flags.bits(), ..self }
    }

    /// A register file with every register zero.
    pub fn new() -> (regs: Registers)
        ensures
            regs == (Registers { a: 0, f: 0, b: 0, c: 0, d: 0, e: 0, h: 0, l: 0, sp: 0, pc: 0 }),
    {
        Registers { a: 0, f: 0, b: 0, c: 0, d: 0, e: 0, h: 0, l: 0, sp: 0, pc: 0 }
    }

    /// Reads one 8-bit register.
    pub fn get(&self, r: Reg8) -> (v: u8)
        ensures
            v == self.reg(r),
    {
        match r {
            Reg8::A => self.a,
            Reg8::F => self.f,
            Reg8::B => self.b,
            Reg8::C => self.c,
            Reg8::D => self.d,
            Reg8::E => self.e,
            Reg8::H => self.h,
            Reg8::L => self.l,
        }
    }

    /// Writes one 8-bit register.
    pub fn set(&mut self, r: Reg8, v: u8)
        ensures
            *final(self) == old(self).with_reg(r, v),
    {
        match r {
            Reg8::A => self.a = v,
            Reg8::F => self.f = v,
            Reg8::B => self.b = v,
            Reg8::C => self.c = v,
            Reg8::D => self.d = v,
            Reg8::E => self.e = v,
            Reg8::H => self.h = v,
            Reg8::L => self.l = v,
        }
    }

    /// Reads two registers as one 16-bit value, `hi` in the upper byte.
    pub fn get_pair(&self, hi: Reg8, lo: Reg8) -> (value: u16)
        ensures
            value == self.pair(hi, lo),
            value == self.reg(hi) * 256 + self.reg(lo),
    {
        join(self.get(hi), self.get(lo))
    }

    /// Stores a 16-bit value in two registers: its upper byte in `hi`, its
    /// lower byte in `lo`.
    pub fn set_pair(&mut self, hi: Reg8, lo: Reg8, value: u16)
        ensures
            *final(self) == old(self).with_pair(hi, lo, value),
            hi != lo ==> final(self).reg(hi) == value / 256,
            final(self).reg(lo) == value % 256,
    {
        self.set(hi, high(value));
        self.set(lo, low(value));
    }

    /// Reads the pair B, C.
    pub fn get_bc(&self) -> (value: u16)
        ensures
            value == self.reg16(Reg16::BC),
    {
        self.get_pair(Reg8::B, Reg8::C)
    }

    /// Reads the pair D, E.
    pub fn get_de(&self) -> (value: u16)
        ensures
            value == self.reg16(Reg16::DE),
    {
        self.get_pair(Reg8::D, Reg8::E)
    }

    /// Reads the pair H, L.
    pub fn get_hl(&self) -> (value: u16)
        ensures
            value == self.reg16(Reg16::HL),
    {
        self.get_pair(Reg8::H, Reg8::L)
    }

    /// Reads the accumulator and the flag register as one pair.
    pub fn get_af(&self) -> (value: u16)
        ensures
            value == self.reg16(Reg16::AF),
    {
        self.get_pair(Reg8::A, Reg8::F)
    }

    /// Stores a value in the pair H, L.
    pub fn set_hl(&mut self, value: u16)
        ensures
            *final(self) == old(self).with_reg16(Reg16::HL, value),
    {
        self.set_pair(Reg8::H, Reg8::L, value);
    }

    /// Reads a 16-bit register or register pair.
    pub fn get16(&self, rr: Reg16) -> (value: u16)
        ensures
            value == self.reg16(rr),
    {
        match rr {
            Reg16::AF => self.get_pair(Reg8::A, Reg8::F),
            Reg16::BC => self.get_pair(Reg8::B, Reg8::C),
            Reg16::DE => self.get_pair(Reg8::D, Reg8::E),
            Reg16::HL => self.get_pair(Reg8::H, Reg8::L),
            Reg16::SP => self.sp,
        }
    }

    /// Writes a 16-bit register or register pair.
    pub fn set16(&mut self, rr: Reg16, value: u16)
        ensures
            *final(self) == old(self).with_reg16(rr, value),
    {
        match rr {
            Reg16::AF => self.set_pair(Reg8::A, Reg8::F, value),
            Reg16::BC => self.set_pair(Reg8::B, Reg8::C, value),
            Reg16::DE => self.set_pair(Reg8::D, Reg8::E, value),
            Reg16::HL => self.set_pair(Reg8::H, Reg8::L, value),
            Reg16::SP => self.sp = value,
        }
    }

    /// Reads the four condition flags.
    pub fn get_flags(&self) -> (flags: Flags)
        ensures
            flags == self.flags(),
    {
        Flags::from_byte(self.f)
    }

    /// Replaces the flag register by the given flags.
    pub fn set_flags(&mut self, flags: Flags)
        ensures
            *final(self) == old(self).with_flags(flags),
    {
        self.f = flags.to_byte();
    }

    /// A pair read back after it was stored holds the stored value, and
    /// registers outside the pair keep theirs.
    #[verifier::rlimit(20)]
    pub proof fn lemma_pair_round_trip(self, hi: Reg8, lo: Reg8, value: u16, other: Reg8)
        requires
            hi != lo,
        ensures
            self.with_pair(hi, lo, value).pair(hi, lo) == value,
            self.with_pair(hi, lo, value).reg(hi) == value / 256,
            self.with_pair(hi, lo, value).reg(lo) == value % 256,
            other != hi && other != lo ==> self.with_pair(hi, lo, value).reg(other) == self.reg(
                other,
            ),
            self.with_pair(hi, lo, self.pair(hi, lo)) == self,
    {
    }
}

} // verus!
