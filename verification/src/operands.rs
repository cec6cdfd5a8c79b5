//! How the processor reaches its operands: bytes that follow the opcode,
//! places and sources, branch conditions, and the stack.

use crate::cpu::CPU;
use crate::instruction::{Cond, Place, Source};
use crate::semantics::high_page;
use vstd::prelude::*;

verus! {

/// The address `0xFF00 + offset`.
pub fn high_page_addr(offset: u8) -> (addr: u16)
    ensures
        addr == high_page(offset),
{
    0xFF00 + offset as u16
}

/// What access to a place adds to an instruction's cost.
pub fn cost_of_place(p: Place) -> (c: u8)
    ensures
        c == crate::semantics::place_cost(p),
{
    match p {
        Place::Reg(_) => 0,
        Place::AtHl => 4,
    }
}

/// What reading a source adds to an instruction's cost.
pub fn cost_of_source(s: Source) -> (c: u8)
    ensures
        c == crate::semantics::source_cost(s),
{
    match s {
        Source::Reg(_) => 0,
        Source::AtHl => 4,
        Source::Imm => 4,
    }
}

impl CPU {
    /// Takes the byte operand and moves the program counter past it.
    pub fn fetch_byte(&mut self) -> (b: u8)
        ensures
            b == old(self)@.imm8(),
            final(self)@ == old(self)@.skip(1),
    {
        let b: u8 = self.mem.read(self.regs.pc);
        self.regs.pc = self.regs.pc.wrapping_add(1);
        b
    }

    /// Takes the word operand and moves the program counter past it.
    pub fn fetch_word(&mut self) -> (w: u16)
        ensures
            w == old(self)@.imm16(),
            final(self)@ == old(self)@.skip(2),
    {
        let w: u16 = self.mem.read_short(self.regs.pc);
        self.regs.pc = self.regs.pc.wrapping_add(2);
        w
    }

    /// Reads the byte that a place holds.
    pub fn read_place(&self, p: Place) -> (v: u8)
        ensures
            v == self@.place_value(p),
    {
        match p {
            Place::Reg(r) => self.regs.get(r),
            Place::AtHl => self.mem.read(self.regs.get_hl()),
        }
    }

    /// Writes a byte to a place.
    pub fn write_place(&mut self, p: Place, v: u8)
        ensures
            final(self)@ == old(self)@.with_place(p, v),
    {
        match p {
            Place::Reg(r) => {
                self.regs.set(r, v);
            },
            Place::AtHl => {
                let addr: u16 = self.regs.get_hl();
                self.mem.write(addr, v);
            },
        }
    }

    /// Reads the byte that a source supplies; a byte operand is consumed.
    pub fn read_source(&mut self, s: Source) -> (v: u8)
        ensures
            v == old(self)@.source_value(s),
            final(self)@ == old(self)@.past_source(s),
    {
        match s {
            Source::Reg(r) => self.regs.get(r),
            Source::AtHl => self.mem.read(self.regs.get_hl()),
            Source::Imm => self.fetch_byte(),
        }
    }

    /// Tests a branch condition against the flags.
    pub fn test(&self, c: Cond) -> (taken: bool)
        ensures
            taken == self@.holds(c),
    {
        let flags = self.regs.get_flags();
        match c {
            Cond::Always => true,
            Cond::NotZero => !flags.zero,
            Cond::Zero => flags.zero,
            Cond::NoCarry => !flags.carry,
            Cond::Carry => flags.carry,
        }
    }

    /// Pushes a word on the stack.
    pub fn push_word(&mut self, value: u16)
        ensures
            final(self)@ == old(self)@.pushed(value),
    {
        let sp: u16 = self.regs.sp.wrapping_sub(2);
        self.regs.sp = sp;
        self.mem.write_short(sp, value);
    }

    /// Pops a word off the stack.
    pub fn pop_word(&mut self) -> (value: u16)
        ensures
            value == old(self)@.stack_top(),
            final(self)@ == old(self)@.dropped(),
    {
        let value: u16 = self.mem.read_short(self.regs.sp);
        self.regs.sp = self.regs.sp.wrapping_add(2);
        value
    }
}

} // verus!
