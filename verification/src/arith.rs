//! Arithmetic and logic on the accumulator, increments and decrements, the
//! 16-bit addition into H, L, and the single-byte accumulator and flag
//! instructions.

use crate::alu::{
    add_words, apply, complement, dec, decimal_adjust, inc, rotate_left_through_carry,
    rotate_right_through_carry,
};
use crate::cpu::CPU;
use crate::instruction::{AluOp, Instruction, Place, Source};
use crate::operands::{cost_of_place, cost_of_source};
use crate::registers::{Flags, Reg16};
use crate::semantics::{cost, step};
use vstd::prelude::*;

verus! {

/// Adds one to the byte in a place.
pub fn inc_byte(cpu: &mut CPU, p: Place) -> (cycles: u8)
    ensures
        final(cpu)@ == step(old(cpu)@, Instruction::Inc(p)),
        cycles == cost(old(cpu)@, Instruction::Inc(p)),
{
    let (value, flags) = inc(cpu.read_place(p), cpu.regs.get_flags());
    cpu.write_place(p, value);
    cpu.regs.set_flags(flags);
    4 + 2 * cost_of_place(p)
}

/// Takes one off the byte in a place.
pub fn dec_byte(cpu: &mut CPU, p: Place) -> (cycles: u8)
    ensures
        final(cpu)@ == step(old(cpu)@, Instruction::Dec(p)),
        cycles == cost(old(cpu)@, Instruction::Dec(p)),
{
    let (value, flags) = dec(cpu.read_place(p), cpu.regs.get_flags());
    cpu.write_place(p, value);
    cpu.regs.set_flags(flags);
    4 + 2 * cost_of_place(p)
}

/// Adds one to a 16-bit register. The flags are not touched.
pub fn inc_word(cpu: &mut CPU, rr: Reg16) -> (cycles: u8)
    ensures
        final(cpu)@ == step(old(cpu)@, Instruction::IncWord(rr)),
        cycles == cost(old(cpu)@, Instruction::IncWord(rr)),
{
    let value: u16 = cpu.regs.get16(rr);
    cpu.regs.set16(rr, value.wrapping_add(1));
    8
}

/// Takes one off a 16-bit register. The flags are not touched.
pub fn dec_word(cpu: &mut CPU, rr: Reg16) -> (cycles: u8)
    ensures
        final(cpu)@ == step(old(cpu)@, Instruction::DecWord(rr)),
        cycles == cost(old(cpu)@, Instruction::DecWord(rr)),
{
    let value: u16 = cpu.regs.get16(rr);
    cpu.regs.set16(rr, value.wrapping_sub(1));
    8
}

/// Adds a 16-bit register to H, L.
pub fn add_hl(cpu: &mut CPU, rr: Reg16) -> (cycles: u8)
    ensures
        final(cpu)@ == step(old(cpu)@, Instruction::AddHl(rr)),
        cycles == cost(old(cpu)@, Instruction::AddHl(rr)),
{
    let (value, flags) = add_words(cpu.regs.get_hl(), cpu.regs.get16(rr), cpu.regs.get_flags());
    cpu.regs.set_hl(value);
    cpu.regs.set_flags(flags);
    8
}

/// Combines the accumulator with an operand.
pub fn accumulate(cpu: &mut CPU, op: AluOp, src: Source) -> (cycles: u8)
    ensures
        final(cpu)@ == step(old(cpu)@, Instruction::Alu(op, src)),
        cycles == cost(old(cpu)@, Instruction::Alu(op, src)),
{
    let a: u8 = cpu.regs.a;
    let old_flags: Flags = cpu.regs.get_flags();
    let b: u8 = cpu.read_source(src);
    let (value, flags) = apply(op, a, b, old_flags);
    cpu.regs.a = value;
    cpu.regs.set_flags(flags);
    4 + cost_of_source(src)
}

/// Corrects the accumulator to packed decimal.
pub fn daa(cpu: &mut CPU) -> (cycles: u8)
    ensures
        final(cpu)@ == step(old(cpu)@, Instruction::DecimalAdjust),
        cycles == cost(old(cpu)@, Instruction::DecimalAdjust),
{
    let (value, flags) = decimal_adjust(cpu.regs.a, cpu.regs.get_flags());
    cpu.regs.a = value;
    cpu.regs.set_flags(flags);
    4
}

/// Complements the accumulator.
pub fn cpl(cpu: &mut CPU) -> (cycles: u8)
    ensures
        final(cpu)@ == step(old(cpu)@, Instruction::Complement),
        cycles == cost(old(cpu)@, Instruction::Complement),
{
    let (value, flags) = complement(cpu.regs.a, cpu.regs.get_flags());
    cpu.regs.a = value;
    cpu.regs.set_flags(flags);
    4
}

/// Sets the carry flag.
pub fn set_carry(cpu: &mut CPU) -> (cycles: u8)
    ensures
        final(cpu)@ == step(old(cpu)@, Instruction::SetCarry),
        cycles == cost(old(cpu)@, Instruction::SetCarry),
{
    let flags: Flags = cpu.regs.get_flags();
    cpu.regs.set_flags(Flags { zero: flags.zero, subtract: false, half_carry: false, carry: true });
    4
}

/// Inverts the carry flag.
pub fn complement_carry(cpu: &mut CPU) -> (cycles: u8)
    ensures
        final(cpu)@ == step(old(cpu)@, Instruction::ComplementCarry),
        cycles == cost(old(cpu)@, Instruction::ComplementCarry),
{
    let flags: Flags = cpu.regs.get_flags();
    cpu.regs.set_flags(
        Flags { zero: flags.zero, subtract: false, half_carry: false, carry: !flags.carry },
    );
    4
}

/// Rotates the accumulator left through the carry.
pub fn rla(cpu: &mut CPU) -> (cycles: u8)
    ensures
        final(cpu)@ == step(old(cpu)@, Instruction::RotateLeftA),
        cycles == cost(old(cpu)@, Instruction::RotateLeftA),
{
    let (value, flags) = rotate_left_through_carry(cpu.regs.a, cpu.regs.get_flags());
    cpu.regs.a = value;
    cpu.regs.set_flags(flags);
    4
}

/// Rotates the accumulator right through the carry.
pub fn rra(cpu: &mut CPU) -> (cycles: u8)
    ensures
        final(cpu)@ == step(old(cpu)@, Instruction::RotateRightA),
        cycles == cost(old(cpu)@, Instruction::RotateRightA),
{
    let (value, flags) = rotate_right_through_carry(cpu.regs.a, cpu.regs.get_flags());
    cpu.regs.a = value;
    cpu.regs.set_flags(flags);
    4
}

} // verus!
