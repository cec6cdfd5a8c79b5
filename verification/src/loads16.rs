//! 16-bit loads and the stack.

use crate::alu::{add_signed, mask_low_nibble};
use crate::cpu::CPU;
use crate::instruction::Instruction;
use crate::registers::Reg16;
use crate::semantics::{cost, step};
use vstd::prelude::*;

verus! {

/// Loads a 16-bit register with the word operand.
pub fn load_word(cpu: &mut CPU, rr: Reg16) -> (cycles: u8)
    ensures
        final(cpu)@ == step(old(cpu)@, Instruction::LoadWord(rr)),
        cycles == cost(old(cpu)@, Instruction::LoadWord(rr)),
{
    let value: u16 = cpu.fetch_word();
    cpu.regs.set16(rr, value);
    12
}

/// Stores the stack pointer at the address given by the word operand.
pub fn store_sp(cpu: &mut CPU) -> (cycles: u8)
    ensures
        final(cpu)@ == step(old(cpu)@, Instruction::StoreSp),
        cycles == cost(old(cpu)@, Instruction::StoreSp),
{
    let addr: u16 = cpu.fetch_word();
    let sp: u16 = cpu.regs.sp;
    cpu.mem.write_short(addr, sp);
    20
}

/// Copies H, L to the stack pointer.
pub fn load_sp_from_hl(cpu: &mut CPU) -> (cycles: u8)
    ensures
        final(cpu)@ == step(old(cpu)@, Instruction::LoadSpFromHl),
        cycles == cost(old(cpu)@, Instruction::LoadSpFromHl),
{
    cpu.regs.sp = cpu.regs.get_hl();
    8
}

/// Loads H, L with the stack pointer moved by the signed byte operand, and
/// sets the flags from that addition.
pub fn load_hl_from_sp_offset(cpu: &mut CPU) -> (cycles: u8)
    ensures
        final(cpu)@ == step(old(cpu)@, Instruction::LoadHlFromSpOffset),
        cycles == cost(old(cpu)@, Instruction::LoadHlFromSpOffset),
{
    let d: u8 = cpu.fetch_byte();
    let (value, flags) = add_signed(cpu.regs.sp, d);
    cpu.regs.set_hl(value);
    cpu.regs.set_flags(flags);
    12
}

/// Pushes a register pair on the stack.
pub fn push(cpu: &mut CPU, rr: Reg16) -> (cycles: u8)
    ensures
        final(cpu)@ == step(old(cpu)@, Instruction::Push(rr)),
        cycles == cost(old(cpu)@, Instruction::Push(rr)),
{
    let value: u16 = cpu.regs.get16(rr);
    cpu.push_word(value);
    16
}

/// Pops a register pair off the stack.
pub fn pop(cpu: &mut CPU, rr: Reg16) -> (cycles: u8)
    ensures
        final(cpu)@ == step(old(cpu)@, Instruction::Pop(rr)),
        cycles == cost(old(cpu)@, Instruction::Pop(rr)),
{
    let top: u16 = cpu.pop_word();
    let value: u16 = match rr {
        Reg16::AF => mask_low_nibble(top),
        _ => top,
    };
    cpu.regs.set16(rr, value);
    12
}

} // verus!
