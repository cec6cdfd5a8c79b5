//! Jumps, calls, returns and restarts. A conditional branch costs more when
//! it is taken.

use crate::alu::offset;
use crate::cpu::CPU;
use crate::instruction::{Cond, Instruction};
use crate::semantics::{cost, step};
use vstd::prelude::*;

verus! {

/// Jumps by the signed byte operand if the condition holds.
pub fn jump_relative(cpu: &mut CPU, c: Cond) -> (cycles: u8)
    ensures
        final(cpu)@ == step(old(cpu)@, Instruction::JumpRelative(c)),
        cycles == cost(old(cpu)@, Instruction::JumpRelative(c)),
{
    let d: u8 = cpu.fetch_byte();
    if cpu.test(c) {
        cpu.regs.pc = offset(cpu.regs.pc, d);
        12
    } else {
        8
    }
}

/// Jumps to the word operand if the condition holds.
pub fn jump(cpu: &mut CPU, c: Cond) -> (cycles: u8)
    ensures
        final(cpu)@ == step(old(cpu)@, Instruction::Jump(c)),
        cycles == cost(old(cpu)@, Instruction::Jump(c)),
{
    let target: u16 = cpu.fetch_word();
    if cpu.test(c) {
        cpu.regs.pc = target;
        16
    } else {
        12
    }
}

/// Jumps to the address in H, L.
pub fn jump_hl(cpu: &mut CPU) -> (cycles: u8)
    ensures
        final(cpu)@ == step(old(cpu)@, Instruction::JumpHl),
        cycles == cost(old(cpu)@, Instruction::JumpHl),
{
    cpu.regs.pc = cpu.regs.get_hl();
    4
}

/// Calls the subroutine at the word operand if the condition holds: the
/// address of the next instruction is pushed.
pub fn call(cpu: &mut CPU, c: Cond) -> (cycles: u8)
    ensures
        final(cpu)@ == step(old(cpu)@, Instruction::Call(c)),
        cycles == cost(old(cpu)@, Instruction::Call(c)),
{
    let target: u16 = cpu.fetch_word();
    if cpu.test(c) {
        let back: u16 = cpu.regs.pc;
        cpu.push_word(back);
        cpu.regs.pc = target;
        24
    } else {
        12
    }
}

/// Returns from a subroutine if the condition holds: the program counter is
/// popped off the stack.
pub fn ret(cpu: &mut CPU, c: Cond) -> (cycles: u8)
    ensures
        final(cpu)@ == step(old(cpu)@, Instruction::Return(c)),
        cycles == cost(old(cpu)@, Instruction::Return(c)),
{
    match c {
        Cond::Always => {
            cpu.regs.pc = cpu.pop_word();
            16
        },
        _ => {
            if cpu.test(c) {
                cpu.regs.pc = cpu.pop_word();
                20
            } else {
                8
            }
        },
    }
}

/// Returns from a subroutine and enables interrupts.
pub fn ret_enable(cpu: &mut CPU) -> (cycles: u8)
    ensures
        final(cpu)@ == step(old(cpu)@, Instruction::ReturnEnable),
        cycles == cost(old(cpu)@, Instruction::ReturnEnable),
{
    cpu.regs.pc = cpu.pop_word();
    cpu.ime = true;
    16
}

/// Calls the subroutine at `target` in the first page.
pub fn restart(cpu: &mut CPU, target: u8) -> (cycles: u8)
    ensures
        final(cpu)@ == step(old(cpu)@, Instruction::Restart(target)),
        cycles == cost(old(cpu)@, Instruction::Restart(target)),
{
    let back: u16 = cpu.regs.pc;
    cpu.push_word(back);
    cpu.regs.pc = target as u16;
    16
}

} // verus!
