//! Control instructions: no-op, stop, halt, and the interrupt latch.

use crate::cpu::CPU;
use crate::instruction::Instruction;
use crate::semantics::{cost, step};
use vstd::prelude::*;

verus! {

/// Does nothing.
pub fn nop(cpu: &mut CPU) -> (cycles: u8)
    ensures
        final(cpu)@ == step(old(cpu)@, Instruction::Nop),
        cycles == cost(old(cpu)@, Instruction::Nop),
{
    4
}

/// Stops the processor. The byte that follows the opcode is padding and is
/// skipped.
pub fn stop(cpu: &mut CPU) -> (cycles: u8)
    ensures
        final(cpu)@ == step(old(cpu)@, Instruction::Stop),
        cycles == cost(old(cpu)@, Instruction::Stop),
{
    cpu.regs.pc = cpu.regs.pc.wrapping_add(1);
    cpu.stopped = true;
    4
}

/// Suspends instruction fetching. Waking the processor up is the stepping
/// loop's part.
pub fn halt(cpu: &mut CPU) -> (cycles: u8)
    ensures
        final(cpu)@ == step(old(cpu)@, Instruction::Halt),
        cycles == cost(old(cpu)@, Instruction::Halt),
{
    cpu.halted = true;
    4
}

/// Disables interrupts.
pub fn di(cpu: &mut CPU) -> (cycles: u8)
    ensures
        final(cpu)@ == step(old(cpu)@, Instruction::DisableInterrupts),
        cycles == cost(old(cpu)@, Instruction::DisableInterrupts),
{
    cpu.ime = false;
    4
}

/// Enables interrupts.
pub fn ei(cpu: &mut CPU) -> (cycles: u8)
    ensures
        final(cpu)@ == step(old(cpu)@, Instruction::EnableInterrupts),
        cycles == cost(old(cpu)@, Instruction::EnableInterrupts),
{
    cpu.ime = true;
    4
}

} // verus!
