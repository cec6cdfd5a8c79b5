//! 8-bit loads: between registers, operands and memory.

use crate::cpu::CPU;
use crate::instruction::{Instruction, Place, Source};
use crate::operands::{cost_of_place, cost_of_source, high_page_addr};
use crate::registers::Reg16;
use crate::semantics::{cost, step};
use vstd::prelude::*;

verus! {

/// Copies a byte from `src` to `dst`.
pub fn load(cpu: &mut CPU, dst: Place, src: Source) -> (cycles: u8)
    ensures
        final(cpu)@ == step(old(cpu)@, Instruction::Load { dst, src }),
        cycles == cost(old(cpu)@, Instruction::Load { dst, src }),
{
    let v: u8 = cpu.read_source(src);
    cpu.write_place(dst, v);
    4 + cost_of_place(dst) + cost_of_source(src)
}

/// Loads the accumulator from the address in `rr`.
pub fn load_a_from_pair(cpu: &mut CPU, rr: Reg16) -> (cycles: u8)
    ensures
        final(cpu)@ == step(old(cpu)@, Instruction::LoadAFromPair(rr)),
        cycles == cost(old(cpu)@, Instruction::LoadAFromPair(rr)),
{
    let addr: u16 = cpu.regs.get16(rr);
    cpu.regs.a = cpu.mem.read(addr);
    8
}

/// Stores the accumulator at the address in `rr`.
pub fn store_a_to_pair(cpu: &mut CPU, rr: Reg16) -> (cycles: u8)
    ensures
        final(cpu)@ == step(old(cpu)@, Instruction::StoreAToPair(rr)),
        cycles == cost(old(cpu)@, Instruction::StoreAToPair(rr)),
{
    let addr: u16 = cpu.regs.get16(rr);
    let a: u8 = cpu.regs.a;
    cpu.mem.write(addr, a);
    8
}

/// Loads the accumulator from the address in H, L and increments H, L.
pub fn load_a_from_hl_inc(cpu: &mut CPU) -> (cycles: u8)
    ensures
        final(cpu)@ == step(old(cpu)@, Instruction::LoadAFromHlInc),
        cycles == cost(old(cpu)@, Instruction::LoadAFromHlInc),
{
    let addr: u16 = cpu.regs.get_hl();
    cpu.regs.a = cpu.mem.read(addr);
    cpu.regs.set_hl(addr.wrapping_add(1));
    8
}

/// Loads the accumulator from the address in H, L and decrements H, L.
pub fn load_a_from_hl_dec(cpu: &mut CPU) -> (cycles: u8)
    ensures
        final(cpu)@ == step(old(cpu)@, Instruction::LoadAFromHlDec),
        cycles == cost(old(cpu)@, Instruction::LoadAFromHlDec),
{
    let addr: u16 = cpu.regs.get_hl();
    cpu.regs.a = cpu.mem.read(addr);
    cpu.regs.set_hl(addr.wrapping_sub(1));
    8
}

/// Stores the accumulator at the address in H, L and increments H, L.
pub fn store_a_to_hl_inc(cpu: &mut CPU) -> (cycles: u8)
    ensures
        final(cpu)@ == step(old(cpu)@, Instruction::StoreAToHlInc),
        cycles == cost(old(cpu)@, Instruction::StoreAToHlInc),
{
    let addr: u16 = cpu.regs.get_hl();
    let a: u8 = cpu.regs.a;
    cpu.mem.write(addr, a);
    cpu.regs.set_hl(addr.wrapping_add(1));
    8
}

/// Stores the accumulator at the address in H, L and decrements H, L.
pub fn store_a_to_hl_dec(cpu: &mut CPU) -> (cycles: u8)
    ensures
        final(cpu)@ == step(old(cpu)@, Instruction::StoreAToHlDec),
        cycles == cost(old(cpu)@, Instruction::StoreAToHlDec),
{
    let addr: u16 = cpu.regs.get_hl();
    let a: u8 = cpu.regs.a;
    cpu.mem.write(addr, a);
    cpu.regs.set_hl(addr.wrapping_sub(1));
    8
}

/// Loads the accumulator from `0xFF00` plus the byte operand.
pub fn load_a_from_high(cpu: &mut CPU) -> (cycles: u8)
    ensures
        final(cpu)@ == step(old(cpu)@, Instruction::LoadAFromHigh),
        cycles == cost(old(cpu)@, Instruction::LoadAFromHigh),
{
    let n: u8 = cpu.fetch_byte();
    cpu.regs.a = cpu.mem.read(high_page_addr(n));
    12
}

/// Stores the accumulator at `0xFF00` plus the byte operand.
pub fn store_a_to_high(cpu: &mut CPU) -> (cycles: u8)
    ensures
        final(cpu)@ == step(old(cpu)@, Instruction::StoreAToHigh),
        cycles == cost(old(cpu)@, Instruction::StoreAToHigh),
{
    let n: u8 = cpu.fetch_byte();
    let a: u8 = cpu.regs.a;
    cpu.mem.write(high_page_addr(n), a);
    12
}

/// Loads the accumulator from `0xFF00` plus register C.
pub fn load_a_from_high_c(cpu: &mut CPU) -> (cycles: u8)
    ensures
        final(cpu)@ == step(old(cpu)@, Instruction::LoadAFromHighC),
        cycles == cost(old(cpu)@, Instruction::LoadAFromHighC),
{
    let addr: u16 = high_page_addr(cpu.regs.c);
    cpu.regs.a = cpu.mem.read(addr);
    8
}

/// Stores the accumulator at `0xFF00` plus register C.
pub fn store_a_to_high_c(cpu: &mut CPU) -> (cycles: u8)
    ensures
        final(cpu)@ == step(old(cpu)@, Instruction::StoreAToHighC),
        cycles == cost(old(cpu)@, Instruction::StoreAToHighC),
{
    let addr: u16 = high_page_addr(cpu.regs.c);
    let a: u8 = cpu.regs.a;
    cpu.mem.write(addr, a);
    8
}

/// Loads the accumulator from the address given by the word operand.
pub fn load_a_from_abs(cpu: &mut CPU) -> (cycles: u8)
    ensures
        final(cpu)@ == step(old(cpu)@, Instruction::LoadAFromAbs),
        cycles == cost(old(cpu)@, Instruction::LoadAFromAbs),
{
    let addr: u16 = cpu.fetch_word();
    cpu.regs.a = cpu.mem.read(addr);
    16
}

/// Stores the accumulator at the address given by the word operand.
pub fn store_a_to_abs(cpu: &mut CPU) -> (cycles: u8)
    ensures
        final(cpu)@ == step(old(cpu)@, Instruction::StoreAToAbs),
        cycles == cost(old(cpu)@, Instruction::StoreAToAbs),
{
    let addr: u16 = cpu.fetch_word();
    let a: u8 = cpu.regs.a;
    cpu.mem.write(addr, a);
    16
}

} // verus!
