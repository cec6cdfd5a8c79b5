//! The dispatcher: from a fetched instruction word to the handler that runs
//! it, and to the number of cycles it took.

use crate::arith::{
    accumulate, add_hl, complement_carry, cpl, daa, dec_byte, dec_word, inc_byte, inc_word, rla,
    rra, set_carry,
};
use crate::bits::{high, high_byte, low, low_byte};
use crate::cpu::{CpuView, CPU};
use crate::decode::decode;
use crate::instruction::{decoded, Instruction, PREFIX};
use crate::jumps::{call, jump, jump_hl, jump_relative, restart, ret, ret_enable};
use crate::loads::{
    load, load_a_from_abs, load_a_from_high, load_a_from_high_c, load_a_from_hl_dec,
    load_a_from_hl_inc, load_a_from_pair, store_a_to_abs, store_a_to_high, store_a_to_high_c,
    store_a_to_hl_dec, store_a_to_hl_inc, store_a_to_pair,
};
use crate::loads16::{load_hl_from_sp_offset, load_sp_from_hl, load_word, pop, push, store_sp};
use crate::semantics::{cost, step};
use crate::special::{di, ei, halt, nop, stop};
use vstd::prelude::*;

verus! {

/// Why an instruction word could not be dispatched. Either way the machine
/// cannot go on: the caller has to halt.
#[derive(Clone, Copy, Debug, PartialEq, Eq, Structural)]
pub enum DecodeError {
    /// The primary table has no entry for the opcode.
    UndefinedOpcode {
        /// The offending opcode.
        opcode: u8,
        /// The address the instruction was fetched from.
        origin: u16,
    },
    /// The extended table has no entry for the byte that follows the prefix.
    UndefinedExtendedOpcode {
        /// The offending byte.
        opcode: u8,
        /// The address the instruction was fetched from.
        origin: u16,
    },
}

/// The machine went from `before` to `after` by running `ins`, in `cycles`
/// clock cycles.
pub open spec fn ran(before: CpuView, ins: Instruction, after: CpuView, cycles: u8) -> bool {
    after == step(before, ins) && cycles == cost(before, ins)
}

/// Runs one decoded instruction and returns the cycles it took.
pub fn execute(cpu: &mut CPU, ins: Instruction) -> (cycles: u8)
    ensures
        ran(old(cpu)@, ins, final(cpu)@, cycles),
{
    match ins {
        Instruction::Nop => nop(cpu),
        Instruction::Stop => stop(cpu),
        Instruction::Halt => halt(cpu),
        Instruction::DisableInterrupts => di(cpu),
        Instruction::EnableInterrupts => ei(cpu),
        Instruction::Load { dst, src } => load(cpu, dst, src),
        Instruction::LoadAFromPair(rr) => load_a_from_pair(cpu, rr),
        Instruction::StoreAToPair(rr) => store_a_to_pair(cpu, rr),
        Instruction::LoadAFromHlInc => load_a_from_hl_inc(cpu),
        Instruction::LoadAFromHlDec => load_a_from_hl_dec(cpu),
        Instruction::StoreAToHlInc => store_a_to_hl_inc(cpu),
        Instruction::StoreAToHlDec => store_a_to_hl_dec(cpu),
        Instruction::LoadAFromHigh => load_a_from_high(cpu),
        Instruction::StoreAToHigh => store_a_to_high(cpu),
        Instruction::LoadAFromHighC => load_a_from_high_c(cpu),
        Instruction::StoreAToHighC => store_a_to_high_c(cpu),
        Instruction::LoadAFromAbs => load_a_from_abs(cpu),
        Instruction::StoreAToAbs => store_a_to_abs(cpu),
        Instruction::LoadWord(rr) => load_word(cpu, rr),
        Instruction::StoreSp => store_sp(cpu),
        Instruction::LoadSpFromHl => load_sp_from_hl(cpu),
        Instruction::LoadHlFromSpOffset => load_hl_from_sp_offset(cpu),
        Instruction::Push(rr) => push(cpu, rr),
        Instruction::Pop(rr) => pop(cpu, rr),
        Instruction::Inc(p) => inc_byte(cpu, p),
        Instruction::Dec(p) => dec_byte(cpu, p),
        Instruction::IncWord(rr) => inc_word(cpu, rr),
        Instruction::DecWord(rr) => dec_word(cpu, rr),
        Instruction::AddHl(rr) => add_hl(cpu, rr),
        Instruction::Alu(op, src) => accumulate(cpu, op, src),
        Instruction::DecimalAdjust => daa(cpu),
        Instruction::Complement => cpl(cpu),
        Instruction::SetCarry => set_carry(cpu),
        Instruction::ComplementCarry => complement_carry(cpu),
        Instruction::RotateLeftA => rla(cpu),
        Instruction::RotateRightA => rra(cpu),
        Instruction::JumpRelative(c) => jump_relative(cpu, c),
        Instruction::Jump(c) => jump(cpu, c),
        Instruction::JumpHl => jump_hl(cpu),
        Instruction::Call(c) => call(cpu, c),
        Instruction::Return(c) => ret(cpu, c),
        Instruction::ReturnEnable => ret_enable(cpu),
        Instruction::Restart(target) => restart(cpu, target),
    }
}

/// Dispatches one instruction.
///
/// `instr` is the instruction word as fetched: the opcode in its low byte,
/// the byte that follows the opcode in its high byte. `origin` is the address
/// it was fetched from and only serves the error report. On entry the program
/// counter addresses the byte that follows the opcode.
///
/// An opcode of the primary table runs its handler: the machine takes the
/// step that the instruction set defines, and the cycles it took are
/// returned. The prefix byte leads to the extended table. An opcode without
/// an entry is an error that names the opcode and `origin`, and leaves the
/// machine as it was.
pub fn execute_instruction(cpu: &mut CPU, instr: u16, origin: u16) -> (res: Result<
    u8,
    DecodeError,
>)
    ensures
        low_byte(instr) == PREFIX ==> res == Err::<u8, DecodeError>(
            DecodeError::UndefinedExtendedOpcode { opcode: high_byte(instr), origin },
        ) && final(cpu)@ == old(cpu)@,
        low_byte(instr) != PREFIX ==> match decoded(low_byte(instr)) {
            Some(ins) => res == Ok::<u8, DecodeError>(cost(old(cpu)@, ins) as u8) && final(cpu)@
                == step(old(cpu)@, ins),
            None => res == Err::<u8, DecodeError>(
                DecodeError::UndefinedOpcode { opcode: low_byte(instr), origin },
            ) && final(cpu)@ == old(cpu)@,
        },
{
    let opcode: u8 = low(instr);
    if opcode == PREFIX {
        return cb(cpu, instr, origin);
    }
    match decode(opcode) {
        Some(ins) => Ok(execute(cpu, ins)),
        None => Err(DecodeError::UndefinedOpcode { opcode, origin }),
    }
}

/// Dispatches an instruction of the extended table, which is keyed by the
/// byte that follows the prefix: the high byte of `instr`. The extended table
/// has no entries, so every such instruction is an error.
pub fn cb(cpu: &mut CPU, instr: u16, origin: u16) -> (res: Result<u8, DecodeError>)
    ensures
        res == Err::<u8, DecodeError>(
            DecodeError::UndefinedExtendedOpcode { opcode: high_byte(instr), origin },
        ),
        final(cpu)@ == old(cpu)@,
{
    Err(DecodeError::UndefinedExtendedOpcode { opcode: high(instr), origin })
}

} // verus!
