//! What holds of the instruction set as a whole: which opcodes the primary
//! table leaves out, and what each family of instructions does and does not
//! touch.

use crate::alu::{add_signed16, alu, dec8, inc8, sub8};
use crate::bits::wrap16;
use crate::cpu::CpuView;
use crate::instruction::{decoded, AluOp, Cond, Instruction, Place, Source};
use crate::mem::{keeps_stores, lemma_word_round_trip, next_addr, target_of};
use crate::registers::{Reg16, Reg8, Registers};
use crate::semantics::{cost, step};
use vstd::prelude::*;

verus! {

/// The opcodes for which the primary table has no entry. The prefix byte is
/// among them: it leads to the extended table.
pub open spec fn unassigned(op: u8) -> bool {
    ||| op == 0x07
    ||| op == 0x0F
    ||| op == 0x33
    ||| op == 0x3B
    ||| 0x80 <= op <= 0x9F
    ||| op == 0xCB
    ||| op == 0xD3
    ||| op == 0xDB
    ||| op == 0xDD
    ||| op == 0xDE
    ||| op == 0xE3
    ||| op == 0xE4
    ||| op == 0xE8
    ||| op == 0xEB
    ||| op == 0xEC
    ||| op == 0xED
    ||| op == 0xF4
    ||| op == 0xFC
    ||| op == 0xFD
}

/// The instructions that copy a value between registers, operands and
/// memory without computing anything.
pub open spec fn is_plain_load(ins: Instruction) -> bool {
    match ins {
        Instruction::Load { .. } => true,
        Instruction::LoadAFromPair(_) => true,
        Instruction::StoreAToPair(_) => true,
        Instruction::LoadAFromHlInc => true,
        Instruction::LoadAFromHlDec => true,
        Instruction::StoreAToHlInc => true,
        Instruction::StoreAToHlDec => true,
        Instruction::LoadAFromHigh => true,
        Instruction::StoreAToHigh => true,
        Instruction::LoadAFromHighC => true,
        Instruction::StoreAToHighC => true,
        Instruction::LoadAFromAbs => true,
        Instruction::StoreAToAbs => true,
        Instruction::LoadWord(_) => true,
        Instruction::StoreSp => true,
        Instruction::LoadSpFromHl => true,
        _ => false,
    }
}

/// The condition of a branch; `Always` for what is no branch.
pub open spec fn branch_condition(ins: Instruction) -> Cond {
    match ins {
        Instruction::JumpRelative(c) => c,
        Instruction::Jump(c) => c,
        Instruction::Call(c) => c,
        Instruction::Return(c) => c,
        _ => Cond::Always,
    }
}

/// The branches whose cost depends on whether they are taken.
pub open spec fn is_conditional_branch(ins: Instruction) -> bool {
    match ins {
        Instruction::JumpRelative(c) => c != Cond::Always,
        Instruction::Jump(c) => c != Cond::Always,
        Instruction::Call(c) => c != Cond::Always,
        Instruction::Return(c) => c != Cond::Always,
        _ => false,
    }
}

/// The instructions that can store to memory.
pub open spec fn may_store(ins: Instruction) -> bool {
    match ins {
        Instruction::Load { dst, .. } => dst == Place::AtHl,
        Instruction::StoreAToPair(_) => true,
        Instruction::StoreAToHlInc => true,
        Instruction::StoreAToHlDec => true,
        Instruction::StoreAToHigh => true,
        Instruction::StoreAToHighC => true,
        Instruction::StoreAToAbs => true,
        Instruction::StoreSp => true,
        Instruction::Push(_) => true,
        Instruction::Inc(p) => p == Place::AtHl,
        Instruction::Dec(p) => p == Place::AtHl,
        Instruction::Call(_) => true,
        Instruction::Restart(_) => true,
        _ => false,
    }
}

/// The primary table has an entry for an opcode exactly if the opcode is not
/// one of the unassigned ones.
pub proof fn lemma_table_coverage(op: u8)
    ensures
        decoded(op) is None <==> unassigned(op),
{
}

/// No entry of the primary table names the flag register as a place, or the
/// pair A, F as the register of a 16-bit load, increment or decrement.
pub proof fn lemma_table_operands(op: u8)
    ensures
        match decoded(op) {
            Some(Instruction::Load { dst, src }) => dst != Place::Reg(Reg8::F) && src
                != Source::Reg(Reg8::F),
            Some(Instruction::Inc(p)) => p != Place::Reg(Reg8::F),
            Some(Instruction::Dec(p)) => p != Place::Reg(Reg8::F),
            Some(Instruction::Alu(_, src)) => src != Source::Reg(Reg8::F),
            Some(Instruction::LoadWord(rr)) => rr != Reg16::AF,
            Some(Instruction::IncWord(rr)) => rr != Reg16::AF,
            Some(Instruction::DecWord(rr)) => rr != Reg16::AF,
            Some(Instruction::AddHl(rr)) => rr != Reg16::AF,
            Some(Instruction::Push(rr)) => rr != Reg16::SP,
            Some(Instruction::Pop(rr)) => rr != Reg16::SP,
            _ => true,
        },
{
}

/// A load of the primary table leaves the flag register as it was. The one
/// load that computes, of the stack pointer plus an offset into H, L, is not
/// a plain load.
pub proof fn lemma_loads_keep_flags(s: CpuView, op: u8)
    requires
        decoded(op) is Some,
        is_plain_load(decoded(op)->0),
    ensures
        step(s, decoded(op)->0).regs.f == s.regs.f,
{
    lemma_table_operands(op);
}

/// The load of the stack pointer plus an offset clears zero and subtract.
pub proof fn lemma_sp_offset_load_flags(s: CpuView)
    ensures
        !step(s, Instruction::LoadHlFromSpOffset).regs.flags().zero,
        !step(s, Instruction::LoadHlFromSpOffset).regs.flags().subtract,
{
    let f = add_signed16(s.regs.sp, s.imm8()).1;
    f.lemma_round_trip(0);
}

/// An 8-bit increment stores `x + 1`, takes zero and half-carry from the
/// result, clears subtract and keeps the carry.
pub proof fn lemma_inc_flags(s: CpuView, p: Place)
    requires
        p != Place::Reg(Reg8::F),
    ensures
        step(s, Instruction::Inc(p)).regs.flags() == inc8(s.place_value(p), s.regs.flags()).1,
        step(s, Instruction::Inc(p)).regs.flags().carry == s.regs.flags().carry,
        !step(s, Instruction::Inc(p)).regs.flags().subtract,
        step(s, Instruction::Inc(p)).regs.flags().zero <==> s.place_value(p) == 0xFF,
        step(s, Instruction::Inc(p)).regs.flags().half_carry <==> s.place_value(p) % 16 == 15,
{
    inc8(s.place_value(p), s.regs.flags()).1.lemma_round_trip(0);
}

/// An 8-bit decrement stores `x - 1`, takes zero and half-carry from the
/// result, sets subtract and keeps the carry.
pub proof fn lemma_dec_flags(s: CpuView, p: Place)
    requires
        p != Place::Reg(Reg8::F),
    ensures
        step(s, Instruction::Dec(p)).regs.flags() == dec8(s.place_value(p), s.regs.flags()).1,
        step(s, Instruction::Dec(p)).regs.flags().carry == s.regs.flags().carry,
        step(s, Instruction::Dec(p)).regs.flags().subtract,
        step(s, Instruction::Dec(p)).regs.flags().zero <==> s.place_value(p) == 1,
        step(s, Instruction::Dec(p)).regs.flags().half_carry <==> s.place_value(p) % 16 == 0,
{
    dec8(s.place_value(p), s.regs.flags()).1.lemma_round_trip(0);
}

/// A 16-bit increment or decrement leaves the flag register as it was.
pub proof fn lemma_word_steps_keep_flags(s: CpuView, rr: Reg16)
    requires
        rr != Reg16::AF,
    ensures
        step(s, Instruction::IncWord(rr)).regs.f == s.regs.f,
        step(s, Instruction::DecWord(rr)).regs.f == s.regs.f,
{
}

/// AND, OR and XOR clear carry and subtract, take zero from the result, and
/// set half-carry for AND only.
pub proof fn lemma_bitwise_flags(s: CpuView, op: AluOp, src: Source)
    requires
        op == AluOp::And || op == AluOp::Or || op == AluOp::Xor,
    ensures
        ({
            let after = step(s, Instruction::Alu(op, src));
            &&& after.regs.a == alu(op, s.regs.a, s.source_value(src), s.regs.flags()).0
            &&& !after.regs.flags().carry
            &&& !after.regs.flags().subtract
            &&& after.regs.flags().zero <==> after.regs.a == 0
            &&& after.regs.flags().half_carry <==> op == AluOp::And
        }),
{
    alu(op, s.regs.a, s.source_value(src), s.regs.flags()).1.lemma_round_trip(0);
}

/// A comparison sets the flags as the subtraction of the operand from the
/// accumulator would and leaves the accumulator as it was.
pub proof fn lemma_compare_keeps_accumulator(s: CpuView, src: Source)
    ensures
        step(s, Instruction::Alu(AluOp::Cp, src)).regs.a == s.regs.a,
        step(s, Instruction::Alu(AluOp::Cp, src)).regs.flags() == sub8(
            s.regs.a,
            s.source_value(src),
        ).1,
        step(s, Instruction::Alu(AluOp::Cp, src)).regs.flags() == step(
            s,
            Instruction::Alu(AluOp::Sub, src),
        ).regs.flags(),
        step(s, Instruction::Alu(AluOp::Cp, src)).regs.flags().zero <==> s.regs.a
            == s.source_value(src),
        step(s, Instruction::Alu(AluOp::Cp, src)).regs.flags().carry <==> s.regs.a
            < s.source_value(src),
{
    sub8(s.regs.a, s.source_value(src)).1.lemma_round_trip(0);
}

/// Every instruction costs 4, 8, 12, 16, 20 or 24 cycles, and 24 only where
/// a call is taken.
pub proof fn lemma_cost_values(s: CpuView, ins: Instruction)
    ensures
        ({
            let c = cost(s, ins);
            c == 4 || c == 8 || c == 12 || c == 16 || c == 20 || c == 24
        }),
        cost(s, ins) == 24 ==> ins is Call && s.holds(branch_condition(ins)),
{
}

/// The cost of an instruction other than a conditional branch does not
/// depend on the state; a conditional branch has one cost where it is taken
/// and another where it is not.
pub proof fn lemma_cost_depends_on_branch_only(s1: CpuView, s2: CpuView, ins: Instruction)
    ensures
        !is_conditional_branch(ins) ==> cost(s1, ins) == cost(s2, ins),
        s1.holds(branch_condition(ins)) == s2.holds(branch_condition(ins)) ==> cost(s1, ins)
            == cost(s2, ins),
        is_conditional_branch(ins) && s1.holds(branch_condition(ins)) && !s2.holds(
            branch_condition(ins),
        ) ==> cost(s1, ins) > cost(s2, ins),
{
}

/// Memory changes only by the instructions that store.
pub proof fn lemma_memory_changes_by_stores_only(s: CpuView, ins: Instruction)
    requires
        !may_store(ins),
    ensures
        step(s, ins).mem == s.mem,
{
}

/// The control latches change only by the instructions that are there to
/// change them.
#[verifier::rlimit(50)]
pub proof fn lemma_latches_change_by_control_only(s: CpuView, ins: Instruction)
    ensures
        step(s, ins).halted != s.halted ==> ins is Halt,
        step(s, ins).stopped != s.stopped ==> ins is Stop,
        step(s, ins).ime != s.ime ==> ins is DisableInterrupts || ins is EnableInterrupts
            || ins is ReturnEnable,
{
}

/// A branch that is not taken changes nothing but the program counter, which
/// moves past the operand.
pub proof fn lemma_branch_not_taken(s: CpuView, ins: Instruction)
    requires
        is_conditional_branch(ins),
        !s.holds(branch_condition(ins)),
    ensures
        step(s, ins).mem == s.mem,
        step(s, ins).regs == (Registers {
            pc: step(s, ins).regs.pc,
            ..s.regs
        }),
        ins is Return ==> step(s, ins) == s,
{
}

/// A call pushes the address of the instruction that follows it, and the
/// return that follows pops it again: where the stack lies in memory that
/// keeps stores, the program counter is back behind the call and the stack
/// pointer where it was.
pub proof fn lemma_call_then_return(s: CpuView)
    requires
        s.wf(),
        keeps_stores(target_of(wrap16(s.regs.sp - 2))),
        keeps_stores(target_of(wrap16(s.regs.sp - 1))),
    ensures
        ({
            let called = step(s, Instruction::Call(Cond::Always));
            let back = step(called, Instruction::Return(Cond::Always));
            &&& called.regs.pc == s.imm16()
            &&& back.regs.pc == wrap16(s.regs.pc + 2)
            &&& back.regs.sp == s.regs.sp
        }),
{
    let sp = wrap16(s.regs.sp - 2);
    assert(next_addr(sp) == wrap16(s.regs.sp - 1));
    lemma_word_round_trip(s.mem, sp, wrap16(s.regs.pc + 2));
}

/// A register pair that is pushed and popped again holds what it held, and
/// the stack pointer is where it was, where the stack lies in memory that
/// keeps stores.
pub proof fn lemma_push_then_pop(s: CpuView, rr: Reg16)
    requires
        s.wf(),
        rr == Reg16::BC || rr == Reg16::DE || rr == Reg16::HL,
        keeps_stores(target_of(wrap16(s.regs.sp - 2))),
        keeps_stores(target_of(wrap16(s.regs.sp - 1))),
    ensures
        step(step(s, Instruction::Push(rr)), Instruction::Pop(rr)).regs == s.regs,
{
    let sp = wrap16(s.regs.sp - 2);
    assert(next_addr(sp) == wrap16(s.regs.sp - 1));
    lemma_word_round_trip(s.mem, sp, s.regs.reg16(rr));
}

} // verus!
