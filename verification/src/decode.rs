//! The primary opcode table, one entry per opcode.

use crate::instruction::{decoded, AluOp, Cond, Instruction, Place, Source};
use crate::registers::{Reg16, Reg8};
use vstd::prelude::*;

verus! {

/// Looks an opcode up in the primary table. Opcodes without an entry, the
/// prefix byte among them, give `None`.
#[verifier::rlimit(30)]
pub fn decode(op: u8) -> (ins: Option<Instruction>)
    ensures
        ins == decoded(op),
{
    match op {
        0x00 => Some(Instruction::Nop),
        0x01 => Some(Instruction::LoadWord(Reg16::BC)),
        0x02 => Some(Instruction::StoreAToPair(Reg16::BC)),
        0x03 => Some(Instruction::IncWord(Reg16::BC)),
        0x04 => Some(Instruction::Inc(Place::Reg(Reg8::B))),
        0x05 => Some(Instruction::Dec(Place::Reg(Reg8::B))),
        0x06 => Some(Instruction::Load { dst: Place::Reg(Reg8::B), src: Source::Imm }),
        0x07 => None,
        0x08 => Some(Instruction::StoreSp),
        0x09 => Some(Instruction::AddHl(Reg16::BC)),
        0x0A => Some(Instruction::LoadAFromPair(Reg16::BC)),
        0x0B => Some(Instruction::DecWord(Reg16::BC)),
        0x0C => Some(Instruction::Inc(Place::Reg(Reg8::C))),
        0x0D => Some(Instruction::Dec(Place::Reg(Reg8::C))),
        0x0E => Some(Instruction::Load { dst: Place::Reg(Reg8::C), src: Source::Imm }),
        0x0F => None,
        0x10 => Some(Instruction::Stop),
        0x11 => Some(Instruction::LoadWord(Reg16::DE)),
        0x12 => Some(Instruction::StoreAToPair(Reg16::DE)),
        0x13 => Some(Instruction::IncWord(Reg16::DE)),
        0x14 => Some(Instruction::Inc(Place::Reg(Reg8::D))),
        0x15 => Some(Instruction::Dec(Place::Reg(Reg8::D))),
        0x16 => Some(Instruction::Load { dst: Place::Reg(Reg8::D), src: Source::Imm }),
        0x17 => Some(Instruction::RotateLeftA),
        0x18 => Some(Instruction::JumpRelative(Cond::Always)),
        0x19 => Some(Instruction::AddHl(Reg16::DE)),
        0x1A => Some(Instruction::LoadAFromPair(Reg16::DE)),
        0x1B => Some(Instruction::DecWord(Reg16::DE)),
        0x1C => Some(Instruction::Inc(Place::Reg(Reg8::E))),
        0x1D => Some(Instruction::Dec(Place::Reg(Reg8::E))),
        0x1E => Some(Instruction::Load { dst: Place::Reg(Reg8::E), src: Source::Imm }),
        0x1F => Some(Instruction::RotateRightA),
        0x20 => Some(Instruction::JumpRelative(Cond::NotZero)),
        0x21 => Some(Instruction::LoadWord(Reg16::HL)),
        0x22 => Some(Instruction::StoreAToHlInc),
        0x23 => Some(Instruction::IncWord(Reg16::HL)),
        0x24 => Some(Instruction::Inc(Place::Reg(Reg8::H))),
        0x25 => Some(Instruction::Dec(Place::Reg(Reg8::H))),
        0x26 => Some(Instruction::Load { dst: Place::Reg(Reg8::H), src: Source::Imm }),
        0x27 => Some(Instruction::DecimalAdjust),
        0x28 => Some(Instruction::JumpRelative(Cond::Zero)),
        0x29 => Some(Instruction::AddHl(Reg16::HL)),
        0x2A => Some(Instruction::LoadAFromHlInc),
        0x2B => Some(Instruction::DecWord(Reg16::HL)),
        0x2C => Some(Instruction::Inc(Place::Reg(Reg8::L))),
        0x2D => Some(Instruction::Dec(Place::Reg(Reg8::L))),
        0x2E => Some(Instruction::Load { dst: Place::Reg(Reg8::L), src: Source::Imm }),
        0x2F => Some(Instruction::Complement),
        0x30 => Some(Instruction::JumpRelative(Cond::NoCarry)),
        0x31 => Some(Instruction::LoadWord(Reg16::SP)),
        0x32 => Some(Instruction::StoreAToHlDec),
        0x33 => None,
        0x34 => Some(Instruction::Inc(Place::AtHl)),
        0x35 => Some(Instruction::Dec(Place::AtHl)),
        0x36 => Some(Instruction::Load { dst: Place::AtHl, src: Source::Imm }),
        0x37 => Some(Instruction::SetCarry),
        0x38 => Some(Instruction::JumpRelative(Cond::Carry)),
        0x39 => Some(Instruction::AddHl(Reg16::SP)),
        0x3A => Some(Instruction::LoadAFromHlDec),
        0x3B => None,
        0x3C => Some(Instruction::Inc(Place::Reg(Reg8::A))),
        0x3D => Some(Instruction::Dec(Place::Reg(Reg8::A))),
        0x3E => Some(Instruction::Load { dst: Place::Reg(Reg8::A), src: Source::Imm }),
        0x3F => Some(Instruction::ComplementCarry),
        0x40 => Some(Instruction::Load { dst: Place::Reg(Reg8::B), src: Source::Reg(Reg8::B) }),
        0x41 => Some(Instruction::Load { dst: Place::Reg(Reg8::B), src: Source::Reg(Reg8::C) }),
        0x42 => Some(Instruction::Load { dst: Place::Reg(Reg8::B), src: Source::Reg(Reg8::D) }),
        0x43 => Some(Instruction::Load { dst: Place::Reg(Reg8::B), src: Source::Reg(Reg8::E) }),
        0x44 => Some(Instruction::Load { dst: Place::Reg(Reg8::B), src: Source::Reg(Reg8::H) }),
        0x45 => Some(Instruction::Load { dst: Place::Reg(Reg8::B), src: Source::Reg(Reg8::L) }),
        0x46 => Some(Instruction::Load { dst: Place::Reg(Reg8::B), src: Source::AtHl }),
        0x47 => Some(Instruction::Load { dst: Place::Reg(Reg8::B), src: Source::Reg(Reg8::A) }),
        0x48 => Some(Instruction::Load { dst: Place::Reg(Reg8::C), src: Source::Reg(Reg8::B) }),
        0x49 => Some(Instruction::Load { dst: Place::Reg(Reg8::C), src: Source::Reg(Reg8::C) }),
        0x4A => Some(Instruction::Load { dst: Place::Reg(Reg8::C), src: Source::Reg(Reg8::D) }),
        0x4B => Some(Instruction::Load { dst: Place::Reg(Reg8::C), src: Source::Reg(Reg8::E) }),
        0x4C => Some(Instruction::Load { dst: Place::Reg(Reg8::C), src: Source::Reg(Reg8::H) }),
        0x4D => Some(Instruction::Load { dst: Place::Reg(Reg8::C), src: Source::Reg(Reg8::L) }),
        0x4E => Some(Instruction::Load { dst: Place::Reg(Reg8::C), src: Source::AtHl }),
        0x4F => Some(Instruction::Load { dst: Place::Reg(Reg8::C), src: Source::Reg(Reg8::A) }),
        0x50 => Some(Instruction::Load { dst: Place::Reg(Reg8::D), src: Source::Reg(Reg8::B) }),
        0x51 => Some(Instruction::Load { dst: Place::Reg(Reg8::D), src: Source::Reg(Reg8::C) }),
        0x52 => Some(Instruction::Load { dst: Place::Reg(Reg8::D), src: Source::Reg(Reg8::D) }),
        0x53 => Some(Instruction::Load { dst: Place::Reg(Reg8::D), src: Source::Reg(Reg8::E) }),
        0x54 => Some(Instruction::Load { dst: Place::Reg(Reg8::D), src: Source::Reg(Reg8::H) }),
        0x55 => Some(Instruction::Load { dst: Place::Reg(Reg8::D), src: Source::Reg(Reg8::L) }),
        0x56 => Some(Instruction::Load { dst: Place::Reg(Reg8::D), src: Source::AtHl }),
        0x57 => Some(Instruction::Load { dst: Place::Reg(Reg8::D), src: Source::Reg(Reg8::A) }),
        0x58 => Some(Instruction::Load { dst: Place::Reg(Reg8::E), src: Source::Reg(Reg8::B) }),
        0x59 => Some(Instruction::Load { dst: Place::Reg(Reg8::E), src: Source::Reg(Reg8::C) }),
        0x5A => Some(Instruction::Load { dst: Place::Reg(Reg8::E), src: Source::Reg(Reg8::D) }),
        0x5B => Some(Instruction::Load { dst: Place::Reg(Reg8::E), src: Source::Reg(Reg8::E) }),
        0x5C => Some(Instruction::Load { dst: Place::Reg(Reg8::E), src: Source::Reg(Reg8::H) }),
        0x5D => Some(Instruction::Load { dst: Place::Reg(Reg8::E), src: Source::Reg(Reg8::L) }),
        0x5E => Some(Instruction::Load { dst: Place::Reg(Reg8::E), src: Source::AtHl }),
        0x5F => Some(Instruction::Load { dst: Place::Reg(Reg8::E), src: Source::Reg(Reg8::A) }),
        0x60 => Some(Instruction::Load { dst: Place::Reg(Reg8::H), src: Source::Reg(Reg8::B) }),
        0x61 => Some(Instruction::Load { dst: Place::Reg(Reg8::H), src: Source::Reg(Reg8::C) }),
        0x62 => Some(Instruction::Load { dst: Place::Reg(Reg8::H), src: Source::Reg(Reg8::D) }),
        0x63 => Some(Instruction::Load { dst: Place::Reg(Reg8::H), src: Source::Reg(Reg8::E) }),
        0x64 => Some(Instruction::Load { dst: Place::Reg(Reg8::H), src: Source::Reg(Reg8::H) }),
        0x65 => Some(Instruction::Load { dst: Place::Reg(Reg8::H), src: Source::Reg(Reg8::L) }),
        0x66 => Some(Instruction::Load { dst: Place::Reg(Reg8::H), src: Source::AtHl }),
        0x67 => Some(Instruction::Load { dst: Place::Reg(Reg8::H), src: Source::Reg(Reg8::A) }),
        0x68 => Some(Instruction::Load { dst: Place::Reg(Reg8::L), src: Source::Reg(Reg8::B) }),
        0x69 => Some(Instruction::Load { dst: Place::Reg(Reg8::L), src: Source::Reg(Reg8::C) }),
        0x6A => Some(Instruction::Load { dst: Place::Reg(Reg8::L), src: Source::Reg(Reg8::D) }),
        0x6B => Some(Instruction::Load { dst: Place::Reg(Reg8::L), src: Source::Reg(Reg8::E) }),
        0x6C => Some(Instruction::Load { dst: Place::Reg(Reg8::L), src: Source::Reg(Reg8::H) }),
        0x6D => Some(Instruction::Load { dst: Place::Reg(Reg8::L), src: Source::Reg(Reg8::L) }),
        0x6E => Some(Instruction::Load { dst: Place::Reg(Reg8::L), src: Source::AtHl }),
        0x6F => Some(Instruction::Load { dst: Place::Reg(Reg8::L), src: Source::Reg(Reg8::A) }),
        0x70 => Some(Instruction::Load { dst: Place::AtHl, src: Source::Reg(Reg8::B) }),
        0x71 => Some(Instruction::Load { dst: Place::AtHl, src: Source::Reg(Reg8::C) }),
        0x72 => Some(Instruction::Load { dst: Place::AtHl, src: Source::Reg(Reg8::D) }),
        0x73 => Some(Instruction::Load { dst: Place::AtHl, src: Source::Reg(Reg8::E) }),
        0x74 => Some(Instruction::Load { dst: Place::AtHl, src: Source::Reg(Reg8::H) }),
        0x75 => Some(Instruction::Load { dst: Place::AtHl, src: Source::Reg(Reg8::L) }),
        0x76 => Some(Instruction::Halt),
        0x77 => Some(Instruction::Load { dst: Place::AtHl, src: Source::Reg(Reg8::A) }),
        0x78 => Some(Instruction::Load { dst: Place::Reg(Reg8::A), src: Source::Reg(Reg8::B) }),
        0x79 => Some(Instruction::Load { dst: Place::Reg(Reg8::A), src: Source::Reg(Reg8::C) }),
        0x7A => Some(Instruction::Load { dst: Place::Reg(Reg8::A), src: Source::Reg(Reg8::D) }),
        0x7B => Some(Instruction::Load { dst: Place::Reg(Reg8::A), src: Source::Reg(Reg8::E) }),
        0x7C => Some(Instruction::Load { dst: Place::Reg(Reg8::A), src: Source::Reg(Reg8::H) }),
        0x7D => Some(Instruction::Load { dst: Place::Reg(Reg8::A), src: Source::Reg(Reg8::L) }),
        0x7E => Some(Instruction::Load { dst: Place::Reg(Reg8::A), src: Source::AtHl }),
        0x7F => Some(Instruction::Load { dst: Place::Reg(Reg8::A), src: Source::Reg(Reg8::A) }),
        0x80 => None,
        0x81 => None,
        0x82 => None,
        0x83 => None,
        0x84 => None,
        0x85 => None,
        0x86 => None,
        0x87 => None,
        0x88 => None,
        0x89 => None,
        0x8A => None,
        0x8B => None,
        0x8C => None,
        0x8D => None,
        0x8E => None,
        0x8F => None,
        0x90 => None,
        0x91 => None,
        0x92 => None,
        0x93 => None,
        0x94 => None,
        0x95 => None,
        0x96 => None,
        0x97 => None,
        0x98 => None,
        0x99 => None,
        0x9A => None,
        0x9B => None,
        0x9C => None,
        0x9D => None,
        0x9E => None,
        0x9F => None,
        0xA0 => Some(Instruction::Alu(AluOp::And, Source::Reg(Reg8::B))),
        0xA1 => Some(Instruction::Alu(AluOp::And, Source::Reg(Reg8::C))),
        0xA2 => Some(Instruction::Alu(AluOp::And, Source::Reg(Reg8::D))),
        0xA3 => Some(Instruction::Alu(AluOp::And, Source::Reg(Reg8::E))),
        0xA4 => Some(Instruction::Alu(AluOp::And, Source::Reg(Reg8::H))),
        0xA5 => Some(Instruction::Alu(AluOp::And, Source::Reg(Reg8::L))),
        0xA6 => Some(Instruction::Alu(AluOp::And, Source::AtHl)),
        0xA7 => Some(Instruction::Alu(AluOp::And, Source::Reg(Reg8::A))),
        0xA8 => Some(Instruction::Alu(AluOp::Xor, Source::Reg(Reg8::B))),
        0xA9 => Some(Instruction::Alu(AluOp::Xor, Source::Reg(Reg8::C))),
        0xAA => Some(Instruction::Alu(AluOp::Xor, Source::Reg(Reg8::D))),
        0xAB => Some(Instruction::Alu(AluOp::Xor, Source::Reg(Reg8::E))),
        0xAC => Some(Instruction::Alu(AluOp::Xor, Source::Reg(Reg8::H))),
        0xAD => Some(Instruction::Alu(AluOp::Xor, Source::Reg(Reg8::L))),
        0xAE => Some(Instruction::Alu(AluOp::Xor, Source::AtHl)),
        0xAF => Some(Instruction::Alu(AluOp::Xor, Source::Reg(Reg8::A))),
        0xB0 => Some(Instruction::Alu(AluOp::Or, Source::Reg(Reg8::B))),
        0xB1 => Some(Instruction::Alu(AluOp::Or, Source::Reg(Reg8::C))),
        0xB2 => Some(Instruction::Alu(AluOp::Or, Source::Reg(Reg8::D))),
        0xB3 => Some(Instruction::Alu(AluOp::Or, Source::Reg(Reg8::E))),
        0xB4 => Some(Instruction::Alu(AluOp::Or, Source::Reg(Reg8::H))),
        0xB5 => Some(Instruction::Alu(AluOp::Or, Source::Reg(Reg8::L))),
        0xB6 => Some(Instruction::Alu(AluOp::Or, Source::AtHl)),
        0xB7 => Some(Instruction::Alu(AluOp::Or, Source::Reg(Reg8::A))),
        0xB8 => Some(Instruction::Alu(AluOp::Cp, Source::Reg(Reg8::B))),
        0xB9 => Some(Instruction::Alu(AluOp::Cp, Source::Reg(Reg8::C))),
        0xBA => Some(Instruction::Alu(AluOp::Cp, Source::Reg(Reg8::D))),
        0xBB => Some(Instruction::Alu(AluOp::Cp, Source::Reg(Reg8::E))),
        0xBC => Some(Instruction::Alu(AluOp::Cp, Source::Reg(Reg8::H))),
        0xBD => Some(Instruction::Alu(AluOp::Cp, Source::Reg(Reg8::L))),
        0xBE => Some(Instruction::Alu(AluOp::Cp, Source::AtHl)),
        0xBF => Some(Instruction::Alu(AluOp::Cp, Source::Reg(Reg8::A))),
        0xC0 => Some(Instruction::Return(Cond::NotZero)),
        0xC1 => Some(Instruction::Pop(Reg16::BC)),
        0xC2 => Some(Instruction::Jump(Cond::NotZero)),
        0xC3 => Some(Instruction::Jump(Cond::Always)),
        0xC4 => Some(Instruction::Call(Cond::NotZero)),
        0xC5 => Some(Instruction::Push(Reg16::BC)),
        0xC6 => Some(Instruction::Alu(AluOp::Add, Source::Imm)),
        0xC7 => Some(Instruction::Restart(0x00)),
        0xC8 => Some(Instruction::Return(Cond::Zero)),
        0xC9 => Some(Instruction::Return(Cond::Always)),
        0xCA => Some(Instruction::Jump(Cond::Zero)),
        0xCB => None,
        0xCC => Some(Instruction::Call(Cond::Zero)),
        0xCD => Some(Instruction::Call(Cond::Always)),
        0xCE => Some(Instruction::Alu(AluOp::Adc, Source::Imm)),
        0xCF => Some(Instruction::Restart(0x08)),
        0xD0 => Some(Instruction::Return(Cond::NoCarry)),
        0xD1 => Some(Instruction::Pop(Reg16::DE)),
        0xD2 => Some(Instruction::Jump(Cond::NoCarry)),
        0xD3 => None,
        0xD4 => Some(Instruction::Call(Cond::NoCarry)),
        0xD5 => Some(Instruction::Push(Reg16::DE)),
        0xD6 => Some(Instruction::Alu(AluOp::Sub, Source::Imm)),
        0xD7 => Some(Instruction::Restart(0x10)),
        0xD8 => Some(Instruction::Return(Cond::Carry)),
        0xD9 => Some(Instruction::ReturnEnable),
        0xDA => Some(Instruction::Jump(Cond::Carry)),
        0xDB => None,
        0xDC => Some(Instruction::Call(Cond::Carry)),
        0xDD => None,
        0xDE => None,
        0xDF => Some(Instruction::Restart(0x18)),
        0xE0 => Some(Instruction::StoreAToHigh),
        0xE1 => Some(Instruction::Pop(Reg16::HL)),
        0xE2 => Some(Instruction::StoreAToHighC),
        0xE3 => None,
        0xE4 => None,
        0xE5 => Some(Instruction::Push(Reg16::HL)),
        0xE6 => Some(Instruction::Alu(AluOp::And, Source::Imm)),
        0xE7 => Some(Instruction::Restart(0x20)),
        0xE8 => None,
        0xE9 => Some(Instruction::JumpHl),
        0xEA => Some(Instruction::StoreAToAbs),
        0xEB => None,
        0xEC => None,
        0xED => None,
        0xEE => Some(Instruction::Alu(AluOp::Xor, Source::Imm)),
        0xEF => Some(Instruction::Restart(0x28)),
        0xF0 => Some(Instruction::LoadAFromHigh),
        0xF1 => Some(Instruction::Pop(Reg16::AF)),
        0xF2 => Some(Instruction::LoadAFromHighC),
        0xF3 => Some(Instruction::DisableInterrupts),
        0xF4 => None,
        0xF5 => Some(Instruction::Push(Reg16::AF)),
        0xF6 => Some(Instruction::Alu(AluOp::Or, Source::Imm)),
        0xF7 => Some(Instruction::Restart(0x30)),
        0xF8 => Some(Instruction::LoadHlFromSpOffset),
        0xF9 => Some(Instruction::LoadSpFromHl),
        0xFA => Some(Instruction::LoadAFromAbs),
        0xFB => Some(Instruction::EnableInterrupts),
        0xFC => None,
        0xFD => None,
        0xFE => Some(Instruction::Alu(AluOp::Cp, Source::Imm)),
        0xFF => Some(Instruction::Restart(0x38)),
    }
}

} // verus!
