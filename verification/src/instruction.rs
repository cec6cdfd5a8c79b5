//! The instruction set as data: what an opcode byte stands for.
//!
//! An opcode byte splits into three fields, `op = 64 * x + 8 * y + z`, and
//! the instruction set is laid out along them. [`decoded`] describes the
//! primary table by these fields; the table itself, one entry per opcode, is
//! [`crate::decode::decode`], which is proved to agree with the description.

use crate::registers::{Reg16, Reg8};
use vstd::prelude::*;

verus! {

/// Something that holds a byte and can be written: a register, or the memory
/// cell that the pair H, L points to.
#[derive(Clone, Copy, Debug, PartialEq, Eq, Structural)]
pub enum Place {
    Reg(Reg8),
    AtHl,
}

/// Something that a byte is taken from: a place, or the byte that follows
/// the opcode.
#[derive(Clone, Copy, Debug, PartialEq, Eq, Structural)]
pub enum Source {
    Reg(Reg8),
    AtHl,
    Imm,
}

/// The operations between the accumulator and an operand.
#[derive(Clone, Copy, Debug, PartialEq, Eq, Structural)]
pub enum AluOp {
    Add,
    Adc,
    Sub,
    And,
    Xor,
    Or,
    Cp,
}

/// The condition under which a branch is taken.
#[derive(Clone, Copy, Debug, PartialEq, Eq, Structural)]
pub enum Cond {
    Always,
    NotZero,
    Zero,
    NoCarry,
    Carry,
}

/// One instruction of the primary table.
#[derive(Clone, Copy, Debug, PartialEq, Eq, Structural)]
pub enum Instruction {
    /// Does nothing.
    Nop,
    /// Stops the processor until a button is pressed.
    Stop,
    /// Suspends instruction fetching until an interrupt is pending.
    Halt,
    /// Disables interrupts.
    DisableInterrupts,
    /// Enables interrupts.
    EnableInterrupts,
    /// Copies a byte from `src` to `dst`.
    Load { dst: Place, src: Source },
    /// Loads the accumulator from the address in a register pair.
    LoadAFromPair(Reg16),
    /// Stores the accumulator at the address in a register pair.
    StoreAToPair(Reg16),
    /// Loads the accumulator from the address in H, L, then increments H, L.
    LoadAFromHlInc,
    /// Loads the accumulator from the address in H, L, then decrements H, L.
    LoadAFromHlDec,
    /// Stores the accumulator at the address in H, L, then increments H, L.
    StoreAToHlInc,
    /// Stores the accumulator at the address in H, L, then decrements H, L.
    StoreAToHlDec,
    /// Loads the accumulator from `0xFF00` plus the byte operand.
    LoadAFromHigh,
    /// Stores the accumulator at `0xFF00` plus the byte operand.
    StoreAToHigh,
    /// Loads the accumulator from `0xFF00` plus register C.
    LoadAFromHighC,
    /// Stores the accumulator at `0xFF00` plus register C.
    StoreAToHighC,
    /// Loads the accumulator from the address given by the word operand.
    LoadAFromAbs,
    /// Stores the accumulator at the address given by the word operand.
    StoreAToAbs,
    /// Loads a 16-bit register with the word operand.
    LoadWord(Reg16),
    /// Stores the stack pointer at the address given by the word operand.
    StoreSp,
    /// Copies H, L to the stack pointer.
    LoadSpFromHl,
    /// Loads H, L with the stack pointer moved by the signed byte operand.
    LoadHlFromSpOffset,
    /// Pushes a register pair on the stack.
    Push(Reg16),
    /// Pops a register pair off the stack.
    Pop(Reg16),
    /// Adds one to a byte.
    Inc(Place),
    /// Takes one off a byte.
    Dec(Place),
    /// Adds one to a 16-bit register.
    IncWord(Reg16),
    /// Takes one off a 16-bit register.
    DecWord(Reg16),
    /// Adds a 16-bit register to H, L.
    AddHl(Reg16),
    /// Combines the accumulator with an operand.
    Alu(AluOp, Source),
    /// Corrects the accumulator to packed decimal.
    DecimalAdjust,
    /// Complements the accumulator.
    Complement,
    /// Sets the carry flag.
    SetCarry,
    /// Inverts the carry flag.
    ComplementCarry,
    /// Rotates the accumulator left through the carry.
    RotateLeftA,
    /// Rotates the accumulator right through the carry.
    RotateRightA,
    /// Jumps by the signed byte operand.
    JumpRelative(Cond),
    /// Jumps to the word operand.
    Jump(Cond),
    /// Jumps to the address in H, L.
    JumpHl,
    /// Calls the subroutine at the word operand.
    Call(Cond),
    /// Returns from a subroutine.
    Return(Cond),
    /// Returns from a subroutine and enables interrupts.
    ReturnEnable,
    /// Calls the subroutine at a fixed address in the first page.
    Restart(u8),
}

/// The opcode that announces an entry of the extended table.
pub const PREFIX: u8 = 0xCB;

/// The place that field value `i` selects.
pub open spec fn place_at(i: int) -> Place {
    if i == 0 {
        Place::Reg(Reg8::B)
    } else if i == 1 {
        Place::Reg(Reg8::C)
    } else if i == 2 {
        Place::Reg(Reg8::D)
    } else if i == 3 {
        Place::Reg(Reg8::E)
    } else if i == 4 {
        Place::Reg(Reg8::H)
    } else if i == 5 {
        Place::Reg(Reg8::L)
    } else if i == 6 {
        Place::AtHl
    } else {
        Place::Reg(Reg8::A)
    }
}

/// A place, as a source.
pub open spec fn source_of(p: Place) -> Source {
    match p {
        Place::Reg(r) => Source::Reg(r),
        Place::AtHl => Source::AtHl,
    }
}

/// The 16-bit register that field value `i` selects in a load or in
/// arithmetic.
pub open spec fn word_reg_at(i: int) -> Reg16 {
    if i == 0 {
        Reg16::BC
    } else if i == 1 {
        Reg16::DE
    } else if i == 2 {
        Reg16::HL
    } else {
        Reg16::SP
    }
}

/// The register pair that field value `i` selects in a push or pop.
pub open spec fn stack_pair_at(i: int) -> Reg16 {
    if i == 0 {
        Reg16::BC
    } else if i == 1 {
        Reg16::DE
    } else if i == 2 {
        Reg16::HL
    } else {
        Reg16::AF
    }
}

/// The condition that field value `i` selects.
pub open spec fn cond_at(i: int) -> Cond {
    if i == 0 {
        Cond::NotZero
    } else if i == 1 {
        Cond::Zero
    } else if i == 2 {
        Cond::NoCarry
    } else {
        Cond::Carry
    }
}

/// The accumulator operation that field value `i` selects, where the table
/// has one. Subtraction with borrow, at 3, has no entry.
pub open spec fn alu_at(i: int) -> Option<AluOp> {
    if i == 0 {
        Some(AluOp::Add)
    } else if i == 1 {
        Some(AluOp::Adc)
    } else if i == 2 {
        Some(AluOp::Sub)
    } else if i == 4 {
        Some(AluOp::And)
    } else if i == 5 {
        Some(AluOp::Xor)
    } else if i == 6 {
        Some(AluOp::Or)
    } else if i == 7 {
        Some(AluOp::Cp)
    } else {
        None
    }
}

/// The first quarter of the table, `0x00..=0x3F`.
pub open spec fn decoded_low(y: int, z: int) -> Option<Instruction> {
    let p = y / 2;
    let high_half = y % 2 == 1;
    if z == 0 {
        if y == 0 {
            Some(Instruction::Nop)
        } else if y == 1 {
            Some(Instruction::StoreSp)
        } else if y == 2 {
            Some(Instruction::Stop)
        } else if y == 3 {
            Some(Instruction::JumpRelative(Cond::Always))
        } else {
            Some(Instruction::JumpRelative(cond_at(y - 4)))
        }
    } else if z == 1 {
        if high_half {
            Some(Instruction::AddHl(word_reg_at(p)))
        } else {
            Some(Instruction::LoadWord(word_reg_at(p)))
        }
    } else if z == 2 {
        if p == 0 || p == 1 {
            if high_half {
                Some(Instruction::LoadAFromPair(word_reg_at(p)))
            } else {
                Some(Instruction::StoreAToPair(word_reg_at(p)))
            }
        } else if p == 2 {
            if high_half {
                Some(Instruction::LoadAFromHlInc)
            } else {
                Some(Instruction::StoreAToHlInc)
            }
        } else {
            if high_half {
                Some(Instruction::LoadAFromHlDec)
            } else {
                Some(Instruction::StoreAToHlDec)
            }
        }
    } else if z == 3 {
        if p == 3 {
            None
        } else if high_half {
            Some(Instruction::DecWord(word_reg_at(p)))
        } else {
            Some(Instruction::IncWord(word_reg_at(p)))
        }
    } else if z == 4 {
        Some(Instruction::Inc(place_at(y)))
    } else if z == 5 {
        Some(Instruction::Dec(place_at(y)))
    } else if z == 6 {
        Some(Instruction::Load { dst: place_at(y), src: Source::Imm })
    } else {
        if y == 2 {
            Some(Instruction::RotateLeftA)
        } else if y == 3 {
            Some(Instruction::RotateRightA)
        } else if y == 4 {
            Some(Instruction::DecimalAdjust)
        } else if y == 5 {
            Some(Instruction::Complement)
        } else if y == 6 {
            Some(Instruction::SetCarry)
        } else if y == 7 {
            Some(Instruction::ComplementCarry)
        } else {
            None
        }
    }
}

/// The last quarter of the table, `0xC0..=0xFF`.
pub open spec fn decoded_high(y: int, z: int) -> Option<Instruction> {
    let p = y / 2;
    let high_half = y % 2 == 1;
    if z == 0 {
        if y < 4 {
            Some(Instruction::Return(cond_at(y)))
        } else if y == 4 {
            Some(Instruction::StoreAToHigh)
        } else if y == 6 {
            Some(Instruction::LoadAFromHigh)
        } else if y == 7 {
            Some(Instruction::LoadHlFromSpOffset)
        } else {
            None
        }
    } else if z == 1 {
        if !high_half {
            Some(Instruction::Pop(stack_pair_at(p)))
        } else if p == 0 {
            Some(Instruction::Return(Cond::Always))
        } else if p == 1 {
            Some(Instruction::ReturnEnable)
        } else if p == 2 {
            Some(Instruction::JumpHl)
        } else {
            Some(Instruction::LoadSpFromHl)
        }
    } else if z == 2 {
        if y < 4 {
            Some(Instruction::Jump(cond_at(y)))
        } else if y == 4 {
            Some(Instruction::StoreAToHighC)
        } else if y == 5 {
            Some(Instruction::StoreAToAbs)
        } else if y == 6 {
            Some(Instruction::LoadAFromHighC)
        } else {
            Some(Instruction::LoadAFromAbs)
        }
    } else if z == 3 {
        if y == 0 {
            Some(Instruction::Jump(Cond::Always))
        } else if y == 6 {
            Some(Instruction::DisableInterrupts)
        } else if y == 7 {
            Some(Instruction::EnableInterrupts)
        } else {
            None
        }
    } else if z == 4 {
        if y < 4 {
            Some(Instruction::Call(cond_at(y)))
        } else {
            None
        }
    } else if z == 5 {
        if !high_half {
            Some(Instruction::Push(stack_pair_at(p)))
        } else if y == 1 {
            Some(Instruction::Call(Cond::Always))
        } else {
            None
        }
    } else if z == 6 {
        match alu_at(y) {
            Some(op) => Some(Instruction::Alu(op, Source::Imm)),
            None => None,
        }
    } else {
        Some(Instruction::Restart((8 * y) as u8))
    }
}

/// The instruction that an opcode of the primary table stands for, or `None`
/// where the table has no entry. The prefix byte has no entry: it leads to
/// the extended table.
pub open spec fn decoded(op: u8) -> Option<Instruction> {
    let x = op as int / 64;
    let y = (op as int / 8) % 8;
    let z = op as int % 8;
    if x == 0 {
        decoded_low(y, z)
    } else if x == 1 {
        if op == 0x76 {
            Some(Instruction::Halt)
        } else {
            Some(Instruction::Load { dst: place_at(y), src: source_of(place_at(z)) })
        }
    } else if x == 2 {
        if y >= 4 {
            match alu_at(y) {
                Some(op) => Some(Instruction::Alu(op, source_of(place_at(z)))),
                None => None,
            }
        } else {
            None
        }
    } else {
        decoded_high(y, z)
    }
}

} // verus!
