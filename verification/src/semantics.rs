//! What each instruction does: the machine as a function from state to state.
//!
//! The state handed to [`step`] is the state after the opcode byte has been
//! fetched: the program counter addresses the byte that follows the opcode,
//! which is the first operand byte where the instruction has operands.

use crate::alu::{
    add16, add_signed16, alu, ccf, clear_low_nibble, cpl8, daa8, dec8, inc8, offset16, rla8, rra8,
    scf,
};
use crate::bits::wrap16;
use crate::cpu::CpuView;
use crate::instruction::{Cond, Instruction, Place, Source};
use crate::mem::BusView;
use crate::registers::{Flags, Reg16, Registers};
use vstd::prelude::*;

verus! {

/// The address `0xFF00 + offset` in the page of I/O registers and high RAM.
pub open spec fn high_page(offset: u8) -> u16 {
    (0xFF00 + offset) as u16
}

impl CpuView {
    /// This state with other registers.
    pub open spec fn with_regs(self, regs: Registers) -> CpuView {
        CpuView { regs, ..self }
    }

    /// This state with other memory.
    pub open spec fn with_mem(self, mem: BusView) -> CpuView {
        CpuView { mem, ..self }
    }

    /// This state with the program counter at `pc`.
    pub open spec fn with_pc(self, pc: u16) -> CpuView {
        self.with_regs(Registers { pc, ..self.regs })
    }

    /// This state with `a` in the accumulator.
    pub open spec fn with_a(self, a: u8) -> CpuView {
        self.with_regs(Registers { a, ..self.regs })
    }

    /// This state with a 16-bit register replaced.
    pub open spec fn with_reg16(self, rr: Reg16, value: u16) -> CpuView {
        self.with_regs(self.regs.with_reg16(rr, value))
    }

    /// This state with the flag register holding exactly `flags`.
    pub open spec fn with_flags(self, flags: Flags) -> CpuView {
        self.with_regs(self.regs.with_flags(flags))
    }

    /// The value of the pair H, L.
    pub open spec fn hl(self) -> u16 {
        self.regs.reg16(Reg16::HL)
    }

    /// This state with `value` in the pair H, L.
    pub open spec fn with_hl(self, value: u16) -> CpuView {
        self.with_reg16(Reg16::HL, value)
    }

    /// The byte operand: the byte at the program counter.
    pub open spec fn imm8(self) -> u8 {
        self.mem.read(self.regs.pc)
    }

    /// The word operand: the little-endian word at the program counter.
    pub open spec fn imm16(self) -> u16 {
        self.mem.read_short(self.regs.pc)
    }

    /// This state with the program counter moved forward by `n`.
    pub open spec fn skip(self, n: int) -> CpuView {
        self.with_pc(wrap16(self.regs.pc + n))
    }

    /// The byte that a place holds.
    pub open spec fn place_value(self, p: Place) -> u8 {
        match p {
            Place::Reg(r) => self.regs.reg(r),
            Place::AtHl => self.mem.read(self.hl()),
        }
    }

    /// This state after `v` is written to a place.
    pub open spec fn with_place(self, p: Place, v: u8) -> CpuView {
        match p {
            Place::Reg(r) => self.with_regs(self.regs.with_reg(r, v)),
            Place::AtHl => self.with_mem(self.mem.write(self.hl(), v)),
        }
    }

    /// The byte that a source supplies.
    pub open spec fn source_value(self, s: Source) -> u8 {
        match s {
            Source::Reg(r) => self.regs.reg(r),
            Source::AtHl => self.mem.read(self.hl()),
            Source::Imm => self.imm8(),
        }
    }

    /// This state after a source was read: a byte operand is consumed.
    pub open spec fn past_source(self, s: Source) -> CpuView {
        match s {
            Source::Imm => self.skip(1),
            _ => self,
        }
    }

    /// Whether a branch condition holds.
    pub open spec fn holds(self, c: Cond) -> bool {
        match c {
            Cond::Always => true,
            Cond::NotZero => !self.regs.flags().zero,
            Cond::Zero => self.regs.flags().zero,
            Cond::NoCarry => !self.regs.flags().carry,
            Cond::Carry => self.regs.flags().carry,
        }
    }

    /// This state after `value` is pushed: the stack pointer moves down by
    /// two and the word is stored where it then points.
    pub open spec fn pushed(self, value: u16) -> CpuView {
        let sp = wrap16(self.regs.sp - 2);
        CpuView { regs: Registers { sp, ..self.regs }, mem: self.mem.write_short(sp, value), ..self }
    }

    /// The word on top of the stack.
    pub open spec fn stack_top(self) -> u16 {
        self.mem.read_short(self.regs.sp)
    }

    /// This state after the word on top of the stack is dropped.
    pub open spec fn dropped(self) -> CpuView {
        self.with_regs(Registers { sp: wrap16(self.regs.sp + 2), ..self.regs })
    }
}

/// The value that a pop puts in a register pair. The flag register's lower
/// nibble does not exist, so the pair A, F gets it cleared.
pub open spec fn popped_value(rr: Reg16, top: u16) -> u16 {
    if rr == Reg16::AF {
        clear_low_nibble(top)
    } else {
        top
    }
}

/// The state after one instruction.
pub open spec fn step(s: CpuView, ins: Instruction) -> CpuView {
    match ins {
        Instruction::Nop => s,
        Instruction::Stop => CpuView { stopped: true, ..s.skip(1) },
        Instruction::Halt => CpuView { halted: true, ..s },
        Instruction::DisableInterrupts => CpuView { ime: false, ..s },
        Instruction::EnableInterrupts => CpuView { ime: true, ..s },
        Instruction::Load { dst, src } => s.past_source(src).with_place(dst, s.source_value(src)),
        Instruction::LoadAFromPair(rr) => s.with_a(s.mem.read(s.regs.reg16(rr))),
        Instruction::StoreAToPair(rr) => s.with_mem(s.mem.write(s.regs.reg16(rr), s.regs.a)),
        Instruction::LoadAFromHlInc => s.with_a(s.mem.read(s.hl())).with_hl(wrap16(s.hl() + 1)),
        Instruction::LoadAFromHlDec => s.with_a(s.mem.read(s.hl())).with_hl(wrap16(s.hl() - 1)),
        Instruction::StoreAToHlInc => s.with_mem(s.mem.write(s.hl(), s.regs.a)).with_hl(
            wrap16(s.hl() + 1),
        ),
        Instruction::StoreAToHlDec => s.with_mem(s.mem.write(s.hl(), s.regs.a)).with_hl(
            wrap16(s.hl() - 1),
        ),
        Instruction::LoadAFromHigh => s.skip(1).with_a(s.mem.read(high_page(s.imm8()))),
        Instruction::StoreAToHigh => s.skip(1).with_mem(
            s.mem.write(high_page(s.imm8()), s.regs.a),
        ),
        Instruction::LoadAFromHighC => s.with_a(s.mem.read(high_page(s.regs.c))),
        Instruction::StoreAToHighC => s.with_mem(s.mem.write(high_page(s.regs.c), s.regs.a)),
        Instruction::LoadAFromAbs => s.skip(2).with_a(s.mem.read(s.imm16())),
        Instruction::StoreAToAbs => s.skip(2).with_mem(s.mem.write(s.imm16(), s.regs.a)),
        Instruction::LoadWord(rr) => s.skip(2).with_reg16(rr, s.imm16()),
        Instruction::StoreSp => s.skip(2).with_mem(s.mem.write_short(s.imm16(), s.regs.sp)),
        Instruction::LoadSpFromHl => s.with_reg16(Reg16::SP, s.hl()),
        Instruction::LoadHlFromSpOffset => {
            let r = add_signed16(s.regs.sp, s.imm8());
            s.skip(1).with_hl(r.0).with_flags(r.1)
        },
        Instruction::Push(rr) => s.pushed(s.regs.reg16(rr)),
        Instruction::Pop(rr) => s.dropped().with_reg16(rr, popped_value(rr, s.stack_top())),
        Instruction::Inc(p) => {
            let r = inc8(s.place_value(p), s.regs.flags());
            s.with_place(p, r.0).with_flags(r.1)
        },
        Instruction::Dec(p) => {
            let r = dec8(s.place_value(p), s.regs.flags());
            s.with_place(p, r.0).with_flags(r.1)
        },
        Instruction::IncWord(rr) => s.with_reg16(rr, wrap16(s.regs.reg16(rr) + 1)),
        Instruction::DecWord(rr) => s.with_reg16(rr, wrap16(s.regs.reg16(rr) - 1)),
        Instruction::AddHl(rr) => {
            let r = add16(s.hl(), s.regs.reg16(rr), s.regs.flags());
            s.with_hl(r.0).with_flags(r.1)
        },
        Instruction::Alu(op, src) => {
            let r = alu(op, s.regs.a, s.source_value(src), s.regs.flags());
            s.past_source(src).with_a(r.0).with_flags(r.1)
        },
        Instruction::DecimalAdjust => {
            let r = daa8(s.regs.a, s.regs.flags());
            s.with_a(r.0).with_flags(r.1)
        },
        Instruction::Complement => {
            let r = cpl8(s.regs.a, s.regs.flags());
            s.with_a(r.0).with_flags(r.1)
        },
        Instruction::SetCarry => s.with_flags(scf(s.regs.flags())),
        Instruction::ComplementCarry => s.with_flags(ccf(s.regs.flags())),
        Instruction::RotateLeftA => {
            let r = rla8(s.regs.a, s.regs.flags());
            s.with_a(r.0).with_flags(r.1)
        },
        Instruction::RotateRightA => {
            let r = rra8(s.regs.a, s.regs.flags());
            s.with_a(r.0).with_flags(r.1)
        },
        Instruction::JumpRelative(c) => if s.holds(c) {
            s.with_pc(offset16(wrap16(s.regs.pc + 1), s.imm8()))
        } else {
            s.skip(1)
        },
        Instruction::Jump(c) => if s.holds(c) {
            s.with_pc(s.imm16())
        } else {
            s.skip(2)
        },
        Instruction::JumpHl => s.with_pc(s.hl()),
        Instruction::Call(c) => if s.holds(c) {
            s.pushed(wrap16(s.regs.pc + 2)).with_pc(s.imm16())
        } else {
            s.skip(2)
        },
        Instruction::Return(c) => if s.holds(c) {
            s.dropped().with_pc(s.stack_top())
        } else {
            s
        },
        Instruction::ReturnEnable => CpuView { ime: true, ..s.dropped().with_pc(s.stack_top()) },
        Instruction::Restart(target) => s.pushed(s.regs.pc).with_pc(target as u16),
    }
}

/// What access to a place adds to an instruction's cost.
pub open spec fn place_cost(p: Place) -> int {
    match p {
        Place::Reg(_) => 0,
        Place::AtHl => 4,
    }
}

/// What reading a source adds to an instruction's cost.
pub open spec fn source_cost(s: Source) -> int {
    match s {
        Source::Reg(_) => 0,
        Source::AtHl => 4,
        Source::Imm => 4,
    }
}

/// The number of clock cycles that an instruction takes in state `s`. Only a
/// conditional branch depends on the state: it costs more when it is taken.
pub open spec fn cost(s: CpuView, ins: Instruction) -> int {
    match ins {
        Instruction::Nop => 4,
        Instruction::Stop => 4,
        Instruction::Halt => 4,
        Instruction::DisableInterrupts => 4,
        Instruction::EnableInterrupts => 4,
        Instruction::Load { dst, src } => 4 + place_cost(dst) + source_cost(src),
        Instruction::LoadAFromPair(_) => 8,
        Instruction::StoreAToPair(_) => 8,
        Instruction::LoadAFromHlInc => 8,
        Instruction::LoadAFromHlDec => 8,
        Instruction::StoreAToHlInc => 8,
        Instruction::StoreAToHlDec => 8,
        Instruction::LoadAFromHigh => 12,
        Instruction::StoreAToHigh => 12,
        Instruction::LoadAFromHighC => 8,
        Instruction::StoreAToHighC => 8,
        Instruction::LoadAFromAbs => 16,
        Instruction::StoreAToAbs => 16,
        Instruction::LoadWord(_) => 12,
        Instruction::StoreSp => 20,
        Instruction::LoadSpFromHl => 8,
        Instruction::LoadHlFromSpOffset => 12,
        Instruction::Push(_) => 16,
        Instruction::Pop(_) => 12,
        Instruction::Inc(p) => 4 + 2 * place_cost(p),
        Instruction::Dec(p) => 4 + 2 * place_cost(p),
        Instruction::IncWord(_) => 8,
        Instruction::DecWord(_) => 8,
        Instruction::AddHl(_) => 8,
        Instruction::Alu(_, src) => 4 + source_cost(src),
        Instruction::DecimalAdjust => 4,
        Instruction::Complement => 4,
        Instruction::SetCarry => 4,
        Instruction::ComplementCarry => 4,
        Instruction::RotateLeftA => 4,
        Instruction::RotateRightA => 4,
        Instruction::JumpRelative(c) => if s.holds(c) {
            12
        } else {
            8
        },
        Instruction::Jump(c) => if s.holds(c) {
            16
        } else {
            12
        },
        Instruction::JumpHl => 4,
        Instruction::Call(c) => if s.holds(c) {
            24
        } else {
            12
        },
        Instruction::Return(c) => if c == Cond::Always {
            16
        } else if s.holds(c) {
            20
        } else {
            8
        },
        Instruction::ReturnEnable => 16,
        Instruction::Restart(_) => 16,
    }
}

} // verus!
