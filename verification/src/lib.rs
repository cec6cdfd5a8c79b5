//! A verified core for an 8-bit handheld console: the register file, the
//! memory bus with its mirrored and reserved regions, and the instruction
//! dispatcher that decodes one opcode and runs its handler.
//!
//! Every executable function carries a contract over a mathematical model of
//! the machine state; the instruction set itself is given once, as a pure
//! function from state to state.
//!
//! * [`registers`] and [`bits`]: the register file, register pairs, flags.
//! * [`mem`], with [`rom`], [`gpu`] and [`io`]: the bus, what it owns and
//!   what it routes to.
//! * [`instruction`] and [`decode`]: what each opcode stands for.
//! * [`semantics`] and [`alu`]: what each instruction does and costs.
//! * [`instrs`]: the dispatcher, on top of the handler families in
//!   [`special`], [`loads`], [`loads16`], [`arith`] and [`jumps`].
//! * [`laws`]: what holds of the instruction set as a whole.
//!
//! The stepping loop around the dispatcher is the caller's: it fetches the
//! instruction word, moves the program counter past the opcode, calls
//! [`instrs::execute_instruction`], and accounts for the cycles returned.

pub mod alu;
pub mod arith;
pub mod bits;
pub mod cpu;
pub mod decode;
pub mod gpu;
pub mod instrs;
pub mod instruction;
pub mod io;
pub mod jumps;
pub mod laws;
pub mod loads;
pub mod loads16;
pub mod mem;
pub mod operands;
pub mod registers;
pub mod rom;
pub mod semantics;
pub mod special;
