//! The processor: the register file, the bus it drives, and the three
//! latches that the control instructions set.

use crate::mem::{BusView, GBMemory};
use crate::registers::Registers;
use vstd::prelude::*;

verus! {

/// The processor together with the bus it owns.
pub struct CPU {
    pub regs: Registers,
    pub mem: GBMemory,
    /// Interrupts are enabled.
    pub ime: bool,
    /// Instruction fetching is suspended until an interrupt is pending.
    pub halted: bool,
    /// The processor is stopped until a button is pressed.
    pub stopped: bool,
}

/// The state of the machine: registers, memory and the control latches.
#[verifier::ext_equal]
pub struct CpuView {
    pub regs: Registers,
    pub mem: BusView,
    pub ime: bool,
    pub halted: bool,
    pub stopped: bool,
}

impl CpuView {
    /// The memory behind this state is well formed.
    pub open spec fn wf(self) -> bool {
        self.mem.wf()
    }
}

impl View for CPU {
    type V = CpuView;

    open spec fn view(&self) -> CpuView {
        CpuView {
            regs: self.regs,
            mem: self.mem@,
            ime: self.ime,
            halted: self.halted,
            stopped: self.stopped,
        }
    }
}

impl CPU {
    /// A processor on the given bus: every register zero, interrupts
    /// disabled, running.
    pub fn build(mem: GBMemory) -> (cpu: CPU)
        ensures
            cpu@ == (CpuView {
                regs: Registers { a: 0, f: 0, b: 0, c: 0, d: 0, e: 0, h: 0, l: 0, sp: 0, pc: 0 },
                mem: mem@,
                ime: false,
                halted: false,
                stopped: false,
            }),
    {
        CPU { regs: Registers::new(), mem, ime: false, halted: false, stopped: false }
    }

    /// The view of a processor is always well formed.
    pub proof fn lemma_view_wf(self)
        ensures
            self@.wf(),
    {
        self.mem.lemma_view_wf();
    }
}

} // verus!
