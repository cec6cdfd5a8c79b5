//! The video subsystem's memory: video RAM and sprite attribute memory, which
//! the bus addresses by offset.

use crate::rom::zeros;
use vstd::prelude::*;

verus! {

/// The memory that the video subsystem owns.
pub struct GPU {
    pub vram: [u8; 8192],
    pub oam: [u8; 160],
}

/// The video memory as two sequences of bytes.
#[verifier::ext_equal]
pub struct GpuView {
    pub vram: Seq<u8>,
    pub oam: Seq<u8>,
}

impl GpuView {
    /// Both buffers have their full size.
    pub open spec fn wf(self) -> bool {
        self.vram.len() == 8192 && self.oam.len() == 160
    }
}

impl View for GPU {
    type V = GpuView;

    open spec fn view(&self) -> GpuView {
        GpuView { vram: self.vram@, oam: self.oam@ }
    }
}

impl GPU {
    /// Video memory with every byte zero.
    pub fn build() -> (gpu: GPU)
        ensures
            gpu@ == (GpuView { vram: zeros(8192), oam: zeros(160) }),
            gpu@.wf(),
    {
        GPU { vram: [0u8; 8192], oam: [0u8; 160] }
    }
}

} // verus!
