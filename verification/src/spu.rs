//! Sound register file.
//!
//! The core stores the audio registers (`FF10-FF3F`) and hands them
//! back on reads; no synthesis happens here.

use vstd::prelude::*;

verus! {

/// The 48-byte audio register file.
#[derive(Debug, Clone, PartialEq, Eq)]
pub struct Spu {
    pub regs: Vec<u8>,
}

/// Well-formed register file: one byte per address in `FF10-FF3F`.
pub open spec fn spec_spu_wf(s: Spu) -> bool {
    s.regs@.len() == 0x30
}

impl Spu {
    /// The power-on register file: all zero.
    pub fn new() -> (r: Spu)
        ensures
            spec_spu_wf(r),
            r.regs@ =~= Seq::new(0x30, |i: int| 0u8),
    {
        let regs = crate::filled_vec(0u8, 0x30);
        proof {
            assert(regs@ =~= Seq::new(0x30, |i: int| 0u8));
        }
        Spu { regs }
    }

    /// Read an audio register.
    pub fn read(&self, addr: u16) -> (r: u8)
        requires
            spec_spu_wf(*self),
            0xff10 <= addr <= 0xff3f,
        ensures
            r == self.regs@[addr - 0xff10],
    {
        self.regs[(addr - 0xff10) as usize]
    }

    /// Write an audio register.
    pub fn write(&mut self, addr: u16, val: u8)
        requires
            spec_spu_wf(*old(self)),
            0xff10 <= addr <= 0xff3f,
        ensures
            final(self).regs@ == old(self).regs@.update(addr - 0xff10, val),
            spec_spu_wf(*final(self)),
    {
        let i = (addr - 0xff10) as usize;
        self.regs[i] = val;
    }
}

} // verus!
