//! Work RAM: eight 4 KiB banks.
//!
//! `C000-CFFF` always addresses bank 0; `D000-DFFF` addresses the
//! selected bank, never bank 0.

use vstd::prelude::*;

verus! {

/// Work RAM storage plus the selected upper bank.
#[derive(Debug, Clone, PartialEq, Eq)]
pub struct Ram {
    pub bytes: Vec<u8>,
    pub bank_select: u8,
}

/// Well-formed work RAM: 32 KiB of storage, upper bank between 1 and 7.
pub open spec fn spec_ram_wf(r: Ram) -> bool {
    &&& r.bytes@.len() == 0x8000
    &&& 1 <= r.bank_select <= 7
}

/// The byte offset a bus address reaches in work RAM storage, given the
/// selected upper bank.
pub open spec fn spec_ram_index(bank_select: u8, addr: u16) -> int {
    if addr < 0xd000 {
        addr - 0xc000
    } else {
        bank_select * 0x1000 + (addr - 0xd000)
    }
}

impl Ram {
    /// Fresh work RAM: zeroed, upper bank 1.
    pub fn new() -> (r: Ram)
        ensures
            spec_ram_wf(r),
            r.bank_select == 1,
            r.bytes@ =~= Seq::new(0x8000, |i: int| 0u8),
    {
        let bytes = crate::filled_vec(0u8, 0x8000);
        proof {
            assert(bytes@ =~= Seq::new(0x8000, |i: int| 0u8));
        }
        Ram { bytes, bank_select: 1 }
    }

    /// Read a work-RAM byte.
    pub fn read(&self, address: u16) -> (r: u8)
        requires
            spec_ram_wf(*self),
            0xc000 <= address <= 0xdfff,
        ensures
            r == self.bytes@[spec_ram_index(self.bank_select, address)],
    {
        if address < 0xd000 {
            self.bytes[(address - 0xc000) as usize]
        } else {
            self.bytes[(self.bank_select as usize) * 0x1000 + ((address - 0xd000) as usize)]
        }
    }

    /// Write a work-RAM byte.
    pub fn write(&mut self, address: u16, value: u8)
        requires
            spec_ram_wf(*old(self)),
            0xc000 <= address <= 0xdfff,
        ensures
            final(self).bytes@ == old(self).bytes@.update(
                spec_ram_index(old(self).bank_select, address),
                value,
            ),
            final(self).bank_select == old(self).bank_select,
            spec_ram_wf(*final(self)),
    {
        if address < 0xd000 {
            let i = (address - 0xc000) as usize;
            self.bytes[i] = value;
        } else {
            let i = (self.bank_select as usize) * 0x1000 + ((address - 0xd000) as usize);
            self.bytes[i] = value;
        }
    }

    /// Select the upper work-RAM bank from the low three bits of the
    /// value, with zero promoted to one.
    pub fn set_bank(&mut self, val: u8)
        ensures
            final(self).bytes == old(self).bytes,
            final(self).bank_select == if val % 8 == 0 {
                1u8
            } else {
                (val % 8) as u8
            },
            spec_ram_wf(*old(self)) ==> spec_ram_wf(*final(self)),
    {
        let b = val % 8;
        self.bank_select = if b == 0 {
            1
        } else {
            b
        };
    }
}

} // verus!
