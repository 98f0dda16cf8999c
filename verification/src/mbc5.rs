//! The fifth memory bank controller: a 9-bit ROM bank split across two
//! registers and a 4-bit RAM bank. Bank zero is not promoted.

use vstd::prelude::*;

verus! {

/// MBC5 state: banked external RAM and the control registers.
#[derive(Debug, Clone, PartialEq, Eq)]
pub struct Mbc5 {
    pub ram: Vec<u8>,
    pub ram_enable: bool,
    pub bank_lo: u8,
    pub bank_hi: u8,
    pub ram_bank: u8,
}

/// Mathematical view of MBC5 state.
#[verifier::ext_equal]
pub struct Mbc5View {
    pub ram: Seq<u8>,
    pub ram_enable: bool,
    pub bank_lo: u8,
    pub bank_hi: u8,
    pub ram_bank: u8,
}

impl View for Mbc5 {
    type V = Mbc5View;

    open spec fn view(&self) -> Mbc5View {
        Mbc5View {
            ram: self.ram@,
            ram_enable: self.ram_enable,
            bank_lo: self.bank_lo,
            bank_hi: self.bank_hi,
            ram_bank: self.ram_bank,
        }
    }
}

/// Well-formed MBC5: the high ROM-bank register holds one bit and the
/// RAM bank four bits.
pub open spec fn spec_mbc5_wf(m: Mbc5View) -> bool {
    &&& m.bank_hi < 2
    &&& m.ram_bank < 16
}

/// The fresh MBC5 over the given external RAM.
pub open spec fn spec_mbc5_new(ram: Seq<u8>) -> Mbc5View {
    Mbc5View { ram, ram_enable: false, bank_lo: 1, bank_hi: 0, ram_bank: 0 }
}

/// The ROM offset a bus address reaches.
pub open spec fn spec_mbc5_rom_index(m: Mbc5View, addr: u16) -> int {
    if addr < 0x4000 {
        addr as int
    } else {
        (m.bank_hi * 256 + m.bank_lo) * 0x4000 + (addr - 0x4000)
    }
}

/// The byte a ROM read returns: the banked byte, or `0xFF` beyond the
/// end of the image.
pub open spec fn spec_mbc5_rom_read(rom: Seq<u8>, m: Mbc5View, addr: u16) -> u8 {
    let i = spec_mbc5_rom_index(m, addr);
    if i < rom.len() {
        rom[i]
    } else {
        0xff
    }
}

/// The MBC5 after a control write: RAM enable, the low eight ROM-bank
/// bits, the ninth ROM-bank bit, and the RAM bank.
pub open spec fn spec_mbc5_ctrl(m: Mbc5View, addr: u16, val: u8) -> Mbc5View {
    if addr < 0x2000 {
        Mbc5View { ram_enable: val % 16 == 0x0a, ..m }
    } else if addr < 0x3000 {
        Mbc5View { bank_lo: val, ..m }
    } else if addr < 0x4000 {
        Mbc5View { bank_hi: (val % 2) as u8, ..m }
    } else if addr < 0x6000 {
        Mbc5View { ram_bank: (val % 16) as u8, ..m }
    } else {
        m
    }
}

/// The external-RAM offset a bus address reaches.
pub open spec fn spec_mbc5_ram_index(m: Mbc5View, addr: u16) -> int {
    m.ram_bank * 0x2000 + (addr - 0xa000)
}

/// The byte an external-RAM read returns: `0xFF` while RAM is disabled
/// or beyond the allocated size.
pub open spec fn spec_mbc5_ram_read(m: Mbc5View, addr: u16) -> u8 {
    let i = spec_mbc5_ram_index(m, addr);
    if m.ram_enable && i < m.ram.len() {
        m.ram[i]
    } else {
        0xff
    }
}

/// The MBC5 after an external-RAM write: ignored while RAM is disabled
/// or beyond the allocated size.
pub open spec fn spec_mbc5_ram_write(m: Mbc5View, addr: u16, val: u8) -> Mbc5View {
    let i = spec_mbc5_ram_index(m, addr);
    if m.ram_enable && i < m.ram.len() {
        Mbc5View { ram: m.ram.update(i, val), ..m }
    } else {
        m
    }
}

impl Mbc5 {
    /// A fresh MBC5 over the given external RAM.
    pub fn new(ram: Vec<u8>) -> (r: Mbc5)
        ensures
            r@ == spec_mbc5_new(ram@),
            spec_mbc5_wf(r@),
    {
        Mbc5 { ram, ram_enable: false, bank_lo: 1, bank_hi: 0, ram_bank: 0 }
    }

    /// Read a byte of the cartridge ROM window.
    pub fn read(&self, rom: &Vec<u8>, addr: u16) -> (r: u8)
        requires
            spec_mbc5_wf(self@),
            addr < 0x8000,
        ensures
            r == spec_mbc5_rom_read(rom@, self@, addr),
    {
        if addr < 0x4000 {
            if (addr as usize) < rom.len() {
                rom[addr as usize]
            } else {
                0xff
            }
        } else {
            let bank: usize = (self.bank_hi as usize) * 256 + (self.bank_lo as usize);
            let i: usize = bank * 0x4000 + ((addr - 0x4000) as usize);
            if i < rom.len() {
                rom[i]
            } else {
                0xff
            }
        }
    }

    /// Apply a control write in the ROM address range.
    pub fn write(&mut self, addr: u16, val: u8)
        requires
            spec_mbc5_wf(old(self)@),
            addr < 0x8000,
        ensures
            final(self)@ == spec_mbc5_ctrl(old(self)@, addr, val),
            spec_mbc5_wf(final(self)@),
    {
        if addr < 0x2000 {
            self.ram_enable = val % 16 == 0x0a;
        } else if addr < 0x3000 {
            self.bank_lo = val;
        } else if addr < 0x4000 {
            self.bank_hi = val % 2;
        } else if addr < 0x6000 {
            self.ram_bank = val % 16;
        }
    }

    /// Read a byte of external RAM.
    pub fn read_ram(&self, addr: u16) -> (r: u8)
        requires
            spec_mbc5_wf(self@),
            0xa000 <= addr < 0xc000,
        ensures
            r == spec_mbc5_ram_read(self@, addr),
    {
        let i: usize = (self.ram_bank as usize) * 0x2000 + ((addr - 0xa000) as usize);
        if self.ram_enable && i < self.ram.len() {
            self.ram[i]
        } else {
            0xff
        }
    }

    /// Write a byte of external RAM.
    pub fn write_ram(&mut self, addr: u16, val: u8)
        requires
            spec_mbc5_wf(old(self)@),
            0xa000 <= addr < 0xc000,
        ensures
            final(self)@ == spec_mbc5_ram_write(old(self)@, addr, val),
            spec_mbc5_wf(final(self)@),
    {
        let i: usize = (self.ram_bank as usize) * 0x2000 + ((addr - 0xa000) as usize);
        if self.ram_enable && i < self.ram.len() {
            self.ram[i] = val;
        }
    }

    /// Snapshot the external RAM, if any was allocated.
    pub fn copy_ram(&self) -> (r: Option<Vec<u8>>)
        ensures
            self.ram@.len() > 0 ==> r is Some && r.unwrap()@ == self.ram@,
            self.ram@.len() == 0 ==> r is None,
    {
        if self.ram.len() > 0 {
            Some(crate::clone_bytes(&self.ram))
        } else {
            None
        }
    }
}

} // verus!
