//! The first memory bank controller: a 5-bit and a 2-bit bank register,
//! a mode flag, and a RAM-enable latch.

use vstd::prelude::*;

verus! {

/// MBC1 state: the banked external RAM and the four control registers.
#[derive(Debug, Clone, PartialEq, Eq)]
pub struct Mbc1 {
    pub ram: Vec<u8>,
    pub ram_enable: bool,
    pub bank_lo: u8,
    pub bank_hi: u8,
    pub mode: u8,
}

/// Mathematical view of MBC1 state.
#[verifier::ext_equal]
pub struct Mbc1View {
    pub ram: Seq<u8>,
    pub ram_enable: bool,
    pub bank_lo: u8,
    pub bank_hi: u8,
    pub mode: u8,
}

impl View for Mbc1 {
    type V = Mbc1View;

    open spec fn view(&self) -> Mbc1View {
        Mbc1View {
            ram: self.ram@,
            ram_enable: self.ram_enable,
            bank_lo: self.bank_lo,
            bank_hi: self.bank_hi,
            mode: self.mode,
        }
    }
}

/// Well-formed MBC1: the low bank register holds five bits and is never
/// zero, the high register two bits, the mode flag one bit.
pub open spec fn spec_mbc1_wf(m: Mbc1View) -> bool {
    &&& 1 <= m.bank_lo < 32
    &&& m.bank_hi < 4
    &&& m.mode < 2
}

/// The fresh MBC1 over the given external RAM.
pub open spec fn spec_mbc1_new(ram: Seq<u8>) -> Mbc1View {
    Mbc1View { ram, ram_enable: false, bank_lo: 1, bank_hi: 0, mode: 0 }
}

/// The ROM bank that the switchable window addresses: in ROM-banking
/// mode the high register supplies bits 5-6.
pub open spec fn spec_mbc1_rom_bank(m: Mbc1View) -> int {
    if m.mode == 0 {
        m.bank_hi * 32 + m.bank_lo
    } else {
        m.bank_lo as int
    }
}

/// The ROM offset a bus address reaches.
pub open spec fn spec_mbc1_rom_index(m: Mbc1View, addr: u16) -> int {
    if addr < 0x4000 {
        addr as int
    } else {
        spec_mbc1_rom_bank(m) * 0x4000 + (addr - 0x4000)
    }
}

/// The byte a ROM read returns: the banked byte, or `0xFF` beyond the
/// end of the image.
pub open spec fn spec_mbc1_rom_read(rom: Seq<u8>, m: Mbc1View, addr: u16) -> u8 {
    let i = spec_mbc1_rom_index(m, addr);
    if i < rom.len() {
        rom[i]
    } else {
        0xff
    }
}

/// The MBC1 after a control write: the four address quarters of the ROM
/// window gate RAM, set the low bank bits (zero promoted to one), set
/// the high bank bits, and select the banking mode.
pub open spec fn spec_mbc1_ctrl(m: Mbc1View, addr: u16, val: u8) -> Mbc1View {
    if addr < 0x2000 {
        Mbc1View { ram_enable: val % 16 == 0x0a, ..m }
    } else if addr < 0x4000 {
        Mbc1View {
            bank_lo: if val % 32 == 0 {
                1u8
            } else {
                (val % 32) as u8
            },
            ..m
        }
    } else if addr < 0x6000 {
        Mbc1View { bank_hi: (val % 4) as u8, ..m }
    } else {
        Mbc1View { mode: (val % 2) as u8, ..m }
    }
}

/// The external-RAM offset a bus address reaches: banked only in
/// RAM-banking mode.
pub open spec fn spec_mbc1_ram_index(m: Mbc1View, addr: u16) -> int {
    let bank: int = if m.mode == 1 {
        m.bank_hi as int
    } else {
        0
    };
    bank * 0x2000 + (addr - 0xa000)
}

/// The byte an external-RAM read returns: `0xFF` while RAM is disabled
/// or beyond the allocated size.
pub open spec fn spec_mbc1_ram_read(m: Mbc1View, addr: u16) -> u8 {
    let i = spec_mbc1_ram_index(m, addr);
    if m.ram_enable && i < m.ram.len() {
        m.ram[i]
    } else {
        0xff
    }
}

/// The MBC1 after an external-RAM write: ignored while RAM is disabled
/// or beyond the allocated size.
pub open spec fn spec_mbc1_ram_write(m: Mbc1View, addr: u16, val: u8) -> Mbc1View {
    let i = spec_mbc1_ram_index(m, addr);
    if m.ram_enable && i < m.ram.len() {
        Mbc1View { ram: m.ram.update(i, val), ..m }
    } else {
        m
    }
}

impl Mbc1 {
    /// A fresh MBC1 over the given external RAM.
    pub fn new(ram: Vec<u8>) -> (r: Mbc1)
        ensures
            r@ == spec_mbc1_new(ram@),
            spec_mbc1_wf(r@),
    {
        Mbc1 { ram, ram_enable: false, bank_lo: 1, bank_hi: 0, mode: 0 }
    }

    /// Read a byte of the cartridge ROM window.
    pub fn read(&self, rom: &Vec<u8>, addr: u16) -> (r: u8)
        requires
            spec_mbc1_wf(self@),
            addr < 0x8000,
        ensures
            r == spec_mbc1_rom_read(rom@, self@, addr),
    {
        if addr < 0x4000 {
            if (addr as usize) < rom.len() {
                rom[addr as usize]
            } else {
                0xff
            }
        } else {
            let bank: usize = if self.mode == 0 {
                (self.bank_hi as usize) * 32 + (self.bank_lo as usize)
            } else {
                self.bank_lo as usize
            };
            let i: usize = bank * 0x4000 + ((addr - 0x4000) as usize);
            if i < rom.len() {
                rom[i]
            } else {
                0xff
            }
        }
    }

    /// Apply a control write in the ROM address range.
    pub fn write(&mut self, addr: u16, val: u8)
        requires
            spec_mbc1_wf(old(self)@),
            addr < 0x8000,
        ensures
            final(self)@ == spec_mbc1_ctrl(old(self)@, addr, val),
            spec_mbc1_wf(final(self)@),
    {
        if addr < 0x2000 {
            self.ram_enable = val % 16 == 0x0a;
        } else if addr < 0x4000 {
            let b = val % 32;
            self.bank_lo = if b == 0 {
                1
            } else {
                b
            };
        } else if addr < 0x6000 {
            self.bank_hi = val % 4;
        } else {
            self.mode = val % 2;
        }
    }

    /// Read a byte of external RAM.
    pub fn read_ram(&self, addr: u16) -> (r: u8)
        requires
            spec_mbc1_wf(self@),
            0xa000 <= addr < 0xc000,
        ensures
            r == spec_mbc1_ram_read(self@, addr),
    {
        let bank: usize = if self.mode == 1 {
            self.bank_hi as usize
        } else {
            0
        };
        let i: usize = bank * 0x2000 + ((addr - 0xa000) as usize);
        if self.ram_enable && i < self.ram.len() {
            self.ram[i]
        } else {
            0xff
        }
    }

    /// Write a byte of external RAM.
    pub fn write_ram(&mut self, addr: u16, val: u8)
        requires
            spec_mbc1_wf(old(self)@),
            0xa000 <= addr < 0xc000,
        ensures
            final(self)@ == spec_mbc1_ram_write(old(self)@, addr, val),
            spec_mbc1_wf(final(self)@),
    {
        let bank: usize = if self.mode == 1 {
            self.bank_hi as usize
        } else {
            0
        };
        let i: usize = bank * 0x2000 + ((addr - 0xa000) as usize);
        if self.ram_enable && i < self.ram.len() {
            self.ram[i] = val;
        }
    }

    /// Snapshot the external RAM, if any was allocated.
    pub fn copy_ram(&self) -> (r: Option<Vec<u8>>)
        ensures
            self.ram@.len() > 0 ==> r is Some && r.unwrap()@ == self.ram@,
            self.ram@.len() == 0 ==> r is None,
    {
        if self.ram.len() > 0 {
            Some(crate::clone_bytes(&self.ram))
        } else {
            None
        }
    }
}

} // verus!
