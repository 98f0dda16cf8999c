//! The third memory bank controller: a 7-bit ROM bank, a RAM-bank or
//! RTC-register selector, and a latch that freezes the RTC for reading.

use vstd::prelude::*;

verus! {

/// The five real-time-clock registers.
#[derive(Debug, Copy, Clone, PartialEq, Eq, Structural)]
pub struct Rtc {
    pub seconds: u8,
    pub minutes: u8,
    pub hours: u8,
    pub days_low: u8,
    pub days_high: u8,
}

/// The all-zero clock.
pub open spec fn spec_rtc_zero() -> Rtc {
    Rtc { seconds: 0, minutes: 0, hours: 0, days_low: 0, days_high: 0 }
}

/// MBC3 state: banked external RAM, the control registers and the two
/// clock register files (running and latched).
#[derive(Debug, Clone, PartialEq, Eq)]
pub struct Mbc3 {
    pub ram: Vec<u8>,
    pub ram_enable: bool,
    pub rom_bank: u8,
    pub ram_sel: u8,
    pub rtc: Rtc,
    pub latched_rtc: Rtc,
    pub rtc_latch: u8,
}

/// Mathematical view of MBC3 state.
#[verifier::ext_equal]
pub struct Mbc3View {
    pub ram: Seq<u8>,
    pub ram_enable: bool,
    pub rom_bank: u8,
    pub ram_sel: u8,
    pub rtc: Rtc,
    pub latched_rtc: Rtc,
    pub rtc_latch: u8,
}

impl View for Mbc3 {
    type V = Mbc3View;

    open spec fn view(&self) -> Mbc3View {
        Mbc3View {
            ram: self.ram@,
            ram_enable: self.ram_enable,
            rom_bank: self.rom_bank,
            ram_sel: self.ram_sel,
            rtc: self.rtc,
            latched_rtc: self.latched_rtc,
            rtc_latch: self.rtc_latch,
        }
    }
}

/// Well-formed MBC3: the ROM bank holds seven bits and is never zero.
pub open spec fn spec_mbc3_wf(m: Mbc3View) -> bool {
    1 <= m.rom_bank < 128
}

/// The fresh MBC3 over the given external RAM.
pub open spec fn spec_mbc3_new(ram: Seq<u8>) -> Mbc3View {
    Mbc3View {
        ram,
        ram_enable: false,
        rom_bank: 1,
        ram_sel: 0,
        rtc: spec_rtc_zero(),
        latched_rtc: spec_rtc_zero(),
        rtc_latch: 0,
    }
}

/// The ROM offset a bus address reaches.
pub open spec fn spec_mbc3_rom_index(m: Mbc3View, addr: u16) -> int {
    if addr < 0x4000 {
        addr as int
    } else {
        m.rom_bank * 0x4000 + (addr - 0x4000)
    }
}

/// The byte a ROM read returns: the banked byte, or `0xFF` beyond the
/// end of the image.
pub open spec fn spec_mbc3_rom_read(rom: Seq<u8>, m: Mbc3View, addr: u16) -> u8 {
    let i = spec_mbc3_rom_index(m, addr);
    if i < rom.len() {
        rom[i]
    } else {
        0xff
    }
}

/// The MBC3 after a control write: RAM enable, ROM bank (zero promoted
/// to one), RAM-bank or RTC selector, and the 0-to-1 latch edge that
/// freezes the running clock into the latched registers.
pub open spec fn spec_mbc3_ctrl(m: Mbc3View, addr: u16, val: u8) -> Mbc3View {
    if addr < 0x2000 {
        Mbc3View { ram_enable: val % 16 == 0x0a, ..m }
    } else if addr < 0x4000 {
        Mbc3View {
            rom_bank: if val % 128 == 0 {
                1u8
            } else {
                (val % 128) as u8
            },
            ..m
        }
    } else if addr < 0x6000 {
        Mbc3View { ram_sel: val, ..m }
    } else {
        let latched = if m.rtc_latch == 0 && val == 1 {
            m.rtc
        } else {
            m.latched_rtc
        };
        Mbc3View { latched_rtc: latched, rtc_latch: val, ..m }
    }
}

/// The external-RAM offset a bus address reaches for a RAM-bank
/// selector value.
pub open spec fn spec_mbc3_ram_index(m: Mbc3View, addr: u16) -> int {
    m.ram_sel * 0x2000 + (addr - 0xa000)
}

/// The byte an external-RAM read returns: a banked RAM byte for
/// selectors 0-3, a latched RTC register for selectors 8-12, `0xFF`
/// otherwise or while RAM is disabled.
pub open spec fn spec_mbc3_ram_read(m: Mbc3View, addr: u16) -> u8 {
    if !m.ram_enable {
        0xff
    } else if m.ram_sel <= 3 {
        let i = spec_mbc3_ram_index(m, addr);
        if i < m.ram.len() {
            m.ram[i]
        } else {
            0xff
        }
    } else if m.ram_sel == 0x08 {
        m.latched_rtc.seconds
    } else if m.ram_sel == 0x09 {
        m.latched_rtc.minutes
    } else if m.ram_sel == 0x0a {
        m.latched_rtc.hours
    } else if m.ram_sel == 0x0b {
        m.latched_rtc.days_low
    } else if m.ram_sel == 0x0c {
        m.latched_rtc.days_high
    } else {
        0xff
    }
}

/// The MBC3 after an external-RAM write: a banked RAM byte for
/// selectors 0-3, a masked running RTC register for selectors 8-12,
/// ignored otherwise or while RAM is disabled.
pub open spec fn spec_mbc3_ram_write(m: Mbc3View, addr: u16, val: u8) -> Mbc3View {
    if !m.ram_enable {
        m
    } else if m.ram_sel <= 3 {
        let i = spec_mbc3_ram_index(m, addr);
        if i < m.ram.len() {
            Mbc3View { ram: m.ram.update(i, val), ..m }
        } else {
            m
        }
    } else if m.ram_sel == 0x08 {
        Mbc3View { rtc: Rtc { seconds: (val % 64) as u8, ..m.rtc }, ..m }
    } else if m.ram_sel == 0x09 {
        Mbc3View { rtc: Rtc { minutes: (val % 64) as u8, ..m.rtc }, ..m }
    } else if m.ram_sel == 0x0a {
        Mbc3View { rtc: Rtc { hours: (val % 32) as u8, ..m.rtc }, ..m }
    } else if m.ram_sel == 0x0b {
        Mbc3View { rtc: Rtc { days_low: val, ..m.rtc }, ..m }
    } else if m.ram_sel == 0x0c {
        Mbc3View { rtc: Rtc { days_high: val & 0xc1, ..m.rtc }, ..m }
    } else {
        m
    }
}

impl Mbc3 {
    /// A fresh MBC3 over the given external RAM.
    pub fn new(ram: Vec<u8>) -> (r: Mbc3)
        ensures
            r@ == spec_mbc3_new(ram@),
            spec_mbc3_wf(r@),
    {
        Mbc3 {
            ram,
            ram_enable: false,
            rom_bank: 1,
            ram_sel: 0,
            rtc: Rtc { seconds: 0, minutes: 0, hours: 0, days_low: 0, days_high: 0 },
            latched_rtc: Rtc { seconds: 0, minutes: 0, hours: 0, days_low: 0, days_high: 0 },
            rtc_latch: 0,
        }
    }

    /// Read a byte of the cartridge ROM window.
    pub fn read(&self, rom: &Vec<u8>, addr: u16) -> (r: u8)
        requires
            spec_mbc3_wf(self@),
            addr < 0x8000,
        ensures
            r == spec_mbc3_rom_read(rom@, self@, addr),
    {
        if addr < 0x4000 {
            if (addr as usize) < rom.len() {
                rom[addr as usize]
            } else {
                0xff
            }
        } else {
            let i: usize = (self.rom_bank as usize) * 0x4000 + ((addr - 0x4000) as usize);
            if i < rom.len() {
                rom[i]
            } else {
                0xff
            }
        }
    }

    /// Apply a control write in the ROM address range.
    pub fn write(&mut self, addr: u16, val: u8)
        requires
            spec_mbc3_wf(old(self)@),
            addr < 0x8000,
        ensures
            final(self)@ == spec_mbc3_ctrl(old(self)@, addr, val),
            spec_mbc3_wf(final(self)@),
    {
        if addr < 0x2000 {
            self.ram_enable = val % 16 == 0x0a;
        } else if addr < 0x4000 {
            let b = val % 128;
            self.rom_bank = if b == 0 {
                1
            } else {
                b
            };
        } else if addr < 0x6000 {
            self.ram_sel = val;
        } else {
            if self.rtc_latch == 0 && val == 1 {
                self.latched_rtc = self.rtc;
            }
            self.rtc_latch = val;
        }
    }

    /// Read a byte of external RAM or a latched RTC register.
    pub fn read_ram(&self, addr: u16) -> (r: u8)
        requires
            spec_mbc3_wf(self@),
            0xa000 <= addr < 0xc000,
        ensures
            r == spec_mbc3_ram_read(self@, addr),
    {
        if !self.ram_enable {
            0xff
        } else if self.ram_sel <= 3 {
            let i: usize = (self.ram_sel as usize) * 0x2000 + ((addr - 0xa000) as usize);
            if i < self.ram.len() {
                self.ram[i]
            } else {
                0xff
            }
        } else if self.ram_sel == 0x08 {
            self.latched_rtc.seconds
        } else if self.ram_sel == 0x09 {
            self.latched_rtc.minutes
        } else if self.ram_sel == 0x0a {
            self.latched_rtc.hours
        } else if self.ram_sel == 0x0b {
            self.latched_rtc.days_low
        } else if self.ram_sel == 0x0c {
            self.latched_rtc.days_high
        } else {
            0xff
        }
    }

    /// Write a byte of external RAM or a running RTC register.
    pub fn write_ram(&mut self, addr: u16, val: u8)
        requires
            spec_mbc3_wf(old(self)@),
            0xa000 <= addr < 0xc000,
        ensures
            final(self)@ == spec_mbc3_ram_write(old(self)@, addr, val),
            spec_mbc3_wf(final(self)@),
    {
        if !self.ram_enable {
        } else if self.ram_sel <= 3 {
            let i: usize = (self.ram_sel as usize) * 0x2000 + ((addr - 0xa000) as usize);
            if i < self.ram.len() {
                self.ram[i] = val;
            }
        } else if self.ram_sel == 0x08 {
            self.rtc.seconds = val % 64;
        } else if self.ram_sel == 0x09 {
            self.rtc.minutes = val % 64;
        } else if self.ram_sel == 0x0a {
            self.rtc.hours = val % 32;
        } else if self.ram_sel == 0x0b {
            self.rtc.days_low = val;
        } else if self.ram_sel == 0x0c {
            self.rtc.days_high = val & 0xc1;
        }
    }

    /// Snapshot the external RAM, if any was allocated.
    pub fn copy_ram(&self) -> (r: Option<Vec<u8>>)
        ensures
            self.ram@.len() > 0 ==> r is Some && r.unwrap()@ == self.ram@,
            self.ram@.len() == 0 ==> r is None,
    {
        if self.ram.len() > 0 {
            Some(crate::clone_bytes(&self.ram))
        } else {
            None
        }
    }
}

} // verus!
