//! Memory bank controllers: the cartridge-side state machine that
//! re-banks ROM and external RAM on writes to ROM-space addresses.

use vstd::prelude::*;

use crate::mbc1::Mbc1;
use crate::mbc1::Mbc1View;
use crate::mbc1::spec_mbc1_ctrl;
use crate::mbc1::spec_mbc1_new;
use crate::mbc1::spec_mbc1_ram_read;
use crate::mbc1::spec_mbc1_ram_write;
use crate::mbc1::spec_mbc1_rom_read;
use crate::mbc1::spec_mbc1_wf;
use crate::mbc3::Mbc3;
use crate::mbc3::Mbc3View;
use crate::mbc3::spec_mbc3_ctrl;
use crate::mbc3::spec_mbc3_new;
use crate::mbc3::spec_mbc3_ram_read;
use crate::mbc3::spec_mbc3_ram_write;
use crate::mbc3::spec_mbc3_rom_read;
use crate::mbc3::spec_mbc3_wf;
use crate::mbc5::Mbc5;
use crate::mbc5::Mbc5View;
use crate::mbc5::spec_mbc5_ctrl;
use crate::mbc5::spec_mbc5_new;
use crate::mbc5::spec_mbc5_ram_read;
use crate::mbc5::spec_mbc5_ram_write;
use crate::mbc5::spec_mbc5_rom_read;
use crate::mbc5::spec_mbc5_wf;

verus! {

/// External-RAM geometry declared by the cartridge header.
#[derive(Debug, Copy, Clone, PartialEq, Eq)]
pub struct RamInfo {
    pub size: u32,
    pub bank_count: u32,
}

impl RamInfo {
    /// Pair a declared RAM size with its bank count.
    pub fn new(size: u32, bank_count: u32) -> (r: RamInfo)
        ensures
            r == (RamInfo { size, bank_count }),
    {
        RamInfo { size, bank_count }
    }

    /// The external RAM a controller starts with: the supplied save
    /// blob, or zeroes of the declared size.
    pub fn make_ram(self, save_ram: Option<Vec<u8>>) -> (r: Vec<u8>)
        requires
            save_ram is Some ==> save_ram.unwrap()@.len() == self.size,
        ensures
            r@.len() == self.size,
            save_ram is Some ==> r@ == save_ram.unwrap()@,
            save_ram is None ==> r@ =~= Seq::new(self.size as nat, |i: int| 0u8),
    {
        match save_ram {
            Some(ram) => ram,
            None => crate::filled_vec(0u8, self.size as usize),
        }
    }
}

/// Which memory bank controller a cartridge carries.
#[derive(Debug, Copy, Clone, PartialEq, Eq, Structural)]
pub enum MbcType {
    RomOnly,
    Mbc1,
    Mbc3,
    Mbc5,
}

/// Controller type, RAM geometry and battery flag, as declared by the
/// cartridge header.
#[derive(Debug, Copy, Clone, PartialEq, Eq)]
pub struct MbcInfo {
    pub mbc_type: MbcType,
    pub ram_info: Option<RamInfo>,
    pub has_batt: bool,
}

impl MbcInfo {
    /// Bundle the header facts about the controller.
    pub fn new(mbc_type: MbcType, ram_info: Option<RamInfo>, has_batt: bool) -> (r: MbcInfo)
        ensures
            r == (MbcInfo { mbc_type, ram_info, has_batt }),
    {
        MbcInfo { mbc_type, ram_info, has_batt }
    }

    /// The external-RAM size the header declares, zero when none.
    pub fn declared_ram_size(&self) -> (r: u32)
        ensures
            r == spec_declared_ram_size(*self),
    {
        match self.ram_info {
            Some(info) => info.size,
            None => 0,
        }
    }
}

/// The external-RAM size an `MbcInfo` declares, zero when none.
pub open spec fn spec_declared_ram_size(info: MbcInfo) -> u32 {
    match info.ram_info {
        Some(ri) => ri.size,
        None => 0,
    }
}

/// A memory bank controller of any supported kind.
#[derive(Debug, Clone, PartialEq, Eq)]
pub enum Mbc {
    RomOnly,
    Mbc1(Mbc1),
    Mbc3(Mbc3),
    Mbc5(Mbc5),
}

/// Mathematical view of a controller.
#[verifier::ext_equal]
pub enum MbcView {
    RomOnly,
    M1(Mbc1View),
    M3(Mbc3View),
    M5(Mbc5View),
}

impl View for Mbc {
    type V = MbcView;

    open spec fn view(&self) -> MbcView {
        match self {
            Mbc::RomOnly => MbcView::RomOnly,
            Mbc::Mbc1(m) => MbcView::M1(m@),
            Mbc::Mbc3(m) => MbcView::M3(m@),
            Mbc::Mbc5(m) => MbcView::M5(m@),
        }
    }
}

/// Well-formed controller state.
pub open spec fn spec_mbc_wf(m: MbcView) -> bool {
    match m {
        MbcView::RomOnly => true,
        MbcView::M1(v) => spec_mbc1_wf(v),
        MbcView::M3(v) => spec_mbc3_wf(v),
        MbcView::M5(v) => spec_mbc5_wf(v),
    }
}

/// The external RAM a controller holds.
pub open spec fn spec_mbc_ram(m: MbcView) -> Seq<u8> {
    match m {
        MbcView::RomOnly => Seq::empty(),
        MbcView::M1(v) => v.ram,
        MbcView::M3(v) => v.ram,
        MbcView::M5(v) => v.ram,
    }
}

/// The fresh controller of the given type over the given external RAM.
pub open spec fn spec_new_mbc(t: MbcType, ram: Seq<u8>) -> MbcView {
    match t {
        MbcType::RomOnly => MbcView::RomOnly,
        MbcType::Mbc1 => MbcView::M1(spec_mbc1_new(ram)),
        MbcType::Mbc3 => MbcView::M3(spec_mbc3_new(ram)),
        MbcType::Mbc5 => MbcView::M5(spec_mbc5_new(ram)),
    }
}

/// The byte a banked ROM read returns.
pub open spec fn spec_mbc_rom_read(rom: Seq<u8>, m: MbcView, addr: u16) -> u8 {
    match m {
        MbcView::RomOnly => if addr < rom.len() {
            rom[addr as int]
        } else {
            0xff
        },
        MbcView::M1(v) => spec_mbc1_rom_read(rom, v, addr),
        MbcView::M3(v) => spec_mbc3_rom_read(rom, v, addr),
        MbcView::M5(v) => spec_mbc5_rom_read(rom, v, addr),
    }
}

/// The controller after a control write in the ROM address range.
pub open spec fn spec_mbc_ctrl(m: MbcView, addr: u16, val: u8) -> MbcView {
    match m {
        MbcView::RomOnly => m,
        MbcView::M1(v) => MbcView::M1(spec_mbc1_ctrl(v, addr, val)),
        MbcView::M3(v) => MbcView::M3(spec_mbc3_ctrl(v, addr, val)),
        MbcView::M5(v) => MbcView::M5(spec_mbc5_ctrl(v, addr, val)),
    }
}

/// The byte an external-RAM read returns.
pub open spec fn spec_mbc_ram_read(m: MbcView, addr: u16) -> u8 {
    match m {
        MbcView::RomOnly => 0xff,
        MbcView::M1(v) => spec_mbc1_ram_read(v, addr),
        MbcView::M3(v) => spec_mbc3_ram_read(v, addr),
        MbcView::M5(v) => spec_mbc5_ram_read(v, addr),
    }
}

/// The controller after an external-RAM write.
pub open spec fn spec_mbc_ram_write(m: MbcView, addr: u16, val: u8) -> MbcView {
    match m {
        MbcView::RomOnly => m,
        MbcView::M1(v) => MbcView::M1(spec_mbc1_ram_write(v, addr, val)),
        MbcView::M3(v) => MbcView::M3(spec_mbc3_ram_write(v, addr, val)),
        MbcView::M5(v) => MbcView::M5(spec_mbc5_ram_write(v, addr, val)),
    }
}

/// Build the controller a header calls for, over the save blob or
/// zeroed RAM of the declared size.
pub fn new_mbc(mbc_info: MbcInfo, ram: Option<Vec<u8>>) -> (r: Mbc)
    requires
        ram is Some ==> ram.unwrap()@.len() == spec_declared_ram_size(mbc_info),
    ensures
        r@ == spec_new_mbc(
            mbc_info.mbc_type,
            if ram is Some {
                ram.unwrap()@
            } else {
                Seq::new(spec_declared_ram_size(mbc_info) as nat, |i: int| 0u8)
            },
        ),
        spec_mbc_wf(r@),
{
    let ghost contents = if ram is Some {
        ram.unwrap()@
    } else {
        Seq::new(spec_declared_ram_size(mbc_info) as nat, |i: int| 0u8)
    };
    let bytes = match mbc_info.ram_info {
        Some(info) => info.make_ram(ram),
        None => match ram {
            Some(r) => r,
            None => Vec::new(),
        },
    };
    proof {
        assert(bytes@ =~= contents);
    }
    match mbc_info.mbc_type {
        MbcType::RomOnly => Mbc::RomOnly,
        MbcType::Mbc1 => Mbc::Mbc1(Mbc1::new(bytes)),
        MbcType::Mbc3 => Mbc::Mbc3(Mbc3::new(bytes)),
        MbcType::Mbc5 => Mbc::Mbc5(Mbc5::new(bytes)),
    }
}

impl Mbc {
    /// Read a byte of the cartridge ROM window.
    pub fn read(&self, rom: &Vec<u8>, addr: u16) -> (r: u8)
        requires
            spec_mbc_wf(self@),
            addr < 0x8000,
        ensures
            r == spec_mbc_rom_read(rom@, self@, addr),
    {
        match self {
            Mbc::RomOnly => {
                if (addr as usize) < rom.len() {
                    rom[addr as usize]
                } else {
                    0xff
                }
            },
            Mbc::Mbc1(m) => m.read(rom, addr),
            Mbc::Mbc3(m) => m.read(rom, addr),
            Mbc::Mbc5(m) => m.read(rom, addr),
        }
    }

    /// Apply a control write in the ROM address range.
    pub fn write(&mut self, addr: u16, val: u8)
        requires
            spec_mbc_wf(old(self)@),
            addr < 0x8000,
        ensures
            final(self)@ == spec_mbc_ctrl(old(self)@, addr, val),
            spec_mbc_wf(final(self)@),
    {
        match self {
            Mbc::RomOnly => {},
            Mbc::Mbc1(m) => m.write(addr, val),
            Mbc::Mbc3(m) => m.write(addr, val),
            Mbc::Mbc5(m) => m.write(addr, val),
        }
    }

    /// Read a byte of external RAM.
    pub fn read_ram(&self, addr: u16) -> (r: u8)
        requires
            spec_mbc_wf(self@),
            0xa000 <= addr < 0xc000,
        ensures
            r == spec_mbc_ram_read(self@, addr),
    {
        match self {
            Mbc::RomOnly => 0xff,
            Mbc::Mbc1(m) => m.read_ram(addr),
            Mbc::Mbc3(m) => m.read_ram(addr),
            Mbc::Mbc5(m) => m.read_ram(addr),
        }
    }

    /// Write a byte of external RAM.
    pub fn write_ram(&mut self, addr: u16, val: u8)
        requires
            spec_mbc_wf(old(self)@),
            0xa000 <= addr < 0xc000,
        ensures
            final(self)@ == spec_mbc_ram_write(old(self)@, addr, val),
            spec_mbc_wf(final(self)@),
    {
        match self {
            Mbc::RomOnly => {},
            Mbc::Mbc1(m) => m.write_ram(addr, val),
            Mbc::Mbc3(m) => m.write_ram(addr, val),
            Mbc::Mbc5(m) => m.write_ram(addr, val),
        }
    }

    /// Snapshot the external RAM, if any was allocated.
    pub fn copy_ram(&self) -> (r: Option<Vec<u8>>)
        ensures
            spec_mbc_ram(self@).len() > 0 ==> r is Some && r.unwrap()@ == spec_mbc_ram(self@),
            spec_mbc_ram(self@).len() == 0 ==> r is None,
    {
        match self {
            Mbc::RomOnly => None,
            Mbc::Mbc1(m) => m.copy_ram(),
            Mbc::Mbc3(m) => m.copy_ram(),
            Mbc::Mbc5(m) => m.copy_ram(),
        }
    }
}

} // verus!
