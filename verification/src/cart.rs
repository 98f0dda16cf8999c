//! Cartridge: the ROM image plus the memory bank controller that the
//! header declares, with optional battery-backed external RAM.

use vstd::prelude::*;

use crate::GameboyType;
use crate::mbc::Mbc;
use crate::mbc::MbcInfo;
use crate::mbc::MbcType;
use crate::mbc::MbcView;
use crate::mbc::RamInfo;
use crate::mbc::new_mbc;
use crate::mbc::spec_mbc_ctrl;
use crate::mbc::spec_mbc_ram;
use crate::mbc::spec_mbc_ram_read;
use crate::mbc::spec_mbc_ram_write;
use crate::mbc::spec_mbc_rom_read;
use crate::mbc::spec_mbc_wf;
use crate::mbc::spec_new_mbc;

verus! {

/// The market a cartridge was made for.
#[derive(Debug, Copy, Clone, PartialEq, Eq, Structural)]
pub enum DestinationCode {
    Japanese,
    NonJapanese,
}

/// Why a cartridge could not be constructed.
#[derive(Debug, Copy, Clone, PartialEq, Eq, Structural)]
pub enum CartError {
    InvalidRomLength { len: usize },
    UnsupportedMbcType { code: u8 },
    UnsupportedRomSize { code: u8 },
    UnsupportedRamSize { code: u8 },
    SaveRamSizeMismatch { expected: u32, actual: usize },
}

/// A loaded cartridge.
#[derive(Debug, Clone, PartialEq, Eq)]
pub struct Cart {
    pub bytes: Vec<u8>,
    pub mbc: Mbc,
}

/// Mathematical view of a cartridge.
#[verifier::ext_equal]
pub struct CartView {
    pub rom: Seq<u8>,
    pub mbc: MbcView,
}

impl View for Cart {
    type V = CartView;

    open spec fn view(&self) -> CartView {
        CartView { rom: self.bytes@, mbc: self.mbc@ }
    }
}

/// Whether the controller-type byte is one this core supports.
pub open spec fn spec_mbc_code_supported(code: u8) -> bool {
    code == 0x00 || code == 0x01 || code == 0x02 || code == 0x03 || code == 0x13 || code == 0x19
        || code == 0x1b
}

/// The controller a supported controller-type byte declares.
pub open spec fn spec_mbc_type_of(code: u8) -> MbcType {
    if code == 0x00 {
        MbcType::RomOnly
    } else if code == 0x01 || code == 0x02 || code == 0x03 {
        MbcType::Mbc1
    } else if code == 0x13 {
        MbcType::Mbc3
    } else {
        MbcType::Mbc5
    }
}

/// Whether the controller-type byte declares a battery.
pub open spec fn spec_has_battery(code: u8) -> bool {
    code == 0x03 || code == 0x13 || code == 0x1b
}

/// The ROM size in bytes a supported ROM-size byte declares.
pub open spec fn spec_rom_size_of(code: u8) -> u32 {
    if code == 0 {
        0x8000
    } else if code == 1 {
        0x10000
    } else if code == 2 {
        0x20000
    } else if code == 3 {
        0x40000
    } else if code == 4 {
        0x80000
    } else if code == 5 {
        0x100000
    } else {
        0x200000
    }
}

/// The external-RAM size in bytes a supported RAM-size byte declares.
pub open spec fn spec_ram_size_of(code: u8) -> u32 {
    if code == 0 {
        0
    } else if code == 1 {
        0x800
    } else if code == 2 {
        0x2000
    } else if code == 3 {
        0x8000
    } else {
        0x20000
    }
}

/// The external-RAM bank count a supported RAM-size byte declares.
pub open spec fn spec_ram_banks_of(code: u8) -> u32 {
    if code == 0 {
        0
    } else if code == 1 || code == 2 {
        1
    } else if code == 3 {
        4
    } else {
        16
    }
}

/// The lengths a ROM image may have: a power-of-two multiple of
/// 16 KiB, from 32 KiB up to 2 MiB.
pub open spec fn spec_rom_len_ok(n: int) -> bool {
    n == 0x8000 || n == 0x10000 || n == 0x20000 || n == 0x40000 || n == 0x80000 || n == 0x100000
        || n == 0x200000
}

/// Whether a ROM image has a permitted length and carries a supported
/// header.
pub open spec fn spec_header_ok(rom: Seq<u8>) -> bool {
    &&& spec_rom_len_ok(rom.len() as int)
    &&& spec_mbc_code_supported(rom[0x147])
    &&& rom[0x148] <= 6
    &&& rom[0x149] <= 4
}

/// The controller description a supported header declares.
pub open spec fn spec_mbc_info_of(rom: Seq<u8>) -> MbcInfo {
    let ram_size = spec_ram_size_of(rom[0x149]);
    MbcInfo {
        mbc_type: spec_mbc_type_of(rom[0x147]),
        ram_info: if ram_size != 0 {
            Some(RamInfo { size: ram_size, bank_count: spec_ram_banks_of(rom[0x149]) })
        } else {
            None
        },
        has_batt: spec_has_battery(rom[0x147]),
    }
}

/// Well-formed cartridge: a permitted image length, a supported
/// header, a controller of the declared kind in a well-formed state,
/// and (save for the bare-ROM controller) external RAM of exactly the
/// declared size.
pub open spec fn spec_cart_wf(c: CartView) -> bool {
    &&& spec_header_ok(c.rom)
    &&& spec_mbc_wf(c.mbc)
    &&& match c.mbc {
        MbcView::RomOnly => spec_mbc_type_of(c.rom[0x147]) == MbcType::RomOnly,
        MbcView::M1(v) => spec_mbc_type_of(c.rom[0x147]) == MbcType::Mbc1 && v.ram.len()
            == spec_ram_size_of(c.rom[0x149]),
        MbcView::M3(v) => spec_mbc_type_of(c.rom[0x147]) == MbcType::Mbc3 && v.ram.len()
            == spec_ram_size_of(c.rom[0x149]),
        MbcView::M5(v) => spec_mbc_type_of(c.rom[0x147]) == MbcType::Mbc5 && v.ram.len()
            == spec_ram_size_of(c.rom[0x149]),
    }
}

impl Cart {
    /// Load a cartridge from a ROM image and an optional save blob.
    /// The image must have a permitted length, its header must be
    /// supported, and the blob, when given, exactly the declared
    /// external-RAM size; each defect is reported as its own error.
    pub fn new(bytes: Vec<u8>, save_ram: Option<Vec<u8>>) -> (r: Result<Cart, CartError>)
        ensures
            ({
                let rom = bytes@;
                if !spec_rom_len_ok(rom.len() as int) {
                    r == Result::<Cart, CartError>::Err(
                        CartError::InvalidRomLength { len: rom.len() as usize },
                    )
                } else if !spec_mbc_code_supported(rom[0x147]) {
                    r == Result::<Cart, CartError>::Err(
                        CartError::UnsupportedMbcType { code: rom[0x147] },
                    )
                } else if rom[0x148] > 6 {
                    r == Result::<Cart, CartError>::Err(
                        CartError::UnsupportedRomSize { code: rom[0x148] },
                    )
                } else if rom[0x149] > 4 {
                    r == Result::<Cart, CartError>::Err(
                        CartError::UnsupportedRamSize { code: rom[0x149] },
                    )
                } else if save_ram is Some && save_ram.unwrap()@.len() != spec_ram_size_of(
                    rom[0x149],
                ) {
                    r == Result::<Cart, CartError>::Err(
                        CartError::SaveRamSizeMismatch {
                            expected: spec_ram_size_of(rom[0x149]),
                            actual: save_ram.unwrap()@.len() as usize,
                        },
                    )
                } else {
                    &&& r is Ok
                    &&& r.unwrap()@.rom == rom
                    &&& r.unwrap()@.mbc == spec_new_mbc(
                        spec_mbc_type_of(rom[0x147]),
                        if save_ram is Some {
                            save_ram.unwrap()@
                        } else {
                            Seq::new(spec_ram_size_of(rom[0x149]) as nat, |i: int| 0u8)
                        },
                    )
                    &&& spec_cart_wf(r.unwrap()@)
                }
            }),
    {
        let n = bytes.len();
        if !(n == 0x8000 || n == 0x10000 || n == 0x20000 || n == 0x40000 || n == 0x80000 || n
            == 0x100000 || n == 0x200000) {
            return Err(CartError::InvalidRomLength { len: n });
        }
        let mbc_code = bytes[0x147];
        if !(mbc_code == 0x00 || mbc_code == 0x01 || mbc_code == 0x02 || mbc_code == 0x03
            || mbc_code == 0x13 || mbc_code == 0x19 || mbc_code == 0x1b) {
            return Err(CartError::UnsupportedMbcType { code: mbc_code });
        }
        let rom_code = bytes[0x148];
        if rom_code > 6 {
            return Err(CartError::UnsupportedRomSize { code: rom_code });
        }
        let ram_code = bytes[0x149];
        if ram_code > 4 {
            return Err(CartError::UnsupportedRamSize { code: ram_code });
        }
        let declared: u32 = if ram_code == 0 {
            0
        } else if ram_code == 1 {
            0x800
        } else if ram_code == 2 {
            0x2000
        } else if ram_code == 3 {
            0x8000
        } else {
            0x20000
        };
        if let Some(ref blob) = save_ram {
            if blob.len() != declared as usize {
                return Err(
                    CartError::SaveRamSizeMismatch { expected: declared, actual: blob.len() },
                );
            }
        }
        let info = Cart::mbc_info_of(&bytes);
        let mbc = new_mbc(info, save_ram);
        Ok(Cart { bytes, mbc })
    }

    /// The controller description the header of a supported ROM image
    /// declares.
    fn mbc_info_of(bytes: &Vec<u8>) -> (r: MbcInfo)
        requires
            spec_header_ok(bytes@),
        ensures
            r == spec_mbc_info_of(bytes@),
    {
        let ram_code = bytes[0x149];
        let ram_size: u32 = if ram_code == 0 {
            0
        } else if ram_code == 1 {
            0x800
        } else if ram_code == 2 {
            0x2000
        } else if ram_code == 3 {
            0x8000
        } else {
            0x20000
        };
        let ram_info = if ram_size != 0 {
            let banks: u32 = if ram_code == 1 || ram_code == 2 {
                1
            } else if ram_code == 3 {
                4
            } else {
                16
            };
            Some(RamInfo { size: ram_size, bank_count: banks })
        } else {
            None
        };
        let code = bytes[0x147];
        let mbc_type = if code == 0x00 {
            MbcType::RomOnly
        } else if code == 0x01 || code == 0x02 || code == 0x03 {
            MbcType::Mbc1
        } else if code == 0x13 {
            MbcType::Mbc3
        } else {
            MbcType::Mbc5
        };
        let has_batt = code == 0x03 || code == 0x13 || code == 0x1b;
        MbcInfo { mbc_type, ram_info, has_batt }
    }

    /// The title bytes of the header.
    pub fn title(&self) -> (r: Vec<u8>)
        requires
            spec_cart_wf(self@),
        ensures
            r@ == self@.rom.subrange(0x134, 0x143),
    {
        let mut r: Vec<u8> = Vec::new();
        let mut i: usize = 0x134;
        while i < 0x143
            invariant
                0x134 <= i <= 0x143,
                self@.rom.len() >= 0x150,
                r@ =~= self@.rom.subrange(0x134, i as int),
            decreases 0x143 - i,
        {
            r.push(self.bytes[i]);
            i = i + 1;
        }
        proof {
            assert(r@ =~= self@.rom.subrange(0x134, 0x143));
        }
        r
    }

    /// The controller description the header declares.
    pub fn mbc_info(&self) -> (r: MbcInfo)
        requires
            spec_cart_wf(self@),
        ensures
            r == spec_mbc_info_of(self@.rom),
    {
        Cart::mbc_info_of(&self.bytes)
    }

    /// The ROM size in bytes the header declares.
    pub fn rom_size(&self) -> (r: u32)
        requires
            spec_cart_wf(self@),
        ensures
            r == spec_rom_size_of(self@.rom[0x148]),
    {
        let code = self.bytes[0x148];
        if code == 0 {
            0x8000
        } else if code == 1 {
            0x10000
        } else if code == 2 {
            0x20000
        } else if code == 3 {
            0x40000
        } else if code == 4 {
            0x80000
        } else if code == 5 {
            0x100000
        } else {
            0x200000
        }
    }

    /// The number of 16 KiB ROM banks the header declares.
    pub fn rom_bank_count(&self) -> (r: u32)
        requires
            spec_cart_wf(self@),
        ensures
            r == spec_rom_size_of(self@.rom[0x148]) / 0x4000,
    {
        self.rom_size() / 0x4000
    }

    /// The external-RAM size in bytes the header declares.
    pub fn ram_size(&self) -> (r: u32)
        requires
            spec_cart_wf(self@),
        ensures
            r == spec_ram_size_of(self@.rom[0x149]),
    {
        let code = self.bytes[0x149];
        if code == 0 {
            0
        } else if code == 1 {
            0x800
        } else if code == 2 {
            0x2000
        } else if code == 3 {
            0x8000
        } else {
            0x20000
        }
    }

    /// The number of 8 KiB external-RAM banks the header declares.
    pub fn ram_bank_count(&self) -> (r: u32)
        requires
            spec_cart_wf(self@),
        ensures
            r == spec_ram_banks_of(self@.rom[0x149]),
    {
        let code = self.bytes[0x149];
        if code == 0 {
            0
        } else if code == 1 || code == 2 {
            1
        } else if code == 3 {
            4
        } else {
            16
        }
    }

    /// The market the header declares; any nonzero byte counts as the
    /// overseas market.
    pub fn destination_code(&self) -> (r: DestinationCode)
        requires
            spec_cart_wf(self@),
        ensures
            r == if self@.rom[0x14a] == 0 {
                DestinationCode::Japanese
            } else {
                DestinationCode::NonJapanese
            },
    {
        if self.bytes[0x14a] == 0 {
            DestinationCode::Japanese
        } else {
            DestinationCode::NonJapanese
        }
    }

    /// The console model the header targets.
    pub fn gameboy_type(&self) -> (r: GameboyType)
        requires
            spec_cart_wf(self@),
        ensures
            r == if self@.rom[0x143] == 0x80 || self@.rom[0x143] == 0xc0 {
                GameboyType::Cgb
            } else {
                GameboyType::Dmg
            },
    {
        let code = self.bytes[0x143];
        if code == 0x80 || code == 0xc0 {
            GameboyType::Cgb
        } else {
            GameboyType::Dmg
        }
    }

    /// Read a byte of the ROM window through the controller.
    pub fn read(&self, addr: u16) -> (r: u8)
        requires
            spec_cart_wf(self@),
            addr < 0x8000,
        ensures
            r == spec_mbc_rom_read(self@.rom, self@.mbc, addr),
    {
        self.mbc.read(&self.bytes, addr)
    }

    /// Apply a control write in the ROM address range.
    pub fn write(&mut self, addr: u16, val: u8)
        requires
            spec_cart_wf(old(self)@),
            addr < 0x8000,
        ensures
            final(self)@.rom == old(self)@.rom,
            final(self)@.mbc == spec_mbc_ctrl(old(self)@.mbc, addr, val),
            spec_cart_wf(final(self)@),
    {
        self.mbc.write(addr, val)
    }

    /// Read a byte of external RAM through the controller.
    pub fn read_ram(&self, addr: u16) -> (r: u8)
        requires
            spec_cart_wf(self@),
            0xa000 <= addr < 0xc000,
        ensures
            r == spec_mbc_ram_read(self@.mbc, addr),
    {
        self.mbc.read_ram(addr)
    }

    /// Write a byte of external RAM through the controller.
    pub fn write_ram(&mut self, addr: u16, val: u8)
        requires
            spec_cart_wf(old(self)@),
            0xa000 <= addr < 0xc000,
        ensures
            final(self)@.rom == old(self)@.rom,
            final(self)@.mbc == spec_mbc_ram_write(old(self)@.mbc, addr, val),
            spec_cart_wf(final(self)@),
    {
        self.mbc.write_ram(addr, val)
    }

    /// Snapshot the external RAM, if any was allocated.
    pub fn copy_ram(&self) -> (r: Option<Vec<u8>>)
        ensures
            spec_mbc_ram(self@.mbc).len() > 0 ==> r is Some && r.unwrap()@ == spec_mbc_ram(
                self@.mbc,
            ),
            spec_mbc_ram(self@.mbc).len() == 0 ==> r is None,
    {
        self.mbc.copy_ram()
    }
}

} // verus!
