//! Bus arbiter: decodes the unified 64 KiB address space, routes reads
//! and writes to the cartridge, PPU, work RAM, timer, gamepad, sound
//! registers and high RAM, owns OAM DMA, and aggregates interrupt
//! flags.

use vstd::prelude::*;

use crate::GameboyType;
use crate::cart::Cart;
use crate::cart::CartView;
use crate::cart::spec_cart_wf;
use crate::gamepad::Gamepad;
use crate::gamepad::spec_pad_read;
use crate::gamepad::spec_pad_wf;
use crate::gamepad::spec_pad_write;
use crate::mbc::spec_mbc_ctrl;
use crate::mbc::spec_mbc_ram_read;
use crate::mbc::spec_mbc_ram_write;
use crate::mbc::spec_mbc_rom_read;
use crate::ppu::Ppu;
use crate::ppu::PpuView;
use crate::ppu::spec_ppu_flush;
use crate::ppu::spec_ppu_read;
use crate::ppu::spec_ppu_wf;
use crate::ppu::spec_ppu_write;
use crate::ram::Ram;
use crate::ram::spec_ram_index;
use crate::spu::Spu;
use crate::spu::spec_spu_wf;
use crate::timer::Timer;
use crate::timer::spec_timer_flush;
use crate::timer::spec_timer_overflow;
use crate::timer::spec_timer_read;
use crate::timer::spec_timer_wf;
use crate::timer::spec_timer_write;
use crate::INT_TIMER;
use crate::INT_JOYPAD;

verus! {

/// The bus and every component behind it.
#[derive(Debug)]
pub struct Interconnect {
    pub gameboy_type: GameboyType,
    pub cart: Cart,
    pub ppu: Ppu,
    pub spu: Spu,
    pub timer: Timer,
    pub gamepad: Gamepad,
    pub ram: Ram,
    pub zram: Vec<u8>,
    pub svbk: u8,
    pub ppu_dma: u8,
    pub int_enable: u8,
    pub int_flags: u8,
}

/// Mathematical view of the bus.
#[verifier::ext_equal]
pub struct IcView {
    pub gameboy_type: GameboyType,
    pub cart: CartView,
    pub ppu: PpuView,
    pub spu: Seq<u8>,
    pub timer: Timer,
    pub gamepad: Gamepad,
    pub ram: Seq<u8>,
    pub ram_bank: u8,
    pub zram: Seq<u8>,
    pub svbk: u8,
    pub ppu_dma: u8,
    pub int_enable: u8,
    pub int_flags: u8,
}

impl View for Interconnect {
    type V = IcView;

    open spec fn view(&self) -> IcView {
        IcView {
            gameboy_type: self.gameboy_type,
            cart: self.cart@,
            ppu: self.ppu@,
            spu: self.spu.regs@,
            timer: self.timer,
            gamepad: self.gamepad,
            ram: self.ram.bytes@,
            ram_bank: self.ram.bank_select,
            zram: self.zram@,
            svbk: self.svbk,
            ppu_dma: self.ppu_dma,
            int_enable: self.int_enable,
            int_flags: self.int_flags,
        }
    }
}

/// Well-formed bus: every component well formed and every memory its
/// hardware size.
pub open spec fn spec_ic_wf(ic: IcView) -> bool {
    &&& spec_cart_wf(ic.cart)
    &&& spec_ppu_wf(ic.ppu)
    &&& spec_timer_wf(ic.timer)
    &&& spec_pad_wf(ic.gamepad)
    &&& ic.spu.len() == 0x30
    &&& ic.ram.len() == 0x8000
    &&& 1 <= ic.ram_bank <= 7
    &&& ic.zram.len() == 0x7f
}

/// The byte a bus read returns, for every address: the address decode
/// of the memory map. Reads of unmapped or reserved addresses return
/// `0xFF`; the prohibited region above OAM reads `0xFF`; the echo
/// region reads work RAM; the serial and speed-switch stubs read zero.
pub open spec fn spec_ic_read(ic: IcView, addr: u16) -> u8 {
    if addr < 0x8000 {
        spec_mbc_rom_read(ic.cart.rom, ic.cart.mbc, addr)
    } else if addr < 0xa000 {
        spec_ppu_read(ic.ppu, addr)
    } else if addr < 0xc000 {
        spec_mbc_ram_read(ic.cart.mbc, addr)
    } else if addr < 0xe000 {
        ic.ram[spec_ram_index(ic.ram_bank, addr)]
    } else if addr < 0xfe00 {
        ic.ram[spec_ram_index(ic.ram_bank, (addr - 0x2000) as u16)]
    } else if addr < 0xfea0 {
        spec_ppu_read(ic.ppu, addr)
    } else if addr < 0xff00 {
        0xff
    } else if addr == 0xff00 {
        spec_pad_read(ic.gamepad)
    } else if addr == 0xff01 || addr == 0xff02 {
        0
    } else if 0xff04 <= addr <= 0xff07 {
        spec_timer_read(ic.timer, addr)
    } else if addr == 0xff0f {
        ic.int_flags
    } else if 0xff10 <= addr <= 0xff3f {
        ic.spu[addr - 0xff10]
    } else if addr == 0xff46 {
        ic.ppu_dma
    } else if (0xff40 <= addr <= 0xff4b) || addr == 0xff4f || addr == 0xff68 || addr == 0xff69 {
        spec_ppu_read(ic.ppu, addr)
    } else if addr == 0xff4d {
        0
    } else if addr == 0xff70 {
        ic.svbk
    } else if 0xff80 <= addr <= 0xfffe {
        ic.zram[addr - 0xff80]
    } else if addr == 0xffff {
        ic.int_enable
    } else {
        0xff
    }
}

/// The object attribute memory that an OAM DMA transfer loads: 160
/// bytes read from `src * 256` upward on the given bus.
pub open spec fn spec_dma_oam(ic: IcView, src: u8) -> Seq<u8> {
    Seq::new(0xa0, |k: int| spec_ic_read(ic, (src * 256 + k) as u16))
}

/// The bus after a write, for every address: writes to read-only or
/// unmapped addresses and to the prohibited region are ignored; a write
/// to the DMA register performs the whole OAM transfer; a write to the
/// bank-select register switches the upper work-RAM bank, bank zero
/// promoted to one.
pub open spec fn spec_ic_write(ic: IcView, addr: u16, val: u8) -> IcView {
    if addr < 0x8000 {
        IcView { cart: CartView { mbc: spec_mbc_ctrl(ic.cart.mbc, addr, val), ..ic.cart }, ..ic }
    } else if addr < 0xa000 {
        IcView { ppu: spec_ppu_write(ic.ppu, addr, val), ..ic }
    } else if addr < 0xc000 {
        IcView {
            cart: CartView { mbc: spec_mbc_ram_write(ic.cart.mbc, addr, val), ..ic.cart },
            ..ic
        }
    } else if addr < 0xe000 {
        IcView { ram: ic.ram.update(spec_ram_index(ic.ram_bank, addr), val), ..ic }
    } else if addr < 0xfe00 {
        IcView {
            ram: ic.ram.update(spec_ram_index(ic.ram_bank, (addr - 0x2000) as u16), val),
            ..ic
        }
    } else if addr < 0xfea0 {
        IcView { ppu: spec_ppu_write(ic.ppu, addr, val), ..ic }
    } else if addr < 0xff00 {
        ic
    } else if addr == 0xff00 {
        IcView { gamepad: spec_pad_write(ic.gamepad, val), ..ic }
    } else if addr == 0xff01 || addr == 0xff02 {
        ic
    } else if 0xff04 <= addr <= 0xff07 {
        IcView { timer: spec_timer_write(ic.timer, addr, val), ..ic }
    } else if addr == 0xff0f {
        IcView { int_flags: val, ..ic }
    } else if 0xff10 <= addr <= 0xff3f {
        IcView { spu: ic.spu.update(addr - 0xff10, val), ..ic }
    } else if addr == 0xff46 {
        let staged = IcView { ppu_dma: val, ..ic };
        IcView { ppu: PpuView { oam: spec_dma_oam(staged, val), ..ic.ppu }, ..staged }
    } else if (0xff40 <= addr <= 0xff4b) || addr == 0xff4f || addr == 0xff68 || addr == 0xff69 {
        IcView { ppu: spec_ppu_write(ic.ppu, addr, val), ..ic }
    } else if addr == 0xff70 {
        IcView {
            svbk: (val % 8) as u8,
            ram_bank: if val % 8 == 0 {
                1u8
            } else {
                (val % 8) as u8
            },
            ..ic
        }
    } else if 0xff80 <= addr <= 0xfffe {
        IcView { zram: ic.zram.update(addr - 0xff80, val), ..ic }
    } else if addr == 0xffff {
        IcView { int_enable: val, ..ic }
    } else {
        ic
    }
}

/// The bus after `n` cycles are forwarded to the PPU, timer and
/// gamepad, with the interrupts they raise folded into `IF`.
pub open spec fn spec_ic_flush(ic: IcView, n: u32) -> IcView {
    let pf = spec_ppu_flush(ic.ppu, n);
    let t2 = spec_timer_flush(ic.timer, n);
    let t_int: u8 = if spec_timer_overflow(ic.timer, n) {
        INT_TIMER
    } else {
        0u8
    };
    let g_int: u8 = if ic.gamepad.int_pending {
        INT_JOYPAD
    } else {
        0u8
    };
    IcView {
        ppu: pf.0,
        timer: t2,
        gamepad: Gamepad { int_pending: false, ..ic.gamepad },
        int_flags: (ic.int_flags | pf.1 | t_int | g_int),
        ..ic
    }
}

impl Interconnect {
    /// Wire the bus: the given cartridge, PPU, sound registers and
    /// gamepad, fresh work and high RAM, everything else at its
    /// power-on value.
    pub fn new(gameboy_type: GameboyType, cart: Cart, ppu: Ppu, spu: Spu, gamepad: Gamepad) -> (r:
        Interconnect)
        requires
            spec_cart_wf(cart@),
            spec_ppu_wf(ppu@),
            spec_spu_wf(spu),
            spec_pad_wf(gamepad),
        ensures
            spec_ic_wf(r@),
            r@.gameboy_type == gameboy_type,
            r@.cart == cart@,
            r@.ppu == ppu@,
            r@.spu == spu.regs@,
            r@.timer == (Timer {
                div: 0,
                div_cycles: 0,
                tima: 0,
                tima_cycles: 0,
                tma: 0,
                enabled: false,
                clock_select: 0,
            }),
            r@.gamepad == gamepad,
            r@.ram =~= Seq::new(0x8000, |i: int| 0u8),
            r@.ram_bank == 1,
            r@.zram =~= Seq::new(0x7f, |i: int| 0u8),
            r@.svbk == 0,
            r@.ppu_dma == 0,
            r@.int_enable == 0,
            r@.int_flags == 0,
    {
        let zram = crate::filled_vec(0u8, 0x7f);
        proof {
            assert(zram@ =~= Seq::new(0x7f, |i: int| 0u8));
        }
        Interconnect {
            gameboy_type,
            cart,
            ppu,
            spu,
            timer: Timer::new(),
            gamepad,
            ram: Ram::new(),
            zram,
            svbk: 0,
            ppu_dma: 0,
            int_enable: 0,
            int_flags: 0,
        }
    }

    /// Read a byte anywhere in the 64 KiB address space.
    pub fn read(&self, addr: u16) -> (r: u8)
        requires
            spec_ic_wf(self@),
        ensures
            r == spec_ic_read(self@, addr),
    {
        if addr < 0x8000 {
            self.cart.read(addr)
        } else if addr < 0xa000 {
            self.ppu.read(addr)
        } else if addr < 0xc000 {
            self.cart.read_ram(addr)
        } else if addr < 0xe000 {
            self.ram.read(addr)
        } else if addr < 0xfe00 {
            self.ram.read(addr - 0x2000)
        } else if addr < 0xfea0 {
            self.ppu.read(addr)
        } else if addr < 0xff00 {
            0xff
        } else if addr == 0xff00 {
            self.gamepad.read()
        } else if addr == 0xff01 || addr == 0xff02 {
            0
        } else if 0xff04 <= addr && addr <= 0xff07 {
            self.timer.read(addr)
        } else if addr == 0xff0f {
            self.int_flags
        } else if 0xff10 <= addr && addr <= 0xff3f {
            self.spu.read(addr)
        } else if addr == 0xff46 {
            self.ppu_dma
        } else if (0xff40 <= addr && addr <= 0xff4b) || addr == 0xff4f || addr == 0xff68 || addr
            == 0xff69 {
            self.ppu.read(addr)
        } else if addr == 0xff4d {
            0
        } else if addr == 0xff70 {
            self.svbk
        } else if 0xff80 <= addr && addr <= 0xfffe {
            self.zram[(addr - 0xff80) as usize]
        } else if addr == 0xffff {
            self.int_enable
        } else {
            0xff
        }
    }

    /// Write a byte anywhere in the 64 KiB address space.
    pub fn write(&mut self, addr: u16, val: u8)
        requires
            spec_ic_wf(old(self)@),
        ensures
            final(self)@ == spec_ic_write(old(self)@, addr, val),
            spec_ic_wf(final(self)@),
    {
        if addr < 0x8000 {
            self.cart.write(addr, val);
        } else if addr < 0xa000 {
            self.ppu.write(addr, val);
        } else if addr < 0xc000 {
            self.cart.write_ram(addr, val);
        } else if addr < 0xe000 {
            self.ram.write(addr, val);
        } else if addr < 0xfe00 {
            self.ram.write(addr - 0x2000, val);
        } else if addr < 0xfea0 {
            self.ppu.write(addr, val);
        } else if addr < 0xff00 {
        } else if addr == 0xff00 {
            self.gamepad.write(val);
        } else if addr == 0xff01 || addr == 0xff02 {
        } else if 0xff04 <= addr && addr <= 0xff07 {
            self.timer.write(addr, val);
        } else if addr == 0xff0f {
            self.int_flags = val;
        } else if 0xff10 <= addr && addr <= 0xff3f {
            self.spu.write(addr, val);
        } else if addr == 0xff46 {
            self.ppu_dma = val;
            self.ppu_dma_transfer();
        } else if (0xff40 <= addr && addr <= 0xff4b) || addr == 0xff4f || addr == 0xff68 || addr
            == 0xff69 {
            self.ppu.write(addr, val);
        } else if addr == 0xff70 {
            self.svbk = val % 8;
            self.ram.set_bank(val);
        } else if 0xff80 <= addr && addr <= 0xfffe {
            let i = (addr - 0xff80) as usize;
            self.zram[i] = val;
        } else if addr == 0xffff {
            self.int_enable = val;
        }
    }

    /// Copy 160 bytes from the staged DMA source page into OAM.
    fn ppu_dma_transfer(&mut self)
        requires
            spec_ic_wf(old(self)@),
        ensures
            final(self)@ == (IcView {
                ppu: PpuView { oam: spec_dma_oam(old(self)@, old(self)@.ppu_dma), ..old(self)@.ppu },
                ..old(self)@
            }),
            spec_ic_wf(final(self)@),
    {
        let ghost g = self@;
        let src: u16 = (self.ppu_dma as u16) * 256;
        let mut oam: Vec<u8> = Vec::new();
        let mut k: usize = 0;
        while k < 0xa0
            invariant
                k <= 0xa0,
                self@ == g,
                spec_ic_wf(g),
                src == g.ppu_dma * 256,
                oam@.len() == k,
                forall|j: int| 0 <= j < k ==> oam@[j] == spec_ic_read(g, (g.ppu_dma * 256 + j) as u16),
            decreases 0xa0 - k,
        {
            let b = self.read(src + (k as u16));
            oam.push(b);
            k = k + 1;
        }
        proof {
            assert(oam@ =~= spec_dma_oam(g, g.ppu_dma));
        }
        self.ppu.oam_dma_transfer(oam);
    }

    /// Forward `n` elapsed cycles to the PPU, timer and gamepad, and
    /// fold the interrupts they raise into `IF`.
    pub fn cycle_flush(&mut self, cycle_count: u32)
        requires
            spec_ic_wf(old(self)@),
            cycle_count <= 0x100_0000,
        ensures
            final(self)@ == spec_ic_flush(old(self)@, cycle_count),
            spec_ic_wf(final(self)@),
    {
        let ppu_ints = self.ppu.cycle_flush(cycle_count);
        let timer_ints = self.timer.cycle_flush(cycle_count);
        let gamepad_ints = self.gamepad.cycle_flush(cycle_count);
        self.int_flags = self.int_flags | ppu_ints | timer_ints | gamepad_ints;
    }
}

/// Whether an address names directly addressed plain RAM: work RAM or
/// high RAM, outside the echo region.
pub open spec fn spec_plain_ram(addr: u16) -> bool {
    (0xc000 <= addr <= 0xdfff) || (0xff80 <= addr <= 0xfffe)
}

/// A write to plain RAM reads back exactly, and disturbs no other
/// plain-RAM address.
pub proof fn lemma_ram_write_read(ic: IcView, a: u16, v: u8, b: u16)
    requires
        spec_ic_wf(ic),
        spec_plain_ram(a),
        spec_plain_ram(b),
    ensures
        spec_ic_wf(spec_ic_write(ic, a, v)),
        spec_ic_read(spec_ic_write(ic, a, v), a) == v,
        a != b ==> spec_ic_read(spec_ic_write(ic, a, v), b) == spec_ic_read(ic, b),
{
    assert(ic.ram_bank * 0x1000 >= 0x1000 && ic.ram_bank * 0x1000 <= 0x7000) by (nonlinear_arith)
        requires
            1 <= ic.ram_bank <= 7,
    ;
    if 0xc000 <= a <= 0xdfff {
        let ia = spec_ram_index(ic.ram_bank, a);
        assert(0 <= ia < 0x8000);
        if a != b && 0xc000 <= b <= 0xdfff {
            let ib = spec_ram_index(ic.ram_bank, b);
            assert(ia != ib);
        }
    }
}

} // verus!
