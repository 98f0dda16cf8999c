//! Picture-generation unit: a scanline-oriented pixel pipeline with a
//! four-mode per-line state machine, tile and sprite rendering into a
//! 160 by 144 framebuffer, and precise interrupt generation.

use vstd::prelude::*;

use crate::INT_LCDSTAT;
use crate::INT_VBLANK;

verus! {

/// Screen width in pixels.
pub const DISPLAY_WIDTH: usize = 160;

/// Screen height in pixels.
pub const DISPLAY_HEIGHT: usize = 144;

/// Packed pixel for monochrome shade 0 (lightest).
pub const SHADE_0: u32 = 0xffe0f8d0;

/// Packed pixel for monochrome shade 1.
pub const SHADE_1: u32 = 0xff88c070;

/// Packed pixel for monochrome shade 2.
pub const SHADE_2: u32 = 0xff275046;

/// Packed pixel for monochrome shade 3 (darkest).
pub const SHADE_3: u32 = 0xff081820;

/// PPU state: registers, the mode machine, video memories and the
/// framebuffer under construction.
#[derive(Debug, Clone, PartialEq, Eq)]
pub struct Ppu {
    pub lcdc: u8,
    pub stat_enables: u8,
    pub scy: u8,
    pub scx: u8,
    pub ly: u8,
    pub lyc: u8,
    pub bgp: u8,
    pub obp0: u8,
    pub obp1: u8,
    pub wy: u8,
    pub wx: u8,
    pub bgpi: u8,
    pub bgpd: u8,
    pub vbk: u8,
    pub mode: u8,
    pub coincidence: bool,
    pub mode_cycles: u32,
    pub frame_ready: bool,
    pub vram: Vec<u8>,
    pub oam: Vec<u8>,
    pub framebuffer: Vec<u32>,
}

/// Mathematical view of the PPU.
#[verifier::ext_equal]
pub struct PpuView {
    pub lcdc: u8,
    pub stat_enables: u8,
    pub scy: u8,
    pub scx: u8,
    pub ly: u8,
    pub lyc: u8,
    pub bgp: u8,
    pub obp0: u8,
    pub obp1: u8,
    pub wy: u8,
    pub wx: u8,
    pub bgpi: u8,
    pub bgpd: u8,
    pub vbk: u8,
    pub mode: u8,
    pub coincidence: bool,
    pub mode_cycles: u32,
    pub frame_ready: bool,
    pub vram: Seq<u8>,
    pub oam: Seq<u8>,
    pub fb: Seq<u32>,
}

impl View for Ppu {
    type V = PpuView;

    open spec fn view(&self) -> PpuView {
        PpuView {
            lcdc: self.lcdc,
            stat_enables: self.stat_enables,
            scy: self.scy,
            scx: self.scx,
            ly: self.ly,
            lyc: self.lyc,
            bgp: self.bgp,
            obp0: self.obp0,
            obp1: self.obp1,
            wy: self.wy,
            wx: self.wx,
            bgpi: self.bgpi,
            bgpd: self.bgpd,
            vbk: self.vbk,
            mode: self.mode,
            coincidence: self.coincidence,
            mode_cycles: self.mode_cycles,
            frame_ready: self.frame_ready,
            vram: self.vram@,
            oam: self.oam@,
            fb: self.framebuffer@,
        }
    }
}

/// Whether the LCD-enable bit of `LCDC` is set.
pub open spec fn spec_lcd_on(p: PpuView) -> bool {
    p.lcdc / 128 % 2 == 1
}

/// Cycles a mode lasts before the machine moves on: 80 for OAM search,
/// 172 for pixel transfer, 204 for horizontal blank, 456 for each
/// vertical-blank line.
pub open spec fn spec_mode_len(mode: u8) -> u32 {
    if mode == 2 {
        80
    } else if mode == 3 {
        172
    } else if mode == 0 {
        204
    } else {
        456
    }
}

/// The structural part of PPU well-formedness: memories have their
/// hardware sizes, the mode and line counters stay inside the machine,
/// and the stored `STAT` enable bits occupy bits 3 to 6 only. The mode
/// accumulator is unconstrained, as it is mid-flush.
pub open spec fn spec_ppu_wf_loose(p: PpuView) -> bool {
    &&& p.vram.len() == 0x4000
    &&& p.oam.len() == 0xa0
    &&& p.fb.len() == 23040
    &&& p.mode < 4
    &&& p.stat_enables % 8 == 0
    &&& p.stat_enables < 128
    &&& (if p.mode == 1 {
        144 <= p.ly < 154
    } else {
        p.ly < 144
    })
}

/// Well-formed PPU: the structural part, the mode accumulator below the
/// current mode's length, and a disabled LCD idling at line zero.
pub open spec fn spec_ppu_wf(p: PpuView) -> bool {
    &&& spec_ppu_wf_loose(p)
    &&& p.mode_cycles < spec_mode_len(p.mode)
    &&& (!spec_lcd_on(p) ==> p.ly == 0 && p.mode == 0 && p.mode_cycles == 0)
}

/// The index into video RAM that a bus address in the VRAM window
/// reaches, through the selected bank.
pub open spec fn spec_vram_index(p: PpuView, addr: u16) -> int {
    (p.vbk % 2) * 0x2000 + (addr - 0x8000)
}

/// The addresses the PPU decodes: the VRAM window, object attribute
/// memory, and its registers.
pub open spec fn spec_ppu_addr(addr: u16) -> bool {
    ||| 0x8000 <= addr < 0xa000
    ||| 0xfe00 <= addr < 0xfea0
    ||| (0xff40 <= addr <= 0xff4b && addr != 0xff46)
    ||| addr == 0xff4f
    ||| addr == 0xff68
    ||| addr == 0xff69
}

/// The composed `STAT` byte: enable bits as written, the coincidence
/// flag, and the current mode.
pub open spec fn spec_stat_byte(p: PpuView) -> u8 {
    (p.stat_enables + (if p.coincidence {
        4u8
    } else {
        0u8
    }) + p.mode) as u8
}

/// The byte a PPU read returns.
pub open spec fn spec_ppu_read(p: PpuView, addr: u16) -> u8 {
    if 0x8000 <= addr < 0xa000 {
        p.vram[spec_vram_index(p, addr)]
    } else if 0xfe00 <= addr < 0xfea0 {
        p.oam[addr - 0xfe00]
    } else if addr == 0xff40 {
        p.lcdc
    } else if addr == 0xff41 {
        spec_stat_byte(p)
    } else if addr == 0xff42 {
        p.scy
    } else if addr == 0xff43 {
        p.scx
    } else if addr == 0xff44 {
        p.ly
    } else if addr == 0xff45 {
        p.lyc
    } else if addr == 0xff47 {
        p.bgp
    } else if addr == 0xff48 {
        p.obp0
    } else if addr == 0xff49 {
        p.obp1
    } else if addr == 0xff4a {
        p.wy
    } else if addr == 0xff4b {
        p.wx
    } else if addr == 0xff4f {
        p.vbk
    } else if addr == 0xff68 {
        p.bgpi
    } else if addr == 0xff69 {
        p.bgpd
    } else {
        0xff
    }
}

/// The PPU after a write. A write to `LY` is ignored; a write to `STAT`
/// sets only the four enable bits; a write to `LCDC` that changes the
/// LCD-enable bit restarts the mode machine at line zero.
pub open spec fn spec_ppu_write(p: PpuView, addr: u16, val: u8) -> PpuView {
    if 0x8000 <= addr < 0xa000 {
        PpuView { vram: p.vram.update(spec_vram_index(p, addr), val), ..p }
    } else if 0xfe00 <= addr < 0xfea0 {
        PpuView { oam: p.oam.update(addr - 0xfe00, val), ..p }
    } else if addr == 0xff40 {
        let was_on = spec_lcd_on(p);
        let now_on = val / 128 % 2 == 1;
        if was_on == now_on {
            PpuView { lcdc: val, ..p }
        } else {
            PpuView {
                lcdc: val,
                ly: 0,
                mode: if now_on {
                    2u8
                } else {
                    0u8
                },
                mode_cycles: 0,
                coincidence: p.lyc == 0,
                ..p
            }
        }
    } else if addr == 0xff41 {
        PpuView { stat_enables: (val / 8 % 16 * 8) as u8, ..p }
    } else if addr == 0xff42 {
        PpuView { scy: val, ..p }
    } else if addr == 0xff43 {
        PpuView { scx: val, ..p }
    } else if addr == 0xff44 {
        p
    } else if addr == 0xff45 {
        PpuView { lyc: val, ..p }
    } else if addr == 0xff47 {
        PpuView { bgp: val, ..p }
    } else if addr == 0xff48 {
        PpuView { obp0: val, ..p }
    } else if addr == 0xff49 {
        PpuView { obp1: val, ..p }
    } else if addr == 0xff4a {
        PpuView { wy: val, ..p }
    } else if addr == 0xff4b {
        PpuView { wx: val, ..p }
    } else if addr == 0xff4f {
        PpuView { vbk: val, ..p }
    } else if addr == 0xff68 {
        PpuView { bgpi: val, ..p }
    } else if addr == 0xff69 {
        PpuView { bgpd: val, ..p }
    } else {
        p
    }
}

/// The power-on PPU: LCD enabled, background on, line zero at the
/// start of OAM search, memories zeroed, framebuffer blank.
pub open spec fn spec_ppu_power_on() -> PpuView {
    PpuView {
        lcdc: 0x91,
        stat_enables: 0,
        scy: 0,
        scx: 0,
        ly: 0,
        lyc: 0,
        bgp: 0xfc,
        obp0: 0xff,
        obp1: 0xff,
        wy: 0,
        wx: 0,
        bgpi: 0,
        bgpd: 0,
        vbk: 0,
        mode: 2,
        coincidence: true,
        mode_cycles: 0,
        frame_ready: false,
        vram: Seq::new(0x4000, |i: int| 0u8),
        oam: Seq::new(0xa0, |i: int| 0u8),
        fb: Seq::new(23040, |i: int| SHADE_0),
    }
}

impl Ppu {
    /// The power-on PPU.
    pub fn new() -> (r: Ppu)
        ensures
            r@ == spec_ppu_power_on(),
            spec_ppu_wf(r@),
    {
        let vram = crate::filled_vec(0u8, 0x4000);
        let oam = crate::filled_vec(0u8, 0xa0);
        let framebuffer = crate::filled_vec(SHADE_0, 23040);
        proof {
            assert(vram@ =~= Seq::new(0x4000, |i: int| 0u8));
            assert(oam@ =~= Seq::new(0xa0, |i: int| 0u8));
            assert(framebuffer@ =~= Seq::new(23040, |i: int| SHADE_0));
        }
        let r = Ppu {
            lcdc: 0x91,
            stat_enables: 0,
            scy: 0,
            scx: 0,
            ly: 0,
            lyc: 0,
            bgp: 0xfc,
            obp0: 0xff,
            obp1: 0xff,
            wy: 0,
            wx: 0,
            bgpi: 0,
            bgpd: 0,
            vbk: 0,
            mode: 2,
            coincidence: true,
            mode_cycles: 0,
            frame_ready: false,
            vram,
            oam,
            framebuffer,
        };
        proof {
            assert(r@ =~= spec_ppu_power_on());
        }
        r
    }

    /// Write a VRAM byte, an OAM byte or a register.
    pub fn write(&mut self, addr: u16, val: u8)
        requires
            spec_ppu_wf(old(self)@),
            spec_ppu_addr(addr),
        ensures
            final(self)@ == spec_ppu_write(old(self)@, addr, val),
            spec_ppu_wf(final(self)@),
    {
        if 0x8000 <= addr && addr < 0xa000 {
            let i: usize = ((self.vbk % 2) as usize) * 0x2000 + ((addr - 0x8000) as usize);
            self.vram[i] = val;
        } else if 0xfe00 <= addr && addr < 0xfea0 {
            let i: usize = (addr - 0xfe00) as usize;
            self.oam[i] = val;
        } else if addr == 0xff40 {
            let was_on = self.lcdc / 128 % 2 == 1;
            let now_on = val / 128 % 2 == 1;
            self.lcdc = val;
            if was_on != now_on {
                self.ly = 0;
                self.mode = if now_on {
                    2
                } else {
                    0
                };
                self.mode_cycles = 0;
                self.coincidence = self.lyc == 0;
            }
        } else if addr == 0xff41 {
            self.stat_enables = val / 8 % 16 * 8;
        } else if addr == 0xff42 {
            self.scy = val;
        } else if addr == 0xff43 {
            self.scx = val;
        } else if addr == 0xff44 {
            // LY is read-only; the write is ignored.
        } else if addr == 0xff45 {
            self.lyc = val;
        } else if addr == 0xff47 {
            self.bgp = val;
        } else if addr == 0xff48 {
            self.obp0 = val;
        } else if addr == 0xff49 {
            self.obp1 = val;
        } else if addr == 0xff4a {
            self.wy = val;
        } else if addr == 0xff4b {
            self.wx = val;
        } else if addr == 0xff4f {
            self.vbk = val;
        } else if addr == 0xff68 {
            self.bgpi = val;
        } else if addr == 0xff69 {
            self.bgpd = val;
        }
    }

    /// Read a VRAM byte, an OAM byte or a register.
    pub fn read(&self, addr: u16) -> (r: u8)
        requires
            spec_ppu_wf(self@),
            spec_ppu_addr(addr),
        ensures
            r == spec_ppu_read(self@, addr),
    {
        if 0x8000 <= addr && addr < 0xa000 {
            let i: usize = ((self.vbk % 2) as usize) * 0x2000 + ((addr - 0x8000) as usize);
            self.vram[i]
        } else if 0xfe00 <= addr && addr < 0xfea0 {
            self.oam[(addr - 0xfe00) as usize]
        } else if addr == 0xff40 {
            self.lcdc
        } else if addr == 0xff41 {
            self.stat_enables + (if self.coincidence {
                4
            } else {
                0
            }) + self.mode
        } else if addr == 0xff42 {
            self.scy
        } else if addr == 0xff43 {
            self.scx
        } else if addr == 0xff44 {
            self.ly
        } else if addr == 0xff45 {
            self.lyc
        } else if addr == 0xff47 {
            self.bgp
        } else if addr == 0xff48 {
            self.obp0
        } else if addr == 0xff49 {
            self.obp1
        } else if addr == 0xff4a {
            self.wy
        } else if addr == 0xff4b {
            self.wx
        } else if addr == 0xff4f {
            self.vbk
        } else if addr == 0xff68 {
            self.bgpi
        } else {
            self.bgpd
        }
    }

    /// Replace the whole of object attribute memory, as OAM DMA does.
    pub fn oam_dma_transfer(&mut self, oam: Vec<u8>)
        requires
            spec_ppu_wf(old(self)@),
            oam@.len() == 0xa0,
        ensures
            final(self)@ == (PpuView { oam: oam@, ..old(self)@ }),
            spec_ppu_wf(final(self)@),
    {
        self.oam = oam;
    }
}

/// Writing `LY` leaves every subsequent read of `LY` (and the whole
/// PPU) unchanged.
pub proof fn lemma_ly_write_ignored(p: PpuView, val: u8)
    ensures
        spec_ppu_write(p, 0xff44, val) == p,
        spec_ppu_read(spec_ppu_write(p, 0xff44, val), 0xff44) == spec_ppu_read(p, 0xff44),
{
}

/// The register and memory context that scanline rendering reads; the
/// framebuffer itself is not part of it.
#[verifier::ext_equal]
pub struct LineEnv {
    pub vram: Seq<u8>,
    pub oam: Seq<u8>,
    pub lcdc: u8,
    pub bgp: u8,
    pub obp0: u8,
    pub obp1: u8,
    pub scy: u8,
    pub scx: u8,
    pub wy: u8,
    pub wx: u8,
    pub ly: u8,
}

/// The rendering context of a PPU state.
pub open spec fn spec_line_env(p: PpuView) -> LineEnv {
    LineEnv {
        vram: p.vram,
        oam: p.oam,
        lcdc: p.lcdc,
        bgp: p.bgp,
        obp0: p.obp0,
        obp1: p.obp1,
        scy: p.scy,
        scx: p.scx,
        wy: p.wy,
        wx: p.wx,
        ly: p.ly,
    }
}

/// Two to the power `n`, for bit positions within a byte.
pub open spec fn spec_pow2i(n: int) -> int {
    if n <= 0 {
        1
    } else if n == 1 {
        2
    } else if n == 2 {
        4
    } else if n == 3 {
        8
    } else if n == 4 {
        16
    } else if n == 5 {
        32
    } else if n == 6 {
        64
    } else {
        128
    }
}

/// The 2-bit colour index of one pixel of a tile row: bit `7 - col` of
/// the two bitplane bytes, combined high bit first.
pub open spec fn spec_tile_pixel(vram: Seq<u8>, base: int, row: int, col: int) -> u8 {
    let b1 = vram[base + row * 2];
    let b2 = vram[base + row * 2 + 1];
    let p = spec_pow2i(7 - col);
    ((b2 / (p as u8) % 2) * 2 + (b1 / (p as u8) % 2)) as u8
}

/// The VRAM offset of the tile a map cell names, resolving the signed
/// or unsigned tile-data addressing that `LCDC.4` selects.
pub open spec fn spec_tile_base(env: LineEnv, map_hi: bool, tx: int, ty: int) -> int {
    let map: int = if map_hi {
        0x1c00
    } else {
        0x1800
    };
    let tnum = env.vram[map + (ty / 8) * 32 + tx / 8];
    if env.lcdc / 16 % 2 == 1 {
        tnum * 16
    } else {
        0x1000 + (if tnum < 128 {
            tnum as int
        } else {
            tnum - 256
        }) * 16
    }
}

/// The background-or-window colour index at screen column `x` of the
/// current line: the window replaces the background where it covers the
/// pixel, and a disabled background reads index zero.
pub open spec fn spec_bg_index(env: LineEnv, x: int) -> u8 {
    if env.lcdc % 2 == 0 {
        0
    } else {
        let in_window = env.lcdc / 32 % 2 == 1 && env.ly >= env.wy && x + 7 >= env.wx;
        if in_window {
            let wxx = x + 7 - env.wx;
            let wyy = env.ly - env.wy;
            spec_tile_pixel(
                env.vram,
                spec_tile_base(env, env.lcdc / 64 % 2 == 1, wxx, wyy),
                wyy % 8,
                wxx % 8,
            )
        } else {
            let bx = (env.scx + x) % 256;
            let by = (env.scy + env.ly) % 256;
            spec_tile_pixel(
                env.vram,
                spec_tile_base(env, env.lcdc / 8 % 2 == 1, bx, by),
                by % 8,
                bx % 8,
            )
        }
    }
}

/// The packed pixel a palette maps a 2-bit colour index to.
pub open spec fn spec_shade_of(palette: u8, idx: u8) -> u32 {
    let s = palette / (spec_pow2i(2 * idx) as u8) % 4;
    if s == 0 {
        SHADE_0
    } else if s == 1 {
        SHADE_1
    } else if s == 2 {
        SHADE_2
    } else {
        SHADE_3
    }
}

/// The colour of the background layer at screen column `x`: the
/// palette-translated index, or the lightest shade when the background
/// is disabled.
pub open spec fn spec_bg_color(env: LineEnv, x: int) -> u32 {
    if env.lcdc % 2 == 1 {
        spec_shade_of(env.bgp, spec_bg_index(env, x))
    } else {
        SHADE_0
    }
}

/// The framebuffer after the background pass of the current line.
pub open spec fn spec_bg_line_fb(env: LineEnv, fb: Seq<u32>) -> Seq<u32> {
    Seq::new(
        fb.len(),
        |j: int|
            if env.ly * 160 <= j < env.ly * 160 + 160 {
                spec_bg_color(env, j - env.ly * 160)
            } else {
                fb[j]
            },
    )
}

/// Sprite height per `LCDC.2`.
pub open spec fn spec_obj_height(env: LineEnv) -> int {
    if env.lcdc / 4 % 2 == 1 {
        16
    } else {
        8
    }
}

/// Whether OAM entry `i` covers the current line.
pub open spec fn spec_obj_active(env: LineEnv, i: int) -> bool {
    let sy = env.oam[4 * i];
    env.ly + 16 >= sy && env.ly + 16 < sy + spec_obj_height(env)
}

/// One sprite pixel: column `px` of OAM entry `i` drawn over the
/// framebuffer. A transparent pixel (index zero) and a pixel that loses
/// the priority comparison leave everything unchanged; the `owner`
/// sequence records, per screen column, the X coordinate of the sprite
/// drawn there, and a sprite with strictly smaller X wins.
pub open spec fn spec_sprite_px(env: LineEnv, i: int, px: int, fb: Seq<u32>, owner: Seq<u8>) -> (
    Seq<u32>,
    Seq<u8>,
) {
    let sy = env.oam[4 * i];
    let sx = env.oam[4 * i + 1];
    let tile = env.oam[4 * i + 2];
    let attr = env.oam[4 * i + 3];
    let x = sx + px - 8;
    if 0 <= x < 160 {
        let h = spec_obj_height(env);
        let row0 = env.ly + 16 - sy;
        let row = if attr / 64 % 2 == 1 {
            h - 1 - row0
        } else {
            row0 as int
        };
        let t = if h == 16 {
            (tile / 2) * 2
        } else {
            tile as int
        };
        let col = if attr / 32 % 2 == 1 {
            7 - px
        } else {
            px
        };
        let ci = spec_tile_pixel(env.vram, t * 16, row, col);
        let can_draw = owner[x] == 0xff || sx < owner[x];
        if ci == 0 || !can_draw {
            (fb, owner)
        } else {
            let behind = attr / 128 % 2 == 1;
            let color = if behind && spec_bg_index(env, x) != 0 {
                spec_shade_of(env.bgp, spec_bg_index(env, x))
            } else {
                spec_shade_of(
                    if attr / 16 % 2 == 1 {
                        env.obp1
                    } else {
                        env.obp0
                    },
                    ci,
                )
            };
            (fb.update(env.ly * 160 + x, color), owner.update(x, sx))
        }
    } else {
        (fb, owner)
    }
}

/// The eight pixels of OAM entry `i`, drawn left to right from `px`.
pub open spec fn spec_sprite_px_fold(
    env: LineEnv,
    i: int,
    px: int,
    fb: Seq<u32>,
    owner: Seq<u8>,
) -> (Seq<u32>, Seq<u8>)
    decreases 8 - px,
{
    if px >= 8 {
        (fb, owner)
    } else {
        let step = spec_sprite_px(env, i, px, fb, owner);
        spec_sprite_px_fold(env, i, px + 1, step.0, step.1)
    }
}

/// The sprite pass from OAM entry `i` on, with `used` entries already
/// found active: scan OAM in order, draw each entry that covers the
/// line, and ignore entries beyond the tenth active one.
pub open spec fn spec_sprite_fold(env: LineEnv, i: int, used: int, fb: Seq<u32>, owner: Seq<u8>) -> (
    Seq<u32>,
    Seq<u8>,
)
    decreases 40 - i,
{
    if i >= 40 {
        (fb, owner)
    } else if spec_obj_active(env, i) {
        if used < 10 {
            let step = spec_sprite_px_fold(env, i, 0, fb, owner);
            spec_sprite_fold(env, i + 1, used + 1, step.0, step.1)
        } else {
            spec_sprite_fold(env, i + 1, used + 1, fb, owner)
        }
    } else {
        spec_sprite_fold(env, i + 1, used, fb, owner)
    }
}

/// A sprite pixel never changes the dimensions of the framebuffer or
/// of the owner sequence.
proof fn lemma_sprite_px_fold_len(env: LineEnv, i: int, px: int, fb: Seq<u32>, owner: Seq<u8>)
    requires
        env.ly < 144,
        fb.len() == 23040,
        owner.len() == 160,
    ensures
        spec_sprite_px_fold(env, i, px, fb, owner).0.len() == fb.len(),
        spec_sprite_px_fold(env, i, px, fb, owner).1.len() == owner.len(),
    decreases 8 - px,
{
    if px < 8 {
        let step = spec_sprite_px(env, i, px, fb, owner);
        lemma_sprite_px_fold_len(env, i, px + 1, step.0, step.1);
    }
}

/// The sprite pass never changes the dimensions of the framebuffer or
/// of the owner sequence.
proof fn lemma_sprite_fold_len(env: LineEnv, i: int, used: int, fb: Seq<u32>, owner: Seq<u8>)
    requires
        env.ly < 144,
        fb.len() == 23040,
        owner.len() == 160,
    ensures
        spec_sprite_fold(env, i, used, fb, owner).0.len() == fb.len(),
        spec_sprite_fold(env, i, used, fb, owner).1.len() == owner.len(),
    decreases 40 - i,
{
    if i < 40 {
        if spec_obj_active(env, i) && used < 10 {
            let step = spec_sprite_px_fold(env, i, 0, fb, owner);
            lemma_sprite_px_fold_len(env, i, 0, fb, owner);
            lemma_sprite_fold_len(env, i + 1, used + 1, step.0, step.1);
        } else if spec_obj_active(env, i) {
            lemma_sprite_fold_len(env, i + 1, used + 1, fb, owner);
        } else {
            lemma_sprite_fold_len(env, i + 1, used, fb, owner);
        }
    }
}

/// Rendering a line never changes the size of the framebuffer.
pub proof fn lemma_render_line_len(p: PpuView)
    requires
        p.ly < 144,
        p.fb.len() == 23040,
    ensures
        spec_render_line(p).len() == p.fb.len(),
{
    let env = spec_line_env(p);
    let fb1 = spec_bg_line_fb(env, p.fb);
    lemma_sprite_fold_len(env, 0, 0, fb1, Seq::new(160, |i: int| 0xffu8));
}

/// The framebuffer after the current line is rendered: the background
/// pass, then the sprite pass if sprites are enabled.
pub open spec fn spec_render_line(p: PpuView) -> Seq<u32> {
    let env = spec_line_env(p);
    let fb1 = spec_bg_line_fb(env, p.fb);
    if p.lcdc / 2 % 2 == 1 {
        spec_sprite_fold(env, 0, 0, fb1, Seq::new(160, |i: int| 0xffu8)).0
    } else {
        fb1
    }
}


/// Two to the power `n`, for bit positions within a byte.
fn pow2u8(n: u8) -> (r: u8)
    requires
        n < 8,
    ensures
        r == spec_pow2i(n as int),
{
    if n == 0 {
        1
    } else if n == 1 {
        2
    } else if n == 2 {
        4
    } else if n == 3 {
        8
    } else if n == 4 {
        16
    } else if n == 5 {
        32
    } else if n == 6 {
        64
    } else {
        128
    }
}

/// The 2-bit colour index of one pixel of a tile row.
fn tile_pixel(vram: &Vec<u8>, base: usize, row: usize, col: usize) -> (r: u8)
    requires
        col < 8,
        vram@.len() == 0x4000,
        base + row * 2 + 1 < 0x4000,
    ensures
        r == spec_tile_pixel(vram@, base as int, row as int, col as int),
        r < 4,
{
    let b1 = vram[base + row * 2];
    let b2 = vram[base + row * 2 + 1];
    let p = pow2u8(7 - (col as u8));
    (b2 / p % 2) * 2 + (b1 / p % 2)
}

/// The palette-translated packed pixel of a 2-bit colour index.
fn shade_of(palette: u8, idx: u8) -> (r: u32)
    requires
        idx < 4,
    ensures
        r == spec_shade_of(palette, idx),
{
    let d: u8 = if idx == 0 {
        1
    } else if idx == 1 {
        4
    } else if idx == 2 {
        16
    } else {
        64
    };
    let s = palette / d % 4;
    if s == 0 {
        SHADE_0
    } else if s == 1 {
        SHADE_1
    } else if s == 2 {
        SHADE_2
    } else {
        SHADE_3
    }
}

/// The background-or-window colour index at screen column `x` of the
/// current line.
fn bg_index_px(
    vram: &Vec<u8>,
    lcdc: u8,
    scy: u8,
    scx: u8,
    wy: u8,
    wx: u8,
    ly: u8,
    x: usize,
    Ghost(env): Ghost<LineEnv>,
) -> (r: u8)
    requires
        env.vram == vram@,
        env.lcdc == lcdc,
        env.scy == scy,
        env.scx == scx,
        env.wy == wy,
        env.wx == wx,
        env.ly == ly,
        vram@.len() == 0x4000,
        x < 160,
        ly < 144,
    ensures
        r == spec_bg_index(env, x as int),
        r < 4,
{
    if lcdc % 2 == 0 {
        return 0;
    }
    let in_window = lcdc / 32 % 2 == 1 && ly >= wy && x + 7 >= wx as usize;
    let (tx, ty, map_hi): (usize, usize, bool) = if in_window {
        (x + 7 - wx as usize, (ly - wy) as usize, lcdc / 64 % 2 == 1)
    } else {
        (
            ((scx as usize) + x) % 256,
            ((scy as usize) + (ly as usize)) % 256,
            lcdc / 8 % 2 == 1,
        )
    };
    let map: usize = if map_hi {
        0x1c00
    } else {
        0x1800
    };
    let tnum = vram[map + (ty / 8) * 32 + tx / 8];
    let base: usize = if lcdc / 16 % 2 == 1 {
        (tnum as usize) * 16
    } else if tnum < 128 {
        0x1000 + (tnum as usize) * 16
    } else {
        (tnum as usize) * 16
    };
    proof {
        assert(base == spec_tile_base(env, map_hi, tx as int, ty as int));
    }
    tile_pixel(vram, base, ty % 8, tx % 8)
}

impl Ppu {
    /// Render the current scanline into the framebuffer: the background
    /// and window pass, then the sprite pass when sprites are enabled.
    #[verifier::rlimit(100)]
    #[verifier::spinoff_prover]
    fn draw_scanline(&mut self)
        requires
            spec_ppu_wf_loose(old(self)@),
            old(self)@.ly < 144,
        ensures
            final(self)@ == (PpuView { fb: spec_render_line(old(self)@), ..old(self)@ }),
            spec_ppu_wf_loose(final(self)@),
    {
        proof {
            lemma_render_line_len(old(self)@);
        }
        let ghost g = self@;
        let ghost env = spec_line_env(g);
        let ly: usize = self.ly as usize;

        let mut line_idx: Vec<u8> = Vec::new();
        let mut x: usize = 0;
        while x < 160
            invariant
                x <= 160,
                self@ == g,
                spec_ppu_wf_loose(g),
                g.ly < 144,
                ly == g.ly,
                env == spec_line_env(g),
                line_idx@.len() == x,
                forall|k: int|
                    0 <= k < x ==> line_idx@[k] == spec_bg_index(env, k) && line_idx@[k] < 4,
            decreases 160 - x,
        {
            let ci = bg_index_px(
                &self.vram,
                self.lcdc,
                self.scy,
                self.scx,
                self.wy,
                self.wx,
                self.ly,
                x,
                Ghost(env),
            );
            let ghost prev = line_idx@;
            line_idx.push(ci);
            proof {
                assert forall|k: int| 0 <= k < x + 1 implies line_idx@[k] == spec_bg_index(env, k)
                    && line_idx@[k] < 4 by {
                    if k < x {
                        assert(line_idx@[k] == prev[k]);
                    } else {
                        assert(line_idx@[k] == ci);
                    }
                }
            }
            x = x + 1;
        }

        let mut x: usize = 0;
        while x < 160
            invariant
                x <= 160,
                spec_ppu_wf_loose(g),
                g.ly < 144,
                ly == g.ly,
                env == spec_line_env(g),
                line_idx@.len() == 160,
                forall|k: int|
                    0 <= k < 160 ==> line_idx@[k] == spec_bg_index(env, k) && line_idx@[k] < 4,
                self@ == (PpuView { fb: self@.fb, ..g }),
                self@.fb.len() == 23040,
                forall|j: int|
                    0 <= j < 23040 && !(g.ly * 160 <= j < g.ly * 160 + x) ==> self@.fb[j]
                        == g.fb[j],
                forall|j: int|
                    g.ly * 160 <= j < g.ly * 160 + x ==> self@.fb[j] == spec_bg_color(
                        env,
                        j - g.ly * 160,
                    ),
            decreases 160 - x,
        {
            proof {
                assert(line_idx@[x as int] == spec_bg_index(env, x as int) && line_idx@[x as int]
                    < 4);
            }
            let color = if self.lcdc % 2 == 1 {
                shade_of(self.bgp, line_idx[x])
            } else {
                SHADE_0
            };
            self.framebuffer[ly * 160 + x] = color;
            x = x + 1;
        }
        proof {
            assert(self@.fb =~= spec_bg_line_fb(env, g.fb));
        }

        if self.lcdc / 2 % 2 == 1 {
            let ghost fb1 = self@.fb;
            let mut owner: Vec<u8> = crate::filled_vec(0xffu8, 160);
            proof {
                assert(owner@ =~= Seq::new(160, |i: int| 0xffu8));
            }
            let ghost owner0 = owner@;
            let ghost target = spec_sprite_fold(env, 0, 0, fb1, owner0);
            let mut i: usize = 0;
            let mut used: usize = 0;
            while i < 40
                invariant
                    i <= 40,
                    used <= i,
                    spec_ppu_wf_loose(g),
                    g.ly < 144,
                    ly == g.ly,
                    env == spec_line_env(g),
                    line_idx@.len() == 160,
                    forall|k: int|
                        0 <= k < 160 ==> line_idx@[k] == spec_bg_index(env, k) && line_idx@[k] < 4,
                    self@ == (PpuView { fb: self@.fb, ..g }),
                    self@.fb.len() == 23040,
                    owner@.len() == 160,
                    spec_sprite_fold(env, i as int, used as int, self@.fb, owner@) == target,
                decreases 40 - i,
            {
                let sy = self.oam[4 * i];
                let sx = self.oam[4 * i + 1];
                let tile = self.oam[4 * i + 2];
                let attr = self.oam[4 * i + 3];
                let h: usize = if self.lcdc / 4 % 2 == 1 {
                    16
                } else {
                    8
                };
                let active = ly + 16 >= sy as usize && ly + 16 < sy as usize + h;
                proof {
                    assert(active == spec_obj_active(env, i as int));
                }
                if active {
                    if used < 10 {
                        let ghost pxt = spec_sprite_px_fold(env, i as int, 0, self@.fb, owner@);
                        let mut px: usize = 0;
                        while px < 8
                            invariant
                                px <= 8,
                                i < 40,
                                spec_ppu_wf_loose(g),
                                g.ly < 144,
                                ly == g.ly,
                                env == spec_line_env(g),
                                line_idx@.len() == 160,
                                forall|k: int|
                                    0 <= k < 160 ==> line_idx@[k] == spec_bg_index(env, k)
                                        && line_idx@[k] < 4,
                                self@ == (PpuView { fb: self@.fb, ..g }),
                                self@.fb.len() == 23040,
                                owner@.len() == 160,
                                sy == env.oam[4 * i],
                                sx == env.oam[4 * i + 1],
                                tile == env.oam[4 * i + 2],
                                attr == env.oam[4 * i + 3],
                                h == spec_obj_height(env),
                                ly + 16 >= sy && ly + 16 < sy + h,
                                spec_sprite_px_fold(env, i as int, px as int, self@.fb, owner@)
                                    == pxt,
                            decreases 8 - px,
                        {
                            let ghost fb_in = self@.fb;
                            let ghost ow_in = owner@;
                            let sxp = sx as usize + px;
                            if 8 <= sxp && sxp < 168 {
                                let x = sxp - 8;
                                let row0 = ly + 16 - sy as usize;
                                let row = if attr / 64 % 2 == 1 {
                                    h - 1 - row0
                                } else {
                                    row0
                                };
                                let t: usize = if h == 16 {
                                    (tile as usize / 2) * 2
                                } else {
                                    tile as usize
                                };
                                let col = if attr / 32 % 2 == 1 {
                                    7 - px
                                } else {
                                    px
                                };
                                let ci = tile_pixel(&self.vram, t * 16, row, col);
                                let can_draw = owner[x] == 0xff || sx < owner[x];
                                if ci != 0 && can_draw {
                                    let behind = attr / 128 % 2 == 1;
                                    let bgi = line_idx[x];
                                    let color = if behind && bgi != 0 {
                                        shade_of(self.bgp, bgi)
                                    } else {
                                        shade_of(
                                            if attr / 16 % 2 == 1 {
                                                self.obp1
                                            } else {
                                                self.obp0
                                            },
                                            ci,
                                        )
                                    };
                                    self.framebuffer[ly * 160 + x] = color;
                                    owner[x] = sx;
                                }
                            }
                            proof {
                                assert(spec_sprite_px(env, i as int, px as int, fb_in, ow_in) == (
                                    self@.fb,
                                    owner@,
                                ));
                            }
                            px = px + 1;
                        }
                    }
                    used = used + 1;
                } else {
                }
                i = i + 1;
            }
            proof {
                assert(self@.fb == target.0);
                assert(spec_render_line(g) == target.0);
            }
        } else {
            proof {
                assert(spec_render_line(g) =~= self@.fb);
            }
        }
    }
}


/// Whether the `STAT` horizontal-blank interrupt enable (bit 3) is set.
pub open spec fn spec_stat_hblank(p: PpuView) -> bool {
    p.stat_enables / 8 % 2 == 1
}

/// Whether the `STAT` vertical-blank interrupt enable (bit 4) is set.
pub open spec fn spec_stat_vblank(p: PpuView) -> bool {
    p.stat_enables / 16 % 2 == 1
}

/// Whether the `STAT` OAM interrupt enable (bit 5) is set.
pub open spec fn spec_stat_oam(p: PpuView) -> bool {
    p.stat_enables / 32 % 2 == 1
}

/// Whether the `STAT` coincidence interrupt enable (bit 6) is set.
pub open spec fn spec_stat_lyc(p: PpuView) -> bool {
    p.stat_enables / 64 % 2 == 1
}

/// One transition of the mode machine, taken when the accumulator has
/// filled the current mode: the next mode, the line counter and
/// coincidence bookkeeping, the rendering on entry to horizontal
/// blank, the frame publication on entry to vertical blank, and the
/// interrupt bits the transition raises. The mode accumulator itself is
/// not touched here.
pub open spec fn spec_ppu_mode_change(p: PpuView) -> (PpuView, u8) {
    if p.mode == 2 {
        (PpuView { mode: 3u8, ..p }, 0u8)
    } else if p.mode == 3 {
        (
            PpuView { mode: 0u8, fb: spec_render_line(p), ..p },
            if spec_stat_hblank(p) {
                INT_LCDSTAT
            } else {
                0u8
            },
        )
    } else if p.mode == 0 {
        let ly = (p.ly + 1) as u8;
        let coin = ly == p.lyc;
        let lyc_int: u8 = if coin && spec_stat_lyc(p) {
            INT_LCDSTAT
        } else {
            0u8
        };
        if ly == 144 {
            (
                PpuView { mode: 1u8, ly, coincidence: coin, frame_ready: true, ..p },
                (INT_VBLANK | lyc_int | (if spec_stat_vblank(p) {
                    INT_LCDSTAT
                } else {
                    0u8
                })),
            )
        } else {
            (
                PpuView { mode: 2u8, ly, coincidence: coin, ..p },
                (lyc_int | (if spec_stat_oam(p) {
                    INT_LCDSTAT
                } else {
                    0u8
                })),
            )
        }
    } else {
        if p.ly == 153 {
            let coin = 0 == p.lyc;
            (
                PpuView { mode: 2u8, ly: 0, coincidence: coin, ..p },
                ((if coin && spec_stat_lyc(p) {
                    INT_LCDSTAT
                } else {
                    0u8
                }) | (if spec_stat_oam(p) {
                    INT_LCDSTAT
                } else {
                    0u8
                })),
            )
        } else {
            let ly = (p.ly + 1) as u8;
            let coin = ly == p.lyc;
            (
                PpuView { ly, coincidence: coin, ..p },
                if coin && spec_stat_lyc(p) {
                    INT_LCDSTAT
                } else {
                    0u8
                },
            )
        }
    }
}

/// One full step of the mode machine: the transition plus the mode
/// accumulator giving up the finished mode's cycles.
pub open spec fn spec_ppu_advance(p: PpuView) -> (PpuView, u8) {
    let step = spec_ppu_mode_change(p);
    (PpuView { mode_cycles: (p.mode_cycles - spec_mode_len(p.mode)) as u32, ..step.0 }, step.1)
}

/// Run the mode machine until the accumulator no longer fills the
/// current mode, collecting the interrupt bits of every transition.
pub open spec fn spec_ppu_catch_up(p: PpuView) -> (PpuView, u8)
    decreases p.mode_cycles,
{
    if p.mode_cycles >= spec_mode_len(p.mode) {
        let fst = spec_ppu_advance(p);
        let rest = spec_ppu_catch_up(fst.0);
        (rest.0, (fst.1 | rest.1))
    } else {
        (p, 0u8)
    }
}

/// The PPU after `n` cycles and the interrupt bits the flush raised.
/// A disabled LCD idles.
pub open spec fn spec_ppu_flush(p: PpuView, n: u32) -> (PpuView, u8) {
    if spec_lcd_on(p) {
        spec_ppu_catch_up(PpuView { mode_cycles: (p.mode_cycles + n) as u32, ..p })
    } else {
        (p, 0u8)
    }
}

/// Bitwise or of bytes is associative.
proof fn lemma_or_assoc(a: u8, b: u8, c: u8)
    ensures
        (a | (b | c)) == ((a | b) | c),
        (a | 0) == a,
        (0 | a) == a,
{
    assert((a | (b | c)) == ((a | b) | c) && (a | 0) == a && (0 | a) == a) by (bit_vector);
}

/// Cycles a mode lasts before the machine moves on.
fn mode_len(mode: u8) -> (r: u32)
    ensures
        r == spec_mode_len(mode),
{
    if mode == 2 {
        80
    } else if mode == 3 {
        172
    } else if mode == 0 {
        204
    } else {
        456
    }
}

impl Ppu {
    /// Perform one transition of the mode machine, leaving the mode
    /// accumulator alone; the result is the interrupt bits raised.
    fn mode_change(&mut self) -> (r: u8)
        requires
            spec_ppu_wf_loose(old(self)@),
        ensures
            final(self)@ == spec_ppu_mode_change(old(self)@).0,
            r == spec_ppu_mode_change(old(self)@).1,
            spec_ppu_wf_loose(final(self)@),
            final(self)@.lcdc == old(self)@.lcdc,
            final(self)@.mode_cycles == old(self)@.mode_cycles,
    {
        if self.mode == 2 {
            self.mode = 3;
            0
        } else if self.mode == 3 {
            self.draw_scanline();
            self.mode = 0;
            if self.stat_enables / 8 % 2 == 1 {
                INT_LCDSTAT
            } else {
                0
            }
        } else if self.mode == 0 {
            let ly = self.ly + 1;
            self.ly = ly;
            let coin = ly == self.lyc;
            self.coincidence = coin;
            let lyc_int: u8 = if coin && self.stat_enables / 64 % 2 == 1 {
                INT_LCDSTAT
            } else {
                0
            };
            if ly == 144 {
                self.mode = 1;
                self.frame_ready = true;
                INT_VBLANK | lyc_int | (if self.stat_enables / 16 % 2 == 1 {
                    INT_LCDSTAT
                } else {
                    0
                })
            } else {
                self.mode = 2;
                lyc_int | (if self.stat_enables / 32 % 2 == 1 {
                    INT_LCDSTAT
                } else {
                    0
                })
            }
        } else {
            if self.ly == 153 {
                self.ly = 0;
                let coin = 0 == self.lyc;
                self.coincidence = coin;
                self.mode = 2;
                (if coin && self.stat_enables / 64 % 2 == 1 {
                    INT_LCDSTAT
                } else {
                    0
                }) | (if self.stat_enables / 32 % 2 == 1 {
                    INT_LCDSTAT
                } else {
                    0
                })
            } else {
                let ly = self.ly + 1;
                self.ly = ly;
                let coin = ly == self.lyc;
                self.coincidence = coin;
                if coin && self.stat_enables / 64 % 2 == 1 {
                    INT_LCDSTAT
                } else {
                    0
                }
            }
        }
    }

    /// Advance the mode machine by `n` cycles; the result is the
    /// interrupt mask the elapsed transitions raised.
    pub fn cycle_flush(&mut self, cycle_count: u32) -> (r: u8)
        requires
            spec_ppu_wf(old(self)@),
            cycle_count <= 0x100_0000,
        ensures
            final(self)@ == spec_ppu_flush(old(self)@, cycle_count).0,
            r == spec_ppu_flush(old(self)@, cycle_count).1,
            spec_ppu_wf(final(self)@),
    {
        if self.lcdc / 128 % 2 == 0 {
            return 0;
        }
        self.mode_cycles = self.mode_cycles + cycle_count;
        let ghost target = spec_ppu_catch_up(self@);
        let mut ints: u8 = 0;
        proof {
            lemma_or_assoc(target.1, 0, 0);
        }
        while mode_len(self.mode) <= self.mode_cycles
            invariant
                spec_ppu_wf_loose(self@),
                spec_lcd_on(self@),
                spec_ppu_catch_up(self@).0 == target.0,
                target.1 == (ints | spec_ppu_catch_up(self@).1),
            decreases self.mode_cycles,
        {
            let ghost pre = self@;
            let ghost fst = spec_ppu_advance(pre);
            let ghost rest = spec_ppu_catch_up(fst.0);
            let len = mode_len(self.mode);
            let step_ints = self.mode_change();
            self.mode_cycles = self.mode_cycles - len;
            proof {
                assert(self@ == fst.0);
                lemma_or_assoc(ints, step_ints, rest.1);
            }
            ints = ints | step_ints;
        }
        proof {
            assert(spec_ppu_catch_up(self@) == (self@, 0u8));
            lemma_or_assoc(ints, 0, 0);
        }
        ints
    }

    /// Whether a frame has been published since the flag was last
    /// cleared.
    pub fn frame_ready(&self) -> (r: bool)
        ensures
            r == self@.frame_ready,
    {
        self.frame_ready
    }

    /// Clear the published-frame flag.
    pub fn clear_frame_flag(&mut self)
        ensures
            final(self)@ == (PpuView { frame_ready: false, ..old(self)@ }),
    {
        self.frame_ready = false;
    }
}


/// The position of the mode machine within the 70224-cycle frame: 456
/// cycles per line, OAM search first, then pixel transfer, then
/// horizontal blank; the ten vertical-blank lines close the frame.
pub open spec fn spec_ppu_pos(p: PpuView) -> int {
    if p.mode == 2 {
        p.ly * 456 + p.mode_cycles
    } else if p.mode == 3 {
        p.ly * 456 + 80 + p.mode_cycles
    } else if p.mode == 0 {
        p.ly * 456 + 252 + p.mode_cycles
    } else {
        p.ly * 456 + p.mode_cycles
    }
}

/// One step of the mode machine keeps the frame position, except the
/// wrap from the last vertical-blank line back to line zero, which
/// takes it back one whole frame.
proof fn lemma_advance_pos(p: PpuView)
    requires
        spec_ppu_wf_loose(p),
        p.mode_cycles >= spec_mode_len(p.mode),
    ensures
        spec_ppu_wf_loose(spec_ppu_advance(p).0),
        spec_ppu_pos(spec_ppu_advance(p).0) == if p.mode == 1 && p.ly == 153 {
            spec_ppu_pos(p) - 70224
        } else {
            spec_ppu_pos(p)
        },
        spec_ppu_advance(p).0.mode_cycles < p.mode_cycles,
{
    if p.mode == 3 {
        lemma_render_line_len(p);
    }
}

/// Catching the mode machine up reduces the frame position modulo one
/// frame.
proof fn lemma_catch_up_pos(p: PpuView)
    requires
        spec_ppu_wf_loose(p),
    ensures
        spec_ppu_wf_loose(spec_ppu_catch_up(p).0),
        spec_ppu_pos(spec_ppu_catch_up(p).0) == spec_ppu_pos(p) % 70224,
        spec_ppu_catch_up(p).0.mode_cycles < spec_mode_len(spec_ppu_catch_up(p).0.mode),
    decreases p.mode_cycles,
{
    if p.mode_cycles >= spec_mode_len(p.mode) {
        lemma_advance_pos(p);
        let q = spec_ppu_advance(p).0;
        lemma_catch_up_pos(q);
        if p.mode == 1 && p.ly == 153 {
            let x = spec_ppu_pos(p);
            assert(x >= 70224);
            assert((x - 70224) % 70224 == x % 70224) by (nonlinear_arith)
                requires
                    x >= 70224,
            ;
        }
    } else {
        let x = spec_ppu_pos(p);
        assert(0 <= x < 70224);
        assert(x % 70224 == x);
    }
}

/// Once the LCD is enabled, `LY` follows the frame position exactly:
/// after any flush it reads the line of the position reached, so it
/// advances by one every 456 cycles and wraps modulo 154 lines.
pub proof fn lemma_ly_advances(p: PpuView, n: u32)
    requires
        spec_ppu_wf(p),
        spec_lcd_on(p),
        n <= 0x100_0000,
    ensures
        spec_ppu_flush(p, n).0.ly == ((spec_ppu_pos(p) + n) % 70224) / 456,
        spec_ppu_pos(p) == p.ly * 456 + (spec_ppu_pos(p) - p.ly * 456),
        0 <= spec_ppu_pos(p) - p.ly * 456 < 456,
{
    let p1 = PpuView { mode_cycles: (p.mode_cycles + n) as u32, ..p };
    assert(spec_ppu_pos(p1) == spec_ppu_pos(p) + n);
    lemma_catch_up_pos(p1);
    let q = spec_ppu_catch_up(p1).0;
    assert(q.ly * 456 <= spec_ppu_pos(q) < q.ly * 456 + 456);
    let x = spec_ppu_pos(q);
    let l = q.ly as int;
    assert(x / 456 == l) by (nonlinear_arith)
        requires
            l * 456 <= x < l * 456 + 456,
    ;
}


/// Sprite colour index zero is transparent: a sprite pixel whose 2-bit
/// palette index is zero leaves the framebuffer (and the priority
/// bookkeeping) untouched, whatever shade the object palettes would map
/// index zero to.
pub proof fn lemma_sprite_transparent_pixel(
    env: LineEnv,
    i: int,
    px: int,
    fb: Seq<u32>,
    owner: Seq<u8>,
)
    ensures
        ({
            let tile = env.oam[4 * i + 2];
            let attr = env.oam[4 * i + 3];
            let h = spec_obj_height(env);
            let row0 = env.ly + 16 - env.oam[4 * i];
            let row = if attr / 64 % 2 == 1 {
                h - 1 - row0
            } else {
                row0 as int
            };
            let t = if h == 16 {
                (tile / 2) * 2
            } else {
                tile as int
            };
            let col = if attr / 32 % 2 == 1 {
                7 - px
            } else {
                px
            };
            spec_tile_pixel(env.vram, t * 16, row, col) == 0 ==> spec_sprite_px(
                env,
                i,
                px,
                fb,
                owner,
            ) == (fb, owner)
        }),
{
}

} // verus!
