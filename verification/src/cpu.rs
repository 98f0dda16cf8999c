//! The LR35902-family CPU: fetch, decode and execute of the primary and
//! CB opcode pages, exact flag semantics, the stack, interrupt
//! dispatch, and cycle accounting.

use vstd::prelude::*;

use crate::interconnect::IcView;
use crate::interconnect::Interconnect;
use crate::interconnect::spec_ic_flush;
use crate::interconnect::spec_ic_read;
use crate::interconnect::spec_ic_wf;
use crate::interconnect::spec_ic_write;
use crate::registers::Reg16;
use crate::registers::Reg8;
use crate::registers::Registers;
use crate::registers::spec_flags;
use crate::registers::spec_read_u16;
use crate::registers::spec_read_u8;
use crate::registers::spec_write_u16;
use crate::registers::spec_write_u8;
use crate::GameboyType;

verus! {

/// The CPU: the register file, the bus it owns, the interrupt master
/// enable, the halt latch, and the counter that defers the effect of
/// `EI` by one instruction.
#[derive(Debug)]
pub struct Cpu {
    pub reg: Registers,
    pub interconnect: Interconnect,
    pub ime: bool,
    pub halted: bool,
    pub ei_delay: u8,
}

/// Mathematical view of the CPU and everything behind its bus.
#[verifier::ext_equal]
pub struct CpuView {
    pub reg: Registers,
    pub ic: IcView,
    pub ime: bool,
    pub halted: bool,
    pub ei_delay: u8,
}

impl View for Cpu {
    type V = CpuView;

    open spec fn view(&self) -> CpuView {
        CpuView {
            reg: self.reg,
            ic: self.interconnect@,
            ime: self.ime,
            halted: self.halted,
            ei_delay: self.ei_delay,
        }
    }
}

/// Well-formed CPU: a well-formed bus and a deferral counter of at most
/// two.
pub open spec fn spec_cpu_wf(c: CpuView) -> bool {
    &&& spec_ic_wf(c.ic)
    &&& c.ei_delay <= 2
}

/// Truncate to sixteen bits.
pub open spec fn w16(x: int) -> u16 {
    (x % 0x10000) as u16
}

/// Truncate to eight bits.
pub open spec fn w8(x: int) -> u8 {
    (x % 0x100) as u8
}

/// An 8-bit operand of the operand matrix: a register, the immediate
/// byte, memory addressed by a register pair or by the immediate word,
/// or the high page addressed by the immediate byte or by `C`.
#[derive(Debug, Copy, Clone, PartialEq, Eq, Structural)]
pub enum Operand8 {
    Reg(Reg8),
    Imm,
    Mem(Reg16),
    MemImm,
    HiImm,
    HiC,
}

/// A branch condition.
#[derive(Debug, Copy, Clone, PartialEq, Eq, Structural)]
pub enum Cond {
    Uncond,
    Zero,
    Carry,
    NotZero,
    NotCarry,
}

/// Whether a condition holds of the current flags.
pub open spec fn spec_cond(r: Registers, cond: Cond) -> bool {
    match cond {
        Cond::Uncond => true,
        Cond::Zero => r.zero,
        Cond::Carry => r.carry,
        Cond::NotZero => !r.zero,
        Cond::NotCarry => !r.carry,
    }
}

/// The CPU after one byte is fetched: the program counter advances.
pub open spec fn sp_fetch8_st(c: CpuView) -> CpuView {
    CpuView { reg: Registers { pc: w16(c.reg.pc + 1), ..c.reg }, ..c }
}

/// The byte a fetch returns: the bus byte at the program counter.
pub open spec fn sp_fetch8_val(c: CpuView) -> u8 {
    spec_ic_read(c.ic, c.reg.pc)
}

/// The CPU after the immediate word is fetched.
pub open spec fn sp_fetch16_st(c: CpuView) -> CpuView {
    CpuView { reg: Registers { pc: w16(c.reg.pc + 2), ..c.reg }, ..c }
}

/// The immediate word at the program counter, low byte first.
pub open spec fn sp_fetch16_val(c: CpuView) -> u16 {
    (spec_ic_read(c.ic, w16(c.reg.pc + 1)) * 256 + spec_ic_read(c.ic, c.reg.pc)) as u16
}

/// The CPU after an 8-bit operand is read: immediate forms advance the
/// program counter; nothing else changes.
pub open spec fn sp_read8_st(c: CpuView, op: Operand8) -> CpuView {
    match op {
        Operand8::Reg(r) => c,
        Operand8::Imm => sp_fetch8_st(c),
        Operand8::Mem(rr) => c,
        Operand8::MemImm => sp_fetch16_st(c),
        Operand8::HiImm => sp_fetch8_st(c),
        Operand8::HiC => c,
    }
}

/// The value an 8-bit operand read returns.
pub open spec fn sp_read8_val(c: CpuView, op: Operand8) -> u8 {
    match op {
        Operand8::Reg(r) => spec_read_u8(c.reg, r),
        Operand8::Imm => sp_fetch8_val(c),
        Operand8::Mem(rr) => spec_ic_read(c.ic, spec_read_u16(c.reg, rr)),
        Operand8::MemImm => spec_ic_read(c.ic, sp_fetch16_val(c)),
        Operand8::HiImm => spec_ic_read(c.ic, (0xff00 + sp_fetch8_val(c)) as u16),
        Operand8::HiC => spec_ic_read(c.ic, (0xff00 + c.reg.c) as u16),
    }
}

/// The CPU after a value is written to an 8-bit operand: immediate
/// address forms fetch their address first.
pub open spec fn sp_write8_st(c: CpuView, op: Operand8, val: u8) -> CpuView {
    match op {
        Operand8::Reg(r) => CpuView { reg: spec_write_u8(c.reg, r, val), ..c },
        Operand8::Imm => c,
        Operand8::Mem(rr) => CpuView {
            ic: spec_ic_write(c.ic, spec_read_u16(c.reg, rr), val),
            ..c
        },
        Operand8::MemImm => {
            let c1 = sp_fetch16_st(c);
            CpuView { ic: spec_ic_write(c1.ic, sp_fetch16_val(c), val), ..c1 }
        },
        Operand8::HiImm => {
            let c1 = sp_fetch8_st(c);
            CpuView { ic: spec_ic_write(c1.ic, (0xff00 + sp_fetch8_val(c)) as u16, val), ..c1 }
        },
        Operand8::HiC => CpuView { ic: spec_ic_write(c.ic, (0xff00 + c.reg.c) as u16, val), ..c },
    }
}

/// The CPU after a word is pushed: the high byte at `SP - 1`, the low
/// byte at `SP - 2`, and `SP` lowered by two.
pub open spec fn sp_push16(c: CpuView, val: u16) -> CpuView {
    let s1 = w16(c.reg.sp - 1);
    let s2 = w16(c.reg.sp - 2);
    let ic1 = spec_ic_write(c.ic, s1, (val / 256) as u8);
    let ic2 = spec_ic_write(ic1, s2, (val % 256) as u8);
    CpuView { reg: Registers { sp: s2, ..c.reg }, ic: ic2, ..c }
}

/// The CPU after a word is popped: `SP` raised by two.
pub open spec fn sp_pop16_st(c: CpuView) -> CpuView {
    CpuView { reg: Registers { sp: w16(c.reg.sp + 2), ..c.reg }, ..c }
}

/// The word a pop returns: the low byte at `SP`, the high byte above
/// it.
pub open spec fn sp_pop16_val(c: CpuView) -> u16 {
    (spec_ic_read(c.ic, w16(c.reg.sp + 1)) * 256 + spec_ic_read(c.ic, c.reg.sp)) as u16
}

/// An 8-bit ALU outcome: the result byte and the four flags.
#[verifier::ext_equal]
pub struct Alu {
    pub r: u8,
    pub z: bool,
    pub n: bool,
    pub h: bool,
    pub c: bool,
}

/// Addition with an incoming carry: half-carry from bit 3, carry from
/// bit 7, both including the carry-in.
pub open spec fn spec_alu_add(a: u8, b: u8, cin: int) -> Alu {
    let r = w8(a + b + cin);
    Alu {
        r,
        z: r == 0,
        n: false,
        h: (a & 0xf) + (b & 0xf) + cin > 0xf,
        c: a + b + cin > 0xff,
    }
}

/// Subtraction with an incoming borrow: half-borrow from bit 4, borrow
/// from bit 8, both including the borrow-in.
pub open spec fn spec_alu_sub(a: u8, b: u8, cin: int) -> Alu {
    let r = w8(a - b - cin);
    Alu { r, z: r == 0, n: true, h: (a & 0xf) < (b & 0xf) + cin, c: (a as int) < b + cin }
}

/// The decimal adjustment of `A` after a BCD addition or subtraction.
pub open spec fn spec_alu_daa(a: u8, n: bool, h: bool, c: bool) -> Alu {
    if n {
        let r = w8(a - (if c {
            0x60int
        } else {
            0int
        }) - (if h {
            0x06int
        } else {
            0int
        }));
        Alu { r, z: r == 0, n, h: false, c }
    } else {
        let cy = c || a > 0x99;
        let r = w8(a + (if cy {
            0x60int
        } else {
            0int
        }) + (if h || a % 16 > 0x09 {
            0x06int
        } else {
            0int
        }));
        Alu { r, z: r == 0, n, h: false, c: cy }
    }
}

/// The BCD encoding of a two-digit decimal number.
pub open spec fn spec_bcd(v: int) -> u8 {
    ((v / 10) * 16 + v % 10) as u8
}

impl Cpu {
    /// A CPU at power-on, wired to the given bus.
    pub fn new(gb_type: GameboyType, interconnect: Interconnect) -> (r: Cpu)
        requires
            spec_ic_wf(interconnect@),
        ensures
            r@.reg == crate::registers::spec_power_on(gb_type),
            r@.ic == interconnect@,
            r@.ime == true,
            r@.halted == false,
            r@.ei_delay == 0,
            spec_cpu_wf(r@),
    {
        Cpu {
            reg: Registers::new(gb_type),
            interconnect,
            ime: true,
            halted: false,
            ei_delay: 0,
        }
    }

    /// Read a byte from the bus.
    pub fn read(&self, addr: u16) -> (r: u8)
        requires
            spec_cpu_wf(self@),
        ensures
            r == spec_ic_read(self@.ic, addr),
    {
        self.interconnect.read(addr)
    }

    /// Write a byte to the bus.
    pub fn write(&mut self, addr: u16, val: u8)
        requires
            spec_cpu_wf(old(self)@),
        ensures
            final(self)@ == (CpuView { ic: spec_ic_write(old(self)@.ic, addr, val), ..old(self)@ }),
            spec_cpu_wf(final(self)@),
    {
        self.interconnect.write(addr, val);
    }

    /// Fetch the byte at the program counter and advance past it.
    pub fn fetch_u8(&mut self) -> (r: u8)
        requires
            spec_cpu_wf(old(self)@),
        ensures
            final(self)@ == sp_fetch8_st(old(self)@),
            r == sp_fetch8_val(old(self)@),
            spec_cpu_wf(final(self)@),
    {
        let pc = self.reg.pc;
        let v = self.interconnect.read(pc);
        self.reg.pc = (((pc as u32) + 1) % 0x10000) as u16;
        v
    }

    /// Fetch the immediate word at the program counter, low byte first.
    pub fn fetch_u16(&mut self) -> (r: u16)
        requires
            spec_cpu_wf(old(self)@),
        ensures
            final(self)@ == sp_fetch16_st(old(self)@),
            r == sp_fetch16_val(old(self)@),
            spec_cpu_wf(final(self)@),
    {
        let low = self.fetch_u8();
        let high = self.fetch_u8();
        proof {
            let pc = old(self)@.reg.pc as int;
            assert(w16(w16(pc + 1) + 1) == w16(pc + 2));
        }
        (high as u16) * 256 + (low as u16)
    }

    /// Read an 8-bit operand, fetching any immediate it names.
    fn read_op8(&mut self, op: Operand8) -> (r: u8)
        requires
            spec_cpu_wf(old(self)@),
        ensures
            final(self)@ == sp_read8_st(old(self)@, op),
            r == sp_read8_val(old(self)@, op),
            spec_cpu_wf(final(self)@),
    {
        match op {
            Operand8::Reg(r) => self.reg.read_u8(r),
            Operand8::Imm => self.fetch_u8(),
            Operand8::Mem(rr) => {
                let addr = self.reg.read_u16(rr);
                self.read(addr)
            },
            Operand8::MemImm => {
                let addr = self.fetch_u16();
                self.read(addr)
            },
            Operand8::HiImm => {
                let off = self.fetch_u8();
                self.read(0xff00 + (off as u16))
            },
            Operand8::HiC => self.read(0xff00 + (self.reg.c as u16)),
        }
    }

    /// Write an 8-bit operand, fetching any immediate address it names.
    fn write_op8(&mut self, op: Operand8, val: u8)
        requires
            spec_cpu_wf(old(self)@),
        ensures
            final(self)@ == sp_write8_st(old(self)@, op, val),
            spec_cpu_wf(final(self)@),
    {
        match op {
            Operand8::Reg(r) => self.reg.write_u8(r, val),
            Operand8::Imm => {},
            Operand8::Mem(rr) => {
                let addr = self.reg.read_u16(rr);
                self.write(addr, val);
            },
            Operand8::MemImm => {
                let addr = self.fetch_u16();
                self.write(addr, val);
            },
            Operand8::HiImm => {
                let off = self.fetch_u8();
                self.write(0xff00 + (off as u16), val);
            },
            Operand8::HiC => {
                self.write(0xff00 + (self.reg.c as u16), val);
            },
        }
    }

    /// Push a word onto the stack.
    pub fn push_u16(&mut self, val: u16)
        requires
            spec_cpu_wf(old(self)@),
        ensures
            final(self)@ == sp_push16(old(self)@, val),
            spec_cpu_wf(final(self)@),
    {
        let sp = self.reg.sp;
        let s1 = (((sp as u32) + 0x10000 - 1) % 0x10000) as u16;
        let s2 = (((sp as u32) + 0x10000 - 2) % 0x10000) as u16;
        proof {
            lemma_wrap_sub(sp as int, 1);
            lemma_wrap_sub(sp as int, 2);
        }
        self.write(s1, (val / 256) as u8);
        self.write(s2, (val % 256) as u8);
        self.reg.sp = s2;
    }

    /// Pop a word off the stack.
    pub fn pop_u16(&mut self) -> (r: u16)
        requires
            spec_cpu_wf(old(self)@),
        ensures
            final(self)@ == sp_pop16_st(old(self)@),
            r == sp_pop16_val(old(self)@),
            spec_cpu_wf(final(self)@),
    {
        let sp = self.reg.sp;
        let low = self.read(sp);
        let high = self.read((((sp as u32) + 1) % 0x10000) as u16);
        self.reg.sp = (((sp as u32) + 2) % 0x10000) as u16;
        (high as u16) * 256 + (low as u16)
    }
}

/// Subtracting by adding the modulus: the wrapped difference.
proof fn lemma_wrap_sub(a: int, b: int)
    requires
        0 <= a < 0x10000,
        0 <= b <= 0x10000,
    ensures
        (a + 0x10000 - b) % 0x10000 == (a - b) % 0x10000,
{
    vstd::arithmetic::div_mod::lemma_mod_add_multiples_vanish(a - b, 0x10000);
}


/// The register file with the four flags replaced.
pub open spec fn sp_flags(r: Registers, z: bool, n: bool, h: bool, c: bool) -> Registers {
    Registers { zero: z, subtract: n, half_carry: h, carry: c, ..r }
}

/// `LD dst, src`: read the source, write the destination.
pub open spec fn sp_ld(c: CpuView, dst: Operand8, src: Operand8) -> CpuView {
    let c1 = sp_read8_st(c, src);
    sp_write8_st(c1, dst, sp_read8_val(c, src))
}

/// `LD rr, d16`: load a register pair from the immediate word.
pub open spec fn sp_ld16_imm(c: CpuView, rr: Reg16) -> CpuView {
    let c1 = sp_fetch16_st(c);
    CpuView { reg: spec_write_u16(c1.reg, rr, sp_fetch16_val(c)), ..c1 }
}

/// `LD SP, HL`.
pub open spec fn sp_ld_sp_hl(c: CpuView) -> CpuView {
    CpuView { reg: Registers { sp: spec_read_u16(c.reg, Reg16::HL), ..c.reg }, ..c }
}

/// `LD (a16), SP`: store the stack pointer, low byte first.
pub open spec fn sp_st_sp(c: CpuView) -> CpuView {
    let addr = sp_fetch16_val(c);
    let c1 = sp_fetch16_st(c);
    let ic1 = spec_ic_write(c1.ic, addr, (c.reg.sp % 256) as u8);
    let ic2 = spec_ic_write(ic1, w16(addr + 1), (c.reg.sp / 256) as u8);
    CpuView { ic: ic2, ..c1 }
}

/// `LDI` / `LDD`: the load plus the post-step of `HL`.
pub open spec fn sp_ld_step_hl(c: CpuView, dst: Operand8, src: Operand8, down: bool) -> CpuView {
    let c1 = sp_ld(c, dst, src);
    let hl = spec_read_u16(c1.reg, Reg16::HL);
    let hl2 = if down {
        w16(hl - 1)
    } else {
        w16(hl + 1)
    };
    CpuView { reg: spec_write_u16(c1.reg, Reg16::HL, hl2), ..c1 }
}

/// `JP cond, a16`: the target is fetched whether or not the branch is
/// taken.
pub open spec fn sp_jp(c: CpuView, cond: Cond) -> CpuView {
    let target = sp_fetch16_val(c);
    let c1 = sp_fetch16_st(c);
    if spec_cond(c.reg, cond) {
        CpuView { reg: Registers { pc: target, ..c1.reg }, ..c1 }
    } else {
        c1
    }
}

/// `JP (HL)`.
pub open spec fn sp_jp_hl(c: CpuView) -> CpuView {
    CpuView { reg: Registers { pc: spec_read_u16(c.reg, Reg16::HL), ..c.reg }, ..c }
}

/// The sign extension of a relative-branch offset byte.
pub open spec fn sp_signed(off: u8) -> int {
    if off < 0x80 {
        off as int
    } else {
        off - 256
    }
}

/// `JR cond, r8`: the offset is fetched whether or not the branch is
/// taken, and applies to the program counter after the fetch.
pub open spec fn sp_jr(c: CpuView, cond: Cond) -> CpuView {
    let off = sp_fetch8_val(c);
    let c1 = sp_fetch8_st(c);
    if spec_cond(c.reg, cond) {
        CpuView { reg: Registers { pc: w16(c1.reg.pc + sp_signed(off)), ..c1.reg }, ..c1 }
    } else {
        c1
    }
}

/// `CALL cond, a16`: fetch the target; when taken, push the return
/// address and jump.
pub open spec fn sp_call(c: CpuView, cond: Cond) -> CpuView {
    let target = sp_fetch16_val(c);
    let c1 = sp_fetch16_st(c);
    if spec_cond(c.reg, cond) {
        let c2 = sp_push16(c1, c1.reg.pc);
        CpuView { reg: Registers { pc: target, ..c2.reg }, ..c2 }
    } else {
        c1
    }
}

/// `RET cond`: when taken, pop the return address.
pub open spec fn sp_ret(c: CpuView, cond: Cond) -> CpuView {
    if spec_cond(c.reg, cond) {
        let v = sp_pop16_val(c);
        let c1 = sp_pop16_st(c);
        CpuView { reg: Registers { pc: v, ..c1.reg }, ..c1 }
    } else {
        c
    }
}

/// `RETI`: return and enable interrupts at once.
pub open spec fn sp_reti(c: CpuView) -> CpuView {
    let c1 = sp_ret(c, Cond::Uncond);
    CpuView { ime: true, ..c1 }
}

/// `RST n`: push the program counter and jump to the fixed vector.
pub open spec fn sp_rst(c: CpuView, target: u16) -> CpuView {
    let c1 = sp_push16(c, c.reg.pc);
    CpuView { reg: Registers { pc: target, ..c1.reg }, ..c1 }
}

/// `PUSH rr`.
pub open spec fn sp_push_rr(c: CpuView, rr: Reg16) -> CpuView {
    sp_push16(c, spec_read_u16(c.reg, rr))
}

/// `POP rr`; popping into `AF` keeps only the four flag bits of the
/// low byte.
pub open spec fn sp_pop_rr(c: CpuView, rr: Reg16) -> CpuView {
    let v = sp_pop16_val(c);
    let c1 = sp_pop16_st(c);
    CpuView { reg: spec_write_u16(c1.reg, rr, v), ..c1 }
}

/// `ADD A, src` / `ADC A, src`.
pub open spec fn sp_add(c: CpuView, src: Operand8, with_carry: bool) -> CpuView {
    let v = sp_read8_val(c, src);
    let c1 = sp_read8_st(c, src);
    let cin: int = if with_carry && c.reg.carry {
        1
    } else {
        0
    };
    let al = spec_alu_add(c.reg.a, v, cin);
    CpuView { reg: Registers { a: al.r, ..sp_flags(c1.reg, al.z, al.n, al.h, al.c) }, ..c1 }
}

/// `SUB A, src` / `SBC A, src` / `CP src` (`CP` does not write `A`).
pub open spec fn sp_sub(c: CpuView, src: Operand8, with_carry: bool, write_back: bool) -> CpuView {
    let v = sp_read8_val(c, src);
    let c1 = sp_read8_st(c, src);
    let cin: int = if with_carry && c.reg.carry {
        1
    } else {
        0
    };
    let al = spec_alu_sub(c.reg.a, v, cin);
    let a2 = if write_back {
        al.r
    } else {
        c.reg.a
    };
    CpuView { reg: Registers { a: a2, ..sp_flags(c1.reg, al.z, al.n, al.h, al.c) }, ..c1 }
}

/// `AND src`.
pub open spec fn sp_and(c: CpuView, src: Operand8) -> CpuView {
    let v = sp_read8_val(c, src);
    let c1 = sp_read8_st(c, src);
    let r = c.reg.a & v;
    CpuView { reg: Registers { a: r, ..sp_flags(c1.reg, r == 0, false, true, false) }, ..c1 }
}

/// `XOR src`.
pub open spec fn sp_xor(c: CpuView, src: Operand8) -> CpuView {
    let v = sp_read8_val(c, src);
    let c1 = sp_read8_st(c, src);
    let r = c.reg.a ^ v;
    CpuView { reg: Registers { a: r, ..sp_flags(c1.reg, r == 0, false, false, false) }, ..c1 }
}

/// `OR src`.
pub open spec fn sp_or(c: CpuView, src: Operand8) -> CpuView {
    let v = sp_read8_val(c, src);
    let c1 = sp_read8_st(c, src);
    let r = c.reg.a | v;
    CpuView { reg: Registers { a: r, ..sp_flags(c1.reg, r == 0, false, false, false) }, ..c1 }
}

/// `ADD HL, rr`: half-carry from bit 11, carry from bit 15, zero flag
/// preserved.
pub open spec fn sp_add16(c: CpuView, rr: Reg16) -> CpuView {
    let hl = spec_read_u16(c.reg, Reg16::HL);
    let v = spec_read_u16(c.reg, rr);
    let r = w16(hl + v);
    let reg1 = spec_write_u16(c.reg, Reg16::HL, r);
    CpuView {
        reg: sp_flags(reg1, c.reg.zero, false, (hl & 0xfff) + (v & 0xfff) > 0xfff, hl + v > 0xffff),
        ..c
    }
}

/// The shared core of `ADD SP, r8` and `LD HL, SP + r8`: the adjusted
/// stack pointer and the flags, computed from the unsigned offset byte.
pub open spec fn sp_offset_sp_val(c: CpuView) -> u16 {
    w16(c.reg.sp + sp_signed(sp_fetch8_val(c)))
}

/// The CPU after the offset fetch and flag update of `ADD SP, r8` or
/// `LD HL, SP + r8`.
pub open spec fn sp_offset_sp_st(c: CpuView) -> CpuView {
    let off = sp_fetch8_val(c);
    let c1 = sp_fetch8_st(c);
    CpuView {
        reg: sp_flags(
            c1.reg,
            false,
            false,
            (c.reg.sp & 0xf) + (off & 0xf) > 0xf,
            (c.reg.sp & 0xff) + off > 0xff,
        ),
        ..c1
    }
}

/// `ADD SP, r8`.
pub open spec fn sp_add_sp(c: CpuView) -> CpuView {
    let v = sp_offset_sp_val(c);
    let c1 = sp_offset_sp_st(c);
    CpuView { reg: Registers { sp: v, ..c1.reg }, ..c1 }
}

/// `LD HL, SP + r8`.
pub open spec fn sp_ld_hl_sp(c: CpuView) -> CpuView {
    let v = sp_offset_sp_val(c);
    let c1 = sp_offset_sp_st(c);
    CpuView { reg: spec_write_u16(c1.reg, Reg16::HL, v), ..c1 }
}

/// `INC loc` (8-bit): half-carry from the low nibble, carry preserved.
pub open spec fn sp_inc8(c: CpuView, loc: Operand8) -> CpuView {
    let v = sp_read8_val(c, loc);
    let r = w8(v + 1);
    let c1 = sp_write8_st(c, loc, r);
    CpuView { reg: sp_flags(c1.reg, r == 0, false, (v & 0xf) == 0xf, c.reg.carry), ..c1 }
}

/// `DEC loc` (8-bit): half-borrow from the low nibble, carry preserved.
pub open spec fn sp_dec8(c: CpuView, loc: Operand8) -> CpuView {
    let v = sp_read8_val(c, loc);
    let r = w8(v - 1);
    let c1 = sp_write8_st(c, loc, r);
    CpuView { reg: sp_flags(c1.reg, r == 0, true, (v & 0xf) == 0, c.reg.carry), ..c1 }
}

/// `INC rr` / `DEC rr`: no flag is touched.
pub open spec fn sp_step16(c: CpuView, rr: Reg16, down: bool) -> CpuView {
    let v = spec_read_u16(c.reg, rr);
    let r = if down {
        w16(v - 1)
    } else {
        w16(v + 1)
    };
    CpuView { reg: spec_write_u16(c.reg, rr, r), ..c }
}

/// The rotated or shifted byte and its carry-out, per CB operation
/// kind: rotate left/right (through carry or not), arithmetic and
/// logical shifts, and nibble swap.
pub open spec fn sp_rot_val(v: u8, kind: int, carry: bool) -> (u8, bool) {
    if kind == 0 {
        (w8(v * 2 + v / 128), v >= 128)
    } else if kind == 1 {
        (w8(v / 2 + (v % 2) * 128), v % 2 == 1)
    } else if kind == 2 {
        (
            w8(v * 2 + (if carry {
                1int
            } else {
                0int
            })),
            v >= 128,
        )
    } else if kind == 3 {
        (
            w8(v / 2 + (if carry {
                128int
            } else {
                0int
            })),
            v % 2 == 1,
        )
    } else if kind == 4 {
        (w8(v * 2), v >= 128)
    } else if kind == 5 {
        (w8((v / 128) * 128 + v / 2), v % 2 == 1)
    } else if kind == 6 {
        (w8((v % 16) * 16 + v / 16), false)
    } else {
        (w8((v / 2) as int), v % 2 == 1)
    }
}

/// A CB-page rotate, shift or swap of an operand: the zero flag from
/// the result, carry from the shifted-out bit.
pub open spec fn sp_cb_rot(c: CpuView, kind: int, loc: Operand8) -> CpuView {
    let v = sp_read8_val(c, loc);
    let rr = sp_rot_val(v, kind, c.reg.carry);
    let c1 = sp_write8_st(c, loc, rr.0);
    CpuView { reg: sp_flags(c1.reg, rr.0 == 0, false, false, rr.1), ..c1 }
}

/// A rotate of `A` on the primary page: like the CB form but all of
/// `Z`, `N` and `H` cleared.
pub open spec fn sp_rot_a(c: CpuView, kind: int) -> CpuView {
    let rr = sp_rot_val(c.reg.a, kind, c.reg.carry);
    CpuView { reg: Registers { a: rr.0, ..sp_flags(c.reg, false, false, false, rr.1) }, ..c }
}

/// `BIT b, src`: the zero flag from the complement of the tested bit.
pub open spec fn sp_bit(c: CpuView, b: u8, src: Operand8) -> CpuView {
    let v = sp_read8_val(c, src);
    let c1 = sp_read8_st(c, src);
    let z = (v / (crate::ppu::spec_pow2i(b as int) as u8)) % 2 == 0;
    CpuView { reg: sp_flags(c1.reg, z, false, true, c.reg.carry), ..c1 }
}

/// `RES b, loc` / `SET b, loc`: only the operand changes.
pub open spec fn sp_res_set(c: CpuView, b: u8, loc: Operand8, set: bool) -> CpuView {
    let v = sp_read8_val(c, loc);
    let p = crate::ppu::spec_pow2i(b as int) as u8;
    let r = if set {
        v | p
    } else {
        v & ((255 - p) as u8)
    };
    sp_write8_st(c, loc, r)
}

/// `DAA`.
pub open spec fn sp_daa(c: CpuView) -> CpuView {
    let al = spec_alu_daa(c.reg.a, c.reg.subtract, c.reg.half_carry, c.reg.carry);
    CpuView { reg: Registers { a: al.r, ..sp_flags(c.reg, al.z, al.n, al.h, al.c) }, ..c }
}

/// `CPL`: complement `A`, set `N` and `H`.
pub open spec fn sp_cpl(c: CpuView) -> CpuView {
    CpuView {
        reg: Registers {
            a: (255 - c.reg.a) as u8,
            ..sp_flags(c.reg, c.reg.zero, true, true, c.reg.carry)
        },
        ..c
    }
}

/// `SCF`: set carry, clear `N` and `H`.
pub open spec fn sp_scf(c: CpuView) -> CpuView {
    CpuView { reg: sp_flags(c.reg, c.reg.zero, false, false, true), ..c }
}

/// `CCF`: complement carry, clear `N` and `H`.
pub open spec fn sp_ccf(c: CpuView) -> CpuView {
    CpuView { reg: sp_flags(c.reg, c.reg.zero, false, false, !c.reg.carry), ..c }
}

/// `DI`: interrupts off at once; a pending `EI` is cancelled.
pub open spec fn sp_di(c: CpuView) -> CpuView {
    CpuView { ime: false, ei_delay: 0, ..c }
}

/// `EI`: interrupts on after the next instruction.
pub open spec fn sp_ei(c: CpuView) -> CpuView {
    CpuView { ei_delay: 2, ..c }
}

/// `HALT`: suspend until an interrupt is pending.
pub open spec fn sp_halt(c: CpuView) -> CpuView {
    CpuView { halted: true, ..c }
}


/// Adding a whole modulus does not change a residue.
proof fn lemma_wrap_add_mod(x: int)
    ensures
        (x + 0x10000) % 0x10000 == x % 0x10000,
        (x + 0x100) % 0x100 == x % 0x100,
        (x + 0x200) % 0x100 == x % 0x100,
{
    vstd::arithmetic::div_mod::lemma_mod_add_multiples_vanish(x, 0x10000);
    vstd::arithmetic::div_mod::lemma_mod_add_multiples_vanish(x, 0x100);
    vstd::arithmetic::div_mod::lemma_mod_add_multiples_vanish(x + 0x100, 0x100);
}

/// The wrapped sum of a program-counter-sized value and an offset.
fn wrap_add16(a: u16, b: u16) -> (r: u16)
    ensures
        r == w16(a + b),
{
    (((a as u32) + (b as u32)) % 0x10000) as u16
}

/// The wrapped sum of an address and a sign-extended offset byte.
fn add_signed16(a: u16, off: u8) -> (r: u16)
    ensures
        r == w16(a + sp_signed(off)),
{
    if off < 0x80 {
        wrap_add16(a, off as u16)
    } else {
        let r = (((a as u32) + (off as u32) + 0xff00) % 0x10000) as u16;
        proof {
            lemma_wrap_add_mod(a + off - 256);
        }
        r
    }
}

/// Two to the power `n`, for bit positions within a byte.
fn pw2(n: u8) -> (r: u8)
    requires
        n < 8,
    ensures
        r == crate::ppu::spec_pow2i(n as int),
{
    if n == 0 {
        1
    } else if n == 1 {
        2
    } else if n == 2 {
        4
    } else if n == 3 {
        8
    } else if n == 4 {
        16
    } else if n == 5 {
        32
    } else if n == 6 {
        64
    } else {
        128
    }
}

impl Cpu {
    /// Whether a branch condition holds of the current flags.
    pub fn cond_true(&self, cond: Cond) -> (r: bool)
        ensures
            r == spec_cond(self.reg, cond),
    {
        match cond {
            Cond::Uncond => true,
            Cond::Zero => self.reg.zero,
            Cond::Carry => self.reg.carry,
            Cond::NotZero => !self.reg.zero,
            Cond::NotCarry => !self.reg.carry,
        }
    }

    /// `LD dst, src`.
    pub fn ld(&mut self, dst: Operand8, src: Operand8)
        requires
            spec_cpu_wf(old(self)@),
        ensures
            final(self)@ == sp_ld(old(self)@, dst, src),
            spec_cpu_wf(final(self)@),
    {
        let v = self.read_op8(src);
        self.write_op8(dst, v);
    }

    /// `LD rr, d16`.
    pub fn ld_imm16(&mut self, rr: Reg16)
        requires
            spec_cpu_wf(old(self)@),
        ensures
            final(self)@ == sp_ld16_imm(old(self)@, rr),
            spec_cpu_wf(final(self)@),
    {
        let v = self.fetch_u16();
        self.reg.write_u16(rr, v);
    }

    /// `LD SP, HL`.
    pub fn ld_sp_hl(&mut self)
        requires
            spec_cpu_wf(old(self)@),
        ensures
            final(self)@ == sp_ld_sp_hl(old(self)@),
            spec_cpu_wf(final(self)@),
    {
        self.reg.sp = self.reg.read_u16(Reg16::HL);
    }

    /// `LD (a16), SP`.
    pub fn st_sp(&mut self)
        requires
            spec_cpu_wf(old(self)@),
        ensures
            final(self)@ == sp_st_sp(old(self)@),
            spec_cpu_wf(final(self)@),
    {
        let addr = self.fetch_u16();
        let sp = self.reg.sp;
        self.write(addr, (sp % 256) as u8);
        self.write(wrap_add16(addr, 1), (sp / 256) as u8);
    }

    /// `LDI dst, src`: the load, then `HL` stepped up.
    pub fn ldi(&mut self, dst: Operand8, src: Operand8)
        requires
            spec_cpu_wf(old(self)@),
        ensures
            final(self)@ == sp_ld_step_hl(old(self)@, dst, src, false),
            spec_cpu_wf(final(self)@),
    {
        self.ld(dst, src);
        let hl = self.reg.read_u16(Reg16::HL);
        self.reg.write_u16(Reg16::HL, wrap_add16(hl, 1));
    }

    /// `LDD dst, src`: the load, then `HL` stepped down.
    pub fn ldd(&mut self, dst: Operand8, src: Operand8)
        requires
            spec_cpu_wf(old(self)@),
        ensures
            final(self)@ == sp_ld_step_hl(old(self)@, dst, src, true),
            spec_cpu_wf(final(self)@),
    {
        self.ld(dst, src);
        let hl = self.reg.read_u16(Reg16::HL);
        let hl2 = (((hl as u32) + 0xffff) % 0x10000) as u16;
        proof {
            lemma_wrap_add_mod(hl - 1);
        }
        self.reg.write_u16(Reg16::HL, hl2);
    }

    /// `JP cond, a16`; the result says whether the branch was taken.
    pub fn jp(&mut self, cond: Cond) -> (taken: bool)
        requires
            spec_cpu_wf(old(self)@),
        ensures
            final(self)@ == sp_jp(old(self)@, cond),
            taken == spec_cond(old(self)@.reg, cond),
            spec_cpu_wf(final(self)@),
    {
        let target = self.fetch_u16();
        let t = self.cond_true(cond);
        if t {
            self.reg.pc = target;
        }
        t
    }

    /// `JP (HL)`.
    pub fn jp_hl(&mut self)
        requires
            spec_cpu_wf(old(self)@),
        ensures
            final(self)@ == sp_jp_hl(old(self)@),
            spec_cpu_wf(final(self)@),
    {
        self.reg.pc = self.reg.read_u16(Reg16::HL);
    }

    /// `JR cond, r8`; the result says whether the branch was taken.
    pub fn jr(&mut self, cond: Cond) -> (taken: bool)
        requires
            spec_cpu_wf(old(self)@),
        ensures
            final(self)@ == sp_jr(old(self)@, cond),
            taken == spec_cond(old(self)@.reg, cond),
            spec_cpu_wf(final(self)@),
    {
        let off = self.fetch_u8();
        let t = self.cond_true(cond);
        if t {
            self.reg.pc = add_signed16(self.reg.pc, off);
        }
        t
    }

    /// `CALL cond, a16`; the result says whether the branch was taken.
    pub fn call(&mut self, cond: Cond) -> (taken: bool)
        requires
            spec_cpu_wf(old(self)@),
        ensures
            final(self)@ == sp_call(old(self)@, cond),
            taken == spec_cond(old(self)@.reg, cond),
            spec_cpu_wf(final(self)@),
    {
        let target = self.fetch_u16();
        let t = self.cond_true(cond);
        if t {
            let ret = self.reg.pc;
            self.push_u16(ret);
            self.reg.pc = target;
        }
        t
    }

    /// `RET cond`; the result says whether the return was taken.
    pub fn ret(&mut self, cond: Cond) -> (taken: bool)
        requires
            spec_cpu_wf(old(self)@),
        ensures
            final(self)@ == sp_ret(old(self)@, cond),
            taken == spec_cond(old(self)@.reg, cond),
            spec_cpu_wf(final(self)@),
    {
        let t = self.cond_true(cond);
        if t {
            let v = self.pop_u16();
            self.reg.pc = v;
        }
        t
    }

    /// `RETI`.
    pub fn reti(&mut self)
        requires
            spec_cpu_wf(old(self)@),
        ensures
            final(self)@ == sp_reti(old(self)@),
            spec_cpu_wf(final(self)@),
    {
        self.ret(Cond::Uncond);
        self.ime = true;
    }

    /// `RST n`.
    pub fn rst(&mut self, target: u16)
        requires
            spec_cpu_wf(old(self)@),
        ensures
            final(self)@ == sp_rst(old(self)@, target),
            spec_cpu_wf(final(self)@),
    {
        let ret = self.reg.pc;
        self.push_u16(ret);
        self.reg.pc = target;
    }

    /// `PUSH rr`.
    pub fn push(&mut self, rr: Reg16)
        requires
            spec_cpu_wf(old(self)@),
        ensures
            final(self)@ == sp_push_rr(old(self)@, rr),
            spec_cpu_wf(final(self)@),
    {
        let v = self.reg.read_u16(rr);
        self.push_u16(v);
    }

    /// `POP rr`.
    pub fn pop(&mut self, rr: Reg16)
        requires
            spec_cpu_wf(old(self)@),
        ensures
            final(self)@ == sp_pop_rr(old(self)@, rr),
            spec_cpu_wf(final(self)@),
    {
        let v = self.pop_u16();
        self.reg.write_u16(rr, v);
    }

    /// The shared body of `ADD A` and `ADC A`.
    fn add_core(&mut self, src: Operand8, with_carry: bool)
        requires
            spec_cpu_wf(old(self)@),
        ensures
            final(self)@ == sp_add(old(self)@, src, with_carry),
            spec_cpu_wf(final(self)@),
    {
        let v = self.read_op8(src);
        let a = self.reg.a;
        let cin: u32 = if with_carry && self.reg.carry {
            1
        } else {
            0
        };
        let sum: u32 = (a as u32) + (v as u32) + cin;
        let r = (sum % 256) as u8;
        self.reg.a = r;
        self.reg.zero = r == 0;
        self.reg.subtract = false;
        self.reg.half_carry = ((a & 0xf) as u32) + ((v & 0xf) as u32) + cin > 0xf;
        self.reg.carry = sum > 0xff;
    }

    /// `ADD A, src`.
    pub fn add_8(&mut self, src: Operand8)
        requires
            spec_cpu_wf(old(self)@),
        ensures
            final(self)@ == sp_add(old(self)@, src, false),
            spec_cpu_wf(final(self)@),
    {
        self.add_core(src, false);
    }

    /// `ADC A, src`.
    pub fn adc(&mut self, src: Operand8)
        requires
            spec_cpu_wf(old(self)@),
        ensures
            final(self)@ == sp_add(old(self)@, src, true),
            spec_cpu_wf(final(self)@),
    {
        self.add_core(src, true);
    }

    /// The shared body of `SUB`, `SBC` and `CP`.
    fn sub_core(&mut self, src: Operand8, with_carry: bool, write_back: bool)
        requires
            spec_cpu_wf(old(self)@),
        ensures
            final(self)@ == sp_sub(old(self)@, src, with_carry, write_back),
            spec_cpu_wf(final(self)@),
    {
        let v = self.read_op8(src);
        let a = self.reg.a;
        let cin: u32 = if with_carry && self.reg.carry {
            1
        } else {
            0
        };
        let r = (((a as u32) + 0x200 - (v as u32) - cin) % 256) as u8;
        proof {
            lemma_wrap_add_mod(a - v - cin);
        }
        if write_back {
            self.reg.a = r;
        }
        self.reg.zero = r == 0;
        self.reg.subtract = true;
        self.reg.half_carry = ((a & 0xf) as u32) < ((v & 0xf) as u32) + cin;
        self.reg.carry = (a as u32) < (v as u32) + cin;
    }

    /// `SUB A, src`.
    pub fn sub_8(&mut self, src: Operand8)
        requires
            spec_cpu_wf(old(self)@),
        ensures
            final(self)@ == sp_sub(old(self)@, src, false, true),
            spec_cpu_wf(final(self)@),
    {
        self.sub_core(src, false, true);
    }

    /// `SBC A, src`.
    pub fn sbc(&mut self, src: Operand8)
        requires
            spec_cpu_wf(old(self)@),
        ensures
            final(self)@ == sp_sub(old(self)@, src, true, true),
            spec_cpu_wf(final(self)@),
    {
        self.sub_core(src, true, true);
    }

    /// `CP src`.
    pub fn cp(&mut self, src: Operand8)
        requires
            spec_cpu_wf(old(self)@),
        ensures
            final(self)@ == sp_sub(old(self)@, src, false, false),
            spec_cpu_wf(final(self)@),
    {
        self.sub_core(src, false, false);
    }

    /// `AND src`.
    pub fn and(&mut self, src: Operand8)
        requires
            spec_cpu_wf(old(self)@),
        ensures
            final(self)@ == sp_and(old(self)@, src),
            spec_cpu_wf(final(self)@),
    {
        let v = self.read_op8(src);
        let r = self.reg.a & v;
        self.reg.a = r;
        self.reg.zero = r == 0;
        self.reg.subtract = false;
        self.reg.half_carry = true;
        self.reg.carry = false;
    }

    /// `XOR src`.
    pub fn xor(&mut self, src: Operand8)
        requires
            spec_cpu_wf(old(self)@),
        ensures
            final(self)@ == sp_xor(old(self)@, src),
            spec_cpu_wf(final(self)@),
    {
        let v = self.read_op8(src);
        let r = self.reg.a ^ v;
        self.reg.a = r;
        self.reg.zero = r == 0;
        self.reg.subtract = false;
        self.reg.half_carry = false;
        self.reg.carry = false;
    }

    /// `OR src`.
    pub fn or(&mut self, src: Operand8)
        requires
            spec_cpu_wf(old(self)@),
        ensures
            final(self)@ == sp_or(old(self)@, src),
            spec_cpu_wf(final(self)@),
    {
        let v = self.read_op8(src);
        let r = self.reg.a | v;
        self.reg.a = r;
        self.reg.zero = r == 0;
        self.reg.subtract = false;
        self.reg.half_carry = false;
        self.reg.carry = false;
    }

    /// `ADD HL, rr`.
    pub fn add_16(&mut self, rr: Reg16)
        requires
            spec_cpu_wf(old(self)@),
        ensures
            final(self)@ == sp_add16(old(self)@, rr),
            spec_cpu_wf(final(self)@),
    {
        let hl = self.reg.read_u16(Reg16::HL);
        let v = self.reg.read_u16(rr);
        let sum: u32 = (hl as u32) + (v as u32);
        self.reg.write_u16(Reg16::HL, (sum % 0x10000) as u16);
        self.reg.subtract = false;
        self.reg.half_carry = ((hl & 0xfff) as u32) + ((v & 0xfff) as u32) > 0xfff;
        self.reg.carry = sum > 0xffff;
    }

    /// The shared body of `ADD SP, r8` and `LD HL, SP + r8`: fetch the
    /// offset, set the flags, and hand back the adjusted stack pointer.
    pub fn offset_sp(&mut self) -> (r: u16)
        requires
            spec_cpu_wf(old(self)@),
        ensures
            final(self)@ == sp_offset_sp_st(old(self)@),
            r == sp_offset_sp_val(old(self)@),
            spec_cpu_wf(final(self)@),
    {
        let off = self.fetch_u8();
        let sp = self.reg.sp;
        let r = add_signed16(sp, off);
        self.reg.zero = false;
        self.reg.subtract = false;
        self.reg.half_carry = ((sp & 0xf) as u32) + ((off & 0xf) as u32) > 0xf;
        self.reg.carry = ((sp & 0xff) as u32) + (off as u32) > 0xff;
        r
    }

    /// `ADD SP, r8`.
    pub fn add_sp(&mut self)
        requires
            spec_cpu_wf(old(self)@),
        ensures
            final(self)@ == sp_add_sp(old(self)@),
            spec_cpu_wf(final(self)@),
    {
        let v = self.offset_sp();
        self.reg.sp = v;
    }

    /// `LD HL, SP + r8`.
    pub fn ld_hl_sp(&mut self)
        requires
            spec_cpu_wf(old(self)@),
        ensures
            final(self)@ == sp_ld_hl_sp(old(self)@),
            spec_cpu_wf(final(self)@),
    {
        let v = self.offset_sp();
        self.reg.write_u16(Reg16::HL, v);
    }

    /// `INC loc` (8-bit).
    pub fn inc_8(&mut self, loc: Operand8)
        requires
            spec_cpu_wf(old(self)@),
            loc is Reg || loc is Mem,
        ensures
            final(self)@ == sp_inc8(old(self)@, loc),
            spec_cpu_wf(final(self)@),
    {
        let cy = self.reg.carry;
        let v = self.read_op8(loc);
        let r = (((v as u32) + 1) % 256) as u8;
        self.write_op8(loc, r);
        self.reg.zero = r == 0;
        self.reg.subtract = false;
        self.reg.half_carry = (v & 0xf) == 0xf;
        self.reg.carry = cy;
    }

    /// `DEC loc` (8-bit).
    pub fn dec_8(&mut self, loc: Operand8)
        requires
            spec_cpu_wf(old(self)@),
            loc is Reg || loc is Mem,
        ensures
            final(self)@ == sp_dec8(old(self)@, loc),
            spec_cpu_wf(final(self)@),
    {
        let cy = self.reg.carry;
        let v = self.read_op8(loc);
        let r = (((v as u32) + 0x1ff) % 256) as u8;
        proof {
            lemma_wrap_add_mod(v - 1);
            lemma_wrap_add_mod(v - 1 + 0x100);
        }
        self.write_op8(loc, r);
        self.reg.zero = r == 0;
        self.reg.subtract = true;
        self.reg.half_carry = (v & 0xf) == 0;
        self.reg.carry = cy;
    }

    /// `INC rr` (16-bit, no flags).
    pub fn inc_16(&mut self, rr: Reg16)
        requires
            spec_cpu_wf(old(self)@),
        ensures
            final(self)@ == sp_step16(old(self)@, rr, false),
            spec_cpu_wf(final(self)@),
    {
        let v = self.reg.read_u16(rr);
        self.reg.write_u16(rr, wrap_add16(v, 1));
    }

    /// `DEC rr` (16-bit, no flags).
    pub fn dec_16(&mut self, rr: Reg16)
        requires
            spec_cpu_wf(old(self)@),
        ensures
            final(self)@ == sp_step16(old(self)@, rr, true),
            spec_cpu_wf(final(self)@),
    {
        let v = self.reg.read_u16(rr);
        let r = (((v as u32) + 0xffff) % 0x10000) as u16;
        proof {
            lemma_wrap_add_mod(v - 1);
        }
        self.reg.write_u16(rr, r);
    }

    /// The rotated or shifted byte and its carry-out, per CB kind.
    fn rot_val(&self, v: u8, kind: u8) -> (r: (u8, bool))
        requires
            kind < 8,
        ensures
            r == sp_rot_val(v, kind as int, self.reg.carry),
    {
        if kind == 0 {
            ((((v as u32) * 2 + (v as u32) / 128) % 256) as u8, v >= 128)
        } else if kind == 1 {
            (v / 2 + (v % 2) * 128, v % 2 == 1)
        } else if kind == 2 {
            let cin: u32 = if self.reg.carry {
                1
            } else {
                0
            };
            ((((v as u32) * 2 + cin) % 256) as u8, v >= 128)
        } else if kind == 3 {
            let cin: u8 = if self.reg.carry {
                128
            } else {
                0
            };
            (v / 2 + cin, v % 2 == 1)
        } else if kind == 4 {
            ((((v as u32) * 2) % 256) as u8, v >= 128)
        } else if kind == 5 {
            ((v / 128) * 128 + v / 2, v % 2 == 1)
        } else if kind == 6 {
            ((v % 16) * 16 + v / 16, false)
        } else {
            (v / 2, v % 2 == 1)
        }
    }

    /// A CB-page rotate, shift or swap applied to an operand.
    pub fn cb_rot(&mut self, kind: u8, loc: Operand8)
        requires
            spec_cpu_wf(old(self)@),
            kind < 8,
            loc is Reg || loc is Mem,
        ensures
            final(self)@ == sp_cb_rot(old(self)@, kind as int, loc),
            spec_cpu_wf(final(self)@),
    {
        let v = self.read_op8(loc);
        let (r, cout) = self.rot_val(v, kind);
        self.write_op8(loc, r);
        self.reg.zero = r == 0;
        self.reg.subtract = false;
        self.reg.half_carry = false;
        self.reg.carry = cout;
    }

    /// A rotate of `A` on the primary page: `Z`, `N` and `H` cleared.
    pub fn rot_a(&mut self, kind: u8)
        requires
            spec_cpu_wf(old(self)@),
            kind < 8,
        ensures
            final(self)@ == sp_rot_a(old(self)@, kind as int),
            spec_cpu_wf(final(self)@),
    {
        let v = self.reg.a;
        let (r, cout) = self.rot_val(v, kind);
        self.reg.a = r;
        self.reg.zero = false;
        self.reg.subtract = false;
        self.reg.half_carry = false;
        self.reg.carry = cout;
    }

    /// `BIT b, src`.
    pub fn bit(&mut self, b: u8, src: Operand8)
        requires
            spec_cpu_wf(old(self)@),
            b < 8,
            src is Reg || src is Mem,
        ensures
            final(self)@ == sp_bit(old(self)@, b, src),
            spec_cpu_wf(final(self)@),
    {
        let v = self.read_op8(src);
        let p = pw2(b);
        self.reg.zero = (v / p) % 2 == 0;
        self.reg.subtract = false;
        self.reg.half_carry = true;
    }

    /// `RES b, loc`.
    pub fn res(&mut self, b: u8, loc: Operand8)
        requires
            spec_cpu_wf(old(self)@),
            b < 8,
            loc is Reg || loc is Mem,
        ensures
            final(self)@ == sp_res_set(old(self)@, b, loc, false),
            spec_cpu_wf(final(self)@),
    {
        let v = self.read_op8(loc);
        let p = pw2(b);
        let r = v & (255 - p);
        self.write_op8(loc, r);
    }

    /// `SET b, loc`.
    pub fn set_bit(&mut self, b: u8, loc: Operand8)
        requires
            spec_cpu_wf(old(self)@),
            b < 8,
            loc is Reg || loc is Mem,
        ensures
            final(self)@ == sp_res_set(old(self)@, b, loc, true),
            spec_cpu_wf(final(self)@),
    {
        let v = self.read_op8(loc);
        let p = pw2(b);
        let r = v | p;
        self.write_op8(loc, r);
    }

    /// `DAA`.
    pub fn daa(&mut self)
        requires
            spec_cpu_wf(old(self)@),
        ensures
            final(self)@ == sp_daa(old(self)@),
            spec_cpu_wf(final(self)@),
    {
        let a = self.reg.a;
        if self.reg.subtract {
            let sub: u32 = (if self.reg.carry {
                0x60
            } else {
                0
            }) + (if self.reg.half_carry {
                0x06
            } else {
                0
            });
            let r = (((a as u32) + 0x200 - sub) % 256) as u8;
            proof {
                lemma_wrap_add_mod(a - sub);
            }
            self.reg.a = r;
            self.reg.zero = r == 0;
            self.reg.half_carry = false;
        } else {
            let cy = self.reg.carry || a > 0x99;
            let add: u32 = (if cy {
                0x60
            } else {
                0
            }) + (if self.reg.half_carry || a % 16 > 0x09 {
                0x06
            } else {
                0
            });
            let r = (((a as u32) + add) % 256) as u8;
            self.reg.a = r;
            self.reg.zero = r == 0;
            self.reg.half_carry = false;
            self.reg.carry = cy;
        }
    }

    /// `CPL`.
    pub fn cpl(&mut self)
        requires
            spec_cpu_wf(old(self)@),
        ensures
            final(self)@ == sp_cpl(old(self)@),
            spec_cpu_wf(final(self)@),
    {
        self.reg.a = 255 - self.reg.a;
        self.reg.subtract = true;
        self.reg.half_carry = true;
    }

    /// `SCF`.
    pub fn scf(&mut self)
        requires
            spec_cpu_wf(old(self)@),
        ensures
            final(self)@ == sp_scf(old(self)@),
            spec_cpu_wf(final(self)@),
    {
        self.reg.subtract = false;
        self.reg.half_carry = false;
        self.reg.carry = true;
    }

    /// `CCF`.
    pub fn ccf(&mut self)
        requires
            spec_cpu_wf(old(self)@),
        ensures
            final(self)@ == sp_ccf(old(self)@),
            spec_cpu_wf(final(self)@),
    {
        self.reg.subtract = false;
        self.reg.half_carry = false;
        self.reg.carry = !self.reg.carry;
    }

    /// `DI`.
    pub fn di(&mut self)
        requires
            spec_cpu_wf(old(self)@),
        ensures
            final(self)@ == sp_di(old(self)@),
            spec_cpu_wf(final(self)@),
    {
        self.ime = false;
        self.ei_delay = 0;
    }

    /// `EI`: takes effect after the following instruction.
    pub fn ei(&mut self)
        requires
            spec_cpu_wf(old(self)@),
        ensures
            final(self)@ == sp_ei(old(self)@),
            spec_cpu_wf(final(self)@),
    {
        self.ei_delay = 2;
    }

    /// `HALT`.
    pub fn halt(&mut self)
        requires
            spec_cpu_wf(old(self)@),
        ensures
            final(self)@ == sp_halt(old(self)@),
            spec_cpu_wf(final(self)@),
    {
        self.halted = true;
    }

    /// `STOP`: treated as a no-op pending real speed-switch support.
    pub fn stop(&mut self)
        requires
            spec_cpu_wf(old(self)@),
        ensures
            final(self)@ == old(self)@,
            spec_cpu_wf(final(self)@),
    {
    }
}


/// The operand that the three low bits of an opcode name.
pub open spec fn spec_operand_of(k: int) -> Operand8 {
    if k == 0 {
        Operand8::Reg(Reg8::B)
    } else if k == 1 {
        Operand8::Reg(Reg8::C)
    } else if k == 2 {
        Operand8::Reg(Reg8::D)
    } else if k == 3 {
        Operand8::Reg(Reg8::E)
    } else if k == 4 {
        Operand8::Reg(Reg8::H)
    } else if k == 5 {
        Operand8::Reg(Reg8::L)
    } else if k == 6 {
        Operand8::Mem(Reg16::HL)
    } else {
        Operand8::Reg(Reg8::A)
    }
}

/// Execution of the first quarter of the primary page (`0x00-0x3F`):
/// the state after the instruction and whether a conditional branch was
/// taken.
pub open spec fn sp_exec_lo(c: CpuView, op: u8) -> (CpuView, bool) {
    if op == 0x00 {
        (c, false)
    } else if op == 0x01 {
        (sp_ld16_imm(c, Reg16::BC), false)
    } else if op == 0x02 {
        (sp_ld(c, Operand8::Mem(Reg16::BC), Operand8::Reg(Reg8::A)), false)
    } else if op == 0x03 {
        (sp_step16(c, Reg16::BC, false), false)
    } else if op == 0x04 {
        (sp_inc8(c, Operand8::Reg(Reg8::B)), false)
    } else if op == 0x05 {
        (sp_dec8(c, Operand8::Reg(Reg8::B)), false)
    } else if op == 0x06 {
        (sp_ld(c, Operand8::Reg(Reg8::B), Operand8::Imm), false)
    } else if op == 0x07 {
        (sp_rot_a(c, 0), false)
    } else if op == 0x08 {
        (sp_st_sp(c), false)
    } else if op == 0x09 {
        (sp_add16(c, Reg16::BC), false)
    } else if op == 0x0a {
        (sp_ld(c, Operand8::Reg(Reg8::A), Operand8::Mem(Reg16::BC)), false)
    } else if op == 0x0b {
        (sp_step16(c, Reg16::BC, true), false)
    } else if op == 0x0c {
        (sp_inc8(c, Operand8::Reg(Reg8::C)), false)
    } else if op == 0x0d {
        (sp_dec8(c, Operand8::Reg(Reg8::C)), false)
    } else if op == 0x0e {
        (sp_ld(c, Operand8::Reg(Reg8::C), Operand8::Imm), false)
    } else if op == 0x0f {
        (sp_rot_a(c, 1), false)
    } else if op == 0x10 {
        (c, false)
    } else if op == 0x11 {
        (sp_ld16_imm(c, Reg16::DE), false)
    } else if op == 0x12 {
        (sp_ld(c, Operand8::Mem(Reg16::DE), Operand8::Reg(Reg8::A)), false)
    } else if op == 0x13 {
        (sp_step16(c, Reg16::DE, false), false)
    } else if op == 0x14 {
        (sp_inc8(c, Operand8::Reg(Reg8::D)), false)
    } else if op == 0x15 {
        (sp_dec8(c, Operand8::Reg(Reg8::D)), false)
    } else if op == 0x16 {
        (sp_ld(c, Operand8::Reg(Reg8::D), Operand8::Imm), false)
    } else if op == 0x17 {
        (sp_rot_a(c, 2), false)
    } else if op == 0x18 {
        (sp_jr(c, Cond::Uncond), true)
    } else if op == 0x19 {
        (sp_add16(c, Reg16::DE), false)
    } else if op == 0x1a {
        (sp_ld(c, Operand8::Reg(Reg8::A), Operand8::Mem(Reg16::DE)), false)
    } else if op == 0x1b {
        (sp_step16(c, Reg16::DE, true), false)
    } else if op == 0x1c {
        (sp_inc8(c, Operand8::Reg(Reg8::E)), false)
    } else if op == 0x1d {
        (sp_dec8(c, Operand8::Reg(Reg8::E)), false)
    } else if op == 0x1e {
        (sp_ld(c, Operand8::Reg(Reg8::E), Operand8::Imm), false)
    } else if op == 0x1f {
        (sp_rot_a(c, 3), false)
    } else if op == 0x20 {
        (sp_jr(c, Cond::NotZero), spec_cond(c.reg, Cond::NotZero))
    } else if op == 0x21 {
        (sp_ld16_imm(c, Reg16::HL), false)
    } else if op == 0x22 {
        (sp_ld_step_hl(c, Operand8::Mem(Reg16::HL), Operand8::Reg(Reg8::A), false), false)
    } else if op == 0x23 {
        (sp_step16(c, Reg16::HL, false), false)
    } else if op == 0x24 {
        (sp_inc8(c, Operand8::Reg(Reg8::H)), false)
    } else if op == 0x25 {
        (sp_dec8(c, Operand8::Reg(Reg8::H)), false)
    } else if op == 0x26 {
        (sp_ld(c, Operand8::Reg(Reg8::H), Operand8::Imm), false)
    } else if op == 0x27 {
        (sp_daa(c), false)
    } else if op == 0x28 {
        (sp_jr(c, Cond::Zero), spec_cond(c.reg, Cond::Zero))
    } else if op == 0x29 {
        (sp_add16(c, Reg16::HL), false)
    } else if op == 0x2a {
        (sp_ld_step_hl(c, Operand8::Reg(Reg8::A), Operand8::Mem(Reg16::HL), false), false)
    } else if op == 0x2b {
        (sp_step16(c, Reg16::HL, true), false)
    } else if op == 0x2c {
        (sp_inc8(c, Operand8::Reg(Reg8::L)), false)
    } else if op == 0x2d {
        (sp_dec8(c, Operand8::Reg(Reg8::L)), false)
    } else if op == 0x2e {
        (sp_ld(c, Operand8::Reg(Reg8::L), Operand8::Imm), false)
    } else if op == 0x2f {
        (sp_cpl(c), false)
    } else if op == 0x30 {
        (sp_jr(c, Cond::NotCarry), spec_cond(c.reg, Cond::NotCarry))
    } else if op == 0x31 {
        (sp_ld16_imm(c, Reg16::SP), false)
    } else if op == 0x32 {
        (sp_ld_step_hl(c, Operand8::Mem(Reg16::HL), Operand8::Reg(Reg8::A), true), false)
    } else if op == 0x33 {
        (sp_step16(c, Reg16::SP, false), false)
    } else if op == 0x34 {
        (sp_inc8(c, Operand8::Mem(Reg16::HL)), false)
    } else if op == 0x35 {
        (sp_dec8(c, Operand8::Mem(Reg16::HL)), false)
    } else if op == 0x36 {
        (sp_ld(c, Operand8::Mem(Reg16::HL), Operand8::Imm), false)
    } else if op == 0x37 {
        (sp_scf(c), false)
    } else if op == 0x38 {
        (sp_jr(c, Cond::Carry), spec_cond(c.reg, Cond::Carry))
    } else if op == 0x39 {
        (sp_add16(c, Reg16::SP), false)
    } else if op == 0x3a {
        (sp_ld_step_hl(c, Operand8::Reg(Reg8::A), Operand8::Mem(Reg16::HL), true), false)
    } else if op == 0x3b {
        (sp_step16(c, Reg16::SP, true), false)
    } else if op == 0x3c {
        (sp_inc8(c, Operand8::Reg(Reg8::A)), false)
    } else if op == 0x3d {
        (sp_dec8(c, Operand8::Reg(Reg8::A)), false)
    } else if op == 0x3e {
        (sp_ld(c, Operand8::Reg(Reg8::A), Operand8::Imm), false)
    } else {
        (sp_ccf(c), false)
    }
}

/// Execution of the load quarter (`0x40-0x7F`): register-to-register
/// moves, with `HALT` in the hole of the matrix.
pub open spec fn sp_exec_ld_block(c: CpuView, op: u8) -> CpuView {
    if op == 0x76 {
        sp_halt(c)
    } else {
        sp_ld(c, spec_operand_of(((op / 8) % 8) as int), spec_operand_of(op as int % 8))
    }
}

/// Execution of the arithmetic quarter (`0x80-0xBF`): the eight ALU
/// families over the eight operand columns.
pub open spec fn sp_exec_alu_block(c: CpuView, op: u8) -> CpuView {
    let src = spec_operand_of(op as int % 8);
    let fam = (op / 8) % 8;
    if fam == 0 {
        sp_add(c, src, false)
    } else if fam == 1 {
        sp_add(c, src, true)
    } else if fam == 2 {
        sp_sub(c, src, false, true)
    } else if fam == 3 {
        sp_sub(c, src, true, true)
    } else if fam == 4 {
        sp_and(c, src)
    } else if fam == 5 {
        sp_xor(c, src)
    } else if fam == 6 {
        sp_or(c, src)
    } else {
        sp_sub(c, src, false, false)
    }
}

/// Execution of the last quarter of the primary page (`0xC0-0xFF`):
/// the state after the instruction and whether a conditional branch was
/// taken. The unassigned opcodes of this quarter leave the state as it
/// is; they are rejected before execution.
pub open spec fn sp_exec_hi(c: CpuView, op: u8) -> (CpuView, bool) {
    if op == 0xc0 {
        (sp_ret(c, Cond::NotZero), spec_cond(c.reg, Cond::NotZero))
    } else if op == 0xc1 {
        (sp_pop_rr(c, Reg16::BC), false)
    } else if op == 0xc2 {
        (sp_jp(c, Cond::NotZero), spec_cond(c.reg, Cond::NotZero))
    } else if op == 0xc3 {
        (sp_jp(c, Cond::Uncond), true)
    } else if op == 0xc4 {
        (sp_call(c, Cond::NotZero), spec_cond(c.reg, Cond::NotZero))
    } else if op == 0xc5 {
        (sp_push_rr(c, Reg16::BC), false)
    } else if op == 0xc6 {
        (sp_add(c, Operand8::Imm, false), false)
    } else if op == 0xc7 {
        (sp_rst(c, 0x00), false)
    } else if op == 0xc8 {
        (sp_ret(c, Cond::Zero), spec_cond(c.reg, Cond::Zero))
    } else if op == 0xc9 {
        (sp_ret(c, Cond::Uncond), true)
    } else if op == 0xca {
        (sp_jp(c, Cond::Zero), spec_cond(c.reg, Cond::Zero))
    } else if op == 0xcc {
        (sp_call(c, Cond::Zero), spec_cond(c.reg, Cond::Zero))
    } else if op == 0xcd {
        (sp_call(c, Cond::Uncond), true)
    } else if op == 0xce {
        (sp_add(c, Operand8::Imm, true), false)
    } else if op == 0xcf {
        (sp_rst(c, 0x08), false)
    } else if op == 0xd0 {
        (sp_ret(c, Cond::NotCarry), spec_cond(c.reg, Cond::NotCarry))
    } else if op == 0xd1 {
        (sp_pop_rr(c, Reg16::DE), false)
    } else if op == 0xd2 {
        (sp_jp(c, Cond::NotCarry), spec_cond(c.reg, Cond::NotCarry))
    } else if op == 0xd4 {
        (sp_call(c, Cond::NotCarry), spec_cond(c.reg, Cond::NotCarry))
    } else if op == 0xd5 {
        (sp_push_rr(c, Reg16::DE), false)
    } else if op == 0xd6 {
        (sp_sub(c, Operand8::Imm, false, true), false)
    } else if op == 0xd7 {
        (sp_rst(c, 0x10), false)
    } else if op == 0xd8 {
        (sp_ret(c, Cond::Carry), spec_cond(c.reg, Cond::Carry))
    } else if op == 0xd9 {
        (sp_reti(c), false)
    } else if op == 0xda {
        (sp_jp(c, Cond::Carry), spec_cond(c.reg, Cond::Carry))
    } else if op == 0xdc {
        (sp_call(c, Cond::Carry), spec_cond(c.reg, Cond::Carry))
    } else if op == 0xde {
        (sp_sub(c, Operand8::Imm, true, true), false)
    } else if op == 0xdf {
        (sp_rst(c, 0x18), false)
    } else if op == 0xe0 {
        (sp_ld(c, Operand8::HiImm, Operand8::Reg(Reg8::A)), false)
    } else if op == 0xe1 {
        (sp_pop_rr(c, Reg16::HL), false)
    } else if op == 0xe2 {
        (sp_ld(c, Operand8::HiC, Operand8::Reg(Reg8::A)), false)
    } else if op == 0xe5 {
        (sp_push_rr(c, Reg16::HL), false)
    } else if op == 0xe6 {
        (sp_and(c, Operand8::Imm), false)
    } else if op == 0xe7 {
        (sp_rst(c, 0x20), false)
    } else if op == 0xe8 {
        (sp_add_sp(c), false)
    } else if op == 0xe9 {
        (sp_jp_hl(c), false)
    } else if op == 0xea {
        (sp_ld(c, Operand8::MemImm, Operand8::Reg(Reg8::A)), false)
    } else if op == 0xee {
        (sp_xor(c, Operand8::Imm), false)
    } else if op == 0xef {
        (sp_rst(c, 0x28), false)
    } else if op == 0xf0 {
        (sp_ld(c, Operand8::Reg(Reg8::A), Operand8::HiImm), false)
    } else if op == 0xf1 {
        (sp_pop_rr(c, Reg16::AF), false)
    } else if op == 0xf2 {
        (sp_ld(c, Operand8::Reg(Reg8::A), Operand8::HiC), false)
    } else if op == 0xf3 {
        (sp_di(c), false)
    } else if op == 0xf5 {
        (sp_push_rr(c, Reg16::AF), false)
    } else if op == 0xf6 {
        (sp_or(c, Operand8::Imm), false)
    } else if op == 0xf7 {
        (sp_rst(c, 0x30), false)
    } else if op == 0xf8 {
        (sp_ld_hl_sp(c), false)
    } else if op == 0xf9 {
        (sp_ld_sp_hl(c), false)
    } else if op == 0xfa {
        (sp_ld(c, Operand8::Reg(Reg8::A), Operand8::MemImm), false)
    } else if op == 0xfb {
        (sp_ei(c), false)
    } else if op == 0xfe {
        (sp_sub(c, Operand8::Imm, false, false), false)
    } else if op == 0xff {
        (sp_rst(c, 0x38), false)
    } else {
        (c, false)
    }
}

/// Execution of a CB-page opcode, decoded by its bit fields: the top
/// two bits pick rotate/shift, bit test, bit reset or bit set; the
/// middle three bits the kind or bit number; the low three bits the
/// operand.
pub open spec fn sp_exec_cb(c: CpuView, op: u8) -> CpuView {
    let loc = spec_operand_of(op as int % 8);
    let sel = (op / 8) % 8;
    if op < 0x40 {
        sp_cb_rot(c, sel as int, loc)
    } else if op < 0x80 {
        sp_bit(c, sel, loc)
    } else if op < 0xc0 {
        sp_res_set(c, sel, loc, false)
    } else {
        sp_res_set(c, sel, loc, true)
    }
}

/// Execution of a fetched opcode: the state after the instruction and
/// its cycle count from the published tables, the taken count for a
/// branch that was followed.
pub open spec fn sp_exec(c: CpuView, op: u8) -> (CpuView, u32) {
    if op == 0xcb {
        let cb = sp_fetch8_val(c);
        let c1 = sp_fetch8_st(c);
        (sp_exec_cb(c1, cb), crate::opcode::spec_cb_cycles(cb))
    } else {
        let e: (CpuView, bool) = if op < 0x40 {
            sp_exec_lo(c, op)
        } else if op < 0x80 {
            (sp_exec_ld_block(c, op), false)
        } else if op < 0xc0 {
            (sp_exec_alu_block(c, op), false)
        } else {
            sp_exec_hi(c, op)
        };
        (
            e.0,
            if e.1 {
                crate::opcode::spec_cond_cycles(op)
            } else {
                crate::opcode::spec_base_cycles(op)
            },
        )
    }
}


/// The diagnostic surfaced when an unassigned opcode is decoded: the
/// program counter, the opcode byte and a register dump.
#[derive(Debug, Copy, Clone, PartialEq, Eq, Structural)]
pub struct CpuFault {
    pub pc: u16,
    pub opcode: u8,
    pub regs: Registers,
}

/// The five maskable interrupt bits that are both enabled and raised.
pub open spec fn sp_pending(c: CpuView) -> u8 {
    (c.ic.int_enable & c.ic.int_flags) & 0x1f
}

/// The lowest set bit of a five-bit interrupt mask: the interrupt that
/// wins arbitration.
pub open spec fn spec_lowest_bit(v: u8) -> int {
    if v % 2 == 1 {
        0
    } else if (v / 2) % 2 == 1 {
        1
    } else if (v / 4) % 2 == 1 {
        2
    } else if (v / 8) % 2 == 1 {
        3
    } else {
        4
    }
}

/// Interrupt service: clear the winning bit of `IF`, clear the master
/// enable, push the program counter and jump to the handler vector.
pub open spec fn sp_service(c: CpuView) -> CpuView {
    let i = spec_lowest_bit(sp_pending(c));
    let pw = crate::ppu::spec_pow2i(i) as u8;
    let c1 = CpuView {
        ic: IcView { int_flags: c.ic.int_flags & ((0xff - pw) as u8), ..c.ic },
        ime: false,
        ..c
    };
    let c2 = sp_push16(c1, c1.reg.pc);
    CpuView { reg: Registers { pc: (0x40 + 8 * i) as u16, ..c2.reg }, ..c2 }
}

/// The deferred effect of `EI`: the countdown started by `EI` steps
/// once per instruction and sets the master enable when it runs out.
pub open spec fn sp_ei_commit(c: CpuView) -> CpuView {
    if c.ei_delay > 0 {
        let d = (c.ei_delay - 1) as u8;
        CpuView {
            ei_delay: d,
            ime: if d == 0 {
                true
            } else {
                c.ime
            },
            ..c
        }
    } else {
        c
    }
}

/// The CPU after its bus is advanced by `n` cycles.
pub open spec fn sp_flush(c: CpuView, n: u32) -> CpuView {
    CpuView { ic: spec_ic_flush(c.ic, n), ..c }
}

/// Whether a step succeeds: a halted CPU with nothing pending idles, a
/// serviced interrupt always succeeds, and otherwise the next opcode
/// must be assigned.
#[verifier::opaque]
pub open spec fn sp_step_ok(c: CpuView) -> bool {
    if c.halted && sp_pending(c) == 0 {
        true
    } else if c.ime && sp_pending(c) != 0 {
        true
    } else {
        crate::opcode::spec_op_assigned(spec_ic_read(c.ic, c.reg.pc))
    }
}

/// The CPU after one step: interrupt service or one instruction,
/// followed by the deferred `EI` commitment and the peripheral
/// catch-up for the cycles consumed.
#[verifier::opaque]
pub open spec fn sp_step_st(c: CpuView) -> CpuView {
    if c.halted && sp_pending(c) == 0 {
        sp_flush(c, 4)
    } else {
        let c0 = CpuView { halted: false, ..c };
        if c0.ime && sp_pending(c0) != 0 {
            sp_flush(sp_service(c0), 20)
        } else {
            let op = sp_fetch8_val(c0);
            let c1 = sp_fetch8_st(c0);
            let e = sp_exec(c1, op);
            sp_flush(sp_ei_commit(e.0), e.1)
        }
    }
}

/// The cycles one step consumes: four while halted, twenty for an
/// interrupt service, otherwise the executed instruction's count from
/// the published tables.
#[verifier::opaque]
pub open spec fn sp_step_cycles(c: CpuView) -> u32 {
    if c.halted && sp_pending(c) == 0 {
        4
    } else if c.ime && sp_pending(c) != 0 {
        20
    } else {
        let c0 = CpuView { halted: false, ..c };
        sp_exec(sp_fetch8_st(c0), sp_fetch8_val(c0)).1
    }
}

impl Cpu {
    /// The operand that the three low bits of an opcode name.
    fn operand_of(&self, k: u8) -> (r: Operand8)
        requires
            k < 8,
        ensures
            r == spec_operand_of(k as int),
    {
        if k == 0 {
            Operand8::Reg(Reg8::B)
        } else if k == 1 {
            Operand8::Reg(Reg8::C)
        } else if k == 2 {
            Operand8::Reg(Reg8::D)
        } else if k == 3 {
            Operand8::Reg(Reg8::E)
        } else if k == 4 {
            Operand8::Reg(Reg8::H)
        } else if k == 5 {
            Operand8::Reg(Reg8::L)
        } else if k == 6 {
            Operand8::Mem(Reg16::HL)
        } else {
            Operand8::Reg(Reg8::A)
        }
    }

    /// Execute an opcode of the first quarter of the primary page.
    fn exec_lo(&mut self, op: u8) -> (taken: bool)
        requires
            spec_cpu_wf(old(self)@),
            op < 0x40,
        ensures
            final(self)@ == sp_exec_lo(old(self)@, op).0,
            taken == sp_exec_lo(old(self)@, op).1,
            spec_cpu_wf(final(self)@),
    {
        match op {
            0x00 => false,
            0x01 => {
                self.ld_imm16(Reg16::BC);
                false
            },
            0x02 => {
                self.ld(Operand8::Mem(Reg16::BC), Operand8::Reg(Reg8::A));
                false
            },
            0x03 => {
                self.inc_16(Reg16::BC);
                false
            },
            0x04 => {
                self.inc_8(Operand8::Reg(Reg8::B));
                false
            },
            0x05 => {
                self.dec_8(Operand8::Reg(Reg8::B));
                false
            },
            0x06 => {
                self.ld(Operand8::Reg(Reg8::B), Operand8::Imm);
                false
            },
            0x07 => {
                self.rot_a(0);
                false
            },
            0x08 => {
                self.st_sp();
                false
            },
            0x09 => {
                self.add_16(Reg16::BC);
                false
            },
            0x0a => {
                self.ld(Operand8::Reg(Reg8::A), Operand8::Mem(Reg16::BC));
                false
            },
            0x0b => {
                self.dec_16(Reg16::BC);
                false
            },
            0x0c => {
                self.inc_8(Operand8::Reg(Reg8::C));
                false
            },
            0x0d => {
                self.dec_8(Operand8::Reg(Reg8::C));
                false
            },
            0x0e => {
                self.ld(Operand8::Reg(Reg8::C), Operand8::Imm);
                false
            },
            0x0f => {
                self.rot_a(1);
                false
            },
            0x10 => {
                self.stop();
                false
            },
            0x11 => {
                self.ld_imm16(Reg16::DE);
                false
            },
            0x12 => {
                self.ld(Operand8::Mem(Reg16::DE), Operand8::Reg(Reg8::A));
                false
            },
            0x13 => {
                self.inc_16(Reg16::DE);
                false
            },
            0x14 => {
                self.inc_8(Operand8::Reg(Reg8::D));
                false
            },
            0x15 => {
                self.dec_8(Operand8::Reg(Reg8::D));
                false
            },
            0x16 => {
                self.ld(Operand8::Reg(Reg8::D), Operand8::Imm);
                false
            },
            0x17 => {
                self.rot_a(2);
                false
            },
            0x18 => {
                self.jr(Cond::Uncond);
                true
            },
            0x19 => {
                self.add_16(Reg16::DE);
                false
            },
            0x1a => {
                self.ld(Operand8::Reg(Reg8::A), Operand8::Mem(Reg16::DE));
                false
            },
            0x1b => {
                self.dec_16(Reg16::DE);
                false
            },
            0x1c => {
                self.inc_8(Operand8::Reg(Reg8::E));
                false
            },
            0x1d => {
                self.dec_8(Operand8::Reg(Reg8::E));
                false
            },
            0x1e => {
                self.ld(Operand8::Reg(Reg8::E), Operand8::Imm);
                false
            },
            0x1f => {
                self.rot_a(3);
                false
            },
            0x20 => self.jr(Cond::NotZero),
            0x21 => {
                self.ld_imm16(Reg16::HL);
                false
            },
            0x22 => {
                self.ldi(Operand8::Mem(Reg16::HL), Operand8::Reg(Reg8::A));
                false
            },
            0x23 => {
                self.inc_16(Reg16::HL);
                false
            },
            0x24 => {
                self.inc_8(Operand8::Reg(Reg8::H));
                false
            },
            0x25 => {
                self.dec_8(Operand8::Reg(Reg8::H));
                false
            },
            0x26 => {
                self.ld(Operand8::Reg(Reg8::H), Operand8::Imm);
                false
            },
            0x27 => {
                self.daa();
                false
            },
            0x28 => self.jr(Cond::Zero),
            0x29 => {
                self.add_16(Reg16::HL);
                false
            },
            0x2a => {
                self.ldi(Operand8::Reg(Reg8::A), Operand8::Mem(Reg16::HL));
                false
            },
            0x2b => {
                self.dec_16(Reg16::HL);
                false
            },
            0x2c => {
                self.inc_8(Operand8::Reg(Reg8::L));
                false
            },
            0x2d => {
                self.dec_8(Operand8::Reg(Reg8::L));
                false
            },
            0x2e => {
                self.ld(Operand8::Reg(Reg8::L), Operand8::Imm);
                false
            },
            0x2f => {
                self.cpl();
                false
            },
            0x30 => self.jr(Cond::NotCarry),
            0x31 => {
                self.ld_imm16(Reg16::SP);
                false
            },
            0x32 => {
                self.ldd(Operand8::Mem(Reg16::HL), Operand8::Reg(Reg8::A));
                false
            },
            0x33 => {
                self.inc_16(Reg16::SP);
                false
            },
            0x34 => {
                self.inc_8(Operand8::Mem(Reg16::HL));
                false
            },
            0x35 => {
                self.dec_8(Operand8::Mem(Reg16::HL));
                false
            },
            0x36 => {
                self.ld(Operand8::Mem(Reg16::HL), Operand8::Imm);
                false
            },
            0x37 => {
                self.scf();
                false
            },
            0x38 => self.jr(Cond::Carry),
            0x39 => {
                self.add_16(Reg16::SP);
                false
            },
            0x3a => {
                self.ldd(Operand8::Reg(Reg8::A), Operand8::Mem(Reg16::HL));
                false
            },
            0x3b => {
                self.dec_16(Reg16::SP);
                false
            },
            0x3c => {
                self.inc_8(Operand8::Reg(Reg8::A));
                false
            },
            0x3d => {
                self.dec_8(Operand8::Reg(Reg8::A));
                false
            },
            0x3e => {
                self.ld(Operand8::Reg(Reg8::A), Operand8::Imm);
                false
            },
            _ => {
                self.ccf();
                false
            },
        }
    }

    /// Execute an opcode of the load quarter of the primary page.
    fn exec_ld_block(&mut self, op: u8)
        requires
            spec_cpu_wf(old(self)@),
            0x40 <= op < 0x80,
        ensures
            final(self)@ == sp_exec_ld_block(old(self)@, op),
            spec_cpu_wf(final(self)@),
    {
        if op == 0x76 {
            self.halt();
        } else {
            let dst = self.operand_of((op / 8) % 8);
            let src = self.operand_of(op % 8);
            self.ld(dst, src);
        }
    }

    /// Execute an opcode of the arithmetic quarter of the primary page.
    fn exec_alu_block(&mut self, op: u8)
        requires
            spec_cpu_wf(old(self)@),
            0x80 <= op < 0xc0,
        ensures
            final(self)@ == sp_exec_alu_block(old(self)@, op),
            spec_cpu_wf(final(self)@),
    {
        let src = self.operand_of(op % 8);
        let fam = (op / 8) % 8;
        if fam == 0 {
            self.add_8(src);
        } else if fam == 1 {
            self.adc(src);
        } else if fam == 2 {
            self.sub_8(src);
        } else if fam == 3 {
            self.sbc(src);
        } else if fam == 4 {
            self.and(src);
        } else if fam == 5 {
            self.xor(src);
        } else if fam == 6 {
            self.or(src);
        } else {
            self.cp(src);
        }
    }

    /// Execute an opcode of the last quarter of the primary page.
    fn exec_hi(&mut self, op: u8) -> (taken: bool)
        requires
            spec_cpu_wf(old(self)@),
            0xc0 <= op,
            op != 0xcb,
            crate::opcode::spec_op_assigned(op),
        ensures
            final(self)@ == sp_exec_hi(old(self)@, op).0,
            taken == sp_exec_hi(old(self)@, op).1,
            spec_cpu_wf(final(self)@),
    {
        match op {
            0xc0 => self.ret(Cond::NotZero),
            0xc1 => {
                self.pop(Reg16::BC);
                false
            },
            0xc2 => self.jp(Cond::NotZero),
            0xc3 => {
                self.jp(Cond::Uncond);
                true
            },
            0xc4 => self.call(Cond::NotZero),
            0xc5 => {
                self.push(Reg16::BC);
                false
            },
            0xc6 => {
                self.add_8(Operand8::Imm);
                false
            },
            0xc7 => {
                self.rst(0x00);
                false
            },
            0xc8 => self.ret(Cond::Zero),
            0xc9 => {
                self.ret(Cond::Uncond);
                true
            },
            0xca => self.jp(Cond::Zero),
            0xcc => self.call(Cond::Zero),
            0xcd => {
                self.call(Cond::Uncond);
                true
            },
            0xce => {
                self.adc(Operand8::Imm);
                false
            },
            0xcf => {
                self.rst(0x08);
                false
            },
            0xd0 => self.ret(Cond::NotCarry),
            0xd1 => {
                self.pop(Reg16::DE);
                false
            },
            0xd2 => self.jp(Cond::NotCarry),
            0xd4 => self.call(Cond::NotCarry),
            0xd5 => {
                self.push(Reg16::DE);
                false
            },
            0xd6 => {
                self.sub_8(Operand8::Imm);
                false
            },
            0xd7 => {
                self.rst(0x10);
                false
            },
            0xd8 => self.ret(Cond::Carry),
            0xd9 => {
                self.reti();
                false
            },
            0xda => self.jp(Cond::Carry),
            0xdc => self.call(Cond::Carry),
            0xde => {
                self.sbc(Operand8::Imm);
                false
            },
            0xdf => {
                self.rst(0x18);
                false
            },
            0xe0 => {
                self.ld(Operand8::HiImm, Operand8::Reg(Reg8::A));
                false
            },
            0xe1 => {
                self.pop(Reg16::HL);
                false
            },
            0xe2 => {
                self.ld(Operand8::HiC, Operand8::Reg(Reg8::A));
                false
            },
            0xe5 => {
                self.push(Reg16::HL);
                false
            },
            0xe6 => {
                self.and(Operand8::Imm);
                false
            },
            0xe7 => {
                self.rst(0x20);
                false
            },
            0xe8 => {
                self.add_sp();
                false
            },
            0xe9 => {
                self.jp_hl();
                false
            },
            0xea => {
                self.ld(Operand8::MemImm, Operand8::Reg(Reg8::A));
                false
            },
            0xee => {
                self.xor(Operand8::Imm);
                false
            },
            0xef => {
                self.rst(0x28);
                false
            },
            0xf0 => {
                self.ld(Operand8::Reg(Reg8::A), Operand8::HiImm);
                false
            },
            0xf1 => {
                self.pop(Reg16::AF);
                false
            },
            0xf2 => {
                self.ld(Operand8::Reg(Reg8::A), Operand8::HiC);
                false
            },
            0xf3 => {
                self.di();
                false
            },
            0xf5 => {
                self.push(Reg16::AF);
                false
            },
            0xf6 => {
                self.or(Operand8::Imm);
                false
            },
            0xf7 => {
                self.rst(0x30);
                false
            },
            0xf8 => {
                self.ld_hl_sp();
                false
            },
            0xf9 => {
                self.ld_sp_hl();
                false
            },
            0xfa => {
                self.ld(Operand8::Reg(Reg8::A), Operand8::MemImm);
                false
            },
            0xfb => {
                self.ei();
                false
            },
            0xfe => {
                self.cp(Operand8::Imm);
                false
            },
            0xff => {
                self.rst(0x38);
                false
            },
            _ => false,
        }
    }

    /// Fetch and execute a CB-page opcode; the result is its cycle
    /// count.
    fn exec_cb(&mut self) -> (r: u32)
        requires
            spec_cpu_wf(old(self)@),
        ensures
            final(self)@ == sp_exec(old(self)@, 0xcb).0,
            r == sp_exec(old(self)@, 0xcb).1,
            r <= 24,
            spec_cpu_wf(final(self)@),
    {
        let cbop = self.fetch_u8();
        let loc = self.operand_of(cbop % 8);
        let sel = (cbop / 8) % 8;
        if cbop < 0x40 {
            self.cb_rot(sel, loc);
        } else if cbop < 0x80 {
            self.bit(sel, loc);
        } else if cbop < 0xc0 {
            self.res(sel, loc);
        } else {
            self.set_bit(sel, loc);
        }
        crate::opcode::cb_cycles(cbop)
    }

    /// Execute a fetched, assigned opcode; the result is its cycle
    /// count from the published tables.
    fn execute(&mut self, op: u8) -> (r: u32)
        requires
            spec_cpu_wf(old(self)@),
            crate::opcode::spec_op_assigned(op),
        ensures
            final(self)@ == sp_exec(old(self)@, op).0,
            r == sp_exec(old(self)@, op).1,
            r <= 24,
            spec_cpu_wf(final(self)@),
    {
        if op == 0xcb {
            self.exec_cb()
        } else {
            let taken = if op < 0x40 {
                self.exec_lo(op)
            } else if op < 0x80 {
                self.exec_ld_block(op);
                false
            } else if op < 0xc0 {
                self.exec_alu_block(op);
                false
            } else {
                self.exec_hi(op)
            };
            if taken {
                crate::opcode::cond_cycles(op)
            } else {
                crate::opcode::base_cycles(op)
            }
        }
    }

    /// Service the winning pending interrupt.
    fn service_interrupt(&mut self)
        requires
            spec_cpu_wf(old(self)@),
            sp_pending(old(self)@) != 0,
        ensures
            final(self)@ == sp_service(old(self)@),
            spec_cpu_wf(final(self)@),
    {
        let p = (self.interconnect.int_enable & self.interconnect.int_flags) & 0x1f;
        let i: u8 = if p % 2 == 1 {
            0
        } else if (p / 2) % 2 == 1 {
            1
        } else if (p / 4) % 2 == 1 {
            2
        } else if (p / 8) % 2 == 1 {
            3
        } else {
            4
        };
        let pw = pw2(i);
        self.interconnect.int_flags = self.interconnect.int_flags & (0xff - pw);
        self.ime = false;
        let pc = self.reg.pc;
        self.push_u16(pc);
        self.reg.pc = 0x40 + 8 * (i as u16);
    }

    /// One CPU step: interrupt service, halt idling, or one fetched and
    /// executed instruction, with the elapsed cycles forwarded to the
    /// peripherals. Decoding an unassigned opcode is refused with a
    /// diagnostic and leaves the machine where it was.
    pub fn step(&mut self) -> (r: Result<u32, CpuFault>)
        requires
            spec_cpu_wf(old(self)@),
        ensures
            r is Ok <==> sp_step_ok(old(self)@),
            r is Ok ==> final(self)@ == sp_step_st(old(self)@) && r.unwrap() == sp_step_cycles(
                old(self)@,
            ),
            r is Err ==> final(self)@ == (CpuView { halted: false, ..old(self)@ })
                && r.unwrap_err() == (CpuFault {
                pc: old(self)@.reg.pc,
                opcode: spec_ic_read(old(self)@.ic, old(self)@.reg.pc),
                regs: old(self)@.reg,
            }),
            spec_cpu_wf(final(self)@),
    {
        proof {
            reveal(sp_step_ok);
            reveal(sp_step_st);
            reveal(sp_step_cycles);
        }
        let pending = (self.interconnect.int_enable & self.interconnect.int_flags) & 0x1f;
        if self.halted {
            if pending == 0 {
                self.interconnect.cycle_flush(4);
                return Ok(4);
            }
            self.halted = false;
        }
        if self.ime && pending != 0 {
            self.service_interrupt();
            self.interconnect.cycle_flush(20);
            return Ok(20);
        }
        let pc = self.reg.pc;
        let op = self.interconnect.read(pc);
        if !crate::opcode::op_assigned(op) {
            return Err(CpuFault { pc, opcode: op, regs: self.reg });
        }
        let op2 = self.fetch_u8();
        let cycles = self.execute(op2);
        if self.ei_delay > 0 {
            self.ei_delay = self.ei_delay - 1;
            if self.ei_delay == 0 {
                self.ime = true;
            }
        }
        self.interconnect.cycle_flush(cycles);
        Ok(cycles)
    }
}

/// Whether a fetched primary-page opcode takes its conditional branch.
pub open spec fn sp_taken(c: CpuView, op: u8) -> bool {
    if op < 0x40 {
        sp_exec_lo(c, op).1
    } else if op < 0xc0 {
        false
    } else {
        sp_exec_hi(c, op).1
    }
}

/// Every CPU step consumes exactly the published cycle count: four
/// while halted, twenty for an interrupt service, and otherwise the
/// table entry of the fetched opcode, the taken count when a
/// conditional branch is followed and the CB table for the CB page.
pub proof fn lemma_step_cycle_table(c: CpuView)
    ensures
        c.halted && sp_pending(c) == 0 ==> sp_step_cycles(c) == 4,
        !(c.halted && sp_pending(c) == 0) && c.ime && sp_pending(c) != 0 ==> sp_step_cycles(c)
            == 20,
        !(c.halted && sp_pending(c) == 0) && !(c.ime && sp_pending(c) != 0) ==> ({
            let c0 = CpuView { halted: false, ..c };
            let op = sp_fetch8_val(c0);
            let c1 = sp_fetch8_st(c0);
            sp_step_cycles(c) == (if op == 0xcb {
                crate::opcode::spec_cb_cycles(sp_fetch8_val(c1))
            } else if sp_taken(c1, op) {
                crate::opcode::spec_cond_cycles(op)
            } else {
                crate::opcode::spec_base_cycles(op)
            })
        }),
{
    reveal(sp_step_cycles);
}

/// `PUSH rr; POP rr` restores the register pair, the flags and the
/// stack pointer exactly, for a stack that sits in plain RAM.
#[verifier::rlimit(100)]
#[verifier::spinoff_prover]
pub proof fn lemma_push_pop_roundtrip(c: CpuView, rr: Reg16)
    requires
        spec_cpu_wf(c),
        (0xc002 <= c.reg.sp <= 0xe000) || (0xff82 <= c.reg.sp <= 0xffff),
    ensures
        sp_pop_rr(sp_push_rr(c, rr), rr).reg == c.reg,
{
    let v = spec_read_u16(c.reg, rr);
    let sp = c.reg.sp as int;
    let s1 = w16(sp - 1);
    let s2 = w16(sp - 2);
    assert(s1 == sp - 1 && s2 == sp - 2);
    let hi = (v / 256) as u8;
    let lo = (v % 256) as u8;
    let c1 = sp_push_rr(c, rr);
    assert(c1.reg == Registers { sp: s2, ..c.reg });
    assert(w16(s2 + 1) == s1 && w16(s2 + 2) == c.reg.sp);
    assert(sp_pop16_val(c1) == v) by {
        let ic1 = spec_ic_write(c.ic, s1, hi);
        let ic2 = spec_ic_write(ic1, s2, lo);
        crate::interconnect::lemma_ram_write_read(c.ic, s1, hi, s2);
        crate::interconnect::lemma_ram_write_read(ic1, s2, lo, s1);
        assert(c1.ic == ic2);
        assert(spec_ic_read(ic2, s2) == lo && spec_ic_read(ic2, s1) == hi);
        assert(hi * 256 + lo == v);
    }
    let c2 = sp_pop_rr(c1, rr);
    assert(sp_pop16_st(c1).reg == c.reg);
    assert(c2.reg == spec_write_u16(c.reg, rr, v));
    crate::registers::lemma_write_read_u16(c.reg, rr);
}


/// `DAA` undoes BCD addition: for decimal operands `a` and `b`, adding
/// their BCD encodings and decimal-adjusting the sum leaves the BCD
/// encoding of `(a + b) mod 100` in `A`, with carry set exactly when
/// `a + b` reached one hundred.
#[verifier::rlimit(100)]
#[verifier::spinoff_prover]
pub proof fn lemma_daa_bcd(a: int, b: int)
    requires
        0 <= a < 100,
        0 <= b < 100,
    ensures
        ({
            let s = spec_alu_add(spec_bcd(a), spec_bcd(b), 0);
            let d = spec_alu_daa(s.r, s.n, s.h, s.c);
            d.r == spec_bcd((a + b) % 100) && (d.c <==> a + b >= 100)
        }),
{
    let ah = a / 10;
    let al = a % 10;
    let bh = b / 10;
    let bl = b % 10;
    let av = spec_bcd(a);
    let bv = spec_bcd(b);
    assert(av == 16 * ah + al && bv == 16 * bh + bl);
    assert(0 <= al <= 9 && 0 <= ah <= 9 && 0 <= bl <= 9 && 0 <= bh <= 9);
    assert(av & 0xf == al) by {
        assert(av % 16 == al) by {
            vstd::arithmetic::div_mod::lemma_mod_multiples_vanish(ah, al, 16);
        }
        assert(av & 0xf == av % 16) by (bit_vector);
    }
    assert(bv & 0xf == bl) by {
        assert(bv % 16 == bl) by {
            vstd::arithmetic::div_mod::lemma_mod_multiples_vanish(bh, bl, 16);
        }
        assert(bv & 0xf == bv % 16) by (bit_vector);
    }
    let s = spec_alu_add(av, bv, 0);
    let sl = al + bl;
    let sh = ah + bh;
    let sum = 16 * sh + sl;
    assert(s.h == (sl > 15));
    assert(s.c == (sum > 255));
    assert(s.r == w8(sum));
    let r = s.r as int;
    if sum < 256 {
        assert(sum % 256 == sum);
    } else {
        assert(sum - 256 < 256);
        assert(sum % 256 == sum - 256) by {
            vstd::arithmetic::div_mod::lemma_mod_add_multiples_vanish(sum - 256, 256);
        }
    }
    assert(r % 16 == sl % 16) by {
        if sum < 256 {
            vstd::arithmetic::div_mod::lemma_mod_multiples_vanish(sh, sl, 16);
        } else {
            assert(r == 16 * (sh - 16) + sl);
            vstd::arithmetic::div_mod::lemma_mod_multiples_vanish(sh - 16, sl, 16);
        }
    }
    let d = spec_alu_daa(s.r, s.n, s.h, s.c);
    let t = a + b;
    assert(t == 10 * sh + sl);
    if sl <= 9 {
        assert(!s.h && r % 16 == sl);
        if sh <= 9 {
            assert(sum <= 153 && r == sum);
            assert(!d.c && t < 100);
            assert(d.r == sum as u8);
            assert(t % 100 == t && t / 10 == sh && t % 10 == sl);
            assert(spec_bcd(t % 100) == 16 * sh + sl);
        } else {
            assert(t >= 100);
            assert((t - 100) % 100 == t % 100) by {
                vstd::arithmetic::div_mod::lemma_mod_add_multiples_vanish(t - 100, 100);
            }
            assert(t - 100 == 10 * (sh - 10) + sl);
            assert(t % 100 == t - 100 && (t - 100) / 10 == sh - 10 && (t - 100) % 10 == sl);
            assert(spec_bcd(t % 100) == 16 * (sh - 10) + sl);
            if sum > 255 {
                assert(r == sum - 256 && s.c);
                assert(d.c);
                assert(r + 0x60 == 16 * (sh - 10) + sl);
                assert(d.r == (16 * (sh - 10) + sl) as u8);
            } else {
                assert(r == sum);
                assert(r > 0x99);
                assert(d.c);
                assert(r + 0x60 == 16 * (sh + 6) + sl);
                assert(16 * (sh + 6) + sl >= 256 && 16 * (sh + 6) + sl < 512);
                assert((r + 0x60) % 256 == 16 * (sh - 10) + sl) by {
                    vstd::arithmetic::div_mod::lemma_mod_add_multiples_vanish(
                        16 * (sh + 6) + sl - 256,
                        256,
                    );
                }
                assert(d.r == (16 * (sh - 10) + sl) as u8);
            }
        }
    } else {
        assert(10 <= sl <= 18);
        assert(s.h || r % 16 > 9);
        if sh <= 8 {
            assert(sum <= 146 && r == sum && !s.c && r <= 0x99);
            assert(!d.c && t < 100);
            assert(r + 6 == 16 * (sh + 1) + (sl - 10) && r + 6 < 256);
            assert(d.r == (16 * (sh + 1) + (sl - 10)) as u8);
            assert(t == 10 * (sh + 1) + (sl - 10));
            assert(t % 100 == t && t / 10 == sh + 1 && t % 10 == sl - 10);
            assert(spec_bcd(t % 100) == 16 * (sh + 1) + (sl - 10));
        } else {
            assert(t >= 100);
            if sum > 255 {
                assert(r == sum - 256 && s.c && d.c);
            } else {
                assert(r == sum && r >= 16 * 9 + 10);
                assert(r > 0x99 && d.c);
            }
            assert(r == sum || r == sum - 256);
            let x = r + 0x60 + 0x06;
            assert(x == 16 * (sh + 6) + sl + 6 || x == 16 * (sh - 10) + sl + 6);
            assert(t - 100 == 10 * (sh - 9) + (sl - 10));
            assert((t - 100) % 100 == t % 100) by {
                vstd::arithmetic::div_mod::lemma_mod_add_multiples_vanish(t - 100, 100);
            }
            assert(t % 100 == t - 100 && (t - 100) / 10 == sh - 9 && (t - 100) % 10 == sl - 10);
            assert(spec_bcd(t % 100) == 16 * (sh - 9) + (sl - 10));
            if r == sum {
                assert(x == 16 * (sh - 9) + (sl - 10) + 256);
                assert(0 <= 16 * (sh - 9) + (sl - 10) < 256);
                assert(x % 256 == 16 * (sh - 9) + (sl - 10)) by {
                    vstd::arithmetic::div_mod::lemma_mod_add_multiples_vanish(x - 256, 256);
                }
            } else {
                assert(x == 16 * (sh - 9) + (sl - 10));
                assert(0 <= x < 256);
            }
            assert(d.r == (16 * (sh - 9) + (sl - 10)) as u8);
        }
    }
}

} // verus!
