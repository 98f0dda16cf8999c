//! CPU register file: seven 8-bit registers, the four flags that make up
//! `F`, the stack pointer and the program counter.
//!
//! The flags are stored as booleans; `F` is materialised on every read,
//! so its low nibble is zero by construction.

use vstd::prelude::*;

use crate::GameboyType;

verus! {

/// One of the 8-bit registers, `F` included.
#[derive(Debug, Copy, Clone, PartialEq, Eq, Structural)]
pub enum Reg8 {
    A,
    F,
    B,
    C,
    D,
    E,
    H,
    L,
}

/// One of the 16-bit register pairs, plus `SP`.
#[derive(Debug, Copy, Clone, PartialEq, Eq, Structural)]
pub enum Reg16 {
    AF,
    BC,
    DE,
    HL,
    SP,
}

/// The register file. Flags live as booleans; the `F` byte is derived.
#[derive(Debug, Copy, Clone, PartialEq, Eq, Structural)]
pub struct Registers {
    pub a: u8,
    pub b: u8,
    pub c: u8,
    pub d: u8,
    pub e: u8,
    pub h: u8,
    pub l: u8,
    pub sp: u16,
    pub pc: u16,
    pub zero: bool,
    pub subtract: bool,
    pub half_carry: bool,
    pub carry: bool,
}

/// The `F` byte that a register file reads back: one bit per flag,
/// low nibble zero.
pub open spec fn spec_flags(r: Registers) -> u8 {
    ((if r.zero {
        0x80u8
    } else {
        0u8
    }) + (if r.subtract {
        0x40u8
    } else {
        0u8
    }) + (if r.half_carry {
        0x20u8
    } else {
        0u8
    }) + (if r.carry {
        0x10u8
    } else {
        0u8
    })) as u8
}

/// The register file after `F` is written: each flag takes its bit of
/// `flags`; the low nibble is discarded.
pub open spec fn spec_set_flags(r: Registers, flags: u8) -> Registers {
    Registers {
        zero: flags & 0x80 != 0,
        subtract: flags & 0x40 != 0,
        half_carry: flags & 0x20 != 0,
        carry: flags & 0x10 != 0,
        ..r
    }
}

/// The value an 8-bit register reads.
pub open spec fn spec_read_u8(r: Registers, reg: Reg8) -> u8 {
    match reg {
        Reg8::A => r.a,
        Reg8::F => spec_flags(r),
        Reg8::B => r.b,
        Reg8::C => r.c,
        Reg8::D => r.d,
        Reg8::E => r.e,
        Reg8::H => r.h,
        Reg8::L => r.l,
    }
}

/// The register file after an 8-bit register is written.
pub open spec fn spec_write_u8(r: Registers, reg: Reg8, value: u8) -> Registers {
    match reg {
        Reg8::A => Registers { a: value, ..r },
        Reg8::F => spec_set_flags(r, value),
        Reg8::B => Registers { b: value, ..r },
        Reg8::C => Registers { c: value, ..r },
        Reg8::D => Registers { d: value, ..r },
        Reg8::E => Registers { e: value, ..r },
        Reg8::H => Registers { h: value, ..r },
        Reg8::L => Registers { l: value, ..r },
    }
}

/// The value a register pair reads: high byte times 256 plus low byte.
pub open spec fn spec_read_u16(r: Registers, reg: Reg16) -> u16 {
    match reg {
        Reg16::AF => (r.a * 256 + spec_flags(r)) as u16,
        Reg16::BC => (r.b * 256 + r.c) as u16,
        Reg16::DE => (r.d * 256 + r.e) as u16,
        Reg16::HL => (r.h * 256 + r.l) as u16,
        Reg16::SP => r.sp,
    }
}

/// The register file after a register pair is written, high byte first.
pub open spec fn spec_write_u16(r: Registers, reg: Reg16, value: u16) -> Registers {
    let high = (value / 256) as u8;
    let low = (value % 256) as u8;
    match reg {
        Reg16::AF => spec_set_flags(Registers { a: high, ..r }, low),
        Reg16::BC => Registers { b: high, c: low, ..r },
        Reg16::DE => Registers { d: high, e: low, ..r },
        Reg16::HL => Registers { h: high, l: low, ..r },
        Reg16::SP => Registers { sp: value, ..r },
    }
}

/// The power-on register file: `A` depends on the console model,
/// `F = 0xB0`, `BC = 0x0013`, `DE = 0x00D8`, `HL = 0x014D`,
/// `SP = 0xFFFE`, `PC = 0x0100`.
pub open spec fn spec_power_on(gb_type: GameboyType) -> Registers {
    Registers {
        a: if gb_type == GameboyType::Cgb {
            0x11
        } else {
            0x01
        },
        b: 0x00,
        c: 0x13,
        d: 0x00,
        e: 0xd8,
        h: 0x01,
        l: 0x4d,
        sp: 0xfffe,
        pc: 0x0100,
        zero: true,
        subtract: false,
        half_carry: true,
        carry: true,
    }
}

impl Registers {
    /// The power-on register file for the given console model.
    pub fn new(gb_type: GameboyType) -> (r: Registers)
        ensures
            r == spec_power_on(gb_type),
    {
        Registers {
            a: match gb_type {
                GameboyType::Cgb => 0x11,
                GameboyType::Dmg => 0x01,
            },
            b: 0x00,
            c: 0x13,
            d: 0x00,
            e: 0xd8,
            h: 0x01,
            l: 0x4d,
            sp: 0xfffe,
            pc: 0x0100,
            zero: true,
            subtract: false,
            half_carry: true,
            carry: true,
        }
    }

    /// Read an 8-bit register; reading `F` materialises the flag byte.
    pub fn read_u8(&self, reg: Reg8) -> (r: u8)
        ensures
            r == spec_read_u8(*self, reg),
    {
        match reg {
            Reg8::A => self.a,
            Reg8::F => self.get_flags(),
            Reg8::B => self.b,
            Reg8::C => self.c,
            Reg8::D => self.d,
            Reg8::E => self.e,
            Reg8::H => self.h,
            Reg8::L => self.l,
        }
    }

    /// Read a register pair, high byte first.
    pub fn read_u16(&self, reg: Reg16) -> (r: u16)
        ensures
            r == spec_read_u16(*self, reg),
    {
        match reg {
            Reg16::AF => (self.a as u16) * 256 + (self.get_flags() as u16),
            Reg16::BC => (self.b as u16) * 256 + (self.c as u16),
            Reg16::DE => (self.d as u16) * 256 + (self.e as u16),
            Reg16::HL => (self.h as u16) * 256 + (self.l as u16),
            Reg16::SP => self.sp,
        }
    }

    /// Write an 8-bit register; a write to `F` keeps only the four flag
    /// bits.
    pub fn write_u8(&mut self, reg: Reg8, value: u8)
        ensures
            *final(self) == spec_write_u8(*old(self), reg, value),
    {
        match reg {
            Reg8::A => self.a = value,
            Reg8::F => self.set_flags(value),
            Reg8::B => self.b = value,
            Reg8::C => self.c = value,
            Reg8::D => self.d = value,
            Reg8::E => self.e = value,
            Reg8::H => self.h = value,
            Reg8::L => self.l = value,
        }
    }

    /// Write a register pair, high byte to the first register of the
    /// pair.
    pub fn write_u16(&mut self, reg: Reg16, value: u16)
        ensures
            *final(self) == spec_write_u16(*old(self), reg, value),
    {
        let high = (value / 256) as u8;
        let low = (value % 256) as u8;
        match reg {
            Reg16::AF => {
                self.a = high;
                self.set_flags(low);
            },
            Reg16::BC => {
                self.b = high;
                self.c = low;
            },
            Reg16::DE => {
                self.d = high;
                self.e = low;
            },
            Reg16::HL => {
                self.h = high;
                self.l = low;
            },
            Reg16::SP => self.sp = value,
        }
    }

    /// Materialise the `F` byte from the four flag booleans.
    pub fn get_flags(&self) -> (r: u8)
        ensures
            r == spec_flags(*self),
    {
        let mut flags: u8 = 0;
        if self.zero {
            flags = flags + 0x80;
        }
        if self.subtract {
            flags = flags + 0x40;
        }
        if self.half_carry {
            flags = flags + 0x20;
        }
        if self.carry {
            flags = flags + 0x10;
        }
        flags
    }

    /// Load the four flag booleans from a byte; its low nibble is
    /// ignored.
    pub fn set_flags(&mut self, flags: u8)
        ensures
            *final(self) == spec_set_flags(*old(self), flags),
    {
        self.zero = flags & 0x80 != 0;
        self.subtract = flags & 0x40 != 0;
        self.half_carry = flags & 0x20 != 0;
        self.carry = flags & 0x10 != 0;
    }
}

/// The flag byte always has a zero low nibble, so `AF` reads as
/// `A * 256 + F` with `F`'s low four bits clear, and writing any byte to
/// `F` reads back as that byte masked with `0xF0`.
pub proof fn lemma_flag_register_masked(r: Registers, v: u8)
    ensures
        spec_flags(r) % 16 == 0,
        spec_flags(r) & 0x0f == 0,
        spec_read_u16(r, Reg16::AF) == r.a * 256 + (spec_flags(r) & 0xf0),
        spec_flags(spec_write_u8(r, Reg8::F, v)) == v & 0xf0,
{
    let f = spec_flags(r);
    assert(f % 16 == 0);
    assert(f % 16 == 0 ==> f & 0x0f == 0 && f & 0xf0 == f) by (bit_vector);
    assert(spec_flags(spec_set_flags(r, v)) == v & 0xf0) by {
        assert(((if v & 0x80 != 0 {
            0x80u8
        } else {
            0u8
        }) + (if v & 0x40 != 0 {
            0x40u8
        } else {
            0u8
        }) + (if v & 0x20 != 0 {
            0x20u8
        } else {
            0u8
        }) + (if v & 0x10 != 0 {
            0x10u8
        } else {
            0u8
        })) as u8 == v & 0xf0) by (bit_vector);
    }
}

/// Loading the flag byte of one register file into another restores
/// exactly the four flags: writing back a file's own flag byte is the
/// identity on the flags.
pub proof fn lemma_set_flags_of(r: Registers, q: Registers)
    ensures
        spec_set_flags(q, spec_flags(r)) == (Registers {
            zero: r.zero,
            subtract: r.subtract,
            half_carry: r.half_carry,
            carry: r.carry,
            ..q
        }),
{
    let zb: u8 = if r.zero {
        1
    } else {
        0
    };
    let nb: u8 = if r.subtract {
        1
    } else {
        0
    };
    let hb: u8 = if r.half_carry {
        1
    } else {
        0
    };
    let cb: u8 = if r.carry {
        1
    } else {
        0
    };
    assert(spec_flags(r) == (zb * 128 + nb * 64 + hb * 32 + cb * 16) as u8);
    let f = (zb * 128 + nb * 64 + hb * 32 + cb * 16) as u8;
    assert((f & 0x80 != 0) == (zb == 1) && (f & 0x40 != 0) == (nb == 1) && (f & 0x20 != 0) == (hb
        == 1) && (f & 0x10 != 0) == (cb == 1)) by (bit_vector)
        requires
            zb <= 1 && nb <= 1 && hb <= 1 && cb <= 1 && f == (zb * 128 + nb * 64 + hb * 32 + cb
                * 16) as u8,
    ;
}

/// Writing a register pair back with its own value is the identity,
/// `AF` included: the flag byte always reloads the same four flags.
pub proof fn lemma_write_read_u16(r: Registers, rr: Reg16)
    ensures
        spec_write_u16(r, rr, spec_read_u16(r, rr)) == r,
{
    if rr == Reg16::AF {
        let v = spec_read_u16(r, Reg16::AF) as int;
        assert(spec_flags(r) < 256);
        assert(v == r.a * 256 + spec_flags(r));
        assert(v / 256 == r.a && v % 256 == spec_flags(r));
        lemma_set_flags_of(r, Registers { a: (v / 256) as u8, ..r });
    }
}

} // verus!
