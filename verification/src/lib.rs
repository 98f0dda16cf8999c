//! Emulation core for the classic 8-bit handheld game console and its
//! color successor: an LR35902-family CPU interpreter, scanline PPU,
//! timer, gamepad latch, memory bank controllers and bus arbiter.
//!
//! Every state transition of the core is specified by a pure function
//! over a mathematical view of the machine, and the executable code is
//! proved to implement those functions exactly.

use vstd::prelude::*;

mod cart;
mod console;
mod cpu;
mod gamepad;
mod interconnect;
mod mbc;
mod mbc1;
mod mbc3;
mod mbc5;
mod opcode;
mod ppu;
mod ram;
mod registers;
mod speed_switch;
mod spu;
mod timer;

pub use cart::Cart;
pub use cart::CartError;
pub use cart::DestinationCode;
pub use console::Console;
pub use cpu::Cond;
pub use cpu::Cpu;
pub use cpu::CpuFault;
pub use cpu::Operand8;
pub use gamepad::Button;
pub use gamepad::ButtonState;
pub use gamepad::Gamepad;
pub use gamepad::InputEvent;
pub use interconnect::Interconnect;
pub use mbc::Mbc;
pub use mbc::MbcInfo;
pub use mbc::MbcType;
pub use mbc::RamInfo;
pub use mbc::new_mbc;
pub use mbc1::Mbc1;
pub use mbc3::Mbc3;
pub use mbc5::Mbc5;
pub use opcode::Opcode;
pub use opcode::to_opcode;
pub use ppu::Ppu;
pub use ram::Ram;
pub use registers::Reg16;
pub use registers::Reg8;
pub use registers::Registers;
pub use speed_switch::SpeedSwitch;
pub use spu::Spu;
pub use timer::Timer;

verus! {

/// The console model a cartridge targets: the color model or the
/// original monochrome model.
#[derive(Debug, Copy, Clone, PartialEq, Eq, Structural)]
pub enum GameboyType {
    Cgb,
    Dmg,
}

/// CPU clock speed selector: the color model can switch to double speed.
#[derive(Debug, Copy, Clone, PartialEq, Eq, Structural)]
pub enum CpuClock {
    Normal,
    Double,
}

impl CpuClock {
    /// Clock frequency in Hz.
    pub fn value(self) -> (r: u32)
        ensures
            self == CpuClock::Normal ==> r == 4_194_304,
            self == CpuClock::Double ==> r == 8_388_608,
    {
        match self {
            CpuClock::Normal => 4_194_304,
            CpuClock::Double => 8_388_608,
        }
    }
}

/// Interrupt-flag bit for the VBlank interrupt.
pub const INT_VBLANK: u8 = 0x01;

/// Interrupt-flag bit for the LCD-status interrupt.
pub const INT_LCDSTAT: u8 = 0x02;

/// Interrupt-flag bit for the timer-overflow interrupt.
pub const INT_TIMER: u8 = 0x04;

/// Interrupt-flag bit for the serial-transfer interrupt.
pub const INT_SERIAL: u8 = 0x08;

/// Interrupt-flag bit for the joypad interrupt.
pub const INT_JOYPAD: u8 = 0x10;

/// An element-for-element copy of a vector.
pub(crate) fn copy_vec<T: Copy>(v: &Vec<T>) -> (r: Vec<T>)
    ensures
        r@ == v@,
{
    let mut r: Vec<T> = Vec::new();
    let mut i: usize = 0;
    while i < v.len()
        invariant
            i <= v.len(),
            r@.len() == i,
            forall|k: int| 0 <= k < i ==> r@[k] == v@[k],
        decreases v.len() - i,
    {
        r.push(v[i]);
        i = i + 1;
    }
    proof {
        assert(r@ =~= v@);
    }
    r
}

/// A byte-for-byte copy of a vector.
pub(crate) fn clone_bytes(v: &Vec<u8>) -> (r: Vec<u8>)
    ensures
        r@ == v@,
{
    let r = v.clone();
    proof {
        assert forall|i: int| 0 <= i < v@.len() implies r@[i] == v@[i] by {
            assert(cloned::<u8>(v[i], r[i]));
        }
        assert(r@ =~= v@);
    }
    r
}

/// A vector of `n` copies of `val`.
pub(crate) fn filled_vec<T: Copy>(val: T, n: usize) -> (r: Vec<T>)
    ensures
        r@.len() == n,
        forall|i: int| 0 <= i < n ==> r@[i] == val,
{
    let mut r: Vec<T> = Vec::new();
    while r.len() < n
        invariant
            r@.len() <= n,
            forall|i: int| 0 <= i < r@.len() ==> r@[i] == val,
        decreases n - r@.len(),
    {
        r.push(val);
    }
    r
}

} // verus!
