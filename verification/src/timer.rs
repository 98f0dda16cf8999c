//! Divider and programmable timer.
//!
//! `DIV` increments every 256 CPU cycles and resets on any write.
//! `TIMA` increments at the rate selected by `TAC`; on overflow it
//! reloads from `TMA` and raises the timer interrupt.

use vstd::prelude::*;

use crate::INT_TIMER;

verus! {

/// Timer state: the four registers plus the cycle remainders carried
/// between flushes.
#[derive(Debug, Copy, Clone, PartialEq, Eq, Structural)]
pub struct Timer {
    pub div: u8,
    pub div_cycles: u32,
    pub tima: u8,
    pub tima_cycles: u32,
    pub tma: u8,
    pub enabled: bool,
    pub clock_select: u8,
}

/// Cycles per `TIMA` increment for each `TAC` rate selection.
pub open spec fn spec_rate(clock_select: u8) -> u32 {
    if clock_select == 0 {
        1024
    } else if clock_select == 1 {
        16
    } else if clock_select == 2 {
        64
    } else {
        256
    }
}

/// Well-formed timer: remainders are below their moduli and the rate
/// selector holds two bits.
pub open spec fn spec_timer_wf(t: Timer) -> bool {
    &&& t.div_cycles < 256
    &&& t.tima_cycles < 1024
    &&& t.clock_select < 4
}

/// The value each timer register reads.
pub open spec fn spec_timer_read(t: Timer, addr: u16) -> u8 {
    if addr == 0xff04 {
        t.div
    } else if addr == 0xff05 {
        t.tima
    } else if addr == 0xff06 {
        t.tma
    } else {
        (t.clock_select + if t.enabled {
            4u8
        } else {
            0u8
        }) as u8
    }
}

/// The timer after a register write. A write to `DIV` resets the whole
/// divider regardless of the value written.
pub open spec fn spec_timer_write(t: Timer, addr: u16, val: u8) -> Timer {
    if addr == 0xff04 {
        Timer { div: 0, div_cycles: 0, ..t }
    } else if addr == 0xff05 {
        Timer { tima: val, ..t }
    } else if addr == 0xff06 {
        Timer { tma: val, ..t }
    } else {
        Timer { clock_select: val % 4, enabled: val & 4 != 0, ..t }
    }
}

/// The timer after `n` cycles: `DIV` advances by `n / 256` and `TIMA`
/// by `n / rate`, both with the remainder carried; a `TIMA` overflow
/// reloads from `TMA`.
pub open spec fn spec_timer_flush(t: Timer, n: u32) -> Timer {
    let div_total = t.div_cycles + n;
    let div = ((t.div + div_total / 256) % 256) as u8;
    let div_cycles = (div_total % 256) as u32;
    let rate = spec_rate(t.clock_select);
    let tima_total = t.tima_cycles + n;
    let ticks = ((tima_total / (rate as int)) % 256) as u8;
    let tima_cycles = (tima_total % (rate as int)) as u32;
    if t.enabled {
        let sum = t.tima + ticks;
        let tima = if sum > 255 {
            ((t.tma + (sum - 256)) % 256) as u8
        } else {
            sum as u8
        };
        Timer { div, div_cycles, tima, tima_cycles, ..t }
    } else {
        Timer { div, div_cycles, tima_cycles, ..t }
    }
}

/// Whether flushing `n` cycles overflows `TIMA` and so raises the timer
/// interrupt.
pub open spec fn spec_timer_overflow(t: Timer, n: u32) -> bool {
    let tima_total = t.tima_cycles + n;
    let ticks = ((tima_total / (spec_rate(t.clock_select) as int)) % 256) as u8;
    t.enabled && t.tima + ticks > 255
}

impl Timer {
    /// The power-on timer: everything zero, rate selection `00`.
    pub fn new() -> (r: Timer)
        ensures
            r == (Timer {
                div: 0,
                div_cycles: 0,
                tima: 0,
                tima_cycles: 0,
                tma: 0,
                enabled: false,
                clock_select: 0,
            }),
            spec_timer_wf(r),
    {
        Timer {
            div: 0,
            div_cycles: 0,
            tima: 0,
            tima_cycles: 0,
            tma: 0,
            enabled: false,
            clock_select: 0,
        }
    }

    /// Read one of `DIV`, `TIMA`, `TMA`, `TAC`.
    pub fn read(&self, addr: u16) -> (r: u8)
        requires
            0xff04 <= addr <= 0xff07,
            spec_timer_wf(*self),
        ensures
            r == spec_timer_read(*self, addr),
    {
        if addr == 0xff04 {
            self.div
        } else if addr == 0xff05 {
            self.tima
        } else if addr == 0xff06 {
            self.tma
        } else {
            self.clock_select + if self.enabled {
                4
            } else {
                0
            }
        }
    }

    /// Write one of `DIV`, `TIMA`, `TMA`, `TAC`. Any write to `DIV`
    /// resets the divider to zero.
    pub fn write(&mut self, addr: u16, val: u8)
        requires
            0xff04 <= addr <= 0xff07,
            spec_timer_wf(*old(self)),
        ensures
            *final(self) == spec_timer_write(*old(self), addr, val),
            spec_timer_wf(*final(self)),
    {
        if addr == 0xff04 {
            self.div = 0;
            self.div_cycles = 0;
        } else if addr == 0xff05 {
            self.tima = val;
        } else if addr == 0xff06 {
            self.tma = val;
        } else {
            self.clock_select = val % 4;
            self.enabled = val & 4 != 0;
        }
    }

    /// Advance the timer by `n` cycles; the result is the interrupt
    /// mask that the flush raised (the timer bit or nothing).
    pub fn cycle_flush(&mut self, n: u32) -> (r: u8)
        requires
            spec_timer_wf(*old(self)),
            n <= 0x100_0000,
        ensures
            *final(self) == spec_timer_flush(*old(self), n),
            r == if spec_timer_overflow(*old(self), n) {
                INT_TIMER
            } else {
                0u8
            },
            spec_timer_wf(*final(self)),
    {
        let div_total: u32 = self.div_cycles + n;
        self.div = (((self.div as u32) + div_total / 256) % 256) as u8;
        self.div_cycles = div_total % 256;

        let rate: u32 = if self.clock_select == 0 {
            1024
        } else if self.clock_select == 1 {
            16
        } else if self.clock_select == 2 {
            64
        } else {
            256
        };
        let tima_total: u32 = self.tima_cycles + n;
        let ticks: u8 = ((tima_total / rate) % 256) as u8;
        self.tima_cycles = tima_total % rate;

        if self.enabled {
            let sum: u32 = (self.tima as u32) + (ticks as u32);
            if sum > 255 {
                self.tima = (((self.tma as u32) + (sum - 256)) % 256) as u8;
                INT_TIMER
            } else {
                self.tima = sum as u8;
                0
            }
        } else {
            0
        }
    }
}

/// A write to `DIV` makes the next read of `DIV` zero, whatever value
/// was written.
pub proof fn lemma_div_write_resets(t: Timer, val: u8)
    ensures
        spec_timer_read(spec_timer_write(t, 0xff04, val), 0xff04) < 0x01,
{
}

} // verus!
