//! Console facade: wires the CPU and bus together and runs the machine
//! one video frame at a time.

use vstd::prelude::*;

use crate::GameboyType;
use crate::cart::Cart;
use crate::cart::CartView;
use crate::cart::spec_cart_wf;
use crate::cpu::Cpu;
use crate::cpu::CpuFault;
use crate::cpu::CpuView;
use crate::cpu::sp_step_ok;
use crate::cpu::sp_step_st;
use crate::cpu::spec_cpu_wf;
use crate::gamepad::Gamepad;
use crate::gamepad::InputEvent;
use crate::gamepad::spec_pad_handle_event;
use crate::interconnect::IcView;
use crate::interconnect::Interconnect;
use crate::interconnect::spec_ic_read;
use crate::mbc::spec_mbc_ram;
use crate::ppu::Ppu;
use crate::ppu::PpuView;
use crate::ppu::spec_ppu_power_on;
use crate::registers::spec_power_on;
use crate::spu::Spu;
use crate::timer::Timer;

verus! {

/// The console: the CPU with the whole machine behind it.
#[derive(Debug)]
pub struct Console {
    pub cpu: Cpu,
}

/// How many CPU steps one frame call will take before giving up on a
/// machine whose LCD never publishes. A frame needs at most 70224
/// cycles and every step consumes at least four, so the budget covers
/// hundreds of frames.
pub const FRAME_STEP_BUDGET: u32 = 5_000_000;

/// The whole machine at power-on around a given cartridge: registers,
/// interrupt state, PPU, timer, gamepad, sound registers and memories
/// all at their reset values, on the monochrome model.
pub open spec fn spec_console_power_on(cart: CartView) -> CpuView {
    CpuView {
        reg: spec_power_on(GameboyType::Dmg),
        ic: IcView {
            gameboy_type: GameboyType::Dmg,
            cart,
            ppu: spec_ppu_power_on(),
            spu: Seq::new(0x30, |i: int| 0u8),
            timer: Timer {
                div: 0,
                div_cycles: 0,
                tima: 0,
                tima_cycles: 0,
                tma: 0,
                enabled: false,
                clock_select: 0,
            },
            gamepad: Gamepad {
                directions: 0x0f,
                actions: 0x0f,
                select_actions: false,
                select_directions: false,
                int_pending: false,
            },
            ram: Seq::new(0x8000, |i: int| 0u8),
            ram_bank: 1,
            zram: Seq::new(0x7f, |i: int| 0u8),
            svbk: 0,
            ppu_dma: 0,
            int_enable: 0,
            int_flags: 0,
        },
        ime: true,
        halted: false,
        ei_delay: 0,
    }
}

/// The view of a CPU with the published-frame flag lowered.
pub open spec fn spec_frame_cleared(c: CpuView) -> CpuView {
    CpuView { ic: IcView { ppu: PpuView { frame_ready: false, ..c.ic.ppu }, ..c.ic }, ..c }
}

/// A run of machine states in which each state steps to the next and
/// no state but the last has a published frame.
pub open spec fn spec_step_trace(t: Seq<CpuView>) -> bool {
    forall|k: int|
        0 <= k < t.len() - 1 ==> sp_step_ok(#[trigger] t[k]) && t[k + 1] == sp_step_st(t[k])
            && !t[k].ic.ppu.frame_ready
}

/// The machine `end` is reached from `start` by lowering the frame
/// flag and stepping the CPU, every intermediate state unpublished,
/// until the last state has a published frame — or until the step
/// budget is spent — and then lowering the flag again.
pub open spec fn spec_frame_chain(start: CpuView, end: CpuView) -> bool {
    exists|t: Seq<CpuView>|
        #[trigger] spec_step_trace(t) && t.len() >= 1 && t[0] == spec_frame_cleared(start)
            && spec_frame_cleared(t[t.len() - 1]) == end && (t[t.len() - 1].ic.ppu.frame_ready
            || t.len() == FRAME_STEP_BUDGET + 1)
}

/// The machine `end` and diagnostic `e` come from stepping soundly
/// from `start` (frame flag lowered, no intermediate state published)
/// into a state whose next opcode is unassigned: `e` carries that
/// state's program counter, opcode byte and registers, and `end` is
/// that state with only its halt latch cleared.
pub open spec fn spec_frame_fault(start: CpuView, end: CpuView, e: CpuFault) -> bool {
    exists|t: Seq<CpuView>|
        #[trigger] spec_step_trace(t) && t.len() >= 1 && t[0] == spec_frame_cleared(start) && !(
        t[t.len() - 1].ic.ppu.frame_ready) && !sp_step_ok(t[t.len() - 1]) && end == (CpuView {
            halted: false,
            ..t[t.len() - 1]
        }) && e == (CpuFault {
            pc: t[t.len() - 1].reg.pc,
            opcode: spec_ic_read(t[t.len() - 1].ic, t[t.len() - 1].reg.pc),
            regs: t[t.len() - 1].reg,
        })
}

impl Console {
    /// Wire a console around a cartridge: the whole machine starts in
    /// its power-on state.
    pub fn new(cart: Cart) -> (r: Console)
        requires
            spec_cart_wf(cart@),
        ensures
            r.cpu@ == spec_console_power_on(cart@),
            spec_cpu_wf(r.cpu@),
    {
        let gb_type = GameboyType::Dmg;
        let ghost cart_view = cart@;
        let interconnect = Interconnect::new(gb_type, cart, Ppu::new(), Spu::new(), Gamepad::new());
        let c = Console { cpu: Cpu::new(gb_type, interconnect) };
        proof {
            assert(c.cpu@ =~~= spec_console_power_on(cart_view));
        }
        c
    }

    /// Step the CPU until the PPU publishes a frame, and hand the
    /// published framebuffer back. The trace behind an `Ok` return ends
    /// in a published frame unless the step budget ran out (an LCD that
    /// was disabled throughout); decoding an unassigned opcode aborts
    /// the frame with the CPU's diagnostic for the state it faulted in.
    #[verifier::rlimit(100)]
    pub fn run_for_one_frame(&mut self) -> (r: Result<Vec<u32>, CpuFault>)
        requires
            spec_cpu_wf(old(self).cpu@),
        ensures
            spec_cpu_wf(final(self).cpu@),
            r is Ok ==> ({
                &&& r.unwrap()@ == final(self).cpu@.ic.ppu.fb
                &&& r.unwrap()@.len() == 23040
                &&& !final(self).cpu@.ic.ppu.frame_ready
                &&& spec_frame_chain(old(self).cpu@, final(self).cpu@)
            }),
            r is Err ==> spec_frame_fault(old(self).cpu@, final(self).cpu@, r.unwrap_err()),
    {
        self.cpu.interconnect.ppu.clear_frame_flag();
        let ghost mut trace: Seq<CpuView> = seq![self.cpu@];
        let mut steps: u32 = 0;
        while steps < FRAME_STEP_BUDGET && !self.cpu.interconnect.ppu.frame_ready()
            invariant
                spec_cpu_wf(self.cpu@),
                steps <= FRAME_STEP_BUDGET,
                trace.len() == steps + 1,
                trace[0] == spec_frame_cleared(old(self).cpu@),
                trace[trace.len() - 1] == self.cpu@,
                spec_step_trace(trace),
            decreases FRAME_STEP_BUDGET - steps,
        {
            let ghost before = self.cpu@;
            let ghost pre = trace;
            match self.cpu.step() {
                Ok(_) => {},
                Err(e) => {
                    proof {
                        assert(spec_step_trace(trace) && trace.len() >= 1 && trace[0]
                            == spec_frame_cleared(old(self).cpu@) && !(trace[trace.len()
                            - 1].ic.ppu.frame_ready) && !sp_step_ok(trace[trace.len() - 1])
                            && self.cpu@ == (CpuView { halted: false, ..trace[trace.len() - 1] })
                            && e == (CpuFault {
                            pc: trace[trace.len() - 1].reg.pc,
                            opcode: spec_ic_read(
                                trace[trace.len() - 1].ic,
                                trace[trace.len() - 1].reg.pc,
                            ),
                            regs: trace[trace.len() - 1].reg,
                        }));
                    }
                    return Err(e);
                },
            }
            proof {
                trace = trace.push(self.cpu@);
                assert forall|k: int| 0 <= k < trace.len() - 1 implies sp_step_ok(
                    #[trigger] trace[k],
                ) && trace[k + 1] == sp_step_st(trace[k]) && !trace[k].ic.ppu.frame_ready by {
                    if k < pre.len() - 1 {
                        assert(pre[k] == trace[k] && pre[k + 1] == trace[k + 1]);
                    }
                }
            }
            steps = steps + 1;
        }
        self.cpu.interconnect.ppu.clear_frame_flag();
        proof {
            assert(spec_step_trace(trace) && trace.len() >= 1 && trace[0] == spec_frame_cleared(
                old(self).cpu@,
            ) && spec_frame_cleared(trace[trace.len() - 1]) == self.cpu@ && (trace[trace.len()
                - 1].ic.ppu.frame_ready || trace.len() == FRAME_STEP_BUDGET + 1));
        }
        let frame = crate::copy_vec(&self.cpu.interconnect.ppu.framebuffer);
        Ok(frame)
    }

    /// Forward a button transition to the gamepad.
    pub fn handle_event(&mut self, input_event: InputEvent)
        requires
            spec_cpu_wf(old(self).cpu@),
        ensures
            final(self).cpu@ == (CpuView {
                ic: IcView {
                    gamepad: spec_pad_handle_event(old(self).cpu@.ic.gamepad, input_event),
                    ..old(self).cpu@.ic
                },
                ..old(self).cpu@
            }),
            spec_cpu_wf(final(self).cpu@),
    {
        self.cpu.interconnect.gamepad.handle_event(input_event);
    }

    /// Snapshot the cartridge's external RAM for save-file
    /// persistence, if any was allocated.
    pub fn copy_cart_ram(&self) -> (r: Option<Vec<u8>>)
        ensures
            spec_mbc_ram(self.cpu@.ic.cart.mbc).len() > 0 ==> r is Some && r.unwrap()@
                == spec_mbc_ram(self.cpu@.ic.cart.mbc),
            spec_mbc_ram(self.cpu@.ic.cart.mbc).len() == 0 ==> r is None,
    {
        self.cpu.interconnect.cart.copy_ram()
    }
}

} // verus!
