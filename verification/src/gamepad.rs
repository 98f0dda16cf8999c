//! Gamepad latch behind the joypad port.
//!
//! Eight buttons in two groups of four, selected by two write-only port
//! bits; button lines are active-low. A press on a selected line raises
//! the joypad interrupt on the next cycle flush.

use vstd::prelude::*;

use crate::INT_JOYPAD;

verus! {

/// Whether a button is currently released or held down.
#[derive(Debug, Copy, Clone, PartialEq, Eq, Structural)]
pub enum ButtonState {
    Up,
    Down,
}

/// One of the eight buttons.
#[derive(Debug, Copy, Clone, PartialEq, Eq, Structural)]
pub enum Button {
    Up,
    Down,
    Left,
    Right,
    A,
    B,
    Start,
    Select,
}

/// The line each button drives within its four-bit group.
pub open spec fn spec_button_flag(b: Button) -> u8 {
    match b {
        Button::Right | Button::A => 0x01,
        Button::Left | Button::B => 0x02,
        Button::Up | Button::Select => 0x04,
        Button::Down | Button::Start => 0x08,
    }
}

/// Whether the button belongs to the direction group (as opposed to the
/// action group).
pub open spec fn spec_is_direction(b: Button) -> bool {
    match b {
        Button::Up | Button::Down | Button::Left | Button::Right => true,
        Button::A | Button::B | Button::Start | Button::Select => false,
    }
}

impl Button {
    /// The line this button drives within its group.
    pub fn flag(self) -> (r: u8)
        ensures
            r == spec_button_flag(self),
    {
        match self {
            Button::Right | Button::A => 0x01,
            Button::Left | Button::B => 0x02,
            Button::Up | Button::Select => 0x04,
            Button::Down | Button::Start => 0x08,
        }
    }
}

/// A button transition delivered by the host.
#[derive(Debug, Copy, Clone, PartialEq, Eq, Structural)]
pub struct InputEvent {
    pub button: Button,
    pub state: ButtonState,
}

impl InputEvent {
    /// Pair a button with its new state.
    pub fn new(button: Button, state: ButtonState) -> (r: InputEvent)
        ensures
            r == (InputEvent { button, state }),
    {
        InputEvent { button, state }
    }
}

/// Gamepad state: the two active-low button nibbles, the group-select
/// lines last written to the port (a low select bit selects the group),
/// and the pending-interrupt latch.
#[derive(Debug, Copy, Clone, PartialEq, Eq, Structural)]
pub struct Gamepad {
    pub directions: u8,
    pub actions: u8,
    pub select_actions: bool,
    pub select_directions: bool,
    pub int_pending: bool,
}

/// Well-formed gamepad: the button nibbles hold four bits each.
pub open spec fn spec_pad_wf(g: Gamepad) -> bool {
    &&& g.directions < 16
    &&& g.actions < 16
}

/// The byte the joypad port reads: bits 6-7 high, the select bits as
/// written (low when selected), and the active-low lines of every
/// selected group combined.
pub open spec fn spec_pad_read(g: Gamepad) -> u8 {
    let nib = (if g.select_actions {
        g.actions
    } else {
        0x0fu8
    }) & (if g.select_directions {
        g.directions
    } else {
        0x0fu8
    });
    ((if g.select_actions {
        0u8
    } else {
        0x20u8
    }) + (if g.select_directions {
        0u8
    } else {
        0x10u8
    }) + 0xc0 + nib) as u8
}

/// The gamepad after a port write: bit 5 low selects the action group,
/// bit 4 low selects the direction group; nothing else sticks.
pub open spec fn spec_pad_write(g: Gamepad, val: u8) -> Gamepad {
    Gamepad { select_actions: val & 0x20 == 0, select_directions: val & 0x10 == 0, ..g }
}

/// The gamepad after a button event: the button's line goes low on a
/// press and high on a release, and a press on a line of a currently
/// selected group latches the joypad interrupt.
pub open spec fn spec_pad_handle_event(g: Gamepad, e: InputEvent) -> Gamepad {
    let flag = spec_button_flag(e.button);
    let dir = spec_is_direction(e.button);
    let selected = if dir {
        g.select_directions
    } else {
        g.select_actions
    };
    match e.state {
        ButtonState::Down => {
            let was_up = if dir {
                g.directions & flag != 0
            } else {
                g.actions & flag != 0
            };
            let g2 = if dir {
                Gamepad { directions: g.directions & ((15 - flag) as u8), ..g }
            } else {
                Gamepad { actions: g.actions & ((15 - flag) as u8), ..g }
            };
            if was_up && selected {
                Gamepad { int_pending: true, ..g2 }
            } else {
                g2
            }
        },
        ButtonState::Up => {
            if dir {
                Gamepad { directions: g.directions | flag, ..g }
            } else {
                Gamepad { actions: g.actions | flag, ..g }
            }
        },
    }
}

impl Gamepad {
    /// The power-on gamepad: no button held, no group selected.
    pub fn new() -> (r: Gamepad)
        ensures
            r == (Gamepad {
                directions: 0x0f,
                actions: 0x0f,
                select_actions: false,
                select_directions: false,
                int_pending: false,
            }),
            spec_pad_wf(r),
    {
        Gamepad {
            directions: 0x0f,
            actions: 0x0f,
            select_actions: false,
            select_directions: false,
            int_pending: false,
        }
    }

    /// Read the joypad port.
    pub fn read(&self) -> (r: u8)
        requires
            spec_pad_wf(*self),
        ensures
            r == spec_pad_read(*self),
    {
        let nib: u8 = (if self.select_actions {
            self.actions
        } else {
            0x0f
        }) & (if self.select_directions {
            self.directions
        } else {
            0x0f
        });
        proof {
            let a = if self.select_actions {
                self.actions
            } else {
                0x0fu8
            };
            let d = if self.select_directions {
                self.directions
            } else {
                0x0fu8
            };
            assert((a & d) < 16) by (bit_vector)
                requires
                    a < 16 && d < 16,
            ;
        }
        (if self.select_actions {
            0
        } else {
            0x20
        }) + (if self.select_directions {
            0
        } else {
            0x10
        }) + 0xc0 + nib
    }

    /// Write the joypad port; only the two group-select bits stick.
    pub fn write(&mut self, val: u8)
        ensures
            *final(self) == spec_pad_write(*old(self), val),
            spec_pad_wf(*old(self)) ==> spec_pad_wf(*final(self)),
    {
        self.select_actions = val & 0x20 == 0;
        self.select_directions = val & 0x10 == 0;
    }

    /// Apply a button transition from the host.
    pub fn handle_event(&mut self, event: InputEvent)
        requires
            spec_pad_wf(*old(self)),
        ensures
            *final(self) == spec_pad_handle_event(*old(self), event),
            spec_pad_wf(*final(self)),
    {
        let flag = event.button.flag();
        let dir = match event.button {
            Button::Up | Button::Down | Button::Left | Button::Right => true,
            Button::A | Button::B | Button::Start | Button::Select => false,
        };
        let selected = if dir {
            self.select_directions
        } else {
            self.select_actions
        };
        proof {
            let d = self.directions;
            let a = self.actions;
            let f = spec_button_flag(event.button);
            assert((d & ((15 - f) as u8)) < 16 && (a & ((15 - f) as u8)) < 16 && (d | f) < 16 && (a
                | f) < 16) by (bit_vector)
                requires
                    d < 16 && a < 16 && f < 16,
            ;
        }
        match event.state {
            ButtonState::Down => {
                let was_up = if dir {
                    self.directions & flag != 0
                } else {
                    self.actions & flag != 0
                };
                if dir {
                    self.directions = self.directions & (15 - flag);
                } else {
                    self.actions = self.actions & (15 - flag);
                }
                if was_up && selected {
                    self.int_pending = true;
                }
            },
            ButtonState::Up => {
                if dir {
                    self.directions = self.directions | flag;
                } else {
                    self.actions = self.actions | flag;
                }
            },
        }
    }

    /// Hand back the interrupt latched since the last flush, if any,
    /// and clear it. The cycle count does not affect the gamepad.
    #[allow(unused_variables)]
    pub fn cycle_flush(&mut self, cycle_count: u32) -> (r: u8)
        ensures
            *final(self) == (Gamepad { int_pending: false, ..*old(self) }),
            r == if old(self).int_pending {
                INT_JOYPAD
            } else {
                0u8
            },
    {
        let r = if self.int_pending {
            INT_JOYPAD
        } else {
            0
        };
        self.int_pending = false;
        r
    }
}

} // verus!
