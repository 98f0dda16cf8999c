//! Opcode identities and the published per-opcode cycle tables.
//!
//! Cycle counts are in clock periods at normal speed. Conditional
//! control-flow opcodes have a base (branch not taken) count and a
//! higher taken count; the CB page has its own table.

use vstd::prelude::*;

verus! {

/// A named opcode.
#[derive(Debug, Copy, Clone, PartialEq, Eq, Structural)]
pub enum Opcode {
    Nop,
    Jp,
}

/// Name the opcodes this helper recognises.
pub fn to_opcode(x: u8) -> (r: Opcode)
    requires
        x == 0x00 || x == 0xc3,
    ensures
        x == 0x00 ==> r == Opcode::Nop,
        x == 0xc3 ==> r == Opcode::Jp,
{
    if x == 0x00 {
        Opcode::Nop
    } else {
        Opcode::Jp
    }
}

/// Whether a primary-page opcode is assigned. The eleven holes of the
/// opcode matrix decode to nothing and abort execution.
pub open spec fn spec_op_assigned(op: u8) -> bool {
    !(op == 0xd3 || op == 0xdb || op == 0xdd || op == 0xe3 || op == 0xe4 || op == 0xeb || op
        == 0xec || op == 0xed || op == 0xf4 || op == 0xfc || op == 0xfd)
}

/// Decide whether a primary-page opcode is assigned.
pub fn op_assigned(op: u8) -> (r: bool)
    ensures
        r == spec_op_assigned(op),
{
    !(op == 0xd3 || op == 0xdb || op == 0xdd || op == 0xe3 || op == 0xe4 || op == 0xeb || op
        == 0xec || op == 0xed || op == 0xf4 || op == 0xfc || op == 0xfd)
}

/// Base cycle count of a primary-page opcode: the published table
/// entry, with the lower count for conditional branches.
pub open spec fn spec_base_cycles(op: u8) -> u32 {
    if op < 0x40 {
        let c = op % 8;
        if c == 0 {
            if op == 0x00 || op == 0x10 {
                4
            } else if op == 0x08 {
                20
            } else if op == 0x18 {
                12
            } else {
                8
            }
        } else if c == 1 {
            if (op / 8) % 2 == 0 {
                12
            } else {
                8
            }
        } else if c == 2 || c == 3 {
            8
        } else if c == 4 || c == 5 {
            if op == 0x34 || op == 0x35 {
                12
            } else {
                4
            }
        } else if c == 6 {
            if op == 0x36 {
                12
            } else {
                8
            }
        } else {
            4
        }
    } else if op < 0xc0 {
        if op == 0x76 {
            4
        } else if op % 8 == 6 || (0x70 <= op && op < 0x78) {
            8
        } else {
            4
        }
    } else {
        let c = op % 8;
        if c == 0 {
            if op == 0xe8 {
                16
            } else if op == 0xe0 || op == 0xf0 || op == 0xf8 {
                12
            } else {
                8
            }
        } else if c == 1 {
            if op == 0xc9 || op == 0xd9 {
                16
            } else if op == 0xe9 {
                4
            } else if op == 0xf9 {
                8
            } else {
                12
            }
        } else if c == 2 {
            if op == 0xe2 || op == 0xf2 {
                8
            } else if op == 0xea || op == 0xfa {
                16
            } else {
                12
            }
        } else if c == 3 {
            if op == 0xc3 {
                16
            } else {
                4
            }
        } else if c == 4 {
            12
        } else if c == 5 {
            if op == 0xcd {
                24
            } else {
                16
            }
        } else if c == 6 {
            8
        } else {
            16
        }
    }
}

/// Taken cycle count of a control-flow opcode: the published table
/// entry for a branch that is followed. Unconditional jumps, calls and
/// returns use this count always.
pub open spec fn spec_cond_cycles(op: u8) -> u32 {
    if op == 0x18 || op == 0x20 || op == 0x28 || op == 0x30 || op == 0x38 {
        12
    } else if op == 0xe9 {
        4
    } else if op == 0xc3 || op == 0xc2 || op == 0xca || op == 0xd2 || op == 0xda {
        16
    } else if op == 0xcd || op == 0xc4 || op == 0xcc || op == 0xd4 || op == 0xdc {
        24
    } else if op == 0xc9 {
        16
    } else if op == 0xc0 || op == 0xc8 || op == 0xd0 || op == 0xd8 {
        20
    } else {
        0
    }
}

/// Cycle count of a CB-page opcode: 8 for a register operand, 16 for a
/// memory operand, except 12 for a memory `BIT` test.
pub open spec fn spec_cb_cycles(op: u8) -> u32 {
    if op % 8 == 6 {
        if 0x40 <= op && op < 0x80 {
            12
        } else {
            16
        }
    } else {
        8
    }
}

/// Look up the base cycle count of a primary-page opcode.
pub fn base_cycles(op: u8) -> (r: u32)
    ensures
        r == spec_base_cycles(op),
        r <= 24,
{
    if op < 0x40 {
        let c = op % 8;
        if c == 0 {
            if op == 0x00 || op == 0x10 {
                4
            } else if op == 0x08 {
                20
            } else if op == 0x18 {
                12
            } else {
                8
            }
        } else if c == 1 {
            if (op / 8) % 2 == 0 {
                12
            } else {
                8
            }
        } else if c == 2 || c == 3 {
            8
        } else if c == 4 || c == 5 {
            if op == 0x34 || op == 0x35 {
                12
            } else {
                4
            }
        } else if c == 6 {
            if op == 0x36 {
                12
            } else {
                8
            }
        } else {
            4
        }
    } else if op < 0xc0 {
        if op == 0x76 {
            4
        } else if op % 8 == 6 || (0x70 <= op && op < 0x78) {
            8
        } else {
            4
        }
    } else {
        let c = op % 8;
        if c == 0 {
            if op == 0xe8 {
                16
            } else if op == 0xe0 || op == 0xf0 || op == 0xf8 {
                12
            } else {
                8
            }
        } else if c == 1 {
            if op == 0xc9 || op == 0xd9 {
                16
            } else if op == 0xe9 {
                4
            } else if op == 0xf9 {
                8
            } else {
                12
            }
        } else if c == 2 {
            if op == 0xe2 || op == 0xf2 {
                8
            } else if op == 0xea || op == 0xfa {
                16
            } else {
                12
            }
        } else if c == 3 {
            if op == 0xc3 {
                16
            } else {
                4
            }
        } else if c == 4 {
            12
        } else if c == 5 {
            if op == 0xcd {
                24
            } else {
                16
            }
        } else if c == 6 {
            8
        } else {
            16
        }
    }
}

/// Look up the taken cycle count of a control-flow opcode.
pub fn cond_cycles(op: u8) -> (r: u32)
    ensures
        r == spec_cond_cycles(op),
        r <= 24,
{
    if op == 0x18 || op == 0x20 || op == 0x28 || op == 0x30 || op == 0x38 {
        12
    } else if op == 0xe9 {
        4
    } else if op == 0xc3 || op == 0xc2 || op == 0xca || op == 0xd2 || op == 0xda {
        16
    } else if op == 0xcd || op == 0xc4 || op == 0xcc || op == 0xd4 || op == 0xdc {
        24
    } else if op == 0xc9 {
        16
    } else if op == 0xc0 || op == 0xc8 || op == 0xd0 || op == 0xd8 {
        20
    } else {
        0
    }
}

/// Look up the cycle count of a CB-page opcode.
pub fn cb_cycles(op: u8) -> (r: u32)
    ensures
        r == spec_cb_cycles(op),
        r <= 24,
{
    if op % 8 == 6 {
        if 0x40 <= op && op < 0x80 {
            12
        } else {
            16
        }
    } else {
        8
    }
}

} // verus!
