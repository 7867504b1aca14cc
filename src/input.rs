use crate::mem::{lemma_io_write, Mem, MemView};
use crate::reg::{IF, P1};
use vstd::prelude::*;

verus! {

/// Joypad buttons, one bit each in a key set. The low nibble is the action
/// group, the high nibble the direction group, each in P1 bit order.
pub const KEY_A: u8 = 0x01;
pub const KEY_B: u8 = 0x02;
pub const KEY_SELECT: u8 = 0x04;
pub const KEY_START: u8 = 0x08;
pub const KEY_RIGHT: u8 = 0x10;
pub const KEY_LEFT: u8 = 0x20;
pub const KEY_UP: u8 = 0x40;
pub const KEY_DOWN: u8 = 0x80;

/// The latched set of pressed keys.
#[derive(Clone, Copy, PartialEq, Eq, Structural, Debug)]
pub struct Inputs {
    pub keys: u8,
}

/// The key set with opposing directions pressed together taken out.
pub open spec fn filtered(keys: u8) -> u8 {
    let k1: u8 = if keys & 0x30 == 0x30 {
        keys & 0xcf
    } else {
        keys
    };
    if k1 & 0xc0 == 0xc0 {
        k1 & 0x3f
    } else {
        k1
    }
}

/// What a non-supervisor read of P1 returns: the select bits 4-5 as
/// stored, bits 6-7 set, and in bits 0-3 a cleared bit for each pressed key
/// of a selected group (bit 4 clear selects the action group, bit 5 clear the
/// direction group).
pub open spec fn p1_value(p1: u8, keys: u8) -> u8 {
    let k = filtered(keys);
    let r0: u8 = (p1 & 0x30) | 0xcf;
    let r1: u8 = if p1 & 0x10 == 0 {
        r0 & !(k & 0x0f)
    } else {
        r0
    };
    if p1 & 0x20 == 0 {
        r1 & !(k >> 4)
    } else {
        r1
    }
}

/// Whether a new key set holds a key that the previous one did not.
pub open spec fn newly_pressed(prev: u8, keys: u8) -> bool {
    keys & !prev != 0
}

impl Inputs {
    pub fn new() -> (r: Inputs)
        ensures
            r.keys == 0,
    {
        Inputs { keys: 0 }
    }

    /// Latches the key set of this frame; a key that was not pressed before
    /// raises the joypad interrupt (IF bit 4).
    pub fn up_keys(m: &mut Mem, keys: u8)
        requires
            old(m).wf(),
        ensures
            final(m).wf(),
            final(m)@ == (MemView {
                keys,
                data: if newly_pressed(old(m)@.keys, keys) {
                    old(m)@.data.update(IF as int, old(m)@.data[IF as int] | 0x10)
                } else {
                    old(m)@.data
                },
                ..old(m)@
            }),
    {
        if keys & !m.inputs.keys != 0 {
            proof {
                lemma_io_write(m@, IF, 0);
                lemma_io_write(m@, IF, m@.data[IF as int] | 0x10);
            }
            let v = m.su_get(IF) | 0x10;
            m.su_set(IF, v);
        }
        m.inputs.keys = keys;
    }

    /// The byte that a non-supervisor read of P1 returns.
    pub fn get_p1(m: &Mem) -> (r: u8)
        requires
            m.wf(),
        ensures
            r == p1_value(m@.data[P1 as int], m@.keys),
    {
        let p1 = m.data[P1 as usize];
        let keys = m.inputs.keys;
        let k1: u8 = if keys & 0x30 == 0x30 {
            keys & 0xcf
        } else {
            keys
        };
        let k: u8 = if k1 & 0xc0 == 0xc0 {
            k1 & 0x3f
        } else {
            k1
        };
        let r0: u8 = (p1 & 0x30) | 0xcf;
        let r1: u8 = if p1 & 0x10 == 0 {
            r0 & !(k & 0x0f)
        } else {
            r0
        };
        if p1 & 0x20 == 0 {
            r1 & !(k >> 4)
        } else {
            r1
        }
    }
}

} // verus!
