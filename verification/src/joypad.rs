//! The button matrix: the joypad register's two select bits choose which
//! row of four buttons the low nibble reports, pressed reading low.  The
//! host polls its input source and hands the core one `KeyState` per
//! step.

use vstd::prelude::*;

verus! {

/// The eight buttons, true while held.
#[derive(Clone, Copy, PartialEq, Eq, Structural, Debug)]
pub struct KeyState {
    pub up: bool,
    pub down: bool,
    pub left: bool,
    pub right: bool,
    pub a: bool,
    pub b: bool,
    pub start: bool,
    pub select: bool,
}

impl KeyState {
    /// Nothing held.
    pub fn none() -> (r: KeyState)
        ensures
            r == (KeyState {
                up: false,
                down: false,
                left: false,
                right: false,
                a: false,
                b: false,
                start: false,
                select: false,
            }),
    {
        KeyState {
            up: false,
            down: false,
            left: false,
            right: false,
            a: false,
            b: false,
            start: false,
            select: false,
        }
    }
}

/// The joypad register after the pressed keys pull their row's bits low:
/// starting from the register with its low nibble released (all ones),
/// bit 4 selects the action row (A, B, Select, Start) and bit 5 the
/// direction row (Right, Left, Up, Down).
pub open spec fn spec_update_key_register(register: u8, keys: KeyState) -> u8 {
    let r = register | 0xF;
    let r = if r & 0x10 != 0 {
        let r = if keys.a {
            r & !0x1
        } else {
            r
        };
        let r = if keys.b {
            r & !0x2
        } else {
            r
        };
        let r = if keys.select {
            r & !0x4
        } else {
            r
        };
        if keys.start {
            r & !0x8
        } else {
            r
        }
    } else {
        r
    };
    if r & 0x20 != 0 {
        let r = if keys.right {
            r & !0x1
        } else {
            r
        };
        let r = if keys.left {
            r & !0x2
        } else {
            r
        };
        let r = if keys.up {
            r & !0x4
        } else {
            r
        };
        if keys.down {
            r & !0x8
        } else {
            r
        }
    } else {
        r
    }
}

/// Project the held keys onto the joypad register in place.
pub fn update_key_register(register: &mut u8, keys: &KeyState)
    ensures
        *final(register) == spec_update_key_register(*old(register), *keys),
{
    *register = *register | 0xF;
    if *register & 0x10 != 0 {
        if keys.a {
            *register = *register & !0x1;
        }
        if keys.b {
            *register = *register & !0x2;
        }
        if keys.select {
            *register = *register & !0x4;
        }
        if keys.start {
            *register = *register & !0x8;
        }
    }
    if *register & 0x20 != 0 {
        if keys.right {
            *register = *register & !0x1;
        }
        if keys.left {
            *register = *register & !0x2;
        }
        if keys.up {
            *register = *register & !0x4;
        }
        if keys.down {
            *register = *register & !0x8;
        }
    }
}

} // verus!
