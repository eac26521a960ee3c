//! The CPU register file: eight 8-bit registers that pair into four 16-bit
//! ones, the program counter, the stack pointer, the four flags (kept as
//! booleans; the flag byte F is materialised on demand, its low nibble is
//! zero by construction), the interrupt master enable, the HALT flag and
//! the cycle cost of the last instruction.

use vstd::prelude::*;

verus! {

#[derive(Clone, Copy, PartialEq, Eq, Structural, Debug)]
pub struct Registers {
    pub a: u8,
    pub b: u8,
    pub c: u8,
    pub d: u8,
    pub e: u8,
    pub h: u8,
    pub l: u8,
    /// Zero flag (bit 7 of F).
    pub flag_z: bool,
    /// Subtract flag (bit 6 of F).
    pub flag_n: bool,
    /// Half-carry flag (bit 5 of F).
    pub flag_h: bool,
    /// Carry flag (bit 4 of F).
    pub flag_c: bool,
    pub pc: u16,
    pub sp: u16,
    pub cycles_of_last_command: u8,
    pub interrupt_master_enable: bool,
    pub halt: bool,
}

/// One of the seven directly addressable 8-bit registers.
#[derive(Clone, Copy, PartialEq, Eq, Structural, Debug)]
pub enum Reg8 {
    A,
    B,
    C,
    D,
    E,
    H,
    L,
}

/// One of the three plain 16-bit register pairs (AF is special-cased by
/// PUSH/POP, which are the only instructions that touch it as a pair).
#[derive(Clone, Copy, PartialEq, Eq, Structural, Debug)]
pub enum Pair {
    BC,
    DE,
    HL,
}

/// A branch condition: Z or C, set or clear.
#[derive(Clone, Copy, PartialEq, Eq, Structural, Debug)]
pub enum Cond {
    NotZero,
    Zero,
    NotCarry,
    Carry,
}

pub open spec fn spec_to_u16(h: u8, l: u8) -> u16 {
    ((h as int) * 0x100 + l as int) as u16
}

pub open spec fn spec_high_byte(value: u16) -> u8 {
    (value / 0x100) as u8
}

pub open spec fn spec_low_byte(value: u16) -> u8 {
    (value % 0x100) as u8
}

/// An 8-bit immediate reinterpreted as a signed offset over 16 bits.
pub open spec fn spec_sign_extend(b: u8) -> u16 {
    if b < 0x80 {
        b as u16
    } else {
        (b as int + 0xFF00) as u16
    }
}

/// Combine a high and a low byte into a 16-bit value.
pub fn to_u16(h: u8, l: u8) -> (r: u16)
    ensures
        r == spec_to_u16(h, l),
{
    (h as u16) * 0x100 + l as u16
}

/// Split a 16-bit value into a register pair.
pub fn store_value_in_register_pair(value: u16, h: &mut u8, l: &mut u8)
    ensures
        *final(h) == spec_high_byte(value),
        *final(l) == spec_low_byte(value),
{
    *h = (value / 0x100) as u8;
    *l = (value % 0x100) as u8;
}

/// Decrement a register pair modulo 2^16.
pub fn decrement_register_pair(h: &mut u8, l: &mut u8)
    ensures
        *final(h) == spec_high_byte(spec_to_u16(*old(h), *old(l)).wrapping_sub(1)),
        *final(l) == spec_low_byte(spec_to_u16(*old(h), *old(l)).wrapping_sub(1)),
{
    let value = to_u16(*h, *l).wrapping_sub(1);
    store_value_in_register_pair(value, h, l);
}

/// Increment a register pair modulo 2^16.
pub fn increment_register_pair(h: &mut u8, l: &mut u8)
    ensures
        *final(h) == spec_high_byte(spec_to_u16(*old(h), *old(l)).wrapping_add(1)),
        *final(l) == spec_low_byte(spec_to_u16(*old(h), *old(l)).wrapping_add(1)),
{
    let value = to_u16(*h, *l).wrapping_add(1);
    store_value_in_register_pair(value, h, l);
}

/// Carry out of bit 7 and bit 3 of the 16-bit sum `a + b`, as used by the
/// stack-pointer offset instructions.
pub open spec fn spec_carry_u16(a: u16, b: u16) -> bool {
    (a as int) % 0x100 + (b as int) % 0x100 > 0xFF
}

pub open spec fn spec_halfcarry_u16(a: u16, b: u16) -> bool {
    (a as int) % 0x10 + (b as int) % 0x10 > 0xF
}

/// Carry and half-carry of a 16-bit addition on the low byte boundary
/// (carry, then half-carry).
pub fn test_carry_u16(a: u16, b: u16) -> (r: (bool, bool))
    ensures
        r.0 == spec_carry_u16(a, b),
        r.1 == spec_halfcarry_u16(a, b),
{
    let carry = (a % 0x100) + (b % 0x100) > 0xFF;
    let halfcarry = (a % 0x10) + (b % 0x10) > 0xF;
    (carry, halfcarry)
}

impl Registers {
    /// Power-on register file: everything clear, SP at the top of HRAM.
    pub fn new() -> (r: Registers)
        ensures
            r == Registers::spec_initial(),
    {
        Registers {
            a: 0,
            b: 0,
            c: 0,
            d: 0,
            e: 0,
            h: 0,
            l: 0,
            flag_z: false,
            flag_n: false,
            flag_h: false,
            flag_c: false,
            pc: 0x0,
            sp: 0xFFFE,
            cycles_of_last_command: 0,
            interrupt_master_enable: false,
            halt: false,
        }
    }

    pub open spec fn spec_initial() -> Registers {
        Registers {
            a: 0,
            b: 0,
            c: 0,
            d: 0,
            e: 0,
            h: 0,
            l: 0,
            flag_z: false,
            flag_n: false,
            flag_h: false,
            flag_c: false,
            pc: 0x0,
            sp: 0xFFFE,
            cycles_of_last_command: 0,
            interrupt_master_enable: false,
            halt: false,
        }
    }

    /// The flag register F as a byte: Z, N, H, C in the high nibble, the
    /// low nibble always zero.
    pub open spec fn spec_f(self) -> u8 {
        ((if self.flag_z {
            0x80int
        } else {
            0int
        }) + (if self.flag_n {
            0x40int
        } else {
            0int
        }) + (if self.flag_h {
            0x20int
        } else {
            0int
        }) + (if self.flag_c {
            0x10int
        } else {
            0int
        })) as u8
    }

    pub fn f_value(&self) -> (r: u8)
        ensures
            r == self.spec_f(),
    {
        let z: u8 = if self.flag_z {
            0x80
        } else {
            0
        };
        let n: u8 = if self.flag_n {
            0x40
        } else {
            0
        };
        let h: u8 = if self.flag_h {
            0x20
        } else {
            0
        };
        let c: u8 = if self.flag_c {
            0x10
        } else {
            0
        };
        z + n + h + c
    }

    pub open spec fn spec_get8(self, reg: Reg8) -> u8 {
        match reg {
            Reg8::A => self.a,
            Reg8::B => self.b,
            Reg8::C => self.c,
            Reg8::D => self.d,
            Reg8::E => self.e,
            Reg8::H => self.h,
            Reg8::L => self.l,
        }
    }

    pub open spec fn spec_set8(self, reg: Reg8, value: u8) -> Registers {
        match reg {
            Reg8::A => Registers { a: value, ..self },
            Reg8::B => Registers { b: value, ..self },
            Reg8::C => Registers { c: value, ..self },
            Reg8::D => Registers { d: value, ..self },
            Reg8::E => Registers { e: value, ..self },
            Reg8::H => Registers { h: value, ..self },
            Reg8::L => Registers { l: value, ..self },
        }
    }

    pub fn get8(&self, reg: Reg8) -> (r: u8)
        ensures
            r == self.spec_get8(reg),
    {
        match reg {
            Reg8::A => self.a,
            Reg8::B => self.b,
            Reg8::C => self.c,
            Reg8::D => self.d,
            Reg8::E => self.e,
            Reg8::H => self.h,
            Reg8::L => self.l,
        }
    }

    pub fn set8(&mut self, reg: Reg8, value: u8)
        ensures
            *final(self) == old(self).spec_set8(reg, value),
    {
        match reg {
            Reg8::A => self.a = value,
            Reg8::B => self.b = value,
            Reg8::C => self.c = value,
            Reg8::D => self.d = value,
            Reg8::E => self.e = value,
            Reg8::H => self.h = value,
            Reg8::L => self.l = value,
        }
    }

    pub open spec fn spec_get16(self, pair: Pair) -> u16 {
        match pair {
            Pair::BC => spec_to_u16(self.b, self.c),
            Pair::DE => spec_to_u16(self.d, self.e),
            Pair::HL => spec_to_u16(self.h, self.l),
        }
    }

    pub open spec fn spec_set16(self, pair: Pair, value: u16) -> Registers {
        match pair {
            Pair::BC => Registers {
                b: spec_high_byte(value),
                c: spec_low_byte(value),
                ..self
            },
            Pair::DE => Registers {
                d: spec_high_byte(value),
                e: spec_low_byte(value),
                ..self
            },
            Pair::HL => Registers {
                h: spec_high_byte(value),
                l: spec_low_byte(value),
                ..self
            },
        }
    }

    pub fn get16(&self, pair: Pair) -> (r: u16)
        ensures
            r == self.spec_get16(pair),
    {
        match pair {
            Pair::BC => to_u16(self.b, self.c),
            Pair::DE => to_u16(self.d, self.e),
            Pair::HL => to_u16(self.h, self.l),
        }
    }

    pub fn set16(&mut self, pair: Pair, value: u16)
        ensures
            *final(self) == old(self).spec_set16(pair, value),
    {
        let high = (value / 0x100) as u8;
        let low = (value % 0x100) as u8;
        match pair {
            Pair::BC => {
                self.b = high;
                self.c = low;
            }
            Pair::DE => {
                self.d = high;
                self.e = low;
            }
            Pair::HL => {
                self.h = high;
                self.l = low;
            }
        }
    }

    /// Whether a branch condition holds in the current flags.
    pub open spec fn spec_cond(self, cond: Cond) -> bool {
        match cond {
            Cond::NotZero => !self.flag_z,
            Cond::Zero => self.flag_z,
            Cond::NotCarry => !self.flag_c,
            Cond::Carry => self.flag_c,
        }
    }

    pub fn cond_holds(&self, cond: Cond) -> (r: bool)
        ensures
            r == self.spec_cond(cond),
    {
        match cond {
            Cond::NotZero => !self.flag_z,
            Cond::Zero => self.flag_z,
            Cond::NotCarry => !self.flag_c,
            Cond::Carry => self.flag_c,
        }
    }
}

/// The materialised flag byte always has a zero low nibble.
pub proof fn lemma_f_low_nibble_zero(r: Registers)
    ensures
        r.spec_f() & 0x0F == 0,
{
    let f = r.spec_f();
    assert(f % 0x10 == 0);
    assert(f & 0x0F == 0) by (bit_vector)
        requires
            f % 0x10 == 0,
    ;
}

} // verus!
