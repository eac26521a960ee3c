//! Shared instruction kernels: the 8-bit ALU, the rotate/shift group, the
//! bit-test group and the one-off arithmetic instructions, each as a pure
//! register transform.  A spec function gives the exact semantics; the
//! executable twin is bound to it.  The memory-operand variants reuse the
//! same kernels, with the operand value read and written by the dispatcher.

use vstd::prelude::*;

use crate::registers::Cond;
use crate::registers::Reg8;
use crate::registers::Registers;
use crate::registers::spec_sign_extend;
use crate::registers::spec_to_u16;
use crate::registers::spec_carry_u16;
use crate::registers::spec_halfcarry_u16;

verus! {

/// The eight accumulator operations of the 8-bit ALU block.
#[derive(Clone, Copy, PartialEq, Eq, Structural, Debug)]
pub enum AluOp {
    Add,
    Adc,
    Sub,
    Sbc,
    And,
    Xor,
    Or,
    Cp,
}

/// The eight rotate/shift operations of the extended opcode table.
#[derive(Clone, Copy, PartialEq, Eq, Structural, Debug)]
pub enum RotOp {
    Rlc,
    Rrc,
    Rl,
    Rr,
    Sla,
    Sra,
    Swap,
    Srl,
}

/// Advance the program counter by the instruction length and record its
/// cycle cost; everything else is untouched.
pub open spec fn spec_advance(r: Registers, len: u16, cycles: u8) -> Registers {
    Registers { pc: r.pc.wrapping_add(len), cycles_of_last_command: cycles, ..r }
}

pub fn op_advance(r: &mut Registers, len: u16, cycles: u8)
    ensures
        *final(r) == spec_advance(*old(r), len, cycles),
{
    r.pc = r.pc.wrapping_add(len);
    r.cycles_of_last_command = cycles;
}

/// The 8-bit ALU acting on A and an operand byte.  Z is set iff the result
/// is zero; N distinguishes additions from subtractions; H and C come from
/// the bit 3 / bit 7 boundaries; AND forces H, the other logical operations
/// clear H and C.  CP leaves A unchanged.
pub open spec fn spec_alu(r: Registers, op: AluOp, v: u8, len: u16, cycles: u8) -> Registers {
    let pc = r.pc.wrapping_add(len);
    match op {
        AluOp::Add => {
            let sum = r.a.wrapping_add(v);
            Registers {
                a: sum,
                flag_z: sum == 0,
                flag_n: false,
                flag_h: sum % 16 < r.a % 16,
                flag_c: sum < r.a,
                pc,
                cycles_of_last_command: cycles,
                ..r
            }
        }
        AluOp::Adc => {
            let carry: u8 = if r.flag_c {
                1
            } else {
                0
            };
            let sum = r.a.wrapping_add(v).wrapping_add(carry);
            Registers {
                a: sum,
                flag_z: sum == 0,
                flag_n: false,
                flag_h: if r.flag_c {
                    sum % 16 <= r.a % 16
                } else {
                    sum % 16 < r.a % 16
                },
                flag_c: if r.flag_c {
                    sum <= r.a
                } else {
                    sum < r.a
                },
                pc,
                cycles_of_last_command: cycles,
                ..r
            }
        }
        AluOp::Sub => {
            let difference = r.a.wrapping_sub(v);
            Registers {
                a: difference,
                flag_z: difference == 0,
                flag_n: true,
                flag_h: v % 16 > r.a % 16,
                flag_c: v > r.a,
                pc,
                cycles_of_last_command: cycles,
                ..r
            }
        }
        AluOp::Sbc => {
            let carry: u8 = if r.flag_c {
                1
            } else {
                0
            };
            let difference = r.a.wrapping_sub(v).wrapping_sub(carry);
            Registers {
                a: difference,
                flag_z: difference == 0,
                flag_n: true,
                flag_h: v % 16 + carry > r.a % 16,
                flag_c: v as int + carry > r.a,
                pc,
                cycles_of_last_command: cycles,
                ..r
            }
        }
        AluOp::And => {
            let res = r.a & v;
            Registers {
                a: res,
                flag_z: res == 0,
                flag_n: false,
                flag_h: true,
                flag_c: false,
                pc,
                cycles_of_last_command: cycles,
                ..r
            }
        }
        AluOp::Xor => {
            let res = r.a ^ v;
            Registers {
                a: res,
                flag_z: res == 0,
                flag_n: false,
                flag_h: false,
                flag_c: false,
                pc,
                cycles_of_last_command: cycles,
                ..r
            }
        }
        AluOp::Or => {
            let res = r.a | v;
            Registers {
                a: res,
                flag_z: res == 0,
                flag_n: false,
                flag_h: false,
                flag_c: false,
                pc,
                cycles_of_last_command: cycles,
                ..r
            }
        }
        AluOp::Cp => {
            let difference = r.a.wrapping_sub(v);
            Registers {
                flag_z: difference == 0,
                flag_n: true,
                flag_h: v % 16 > r.a % 16,
                flag_c: v > r.a,
                pc,
                cycles_of_last_command: cycles,
                ..r
            }
        }
    }
}

pub fn op_alu(r: &mut Registers, op: AluOp, v: u8, len: u16, cycles: u8)
    ensures
        *final(r) == spec_alu(*old(r), op, v, len, cycles),
{
    let a = r.a;
    match op {
        AluOp::Add => {
            let sum = a.wrapping_add(v);
            r.a = sum;
            r.flag_z = sum == 0;
            r.flag_n = false;
            r.flag_h = sum % 16 < a % 16;
            r.flag_c = sum < a;
        }
        AluOp::Adc => {
            let carry: u8 = if r.flag_c {
                1
            } else {
                0
            };
            let sum = a.wrapping_add(v).wrapping_add(carry);
            r.flag_h = if r.flag_c {
                sum % 16 <= a % 16
            } else {
                sum % 16 < a % 16
            };
            r.flag_c = if carry == 1 {
                sum <= a
            } else {
                sum < a
            };
            r.a = sum;
            r.flag_z = sum == 0;
            r.flag_n = false;
        }
        AluOp::Sub => {
            let difference = a.wrapping_sub(v);
            r.a = difference;
            r.flag_z = difference == 0;
            r.flag_n = true;
            r.flag_h = v % 16 > a % 16;
            r.flag_c = v > a;
        }
        AluOp::Sbc => {
            let carry: u8 = if r.flag_c {
                1
            } else {
                0
            };
            let difference = a.wrapping_sub(v).wrapping_sub(carry);
            r.a = difference;
            r.flag_z = difference == 0;
            r.flag_n = true;
            r.flag_h = v % 16 + carry > a % 16;
            r.flag_c = v as u16 + carry as u16 > a as u16;
        }
        AluOp::And => {
            let res = a & v;
            r.a = res;
            r.flag_z = res == 0;
            r.flag_n = false;
            r.flag_h = true;
            r.flag_c = false;
        }
        AluOp::Xor => {
            let res = a ^ v;
            r.a = res;
            r.flag_z = res == 0;
            r.flag_n = false;
            r.flag_h = false;
            r.flag_c = false;
        }
        AluOp::Or => {
            let res = a | v;
            r.a = res;
            r.flag_z = res == 0;
            r.flag_n = false;
            r.flag_h = false;
            r.flag_c = false;
        }
        AluOp::Cp => {
            let difference = a.wrapping_sub(v);
            r.flag_z = difference == 0;
            r.flag_n = true;
            r.flag_h = v % 16 > a % 16;
            r.flag_c = v > a;
        }
    }
    r.pc = r.pc.wrapping_add(len);
    r.cycles_of_last_command = cycles;
}

/// Value after an 8-bit increment.
pub open spec fn spec_inc_val(v: u8) -> u8 {
    v.wrapping_add(1)
}

/// Flag and bookkeeping effect of an 8-bit increment of `v`: Z and H from
/// the result, N cleared, C untouched.
pub open spec fn spec_inc_flags(r: Registers, v: u8, cycles: u8) -> Registers {
    Registers {
        flag_h: v % 16 == 0xF,
        flag_z: spec_inc_val(v) == 0,
        flag_n: false,
        pc: r.pc.wrapping_add(1),
        cycles_of_last_command: cycles,
        ..r
    }
}

pub fn op_inc_flags(r: &mut Registers, v: u8, cycles: u8) -> (new_val: u8)
    ensures
        *final(r) == spec_inc_flags(*old(r), v, cycles),
        new_val == spec_inc_val(v),
{
    let new_val = v.wrapping_add(1);
    r.flag_h = v % 16 == 0xF;
    r.flag_z = new_val == 0;
    r.flag_n = false;
    r.pc = r.pc.wrapping_add(1);
    r.cycles_of_last_command = cycles;
    new_val
}

pub fn op_inc_r(r: &mut Registers, reg: Reg8)
    ensures
        *final(r) == spec_inc_flags(*old(r), old(r).spec_get8(reg), 4).spec_set8(
            reg,
            spec_inc_val(old(r).spec_get8(reg)),
        ),
{
    let v = r.get8(reg);
    let new_val = op_inc_flags(r, v, 4);
    r.set8(reg, new_val);
}

/// Value after an 8-bit decrement.
pub open spec fn spec_dec_val(v: u8) -> u8 {
    v.wrapping_sub(1)
}

/// Flag and bookkeeping effect of an 8-bit decrement of `v`: Z and H from
/// the result, N set, C untouched.
pub open spec fn spec_dec_flags(r: Registers, v: u8, cycles: u8) -> Registers {
    Registers {
        flag_h: spec_dec_val(v) % 16 == 0xF,
        flag_z: spec_dec_val(v) == 0,
        flag_n: true,
        pc: r.pc.wrapping_add(1),
        cycles_of_last_command: cycles,
        ..r
    }
}

pub fn op_dec_flags(r: &mut Registers, v: u8, cycles: u8) -> (new_val: u8)
    ensures
        *final(r) == spec_dec_flags(*old(r), v, cycles),
        new_val == spec_dec_val(v),
{
    let new_val = v.wrapping_sub(1);
    r.flag_h = new_val % 16 == 0xF;
    r.flag_z = new_val == 0;
    r.flag_n = true;
    r.pc = r.pc.wrapping_add(1);
    r.cycles_of_last_command = cycles;
    new_val
}

pub fn op_dec_r(r: &mut Registers, reg: Reg8)
    ensures
        *final(r) == spec_dec_flags(*old(r), old(r).spec_get8(reg), 4).spec_set8(
            reg,
            spec_dec_val(old(r).spec_get8(reg)),
        ),
{
    let v = r.get8(reg);
    let new_val = op_dec_flags(r, v, 4);
    r.set8(reg, new_val);
}

/// 16-bit addition into HL: N cleared, H from the bit 11 boundary, C from
/// the bit 15 boundary, Z untouched.
pub open spec fn spec_add_hl(r: Registers, v: u16) -> Registers {
    let hl = spec_to_u16(r.h, r.l);
    let sum = hl.wrapping_add(v);
    Registers {
        h: (sum / 0x100) as u8,
        l: (sum % 0x100) as u8,
        flag_n: false,
        flag_h: sum % 0x1000 < hl % 0x1000,
        flag_c: sum < hl,
        pc: r.pc.wrapping_add(1),
        cycles_of_last_command: 8,
        ..r
    }
}

pub fn op_add_hl(r: &mut Registers, v: u16)
    ensures
        *final(r) == spec_add_hl(*old(r), v),
{
    let hl = crate::registers::to_u16(r.h, r.l);
    let sum = hl.wrapping_add(v);
    r.h = (sum / 0x100) as u8;
    r.l = (sum % 0x100) as u8;
    r.flag_n = false;
    r.flag_h = sum % 0x1000 < hl % 0x1000;
    r.flag_c = sum < hl;
    r.pc = r.pc.wrapping_add(1);
    r.cycles_of_last_command = 8;
}

/// The stack pointer plus a signed 8-bit offset, with the flags the two
/// SP-offset instructions share: Z and N cleared, C and H computed on the
/// low byte of the unsigned addition.
pub open spec fn spec_sp_offset_sum(sp: u16, b2: u8) -> u16 {
    sp.wrapping_add(spec_sign_extend(b2))
}

pub open spec fn spec_sp_offset_flags(r: Registers, b2: u8, cycles: u8) -> Registers {
    let offset = spec_sign_extend(b2);
    Registers {
        flag_z: false,
        flag_n: false,
        flag_c: spec_carry_u16(r.sp, offset),
        flag_h: spec_halfcarry_u16(r.sp, offset),
        pc: r.pc.wrapping_add(2),
        cycles_of_last_command: cycles,
        ..r
    }
}

/// Computes SP plus the signed immediate and sets the shared flags; the
/// caller stores the sum into SP or HL.
pub fn op_sp_offset(r: &mut Registers, b2: u8, cycles: u8) -> (sum: u16)
    ensures
        *final(r) == spec_sp_offset_flags(*old(r), b2, cycles),
        sum == spec_sp_offset_sum(old(r).sp, b2),
{
    let offset: u16 = if b2 < 0x80 {
        b2 as u16
    } else {
        b2 as u16 + 0xFF00
    };
    let sum = r.sp.wrapping_add(offset);
    r.flag_z = false;
    r.flag_n = false;
    let (carry, halfcarry) = crate::registers::test_carry_u16(r.sp, offset);
    r.flag_c = carry;
    r.flag_h = halfcarry;
    r.pc = r.pc.wrapping_add(2);
    r.cycles_of_last_command = cycles;
    sum
}

/// Result byte of a rotate/shift/swap of `v` with incoming carry `carry_in`.
pub open spec fn spec_rot_val(op: RotOp, v: u8, carry_in: bool) -> u8 {
    let cin: u8 = if carry_in {
        1
    } else {
        0
    };
    match op {
        RotOp::Rlc => ((v % 0x80) * 2 + v / 0x80) as u8,
        RotOp::Rrc => (v / 2 + (v % 2) * 0x80) as u8,
        RotOp::Rl => ((v % 0x80) * 2 + cin) as u8,
        RotOp::Rr => (v / 2 + cin * 0x80) as u8,
        RotOp::Sla => ((v % 0x80) * 2) as u8,
        RotOp::Sra => (v / 2 + (v / 0x80) * 0x80) as u8,
        RotOp::Swap => ((v % 0x10) * 0x10 + v / 0x10) as u8,
        RotOp::Srl => v / 2,
    }
}

/// Carry flag left by a rotate/shift/swap of `v`: the bit shifted out,
/// or clear for SWAP.
pub open spec fn spec_rot_carry(op: RotOp, v: u8) -> bool {
    match op {
        RotOp::Rlc | RotOp::Rl | RotOp::Sla => v >= 0x80,
        RotOp::Rrc | RotOp::Rr | RotOp::Sra | RotOp::Srl => v % 2 == 1,
        RotOp::Swap => false,
    }
}

pub fn op_rot_val(op: RotOp, v: u8, carry_in: bool) -> (res: (u8, bool))
    ensures
        res.0 == spec_rot_val(op, v, carry_in),
        res.1 == spec_rot_carry(op, v),
{
    let cin: u8 = if carry_in {
        1
    } else {
        0
    };
    let new_val = match op {
        RotOp::Rlc => (v % 0x80) * 2 + v / 0x80,
        RotOp::Rrc => v / 2 + (v % 2) * 0x80,
        RotOp::Rl => (v % 0x80) * 2 + cin,
        RotOp::Rr => v / 2 + cin * 0x80,
        RotOp::Sla => (v % 0x80) * 2,
        RotOp::Sra => v / 2 + (v / 0x80) * 0x80,
        RotOp::Swap => (v % 0x10) * 0x10 + v / 0x10,
        RotOp::Srl => v / 2,
    };
    let carry = match op {
        RotOp::Rlc | RotOp::Rl | RotOp::Sla => v >= 0x80,
        RotOp::Rrc | RotOp::Rr | RotOp::Sra | RotOp::Srl => v % 2 == 1,
        RotOp::Swap => false,
    };
    (new_val, carry)
}

/// Flag and bookkeeping effect of an extended-table rotate whose result is
/// `new_val`: Z reflects the result, N and H clear, C is the shifted-out
/// bit.
pub open spec fn spec_rot_flags(r: Registers, op: RotOp, v: u8, new_val: u8, cycles: u8) -> Registers {
    Registers {
        flag_z: new_val == 0,
        flag_n: false,
        flag_h: false,
        flag_c: spec_rot_carry(op, v),
        pc: r.pc.wrapping_add(2),
        cycles_of_last_command: cycles,
        ..r
    }
}

/// An extended-table rotate of a plain register.
pub fn op_rot_r(r: &mut Registers, op: RotOp, reg: Reg8)
    ensures
        *final(r) == spec_rot_flags(
            *old(r),
            op,
            old(r).spec_get8(reg),
            spec_rot_val(op, old(r).spec_get8(reg), old(r).flag_c),
            8,
        ).spec_set8(reg, spec_rot_val(op, old(r).spec_get8(reg), old(r).flag_c)),
{
    let v = r.get8(reg);
    let (new_val, carry) = op_rot_val(op, v, r.flag_c);
    r.flag_z = new_val == 0;
    r.flag_n = false;
    r.flag_h = false;
    r.flag_c = carry;
    r.pc = r.pc.wrapping_add(2);
    r.cycles_of_last_command = 8;
    r.set8(reg, new_val);
}

/// The single-byte accumulator rotates RLCA, RLA, RRCA and RRA: like the
/// extended table but one byte long, four cycles, and Z forced clear.
pub open spec fn spec_rot_a(r: Registers, op: RotOp) -> Registers {
    let new_val = spec_rot_val(op, r.a, r.flag_c);
    Registers {
        a: new_val,
        flag_z: false,
        flag_n: false,
        flag_h: false,
        flag_c: spec_rot_carry(op, r.a),
        pc: r.pc.wrapping_add(1),
        cycles_of_last_command: 4,
        ..r
    }
}

pub fn op_rot_a(r: &mut Registers, op: RotOp)
    ensures
        *final(r) == spec_rot_a(*old(r), op),
{
    let v = r.a;
    let (new_val, carry) = op_rot_val(op, v, r.flag_c);
    r.a = new_val;
    r.flag_z = false;
    r.flag_n = false;
    r.flag_h = false;
    r.flag_c = carry;
    r.pc = r.pc.wrapping_add(1);
    r.cycles_of_last_command = 4;
}

/// Flag effect of BIT b: Z is the complement of the tested bit, N clear,
/// H set, C untouched.
pub open spec fn spec_bit_flags(r: Registers, bit: u8, v: u8, cycles: u8) -> Registers {
    Registers {
        flag_z: v & (1u8 << bit) == 0,
        flag_n: false,
        flag_h: true,
        pc: r.pc.wrapping_add(2),
        cycles_of_last_command: cycles,
        ..r
    }
}

pub fn op_bit(r: &mut Registers, bit: u8, v: u8, cycles: u8)
    requires
        bit < 8,
    ensures
        *final(r) == spec_bit_flags(*old(r), bit, v, cycles),
{
    r.flag_z = v & (1u8 << bit) == 0;
    r.flag_n = false;
    r.flag_h = true;
    r.pc = r.pc.wrapping_add(2);
    r.cycles_of_last_command = cycles;
}

/// Value with bit `bit` set.
pub open spec fn spec_set_bit_val(v: u8, bit: u8) -> u8 {
    v | (1u8 << bit)
}

/// Value with bit `bit` cleared.
pub open spec fn spec_res_bit_val(v: u8, bit: u8) -> u8 {
    v & !(1u8 << bit)
}

pub fn op_set_bit_r(r: &mut Registers, bit: u8, reg: Reg8)
    requires
        bit < 8,
    ensures
        *final(r) == spec_advance(*old(r), 2, 8).spec_set8(
            reg,
            spec_set_bit_val(old(r).spec_get8(reg), bit),
        ),
{
    let v = r.get8(reg);
    r.set8(reg, v | (1u8 << bit));
    r.pc = r.pc.wrapping_add(2);
    r.cycles_of_last_command = 8;
}

pub fn op_res_bit_r(r: &mut Registers, bit: u8, reg: Reg8)
    requires
        bit < 8,
    ensures
        *final(r) == spec_advance(*old(r), 2, 8).spec_set8(
            reg,
            spec_res_bit_val(old(r).spec_get8(reg), bit),
        ),
{
    let v = r.get8(reg);
    r.set8(reg, v & !(1u8 << bit));
    r.pc = r.pc.wrapping_add(2);
    r.cycles_of_last_command = 8;
}

/// The BCD adjust of A after an addition or subtraction, exactly as the
/// interpreter performs it; H ends clear, C records a correction in the
/// high digit.
pub open spec fn spec_daa(r: Registers) -> Registers {
    let a = r.a;
    let low = a % 16;
    let pc = r.pc.wrapping_add(1);
    if !r.flag_n {
        let v1 = if r.flag_c || a > 0x99 {
            a.wrapping_add(0x60)
        } else {
            a
        };
        let carry = r.flag_c || a > 0x99;
        let v2 = if r.flag_h || low > 0x9 {
            v1.wrapping_add(0x6)
        } else {
            v1
        };
        Registers {
            a: v2,
            flag_z: v2 == 0,
            flag_h: false,
            flag_c: carry,
            pc,
            cycles_of_last_command: 4,
            ..r
        }
    } else if r.flag_c {
        let v = a.wrapping_add(
            if r.flag_h {
                0x9A
            } else {
                0xA0
            },
        );
        Registers {
            a: v,
            flag_z: v == 0,
            flag_h: false,
            flag_c: true,
            pc,
            cycles_of_last_command: 4,
            ..r
        }
    } else if r.flag_h {
        let v = a.wrapping_add(0xFA);
        Registers {
            a: v,
            flag_z: v == 0,
            flag_h: false,
            flag_c: false,
            pc,
            cycles_of_last_command: 4,
            ..r
        }
    } else {
        Registers {
            flag_z: a == 0,
            flag_h: false,
            flag_c: false,
            pc,
            cycles_of_last_command: 4,
            ..r
        }
    }
}

pub fn op_daa(r: &mut Registers)
    ensures
        *final(r) == spec_daa(*old(r)),
{
    let old_halfcarry = r.flag_h;
    let old_carry = r.flag_c;
    let operation = r.flag_n;
    let mut val = r.a;
    let low_nibble = val % 16;
    let mut carry = false;
    if !operation {
        if old_carry || val > 0x99 {
            val = val.wrapping_add(0x60);
            carry = true;
        }
        if old_halfcarry || low_nibble > 0x9 {
            val = val.wrapping_add(0x6);
        }
    } else if old_carry {
        carry = true;
        val = val.wrapping_add(
            if old_halfcarry {
                0x9A
            } else {
                0xA0
            },
        );
    } else if old_halfcarry {
        val = val.wrapping_add(0xFA);
    }
    r.a = val;
    r.flag_z = val == 0;
    r.flag_h = false;
    r.flag_c = carry;
    r.pc = r.pc.wrapping_add(1);
    r.cycles_of_last_command = 4;
}

/// CPL: complement A; N and H set.
pub open spec fn spec_cpl(r: Registers) -> Registers {
    Registers {
        a: r.a ^ 0xFF,
        flag_n: true,
        flag_h: true,
        pc: r.pc.wrapping_add(1),
        cycles_of_last_command: 4,
        ..r
    }
}

pub fn op_cpl(r: &mut Registers)
    ensures
        *final(r) == spec_cpl(*old(r)),
{
    r.a = r.a ^ 0xFF;
    r.flag_n = true;
    r.flag_h = true;
    r.pc = r.pc.wrapping_add(1);
    r.cycles_of_last_command = 4;
}

/// CCF: toggle C; N and H clear.
pub open spec fn spec_ccf(r: Registers) -> Registers {
    Registers {
        flag_c: !r.flag_c,
        flag_n: false,
        flag_h: false,
        pc: r.pc.wrapping_add(1),
        cycles_of_last_command: 4,
        ..r
    }
}

pub fn op_ccf(r: &mut Registers)
    ensures
        *final(r) == spec_ccf(*old(r)),
{
    r.flag_c = !r.flag_c;
    r.flag_n = false;
    r.flag_h = false;
    r.pc = r.pc.wrapping_add(1);
    r.cycles_of_last_command = 4;
}

/// SCF: set C; N and H clear.
pub open spec fn spec_scf(r: Registers) -> Registers {
    Registers {
        flag_c: true,
        flag_n: false,
        flag_h: false,
        pc: r.pc.wrapping_add(1),
        cycles_of_last_command: 4,
        ..r
    }
}

pub fn op_scf(r: &mut Registers)
    ensures
        *final(r) == spec_scf(*old(r)),
{
    r.flag_c = true;
    r.flag_n = false;
    r.flag_h = false;
    r.pc = r.pc.wrapping_add(1);
    r.cycles_of_last_command = 4;
}

/// A relative jump: the offset is signed and taken from the byte after the
/// opcode, relative to the instruction's end.
pub open spec fn spec_jr(r: Registers, b2: u8, taken: bool) -> Registers {
    let base = r.pc.wrapping_add(2);
    Registers {
        pc: if taken {
            base.wrapping_add(spec_sign_extend(b2))
        } else {
            base
        },
        cycles_of_last_command: 8,
        ..r
    }
}

pub fn op_jr(r: &mut Registers, b2: u8, taken: bool)
    ensures
        *final(r) == spec_jr(*old(r), b2, taken),
{
    let base = r.pc.wrapping_add(2);
    let offset: u16 = if b2 < 0x80 {
        b2 as u16
    } else {
        b2 as u16 + 0xFF00
    };
    r.pc = if taken {
        base.wrapping_add(offset)
    } else {
        base
    };
    r.cycles_of_last_command = 8;
}

/// An absolute jump, or fall-through when the condition fails.
pub open spec fn spec_jp(r: Registers, target: u16, taken: bool) -> Registers {
    Registers {
        pc: if taken {
            target
        } else {
            r.pc.wrapping_add(3)
        },
        cycles_of_last_command: 12,
        ..r
    }
}

pub fn op_jp(r: &mut Registers, target: u16, taken: bool)
    ensures
        *final(r) == spec_jp(*old(r), target, taken),
{
    r.pc = if taken {
        target
    } else {
        r.pc.wrapping_add(3)
    };
    r.cycles_of_last_command = 12;
}

/// Whether a branch condition holds (spec mirror of `Registers::spec_cond`,
/// re-exported here for the dispatcher).
pub open spec fn spec_cond_holds(r: Registers, cond: Cond) -> bool {
    r.spec_cond(cond)
}

} // verus!
