//! The CPU: fetch, decode and execute over the full primary opcode table
//! and the 0xCB-prefixed extended table, interrupt dispatch, and HALT.
//!
//! The semantics of one step is given by the spec interpreter
//! (`spec_cycle` and the `spec_exec_*` family); the executable interpreter
//! is verified to implement it exactly, over any `Memory`.

use vstd::prelude::*;

use crate::cpu_ops::AluOp;
use crate::cpu_ops::RotOp;
use crate::cpu_ops::op_add_hl;
use crate::cpu_ops::op_advance;
use crate::cpu_ops::op_alu;
use crate::cpu_ops::op_bit;
use crate::cpu_ops::op_ccf;
use crate::cpu_ops::op_cpl;
use crate::cpu_ops::op_daa;
use crate::cpu_ops::op_dec_flags;
use crate::cpu_ops::op_dec_r;
use crate::cpu_ops::op_inc_flags;
use crate::cpu_ops::op_inc_r;
use crate::cpu_ops::op_jp;
use crate::cpu_ops::op_jr;
use crate::cpu_ops::op_res_bit_r;
use crate::cpu_ops::op_rot_a;
use crate::cpu_ops::op_rot_r;
use crate::cpu_ops::op_rot_val;
use crate::cpu_ops::op_scf;
use crate::cpu_ops::op_set_bit_r;
use crate::cpu_ops::op_sp_offset;
use crate::cpu_ops::spec_add_hl;
use crate::cpu_ops::spec_advance;
use crate::cpu_ops::spec_alu;
use crate::cpu_ops::spec_bit_flags;
use crate::cpu_ops::spec_cpl;
use crate::cpu_ops::spec_ccf;
use crate::cpu_ops::spec_daa;
use crate::cpu_ops::spec_dec_flags;
use crate::cpu_ops::spec_dec_val;
use crate::cpu_ops::spec_inc_flags;
use crate::cpu_ops::spec_inc_val;
use crate::cpu_ops::spec_jr;
use crate::cpu_ops::spec_jp;
use crate::cpu_ops::spec_res_bit_val;
use crate::cpu_ops::spec_rot_a;
use crate::cpu_ops::spec_rot_flags;
use crate::cpu_ops::spec_rot_val;
use crate::cpu_ops::spec_scf;
use crate::cpu_ops::spec_set_bit_val;
use crate::cpu_ops::spec_sp_offset_flags;
use crate::cpu_ops::spec_sp_offset_sum;
use crate::memory::Memory;
use crate::registers::Cond;
use crate::registers::Pair;
use crate::registers::Reg8;
use crate::registers::Registers;
use crate::registers::lemma_f_low_nibble_zero;
use crate::registers::spec_to_u16;
use crate::registers::to_u16;

verus! {

/// Machine cycles per second of the emulated clock.
pub const CLOCK_SPEED_IN_HERTZ: u64 = 4_194_304;

/// The opcode byte and the two bytes that follow it; instructions use as
/// many of the operand bytes as their length asks for.
#[derive(Clone, Copy, PartialEq, Eq, Structural, Debug)]
pub struct Opcode {
    pub b1: u8,
    pub b2: u8,
    pub b3: u8,
}

/// Diagnostic for a fetch of an opcode outside the instruction set: the
/// program counter, the three fetched bytes and a register dump.
#[derive(Clone, Copy, PartialEq, Eq, Structural, Debug)]
pub struct DecodeError {
    pub pc: u16,
    pub opcode: Opcode,
    pub registers: Registers,
}

/// The five interrupt sources, in dispatch priority order.
#[derive(Clone, Copy, PartialEq, Eq, Structural, Debug)]
pub enum Interrupt {
    VerticalBlank,
    LcdStatus,
    Timer,
    Serial,
    Keypad,
}

impl Interrupt {
    pub open spec fn spec_bitmask(self) -> u8 {
        match self {
            Interrupt::VerticalBlank => 0x01,
            Interrupt::LcdStatus => 0x02,
            Interrupt::Timer => 0x04,
            Interrupt::Serial => 0x08,
            Interrupt::Keypad => 0x10,
        }
    }

    pub open spec fn spec_handler_address(self) -> u16 {
        match self {
            Interrupt::VerticalBlank => 0x40,
            Interrupt::LcdStatus => 0x48,
            Interrupt::Timer => 0x50,
            Interrupt::Serial => 0x58,
            Interrupt::Keypad => 0x60,
        }
    }

    pub fn to_bitmask(&self) -> (r: u8)
        ensures
            r == self.spec_bitmask(),
    {
        match *self {
            Interrupt::VerticalBlank => 0x01,
            Interrupt::LcdStatus => 0x02,
            Interrupt::Timer => 0x04,
            Interrupt::Serial => 0x08,
            Interrupt::Keypad => 0x10,
        }
    }

    pub fn handler_address(&self) -> (r: u16)
        ensures
            r == self.spec_handler_address(),
    {
        match *self {
            Interrupt::VerticalBlank => 0x40,
            Interrupt::LcdStatus => 0x48,
            Interrupt::Timer => 0x50,
            Interrupt::Serial => 0x58,
            Interrupt::Keypad => 0x60,
        }
    }
}

/// The eleven primary opcodes that no instruction occupies; fetching one
/// is a fatal decode error.
pub open spec fn spec_is_undefined(b1: u8) -> bool {
    b1 == 0xD3 || b1 == 0xDB || b1 == 0xDD || b1 == 0xE3 || b1 == 0xE4 || b1 == 0xEB || b1 == 0xEC
        || b1 == 0xED || b1 == 0xF4 || b1 == 0xFC || b1 == 0xFD
}

pub fn is_undefined_opcode(b1: u8) -> (r: bool)
    ensures
        r == spec_is_undefined(b1),
{
    b1 == 0xD3 || b1 == 0xDB || b1 == 0xDD || b1 == 0xE3 || b1 == 0xE4 || b1 == 0xEB || b1 == 0xEC
        || b1 == 0xED || b1 == 0xF4 || b1 == 0xFC || b1 == 0xFD
}

// Spec shorthands over an abstract memory view.
pub open spec fn rd<M: Memory>(m: M::V, address: u16) -> u8 {
    M::spec_read_v(m, address)
}

pub open spec fn wr<M: Memory>(m: M::V, address: u16, value: u8) -> M::V {
    M::spec_write_v(m, address, value)
}

pub open spec fn rdw<M: Memory>(m: M::V, address: u16) -> u16 {
    ((rd::<M>(m, address.wrapping_add(1)) as int) * 0x100 + rd::<M>(m, address) as int) as u16
}

pub open spec fn wrw<M: Memory>(m: M::V, address: u16, value: u16) -> M::V {
    wr::<M>(
        wr::<M>(m, address, (value % 0x100) as u8),
        address.wrapping_add(1),
        (value / 0x100) as u8,
    )
}

/// Register operand encoding used by the regular opcode blocks: B, C, D,
/// E, H, L, (HL), A; `None` is the memory operand (HL).
pub open spec fn spec_reg_code(code: u8) -> Option<Reg8> {
    match code {
        0 => Some(Reg8::B),
        1 => Some(Reg8::C),
        2 => Some(Reg8::D),
        3 => Some(Reg8::E),
        4 => Some(Reg8::H),
        5 => Some(Reg8::L),
        7 => Some(Reg8::A),
        _ => None,
    }
}

pub fn reg_code(code: u8) -> (r: Option<Reg8>)
    ensures
        r == spec_reg_code(code),
{
    match code {
        0 => Some(Reg8::B),
        1 => Some(Reg8::C),
        2 => Some(Reg8::D),
        3 => Some(Reg8::E),
        4 => Some(Reg8::H),
        5 => Some(Reg8::L),
        7 => Some(Reg8::A),
        _ => None,
    }
}

/// ALU operation encoding of the 0x80..0xBF block and of the immediate
/// variants.
pub open spec fn spec_alu_code(code: u8) -> AluOp {
    match code {
        0 => AluOp::Add,
        1 => AluOp::Adc,
        2 => AluOp::Sub,
        3 => AluOp::Sbc,
        4 => AluOp::And,
        5 => AluOp::Xor,
        6 => AluOp::Or,
        _ => AluOp::Cp,
    }
}

pub fn alu_code(code: u8) -> (r: AluOp)
    ensures
        r == spec_alu_code(code),
{
    match code {
        0 => AluOp::Add,
        1 => AluOp::Adc,
        2 => AluOp::Sub,
        3 => AluOp::Sbc,
        4 => AluOp::And,
        5 => AluOp::Xor,
        6 => AluOp::Or,
        _ => AluOp::Cp,
    }
}

/// Rotate/shift operation encoding of the first extended-table quarter.
pub open spec fn spec_rot_code(code: u8) -> RotOp {
    match code {
        0 => RotOp::Rlc,
        1 => RotOp::Rrc,
        2 => RotOp::Rl,
        3 => RotOp::Rr,
        4 => RotOp::Sla,
        5 => RotOp::Sra,
        6 => RotOp::Swap,
        _ => RotOp::Srl,
    }
}

pub fn rot_code(code: u8) -> (r: RotOp)
    ensures
        r == spec_rot_code(code),
{
    match code {
        0 => RotOp::Rlc,
        1 => RotOp::Rrc,
        2 => RotOp::Rl,
        3 => RotOp::Rr,
        4 => RotOp::Sla,
        5 => RotOp::Sra,
        6 => RotOp::Swap,
        _ => RotOp::Srl,
    }
}

/// Effect of the opcodes 0x00..0x3F: the irregular block of 16-bit loads,
/// increments, rotates of A, relative jumps and one-off instructions.
pub open spec fn spec_exec_00_3f<M: Memory>(b1: u8, b2: u8, b3: u8, r: Registers, m: M::V) -> (
    Registers,
    M::V,
) {
    let hl = spec_to_u16(r.h, r.l);
    let nn = spec_to_u16(b3, b2);
    match b1 {
        0x00 => (spec_advance(r, 1, 4), m),
        0x01 => (spec_advance(r, 3, 12).spec_set16(Pair::BC, nn), m),
        0x02 => (spec_advance(r, 1, 8), wr::<M>(m, spec_to_u16(r.b, r.c), r.a)),
        0x03 => (
            spec_advance(r, 1, 8).spec_set16(Pair::BC, r.spec_get16(Pair::BC).wrapping_add(1)),
            m,
        ),
        0x04 => (spec_inc_flags(r, r.b, 4).spec_set8(Reg8::B, spec_inc_val(r.b)), m),
        0x05 => (spec_dec_flags(r, r.b, 4).spec_set8(Reg8::B, spec_dec_val(r.b)), m),
        0x06 => (spec_advance(r, 2, 8).spec_set8(Reg8::B, b2), m),
        0x07 => (spec_rot_a(r, RotOp::Rlc), m),
        0x08 => (spec_advance(r, 3, 20), wrw::<M>(m, nn, r.sp)),
        0x09 => (spec_add_hl(r, r.spec_get16(Pair::BC)), m),
        0x0A => (spec_advance(r, 1, 8).spec_set8(Reg8::A, rd::<M>(m, spec_to_u16(r.b, r.c))), m),
        0x0B => (
            spec_advance(r, 1, 8).spec_set16(Pair::BC, r.spec_get16(Pair::BC).wrapping_sub(1)),
            m,
        ),
        0x0C => (spec_inc_flags(r, r.c, 4).spec_set8(Reg8::C, spec_inc_val(r.c)), m),
        0x0D => (spec_dec_flags(r, r.c, 4).spec_set8(Reg8::C, spec_dec_val(r.c)), m),
        0x0E => (spec_advance(r, 2, 8).spec_set8(Reg8::C, b2), m),
        0x0F => (spec_rot_a(r, RotOp::Rrc), m),
        0x10 => (spec_advance(r, 2, 4), m),
        0x11 => (spec_advance(r, 3, 12).spec_set16(Pair::DE, nn), m),
        0x12 => (spec_advance(r, 1, 8), wr::<M>(m, spec_to_u16(r.d, r.e), r.a)),
        0x13 => (
            spec_advance(r, 1, 8).spec_set16(Pair::DE, r.spec_get16(Pair::DE).wrapping_add(1)),
            m,
        ),
        0x14 => (spec_inc_flags(r, r.d, 4).spec_set8(Reg8::D, spec_inc_val(r.d)), m),
        0x15 => (spec_dec_flags(r, r.d, 4).spec_set8(Reg8::D, spec_dec_val(r.d)), m),
        0x16 => (spec_advance(r, 2, 8).spec_set8(Reg8::D, b2), m),
        0x17 => (spec_rot_a(r, RotOp::Rl), m),
        0x18 => (spec_jr(r, b2, true), m),
        0x19 => (spec_add_hl(r, r.spec_get16(Pair::DE)), m),
        0x1A => (spec_advance(r, 1, 8).spec_set8(Reg8::A, rd::<M>(m, spec_to_u16(r.d, r.e))), m),
        0x1B => (
            spec_advance(r, 1, 8).spec_set16(Pair::DE, r.spec_get16(Pair::DE).wrapping_sub(1)),
            m,
        ),
        0x1C => (spec_inc_flags(r, r.e, 4).spec_set8(Reg8::E, spec_inc_val(r.e)), m),
        0x1D => (spec_dec_flags(r, r.e, 4).spec_set8(Reg8::E, spec_dec_val(r.e)), m),
        0x1E => (spec_advance(r, 2, 8).spec_set8(Reg8::E, b2), m),
        0x1F => (spec_rot_a(r, RotOp::Rr), m),
        0x20 => (spec_jr(r, b2, !r.flag_z), m),
        0x21 => (spec_advance(r, 3, 12).spec_set16(Pair::HL, nn), m),
        0x22 => (
            spec_advance(r, 1, 8).spec_set16(Pair::HL, hl.wrapping_add(1)),
            wr::<M>(m, hl, r.a),
        ),
        0x23 => (spec_advance(r, 1, 8).spec_set16(Pair::HL, hl.wrapping_add(1)), m),
        0x24 => (spec_inc_flags(r, r.h, 4).spec_set8(Reg8::H, spec_inc_val(r.h)), m),
        0x25 => (spec_dec_flags(r, r.h, 4).spec_set8(Reg8::H, spec_dec_val(r.h)), m),
        0x26 => (spec_advance(r, 2, 8).spec_set8(Reg8::H, b2), m),
        0x27 => (spec_daa(r), m),
        0x28 => (spec_jr(r, b2, r.flag_z), m),
        0x29 => (spec_add_hl(r, hl), m),
        0x2A => (
            spec_advance(r, 1, 8).spec_set8(Reg8::A, rd::<M>(m, hl)).spec_set16(
                Pair::HL,
                hl.wrapping_add(1),
            ),
            m,
        ),
        0x2B => (spec_advance(r, 1, 8).spec_set16(Pair::HL, hl.wrapping_sub(1)), m),
        0x2C => (spec_inc_flags(r, r.l, 4).spec_set8(Reg8::L, spec_inc_val(r.l)), m),
        0x2D => (spec_dec_flags(r, r.l, 4).spec_set8(Reg8::L, spec_dec_val(r.l)), m),
        0x2E => (spec_advance(r, 2, 8).spec_set8(Reg8::L, b2), m),
        0x2F => (spec_cpl(r), m),
        0x30 => (spec_jr(r, b2, !r.flag_c), m),
        0x31 => (Registers { sp: nn, ..spec_advance(r, 3, 12) }, m),
        0x32 => (
            spec_advance(r, 1, 8).spec_set16(Pair::HL, hl.wrapping_sub(1)),
            wr::<M>(m, hl, r.a),
        ),
        0x33 => (Registers { sp: r.sp.wrapping_add(1), ..spec_advance(r, 1, 8) }, m),
        0x34 => (
            spec_inc_flags(r, rd::<M>(m, hl), 12),
            wr::<M>(m, hl, spec_inc_val(rd::<M>(m, hl))),
        ),
        0x35 => (
            spec_dec_flags(r, rd::<M>(m, hl), 12),
            wr::<M>(m, hl, spec_dec_val(rd::<M>(m, hl))),
        ),
        0x36 => (spec_advance(r, 2, 12), wr::<M>(m, hl, b2)),
        0x37 => (spec_scf(r), m),
        0x38 => (spec_jr(r, b2, r.flag_c), m),
        0x39 => (spec_add_hl(r, r.sp), m),
        0x3A => (
            spec_advance(r, 1, 8).spec_set8(Reg8::A, rd::<M>(m, hl)).spec_set16(
                Pair::HL,
                hl.wrapping_sub(1),
            ),
            m,
        ),
        0x3B => (Registers { sp: r.sp.wrapping_sub(1), ..spec_advance(r, 1, 8) }, m),
        0x3C => (spec_inc_flags(r, r.a, 4).spec_set8(Reg8::A, spec_inc_val(r.a)), m),
        0x3D => (spec_dec_flags(r, r.a, 4).spec_set8(Reg8::A, spec_dec_val(r.a)), m),
        0x3E => (spec_advance(r, 2, 8).spec_set8(Reg8::A, b2), m),
        _ => (spec_ccf(r), m),
    }
}

/// Effect of the opcodes 0x40..0x7F: the regular 8-bit load block, with
/// HALT in the (HL),(HL) slot.
pub open spec fn spec_exec_40_7f<M: Memory>(b1: u8, r: Registers, m: M::V) -> (Registers, M::V) {
    if b1 == 0x76 {
        (Registers { halt: true, ..spec_advance(r, 1, 4) }, m)
    } else {
        let dst = spec_reg_code(((b1 - 0x40) / 8) as u8);
        let src = spec_reg_code((b1 % 8) as u8);
        let hl = spec_to_u16(r.h, r.l);
        match (dst, src) {
            (Some(d), Some(s)) => (spec_advance(r, 1, 4).spec_set8(d, r.spec_get8(s)), m),
            (Some(d), None) => (spec_advance(r, 1, 8).spec_set8(d, rd::<M>(m, hl)), m),
            (None, Some(s)) => (spec_advance(r, 1, 8), wr::<M>(m, hl, r.spec_get8(s))),
            (None, None) => (r, m),
        }
    }
}

/// Effect of the opcodes 0x80..0xBF: the regular ALU block.
pub open spec fn spec_exec_80_bf<M: Memory>(b1: u8, r: Registers, m: M::V) -> (Registers, M::V) {
    let op = spec_alu_code(((b1 - 0x80) / 8) as u8);
    match spec_reg_code((b1 % 8) as u8) {
        Some(s) => (spec_alu(r, op, r.spec_get8(s), 1, 4), m),
        None => (spec_alu(r, op, rd::<M>(m, spec_to_u16(r.h, r.l)), 1, 8), m),
    }
}

/// Effect of a PUSH of `value`.
pub open spec fn spec_push<M: Memory>(r: Registers, m: M::V, value: u16) -> (Registers, M::V) {
    let sp = r.sp.wrapping_sub(2);
    (
        Registers { sp, pc: r.pc.wrapping_add(1), cycles_of_last_command: 16, ..r },
        wrw::<M>(m, sp, value),
    )
}

/// Effect of a POP into a plain register pair.
pub open spec fn spec_pop<M: Memory>(r: Registers, m: M::V, pair: Pair) -> Registers {
    Registers {
        sp: r.sp.wrapping_add(2),
        pc: r.pc.wrapping_add(1),
        cycles_of_last_command: 12,
        ..r
    }.spec_set16(pair, rdw::<M>(m, r.sp))
}

/// Effect of POP AF: the flag byte takes only its high nibble.
pub open spec fn spec_pop_af<M: Memory>(r: Registers, m: M::V) -> Registers {
    let value = rdw::<M>(m, r.sp);
    Registers {
        a: (value / 0x100) as u8,
        flag_z: value & 0x80 != 0,
        flag_n: value & 0x40 != 0,
        flag_h: value & 0x20 != 0,
        flag_c: value & 0x10 != 0,
        sp: r.sp.wrapping_add(2),
        pc: r.pc.wrapping_add(1),
        cycles_of_last_command: 12,
        ..r
    }
}

/// Effect of CALL nn (when taken): push the fall-through address and jump.
pub open spec fn spec_call<M: Memory>(r: Registers, m: M::V, target: u16) -> (Registers, M::V) {
    let sp = r.sp.wrapping_sub(2);
    (
        Registers { sp, pc: target, cycles_of_last_command: 12, ..r },
        wrw::<M>(m, sp, r.pc.wrapping_add(3)),
    )
}

/// Effect of a conditional CALL.
pub open spec fn spec_call_cc<M: Memory>(r: Registers, m: M::V, target: u16, taken: bool) -> (
    Registers,
    M::V,
) {
    if taken {
        spec_call::<M>(r, m, target)
    } else {
        (Registers { pc: r.pc.wrapping_add(3), cycles_of_last_command: 12, ..r }, m)
    }
}

/// Effect of RST: push the address after the opcode and jump to the fixed
/// target.
pub open spec fn spec_rst<M: Memory>(r: Registers, m: M::V, target: u16) -> (Registers, M::V) {
    let sp = r.sp.wrapping_sub(2);
    (
        Registers { sp, pc: target, cycles_of_last_command: 32, ..r },
        wrw::<M>(m, sp, r.pc.wrapping_add(1)),
    )
}

/// Effect of RET (when taken).
pub open spec fn spec_ret<M: Memory>(r: Registers, m: M::V) -> Registers {
    Registers {
        pc: rdw::<M>(m, r.sp),
        sp: r.sp.wrapping_add(2),
        cycles_of_last_command: 8,
        ..r
    }
}

/// Effect of a conditional RET.
pub open spec fn spec_ret_cc<M: Memory>(r: Registers, m: M::V, taken: bool) -> Registers {
    if taken {
        spec_ret::<M>(r, m)
    } else {
        Registers { pc: r.pc.wrapping_add(1), cycles_of_last_command: 8, ..r }
    }
}

/// Effect of the extended (0xCB-prefixed) table, indexed by its second
/// byte: rotates and shifts, BIT, RES and SET.
pub open spec fn spec_exec_cb<M: Memory>(b2: u8, r: Registers, m: M::V) -> (Registers, M::V) {
    let target = spec_reg_code((b2 % 8) as u8);
    let hl = spec_to_u16(r.h, r.l);
    if b2 < 0x40 {
        let op = spec_rot_code((b2 / 8) as u8);
        match target {
            Some(t) => {
                let v = r.spec_get8(t);
                let nv = spec_rot_val(op, v, r.flag_c);
                (spec_rot_flags(r, op, v, nv, 8).spec_set8(t, nv), m)
            }
            None => {
                let v = rd::<M>(m, hl);
                let nv = spec_rot_val(op, v, r.flag_c);
                (spec_rot_flags(r, op, v, nv, 16), wr::<M>(m, hl, nv))
            }
        }
    } else if b2 < 0x80 {
        let bit = ((b2 - 0x40) / 8) as u8;
        match target {
            Some(t) => (spec_bit_flags(r, bit, r.spec_get8(t), 8), m),
            None => (spec_bit_flags(r, bit, rd::<M>(m, hl), 16), m),
        }
    } else if b2 < 0xC0 {
        let bit = ((b2 - 0x80) / 8) as u8;
        match target {
            Some(t) => (spec_advance(r, 2, 8).spec_set8(t, spec_res_bit_val(r.spec_get8(t), bit)), m),
            None => (spec_advance(r, 2, 16), wr::<M>(m, hl, spec_res_bit_val(rd::<M>(m, hl), bit))),
        }
    } else {
        let bit = ((b2 - 0xC0) / 8) as u8;
        match target {
            Some(t) => (spec_advance(r, 2, 8).spec_set8(t, spec_set_bit_val(r.spec_get8(t), bit)), m),
            None => (spec_advance(r, 2, 16), wr::<M>(m, hl, spec_set_bit_val(rd::<M>(m, hl), bit))),
        }
    }
}

/// Effect of the opcodes 0xC0..0xFF: control flow, the stack, the
/// immediate ALU variants, the high-page loads and the interrupt enables.
/// Undefined opcodes leave the state unchanged (the interpreter refuses
/// them before execution).
pub open spec fn spec_exec_c0_ff<M: Memory>(b1: u8, b2: u8, b3: u8, r: Registers, m: M::V) -> (
    Registers,
    M::V,
) {
    let hl = spec_to_u16(r.h, r.l);
    let nn = spec_to_u16(b3, b2);
    match b1 {
        0xC0 => (spec_ret_cc::<M>(r, m, !r.flag_z), m),
        0xC1 => (spec_pop::<M>(r, m, Pair::BC), m),
        0xC2 => (spec_jp(r, nn, !r.flag_z), m),
        0xC3 => (spec_jp(r, nn, true), m),
        0xC4 => spec_call_cc::<M>(r, m, nn, !r.flag_z),
        0xC5 => spec_push::<M>(r, m, r.spec_get16(Pair::BC)),
        0xC6 => (spec_alu(r, AluOp::Add, b2, 2, 8), m),
        0xC7 => spec_rst::<M>(r, m, 0x00),
        0xC8 => (spec_ret_cc::<M>(r, m, r.flag_z), m),
        0xC9 => (spec_ret::<M>(r, m), m),
        0xCA => (spec_jp(r, nn, r.flag_z), m),
        0xCB => spec_exec_cb::<M>(b2, r, m),
        0xCC => spec_call_cc::<M>(r, m, nn, r.flag_z),
        0xCD => spec_call::<M>(r, m, nn),
        0xCE => (spec_alu(r, AluOp::Adc, b2, 2, 8), m),
        0xCF => spec_rst::<M>(r, m, 0x08),
        0xD0 => (spec_ret_cc::<M>(r, m, !r.flag_c), m),
        0xD1 => (spec_pop::<M>(r, m, Pair::DE), m),
        0xD2 => (spec_jp(r, nn, !r.flag_c), m),
        0xD4 => spec_call_cc::<M>(r, m, nn, !r.flag_c),
        0xD5 => spec_push::<M>(r, m, r.spec_get16(Pair::DE)),
        0xD6 => (spec_alu(r, AluOp::Sub, b2, 2, 8), m),
        0xD7 => spec_rst::<M>(r, m, 0x10),
        0xD8 => (spec_ret_cc::<M>(r, m, r.flag_c), m),
        0xD9 => (
            spec_ret::<M>(Registers { interrupt_master_enable: true, ..r }, m),
            m,
        ),
        0xDA => (spec_jp(r, nn, r.flag_c), m),
        0xDC => spec_call_cc::<M>(r, m, nn, r.flag_c),
        0xDE => (spec_alu(r, AluOp::Sbc, b2, 2, 8), m),
        0xDF => spec_rst::<M>(r, m, 0x18),
        0xE0 => (spec_advance(r, 2, 12), wr::<M>(m, (0xFF00 + b2 as int) as u16, r.a)),
        0xE1 => (spec_pop::<M>(r, m, Pair::HL), m),
        0xE2 => (spec_advance(r, 1, 8), wr::<M>(m, (0xFF00 + r.c as int) as u16, r.a)),
        0xE5 => spec_push::<M>(r, m, hl),
        0xE6 => (spec_alu(r, AluOp::And, b2, 2, 8), m),
        0xE7 => spec_rst::<M>(r, m, 0x20),
        0xE8 => (
            Registers { sp: spec_sp_offset_sum(r.sp, b2), ..spec_sp_offset_flags(r, b2, 16) },
            m,
        ),
        0xE9 => (Registers { pc: hl, cycles_of_last_command: 4, ..r }, m),
        0xEA => (spec_advance(r, 3, 16), wr::<M>(m, nn, r.a)),
        0xEE => (spec_alu(r, AluOp::Xor, b2, 2, 8), m),
        0xEF => spec_rst::<M>(r, m, 0x28),
        0xF0 => (spec_advance(r, 2, 12).spec_set8(Reg8::A, rd::<M>(m, (0xFF00 + b2 as int) as u16)), m),
        0xF1 => (spec_pop_af::<M>(r, m), m),
        0xF2 => (spec_advance(r, 1, 8).spec_set8(Reg8::A, rd::<M>(m, (0xFF00 + r.c as int) as u16)), m),
        0xF3 => (Registers { interrupt_master_enable: false, ..spec_advance(r, 1, 4) }, m),
        0xF5 => spec_push::<M>(r, m, spec_to_u16(r.a, r.spec_f())),
        0xF6 => (spec_alu(r, AluOp::Or, b2, 2, 8), m),
        0xF7 => spec_rst::<M>(r, m, 0x30),
        0xF8 => (
            spec_sp_offset_flags(r, b2, 12).spec_set16(Pair::HL, spec_sp_offset_sum(r.sp, b2)),
            m,
        ),
        0xF9 => (Registers { sp: hl, ..spec_advance(r, 1, 8) }, m),
        0xFA => (spec_advance(r, 3, 16).spec_set8(Reg8::A, rd::<M>(m, nn)), m),
        0xFB => (Registers { interrupt_master_enable: true, ..spec_advance(r, 1, 4) }, m),
        0xFE => (spec_alu(r, AluOp::Cp, b2, 2, 8), m),
        0xFF => spec_rst::<M>(r, m, 0x38),
        _ => (r, m),
    }
}

/// Effect of one instruction at the current program counter, given the
/// opcode byte and the two operand bytes.
pub open spec fn spec_exec_op<M: Memory>(b1: u8, b2: u8, b3: u8, r: Registers, m: M::V) -> (
    Registers,
    M::V,
) {
    if b1 < 0x40 {
        spec_exec_00_3f::<M>(b1, b2, b3, r, m)
    } else if b1 < 0x80 {
        spec_exec_40_7f::<M>(b1, r, m)
    } else if b1 < 0xC0 {
        spec_exec_80_bf::<M>(b1, r, m)
    } else {
        spec_exec_c0_ff::<M>(b1, b2, b3, r, m)
    }
}

fn exec_00_3f<M: Memory>(b1: u8, b2: u8, b3: u8, r: &mut Registers, m: &mut M)
    requires
        b1 < 0x40,
        M::spec_inv(old(m)@),
    ensures
        ({
            let (r2, m2) = spec_exec_00_3f::<M>(b1, b2, b3, *old(r), old(m)@);
            *final(r) == r2 && final(m)@ == m2
        }),
        M::spec_inv(final(m)@),
{
    match b1 {
        0x00 => op_advance(r, 1, 4),
        0x01 => {
            let nn = to_u16(b3, b2);
            op_advance(r, 3, 12);
            r.set16(Pair::BC, nn);
        }
        0x02 => {
            let addr = to_u16(r.b, r.c);
            m.write_byte(addr, r.a);
            op_advance(r, 1, 8);
        }
        0x03 => {
            let v = r.get16(Pair::BC).wrapping_add(1);
            op_advance(r, 1, 8);
            r.set16(Pair::BC, v);
        }
        0x04 => op_inc_r(r, Reg8::B),
        0x05 => op_dec_r(r, Reg8::B),
        0x06 => {
            op_advance(r, 2, 8);
            r.set8(Reg8::B, b2);
        }
        0x07 => op_rot_a(r, RotOp::Rlc),
        0x08 => {
            let nn = to_u16(b3, b2);
            m.write_word(nn, r.sp);
            op_advance(r, 3, 20);
        }
        0x09 => {
            let v = r.get16(Pair::BC);
            op_add_hl(r, v);
        }
        0x0A => {
            let v = m.read_byte(to_u16(r.b, r.c));
            op_advance(r, 1, 8);
            r.set8(Reg8::A, v);
        }
        0x0B => {
            let v = r.get16(Pair::BC).wrapping_sub(1);
            op_advance(r, 1, 8);
            r.set16(Pair::BC, v);
        }
        0x0C => op_inc_r(r, Reg8::C),
        0x0D => op_dec_r(r, Reg8::C),
        0x0E => {
            op_advance(r, 2, 8);
            r.set8(Reg8::C, b2);
        }
        0x0F => op_rot_a(r, RotOp::Rrc),
        0x10 => op_advance(r, 2, 4),
        0x11 => {
            let nn = to_u16(b3, b2);
            op_advance(r, 3, 12);
            r.set16(Pair::DE, nn);
        }
        0x12 => {
            let addr = to_u16(r.d, r.e);
            m.write_byte(addr, r.a);
            op_advance(r, 1, 8);
        }
        0x13 => {
            let v = r.get16(Pair::DE).wrapping_add(1);
            op_advance(r, 1, 8);
            r.set16(Pair::DE, v);
        }
        0x14 => op_inc_r(r, Reg8::D),
        0x15 => op_dec_r(r, Reg8::D),
        0x16 => {
            op_advance(r, 2, 8);
            r.set8(Reg8::D, b2);
        }
        0x17 => op_rot_a(r, RotOp::Rl),
        0x18 => op_jr(r, b2, true),
        0x19 => {
            let v = r.get16(Pair::DE);
            op_add_hl(r, v);
        }
        0x1A => {
            let v = m.read_byte(to_u16(r.d, r.e));
            op_advance(r, 1, 8);
            r.set8(Reg8::A, v);
        }
        0x1B => {
            let v = r.get16(Pair::DE).wrapping_sub(1);
            op_advance(r, 1, 8);
            r.set16(Pair::DE, v);
        }
        0x1C => op_inc_r(r, Reg8::E),
        0x1D => op_dec_r(r, Reg8::E),
        0x1E => {
            op_advance(r, 2, 8);
            r.set8(Reg8::E, b2);
        }
        0x1F => op_rot_a(r, RotOp::Rr),
        0x20 => {
            let taken = !r.flag_z;
            op_jr(r, b2, taken);
        }
        0x21 => {
            let nn = to_u16(b3, b2);
            op_advance(r, 3, 12);
            r.set16(Pair::HL, nn);
        }
        0x22 => {
            let hl = to_u16(r.h, r.l);
            m.write_byte(hl, r.a);
            op_advance(r, 1, 8);
            r.set16(Pair::HL, hl.wrapping_add(1));
        }
        0x23 => {
            let hl = to_u16(r.h, r.l);
            op_advance(r, 1, 8);
            r.set16(Pair::HL, hl.wrapping_add(1));
        }
        0x24 => op_inc_r(r, Reg8::H),
        0x25 => op_dec_r(r, Reg8::H),
        0x26 => {
            op_advance(r, 2, 8);
            r.set8(Reg8::H, b2);
        }
        0x27 => op_daa(r),
        0x28 => {
            let taken = r.flag_z;
            op_jr(r, b2, taken);
        }
        0x29 => {
            let v = to_u16(r.h, r.l);
            op_add_hl(r, v);
        }
        0x2A => {
            let hl = to_u16(r.h, r.l);
            let v = m.read_byte(hl);
            op_advance(r, 1, 8);
            r.set8(Reg8::A, v);
            r.set16(Pair::HL, hl.wrapping_add(1));
        }
        0x2B => {
            let hl = to_u16(r.h, r.l);
            op_advance(r, 1, 8);
            r.set16(Pair::HL, hl.wrapping_sub(1));
        }
        0x2C => op_inc_r(r, Reg8::L),
        0x2D => op_dec_r(r, Reg8::L),
        0x2E => {
            op_advance(r, 2, 8);
            r.set8(Reg8::L, b2);
        }
        0x2F => op_cpl(r),
        0x30 => {
            let taken = !r.flag_c;
            op_jr(r, b2, taken);
        }
        0x31 => {
            r.sp = to_u16(b3, b2);
            op_advance(r, 3, 12);
        }
        0x32 => {
            let hl = to_u16(r.h, r.l);
            m.write_byte(hl, r.a);
            op_advance(r, 1, 8);
            r.set16(Pair::HL, hl.wrapping_sub(1));
        }
        0x33 => {
            r.sp = r.sp.wrapping_add(1);
            op_advance(r, 1, 8);
        }
        0x34 => {
            let hl = to_u16(r.h, r.l);
            let v = m.read_byte(hl);
            let new_val = op_inc_flags(r, v, 12);
            m.write_byte(hl, new_val);
        }
        0x35 => {
            let hl = to_u16(r.h, r.l);
            let v = m.read_byte(hl);
            let new_val = op_dec_flags(r, v, 12);
            m.write_byte(hl, new_val);
        }
        0x36 => {
            let hl = to_u16(r.h, r.l);
            m.write_byte(hl, b2);
            op_advance(r, 2, 12);
        }
        0x37 => op_scf(r),
        0x38 => {
            let taken = r.flag_c;
            op_jr(r, b2, taken);
        }
        0x39 => {
            let v = r.sp;
            op_add_hl(r, v);
        }
        0x3A => {
            let hl = to_u16(r.h, r.l);
            let v = m.read_byte(hl);
            op_advance(r, 1, 8);
            r.set8(Reg8::A, v);
            r.set16(Pair::HL, hl.wrapping_sub(1));
        }
        0x3B => {
            r.sp = r.sp.wrapping_sub(1);
            op_advance(r, 1, 8);
        }
        0x3C => op_inc_r(r, Reg8::A),
        0x3D => op_dec_r(r, Reg8::A),
        0x3E => {
            op_advance(r, 2, 8);
            r.set8(Reg8::A, b2);
        }
        _ => op_ccf(r),
    }
}

fn exec_40_7f<M: Memory>(b1: u8, r: &mut Registers, m: &mut M)
    requires
        0x40 <= b1 < 0x80,
        M::spec_inv(old(m)@),
    ensures
        ({
            let (r2, m2) = spec_exec_40_7f::<M>(b1, *old(r), old(m)@);
            *final(r) == r2 && final(m)@ == m2
        }),
        M::spec_inv(final(m)@),
{
    if b1 == 0x76 {
        r.halt = true;
        op_advance(r, 1, 4);
    } else {
        let dst = reg_code((b1 - 0x40) / 8);
        let src = reg_code(b1 % 8);
        match (dst, src) {
            (Some(d), Some(s)) => {
                let v = r.get8(s);
                op_advance(r, 1, 4);
                r.set8(d, v);
            }
            (Some(d), None) => {
                let v = m.read_byte(to_u16(r.h, r.l));
                op_advance(r, 1, 8);
                r.set8(d, v);
            }
            (None, Some(s)) => {
                let addr = to_u16(r.h, r.l);
                let v = r.get8(s);
                m.write_byte(addr, v);
                op_advance(r, 1, 8);
            }
            (None, None) => {}
        }
    }
}

fn exec_80_bf<M: Memory>(b1: u8, r: &mut Registers, m: &mut M)
    requires
        0x80 <= b1 < 0xC0,
        M::spec_inv(old(m)@),
    ensures
        ({
            let (r2, m2) = spec_exec_80_bf::<M>(b1, *old(r), old(m)@);
            *final(r) == r2 && final(m)@ == m2
        }),
        M::spec_inv(final(m)@),
{
    let op = alu_code((b1 - 0x80) / 8);
    match reg_code(b1 % 8) {
        Some(s) => {
            let v = r.get8(s);
            op_alu(r, op, v, 1, 4);
        }
        None => {
            let v = m.read_byte(to_u16(r.h, r.l));
            op_alu(r, op, v, 1, 8);
        }
    }
}

fn exec_cb<M: Memory>(b2: u8, r: &mut Registers, m: &mut M)
    requires
        M::spec_inv(old(m)@),
    ensures
        ({
            let (r2, m2) = spec_exec_cb::<M>(b2, *old(r), old(m)@);
            *final(r) == r2 && final(m)@ == m2
        }),
        M::spec_inv(final(m)@),
{
    let target = reg_code(b2 % 8);
    if b2 < 0x40 {
        let op = rot_code(b2 / 8);
        match target {
            Some(t) => op_rot_r(r, op, t),
            None => {
                let hl = to_u16(r.h, r.l);
                let v = m.read_byte(hl);
                let (new_val, carry) = op_rot_val(op, v, r.flag_c);
                m.write_byte(hl, new_val);
                r.flag_z = new_val == 0;
                r.flag_n = false;
                r.flag_h = false;
                r.flag_c = carry;
                r.pc = r.pc.wrapping_add(2);
                r.cycles_of_last_command = 16;
            }
        }
    } else if b2 < 0x80 {
        let bit = (b2 - 0x40) / 8;
        match target {
            Some(t) => {
                let v = r.get8(t);
                op_bit(r, bit, v, 8);
            }
            None => {
                let v = m.read_byte(to_u16(r.h, r.l));
                op_bit(r, bit, v, 16);
            }
        }
    } else if b2 < 0xC0 {
        let bit = (b2 - 0x80) / 8;
        match target {
            Some(t) => op_res_bit_r(r, bit, t),
            None => {
                let hl = to_u16(r.h, r.l);
                let v = m.read_byte(hl);
                m.write_byte(hl, v & !(1u8 << bit));
                op_advance(r, 2, 16);
            }
        }
    } else {
        let bit = (b2 - 0xC0) / 8;
        match target {
            Some(t) => op_set_bit_r(r, bit, t),
            None => {
                let hl = to_u16(r.h, r.l);
                let v = m.read_byte(hl);
                m.write_byte(hl, v | (1u8 << bit));
                op_advance(r, 2, 16);
            }
        }
    }
}

fn exec_c0_ff<M: Memory>(b1: u8, b2: u8, b3: u8, r: &mut Registers, m: &mut M)
    requires
        0xC0 <= b1,
        !spec_is_undefined(b1),
        M::spec_inv(old(m)@),
    ensures
        ({
            let (r2, m2) = spec_exec_c0_ff::<M>(b1, b2, b3, *old(r), old(m)@);
            *final(r) == r2 && final(m)@ == m2
        }),
        M::spec_inv(final(m)@),
{
    match b1 {
        0xC0 => {
            let taken = !r.flag_z;
            op_ret_cc(r, m, taken);
        }
        0xC1 => op_pop(r, m, Pair::BC),
        0xC2 => {
            let taken = !r.flag_z;
            let nn = to_u16(b3, b2);
            op_jp(r, nn, taken);
        }
        0xC3 => {
            let nn = to_u16(b3, b2);
            op_jp(r, nn, true);
        }
        0xC4 => {
            let taken = !r.flag_z;
            let nn = to_u16(b3, b2);
            op_call_cc(r, m, nn, taken);
        }
        0xC5 => {
            let v = r.get16(Pair::BC);
            op_push(r, m, v);
        }
        0xC6 => op_alu(r, AluOp::Add, b2, 2, 8),
        0xC7 => op_rst(r, m, 0x00),
        0xC8 => {
            let taken = r.flag_z;
            op_ret_cc(r, m, taken);
        }
        0xC9 => op_ret(r, m),
        0xCA => {
            let taken = r.flag_z;
            let nn = to_u16(b3, b2);
            op_jp(r, nn, taken);
        }
        0xCB => exec_cb(b2, r, m),
        0xCC => {
            let taken = r.flag_z;
            let nn = to_u16(b3, b2);
            op_call_cc(r, m, nn, taken);
        }
        0xCD => {
            let nn = to_u16(b3, b2);
            op_call_cc(r, m, nn, true);
        }
        0xCE => op_alu(r, AluOp::Adc, b2, 2, 8),
        0xCF => op_rst(r, m, 0x08),
        0xD0 => {
            let taken = !r.flag_c;
            op_ret_cc(r, m, taken);
        }
        0xD1 => op_pop(r, m, Pair::DE),
        0xD2 => {
            let taken = !r.flag_c;
            let nn = to_u16(b3, b2);
            op_jp(r, nn, taken);
        }
        0xD4 => {
            let taken = !r.flag_c;
            let nn = to_u16(b3, b2);
            op_call_cc(r, m, nn, taken);
        }
        0xD5 => {
            let v = r.get16(Pair::DE);
            op_push(r, m, v);
        }
        0xD6 => op_alu(r, AluOp::Sub, b2, 2, 8),
        0xD7 => op_rst(r, m, 0x10),
        0xD8 => {
            let taken = r.flag_c;
            op_ret_cc(r, m, taken);
        }
        0xD9 => {
            r.interrupt_master_enable = true;
            op_ret(r, m);
        }
        0xDA => {
            let taken = r.flag_c;
            let nn = to_u16(b3, b2);
            op_jp(r, nn, taken);
        }
        0xDC => {
            let taken = r.flag_c;
            let nn = to_u16(b3, b2);
            op_call_cc(r, m, nn, taken);
        }
        0xDE => op_alu(r, AluOp::Sbc, b2, 2, 8),
        0xDF => op_rst(r, m, 0x18),
        0xE0 => {
            let addr = 0xFF00 + b2 as u16;
            m.write_byte(addr, r.a);
            op_advance(r, 2, 12);
        }
        0xE1 => op_pop(r, m, Pair::HL),
        0xE2 => {
            let addr = 0xFF00 + r.c as u16;
            m.write_byte(addr, r.a);
            op_advance(r, 1, 8);
        }
        0xE5 => {
            let v = to_u16(r.h, r.l);
            op_push(r, m, v);
        }
        0xE6 => op_alu(r, AluOp::And, b2, 2, 8),
        0xE7 => op_rst(r, m, 0x20),
        0xE8 => {
            let sum = op_sp_offset(r, b2, 16);
            r.sp = sum;
        }
        0xE9 => {
            r.pc = to_u16(r.h, r.l);
            r.cycles_of_last_command = 4;
        }
        0xEA => {
            let nn = to_u16(b3, b2);
            m.write_byte(nn, r.a);
            op_advance(r, 3, 16);
        }
        0xEE => op_alu(r, AluOp::Xor, b2, 2, 8),
        0xEF => op_rst(r, m, 0x28),
        0xF0 => {
            let v = m.read_byte(0xFF00 + b2 as u16);
            op_advance(r, 2, 12);
            r.set8(Reg8::A, v);
        }
        0xF1 => {
            let value = m.read_word(r.sp);
            r.a = (value / 0x100) as u8;
            r.flag_z = value & 0x80 != 0;
            r.flag_n = value & 0x40 != 0;
            r.flag_h = value & 0x20 != 0;
            r.flag_c = value & 0x10 != 0;
            r.sp = r.sp.wrapping_add(2);
            r.pc = r.pc.wrapping_add(1);
            r.cycles_of_last_command = 12;
        }
        0xF2 => {
            let v = m.read_byte(0xFF00 + r.c as u16);
            op_advance(r, 1, 8);
            r.set8(Reg8::A, v);
        }
        0xF3 => {
            r.interrupt_master_enable = false;
            op_advance(r, 1, 4);
        }
        0xF5 => {
            let v = to_u16(r.a, r.f_value());
            op_push(r, m, v);
        }
        0xF6 => op_alu(r, AluOp::Or, b2, 2, 8),
        0xF7 => op_rst(r, m, 0x30),
        0xF8 => {
            let sum = op_sp_offset(r, b2, 12);
            r.set16(Pair::HL, sum);
        }
        0xF9 => {
            r.sp = to_u16(r.h, r.l);
            op_advance(r, 1, 8);
        }
        0xFA => {
            let nn = to_u16(b3, b2);
            let v = m.read_byte(nn);
            op_advance(r, 3, 16);
            r.set8(Reg8::A, v);
        }
        0xFB => {
            r.interrupt_master_enable = true;
            op_advance(r, 1, 4);
        }
        0xFE => op_alu(r, AluOp::Cp, b2, 2, 8),
        _ => op_rst(r, m, 0x38),
    }
}

fn op_push<M: Memory>(r: &mut Registers, m: &mut M, value: u16)
    requires
        M::spec_inv(old(m)@),
    ensures
        ({
            let (r2, m2) = spec_push::<M>(*old(r), old(m)@, value);
            *final(r) == r2 && final(m)@ == m2
        }),
        M::spec_inv(final(m)@),
{
    r.sp = r.sp.wrapping_sub(2);
    m.write_word(r.sp, value);
    r.pc = r.pc.wrapping_add(1);
    r.cycles_of_last_command = 16;
}

fn op_pop<M: Memory>(r: &mut Registers, m: &mut M, pair: Pair)
    requires
        M::spec_inv(old(m)@),
    ensures
        *final(r) == spec_pop::<M>(*old(r), old(m)@, pair),
        final(m)@ == old(m)@,
{
    let value = m.read_word(r.sp);
    r.sp = r.sp.wrapping_add(2);
    r.pc = r.pc.wrapping_add(1);
    r.cycles_of_last_command = 12;
    r.set16(pair, value);
}

fn op_call_cc<M: Memory>(r: &mut Registers, m: &mut M, target: u16, taken: bool)
    requires
        M::spec_inv(old(m)@),
    ensures
        ({
            let (r2, m2) = spec_call_cc::<M>(*old(r), old(m)@, target, taken);
            *final(r) == r2 && final(m)@ == m2
        }),
        M::spec_inv(final(m)@),
{
    if taken {
        let sp = r.sp.wrapping_sub(2);
        m.write_word(sp, r.pc.wrapping_add(3));
        r.sp = sp;
        r.pc = target;
    } else {
        r.pc = r.pc.wrapping_add(3);
    }
    r.cycles_of_last_command = 12;
}

fn op_rst<M: Memory>(r: &mut Registers, m: &mut M, target: u16)
    requires
        M::spec_inv(old(m)@),
    ensures
        ({
            let (r2, m2) = spec_rst::<M>(*old(r), old(m)@, target);
            *final(r) == r2 && final(m)@ == m2
        }),
        M::spec_inv(final(m)@),
{
    let sp = r.sp.wrapping_sub(2);
    m.write_word(sp, r.pc.wrapping_add(1));
    r.sp = sp;
    r.pc = target;
    r.cycles_of_last_command = 32;
}

fn op_ret<M: Memory>(r: &mut Registers, m: &M)
    requires
        M::spec_inv(m@),
    ensures
        *final(r) == spec_ret::<M>(*old(r), m@),
{
    let address = m.read_word(r.sp);
    r.sp = r.sp.wrapping_add(2);
    r.pc = address;
    r.cycles_of_last_command = 8;
}

fn op_ret_cc<M: Memory>(r: &mut Registers, m: &M, taken: bool)
    requires
        M::spec_inv(m@),
    ensures
        *final(r) == spec_ret_cc::<M>(*old(r), m@, taken),
{
    if taken {
        let address = m.read_word(r.sp);
        r.sp = r.sp.wrapping_add(2);
        r.pc = address;
    } else {
        r.pc = r.pc.wrapping_add(1);
    }
    r.cycles_of_last_command = 8;
}

/// Execute one decoded instruction.
pub fn execute_opcode<M: Memory>(opcode: Opcode, registers: &mut Registers, memory: &mut M)
    requires
        !spec_is_undefined(opcode.b1),
        M::spec_inv(old(memory)@),
    ensures
        ({
            let (r2, m2) = spec_exec_op::<M>(
                opcode.b1,
                opcode.b2,
                opcode.b3,
                *old(registers),
                old(memory)@,
            );
            *final(registers) == r2 && final(memory)@ == m2
        }),
        M::spec_inv(final(memory)@),
{
    if opcode.b1 < 0x40 {
        exec_00_3f(opcode.b1, opcode.b2, opcode.b3, registers, memory);
    } else if opcode.b1 < 0x80 {
        exec_40_7f(opcode.b1, registers, memory);
    } else if opcode.b1 < 0xC0 {
        exec_80_bf(opcode.b1, registers, memory);
    } else {
        exec_c0_ff(opcode.b1, opcode.b2, opcode.b3, registers, memory);
    }
}

/// Effect of dispatching one interrupt: acknowledge the pending bit, drop
/// the master enable, push the program counter and jump to the vector.
pub open spec fn spec_dispatch_interrupt<M: Memory>(
    r: Registers,
    m: M::V,
    interrupt: Interrupt,
) -> (Registers, M::V) {
    let fired = rd::<M>(m, 0xFF0F);
    let m1 = wr::<M>(m, 0xFF0F, fired & !interrupt.spec_bitmask());
    let sp = r.sp.wrapping_sub(2);
    let m2 = wrw::<M>(m1, sp, r.pc);
    (
        Registers {
            interrupt_master_enable: false,
            sp,
            pc: interrupt.spec_handler_address(),
            ..r
        },
        m2,
    )
}

/// Effect of the post-instruction interrupt check: a pending, enabled
/// interrupt always clears HALT; with the master enable set, the
/// highest-priority one is dispatched for 12 extra cycles.
pub open spec fn spec_handle_interrupts<M: Memory>(r: Registers, m: M::V) -> (
    Registers,
    M::V,
    u8,
) {
    let enabled = rd::<M>(m, 0xFFFF);
    let fired = rd::<M>(m, 0xFF0F) & enabled;
    let r1 = if fired != 0 {
        Registers { halt: false, ..r }
    } else {
        r
    };
    if !r1.interrupt_master_enable {
        (r1, m, 0)
    } else if fired & 0x01 != 0 {
        let (r2, m2) = spec_dispatch_interrupt::<M>(r1, m, Interrupt::VerticalBlank);
        (r2, m2, 12)
    } else if fired & 0x02 != 0 {
        let (r2, m2) = spec_dispatch_interrupt::<M>(r1, m, Interrupt::LcdStatus);
        (r2, m2, 12)
    } else if fired & 0x04 != 0 {
        let (r2, m2) = spec_dispatch_interrupt::<M>(r1, m, Interrupt::Timer);
        (r2, m2, 12)
    } else if fired & 0x08 != 0 {
        let (r2, m2) = spec_dispatch_interrupt::<M>(r1, m, Interrupt::Serial);
        (r2, m2, 12)
    } else if fired & 0x10 != 0 {
        let (r2, m2) = spec_dispatch_interrupt::<M>(r1, m, Interrupt::Keypad);
        (r2, m2, 12)
    } else {
        (r1, m, 0)
    }
}

fn start_interrupt_handler<M: Memory>(
    registers: &mut Registers,
    memory: &mut M,
    interrupt: Interrupt,
) -> (cycles: u8)
    requires
        M::spec_inv(old(memory)@),
    ensures
        ({
            let (r2, m2) = spec_dispatch_interrupt::<M>(*old(registers), old(memory)@, interrupt);
            *final(registers) == r2 && final(memory)@ == m2 && cycles == 12
        }),
        M::spec_inv(final(memory)@),
{
    registers.interrupt_master_enable = false;
    let fired = memory.read_byte(0xFF0F);
    let mask = interrupt.to_bitmask();
    memory.write_byte(0xFF0F, fired & !mask);
    registers.sp = registers.sp.wrapping_sub(2);
    let sp = registers.sp;
    let pc = registers.pc;
    memory.write_word(sp, pc);
    registers.pc = interrupt.handler_address();
    12
}

fn handle_interrupts<M: Memory>(registers: &mut Registers, memory: &mut M) -> (cycles: u8)
    requires
        M::spec_inv(old(memory)@),
    ensures
        ({
            let (r2, m2, c2) = spec_handle_interrupts::<M>(*old(registers), old(memory)@);
            *final(registers) == r2 && final(memory)@ == m2 && cycles == c2
        }),
        M::spec_inv(final(memory)@),
{
    let enabled_interrupts = memory.read_byte(0xFFFF);
    let interrupts_fired = memory.read_byte(0xFF0F) & enabled_interrupts;
    if interrupts_fired != 0 {
        registers.halt = false;
    }
    if !registers.interrupt_master_enable {
        return 0;
    }
    if interrupts_fired & 0x01 != 0 {
        start_interrupt_handler(registers, memory, Interrupt::VerticalBlank)
    } else if interrupts_fired & 0x02 != 0 {
        start_interrupt_handler(registers, memory, Interrupt::LcdStatus)
    } else if interrupts_fired & 0x04 != 0 {
        start_interrupt_handler(registers, memory, Interrupt::Timer)
    } else if interrupts_fired & 0x08 != 0 {
        start_interrupt_handler(registers, memory, Interrupt::Serial)
    } else if interrupts_fired & 0x10 != 0 {
        start_interrupt_handler(registers, memory, Interrupt::Keypad)
    } else {
        0
    }
}

/// Effect of one full CPU step on registers, memory and the cycle clock,
/// with the result the step reports: the cycles consumed, or the decode
/// diagnostic for an undefined opcode.
#[verifier::opaque]
pub open spec fn spec_cycle<M: Memory>(r: Registers, m: M::V, clock: u64) -> (
    Registers,
    M::V,
    u64,
    Result<u8, DecodeError>,
) {
    let m1 = if M::spec_in_bios_v(m) && r.pc == 0x100 {
        M::spec_leave_bios_v(m)
    } else {
        m
    };
    if r.halt {
        let r1 = Registers { cycles_of_last_command: 4, ..r };
        let clock1 = clock.wrapping_add(4);
        let (r2, m2, ic) = spec_handle_interrupts::<M>(r1, m1);
        (r2, m2, clock1, Ok((4 as u8).wrapping_add(ic)))
    } else {
        let b1 = rd::<M>(m1, r.pc);
        let b2 = rd::<M>(m1, r.pc.wrapping_add(1));
        let b3 = rd::<M>(m1, r.pc.wrapping_add(2));
        if spec_is_undefined(b1) {
            (
                r,
                m1,
                clock,
                Err(DecodeError { pc: r.pc, opcode: Opcode { b1, b2, b3 }, registers: r }),
            )
        } else {
            let (r1, m2) = spec_exec_op::<M>(b1, b2, b3, r, m1);
            let clock1 = clock.wrapping_add(r1.cycles_of_last_command as u64);
            let (r2, m3, ic) = spec_handle_interrupts::<M>(r1, m2);
            (r2, m3, clock1, Ok(r1.cycles_of_last_command.wrapping_add(ic)))
        }
    }
}

/// The CPU: the register file, the memory it is wired to, and a running
/// cycle clock.
pub struct Cpu<M> {
    pub registers: Registers,
    pub memory: M,
    pub clock: u64,
}

impl<M: Memory> Cpu<M> {
    pub fn new(memory: M) -> (r: Cpu<M>)
        ensures
            r.registers == Registers::spec_initial(),
            r.memory == memory,
            r.clock == 0,
    {
        Cpu { registers: Registers::new(), memory, clock: 0 }
    }

    /// Total machine cycles executed so far (interrupt dispatch overhead
    /// not counted, as reported costs are).
    pub fn get_clock(&self) -> (r: u64)
        ensures
            r == self.clock,
    {
        self.clock
    }

    fn fetch_opcode(&self) -> (r: Opcode)
        requires
            M::spec_inv(self.memory@),
        ensures
            r.b1 == rd::<M>(self.memory@, self.registers.pc),
            r.b2 == rd::<M>(self.memory@, self.registers.pc.wrapping_add(1)),
            r.b3 == rd::<M>(self.memory@, self.registers.pc.wrapping_add(2)),
    {
        let pc = self.registers.pc;
        Opcode {
            b1: self.memory.read_byte(pc),
            b2: self.memory.read_byte(pc.wrapping_add(1)),
            b3: self.memory.read_byte(pc.wrapping_add(2)),
        }
    }

    /// One step: leave the BIOS when the fetch reaches 0x0100, execute one
    /// instruction (or idle in HALT), then service pending interrupts.
    /// Returns the cycles consumed, dispatch cost included, or the decode
    /// diagnostic for an opcode outside the instruction set.
    ///
    /// The low nibble of the flag byte is zero after every step.
    pub fn cycle(&mut self) -> (res: Result<u8, DecodeError>)
        requires
            M::spec_inv(old(self).memory@),
        ensures
            ({
                let (r2, m2, clock2, res2) = spec_cycle::<M>(
                    old(self).registers,
                    old(self).memory@,
                    old(self).clock,
                );
                &&& final(self).registers == r2
                &&& final(self).memory@ == m2
                &&& final(self).clock == clock2
                &&& res == res2
            }),
            final(self).registers.spec_f() & 0x0F == 0,
            M::spec_inv(final(self).memory@),
    {
        proof {
            reveal(spec_cycle);
            lemma_f_low_nibble_zero(
                spec_cycle::<M>(self.registers, self.memory@, self.clock).0,
            );
        }
        if self.memory.in_bios() && self.registers.pc == 0x100 {
            self.memory.leave_bios();
        }
        if self.registers.halt {
            self.registers.cycles_of_last_command = 4;
        } else {
            let opcode = self.fetch_opcode();
            if is_undefined_opcode(opcode.b1) {
                return Err(
                    DecodeError { pc: self.registers.pc, opcode, registers: self.registers },
                );
            }
            let mut regs = self.registers;
            execute_opcode(opcode, &mut regs, &mut self.memory);
            self.registers = regs;
        }
        self.clock = self.clock.wrapping_add(self.registers.cycles_of_last_command as u64);
        let cycles = self.registers.cycles_of_last_command;
        let mut regs = self.registers;
        let interrupt_cycles = handle_interrupts(&mut regs, &mut self.memory);
        self.registers = regs;
        Ok(cycles.wrapping_add(interrupt_cycles))
    }
}


/// Cycle costs of the 0x00..0x3F block stay within one instruction's
/// budget.
proof fn lemma_exec_00_3f_cost<M: Memory>(b1: u8, b2: u8, b3: u8, r: Registers, m: M::V)
    requires
        b1 < 0x40,
    ensures
        spec_exec_00_3f::<M>(b1, b2, b3, r, m).0.cycles_of_last_command <= 32,
{
}

/// Cycle costs of the load block stay within one instruction's budget.
proof fn lemma_exec_40_7f_cost<M: Memory>(b1: u8, r: Registers, m: M::V)
    requires
        0x40 <= b1 < 0x80,
    ensures
        spec_exec_40_7f::<M>(b1, r, m).0.cycles_of_last_command <= 32,
{
}

/// Cycle costs of the ALU block stay within one instruction's budget.
proof fn lemma_exec_80_bf_cost<M: Memory>(b1: u8, r: Registers, m: M::V)
    requires
        0x80 <= b1 < 0xC0,
    ensures
        spec_exec_80_bf::<M>(b1, r, m).0.cycles_of_last_command <= 32,
{
}

/// Cycle costs of the extended table stay within one instruction's
/// budget.
proof fn lemma_exec_cb_cost<M: Memory>(b2: u8, r: Registers, m: M::V)
    ensures
        spec_exec_cb::<M>(b2, r, m).0.cycles_of_last_command <= 32,
{
}

/// Cycle costs of the 0xC0..0xFF block stay within one instruction's
/// budget.
#[verifier::rlimit(100)]
proof fn lemma_exec_c0_ff_cost<M: Memory>(b1: u8, b2: u8, b3: u8, r: Registers, m: M::V)
    requires
        0xC0 <= b1,
        !spec_is_undefined(b1),
    ensures
        spec_exec_c0_ff::<M>(b1, b2, b3, r, m).0.cycles_of_last_command <= 32,
{
    lemma_exec_cb_cost::<M>(b2, r, m);
}

/// No instruction costs more than 32 cycles.
proof fn lemma_exec_op_cost<M: Memory>(b1: u8, b2: u8, b3: u8, r: Registers, m: M::V)
    requires
        !spec_is_undefined(b1),
    ensures
        spec_exec_op::<M>(b1, b2, b3, r, m).0.cycles_of_last_command <= 32,
{
    if b1 < 0x40 {
        lemma_exec_00_3f_cost::<M>(b1, b2, b3, r, m);
    } else if b1 < 0x80 {
        lemma_exec_40_7f_cost::<M>(b1, r, m);
    } else if b1 < 0xC0 {
        lemma_exec_80_bf_cost::<M>(b1, r, m);
    } else {
        lemma_exec_c0_ff_cost::<M>(b1, b2, b3, r, m);
    }
}

/// The cost every CPU step reports is bounded: at most 32 cycles for the
/// instruction (4 for a HALT idle) plus 12 for an interrupt dispatch, so
/// at most 44 in all.  Every step the machine hands its peripherals
/// therefore satisfies the step-size hypothesis of the frame-count law.
pub proof fn lemma_cycle_cost_bounded<M: Memory>(r: Registers, m: M::V, clock: u64)
    ensures
        ({
            let res = spec_cycle::<M>(r, m, clock).3;
            res is Ok ==> res->Ok_0 <= 44
        }),
{
    reveal(spec_cycle);
    let m1 = if M::spec_in_bios_v(m) && r.pc == 0x100 {
        M::spec_leave_bios_v(m)
    } else {
        m
    };
    if !r.halt {
        let b1 = rd::<M>(m1, r.pc);
        let b2 = rd::<M>(m1, r.pc.wrapping_add(1));
        let b3 = rd::<M>(m1, r.pc.wrapping_add(2));
        if !spec_is_undefined(b1) {
            lemma_exec_op_cost::<M>(b1, b2, b3, r, m1);
        }
    }
}

} // verus!
