//! CPU instruction scenarios run on a flat 64 KiB memory block.

use rustgb::cpu::Cpu;
use rustgb::memory::{BlockMemory, Memory};

fn cpu_with_program(program: &[u8]) -> Cpu<BlockMemory> {
    let mut memory = BlockMemory::new(0x10000);
    let mut address = 0u16;
    for byte in program {
        memory.write_byte(address, *byte);
        address += 1;
    }
    Cpu::new(memory)
}

#[test]
fn load_and_add_sets_all_flags() {
    // LD A, 0x3A; LD B, 0xC6; ADD A, B
    let mut cpu = cpu_with_program(&[0x3E, 0x3A, 0x06, 0xC6, 0x80]);
    for _ in 0..3 {
        cpu.cycle().unwrap();
    }
    assert_eq!(cpu.registers.a, 0x00);
    assert!(cpu.registers.flag_z);
    assert!(!cpu.registers.flag_n);
    assert!(cpu.registers.flag_h);
    assert!(cpu.registers.flag_c);
}

#[test]
fn daa_after_subtract() {
    // LD A, 0x05; LD B, 0x09; SUB A, B; DAA
    let mut cpu = cpu_with_program(&[0x3E, 0x05, 0x06, 0x09, 0x90, 0x27]);
    for _ in 0..4 {
        cpu.cycle().unwrap();
    }
    assert_eq!(cpu.registers.a, 0x96);
    assert!(cpu.registers.flag_c);
    assert!(cpu.registers.flag_n);
}

#[test]
fn rotate_left_through_carry() {
    // LD A, 0x85; SCF; RLA
    let mut cpu = cpu_with_program(&[0x3E, 0x85, 0x37, 0x17]);
    for _ in 0..3 {
        cpu.cycle().unwrap();
    }
    assert_eq!(cpu.registers.a, 0x0B);
    assert!(cpu.registers.flag_c);
    assert!(!cpu.registers.flag_z);
}

#[test]
fn flag_byte_low_nibble_is_zero_after_every_instruction() {
    let mut cpu = cpu_with_program(&[0x3E, 0x0F, 0xC6, 0x01, 0x37, 0x3F, 0x27, 0x2F]);
    for _ in 0..6 {
        cpu.cycle().unwrap();
        assert_eq!(cpu.registers.f_value() & 0x0F, 0);
    }
}

#[test]
fn interrupt_dispatch_jumps_to_vector() {
    // NOP at 0xC000, VBlank enabled and pending, IME set.
    let mut memory = BlockMemory::new(0x10000);
    memory.write_byte(0xC000, 0x00);
    memory.write_byte(0xFFFF, 0x01);
    memory.write_byte(0xFF0F, 0x01);
    let mut cpu = Cpu::new(memory);
    cpu.registers.pc = 0xC000;
    cpu.registers.interrupt_master_enable = true;
    let old_sp = cpu.registers.sp;
    let cycles = cpu.cycle().unwrap();
    // 4 cycles for the NOP plus 12 for the dispatch.
    assert_eq!(cycles, 16);
    assert_eq!(cpu.registers.pc, 0x0040);
    assert!(!cpu.registers.interrupt_master_enable);
    assert_eq!(cpu.memory.read_byte(0xFF0F), 0x00);
    assert_eq!(cpu.registers.sp, old_sp.wrapping_sub(2));
    // The pushed return address is the instruction after the NOP.
    assert_eq!(cpu.memory.read_word(cpu.registers.sp), 0xC001);
}

#[test]
fn pending_interrupt_without_ime_only_clears_halt() {
    let mut memory = BlockMemory::new(0x10000);
    memory.write_byte(0xFFFF, 0x01);
    memory.write_byte(0xFF0F, 0x01);
    let mut cpu = Cpu::new(memory);
    cpu.registers.pc = 0xC000;
    cpu.registers.halt = true;
    let cycles = cpu.cycle().unwrap();
    assert_eq!(cycles, 4);
    assert!(!cpu.registers.halt);
    assert_eq!(cpu.memory.read_byte(0xFF0F), 0x01);
}

#[test]
fn undefined_opcode_reports_decode_error() {
    let mut cpu = cpu_with_program(&[0xD3]);
    let err = cpu.cycle().unwrap_err();
    assert_eq!(err.pc, 0);
    assert_eq!(err.opcode.b1, 0xD3);
    assert_eq!(err.registers.a, 0);
    // The machine is untouched: the next attempt reports the same fault.
    let again = cpu.cycle().unwrap_err();
    assert_eq!(again.pc, 0);
}

#[test]
fn halt_costs_four_cycles_until_interrupt() {
    let mut cpu = cpu_with_program(&[0x76]);
    assert_eq!(cpu.cycle().unwrap(), 4);
    assert!(cpu.registers.halt);
    assert_eq!(cpu.cycle().unwrap(), 4);
    assert!(cpu.registers.halt);
}

#[test]
fn stack_round_trip_push_pop() {
    // LD B,0x12; LD C,0x34; PUSH BC; POP DE
    let mut cpu = cpu_with_program(&[0x06, 0x12, 0x0E, 0x34, 0xC5, 0xD1]);
    cpu.registers.sp = 0xDFFE;
    for _ in 0..4 {
        cpu.cycle().unwrap();
    }
    assert_eq!(cpu.registers.d, 0x12);
    assert_eq!(cpu.registers.e, 0x34);
    assert_eq!(cpu.registers.sp, 0xDFFE);
}
