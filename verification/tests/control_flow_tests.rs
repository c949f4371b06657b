//! Conditional jumps, calls and returns, and the remaining control flow.

use gameboy_emulator::cpu::{Flag, Register16bit, CPU};
use gameboy_emulator::dispatch::{Operand16bit, Operand8bit};
use gameboy_emulator::instructions;

#[test]
fn jp_and_jphl_load_pc() {
    let mut cpu = CPU::new();
    instructions::jp(&mut cpu, Operand16bit::Immediate(0x3000));
    assert_eq!(cpu.get_pc(), 0x3000);
    cpu.set_register_16bit(Register16bit::HL, 0x2222);
    instructions::jphl(&mut cpu);
    assert_eq!(cpu.get_pc(), 0x2222);
}

#[test]
fn conditional_jumps_respect_their_flag() {
    let mut cpu = CPU::new();
    cpu.set_pc(0x0100);
    instructions::jpz(&mut cpu, Operand16bit::Immediate(0x3000));
    assert_eq!(cpu.get_pc(), 0x0100);
    cpu.set_flag(Flag::Z, true);
    instructions::jpz(&mut cpu, Operand16bit::Immediate(0x3000));
    assert_eq!(cpu.get_pc(), 0x3000);
    instructions::jpnz(&mut cpu, Operand16bit::Immediate(0x4000));
    assert_eq!(cpu.get_pc(), 0x3000);
    cpu.set_flag(Flag::Z, false);
    instructions::jpnz(&mut cpu, Operand16bit::Immediate(0x4000));
    assert_eq!(cpu.get_pc(), 0x4000);
    instructions::jpc(&mut cpu, Operand16bit::Immediate(0x5000));
    assert_eq!(cpu.get_pc(), 0x4000);
    cpu.set_flag(Flag::C, true);
    instructions::jpc(&mut cpu, Operand16bit::Immediate(0x5000));
    assert_eq!(cpu.get_pc(), 0x5000);
    instructions::jpnc(&mut cpu, Operand16bit::Immediate(0x6000));
    assert_eq!(cpu.get_pc(), 0x5000);
    cpu.set_flag(Flag::C, false);
    instructions::jpnc(&mut cpu, Operand16bit::Immediate(0x6000));
    assert_eq!(cpu.get_pc(), 0x6000);
}

#[test]
fn conditional_relative_jumps_respect_their_flag() {
    let mut cpu = CPU::new();
    cpu.set_pc(0x0200);
    instructions::jrz(&mut cpu, Operand8bit::Immediate(0x10));
    assert_eq!(cpu.get_pc(), 0x0200);
    cpu.set_flag(Flag::Z, true);
    instructions::jrz(&mut cpu, Operand8bit::Immediate(0x10));
    assert_eq!(cpu.get_pc(), 0x0210);
    cpu.set_flag(Flag::C, true);
    instructions::jrc(&mut cpu, Operand8bit::Immediate(0xF0));
    assert_eq!(cpu.get_pc(), 0x0200);
    instructions::jrnc(&mut cpu, Operand8bit::Immediate(0x10));
    assert_eq!(cpu.get_pc(), 0x0200);
    cpu.set_flag(Flag::C, false);
    instructions::jrnc(&mut cpu, Operand8bit::Immediate(0x02));
    assert_eq!(cpu.get_pc(), 0x0202);
}

#[test]
fn conditional_calls_and_returns() {
    let mut cpu = CPU::new();
    cpu.set_sp(0xFFFE);
    cpu.set_pc(0x0300);
    instructions::callz(&mut cpu, Operand16bit::Immediate(0x1234));
    assert_eq!(cpu.get_pc(), 0x0300);
    assert_eq!(cpu.get_sp(), 0xFFFE);
    cpu.set_flag(Flag::Z, true);
    instructions::callz(&mut cpu, Operand16bit::Immediate(0x1234));
    assert_eq!(cpu.get_pc(), 0x1234);
    assert_eq!(cpu.get_sp(), 0xFFFC);
    assert_eq!(cpu.get_memory_16bit(0xFFFC), 0x0300);
    instructions::retnz(&mut cpu);
    assert_eq!(cpu.get_pc(), 0x1234);
    instructions::retz(&mut cpu);
    assert_eq!(cpu.get_pc(), 0x0300);
    assert_eq!(cpu.get_sp(), 0xFFFE);
}

#[test]
fn conditional_carry_calls_and_returns() {
    let mut cpu = CPU::new();
    cpu.set_sp(0xFFFE);
    cpu.set_pc(0x0400);
    instructions::callc(&mut cpu, Operand16bit::Immediate(0x2000));
    assert_eq!(cpu.get_pc(), 0x0400);
    instructions::callnc(&mut cpu, Operand16bit::Immediate(0x2000));
    assert_eq!(cpu.get_pc(), 0x2000);
    instructions::retc(&mut cpu);
    assert_eq!(cpu.get_pc(), 0x2000);
    instructions::retnc(&mut cpu);
    assert_eq!(cpu.get_pc(), 0x0400);
    assert_eq!(cpu.get_sp(), 0xFFFE);
}

#[test]
fn reti_enables_interrupts_and_returns() {
    let mut cpu = CPU::new();
    cpu.set_sp(0xFFFC);
    cpu.set_memory_16bit(0xFFFC, 0x0500);
    instructions::reti(&mut cpu);
    assert!(cpu.ime_flag);
    assert_eq!(cpu.get_pc(), 0x0500);
    assert_eq!(cpu.get_sp(), 0xFFFE);
}

#[test]
fn rst_via_table_uses_fixed_vectors() {
    let mut cpu = CPU::new();
    cpu.set_sp(0xFFFE);
    for (opcode, vector) in [
        (0xC7u8, 0x0000u16),
        (0xCF, 0x0008),
        (0xD7, 0x0010),
        (0xDF, 0x0018),
        (0xE7, 0x0020),
        (0xEF, 0x0028),
        (0xF7, 0x0030),
        (0xFF, 0x0038),
    ] {
        cpu.set_pc(0x0100);
        cpu.set_memory_8bit(0x0100, opcode);
        assert!(cpu.execute_instruction().is_ok());
        assert_eq!(cpu.get_pc(), vector);
        assert_eq!(cpu.pop_16bit_sp(), 0x0101);
    }
}

#[test]
fn ei_di_functions_toggle_ime() {
    let mut cpu = CPU::new();
    instructions::ei(&mut cpu);
    assert!(cpu.ime_flag);
    instructions::di(&mut cpu);
    assert!(!cpu.ime_flag);
    instructions::nop(&mut cpu);
    assert!(!cpu.ime_flag);
}
