//! Rotate, shift and single-bit instruction semantics.

use gameboy_emulator::bitwise;
use gameboy_emulator::cpu::{Flag, Register8bit, CPU};
use gameboy_emulator::dispatch::Operand8bit;
use gameboy_emulator::instructions;

fn flags(cpu: &CPU) -> (bool, bool, bool, bool) {
    (
        cpu.get_flag(Flag::Z),
        cpu.get_flag(Flag::N),
        cpu.get_flag(Flag::H),
        cpu.get_flag(Flag::C),
    )
}

#[test]
fn rlca_carries_out_bit_7() {
    let mut cpu = CPU::new();
    cpu.set_register_8bit(Register8bit::A, 0x85);
    instructions::rlca(&mut cpu);
    assert_eq!(cpu.get_register_8bit(Register8bit::A), 0x0B);
    assert_eq!(flags(&cpu), (false, false, false, true));
}

#[test]
fn rla_rotates_through_carry() {
    let mut cpu = CPU::new();
    cpu.set_register_8bit(Register8bit::A, 0x95);
    cpu.set_flag(Flag::C, true);
    instructions::rla(&mut cpu);
    assert_eq!(cpu.get_register_8bit(Register8bit::A), 0x2B);
    assert_eq!(flags(&cpu), (false, false, false, true));
}

#[test]
fn rrca_carries_out_bit_0() {
    let mut cpu = CPU::new();
    cpu.set_register_8bit(Register8bit::A, 0x3B);
    instructions::rrca(&mut cpu);
    assert_eq!(cpu.get_register_8bit(Register8bit::A), 0x9D);
    assert_eq!(flags(&cpu), (false, false, false, true));
}

#[test]
fn rra_rotates_through_carry() {
    let mut cpu = CPU::new();
    cpu.set_register_8bit(Register8bit::A, 0x81);
    instructions::rra(&mut cpu);
    assert_eq!(cpu.get_register_8bit(Register8bit::A), 0x40);
    assert_eq!(flags(&cpu), (false, false, false, true));
}

#[test]
fn rlc_and_rrc_set_zero_flag() {
    let mut cpu = CPU::new();
    cpu.set_register_8bit(Register8bit::B, 0x85);
    instructions::rlc(&mut cpu, Operand8bit::Register(Register8bit::B));
    assert_eq!(cpu.get_register_8bit(Register8bit::B), 0x0B);
    assert_eq!(flags(&cpu), (false, false, false, true));
    cpu.set_register_8bit(Register8bit::C, 0x00);
    instructions::rlc(&mut cpu, Operand8bit::Register(Register8bit::C));
    assert_eq!(flags(&cpu), (true, false, false, false));
    cpu.set_register_8bit(Register8bit::D, 0x01);
    instructions::rrc(&mut cpu, Operand8bit::Register(Register8bit::D));
    assert_eq!(cpu.get_register_8bit(Register8bit::D), 0x80);
    assert_eq!(flags(&cpu), (false, false, false, true));
}

#[test]
fn rl_and_rr_rotate_through_carry() {
    let mut cpu = CPU::new();
    cpu.set_register_8bit(Register8bit::E, 0x80);
    instructions::rl(&mut cpu, Operand8bit::Register(Register8bit::E));
    assert_eq!(cpu.get_register_8bit(Register8bit::E), 0x00);
    assert_eq!(flags(&cpu), (true, false, false, true));
    instructions::rl(&mut cpu, Operand8bit::Register(Register8bit::E));
    assert_eq!(cpu.get_register_8bit(Register8bit::E), 0x01);
    assert_eq!(flags(&cpu), (false, false, false, false));
    cpu.set_register_8bit(Register8bit::H, 0x01);
    instructions::rr(&mut cpu, Operand8bit::Register(Register8bit::H));
    assert_eq!(cpu.get_register_8bit(Register8bit::H), 0x00);
    assert_eq!(flags(&cpu), (true, false, false, true));
    instructions::rr(&mut cpu, Operand8bit::Register(Register8bit::H));
    assert_eq!(cpu.get_register_8bit(Register8bit::H), 0x80);
    assert_eq!(flags(&cpu), (false, false, false, false));
}

#[test]
fn shifts_report_the_shifted_out_bit() {
    let mut cpu = CPU::new();
    cpu.set_register_8bit(Register8bit::L, 0x80);
    instructions::sla(&mut cpu, Operand8bit::Register(Register8bit::L));
    assert_eq!(cpu.get_register_8bit(Register8bit::L), 0x00);
    assert_eq!(flags(&cpu), (true, false, false, true));
    cpu.set_register_8bit(Register8bit::A, 0x8A);
    instructions::sra(&mut cpu, Operand8bit::Register(Register8bit::A));
    assert_eq!(cpu.get_register_8bit(Register8bit::A), 0xC5);
    assert_eq!(flags(&cpu), (false, false, false, false));
    cpu.set_register_8bit(Register8bit::B, 0x01);
    instructions::srl(&mut cpu, Operand8bit::Register(Register8bit::B));
    assert_eq!(cpu.get_register_8bit(Register8bit::B), 0x00);
    assert_eq!(flags(&cpu), (true, false, false, true));
}

#[test]
fn swap_exchanges_nibbles() {
    let mut cpu = CPU::new();
    cpu.set_flag(Flag::C, true);
    cpu.set_register_8bit(Register8bit::A, 0xF1);
    instructions::swap(&mut cpu, Operand8bit::Register(Register8bit::A));
    assert_eq!(cpu.get_register_8bit(Register8bit::A), 0x1F);
    assert_eq!(flags(&cpu), (false, false, false, false));
    cpu.set_register_8bit(Register8bit::A, 0x00);
    instructions::swap(&mut cpu, Operand8bit::Register(Register8bit::A));
    assert_eq!(flags(&cpu), (true, false, false, false));
}

#[test]
fn bit_7_tests_the_named_bit() {
    let mut cpu = CPU::new();
    cpu.set_register_8bit(Register8bit::A, 0x80);
    instructions::bit(
        &mut cpu,
        Operand8bit::Immediate(7),
        Operand8bit::Register(Register8bit::A),
    );
    assert_eq!(flags(&cpu), (false, false, true, false));
    cpu.set_register_8bit(Register8bit::A, 0x00);
    instructions::bit(
        &mut cpu,
        Operand8bit::Immediate(7),
        Operand8bit::Register(Register8bit::A),
    );
    assert!(cpu.get_flag(Flag::Z));
    assert!(cpu.get_flag(Flag::H));
    assert!(!cpu.get_flag(Flag::N));
}

#[test]
fn bit_keeps_carry_and_operand() {
    let mut cpu = CPU::new();
    cpu.set_flag(Flag::C, true);
    cpu.set_register_8bit(Register8bit::E, 0x04);
    instructions::bit(
        &mut cpu,
        Operand8bit::Immediate(2),
        Operand8bit::Register(Register8bit::E),
    );
    assert_eq!(cpu.get_register_8bit(Register8bit::E), 0x04);
    assert_eq!(flags(&cpu), (false, false, true, true));
}

#[test]
fn set_and_res_force_single_bits() {
    let mut cpu = CPU::new();
    cpu.set_register_8bit(Register8bit::B, 0x00);
    gameboy_emulator::instructions::set(
        &mut cpu,
        Operand8bit::Immediate(3),
        Operand8bit::Register(Register8bit::B),
    );
    assert_eq!(cpu.get_register_8bit(Register8bit::B), 0x08);
    gameboy_emulator::instructions::set(
        &mut cpu,
        Operand8bit::Immediate(7),
        Operand8bit::Register(Register8bit::B),
    );
    assert_eq!(cpu.get_register_8bit(Register8bit::B), 0x88);
    instructions::res(
        &mut cpu,
        Operand8bit::Immediate(3),
        Operand8bit::Register(Register8bit::B),
    );
    assert_eq!(cpu.get_register_8bit(Register8bit::B), 0x80);
    assert_eq!(cpu.get_register_8bit(Register8bit::F), 0x00);
}

#[test]
fn bitwise_helpers_round_trip() {
    assert!(bitwise::get_bit(0x80u8, 7));
    assert!(!bitwise::get_bit(0x80u8, 6));
    assert_eq!(bitwise::set_bit(0x00u8, 4, true), 0x10);
    assert_eq!(bitwise::set_bit(0xFFu8, 0, false), 0xFE);
    let mut value: u16 = 0x0000;
    bitwise::assign_bit(&mut value, 15, true);
    assert_eq!(value, 0x8000);
    assert_eq!(bitwise::hl_to_16b(0x34, 0x12), 0x1234);
    assert_eq!(bitwise::get_high(0x1234), 0x12);
    assert_eq!(bitwise::get_low(0x1234), 0x34);
}
