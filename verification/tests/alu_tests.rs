//! Arithmetic and logic instruction semantics: exact results and flags.

use gameboy_emulator::cpu::{Flag, Register16bit, Register8bit, CPU};
use gameboy_emulator::dispatch::{Operand16bit, Operand8bit};
use gameboy_emulator::instructions;

fn flags(cpu: &CPU) -> (bool, bool, bool, bool) {
    (
        cpu.get_flag(Flag::Z),
        cpu.get_flag(Flag::N),
        cpu.get_flag(Flag::H),
        cpu.get_flag(Flag::C),
    )
}

#[test]
fn add_half_carry_case() {
    let mut cpu = CPU::new();
    cpu.set_register_8bit(Register8bit::A, 0x0F);
    gameboy_emulator::instructions::add(&mut cpu, Operand8bit::Immediate(0x01));
    assert_eq!(cpu.get_register_8bit(Register8bit::A), 0x10);
    assert_eq!(flags(&cpu), (false, false, true, false));
}

#[test]
fn add_full_carry_case() {
    let mut cpu = CPU::new();
    cpu.set_register_8bit(Register8bit::A, 0xFF);
    gameboy_emulator::instructions::add(&mut cpu, Operand8bit::Immediate(0x01));
    assert_eq!(cpu.get_register_8bit(Register8bit::A), 0x00);
    assert_eq!(flags(&cpu), (true, false, true, true));
}

#[test]
fn sub_borrow_case() {
    let mut cpu = CPU::new();
    cpu.set_register_8bit(Register8bit::A, 0x00);
    gameboy_emulator::instructions::sub(&mut cpu, Operand8bit::Immediate(0x01));
    assert_eq!(cpu.get_register_8bit(Register8bit::A), 0xFF);
    assert_eq!(flags(&cpu), (false, true, true, true));
}

#[test]
fn adc_counts_carry_in() {
    let mut cpu = CPU::new();
    cpu.set_register_8bit(Register8bit::A, 0xFF);
    cpu.set_flag(Flag::C, true);
    instructions::adc(&mut cpu, Operand8bit::Immediate(0x00));
    assert_eq!(cpu.get_register_8bit(Register8bit::A), 0x00);
    assert_eq!(flags(&cpu), (true, false, true, true));
}

#[test]
fn sbc_counts_carry_in() {
    let mut cpu = CPU::new();
    cpu.set_register_8bit(Register8bit::A, 0x00);
    cpu.set_flag(Flag::C, true);
    instructions::sbc(&mut cpu, Operand8bit::Immediate(0x00));
    assert_eq!(cpu.get_register_8bit(Register8bit::A), 0xFF);
    assert_eq!(flags(&cpu), (false, true, true, true));
}

#[test]
fn and_sets_half_carry_flag_only() {
    let mut cpu = CPU::new();
    cpu.set_register_8bit(Register8bit::A, 0x5A);
    instructions::and(&mut cpu, Operand8bit::Immediate(0x0F));
    assert_eq!(cpu.get_register_8bit(Register8bit::A), 0x0A);
    assert_eq!(flags(&cpu), (false, false, true, false));
    instructions::and(&mut cpu, Operand8bit::Immediate(0x00));
    assert_eq!(flags(&cpu), (true, false, true, false));
}

#[test]
fn or_and_xor_clear_other_flags() {
    let mut cpu = CPU::new();
    cpu.set_register_8bit(Register8bit::A, 0xF0);
    instructions::or(&mut cpu, Operand8bit::Immediate(0x0F));
    assert_eq!(cpu.get_register_8bit(Register8bit::A), 0xFF);
    assert_eq!(flags(&cpu), (false, false, false, false));
    instructions::xor(&mut cpu, Operand8bit::Immediate(0xFF));
    assert_eq!(cpu.get_register_8bit(Register8bit::A), 0x00);
    assert_eq!(flags(&cpu), (true, false, false, false));
}

#[test]
fn cp_discards_result() {
    let mut cpu = CPU::new();
    cpu.set_register_8bit(Register8bit::A, 0x3C);
    instructions::cp(&mut cpu, Operand8bit::Immediate(0x2F));
    assert_eq!(cpu.get_register_8bit(Register8bit::A), 0x3C);
    assert_eq!(flags(&cpu), (false, true, true, false));
    instructions::cp(&mut cpu, Operand8bit::Immediate(0x3C));
    assert_eq!(flags(&cpu), (true, true, false, false));
    instructions::cp(&mut cpu, Operand8bit::Immediate(0x40));
    assert_eq!(flags(&cpu), (false, true, false, true));
}

#[test]
fn inc_keeps_carry_and_sets_half_carry() {
    let mut cpu = CPU::new();
    cpu.set_flag(Flag::C, true);
    cpu.set_register_8bit(Register8bit::B, 0x0F);
    instructions::inc(&mut cpu, Operand8bit::Register(Register8bit::B));
    assert_eq!(cpu.get_register_8bit(Register8bit::B), 0x10);
    assert_eq!(flags(&cpu), (false, false, true, true));
    cpu.set_register_8bit(Register8bit::B, 0xFF);
    instructions::inc(&mut cpu, Operand8bit::Register(Register8bit::B));
    assert_eq!(cpu.get_register_8bit(Register8bit::B), 0x00);
    assert_eq!(flags(&cpu), (true, false, true, true));
}

#[test]
fn dec_keeps_carry_and_sets_half_carry_on_borrow() {
    let mut cpu = CPU::new();
    cpu.set_flag(Flag::C, true);
    cpu.set_register_8bit(Register8bit::D, 0x10);
    instructions::dec(&mut cpu, Operand8bit::Register(Register8bit::D));
    assert_eq!(cpu.get_register_8bit(Register8bit::D), 0x0F);
    assert_eq!(flags(&cpu), (false, true, true, true));
    cpu.set_register_8bit(Register8bit::D, 0x01);
    instructions::dec(&mut cpu, Operand8bit::Register(Register8bit::D));
    assert_eq!(cpu.get_register_8bit(Register8bit::D), 0x00);
    assert_eq!(flags(&cpu), (true, true, false, true));
}

#[test]
fn addhl_uses_bit_11_and_bit_15_boundaries() {
    let mut cpu = CPU::new();
    cpu.set_flag(Flag::Z, true);
    cpu.set_register_16bit(Register16bit::HL, 0x0FFF);
    cpu.set_register_16bit(Register16bit::BC, 0x0001);
    instructions::addhl(&mut cpu, Operand16bit::Register(Register16bit::BC));
    assert_eq!(cpu.get_register_16bit(Register16bit::HL), 0x1000);
    assert_eq!(flags(&cpu), (true, false, true, false));
    cpu.set_register_16bit(Register16bit::HL, 0x8000);
    cpu.set_register_16bit(Register16bit::DE, 0x8000);
    instructions::addhl(&mut cpu, Operand16bit::Register(Register16bit::DE));
    assert_eq!(cpu.get_register_16bit(Register16bit::HL), 0x0000);
    assert_eq!(flags(&cpu), (true, false, false, true));
}

#[test]
fn addsp_signed_displacement_and_byte_carries() {
    let mut cpu = CPU::new();
    cpu.set_sp(0xFFF8);
    instructions::addsp(&mut cpu, Operand8bit::Immediate(0x08));
    assert_eq!(cpu.get_sp(), 0x0000);
    assert_eq!(flags(&cpu), (false, false, true, true));
    cpu.set_sp(0x0005);
    instructions::addsp(&mut cpu, Operand8bit::Immediate(0xFE));
    assert_eq!(cpu.get_sp(), 0x0003);
    assert_eq!(flags(&cpu), (false, false, true, true));
}

#[test]
fn ldhl_loads_hl_with_sp_plus_displacement() {
    let mut cpu = CPU::new();
    cpu.set_sp(0xFFF8);
    instructions::ldhl(&mut cpu, Operand8bit::Immediate(0x08));
    assert_eq!(cpu.get_register_16bit(Register16bit::HL), 0x0000);
    assert_eq!(cpu.get_sp(), 0xFFF8);
    assert_eq!(flags(&cpu), (false, false, true, true));
    cpu.set_sp(0x0200);
    instructions::ldhl(&mut cpu, Operand8bit::Immediate(0xFE));
    assert_eq!(cpu.get_register_16bit(Register16bit::HL), 0x01FE);
    assert_eq!(flags(&cpu), (false, false, false, false));
}

#[test]
fn inc16_dec16_wrap_without_flags() {
    let mut cpu = CPU::new();
    cpu.set_flag(Flag::Z, true);
    cpu.set_flag(Flag::C, true);
    cpu.set_register_16bit(Register16bit::BC, 0xFFFF);
    instructions::inc16(&mut cpu, Operand16bit::Register(Register16bit::BC));
    assert_eq!(cpu.get_register_16bit(Register16bit::BC), 0x0000);
    instructions::dec16(&mut cpu, Operand16bit::Register(Register16bit::BC));
    assert_eq!(cpu.get_register_16bit(Register16bit::BC), 0xFFFF);
    assert_eq!(flags(&cpu), (true, false, false, true));
}

#[test]
fn daa_corrects_bcd_addition() {
    let mut cpu = CPU::new();
    cpu.set_register_8bit(Register8bit::A, 0x3C);
    instructions::daa(&mut cpu);
    assert_eq!(cpu.get_register_8bit(Register8bit::A), 0x42);
    assert_eq!(flags(&cpu), (false, false, false, false));
    cpu.set_register_8bit(Register8bit::A, 0x9A);
    instructions::daa(&mut cpu);
    assert_eq!(cpu.get_register_8bit(Register8bit::A), 0x00);
    assert_eq!(flags(&cpu), (true, false, false, true));
}

#[test]
fn daa_corrects_bcd_subtraction() {
    let mut cpu = CPU::new();
    cpu.set_register_8bit(Register8bit::A, 0x20);
    instructions::sub(&mut cpu, Operand8bit::Immediate(0x13));
    assert_eq!(cpu.get_register_8bit(Register8bit::A), 0x0D);
    instructions::daa(&mut cpu);
    assert_eq!(cpu.get_register_8bit(Register8bit::A), 0x07);
    assert_eq!(flags(&cpu), (false, true, false, false));
}

#[test]
fn cpl_complements_a_and_sets_n_h() {
    let mut cpu = CPU::new();
    cpu.set_register_8bit(Register8bit::A, 0x35);
    cpu.set_flag(Flag::Z, true);
    cpu.set_flag(Flag::C, true);
    instructions::cpl(&mut cpu);
    assert_eq!(cpu.get_register_8bit(Register8bit::A), 0xCA);
    assert_eq!(flags(&cpu), (true, true, true, true));
}

#[test]
fn ccf_toggles_and_scf_sets_carry() {
    let mut cpu = CPU::new();
    cpu.set_flag(Flag::N, true);
    cpu.set_flag(Flag::H, true);
    instructions::ccf(&mut cpu);
    assert_eq!(flags(&cpu), (false, false, false, true));
    instructions::ccf(&mut cpu);
    assert_eq!(flags(&cpu), (false, false, false, false));
    instructions::scf(&mut cpu);
    assert_eq!(flags(&cpu), (false, false, false, true));
}

#[test]
fn ld_copies_between_operands() {
    let mut cpu = CPU::new();
    cpu.set_register_8bit(Register8bit::B, 0x77);
    instructions::ld(
        &mut cpu,
        Operand8bit::Register(Register8bit::C),
        Operand8bit::Register(Register8bit::B),
    );
    assert_eq!(cpu.get_register_8bit(Register8bit::C), 0x77);
    instructions::ld(
        &mut cpu,
        Operand8bit::Address(0xC000),
        Operand8bit::Immediate(0x9C),
    );
    assert_eq!(cpu.get_memory_8bit(0xC000), 0x9C);
}

#[test]
fn ldi_and_ldd_move_hl() {
    let mut cpu = CPU::new();
    cpu.set_register_16bit(Register16bit::HL, 0x8000);
    cpu.set_register_8bit(Register8bit::A, 0x07);
    instructions::ldi(
        &mut cpu,
        Operand8bit::Address(0x8000),
        Operand8bit::Register(Register8bit::A),
    );
    assert_eq!(cpu.get_memory_8bit(0x8000), 0x07);
    assert_eq!(cpu.get_register_16bit(Register16bit::HL), 0x8001);
    instructions::ldd(
        &mut cpu,
        Operand8bit::Register(Register8bit::B),
        Operand8bit::Address(0x8000),
    );
    assert_eq!(cpu.get_register_8bit(Register8bit::B), 0x07);
    assert_eq!(cpu.get_register_16bit(Register16bit::HL), 0x8000);
}

#[test]
fn push_pop_restores_sp_and_value() {
    let mut cpu = CPU::new();
    cpu.set_sp(0xFFFE);
    cpu.set_register_16bit(Register16bit::BC, 0x1234);
    instructions::push(&mut cpu, Operand16bit::Register(Register16bit::BC));
    assert_eq!(cpu.get_sp(), 0xFFFC);
    assert_eq!(cpu.get_memory_8bit(0xFFFC), 0x34);
    assert_eq!(cpu.get_memory_8bit(0xFFFD), 0x12);
    instructions::pop(&mut cpu, Operand16bit::Register(Register16bit::DE));
    assert_eq!(cpu.get_sp(), 0xFFFE);
    assert_eq!(cpu.get_register_16bit(Register16bit::DE), 0x1234);
}

#[test]
fn pop_into_af_masks_low_nibble() {
    let mut cpu = CPU::new();
    cpu.set_sp(0xFFFC);
    cpu.set_memory_16bit(0xFFFC, 0x12FF);
    instructions::pop(&mut cpu, Operand16bit::Register(Register16bit::AF));
    assert_eq!(cpu.get_register_16bit(Register16bit::AF), 0x12F0);
}
