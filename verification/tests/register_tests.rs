//! Register file, flag store and memory bus behaviour.

use gameboy_emulator::cpu::{Flag, Register16bit, Register8bit, CPU};
use gameboy_emulator::emulator::Emulator;

#[test]
fn write_then_read_each_register() {
    let mut cpu = CPU::new();
    let regs = [
        Register8bit::A,
        Register8bit::B,
        Register8bit::C,
        Register8bit::D,
        Register8bit::E,
        Register8bit::H,
        Register8bit::L,
    ];
    for (i, r) in regs.iter().enumerate() {
        let value: u8 = 0x11u8.wrapping_mul(i as u8 + 1);
        cpu.set_register_8bit(*r, value);
        assert_eq!(cpu.get_register_8bit(*r), value);
    }
}

#[test]
fn writing_f_masks_low_nibble() {
    let mut cpu = CPU::new();
    cpu.set_register_8bit(Register8bit::F, 0xFF);
    assert_eq!(cpu.get_register_8bit(Register8bit::F), 0xF0);
    cpu.set_register_8bit(Register8bit::F, 0xB7);
    assert_eq!(cpu.get_register_8bit(Register8bit::F), 0xB0);
}

#[test]
fn writing_af_masks_low_nibble() {
    let mut cpu = CPU::new();
    cpu.set_register_16bit(Register16bit::AF, 0x12FF);
    assert_eq!(cpu.get_register_16bit(Register16bit::AF), 0x12F0);
    assert_eq!(cpu.get_register_8bit(Register8bit::A), 0x12);
    assert_eq!(cpu.get_register_8bit(Register8bit::F), 0xF0);
}

#[test]
fn register_pairs_join_high_and_low() {
    let mut cpu = CPU::new();
    cpu.set_register_16bit(Register16bit::BC, 0x1234);
    assert_eq!(cpu.get_register_8bit(Register8bit::B), 0x12);
    assert_eq!(cpu.get_register_8bit(Register8bit::C), 0x34);
    assert_eq!(cpu.get_register_16bit(Register16bit::BC), 0x1234);
    cpu.set_register_8bit(Register8bit::D, 0xAB);
    cpu.set_register_8bit(Register8bit::E, 0xCD);
    assert_eq!(cpu.get_register_16bit(Register16bit::DE), 0xABCD);
    cpu.set_register_16bit(Register16bit::HL, 0xFFFF);
    assert_eq!(cpu.get_register_16bit(Register16bit::HL), 0xFFFF);
}

#[test]
fn flags_set_and_clear_independently() {
    let mut cpu = CPU::new();
    cpu.set_flag(Flag::Z, true);
    cpu.set_flag(Flag::C, true);
    assert!(cpu.get_flag(Flag::Z));
    assert!(!cpu.get_flag(Flag::N));
    assert!(!cpu.get_flag(Flag::H));
    assert!(cpu.get_flag(Flag::C));
    assert_eq!(cpu.get_register_8bit(Register8bit::F), 0x90);
    cpu.set_flag(Flag::Z, false);
    cpu.set_flag(Flag::N, true);
    cpu.set_flag(Flag::H, true);
    assert_eq!(cpu.get_register_8bit(Register8bit::F), 0x70);
}

#[test]
fn memory_byte_round_trip() {
    let mut cpu = CPU::new();
    cpu.set_memory_8bit(0x0000, 0x12);
    cpu.set_memory_8bit(0xFFFF, 0x34);
    cpu.set_memory_8bit(0xC000, 0x56);
    assert_eq!(cpu.get_memory_8bit(0x0000), 0x12);
    assert_eq!(cpu.get_memory_8bit(0xFFFF), 0x34);
    assert_eq!(cpu.get_memory_8bit(0xC000), 0x56);
}

#[test]
fn memory_word_is_little_endian() {
    let mut cpu = CPU::new();
    cpu.set_memory_16bit(0xC000, 0x1234);
    assert_eq!(cpu.get_memory_8bit(0xC000), 0x34);
    assert_eq!(cpu.get_memory_8bit(0xC001), 0x12);
    assert_eq!(cpu.get_memory_16bit(0xC000), 0x1234);
}

#[test]
fn memory_word_wraps_at_top_of_memory() {
    let mut cpu = CPU::new();
    cpu.set_memory_16bit(0xFFFF, 0xABCD);
    assert_eq!(cpu.get_memory_8bit(0xFFFF), 0xCD);
    assert_eq!(cpu.get_memory_8bit(0x0000), 0xAB);
    assert_eq!(cpu.get_memory_16bit(0xFFFF), 0xABCD);
}

#[test]
fn fetch_advances_pc_and_wraps() {
    let mut cpu = CPU::new();
    cpu.set_memory_8bit(0x0100, 0x42);
    cpu.set_pc(0x0100);
    assert_eq!(cpu.fetch_next_8bits_pc(), 0x42);
    assert_eq!(cpu.get_pc(), 0x0101);
    cpu.set_memory_16bit(0x0101, 0xBEEF);
    assert_eq!(cpu.fetch_next_16bits_pc(), 0xBEEF);
    assert_eq!(cpu.get_pc(), 0x0103);
    cpu.set_pc(0xFFFF);
    cpu.set_memory_8bit(0xFFFF, 0x99);
    assert_eq!(cpu.fetch_next_8bits_pc(), 0x99);
    assert_eq!(cpu.get_pc(), 0x0000);
}

#[test]
fn stack_push_pop_bytes_and_words() {
    let mut cpu = CPU::new();
    cpu.set_sp(0xFFFE);
    cpu.push_8bit_sp(0x7A);
    assert_eq!(cpu.get_sp(), 0xFFFD);
    assert_eq!(cpu.pop_8bit_sp(), 0x7A);
    assert_eq!(cpu.get_sp(), 0xFFFE);
    cpu.push_16bit_sp(0x1234);
    assert_eq!(cpu.get_sp(), 0xFFFC);
    assert_eq!(cpu.get_memory_8bit(0xFFFC), 0x34);
    assert_eq!(cpu.get_memory_8bit(0xFFFD), 0x12);
    assert_eq!(cpu.pop_16bit_sp(), 0x1234);
    assert_eq!(cpu.get_sp(), 0xFFFE);
}

#[test]
fn new_cpu_is_all_zero() {
    let cpu = CPU::new();
    for r in [
        Register8bit::A,
        Register8bit::F,
        Register8bit::B,
        Register8bit::C,
        Register8bit::D,
        Register8bit::E,
        Register8bit::H,
        Register8bit::L,
    ] {
        assert_eq!(cpu.get_register_8bit(r), 0x00);
    }
    assert_eq!(cpu.get_sp(), 0x0000);
    assert_eq!(cpu.get_pc(), 0x0000);
    assert_eq!(cpu.get_memory_8bit(0x1234), 0x00);
}

#[test]
fn power_on_state_matches_documentation() {
    let cpu = CPU::new_with_power_on_state();
    assert_eq!(cpu.get_register_8bit(Register8bit::A), 0x01);
    assert_eq!(cpu.get_register_8bit(Register8bit::F), 0xB0);
    assert_eq!(cpu.get_register_8bit(Register8bit::B), 0x00);
    assert_eq!(cpu.get_register_8bit(Register8bit::C), 0x13);
    assert_eq!(cpu.get_register_8bit(Register8bit::D), 0x00);
    assert_eq!(cpu.get_register_8bit(Register8bit::E), 0xD8);
    assert_eq!(cpu.get_register_8bit(Register8bit::H), 0x01);
    assert_eq!(cpu.get_register_8bit(Register8bit::L), 0x4D);
    assert_eq!(cpu.get_sp(), 0xFFFE);
    assert_eq!(cpu.get_pc(), 0x0100);
}

#[test]
fn emulator_owns_a_fresh_cpu() {
    let emulator = Emulator::default();
    assert_eq!(emulator.cpu.get_pc(), 0x0000);
    assert_eq!(emulator.cpu.get_sp(), 0x0000);
    assert_eq!(emulator.cpu.get_register_8bit(Register8bit::A), 0x00);
}

#[test]
fn handle_interrupts_is_inert_with_enable_clear() {
    let mut cpu = CPU::new();
    cpu.set_pc(0x0200);
    cpu.handle_interrupts();
    assert_eq!(cpu.get_pc(), 0x0200);
    assert_eq!(cpu.get_memory_8bit(0xFFFF), 0x00);
}

#[test]
fn memory_from_register_pairs() {
    let mut cpu = CPU::new();
    cpu.set_register_16bit(Register16bit::HL, 0xC123);
    cpu.set_8bit_memory_from_register(0x5A, Register16bit::HL);
    assert_eq!(cpu.get_memory_8bit(0xC123), 0x5A);
    assert_eq!(cpu.get_8bit_memory_from_register(Register16bit::HL), 0x5A);
    cpu.set_16bit_memory_from_register(0xFACE, Register16bit::HL);
    assert_eq!(cpu.get_16bit_memory_from_register(Register16bit::HL), 0xFACE);
}
