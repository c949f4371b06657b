//! The dispatch engine end to end: fetch, decode, operand resolution,
//! control flow, ROM loading, and the serial-output memory convention.

use gameboy_emulator::cpu::{EmuError, Flag, Register16bit, Register8bit, CPU};
use gameboy_emulator::emulator::Emulator;

#[test]
fn step_nop_advances_pc_only() {
    let mut cpu = CPU::new();
    cpu.set_pc(0x0100);
    assert!(cpu.execute_instruction().is_ok());
    assert_eq!(cpu.get_pc(), 0x0101);
    assert_eq!(cpu.get_register_8bit(Register8bit::F), 0x00);
}

#[test]
fn step_ld_immediate_into_register() {
    let mut cpu = CPU::new();
    cpu.set_pc(0x0100);
    cpu.set_memory_8bit(0x0100, 0x06);
    cpu.set_memory_8bit(0x0101, 0x5A);
    assert!(cpu.execute_instruction().is_ok());
    assert_eq!(cpu.get_register_8bit(Register8bit::B), 0x5A);
    assert_eq!(cpu.get_pc(), 0x0102);
}

#[test]
fn step_add_resolves_hl_indirect() {
    let mut cpu = CPU::new();
    cpu.set_pc(0x0100);
    cpu.set_memory_8bit(0x0100, 0x86);
    cpu.set_register_16bit(Register16bit::HL, 0xC000);
    cpu.set_memory_8bit(0xC000, 0x0F);
    cpu.set_register_8bit(Register8bit::A, 0x01);
    assert!(cpu.execute_instruction().is_ok());
    assert_eq!(cpu.get_register_8bit(Register8bit::A), 0x10);
    assert!(cpu.get_flag(Flag::H));
    assert!(!cpu.get_flag(Flag::C));
}

#[test]
fn jr_with_negative_displacement() {
    let mut cpu = CPU::new();
    cpu.set_pc(0x014E);
    cpu.set_memory_8bit(0x014E, 0x18);
    cpu.set_memory_8bit(0x014F, 0xFE);
    assert!(cpu.execute_instruction().is_ok());
    assert_eq!(cpu.get_pc(), 0x014E);
}

#[test]
fn jr_conditional_taken_and_not_taken() {
    let mut cpu = CPU::new();
    cpu.set_pc(0x0100);
    cpu.set_memory_8bit(0x0100, 0x20);
    cpu.set_memory_8bit(0x0101, 0x05);
    cpu.set_flag(Flag::Z, true);
    assert!(cpu.execute_instruction().is_ok());
    assert_eq!(cpu.get_pc(), 0x0102);
    cpu.set_pc(0x0100);
    cpu.set_flag(Flag::Z, false);
    assert!(cpu.execute_instruction().is_ok());
    assert_eq!(cpu.get_pc(), 0x0107);
}

#[test]
fn call_pushes_the_following_address_and_ret_returns() {
    let mut cpu = CPU::new();
    cpu.set_sp(0xFFFE);
    cpu.set_pc(0x0200);
    cpu.set_memory_8bit(0x0200, 0xCD);
    cpu.set_memory_16bit(0x0201, 0x1234);
    assert!(cpu.execute_instruction().is_ok());
    assert_eq!(cpu.get_pc(), 0x1234);
    assert_eq!(cpu.get_sp(), 0xFFFC);
    assert_eq!(cpu.get_memory_16bit(0xFFFC), 0x0203);
    cpu.set_memory_8bit(0x1234, 0xC9);
    assert!(cpu.execute_instruction().is_ok());
    assert_eq!(cpu.get_pc(), 0x0203);
    assert_eq!(cpu.get_sp(), 0xFFFE);
}

#[test]
fn rst_jumps_to_fixed_vector() {
    let mut cpu = CPU::new();
    cpu.set_sp(0xFFFE);
    cpu.set_pc(0x0100);
    cpu.set_memory_8bit(0x0100, 0xFF);
    assert!(cpu.execute_instruction().is_ok());
    assert_eq!(cpu.get_pc(), 0x0038);
    assert_eq!(cpu.get_memory_16bit(0xFFFC), 0x0101);
}

#[test]
fn zero_page_addressing_through_c_and_immediate() {
    let mut cpu = CPU::new();
    cpu.set_pc(0x0100);
    cpu.set_memory_8bit(0x0100, 0xE2);
    cpu.set_register_8bit(Register8bit::C, 0x05);
    cpu.set_register_8bit(Register8bit::A, 0x42);
    assert!(cpu.execute_instruction().is_ok());
    assert_eq!(cpu.get_memory_8bit(0xFF05), 0x42);
    assert_eq!(cpu.get_pc(), 0x0101);
    cpu.set_memory_8bit(0x0101, 0xF0);
    cpu.set_memory_8bit(0x0102, 0x10);
    cpu.set_memory_8bit(0xFF10, 0x99);
    assert!(cpu.execute_instruction().is_ok());
    assert_eq!(cpu.get_register_8bit(Register8bit::A), 0x99);
    assert_eq!(cpu.get_pc(), 0x0103);
}

#[test]
fn store_sp_at_absolute_address() {
    let mut cpu = CPU::new();
    cpu.set_sp(0xFFF8);
    cpu.set_pc(0x0100);
    cpu.set_memory_8bit(0x0100, 0x08);
    cpu.set_memory_16bit(0x0101, 0xC100);
    assert!(cpu.execute_instruction().is_ok());
    assert_eq!(cpu.get_memory_16bit(0xC100), 0xFFF8);
    assert_eq!(cpu.get_pc(), 0x0103);
}

#[test]
fn cb_prefix_bit_7_through_the_table() {
    let mut cpu = CPU::new();
    cpu.set_pc(0x0100);
    cpu.set_memory_8bit(0x0100, 0xCB);
    cpu.set_memory_8bit(0x0101, 0x7F);
    cpu.set_register_8bit(Register8bit::A, 0x80);
    assert!(cpu.execute_instruction().is_ok());
    assert!(!cpu.get_flag(Flag::Z));
    assert!(cpu.get_flag(Flag::H));
    assert!(!cpu.get_flag(Flag::N));
    assert_eq!(cpu.get_pc(), 0x0102);
    cpu.set_pc(0x0100);
    cpu.set_register_8bit(Register8bit::A, 0x00);
    assert!(cpu.execute_instruction().is_ok());
    assert!(cpu.get_flag(Flag::Z));
}

#[test]
fn cb_prefix_set_on_hl_indirect() {
    let mut cpu = CPU::new();
    cpu.set_pc(0x0100);
    cpu.set_memory_8bit(0x0100, 0xCB);
    cpu.set_memory_8bit(0x0101, 0xFE);
    cpu.set_register_16bit(Register16bit::HL, 0xC000);
    cpu.set_memory_8bit(0xC000, 0x00);
    assert!(cpu.execute_instruction().is_ok());
    assert_eq!(cpu.get_memory_8bit(0xC000), 0x80);
}

#[test]
fn illegal_opcode_is_a_fatal_error() {
    let mut cpu = CPU::new();
    cpu.set_pc(0x0100);
    cpu.set_memory_8bit(0x0100, 0xD3);
    let result = cpu.execute_instruction();
    assert_eq!(result, Err(EmuError::IllegalOpcode));
    assert_eq!(cpu.get_pc(), 0x0101);
}

#[test]
fn ei_di_toggle_interrupt_master_enable() {
    let mut cpu = CPU::new();
    cpu.set_pc(0x0100);
    cpu.set_memory_8bit(0x0100, 0xFB);
    cpu.set_memory_8bit(0x0101, 0xF3);
    assert!(cpu.execute_instruction().is_ok());
    assert!(cpu.ime_flag);
    assert!(cpu.execute_instruction().is_ok());
    assert!(!cpu.ime_flag);
}

#[test]
fn load_rom_copies_bytes_from_address_zero() {
    let mut cpu = CPU::new();
    let rom: Vec<u8> = vec![0x3E, 0x42, 0x00];
    assert!(cpu.load_rom(&rom).is_ok());
    assert_eq!(cpu.get_memory_8bit(0x0000), 0x3E);
    assert_eq!(cpu.get_memory_8bit(0x0001), 0x42);
    assert_eq!(cpu.get_memory_8bit(0x0002), 0x00);
}

#[test]
fn load_rom_accepts_a_full_64kb_image() {
    let mut cpu = CPU::new();
    let rom: Vec<u8> = vec![0xAA; 65536];
    assert!(cpu.load_rom(&rom).is_ok());
    assert_eq!(cpu.get_memory_8bit(0xFFFF), 0xAA);
}

#[test]
fn load_rom_rejects_an_oversized_image() {
    let mut cpu = CPU::new();
    cpu.set_memory_8bit(0x0000, 0x77);
    let rom: Vec<u8> = vec![0x00; 65537];
    assert_eq!(cpu.load_rom(&rom), Err(EmuError::RomTooLarge));
    assert_eq!(cpu.get_memory_8bit(0x0000), 0x77);
}

#[test]
fn serial_convention_scenario() {
    let mut emulator = Emulator::default();
    let mut rom: Vec<u8> = vec![0x00; 0x0100];
    rom.extend_from_slice(&[
        0x3E, 0x48, // ld a, 0x48
        0xE0, 0x01, // ld (0xFF01), a
        0x3E, 0x81, // ld a, 0x81
        0xE0, 0x02, // ld (0xFF02), a
        0x18, 0xFE, // jr -2
    ]);
    assert!(emulator.cpu.load_rom(&rom).is_ok());
    emulator.cpu.set_pc(0x0100);
    let mut serial_output = String::new();
    for _ in 0..16 {
        assert!(emulator.cpu.execute_instruction().is_ok());
        if emulator.cpu.get_memory_8bit(0xFF02) == 0x81 {
            serial_output.push(emulator.cpu.get_memory_8bit(0xFF01) as char);
            emulator.cpu.set_memory_8bit(0xFF02, 0x00);
        }
    }
    assert_eq!(serial_output, "H");
    assert_eq!(emulator.cpu.get_pc(), 0x0108);
}

#[test]
fn trace_state_after_power_on_step() {
    let mut cpu = CPU::new_with_power_on_state();
    cpu.set_memory_8bit(0x0100, 0x00);
    cpu.set_memory_8bit(0x0101, 0xC3);
    cpu.set_memory_16bit(0x0102, 0x0150);
    assert!(cpu.execute_instruction().is_ok());
    let pc = cpu.get_pc();
    assert_eq!(pc, 0x0101);
    let pcmem: [u8; 4] = [
        cpu.get_memory_8bit(pc),
        cpu.get_memory_8bit(pc.wrapping_add(1)),
        cpu.get_memory_8bit(pc.wrapping_add(2)),
        cpu.get_memory_8bit(pc.wrapping_add(3)),
    ];
    assert_eq!(pcmem, [0xC3, 0x50, 0x01, 0x00]);
    assert!(cpu.execute_instruction().is_ok());
    assert_eq!(cpu.get_pc(), 0x0150);
}

#[test]
fn ldi_and_ldd_opcodes_move_hl() {
    let mut cpu = CPU::new();
    cpu.set_pc(0x0100);
    cpu.set_memory_8bit(0x0100, 0x22);
    cpu.set_memory_8bit(0x0101, 0x3A);
    cpu.set_register_16bit(Register16bit::HL, 0xC000);
    cpu.set_register_8bit(Register8bit::A, 0x11);
    assert!(cpu.execute_instruction().is_ok());
    assert_eq!(cpu.get_memory_8bit(0xC000), 0x11);
    assert_eq!(cpu.get_register_16bit(Register16bit::HL), 0xC001);
    cpu.set_memory_8bit(0xC001, 0x77);
    assert!(cpu.execute_instruction().is_ok());
    assert_eq!(cpu.get_register_8bit(Register8bit::A), 0x77);
    assert_eq!(cpu.get_register_16bit(Register16bit::HL), 0xC000);
}

#[test]
fn halt_and_stop_are_inert_at_this_layer() {
    let mut cpu = CPU::new();
    cpu.set_pc(0x0100);
    cpu.set_memory_8bit(0x0100, 0x76);
    assert!(cpu.execute_instruction().is_ok());
    assert_eq!(cpu.get_pc(), 0x0101);
    cpu.set_memory_8bit(0x0101, 0x10);
    cpu.set_memory_8bit(0x0102, 0x00);
    assert!(cpu.execute_instruction().is_ok());
    assert_eq!(cpu.get_pc(), 0x0103);
}

#[test]
fn push_pop_opcodes_round_trip_through_another_pair() {
    let mut cpu = CPU::new();
    cpu.set_sp(0xFFFE);
    cpu.set_pc(0x0100);
    cpu.set_register_16bit(Register16bit::DE, 0xBEEF);
    cpu.set_memory_8bit(0x0100, 0xD5);
    cpu.set_memory_8bit(0x0101, 0xC1);
    assert!(cpu.execute_instruction().is_ok());
    assert!(cpu.execute_instruction().is_ok());
    assert_eq!(cpu.get_register_16bit(Register16bit::BC), 0xBEEF);
    assert_eq!(cpu.get_sp(), 0xFFFE);
}
