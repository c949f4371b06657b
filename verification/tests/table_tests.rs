//! The opcode table: totality, the unassigned set, and the CB block shape.

use gameboy_emulator::cpu::{Register16bit, Register8bit};
use gameboy_emulator::dispatch::{AddressingMode8bit, BinaryOp8, Instruction, NullaryOp, UnaryOp8};
use gameboy_emulator::table::instruction_entry;

const UNASSIGNED: [u16; 11] = [
    0xD3, 0xDB, 0xDD, 0xE3, 0xE4, 0xEB, 0xEC, 0xED, 0xF4, 0xFC, 0xFD,
];

#[test]
fn invalid_entries_are_exactly_the_unassigned_opcodes() {
    for i in 0u16..512u16 {
        let entry = instruction_entry(i);
        let expected = UNASSIGNED.contains(&i);
        assert_eq!(
            matches!(entry, Instruction::Invalid),
            expected,
            "opcode {:#05X}",
            i
        );
    }
}

#[test]
fn prefix_entry_sits_at_0xcb_only() {
    for i in 0u16..512u16 {
        let entry = instruction_entry(i);
        assert_eq!(matches!(entry, Instruction::Prefix), i == 0xCB);
    }
}

#[test]
fn first_row_spot_checks() {
    assert!(matches!(
        instruction_entry(0x00),
        Instruction::Implied(NullaryOp::Nop)
    ));
    assert!(matches!(
        instruction_entry(0x04),
        Instruction::Op8bit(UnaryOp8::Inc, AddressingMode8bit::Register(_))
    ));
    assert!(matches!(
        instruction_entry(0x76),
        Instruction::Implied(NullaryOp::Halt)
    ));
    assert!(matches!(
        instruction_entry(0x80),
        Instruction::Op8bit(UnaryOp8::Add, AddressingMode8bit::Register(_))
    ));
    assert!(matches!(
        instruction_entry(0xC6),
        Instruction::Op8bit(UnaryOp8::Add, AddressingMode8bit::Immediate)
    ));
}

#[test]
fn cb_block_has_the_regular_shape() {
    for k in 0u16..256u16 {
        let entry = instruction_entry(256 + k);
        match entry {
            Instruction::Op8bit(op, _) => {
                assert!(k < 0x40);
                if k < 8 {
                    assert!(matches!(op, UnaryOp8::Rlc));
                }
            }
            Instruction::Op8bit8bit(op, mode1, _) => {
                assert!(k >= 0x40);
                let expected_bit: u8 = ((k as u8) / 8) % 8;
                assert!(matches!(mode1, AddressingMode8bit::Fixed(b) if b == expected_bit));
                if k < 0x80 {
                    assert!(matches!(op, BinaryOp8::Bit));
                } else if k < 0xC0 {
                    assert!(matches!(op, BinaryOp8::Res));
                } else {
                    assert!(matches!(op, BinaryOp8::SetBit));
                }
            }
            _ => panic!("CB entry {:#04X} has an unexpected shape", k),
        }
    }
}

#[test]
fn cb_operand_slots_follow_canonical_order() {
    let expect_slot = |k: u16, entry: Instruction| {
        let slot = match entry {
            Instruction::Op8bit(_, m) => m,
            Instruction::Op8bit8bit(_, _, m) => m,
            _ => panic!("not a CB shape"),
        };
        match k % 8 {
            0 => assert!(matches!(
                slot,
                AddressingMode8bit::Register(Register8bit::B)
            )),
            6 => assert!(matches!(
                slot,
                AddressingMode8bit::Indirect(Register16bit::HL)
            )),
            7 => assert!(matches!(
                slot,
                AddressingMode8bit::Register(Register8bit::A)
            )),
            _ => {}
        }
    };
    for k in 0u16..256u16 {
        expect_slot(k, instruction_entry(256 + k));
    }
}
