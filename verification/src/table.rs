//! The 512-entry opcode table: a static, gap-free mapping from opcode index
//! (0-255 unprefixed, 256-511 CB-prefixed) to an instruction descriptor. The
//! table exists twice, as a specification-level function and as executable
//! code proved equal to it; the CB-prefixed half follows the regular 2-3-3
//! bit layout of those opcodes.

use crate::cpu::{Register16bit, Register8bit};
use crate::dispatch::{
    instr_wf, AddressingMode16bit, AddressingMode8bit, BinaryOp16, BinaryOp8, Instruction,
    NullaryOp, UnaryOp16, UnaryOp8,
};
use vstd::prelude::*;

verus! {

/// Operand slot selected by the low three bits of a CB-prefixed opcode: the
/// canonical ordering B, C, D, E, H, L, (HL), A.
pub open spec fn cb_slot(j: u8) -> AddressingMode8bit {
    match j {
        0 => AddressingMode8bit::Register(Register8bit::B),
        1 => AddressingMode8bit::Register(Register8bit::C),
        2 => AddressingMode8bit::Register(Register8bit::D),
        3 => AddressingMode8bit::Register(Register8bit::E),
        4 => AddressingMode8bit::Register(Register8bit::H),
        5 => AddressingMode8bit::Register(Register8bit::L),
        6 => AddressingMode8bit::Indirect(Register16bit::HL),
        _ => AddressingMode8bit::Register(Register8bit::A),
    }
}

/// Rotate/shift family selected by bits 3 to 5 of a CB-prefixed opcode below
/// 0x40.
pub open spec fn cb_rotate(g: u8) -> UnaryOp8 {
    match g {
        0 => UnaryOp8::Rlc,
        1 => UnaryOp8::Rrc,
        2 => UnaryOp8::Rl,
        3 => UnaryOp8::Rr,
        4 => UnaryOp8::Sla,
        5 => UnaryOp8::Sra,
        6 => UnaryOp8::Swap,
        _ => UnaryOp8::Srl,
    }
}

/// Entry `k` of the CB-prefixed block: a 2-bit operation class, a 3-bit
/// parameter (rotate kind or bit index) and a 3-bit operand slot.
pub open spec fn cb_entry(k: u8) -> Instruction {
    let slot = cb_slot(k % 8);
    if k < 0x40 {
        Instruction::Op8bit(cb_rotate(k / 8), slot)
    } else if k < 0x80 {
        Instruction::Op8bit8bit(BinaryOp8::Bit, AddressingMode8bit::Fixed((k / 8) % 8), slot)
    } else if k < 0xC0 {
        Instruction::Op8bit8bit(BinaryOp8::Res, AddressingMode8bit::Fixed((k / 8) % 8), slot)
    } else {
        Instruction::Op8bit8bit(BinaryOp8::SetBit, AddressingMode8bit::Fixed((k / 8) % 8), slot)
    }
}

/// Entry `op` of the unprefixed block.
pub open spec fn base_entry(op: u8) -> Instruction {
    match op {
        0x00 => Instruction::Implied(NullaryOp::Nop),
        0x01 => Instruction::Op16bit16bit(BinaryOp16::Ld16, AddressingMode16bit::Register(Register16bit::BC), AddressingMode16bit::Immediate),
        0x02 => Instruction::Op8bit8bit(BinaryOp8::Ld, AddressingMode8bit::Indirect(Register16bit::BC), AddressingMode8bit::Register(Register8bit::A)),
        0x03 => Instruction::Op16bit(UnaryOp16::Inc16, AddressingMode16bit::Register(Register16bit::BC)),
        0x04 => Instruction::Op8bit(UnaryOp8::Inc, AddressingMode8bit::Register(Register8bit::B)),
        0x05 => Instruction::Op8bit(UnaryOp8::Dec, AddressingMode8bit::Register(Register8bit::B)),
        0x06 => Instruction::Op8bit8bit(BinaryOp8::Ld, AddressingMode8bit::Register(Register8bit::B), AddressingMode8bit::Immediate),
        0x07 => Instruction::Implied(NullaryOp::Rlca),
        0x08 => Instruction::Op16bit16bit(BinaryOp16::Ld16, AddressingMode16bit::Address, AddressingMode16bit::StackPointer),
        0x09 => Instruction::Op16bit(UnaryOp16::AddHl, AddressingMode16bit::Register(Register16bit::BC)),
        0x0A => Instruction::Op8bit8bit(BinaryOp8::Ld, AddressingMode8bit::Register(Register8bit::A), AddressingMode8bit::Indirect(Register16bit::BC)),
        0x0B => Instruction::Op16bit(UnaryOp16::Dec16, AddressingMode16bit::Register(Register16bit::BC)),
        0x0C => Instruction::Op8bit(UnaryOp8::Inc, AddressingMode8bit::Register(Register8bit::C)),
        0x0D => Instruction::Op8bit(UnaryOp8::Dec, AddressingMode8bit::Register(Register8bit::C)),
        0x0E => Instruction::Op8bit8bit(BinaryOp8::Ld, AddressingMode8bit::Register(Register8bit::C), AddressingMode8bit::Immediate),
        0x0F => Instruction::Implied(NullaryOp::Rrca),
        0x10 => Instruction::Op8bit(UnaryOp8::Stop, AddressingMode8bit::Immediate),
        0x11 => Instruction::Op16bit16bit(BinaryOp16::Ld16, AddressingMode16bit::Register(Register16bit::DE), AddressingMode16bit::Immediate),
        0x12 => Instruction::Op8bit8bit(BinaryOp8::Ld, AddressingMode8bit::Indirect(Register16bit::DE), AddressingMode8bit::Register(Register8bit::A)),
        0x13 => Instruction::Op16bit(UnaryOp16::Inc16, AddressingMode16bit::Register(Register16bit::DE)),
        0x14 => Instruction::Op8bit(UnaryOp8::Inc, AddressingMode8bit::Register(Register8bit::D)),
        0x15 => Instruction::Op8bit(UnaryOp8::Dec, AddressingMode8bit::Register(Register8bit::D)),
        0x16 => Instruction::Op8bit8bit(BinaryOp8::Ld, AddressingMode8bit::Register(Register8bit::D), AddressingMode8bit::Immediate),
        0x17 => Instruction::Implied(NullaryOp::Rla),
        0x18 => Instruction::Op8bit(UnaryOp8::Jr, AddressingMode8bit::Immediate),
        0x19 => Instruction::Op16bit(UnaryOp16::AddHl, AddressingMode16bit::Register(Register16bit::DE)),
        0x1A => Instruction::Op8bit8bit(BinaryOp8::Ld, AddressingMode8bit::Register(Register8bit::A), AddressingMode8bit::Indirect(Register16bit::DE)),
        0x1B => Instruction::Op16bit(UnaryOp16::Dec16, AddressingMode16bit::Register(Register16bit::DE)),
        0x1C => Instruction::Op8bit(UnaryOp8::Inc, AddressingMode8bit::Register(Register8bit::E)),
        0x1D => Instruction::Op8bit(UnaryOp8::Dec, AddressingMode8bit::Register(Register8bit::E)),
        0x1E => Instruction::Op8bit8bit(BinaryOp8::Ld, AddressingMode8bit::Register(Register8bit::E), AddressingMode8bit::Immediate),
        0x1F => Instruction::Implied(NullaryOp::Rra),
        0x20 => Instruction::Op8bit(UnaryOp8::JrNz, AddressingMode8bit::Immediate),
        0x21 => Instruction::Op16bit16bit(BinaryOp16::Ld16, AddressingMode16bit::Register(Register16bit::HL), AddressingMode16bit::Immediate),
        0x22 => Instruction::Op8bit8bit(BinaryOp8::Ldi, AddressingMode8bit::Indirect(Register16bit::HL), AddressingMode8bit::Register(Register8bit::A)),
        0x23 => Instruction::Op16bit(UnaryOp16::Inc16, AddressingMode16bit::Register(Register16bit::HL)),
        0x24 => Instruction::Op8bit(UnaryOp8::Inc, AddressingMode8bit::Register(Register8bit::H)),
        0x25 => Instruction::Op8bit(UnaryOp8::Dec, AddressingMode8bit::Register(Register8bit::H)),
        0x26 => Instruction::Op8bit8bit(BinaryOp8::Ld, AddressingMode8bit::Register(Register8bit::H), AddressingMode8bit::Immediate),
        0x27 => Instruction::Implied(NullaryOp::Daa),
        0x28 => Instruction::Op8bit(UnaryOp8::JrZ, AddressingMode8bit::Immediate),
        0x29 => Instruction::Op16bit(UnaryOp16::AddHl, AddressingMode16bit::Register(Register16bit::HL)),
        0x2A => Instruction::Op8bit8bit(BinaryOp8::Ldi, AddressingMode8bit::Register(Register8bit::A), AddressingMode8bit::Indirect(Register16bit::HL)),
        0x2B => Instruction::Op16bit(UnaryOp16::Dec16, AddressingMode16bit::Register(Register16bit::HL)),
        0x2C => Instruction::Op8bit(UnaryOp8::Inc, AddressingMode8bit::Register(Register8bit::L)),
        0x2D => Instruction::Op8bit(UnaryOp8::Dec, AddressingMode8bit::Register(Register8bit::L)),
        0x2E => Instruction::Op8bit8bit(BinaryOp8::Ld, AddressingMode8bit::Register(Register8bit::L), AddressingMode8bit::Immediate),
        0x2F => Instruction::Implied(NullaryOp::Cpl),
        0x30 => Instruction::Op8bit(UnaryOp8::JrNc, AddressingMode8bit::Immediate),
        0x31 => Instruction::Op16bit16bit(BinaryOp16::Ld16, AddressingMode16bit::StackPointer, AddressingMode16bit::Immediate),
        0x32 => Instruction::Op8bit8bit(BinaryOp8::Ldd, AddressingMode8bit::Indirect(Register16bit::HL), AddressingMode8bit::Register(Register8bit::A)),
        0x33 => Instruction::Op16bit(UnaryOp16::Inc16, AddressingMode16bit::StackPointer),
        0x34 => Instruction::Op8bit(UnaryOp8::Inc, AddressingMode8bit::Indirect(Register16bit::HL)),
        0x35 => Instruction::Op8bit(UnaryOp8::Dec, AddressingMode8bit::Indirect(Register16bit::HL)),
        0x36 => Instruction::Op8bit8bit(BinaryOp8::Ld, AddressingMode8bit::Indirect(Register16bit::HL), AddressingMode8bit::Immediate),
        0x37 => Instruction::Implied(NullaryOp::Scf),
        0x38 => Instruction::Op8bit(UnaryOp8::JrC, AddressingMode8bit::Immediate),
        0x39 => Instruction::Op16bit(UnaryOp16::AddHl, AddressingMode16bit::StackPointer),
        0x3A => Instruction::Op8bit8bit(BinaryOp8::Ldd, AddressingMode8bit::Register(Register8bit::A), AddressingMode8bit::Indirect(Register16bit::HL)),
        0x3B => Instruction::Op16bit(UnaryOp16::Dec16, AddressingMode16bit::StackPointer),
        0x3C => Instruction::Op8bit(UnaryOp8::Inc, AddressingMode8bit::Register(Register8bit::A)),
        0x3D => Instruction::Op8bit(UnaryOp8::Dec, AddressingMode8bit::Register(Register8bit::A)),
        0x3E => Instruction::Op8bit8bit(BinaryOp8::Ld, AddressingMode8bit::Register(Register8bit::A), AddressingMode8bit::Immediate),
        0x3F => Instruction::Implied(NullaryOp::Ccf),
        0x40 => Instruction::Op8bit8bit(BinaryOp8::Ld, AddressingMode8bit::Register(Register8bit::B), AddressingMode8bit::Register(Register8bit::B)),
        0x41 => Instruction::Op8bit8bit(BinaryOp8::Ld, AddressingMode8bit::Register(Register8bit::B), AddressingMode8bit::Register(Register8bit::C)),
        0x42 => Instruction::Op8bit8bit(BinaryOp8::Ld, AddressingMode8bit::Register(Register8bit::B), AddressingMode8bit::Register(Register8bit::D)),
        0x43 => Instruction::Op8bit8bit(BinaryOp8::Ld, AddressingMode8bit::Register(Register8bit::B), AddressingMode8bit::Register(Register8bit::E)),
        0x44 => Instruction::Op8bit8bit(BinaryOp8::Ld, AddressingMode8bit::Register(Register8bit::B), AddressingMode8bit::Register(Register8bit::H)),
        0x45 => Instruction::Op8bit8bit(BinaryOp8::Ld, AddressingMode8bit::Register(Register8bit::B), AddressingMode8bit::Register(Register8bit::L)),
        0x46 => Instruction::Op8bit8bit(BinaryOp8::Ld, AddressingMode8bit::Register(Register8bit::B), AddressingMode8bit::Indirect(Register16bit::HL)),
        0x47 => Instruction::Op8bit8bit(BinaryOp8::Ld, AddressingMode8bit::Register(Register8bit::B), AddressingMode8bit::Register(Register8bit::A)),
        0x48 => Instruction::Op8bit8bit(BinaryOp8::Ld, AddressingMode8bit::Register(Register8bit::C), AddressingMode8bit::Register(Register8bit::B)),
        0x49 => Instruction::Op8bit8bit(BinaryOp8::Ld, AddressingMode8bit::Register(Register8bit::C), AddressingMode8bit::Register(Register8bit::C)),
        0x4A => Instruction::Op8bit8bit(BinaryOp8::Ld, AddressingMode8bit::Register(Register8bit::C), AddressingMode8bit::Register(Register8bit::D)),
        0x4B => Instruction::Op8bit8bit(BinaryOp8::Ld, AddressingMode8bit::Register(Register8bit::C), AddressingMode8bit::Register(Register8bit::E)),
        0x4C => Instruction::Op8bit8bit(BinaryOp8::Ld, AddressingMode8bit::Register(Register8bit::C), AddressingMode8bit::Register(Register8bit::H)),
        0x4D => Instruction::Op8bit8bit(BinaryOp8::Ld, AddressingMode8bit::Register(Register8bit::C), AddressingMode8bit::Register(Register8bit::L)),
        0x4E => Instruction::Op8bit8bit(BinaryOp8::Ld, AddressingMode8bit::Register(Register8bit::C), AddressingMode8bit::Indirect(Register16bit::HL)),
        0x4F => Instruction::Op8bit8bit(BinaryOp8::Ld, AddressingMode8bit::Register(Register8bit::C), AddressingMode8bit::Register(Register8bit::A)),
        0x50 => Instruction::Op8bit8bit(BinaryOp8::Ld, AddressingMode8bit::Register(Register8bit::D), AddressingMode8bit::Register(Register8bit::B)),
        0x51 => Instruction::Op8bit8bit(BinaryOp8::Ld, AddressingMode8bit::Register(Register8bit::D), AddressingMode8bit::Register(Register8bit::C)),
        0x52 => Instruction::Op8bit8bit(BinaryOp8::Ld, AddressingMode8bit::Register(Register8bit::D), AddressingMode8bit::Register(Register8bit::D)),
        0x53 => Instruction::Op8bit8bit(BinaryOp8::Ld, AddressingMode8bit::Register(Register8bit::D), AddressingMode8bit::Register(Register8bit::E)),
        0x54 => Instruction::Op8bit8bit(BinaryOp8::Ld, AddressingMode8bit::Register(Register8bit::D), AddressingMode8bit::Register(Register8bit::H)),
        0x55 => Instruction::Op8bit8bit(BinaryOp8::Ld, AddressingMode8bit::Register(Register8bit::D), AddressingMode8bit::Register(Register8bit::L)),
        0x56 => Instruction::Op8bit8bit(BinaryOp8::Ld, AddressingMode8bit::Register(Register8bit::D), AddressingMode8bit::Indirect(Register16bit::HL)),
        0x57 => Instruction::Op8bit8bit(BinaryOp8::Ld, AddressingMode8bit::Register(Register8bit::D), AddressingMode8bit::Register(Register8bit::A)),
        0x58 => Instruction::Op8bit8bit(BinaryOp8::Ld, AddressingMode8bit::Register(Register8bit::E), AddressingMode8bit::Register(Register8bit::B)),
        0x59 => Instruction::Op8bit8bit(BinaryOp8::Ld, AddressingMode8bit::Register(Register8bit::E), AddressingMode8bit::Register(Register8bit::C)),
        0x5A => Instruction::Op8bit8bit(BinaryOp8::Ld, AddressingMode8bit::Register(Register8bit::E), AddressingMode8bit::Register(Register8bit::D)),
        0x5B => Instruction::Op8bit8bit(BinaryOp8::Ld, AddressingMode8bit::Register(Register8bit::E), AddressingMode8bit::Register(Register8bit::E)),
        0x5C => Instruction::Op8bit8bit(BinaryOp8::Ld, AddressingMode8bit::Register(Register8bit::E), AddressingMode8bit::Register(Register8bit::H)),
        0x5D => Instruction::Op8bit8bit(BinaryOp8::Ld, AddressingMode8bit::Register(Register8bit::E), AddressingMode8bit::Register(Register8bit::L)),
        0x5E => Instruction::Op8bit8bit(BinaryOp8::Ld, AddressingMode8bit::Register(Register8bit::E), AddressingMode8bit::Indirect(Register16bit::HL)),
        0x5F => Instruction::Op8bit8bit(BinaryOp8::Ld, AddressingMode8bit::Register(Register8bit::E), AddressingMode8bit::Register(Register8bit::A)),
        0x60 => Instruction::Op8bit8bit(BinaryOp8::Ld, AddressingMode8bit::Register(Register8bit::H), AddressingMode8bit::Register(Register8bit::B)),
        0x61 => Instruction::Op8bit8bit(BinaryOp8::Ld, AddressingMode8bit::Register(Register8bit::H), AddressingMode8bit::Register(Register8bit::C)),
        0x62 => Instruction::Op8bit8bit(BinaryOp8::Ld, AddressingMode8bit::Register(Register8bit::H), AddressingMode8bit::Register(Register8bit::D)),
        0x63 => Instruction::Op8bit8bit(BinaryOp8::Ld, AddressingMode8bit::Register(Register8bit::H), AddressingMode8bit::Register(Register8bit::E)),
        0x64 => Instruction::Op8bit8bit(BinaryOp8::Ld, AddressingMode8bit::Register(Register8bit::H), AddressingMode8bit::Register(Register8bit::H)),
        0x65 => Instruction::Op8bit8bit(BinaryOp8::Ld, AddressingMode8bit::Register(Register8bit::H), AddressingMode8bit::Register(Register8bit::L)),
        0x66 => Instruction::Op8bit8bit(BinaryOp8::Ld, AddressingMode8bit::Register(Register8bit::H), AddressingMode8bit::Indirect(Register16bit::HL)),
        0x67 => Instruction::Op8bit8bit(BinaryOp8::Ld, AddressingMode8bit::Register(Register8bit::H), AddressingMode8bit::Register(Register8bit::A)),
        0x68 => Instruction::Op8bit8bit(BinaryOp8::Ld, AddressingMode8bit::Register(Register8bit::L), AddressingMode8bit::Register(Register8bit::B)),
        0x69 => Instruction::Op8bit8bit(BinaryOp8::Ld, AddressingMode8bit::Register(Register8bit::L), AddressingMode8bit::Register(Register8bit::C)),
        0x6A => Instruction::Op8bit8bit(BinaryOp8::Ld, AddressingMode8bit::Register(Register8bit::L), AddressingMode8bit::Register(Register8bit::D)),
        0x6B => Instruction::Op8bit8bit(BinaryOp8::Ld, AddressingMode8bit::Register(Register8bit::L), AddressingMode8bit::Register(Register8bit::E)),
        0x6C => Instruction::Op8bit8bit(BinaryOp8::Ld, AddressingMode8bit::Register(Register8bit::L), AddressingMode8bit::Register(Register8bit::H)),
        0x6D => Instruction::Op8bit8bit(BinaryOp8::Ld, AddressingMode8bit::Register(Register8bit::L), AddressingMode8bit::Register(Register8bit::L)),
        0x6E => Instruction::Op8bit8bit(BinaryOp8::Ld, AddressingMode8bit::Register(Register8bit::L), AddressingMode8bit::Indirect(Register16bit::HL)),
        0x6F => Instruction::Op8bit8bit(BinaryOp8::Ld, AddressingMode8bit::Register(Register8bit::L), AddressingMode8bit::Register(Register8bit::A)),
        0x70 => Instruction::Op8bit8bit(BinaryOp8::Ld, AddressingMode8bit::Indirect(Register16bit::HL), AddressingMode8bit::Register(Register8bit::B)),
        0x71 => Instruction::Op8bit8bit(BinaryOp8::Ld, AddressingMode8bit::Indirect(Register16bit::HL), AddressingMode8bit::Register(Register8bit::C)),
        0x72 => Instruction::Op8bit8bit(BinaryOp8::Ld, AddressingMode8bit::Indirect(Register16bit::HL), AddressingMode8bit::Register(Register8bit::D)),
        0x73 => Instruction::Op8bit8bit(BinaryOp8::Ld, AddressingMode8bit::Indirect(Register16bit::HL), AddressingMode8bit::Register(Register8bit::E)),
        0x74 => Instruction::Op8bit8bit(BinaryOp8::Ld, AddressingMode8bit::Indirect(Register16bit::HL), AddressingMode8bit::Register(Register8bit::H)),
        0x75 => Instruction::Op8bit8bit(BinaryOp8::Ld, AddressingMode8bit::Indirect(Register16bit::HL), AddressingMode8bit::Register(Register8bit::L)),
        0x76 => Instruction::Implied(NullaryOp::Halt),
        0x77 => Instruction::Op8bit8bit(BinaryOp8::Ld, AddressingMode8bit::Indirect(Register16bit::HL), AddressingMode8bit::Register(Register8bit::A)),
        0x78 => Instruction::Op8bit8bit(BinaryOp8::Ld, AddressingMode8bit::Register(Register8bit::A), AddressingMode8bit::Register(Register8bit::B)),
        0x79 => Instruction::Op8bit8bit(BinaryOp8::Ld, AddressingMode8bit::Register(Register8bit::A), AddressingMode8bit::Register(Register8bit::C)),
        0x7A => Instruction::Op8bit8bit(BinaryOp8::Ld, AddressingMode8bit::Register(Register8bit::A), AddressingMode8bit::Register(Register8bit::D)),
        0x7B => Instruction::Op8bit8bit(BinaryOp8::Ld, AddressingMode8bit::Register(Register8bit::A), AddressingMode8bit::Register(Register8bit::E)),
        0x7C => Instruction::Op8bit8bit(BinaryOp8::Ld, AddressingMode8bit::Register(Register8bit::A), AddressingMode8bit::Register(Register8bit::H)),
        0x7D => Instruction::Op8bit8bit(BinaryOp8::Ld, AddressingMode8bit::Register(Register8bit::A), AddressingMode8bit::Register(Register8bit::L)),
        0x7E => Instruction::Op8bit8bit(BinaryOp8::Ld, AddressingMode8bit::Register(Register8bit::A), AddressingMode8bit::Indirect(Register16bit::HL)),
        0x7F => Instruction::Op8bit8bit(BinaryOp8::Ld, AddressingMode8bit::Register(Register8bit::A), AddressingMode8bit::Register(Register8bit::A)),
        0x80 => Instruction::Op8bit(UnaryOp8::Add, AddressingMode8bit::Register(Register8bit::B)),
        0x81 => Instruction::Op8bit(UnaryOp8::Add, AddressingMode8bit::Register(Register8bit::C)),
        0x82 => Instruction::Op8bit(UnaryOp8::Add, AddressingMode8bit::Register(Register8bit::D)),
        0x83 => Instruction::Op8bit(UnaryOp8::Add, AddressingMode8bit::Register(Register8bit::E)),
        0x84 => Instruction::Op8bit(UnaryOp8::Add, AddressingMode8bit::Register(Register8bit::H)),
        0x85 => Instruction::Op8bit(UnaryOp8::Add, AddressingMode8bit::Register(Register8bit::L)),
        0x86 => Instruction::Op8bit(UnaryOp8::Add, AddressingMode8bit::Indirect(Register16bit::HL)),
        0x87 => Instruction::Op8bit(UnaryOp8::Add, AddressingMode8bit::Register(Register8bit::A)),
        0x88 => Instruction::Op8bit(UnaryOp8::Adc, AddressingMode8bit::Register(Register8bit::B)),
        0x89 => Instruction::Op8bit(UnaryOp8::Adc, AddressingMode8bit::Register(Register8bit::C)),
        0x8A => Instruction::Op8bit(UnaryOp8::Adc, AddressingMode8bit::Register(Register8bit::D)),
        0x8B => Instruction::Op8bit(UnaryOp8::Adc, AddressingMode8bit::Register(Register8bit::E)),
        0x8C => Instruction::Op8bit(UnaryOp8::Adc, AddressingMode8bit::Register(Register8bit::H)),
        0x8D => Instruction::Op8bit(UnaryOp8::Adc, AddressingMode8bit::Register(Register8bit::L)),
        0x8E => Instruction::Op8bit(UnaryOp8::Adc, AddressingMode8bit::Indirect(Register16bit::HL)),
        0x8F => Instruction::Op8bit(UnaryOp8::Adc, AddressingMode8bit::Register(Register8bit::A)),
        0x90 => Instruction::Op8bit(UnaryOp8::Sub, AddressingMode8bit::Register(Register8bit::B)),
        0x91 => Instruction::Op8bit(UnaryOp8::Sub, AddressingMode8bit::Register(Register8bit::C)),
        0x92 => Instruction::Op8bit(UnaryOp8::Sub, AddressingMode8bit::Register(Register8bit::D)),
        0x93 => Instruction::Op8bit(UnaryOp8::Sub, AddressingMode8bit::Register(Register8bit::E)),
        0x94 => Instruction::Op8bit(UnaryOp8::Sub, AddressingMode8bit::Register(Register8bit::H)),
        0x95 => Instruction::Op8bit(UnaryOp8::Sub, AddressingMode8bit::Register(Register8bit::L)),
        0x96 => Instruction::Op8bit(UnaryOp8::Sub, AddressingMode8bit::Indirect(Register16bit::HL)),
        0x97 => Instruction::Op8bit(UnaryOp8::Sub, AddressingMode8bit::Register(Register8bit::A)),
        0x98 => Instruction::Op8bit(UnaryOp8::Sbc, AddressingMode8bit::Register(Register8bit::B)),
        0x99 => Instruction::Op8bit(UnaryOp8::Sbc, AddressingMode8bit::Register(Register8bit::C)),
        0x9A => Instruction::Op8bit(UnaryOp8::Sbc, AddressingMode8bit::Register(Register8bit::D)),
        0x9B => Instruction::Op8bit(UnaryOp8::Sbc, AddressingMode8bit::Register(Register8bit::E)),
        0x9C => Instruction::Op8bit(UnaryOp8::Sbc, AddressingMode8bit::Register(Register8bit::H)),
        0x9D => Instruction::Op8bit(UnaryOp8::Sbc, AddressingMode8bit::Register(Register8bit::L)),
        0x9E => Instruction::Op8bit(UnaryOp8::Sbc, AddressingMode8bit::Indirect(Register16bit::HL)),
        0x9F => Instruction::Op8bit(UnaryOp8::Sbc, AddressingMode8bit::Register(Register8bit::A)),
        0xA0 => Instruction::Op8bit(UnaryOp8::And, AddressingMode8bit::Register(Register8bit::B)),
        0xA1 => Instruction::Op8bit(UnaryOp8::And, AddressingMode8bit::Register(Register8bit::C)),
        0xA2 => Instruction::Op8bit(UnaryOp8::And, AddressingMode8bit::Register(Register8bit::D)),
        0xA3 => Instruction::Op8bit(UnaryOp8::And, AddressingMode8bit::Register(Register8bit::E)),
        0xA4 => Instruction::Op8bit(UnaryOp8::And, AddressingMode8bit::Register(Register8bit::H)),
        0xA5 => Instruction::Op8bit(UnaryOp8::And, AddressingMode8bit::Register(Register8bit::L)),
        0xA6 => Instruction::Op8bit(UnaryOp8::And, AddressingMode8bit::Indirect(Register16bit::HL)),
        0xA7 => Instruction::Op8bit(UnaryOp8::And, AddressingMode8bit::Register(Register8bit::A)),
        0xA8 => Instruction::Op8bit(UnaryOp8::Xor, AddressingMode8bit::Register(Register8bit::B)),
        0xA9 => Instruction::Op8bit(UnaryOp8::Xor, AddressingMode8bit::Register(Register8bit::C)),
        0xAA => Instruction::Op8bit(UnaryOp8::Xor, AddressingMode8bit::Register(Register8bit::D)),
        0xAB => Instruction::Op8bit(UnaryOp8::Xor, AddressingMode8bit::Register(Register8bit::E)),
        0xAC => Instruction::Op8bit(UnaryOp8::Xor, AddressingMode8bit::Register(Register8bit::H)),
        0xAD => Instruction::Op8bit(UnaryOp8::Xor, AddressingMode8bit::Register(Register8bit::L)),
        0xAE => Instruction::Op8bit(UnaryOp8::Xor, AddressingMode8bit::Indirect(Register16bit::HL)),
        0xAF => Instruction::Op8bit(UnaryOp8::Xor, AddressingMode8bit::Register(Register8bit::A)),
        0xB0 => Instruction::Op8bit(UnaryOp8::Or, AddressingMode8bit::Register(Register8bit::B)),
        0xB1 => Instruction::Op8bit(UnaryOp8::Or, AddressingMode8bit::Register(Register8bit::C)),
        0xB2 => Instruction::Op8bit(UnaryOp8::Or, AddressingMode8bit::Register(Register8bit::D)),
        0xB3 => Instruction::Op8bit(UnaryOp8::Or, AddressingMode8bit::Register(Register8bit::E)),
        0xB4 => Instruction::Op8bit(UnaryOp8::Or, AddressingMode8bit::Register(Register8bit::H)),
        0xB5 => Instruction::Op8bit(UnaryOp8::Or, AddressingMode8bit::Register(Register8bit::L)),
        0xB6 => Instruction::Op8bit(UnaryOp8::Or, AddressingMode8bit::Indirect(Register16bit::HL)),
        0xB7 => Instruction::Op8bit(UnaryOp8::Or, AddressingMode8bit::Register(Register8bit::A)),
        0xB8 => Instruction::Op8bit(UnaryOp8::Cp, AddressingMode8bit::Register(Register8bit::B)),
        0xB9 => Instruction::Op8bit(UnaryOp8::Cp, AddressingMode8bit::Register(Register8bit::C)),
        0xBA => Instruction::Op8bit(UnaryOp8::Cp, AddressingMode8bit::Register(Register8bit::D)),
        0xBB => Instruction::Op8bit(UnaryOp8::Cp, AddressingMode8bit::Register(Register8bit::E)),
        0xBC => Instruction::Op8bit(UnaryOp8::Cp, AddressingMode8bit::Register(Register8bit::H)),
        0xBD => Instruction::Op8bit(UnaryOp8::Cp, AddressingMode8bit::Register(Register8bit::L)),
        0xBE => Instruction::Op8bit(UnaryOp8::Cp, AddressingMode8bit::Indirect(Register16bit::HL)),
        0xBF => Instruction::Op8bit(UnaryOp8::Cp, AddressingMode8bit::Register(Register8bit::A)),
        0xC0 => Instruction::Implied(NullaryOp::RetNz),
        0xC1 => Instruction::Op16bit(UnaryOp16::Pop, AddressingMode16bit::Register(Register16bit::BC)),
        0xC2 => Instruction::Op16bit(UnaryOp16::JpNz, AddressingMode16bit::Immediate),
        0xC3 => Instruction::Op16bit(UnaryOp16::Jp, AddressingMode16bit::Immediate),
        0xC4 => Instruction::Op16bit(UnaryOp16::CallNz, AddressingMode16bit::Immediate),
        0xC5 => Instruction::Op16bit(UnaryOp16::Push, AddressingMode16bit::Register(Register16bit::BC)),
        0xC6 => Instruction::Op8bit(UnaryOp8::Add, AddressingMode8bit::Immediate),
        0xC7 => Instruction::Op16bit(UnaryOp16::Rst, AddressingMode16bit::Fixed(0x0000)),
        0xC8 => Instruction::Implied(NullaryOp::RetZ),
        0xC9 => Instruction::Implied(NullaryOp::Ret),
        0xCA => Instruction::Op16bit(UnaryOp16::JpZ, AddressingMode16bit::Immediate),
        0xCB => Instruction::Prefix,
        0xCC => Instruction::Op16bit(UnaryOp16::CallZ, AddressingMode16bit::Immediate),
        0xCD => Instruction::Op16bit(UnaryOp16::Call, AddressingMode16bit::Immediate),
        0xCE => Instruction::Op8bit(UnaryOp8::Adc, AddressingMode8bit::Immediate),
        0xCF => Instruction::Op16bit(UnaryOp16::Rst, AddressingMode16bit::Fixed(0x0008)),
        0xD0 => Instruction::Implied(NullaryOp::RetNc),
        0xD1 => Instruction::Op16bit(UnaryOp16::Pop, AddressingMode16bit::Register(Register16bit::DE)),
        0xD2 => Instruction::Op16bit(UnaryOp16::JpNc, AddressingMode16bit::Immediate),
        0xD3 => Instruction::Invalid,
        0xD4 => Instruction::Op16bit(UnaryOp16::CallNc, AddressingMode16bit::Immediate),
        0xD5 => Instruction::Op16bit(UnaryOp16::Push, AddressingMode16bit::Register(Register16bit::DE)),
        0xD6 => Instruction::Op8bit(UnaryOp8::Sub, AddressingMode8bit::Immediate),
        0xD7 => Instruction::Op16bit(UnaryOp16::Rst, AddressingMode16bit::Fixed(0x0010)),
        0xD8 => Instruction::Implied(NullaryOp::RetC),
        0xD9 => Instruction::Implied(NullaryOp::Reti),
        0xDA => Instruction::Op16bit(UnaryOp16::JpC, AddressingMode16bit::Immediate),
        0xDB => Instruction::Invalid,
        0xDC => Instruction::Op16bit(UnaryOp16::CallC, AddressingMode16bit::Immediate),
        0xDD => Instruction::Invalid,
        0xDE => Instruction::Op8bit(UnaryOp8::Sbc, AddressingMode8bit::Immediate),
        0xDF => Instruction::Op16bit(UnaryOp16::Rst, AddressingMode16bit::Fixed(0x0018)),
        0xE0 => Instruction::Op8bit8bit(BinaryOp8::Ld, AddressingMode8bit::IndexedImm, AddressingMode8bit::Register(Register8bit::A)),
        0xE1 => Instruction::Op16bit(UnaryOp16::Pop, AddressingMode16bit::Register(Register16bit::HL)),
        0xE2 => Instruction::Op8bit8bit(BinaryOp8::Ld, AddressingMode8bit::IndexedC, AddressingMode8bit::Register(Register8bit::A)),
        0xE3 => Instruction::Invalid,
        0xE4 => Instruction::Invalid,
        0xE5 => Instruction::Op16bit(UnaryOp16::Push, AddressingMode16bit::Register(Register16bit::HL)),
        0xE6 => Instruction::Op8bit(UnaryOp8::And, AddressingMode8bit::Immediate),
        0xE7 => Instruction::Op16bit(UnaryOp16::Rst, AddressingMode16bit::Fixed(0x0020)),
        0xE8 => Instruction::Op8bit(UnaryOp8::AddSp, AddressingMode8bit::Immediate),
        0xE9 => Instruction::Op16bit(UnaryOp16::Jp, AddressingMode16bit::Register(Register16bit::HL)),
        0xEA => Instruction::Op8bit8bit(BinaryOp8::Ld, AddressingMode8bit::Address, AddressingMode8bit::Register(Register8bit::A)),
        0xEB => Instruction::Invalid,
        0xEC => Instruction::Invalid,
        0xED => Instruction::Invalid,
        0xEE => Instruction::Op8bit(UnaryOp8::Xor, AddressingMode8bit::Immediate),
        0xEF => Instruction::Op16bit(UnaryOp16::Rst, AddressingMode16bit::Fixed(0x0028)),
        0xF0 => Instruction::Op8bit8bit(BinaryOp8::Ld, AddressingMode8bit::Register(Register8bit::A), AddressingMode8bit::IndexedImm),
        0xF1 => Instruction::Op16bit(UnaryOp16::Pop, AddressingMode16bit::Register(Register16bit::AF)),
        0xF2 => Instruction::Op8bit8bit(BinaryOp8::Ld, AddressingMode8bit::Register(Register8bit::A), AddressingMode8bit::IndexedC),
        0xF3 => Instruction::Implied(NullaryOp::Di),
        0xF4 => Instruction::Invalid,
        0xF5 => Instruction::Op16bit(UnaryOp16::Push, AddressingMode16bit::Register(Register16bit::AF)),
        0xF6 => Instruction::Op8bit(UnaryOp8::Or, AddressingMode8bit::Immediate),
        0xF7 => Instruction::Op16bit(UnaryOp16::Rst, AddressingMode16bit::Fixed(0x0030)),
        0xF8 => Instruction::Op8bit(UnaryOp8::LdHlSp, AddressingMode8bit::Immediate),
        0xF9 => Instruction::Op16bit16bit(BinaryOp16::Ld16, AddressingMode16bit::StackPointer, AddressingMode16bit::Register(Register16bit::HL)),
        0xFA => Instruction::Op8bit8bit(BinaryOp8::Ld, AddressingMode8bit::Register(Register8bit::A), AddressingMode8bit::Address),
        0xFB => Instruction::Implied(NullaryOp::Ei),
        0xFC => Instruction::Invalid,
        0xFD => Instruction::Invalid,
        0xFE => Instruction::Op8bit(UnaryOp8::Cp, AddressingMode8bit::Immediate),
        0xFF => Instruction::Op16bit(UnaryOp16::Rst, AddressingMode16bit::Fixed(0x0038)),
    }
}

/// The full opcode table: indices 0-255 are the unprefixed block, 256-511
/// the CB-prefixed block. Every index below 512 has a defined entry.
pub open spec fn table_entry(index: u16) -> Instruction
    recommends
        index < 512,
{
    if index < 256 {
        base_entry(index as u8)
    } else {
        cb_entry((index - 256) as u8)
    }
}

/// The opcode bytes genuinely unassigned on the hardware; their table
/// entries are the Invalid marker and dispatching one is a fatal error.
pub open spec fn unassigned_opcode(index: u16) -> bool {
    ||| index == 0xD3
    ||| index == 0xDB
    ||| index == 0xDD
    ||| index == 0xE3
    ||| index == 0xE4
    ||| index == 0xEB
    ||| index == 0xEC
    ||| index == 0xED
    ||| index == 0xF4
    ||| index == 0xFC
    ||| index == 0xFD
}

/// All 512 opcode-table entries are defined — `table_entry` is total below
/// 512 — and an entry is the Invalid marker exactly at the known-unassigned
/// opcode bytes.
pub proof fn lemma_table_total_invalid(index: u16)
    requires
        index < 512,
    ensures
        table_entry(index) is Invalid <==> unassigned_opcode(index),
{
}

fn cb_slot_of(j: u8) -> (r: AddressingMode8bit)
    ensures
        r == cb_slot(j),
{
    match j {
        0 => AddressingMode8bit::Register(Register8bit::B),
        1 => AddressingMode8bit::Register(Register8bit::C),
        2 => AddressingMode8bit::Register(Register8bit::D),
        3 => AddressingMode8bit::Register(Register8bit::E),
        4 => AddressingMode8bit::Register(Register8bit::H),
        5 => AddressingMode8bit::Register(Register8bit::L),
        6 => AddressingMode8bit::Indirect(Register16bit::HL),
        _ => AddressingMode8bit::Register(Register8bit::A),
    }
}

fn cb_rotate_of(g: u8) -> (r: UnaryOp8)
    ensures
        r == cb_rotate(g),
{
    match g {
        0 => UnaryOp8::Rlc,
        1 => UnaryOp8::Rrc,
        2 => UnaryOp8::Rl,
        3 => UnaryOp8::Rr,
        4 => UnaryOp8::Sla,
        5 => UnaryOp8::Sra,
        6 => UnaryOp8::Swap,
        _ => UnaryOp8::Srl,
    }
}

#[verifier::rlimit(60)]
fn base_entry_of(op: u8) -> (r: Instruction)
    ensures
        r == base_entry(op),
        instr_wf(r),
{
    match op {
        0x00 => Instruction::Implied(NullaryOp::Nop),
        0x01 => Instruction::Op16bit16bit(BinaryOp16::Ld16, AddressingMode16bit::Register(Register16bit::BC), AddressingMode16bit::Immediate),
        0x02 => Instruction::Op8bit8bit(BinaryOp8::Ld, AddressingMode8bit::Indirect(Register16bit::BC), AddressingMode8bit::Register(Register8bit::A)),
        0x03 => Instruction::Op16bit(UnaryOp16::Inc16, AddressingMode16bit::Register(Register16bit::BC)),
        0x04 => Instruction::Op8bit(UnaryOp8::Inc, AddressingMode8bit::Register(Register8bit::B)),
        0x05 => Instruction::Op8bit(UnaryOp8::Dec, AddressingMode8bit::Register(Register8bit::B)),
        0x06 => Instruction::Op8bit8bit(BinaryOp8::Ld, AddressingMode8bit::Register(Register8bit::B), AddressingMode8bit::Immediate),
        0x07 => Instruction::Implied(NullaryOp::Rlca),
        0x08 => Instruction::Op16bit16bit(BinaryOp16::Ld16, AddressingMode16bit::Address, AddressingMode16bit::StackPointer),
        0x09 => Instruction::Op16bit(UnaryOp16::AddHl, AddressingMode16bit::Register(Register16bit::BC)),
        0x0A => Instruction::Op8bit8bit(BinaryOp8::Ld, AddressingMode8bit::Register(Register8bit::A), AddressingMode8bit::Indirect(Register16bit::BC)),
        0x0B => Instruction::Op16bit(UnaryOp16::Dec16, AddressingMode16bit::Register(Register16bit::BC)),
        0x0C => Instruction::Op8bit(UnaryOp8::Inc, AddressingMode8bit::Register(Register8bit::C)),
        0x0D => Instruction::Op8bit(UnaryOp8::Dec, AddressingMode8bit::Register(Register8bit::C)),
        0x0E => Instruction::Op8bit8bit(BinaryOp8::Ld, AddressingMode8bit::Register(Register8bit::C), AddressingMode8bit::Immediate),
        0x0F => Instruction::Implied(NullaryOp::Rrca),
        0x10 => Instruction::Op8bit(UnaryOp8::Stop, AddressingMode8bit::Immediate),
        0x11 => Instruction::Op16bit16bit(BinaryOp16::Ld16, AddressingMode16bit::Register(Register16bit::DE), AddressingMode16bit::Immediate),
        0x12 => Instruction::Op8bit8bit(BinaryOp8::Ld, AddressingMode8bit::Indirect(Register16bit::DE), AddressingMode8bit::Register(Register8bit::A)),
        0x13 => Instruction::Op16bit(UnaryOp16::Inc16, AddressingMode16bit::Register(Register16bit::DE)),
        0x14 => Instruction::Op8bit(UnaryOp8::Inc, AddressingMode8bit::Register(Register8bit::D)),
        0x15 => Instruction::Op8bit(UnaryOp8::Dec, AddressingMode8bit::Register(Register8bit::D)),
        0x16 => Instruction::Op8bit8bit(BinaryOp8::Ld, AddressingMode8bit::Register(Register8bit::D), AddressingMode8bit::Immediate),
        0x17 => Instruction::Implied(NullaryOp::Rla),
        0x18 => Instruction::Op8bit(UnaryOp8::Jr, AddressingMode8bit::Immediate),
        0x19 => Instruction::Op16bit(UnaryOp16::AddHl, AddressingMode16bit::Register(Register16bit::DE)),
        0x1A => Instruction::Op8bit8bit(BinaryOp8::Ld, AddressingMode8bit::Register(Register8bit::A), AddressingMode8bit::Indirect(Register16bit::DE)),
        0x1B => Instruction::Op16bit(UnaryOp16::Dec16, AddressingMode16bit::Register(Register16bit::DE)),
        0x1C => Instruction::Op8bit(UnaryOp8::Inc, AddressingMode8bit::Register(Register8bit::E)),
        0x1D => Instruction::Op8bit(UnaryOp8::Dec, AddressingMode8bit::Register(Register8bit::E)),
        0x1E => Instruction::Op8bit8bit(BinaryOp8::Ld, AddressingMode8bit::Register(Register8bit::E), AddressingMode8bit::Immediate),
        0x1F => Instruction::Implied(NullaryOp::Rra),
        0x20 => Instruction::Op8bit(UnaryOp8::JrNz, AddressingMode8bit::Immediate),
        0x21 => Instruction::Op16bit16bit(BinaryOp16::Ld16, AddressingMode16bit::Register(Register16bit::HL), AddressingMode16bit::Immediate),
        0x22 => Instruction::Op8bit8bit(BinaryOp8::Ldi, AddressingMode8bit::Indirect(Register16bit::HL), AddressingMode8bit::Register(Register8bit::A)),
        0x23 => Instruction::Op16bit(UnaryOp16::Inc16, AddressingMode16bit::Register(Register16bit::HL)),
        0x24 => Instruction::Op8bit(UnaryOp8::Inc, AddressingMode8bit::Register(Register8bit::H)),
        0x25 => Instruction::Op8bit(UnaryOp8::Dec, AddressingMode8bit::Register(Register8bit::H)),
        0x26 => Instruction::Op8bit8bit(BinaryOp8::Ld, AddressingMode8bit::Register(Register8bit::H), AddressingMode8bit::Immediate),
        0x27 => Instruction::Implied(NullaryOp::Daa),
        0x28 => Instruction::Op8bit(UnaryOp8::JrZ, AddressingMode8bit::Immediate),
        0x29 => Instruction::Op16bit(UnaryOp16::AddHl, AddressingMode16bit::Register(Register16bit::HL)),
        0x2A => Instruction::Op8bit8bit(BinaryOp8::Ldi, AddressingMode8bit::Register(Register8bit::A), AddressingMode8bit::Indirect(Register16bit::HL)),
        0x2B => Instruction::Op16bit(UnaryOp16::Dec16, AddressingMode16bit::Register(Register16bit::HL)),
        0x2C => Instruction::Op8bit(UnaryOp8::Inc, AddressingMode8bit::Register(Register8bit::L)),
        0x2D => Instruction::Op8bit(UnaryOp8::Dec, AddressingMode8bit::Register(Register8bit::L)),
        0x2E => Instruction::Op8bit8bit(BinaryOp8::Ld, AddressingMode8bit::Register(Register8bit::L), AddressingMode8bit::Immediate),
        0x2F => Instruction::Implied(NullaryOp::Cpl),
        0x30 => Instruction::Op8bit(UnaryOp8::JrNc, AddressingMode8bit::Immediate),
        0x31 => Instruction::Op16bit16bit(BinaryOp16::Ld16, AddressingMode16bit::StackPointer, AddressingMode16bit::Immediate),
        0x32 => Instruction::Op8bit8bit(BinaryOp8::Ldd, AddressingMode8bit::Indirect(Register16bit::HL), AddressingMode8bit::Register(Register8bit::A)),
        0x33 => Instruction::Op16bit(UnaryOp16::Inc16, AddressingMode16bit::StackPointer),
        0x34 => Instruction::Op8bit(UnaryOp8::Inc, AddressingMode8bit::Indirect(Register16bit::HL)),
        0x35 => Instruction::Op8bit(UnaryOp8::Dec, AddressingMode8bit::Indirect(Register16bit::HL)),
        0x36 => Instruction::Op8bit8bit(BinaryOp8::Ld, AddressingMode8bit::Indirect(Register16bit::HL), AddressingMode8bit::Immediate),
        0x37 => Instruction::Implied(NullaryOp::Scf),
        0x38 => Instruction::Op8bit(UnaryOp8::JrC, AddressingMode8bit::Immediate),
        0x39 => Instruction::Op16bit(UnaryOp16::AddHl, AddressingMode16bit::StackPointer),
        0x3A => Instruction::Op8bit8bit(BinaryOp8::Ldd, AddressingMode8bit::Register(Register8bit::A), AddressingMode8bit::Indirect(Register16bit::HL)),
        0x3B => Instruction::Op16bit(UnaryOp16::Dec16, AddressingMode16bit::StackPointer),
        0x3C => Instruction::Op8bit(UnaryOp8::Inc, AddressingMode8bit::Register(Register8bit::A)),
        0x3D => Instruction::Op8bit(UnaryOp8::Dec, AddressingMode8bit::Register(Register8bit::A)),
        0x3E => Instruction::Op8bit8bit(BinaryOp8::Ld, AddressingMode8bit::Register(Register8bit::A), AddressingMode8bit::Immediate),
        0x3F => Instruction::Implied(NullaryOp::Ccf),
        0x40 => Instruction::Op8bit8bit(BinaryOp8::Ld, AddressingMode8bit::Register(Register8bit::B), AddressingMode8bit::Register(Register8bit::B)),
        0x41 => Instruction::Op8bit8bit(BinaryOp8::Ld, AddressingMode8bit::Register(Register8bit::B), AddressingMode8bit::Register(Register8bit::C)),
        0x42 => Instruction::Op8bit8bit(BinaryOp8::Ld, AddressingMode8bit::Register(Register8bit::B), AddressingMode8bit::Register(Register8bit::D)),
        0x43 => Instruction::Op8bit8bit(BinaryOp8::Ld, AddressingMode8bit::Register(Register8bit::B), AddressingMode8bit::Register(Register8bit::E)),
        0x44 => Instruction::Op8bit8bit(BinaryOp8::Ld, AddressingMode8bit::Register(Register8bit::B), AddressingMode8bit::Register(Register8bit::H)),
        0x45 => Instruction::Op8bit8bit(BinaryOp8::Ld, AddressingMode8bit::Register(Register8bit::B), AddressingMode8bit::Register(Register8bit::L)),
        0x46 => Instruction::Op8bit8bit(BinaryOp8::Ld, AddressingMode8bit::Register(Register8bit::B), AddressingMode8bit::Indirect(Register16bit::HL)),
        0x47 => Instruction::Op8bit8bit(BinaryOp8::Ld, AddressingMode8bit::Register(Register8bit::B), AddressingMode8bit::Register(Register8bit::A)),
        0x48 => Instruction::Op8bit8bit(BinaryOp8::Ld, AddressingMode8bit::Register(Register8bit::C), AddressingMode8bit::Register(Register8bit::B)),
        0x49 => Instruction::Op8bit8bit(BinaryOp8::Ld, AddressingMode8bit::Register(Register8bit::C), AddressingMode8bit::Register(Register8bit::C)),
        0x4A => Instruction::Op8bit8bit(BinaryOp8::Ld, AddressingMode8bit::Register(Register8bit::C), AddressingMode8bit::Register(Register8bit::D)),
        0x4B => Instruction::Op8bit8bit(BinaryOp8::Ld, AddressingMode8bit::Register(Register8bit::C), AddressingMode8bit::Register(Register8bit::E)),
        0x4C => Instruction::Op8bit8bit(BinaryOp8::Ld, AddressingMode8bit::Register(Register8bit::C), AddressingMode8bit::Register(Register8bit::H)),
        0x4D => Instruction::Op8bit8bit(BinaryOp8::Ld, AddressingMode8bit::Register(Register8bit::C), AddressingMode8bit::Register(Register8bit::L)),
        0x4E => Instruction::Op8bit8bit(BinaryOp8::Ld, AddressingMode8bit::Register(Register8bit::C), AddressingMode8bit::Indirect(Register16bit::HL)),
        0x4F => Instruction::Op8bit8bit(BinaryOp8::Ld, AddressingMode8bit::Register(Register8bit::C), AddressingMode8bit::Register(Register8bit::A)),
        0x50 => Instruction::Op8bit8bit(BinaryOp8::Ld, AddressingMode8bit::Register(Register8bit::D), AddressingMode8bit::Register(Register8bit::B)),
        0x51 => Instruction::Op8bit8bit(BinaryOp8::Ld, AddressingMode8bit::Register(Register8bit::D), AddressingMode8bit::Register(Register8bit::C)),
        0x52 => Instruction::Op8bit8bit(BinaryOp8::Ld, AddressingMode8bit::Register(Register8bit::D), AddressingMode8bit::Register(Register8bit::D)),
        0x53 => Instruction::Op8bit8bit(BinaryOp8::Ld, AddressingMode8bit::Register(Register8bit::D), AddressingMode8bit::Register(Register8bit::E)),
        0x54 => Instruction::Op8bit8bit(BinaryOp8::Ld, AddressingMode8bit::Register(Register8bit::D), AddressingMode8bit::Register(Register8bit::H)),
        0x55 => Instruction::Op8bit8bit(BinaryOp8::Ld, AddressingMode8bit::Register(Register8bit::D), AddressingMode8bit::Register(Register8bit::L)),
        0x56 => Instruction::Op8bit8bit(BinaryOp8::Ld, AddressingMode8bit::Register(Register8bit::D), AddressingMode8bit::Indirect(Register16bit::HL)),
        0x57 => Instruction::Op8bit8bit(BinaryOp8::Ld, AddressingMode8bit::Register(Register8bit::D), AddressingMode8bit::Register(Register8bit::A)),
        0x58 => Instruction::Op8bit8bit(BinaryOp8::Ld, AddressingMode8bit::Register(Register8bit::E), AddressingMode8bit::Register(Register8bit::B)),
        0x59 => Instruction::Op8bit8bit(BinaryOp8::Ld, AddressingMode8bit::Register(Register8bit::E), AddressingMode8bit::Register(Register8bit::C)),
        0x5A => Instruction::Op8bit8bit(BinaryOp8::Ld, AddressingMode8bit::Register(Register8bit::E), AddressingMode8bit::Register(Register8bit::D)),
        0x5B => Instruction::Op8bit8bit(BinaryOp8::Ld, AddressingMode8bit::Register(Register8bit::E), AddressingMode8bit::Register(Register8bit::E)),
        0x5C => Instruction::Op8bit8bit(BinaryOp8::Ld, AddressingMode8bit::Register(Register8bit::E), AddressingMode8bit::Register(Register8bit::H)),
        0x5D => Instruction::Op8bit8bit(BinaryOp8::Ld, AddressingMode8bit::Register(Register8bit::E), AddressingMode8bit::Register(Register8bit::L)),
        0x5E => Instruction::Op8bit8bit(BinaryOp8::Ld, AddressingMode8bit::Register(Register8bit::E), AddressingMode8bit::Indirect(Register16bit::HL)),
        0x5F => Instruction::Op8bit8bit(BinaryOp8::Ld, AddressingMode8bit::Register(Register8bit::E), AddressingMode8bit::Register(Register8bit::A)),
        0x60 => Instruction::Op8bit8bit(BinaryOp8::Ld, AddressingMode8bit::Register(Register8bit::H), AddressingMode8bit::Register(Register8bit::B)),
        0x61 => Instruction::Op8bit8bit(BinaryOp8::Ld, AddressingMode8bit::Register(Register8bit::H), AddressingMode8bit::Register(Register8bit::C)),
        0x62 => Instruction::Op8bit8bit(BinaryOp8::Ld, AddressingMode8bit::Register(Register8bit::H), AddressingMode8bit::Register(Register8bit::D)),
        0x63 => Instruction::Op8bit8bit(BinaryOp8::Ld, AddressingMode8bit::Register(Register8bit::H), AddressingMode8bit::Register(Register8bit::E)),
        0x64 => Instruction::Op8bit8bit(BinaryOp8::Ld, AddressingMode8bit::Register(Register8bit::H), AddressingMode8bit::Register(Register8bit::H)),
        0x65 => Instruction::Op8bit8bit(BinaryOp8::Ld, AddressingMode8bit::Register(Register8bit::H), AddressingMode8bit::Register(Register8bit::L)),
        0x66 => Instruction::Op8bit8bit(BinaryOp8::Ld, AddressingMode8bit::Register(Register8bit::H), AddressingMode8bit::Indirect(Register16bit::HL)),
        0x67 => Instruction::Op8bit8bit(BinaryOp8::Ld, AddressingMode8bit::Register(Register8bit::H), AddressingMode8bit::Register(Register8bit::A)),
        0x68 => Instruction::Op8bit8bit(BinaryOp8::Ld, AddressingMode8bit::Register(Register8bit::L), AddressingMode8bit::Register(Register8bit::B)),
        0x69 => Instruction::Op8bit8bit(BinaryOp8::Ld, AddressingMode8bit::Register(Register8bit::L), AddressingMode8bit::Register(Register8bit::C)),
        0x6A => Instruction::Op8bit8bit(BinaryOp8::Ld, AddressingMode8bit::Register(Register8bit::L), AddressingMode8bit::Register(Register8bit::D)),
        0x6B => Instruction::Op8bit8bit(BinaryOp8::Ld, AddressingMode8bit::Register(Register8bit::L), AddressingMode8bit::Register(Register8bit::E)),
        0x6C => Instruction::Op8bit8bit(BinaryOp8::Ld, AddressingMode8bit::Register(Register8bit::L), AddressingMode8bit::Register(Register8bit::H)),
        0x6D => Instruction::Op8bit8bit(BinaryOp8::Ld, AddressingMode8bit::Register(Register8bit::L), AddressingMode8bit::Register(Register8bit::L)),
        0x6E => Instruction::Op8bit8bit(BinaryOp8::Ld, AddressingMode8bit::Register(Register8bit::L), AddressingMode8bit::Indirect(Register16bit::HL)),
        0x6F => Instruction::Op8bit8bit(BinaryOp8::Ld, AddressingMode8bit::Register(Register8bit::L), AddressingMode8bit::Register(Register8bit::A)),
        0x70 => Instruction::Op8bit8bit(BinaryOp8::Ld, AddressingMode8bit::Indirect(Register16bit::HL), AddressingMode8bit::Register(Register8bit::B)),
        0x71 => Instruction::Op8bit8bit(BinaryOp8::Ld, AddressingMode8bit::Indirect(Register16bit::HL), AddressingMode8bit::Register(Register8bit::C)),
        0x72 => Instruction::Op8bit8bit(BinaryOp8::Ld, AddressingMode8bit::Indirect(Register16bit::HL), AddressingMode8bit::Register(Register8bit::D)),
        0x73 => Instruction::Op8bit8bit(BinaryOp8::Ld, AddressingMode8bit::Indirect(Register16bit::HL), AddressingMode8bit::Register(Register8bit::E)),
        0x74 => Instruction::Op8bit8bit(BinaryOp8::Ld, AddressingMode8bit::Indirect(Register16bit::HL), AddressingMode8bit::Register(Register8bit::H)),
        0x75 => Instruction::Op8bit8bit(BinaryOp8::Ld, AddressingMode8bit::Indirect(Register16bit::HL), AddressingMode8bit::Register(Register8bit::L)),
        0x76 => Instruction::Implied(NullaryOp::Halt),
        0x77 => Instruction::Op8bit8bit(BinaryOp8::Ld, AddressingMode8bit::Indirect(Register16bit::HL), AddressingMode8bit::Register(Register8bit::A)),
        0x78 => Instruction::Op8bit8bit(BinaryOp8::Ld, AddressingMode8bit::Register(Register8bit::A), AddressingMode8bit::Register(Register8bit::B)),
        0x79 => Instruction::Op8bit8bit(BinaryOp8::Ld, AddressingMode8bit::Register(Register8bit::A), AddressingMode8bit::Register(Register8bit::C)),
        0x7A => Instruction::Op8bit8bit(BinaryOp8::Ld, AddressingMode8bit::Register(Register8bit::A), AddressingMode8bit::Register(Register8bit::D)),
        0x7B => Instruction::Op8bit8bit(BinaryOp8::Ld, AddressingMode8bit::Register(Register8bit::A), AddressingMode8bit::Register(Register8bit::E)),
        0x7C => Instruction::Op8bit8bit(BinaryOp8::Ld, AddressingMode8bit::Register(Register8bit::A), AddressingMode8bit::Register(Register8bit::H)),
        0x7D => Instruction::Op8bit8bit(BinaryOp8::Ld, AddressingMode8bit::Register(Register8bit::A), AddressingMode8bit::Register(Register8bit::L)),
        0x7E => Instruction::Op8bit8bit(BinaryOp8::Ld, AddressingMode8bit::Register(Register8bit::A), AddressingMode8bit::Indirect(Register16bit::HL)),
        0x7F => Instruction::Op8bit8bit(BinaryOp8::Ld, AddressingMode8bit::Register(Register8bit::A), AddressingMode8bit::Register(Register8bit::A)),
        0x80 => Instruction::Op8bit(UnaryOp8::Add, AddressingMode8bit::Register(Register8bit::B)),
        0x81 => Instruction::Op8bit(UnaryOp8::Add, AddressingMode8bit::Register(Register8bit::C)),
        0x82 => Instruction::Op8bit(UnaryOp8::Add, AddressingMode8bit::Register(Register8bit::D)),
        0x83 => Instruction::Op8bit(UnaryOp8::Add, AddressingMode8bit::Register(Register8bit::E)),
        0x84 => Instruction::Op8bit(UnaryOp8::Add, AddressingMode8bit::Register(Register8bit::H)),
        0x85 => Instruction::Op8bit(UnaryOp8::Add, AddressingMode8bit::Register(Register8bit::L)),
        0x86 => Instruction::Op8bit(UnaryOp8::Add, AddressingMode8bit::Indirect(Register16bit::HL)),
        0x87 => Instruction::Op8bit(UnaryOp8::Add, AddressingMode8bit::Register(Register8bit::A)),
        0x88 => Instruction::Op8bit(UnaryOp8::Adc, AddressingMode8bit::Register(Register8bit::B)),
        0x89 => Instruction::Op8bit(UnaryOp8::Adc, AddressingMode8bit::Register(Register8bit::C)),
        0x8A => Instruction::Op8bit(UnaryOp8::Adc, AddressingMode8bit::Register(Register8bit::D)),
        0x8B => Instruction::Op8bit(UnaryOp8::Adc, AddressingMode8bit::Register(Register8bit::E)),
        0x8C => Instruction::Op8bit(UnaryOp8::Adc, AddressingMode8bit::Register(Register8bit::H)),
        0x8D => Instruction::Op8bit(UnaryOp8::Adc, AddressingMode8bit::Register(Register8bit::L)),
        0x8E => Instruction::Op8bit(UnaryOp8::Adc, AddressingMode8bit::Indirect(Register16bit::HL)),
        0x8F => Instruction::Op8bit(UnaryOp8::Adc, AddressingMode8bit::Register(Register8bit::A)),
        0x90 => Instruction::Op8bit(UnaryOp8::Sub, AddressingMode8bit::Register(Register8bit::B)),
        0x91 => Instruction::Op8bit(UnaryOp8::Sub, AddressingMode8bit::Register(Register8bit::C)),
        0x92 => Instruction::Op8bit(UnaryOp8::Sub, AddressingMode8bit::Register(Register8bit::D)),
        0x93 => Instruction::Op8bit(UnaryOp8::Sub, AddressingMode8bit::Register(Register8bit::E)),
        0x94 => Instruction::Op8bit(UnaryOp8::Sub, AddressingMode8bit::Register(Register8bit::H)),
        0x95 => Instruction::Op8bit(UnaryOp8::Sub, AddressingMode8bit::Register(Register8bit::L)),
        0x96 => Instruction::Op8bit(UnaryOp8::Sub, AddressingMode8bit::Indirect(Register16bit::HL)),
        0x97 => Instruction::Op8bit(UnaryOp8::Sub, AddressingMode8bit::Register(Register8bit::A)),
        0x98 => Instruction::Op8bit(UnaryOp8::Sbc, AddressingMode8bit::Register(Register8bit::B)),
        0x99 => Instruction::Op8bit(UnaryOp8::Sbc, AddressingMode8bit::Register(Register8bit::C)),
        0x9A => Instruction::Op8bit(UnaryOp8::Sbc, AddressingMode8bit::Register(Register8bit::D)),
        0x9B => Instruction::Op8bit(UnaryOp8::Sbc, AddressingMode8bit::Register(Register8bit::E)),
        0x9C => Instruction::Op8bit(UnaryOp8::Sbc, AddressingMode8bit::Register(Register8bit::H)),
        0x9D => Instruction::Op8bit(UnaryOp8::Sbc, AddressingMode8bit::Register(Register8bit::L)),
        0x9E => Instruction::Op8bit(UnaryOp8::Sbc, AddressingMode8bit::Indirect(Register16bit::HL)),
        0x9F => Instruction::Op8bit(UnaryOp8::Sbc, AddressingMode8bit::Register(Register8bit::A)),
        0xA0 => Instruction::Op8bit(UnaryOp8::And, AddressingMode8bit::Register(Register8bit::B)),
        0xA1 => Instruction::Op8bit(UnaryOp8::And, AddressingMode8bit::Register(Register8bit::C)),
        0xA2 => Instruction::Op8bit(UnaryOp8::And, AddressingMode8bit::Register(Register8bit::D)),
        0xA3 => Instruction::Op8bit(UnaryOp8::And, AddressingMode8bit::Register(Register8bit::E)),
        0xA4 => Instruction::Op8bit(UnaryOp8::And, AddressingMode8bit::Register(Register8bit::H)),
        0xA5 => Instruction::Op8bit(UnaryOp8::And, AddressingMode8bit::Register(Register8bit::L)),
        0xA6 => Instruction::Op8bit(UnaryOp8::And, AddressingMode8bit::Indirect(Register16bit::HL)),
        0xA7 => Instruction::Op8bit(UnaryOp8::And, AddressingMode8bit::Register(Register8bit::A)),
        0xA8 => Instruction::Op8bit(UnaryOp8::Xor, AddressingMode8bit::Register(Register8bit::B)),
        0xA9 => Instruction::Op8bit(UnaryOp8::Xor, AddressingMode8bit::Register(Register8bit::C)),
        0xAA => Instruction::Op8bit(UnaryOp8::Xor, AddressingMode8bit::Register(Register8bit::D)),
        0xAB => Instruction::Op8bit(UnaryOp8::Xor, AddressingMode8bit::Register(Register8bit::E)),
        0xAC => Instruction::Op8bit(UnaryOp8::Xor, AddressingMode8bit::Register(Register8bit::H)),
        0xAD => Instruction::Op8bit(UnaryOp8::Xor, AddressingMode8bit::Register(Register8bit::L)),
        0xAE => Instruction::Op8bit(UnaryOp8::Xor, AddressingMode8bit::Indirect(Register16bit::HL)),
        0xAF => Instruction::Op8bit(UnaryOp8::Xor, AddressingMode8bit::Register(Register8bit::A)),
        0xB0 => Instruction::Op8bit(UnaryOp8::Or, AddressingMode8bit::Register(Register8bit::B)),
        0xB1 => Instruction::Op8bit(UnaryOp8::Or, AddressingMode8bit::Register(Register8bit::C)),
        0xB2 => Instruction::Op8bit(UnaryOp8::Or, AddressingMode8bit::Register(Register8bit::D)),
        0xB3 => Instruction::Op8bit(UnaryOp8::Or, AddressingMode8bit::Register(Register8bit::E)),
        0xB4 => Instruction::Op8bit(UnaryOp8::Or, AddressingMode8bit::Register(Register8bit::H)),
        0xB5 => Instruction::Op8bit(UnaryOp8::Or, AddressingMode8bit::Register(Register8bit::L)),
        0xB6 => Instruction::Op8bit(UnaryOp8::Or, AddressingMode8bit::Indirect(Register16bit::HL)),
        0xB7 => Instruction::Op8bit(UnaryOp8::Or, AddressingMode8bit::Register(Register8bit::A)),
        0xB8 => Instruction::Op8bit(UnaryOp8::Cp, AddressingMode8bit::Register(Register8bit::B)),
        0xB9 => Instruction::Op8bit(UnaryOp8::Cp, AddressingMode8bit::Register(Register8bit::C)),
        0xBA => Instruction::Op8bit(UnaryOp8::Cp, AddressingMode8bit::Register(Register8bit::D)),
        0xBB => Instruction::Op8bit(UnaryOp8::Cp, AddressingMode8bit::Register(Register8bit::E)),
        0xBC => Instruction::Op8bit(UnaryOp8::Cp, AddressingMode8bit::Register(Register8bit::H)),
        0xBD => Instruction::Op8bit(UnaryOp8::Cp, AddressingMode8bit::Register(Register8bit::L)),
        0xBE => Instruction::Op8bit(UnaryOp8::Cp, AddressingMode8bit::Indirect(Register16bit::HL)),
        0xBF => Instruction::Op8bit(UnaryOp8::Cp, AddressingMode8bit::Register(Register8bit::A)),
        0xC0 => Instruction::Implied(NullaryOp::RetNz),
        0xC1 => Instruction::Op16bit(UnaryOp16::Pop, AddressingMode16bit::Register(Register16bit::BC)),
        0xC2 => Instruction::Op16bit(UnaryOp16::JpNz, AddressingMode16bit::Immediate),
        0xC3 => Instruction::Op16bit(UnaryOp16::Jp, AddressingMode16bit::Immediate),
        0xC4 => Instruction::Op16bit(UnaryOp16::CallNz, AddressingMode16bit::Immediate),
        0xC5 => Instruction::Op16bit(UnaryOp16::Push, AddressingMode16bit::Register(Register16bit::BC)),
        0xC6 => Instruction::Op8bit(UnaryOp8::Add, AddressingMode8bit::Immediate),
        0xC7 => Instruction::Op16bit(UnaryOp16::Rst, AddressingMode16bit::Fixed(0x0000)),
        0xC8 => Instruction::Implied(NullaryOp::RetZ),
        0xC9 => Instruction::Implied(NullaryOp::Ret),
        0xCA => Instruction::Op16bit(UnaryOp16::JpZ, AddressingMode16bit::Immediate),
        0xCB => Instruction::Prefix,
        0xCC => Instruction::Op16bit(UnaryOp16::CallZ, AddressingMode16bit::Immediate),
        0xCD => Instruction::Op16bit(UnaryOp16::Call, AddressingMode16bit::Immediate),
        0xCE => Instruction::Op8bit(UnaryOp8::Adc, AddressingMode8bit::Immediate),
        0xCF => Instruction::Op16bit(UnaryOp16::Rst, AddressingMode16bit::Fixed(0x0008)),
        0xD0 => Instruction::Implied(NullaryOp::RetNc),
        0xD1 => Instruction::Op16bit(UnaryOp16::Pop, AddressingMode16bit::Register(Register16bit::DE)),
        0xD2 => Instruction::Op16bit(UnaryOp16::JpNc, AddressingMode16bit::Immediate),
        0xD3 => Instruction::Invalid,
        0xD4 => Instruction::Op16bit(UnaryOp16::CallNc, AddressingMode16bit::Immediate),
        0xD5 => Instruction::Op16bit(UnaryOp16::Push, AddressingMode16bit::Register(Register16bit::DE)),
        0xD6 => Instruction::Op8bit(UnaryOp8::Sub, AddressingMode8bit::Immediate),
        0xD7 => Instruction::Op16bit(UnaryOp16::Rst, AddressingMode16bit::Fixed(0x0010)),
        0xD8 => Instruction::Implied(NullaryOp::RetC),
        0xD9 => Instruction::Implied(NullaryOp::Reti),
        0xDA => Instruction::Op16bit(UnaryOp16::JpC, AddressingMode16bit::Immediate),
        0xDB => Instruction::Invalid,
        0xDC => Instruction::Op16bit(UnaryOp16::CallC, AddressingMode16bit::Immediate),
        0xDD => Instruction::Invalid,
        0xDE => Instruction::Op8bit(UnaryOp8::Sbc, AddressingMode8bit::Immediate),
        0xDF => Instruction::Op16bit(UnaryOp16::Rst, AddressingMode16bit::Fixed(0x0018)),
        0xE0 => Instruction::Op8bit8bit(BinaryOp8::Ld, AddressingMode8bit::IndexedImm, AddressingMode8bit::Register(Register8bit::A)),
        0xE1 => Instruction::Op16bit(UnaryOp16::Pop, AddressingMode16bit::Register(Register16bit::HL)),
        0xE2 => Instruction::Op8bit8bit(BinaryOp8::Ld, AddressingMode8bit::IndexedC, AddressingMode8bit::Register(Register8bit::A)),
        0xE3 => Instruction::Invalid,
        0xE4 => Instruction::Invalid,
        0xE5 => Instruction::Op16bit(UnaryOp16::Push, AddressingMode16bit::Register(Register16bit::HL)),
        0xE6 => Instruction::Op8bit(UnaryOp8::And, AddressingMode8bit::Immediate),
        0xE7 => Instruction::Op16bit(UnaryOp16::Rst, AddressingMode16bit::Fixed(0x0020)),
        0xE8 => Instruction::Op8bit(UnaryOp8::AddSp, AddressingMode8bit::Immediate),
        0xE9 => Instruction::Op16bit(UnaryOp16::Jp, AddressingMode16bit::Register(Register16bit::HL)),
        0xEA => Instruction::Op8bit8bit(BinaryOp8::Ld, AddressingMode8bit::Address, AddressingMode8bit::Register(Register8bit::A)),
        0xEB => Instruction::Invalid,
        0xEC => Instruction::Invalid,
        0xED => Instruction::Invalid,
        0xEE => Instruction::Op8bit(UnaryOp8::Xor, AddressingMode8bit::Immediate),
        0xEF => Instruction::Op16bit(UnaryOp16::Rst, AddressingMode16bit::Fixed(0x0028)),
        0xF0 => Instruction::Op8bit8bit(BinaryOp8::Ld, AddressingMode8bit::Register(Register8bit::A), AddressingMode8bit::IndexedImm),
        0xF1 => Instruction::Op16bit(UnaryOp16::Pop, AddressingMode16bit::Register(Register16bit::AF)),
        0xF2 => Instruction::Op8bit8bit(BinaryOp8::Ld, AddressingMode8bit::Register(Register8bit::A), AddressingMode8bit::IndexedC),
        0xF3 => Instruction::Implied(NullaryOp::Di),
        0xF4 => Instruction::Invalid,
        0xF5 => Instruction::Op16bit(UnaryOp16::Push, AddressingMode16bit::Register(Register16bit::AF)),
        0xF6 => Instruction::Op8bit(UnaryOp8::Or, AddressingMode8bit::Immediate),
        0xF7 => Instruction::Op16bit(UnaryOp16::Rst, AddressingMode16bit::Fixed(0x0030)),
        0xF8 => Instruction::Op8bit(UnaryOp8::LdHlSp, AddressingMode8bit::Immediate),
        0xF9 => Instruction::Op16bit16bit(BinaryOp16::Ld16, AddressingMode16bit::StackPointer, AddressingMode16bit::Register(Register16bit::HL)),
        0xFA => Instruction::Op8bit8bit(BinaryOp8::Ld, AddressingMode8bit::Register(Register8bit::A), AddressingMode8bit::Address),
        0xFB => Instruction::Implied(NullaryOp::Ei),
        0xFC => Instruction::Invalid,
        0xFD => Instruction::Invalid,
        0xFE => Instruction::Op8bit(UnaryOp8::Cp, AddressingMode8bit::Immediate),
        0xFF => Instruction::Op16bit(UnaryOp16::Rst, AddressingMode16bit::Fixed(0x0038)),
    }
}

/// Look up one entry of the opcode table. A CB-prefixed entry is never the
/// Prefix or Invalid marker: the extended block is total.
pub fn instruction_entry(index: u16) -> (r: Instruction)
    requires
        index < 512,
    ensures
        r == table_entry(index),
        instr_wf(r),
        index >= 256 ==> !(r is Prefix) && !(r is Invalid),
{
    if index < 256 {
        base_entry_of(index as u8)
    } else {
        let k = (index - 256) as u8;
        let slot = cb_slot_of(k % 8);
        if k < 0x40 {
            Instruction::Op8bit(cb_rotate_of(k / 8), slot)
        } else if k < 0x80 {
            Instruction::Op8bit8bit(BinaryOp8::Bit, AddressingMode8bit::Fixed((k / 8) % 8), slot)
        } else if k < 0xC0 {
            Instruction::Op8bit8bit(BinaryOp8::Res, AddressingMode8bit::Fixed((k / 8) % 8), slot)
        } else {
            Instruction::Op8bit8bit(BinaryOp8::SetBit, AddressingMode8bit::Fixed((k / 8) % 8), slot)
        }
    }
}

} // verus!
