//! Instruction-accurate emulation core for the Sharp SM83 CPU of the classic
//! Game Boy handheld: register and flag store, flat 64KB memory bus,
//! addressing-mode resolver, 512-entry opcode table and the instruction
//! semantics themselves, all with machine-checked contracts.

pub mod bitwise;
pub mod cpu;
pub mod dispatch;
pub mod emulator;
pub mod instructions;
pub mod table;
