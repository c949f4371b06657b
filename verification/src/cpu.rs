//! Register/flag store and flat 64KB memory bus of the CPU, together with the
//! ghost state model (`CpuState`) that every contract in the core speaks of.

use crate::bitwise;
use crate::bitwise::{bit8, high8, low8, set_bit8, word};
use vstd::prelude::*;

verus! {

broadcast use vstd::array::group_array_axioms;

pub const REGISTER_COUNT: usize = 8;

pub const MEMORY_SIZE: usize = 65536;

pub const IE_REGISTER_ADDRESS: usize = 0xFFFF;

/// The four meaningful bits of the flag register F: Zero, Subtract,
/// Half-carry and Carry, living in bits 7, 6, 5 and 4 respectively.
#[derive(Clone, Copy, PartialEq, Eq, Structural, Debug)]
pub enum Flag {
    Z,
    N,
    H,
    C,
}

/// The eight 8-bit registers, in the order they sit in the register file.
#[derive(Clone, Copy, PartialEq, Eq, Structural, Debug)]
pub enum Register8bit {
    A,
    F,
    B,
    C,
    D,
    E,
    H,
    L,
}

/// The four 16-bit register pairs, each made of a high and a low 8-bit half.
#[derive(Clone, Copy, PartialEq, Eq, Structural, Debug)]
pub enum Register16bit {
    AF,
    BC,
    DE,
    HL,
}

/// The five interrupt sources of the hardware. Delivery beyond the
/// master-enable flag is the business of an outer layer, not of this core.
#[derive(Clone, Copy, PartialEq, Eq, Structural, Debug)]
pub enum Interrupt {
    VBLank,
    LCDStatus,
    Timer,
    Serial,
    Joypad,
}

/// The fatal conditions the engine surfaces to its caller.
#[derive(Clone, Copy, PartialEq, Eq, Structural, Debug)]
pub enum EmuError {
    /// One of the genuinely unassigned opcode bytes was dispatched.
    IllegalOpcode,
    /// A ROM image larger than the 64KB memory was handed to `load_rom`.
    RomTooLarge,
}

/// Position of an 8-bit register in the register file.
pub open spec fn reg8_index(r: Register8bit) -> int {
    match r {
        Register8bit::A => 0,
        Register8bit::F => 1,
        Register8bit::B => 2,
        Register8bit::C => 3,
        Register8bit::D => 4,
        Register8bit::E => 5,
        Register8bit::H => 6,
        Register8bit::L => 7,
    }
}

/// Position of a 16-bit pair: the pair occupies register file slots
/// `2 * reg16_index` (high byte) and `2 * reg16_index + 1` (low byte).
pub open spec fn reg16_index(r: Register16bit) -> int {
    match r {
        Register16bit::AF => 0,
        Register16bit::BC => 1,
        Register16bit::DE => 2,
        Register16bit::HL => 3,
    }
}

/// Bit of the F register that holds the given flag.
pub open spec fn flag_index(f: Flag) -> u8 {
    match f {
        Flag::Z => 7,
        Flag::N => 6,
        Flag::H => 5,
        Flag::C => 4,
    }
}

/// The F register byte encoding the four flags, low nibble zero.
pub open spec fn flags_byte(z: bool, n: bool, h: bool, c: bool) -> u8 {
    (if z {
        0x80u8
    } else {
        0u8
    }) | (if n {
        0x40u8
    } else {
        0u8
    }) | (if h {
        0x20u8
    } else {
        0u8
    }) | (if c {
        0x10u8
    } else {
        0u8
    })
}

/// `x + y` wrapped to 16 bits.
pub open spec fn wrap_add16(x: u16, y: u16) -> u16 {
    if x + y > 0xFFFF {
        (x + y - 0x10000) as u16
    } else {
        (x + y) as u16
    }
}

/// `x - y` wrapped to 16 bits.
pub open spec fn wrap_sub16(x: u16, y: u16) -> u16 {
    if x >= y {
        (x - y) as u16
    } else {
        (x - y + 0x10000) as u16
    }
}

/// `x + y` wrapped to 8 bits.
pub open spec fn wrap_add8(x: u8, y: u8) -> u8 {
    if x + y > 0xFF {
        (x + y - 0x100) as u8
    } else {
        (x + y) as u8
    }
}

/// `x - y` wrapped to 8 bits.
pub open spec fn wrap_sub8(x: u8, y: u8) -> u8 {
    if x >= y {
        (x - y) as u8
    } else {
        (x - y + 0x100) as u8
    }
}

/// Mathematical model of the whole CPU: the eight registers as a sequence,
/// the two 16-bit pointers, the 64KB memory as a sequence of bytes, and the
/// interrupt-master-enable flag.
#[verifier::ext_equal]
pub ghost struct CpuState {
    pub regs: Seq<u8>,
    pub sp: u16,
    pub pc: u16,
    pub mem: Seq<u8>,
    pub ime: bool,
}

impl CpuState {
    /// Well-formedness: the register file and memory have their fixed sizes
    /// and the low nibble of F is zero.
    pub open spec fn wf(self) -> bool {
        &&& self.regs.len() == REGISTER_COUNT
        &&& self.mem.len() == MEMORY_SIZE
        &&& self.regs[1] & 0x0F == 0
    }

    pub open spec fn reg8(self, r: Register8bit) -> u8 {
        self.regs[reg8_index(r)]
    }

    /// Writing an 8-bit register; a write to F keeps only its high nibble.
    pub open spec fn with_reg8(self, r: Register8bit, v: u8) -> CpuState {
        CpuState {
            regs: self.regs.update(
                reg8_index(r),
                if r is F {
                    v & 0xF0
                } else {
                    v
                },
            ),
            ..self
        }
    }

    pub open spec fn reg16(self, r: Register16bit) -> u16 {
        word(self.regs[reg16_index(r) * 2 + 1], self.regs[reg16_index(r) * 2])
    }

    /// Writing a 16-bit pair; a write to AF masks the low nibble of F.
    pub open spec fn with_reg16(self, r: Register16bit, v: u16) -> CpuState {
        CpuState {
            regs: self.regs.update(reg16_index(r) * 2, high8(v)).update(
                reg16_index(r) * 2 + 1,
                if r is AF {
                    low8(v) & 0xF0
                } else {
                    low8(v)
                },
            ),
            ..self
        }
    }

    pub open spec fn flag(self, f: Flag) -> bool {
        bit8(self.regs[1], flag_index(f))
    }

    pub open spec fn with_flag(self, f: Flag, value: bool) -> CpuState {
        CpuState { regs: self.regs.update(1, set_bit8(self.regs[1], flag_index(f), value)), ..self }
    }

    /// All four flags written at once; the low nibble of F becomes zero.
    pub open spec fn with_flags(self, z: bool, n: bool, h: bool, c: bool) -> CpuState {
        CpuState { regs: self.regs.update(1, flags_byte(z, n, h, c)), ..self }
    }

    pub open spec fn mem8(self, a: u16) -> u8 {
        self.mem[a as int]
    }

    pub open spec fn with_mem8(self, a: u16, v: u8) -> CpuState {
        CpuState { mem: self.mem.update(a as int, v), ..self }
    }

    /// Little-endian 16-bit read spanning `a` and `a + 1` (wrapping).
    pub open spec fn mem16(self, a: u16) -> u16 {
        word(self.mem8(a), self.mem8(wrap_add16(a, 1)))
    }

    /// Little-endian 16-bit write spanning `a` and `a + 1` (wrapping).
    pub open spec fn with_mem16(self, a: u16, v: u16) -> CpuState {
        self.with_mem8(a, low8(v)).with_mem8(wrap_add16(a, 1), high8(v))
    }

    pub open spec fn with_sp(self, v: u16) -> CpuState {
        CpuState { sp: v, ..self }
    }

    pub open spec fn with_pc(self, v: u16) -> CpuState {
        CpuState { pc: v, ..self }
    }

    pub open spec fn with_ime(self, v: bool) -> CpuState {
        CpuState { ime: v, ..self }
    }
}

/// Each of the four flag bits of `flags_byte` reads back as written, and the
/// low nibble is zero.
pub proof fn lemma_flags_byte_bits(z: bool, n: bool, h: bool, c: bool)
    ensures
        bit8(flags_byte(z, n, h, c), 7) == z,
        bit8(flags_byte(z, n, h, c), 6) == n,
        bit8(flags_byte(z, n, h, c), 5) == h,
        bit8(flags_byte(z, n, h, c), 4) == c,
        flags_byte(z, n, h, c) & 0x0F == 0,
{
    assert(bit8(flags_byte(z, n, h, c), 7) == z && bit8(flags_byte(z, n, h, c), 6) == n && bit8(
        flags_byte(z, n, h, c),
        5,
    ) == h && bit8(flags_byte(z, n, h, c), 4) == c && flags_byte(z, n, h, c) & 0x0F
        == 0) by (bit_vector);
}

/// Setting Z, N, H and C in turn on an F byte with a clear low nibble yields
/// exactly the `flags_byte` encoding.
pub proof fn lemma_flag_chain_all(f: u8, z: bool, n: bool, h: bool, c: bool)
    requires
        f & 0x0F == 0,
    ensures
        set_bit8(set_bit8(set_bit8(set_bit8(f, 7, z), 6, n), 5, h), 4, c) == flags_byte(z, n, h, c),
{
    assert(set_bit8(set_bit8(set_bit8(set_bit8(f, 7, z), 6, n), 5, h), 4, c) == flags_byte(
        z,
        n,
        h,
        c,
    )) by (bit_vector)
        requires
            f & 0x0F == 0,
    ;
}

/// Setting Z, N and H while leaving C alone.
pub proof fn lemma_flag_chain_keep_c(f: u8, z: bool, n: bool, h: bool)
    requires
        f & 0x0F == 0,
    ensures
        set_bit8(set_bit8(set_bit8(f, 7, z), 6, n), 5, h) == flags_byte(z, n, h, bit8(f, 4)),
{
    assert(set_bit8(set_bit8(set_bit8(f, 7, z), 6, n), 5, h) == flags_byte(
        z,
        n,
        h,
        bit8(f, 4),
    )) by (bit_vector)
        requires
            f & 0x0F == 0,
    ;
}

/// Setting N, H and C while leaving Z alone.
pub proof fn lemma_flag_chain_keep_z(f: u8, n: bool, h: bool, c: bool)
    requires
        f & 0x0F == 0,
    ensures
        set_bit8(set_bit8(set_bit8(f, 6, n), 5, h), 4, c) == flags_byte(bit8(f, 7), n, h, c),
{
    assert(set_bit8(set_bit8(set_bit8(f, 6, n), 5, h), 4, c) == flags_byte(
        bit8(f, 7),
        n,
        h,
        c,
    )) by (bit_vector)
        requires
            f & 0x0F == 0,
    ;
}

/// Setting N and H while leaving Z and C alone.
pub proof fn lemma_flag_chain_keep_zc(f: u8, n: bool, h: bool)
    requires
        f & 0x0F == 0,
    ensures
        set_bit8(set_bit8(f, 6, n), 5, h) == flags_byte(bit8(f, 7), n, h, bit8(f, 4)),
{
    assert(set_bit8(set_bit8(f, 6, n), 5, h) == flags_byte(bit8(f, 7), n, h, bit8(f, 4)))
        by (bit_vector)
        requires
            f & 0x0F == 0,
    ;
}

/// Setting Z, H and C while leaving N alone.
pub proof fn lemma_flag_chain_keep_n(f: u8, z: bool, h: bool, c: bool)
    requires
        f & 0x0F == 0,
    ensures
        set_bit8(set_bit8(set_bit8(f, 7, z), 5, h), 4, c) == flags_byte(z, bit8(f, 6), h, c),
{
    assert(set_bit8(set_bit8(set_bit8(f, 7, z), 5, h), 4, c) == flags_byte(
        z,
        bit8(f, 6),
        h,
        c,
    )) by (bit_vector)
        requires
            f & 0x0F == 0,
    ;
}

/// Writing then reading an 8-bit register returns the written value, except
/// that F keeps only its high nibble; the low nibble of F reads as zero after
/// any write to F, directly or through AF.
pub proof fn lemma_register_write_read(s: CpuState, r: Register8bit, v: u8)
    requires
        s.wf(),
    ensures
        !(r is F) ==> s.with_reg8(r, v).reg8(r) == v,
        r is F ==> s.with_reg8(r, v).reg8(r) == v & 0xF0,
        s.with_reg8(r, v).reg8(Register8bit::F) & 0x0F == 0,
        s.with_reg8(r, v).wf(),
{
    assert((v & 0xF0) & 0x0F == 0) by (bit_vector);
}

/// Writing then reading a 16-bit pair returns the written value, except that
/// a write to AF masks the low nibble of F; every pair write keeps the low
/// nibble of F zero.
pub proof fn lemma_register16_write_read(s: CpuState, r: Register16bit, v: u16)
    requires
        s.wf(),
    ensures
        !(r is AF) ==> s.with_reg16(r, v).reg16(r) == v,
        r is AF ==> s.with_reg16(r, v).reg16(r) == word(low8(v) & 0xF0, high8(v)),
        s.with_reg16(r, v).reg8(Register8bit::F) & 0x0F == 0,
        s.with_reg16(r, v).wf(),
{
    bitwise::lemma_word_parts(low8(v), high8(v));
    bitwise::lemma_word_roundtrip(v);
    assert((low8(v) & 0xF0) & 0x0F == 0) by (bit_vector);
}

/// The CPU: eight 8-bit registers, the two 16-bit pointers, the flat 64KB
/// memory and the interrupt-master-enable flag.
pub struct CPU {
    pub registers: [u8; REGISTER_COUNT],
    pub stack_pointer: u16,
    pub program_counter: u16,
    pub memory: [u8; MEMORY_SIZE],
    pub ime_flag: bool,
}

impl View for CPU {
    type V = CpuState;

    open spec fn view(&self) -> CpuState {
        CpuState {
            regs: self.registers@,
            sp: self.stack_pointer,
            pc: self.program_counter,
            mem: self.memory@,
            ime: self.ime_flag,
        }
    }
}

/// Position of an 8-bit register in the register file.
fn reg8_offset(register: Register8bit) -> (i: usize)
    ensures
        i == reg8_index(register),
        i < 8,
{
    match register {
        Register8bit::A => 0,
        Register8bit::F => 1,
        Register8bit::B => 2,
        Register8bit::C => 3,
        Register8bit::D => 4,
        Register8bit::E => 5,
        Register8bit::H => 6,
        Register8bit::L => 7,
    }
}

/// Register file slot of the high byte of a 16-bit pair.
fn reg16_offset(register: Register16bit) -> (i: usize)
    ensures
        i == 2 * reg16_index(register),
        i <= 6,
{
    match register {
        Register16bit::AF => 0,
        Register16bit::BC => 2,
        Register16bit::DE => 4,
        Register16bit::HL => 6,
    }
}

/// Bit of the F register that holds the given flag.
fn flag_offset(flag: Flag) -> (i: usize)
    ensures
        i == flag_index(flag),
        i < 8,
{
    match flag {
        Flag::Z => 7,
        Flag::N => 6,
        Flag::H => 5,
        Flag::C => 4,
    }
}

impl CPU {
    /// A CPU in the all-zero state: cleared registers and memory, the stack
    /// pointer and the program counter both at zero, interrupts disabled.
    pub fn new() -> (r: Box<Self>)
        ensures
            r@.wf(),
            forall|i: int| 0 <= i < 8 ==> r@.regs[i] == 0u8,
            r@.sp == 0,
            r@.pc == 0,
            forall|a: int| 0 <= a < MEMORY_SIZE ==> r@.mem[a] == 0u8,
            !r@.ime,
    {
        let cpu = Box::new(
            CPU {
                registers: [0x00; REGISTER_COUNT],
                stack_pointer: 0x0000,
                program_counter: 0x0000,
                memory: [0x00; MEMORY_SIZE],
                ime_flag: false,
            },
        );
        proof {
            assert(0x00u8 & 0x0F == 0) by (bit_vector);
        }
        cpu
    }

    /// A CPU in the documented power-on state used for conformance testing:
    /// A=0x01, F=0xB0, B=0x00, C=0x13, D=0x00, E=0xD8, H=0x01, L=0x4D,
    /// SP=0xFFFE, PC=0x0100, memory cleared, interrupts disabled.
    pub fn new_with_power_on_state() -> (r: Box<Self>)
        ensures
            r@.wf(),
            r@.reg8(Register8bit::A) == 0x01,
            r@.reg8(Register8bit::F) == 0xB0,
            r@.reg8(Register8bit::B) == 0x00,
            r@.reg8(Register8bit::C) == 0x13,
            r@.reg8(Register8bit::D) == 0x00,
            r@.reg8(Register8bit::E) == 0xD8,
            r@.reg8(Register8bit::H) == 0x01,
            r@.reg8(Register8bit::L) == 0x4D,
            r@.sp == 0xFFFE,
            r@.pc == 0x0100,
            forall|a: int| 0 <= a < MEMORY_SIZE ==> r@.mem[a] == 0u8,
            !r@.ime,
    {
        let mut cpu = CPU {
            registers: [0x00; REGISTER_COUNT],
            stack_pointer: 0xFFFE,
            program_counter: 0x0100,
            memory: [0x00; MEMORY_SIZE],
            ime_flag: false,
        };
        proof {
            assert(0x00u8 & 0x0F == 0 && 0xB0u8 & 0xF0 == 0xB0 && 0xB0u8 & 0x0F == 0)
                by (bit_vector);
        }
        cpu.set_register_8bit(Register8bit::A, 0x01);
        cpu.set_register_8bit(Register8bit::F, 0xB0);
        cpu.set_register_8bit(Register8bit::B, 0x00);
        cpu.set_register_8bit(Register8bit::C, 0x13);
        cpu.set_register_8bit(Register8bit::D, 0x00);
        cpu.set_register_8bit(Register8bit::E, 0xD8);
        cpu.set_register_8bit(Register8bit::H, 0x01);
        cpu.set_register_8bit(Register8bit::L, 0x4D);
        Box::new(cpu)
    }

    /// One fetch-decode-execute cycle: fetch the opcode byte at PC (which
    /// advances PC by 1), index the opcode table and execute the entry.
    /// Dispatching one of the unassigned opcodes is a fatal error, surfaced
    /// to the caller with the state as after the fetch alone.
    pub fn execute_instruction(&mut self) -> (r: Result<(), EmuError>)
        requires
            old(self)@.wf(),
        ensures
            r is Ok <==> crate::dispatch::step_ok(old(self)@),
            crate::dispatch::step_ok(old(self)@) ==> final(self)@ == crate::dispatch::step_spec(
                old(self)@,
            ) && final(self)@.wf(),
            !crate::dispatch::step_ok(old(self)@) ==> final(self)@ == old(self)@.with_pc(
                wrap_add16(old(self)@.pc, 1),
            ) && r == Err::<(), EmuError>(EmuError::IllegalOpcode),
    {
        let opcode = self.fetch_next_8bits_pc();
        let entry = crate::table::instruction_entry(opcode as u16);
        entry.execute(self)
    }

    /// Copy a ROM image into memory starting at address 0. An image larger
    /// than the 64KB space is rejected whole; nothing is written.
    pub fn load_rom(&mut self, rom_bytes: &[u8]) -> (r: Result<(), EmuError>)
        ensures
            r is Ok <==> rom_bytes@.len() <= MEMORY_SIZE,
            r is Err ==> final(self)@ == old(self)@ && r == Err::<(), EmuError>(
                EmuError::RomTooLarge,
            ),
            r is Ok ==> {
                &&& final(self)@.regs == old(self)@.regs
                &&& final(self)@.sp == old(self)@.sp
                &&& final(self)@.pc == old(self)@.pc
                &&& final(self)@.ime == old(self)@.ime
                &&& forall|a: int|
                    0 <= a < rom_bytes@.len() ==> final(self)@.mem[a] == rom_bytes@[a]
                &&& forall|a: int|
                    rom_bytes@.len() <= a < MEMORY_SIZE ==> final(self)@.mem[a] == old(self)@.mem[a]
            },
    {
        if rom_bytes.len() > MEMORY_SIZE {
            return Err(EmuError::RomTooLarge);
        }
        let mut i: usize = 0;
        while i < rom_bytes.len()
            invariant
                i <= rom_bytes@.len(),
                rom_bytes@.len() <= MEMORY_SIZE,
                self.registers == old(self).registers,
                self.stack_pointer == old(self).stack_pointer,
                self.program_counter == old(self).program_counter,
                self.ime_flag == old(self).ime_flag,
                forall|a: int| 0 <= a < i ==> self@.mem[a] == rom_bytes@[a],
                forall|a: int| i <= a < MEMORY_SIZE ==> self@.mem[a] == old(self)@.mem[a],
            decreases rom_bytes@.len() - i,
        {
            self.memory[i] = rom_bytes[i];
            i = i + 1;
        }
        Ok(())
    }

    pub fn get_memory_8bit(&self, address: u16) -> (r: u8)
        ensures
            r == self@.mem8(address),
    {
        self.memory[address as usize]
    }

    pub fn set_memory_8bit(&mut self, address: u16, value: u8)
        ensures
            final(self)@ == old(self)@.with_mem8(address, value),
    {
        self.memory[address as usize] = value;
    }

    /// Little-endian 16-bit read spanning `address` and `address + 1`.
    pub fn get_memory_16bit(&self, address: u16) -> (r: u16)
        ensures
            r == self@.mem16(address),
    {
        bitwise::hl_to_16b(
            self.get_memory_8bit(address),
            self.get_memory_8bit(address.wrapping_add(1)),
        )
    }

    /// Little-endian 16-bit write spanning `address` and `address + 1`.
    pub fn set_memory_16bit(&mut self, address: u16, value: u16)
        ensures
            final(self)@ == old(self)@.with_mem16(address, value),
    {
        self.set_memory_8bit(address, bitwise::get_low(value));
        self.set_memory_8bit(address.wrapping_add(1), bitwise::get_high(value));
    }

    pub fn get_8bit_memory_from_sp(&mut self) -> (r: u8)
        ensures
            final(self)@ == old(self)@,
            r == old(self)@.mem8(old(self)@.sp),
    {
        self.get_memory_8bit(self.stack_pointer)
    }

    pub fn set_8bit_memory_from_sp(&mut self, value: u8)
        ensures
            final(self)@ == old(self)@.with_mem8(old(self)@.sp, value),
    {
        self.set_memory_8bit(self.stack_pointer, value);
    }

    pub fn get_16bit_memory_from_sp(&mut self) -> (r: u16)
        ensures
            final(self)@ == old(self)@,
            r == old(self)@.mem16(old(self)@.sp),
    {
        self.get_memory_16bit(self.stack_pointer)
    }

    pub fn set_16bit_memory_from_sp(&mut self, value: u16)
        ensures
            final(self)@ == old(self)@.with_mem16(old(self)@.sp, value),
    {
        self.set_memory_16bit(self.stack_pointer, value);
    }

    pub fn get_8bit_memory_from_pc(&mut self) -> (r: u8)
        ensures
            final(self)@ == old(self)@,
            r == old(self)@.mem8(old(self)@.pc),
    {
        self.get_memory_8bit(self.program_counter)
    }

    pub fn set_8bit_memory_from_pc(&mut self, value: u8)
        ensures
            final(self)@ == old(self)@.with_mem8(old(self)@.pc, value),
    {
        self.set_memory_8bit(self.program_counter, value);
    }

    pub fn get_16bit_memory_from_pc(&mut self) -> (r: u16)
        ensures
            final(self)@ == old(self)@,
            r == old(self)@.mem16(old(self)@.pc),
    {
        self.get_memory_16bit(self.program_counter)
    }

    pub fn set_16bit_memory_from_pc(&mut self, value: u16)
        ensures
            final(self)@ == old(self)@.with_mem16(old(self)@.pc, value),
    {
        self.set_memory_16bit(self.program_counter, value);
    }

    /// Read the byte at PC and advance PC by 1. This is one of the two sole
    /// mechanisms by which instruction operands are consumed from the stream.
    pub fn fetch_next_8bits_pc(&mut self) -> (r: u8)
        ensures
            r == old(self)@.mem8(old(self)@.pc),
            final(self)@ == old(self)@.with_pc(wrap_add16(old(self)@.pc, 1)),
    {
        let value = self.get_8bit_memory_from_pc();
        self.program_counter = self.program_counter.wrapping_add(1);
        value
    }

    /// Read the 16-bit value at PC and advance PC by 2.
    pub fn fetch_next_16bits_pc(&mut self) -> (r: u16)
        ensures
            r == old(self)@.mem16(old(self)@.pc),
            final(self)@ == old(self)@.with_pc(wrap_add16(old(self)@.pc, 2)),
    {
        let value = self.get_16bit_memory_from_pc();
        self.program_counter = self.program_counter.wrapping_add(2);
        value
    }

    /// Pre-decrement SP, then store one byte there.
    pub fn push_8bit_sp(&mut self, value: u8)
        ensures
            final(self)@ == old(self)@.with_sp(wrap_sub16(old(self)@.sp, 1)).with_mem8(
                wrap_sub16(old(self)@.sp, 1),
                value,
            ),
    {
        self.stack_pointer = self.stack_pointer.wrapping_sub(1);
        self.set_8bit_memory_from_sp(value);
    }

    /// Read one byte at SP, then post-increment SP.
    pub fn pop_8bit_sp(&mut self) -> (r: u8)
        ensures
            r == old(self)@.mem8(old(self)@.sp),
            final(self)@ == old(self)@.with_sp(wrap_add16(old(self)@.sp, 1)),
    {
        let value = self.get_8bit_memory_from_sp();
        self.stack_pointer = self.stack_pointer.wrapping_add(1);
        value
    }

    /// Pre-decrement SP by 2, then store a 16-bit value there, little-endian.
    pub fn push_16bit_sp(&mut self, value: u16)
        ensures
            final(self)@ == old(self)@.with_sp(wrap_sub16(old(self)@.sp, 2)).with_mem16(
                wrap_sub16(old(self)@.sp, 2),
                value,
            ),
    {
        self.stack_pointer = self.stack_pointer.wrapping_sub(2);
        self.set_16bit_memory_from_sp(value);
    }

    /// Read a 16-bit value at SP, then post-increment SP by 2.
    pub fn pop_16bit_sp(&mut self) -> (r: u16)
        ensures
            r == old(self)@.mem16(old(self)@.sp),
            final(self)@ == old(self)@.with_sp(wrap_add16(old(self)@.sp, 2)),
    {
        let value = self.get_16bit_memory_from_sp();
        self.stack_pointer = self.stack_pointer.wrapping_add(2);
        value
    }

    pub fn get_8bit_memory_from_register(&mut self, register: Register16bit) -> (r: u8)
        ensures
            final(self)@ == old(self)@,
            r == old(self)@.mem8(old(self)@.reg16(register)),
    {
        let address = self.get_register_16bit(register);
        self.get_memory_8bit(address)
    }

    pub fn set_8bit_memory_from_register(&mut self, value: u8, register: Register16bit)
        ensures
            final(self)@ == old(self)@.with_mem8(old(self)@.reg16(register), value),
    {
        let address = self.get_register_16bit(register);
        self.set_memory_8bit(address, value);
    }

    pub fn get_16bit_memory_from_register(&mut self, register: Register16bit) -> (r: u16)
        ensures
            final(self)@ == old(self)@,
            r == old(self)@.mem16(old(self)@.reg16(register)),
    {
        let address = self.get_register_16bit(register);
        self.get_memory_16bit(address)
    }

    pub fn set_16bit_memory_from_register(&mut self, value: u16, register: Register16bit)
        ensures
            final(self)@ == old(self)@.with_mem16(old(self)@.reg16(register), value),
    {
        let address = self.get_register_16bit(register);
        self.set_memory_16bit(address, value);
    }

    pub fn get_flag(&self, flag: Flag) -> (r: bool)
        ensures
            r == self@.flag(flag),
    {
        bitwise::get_bit(self.get_register_8bit(Register8bit::F), flag_offset(flag))
    }

    pub fn set_flag(&mut self, flag: Flag, value: bool)
        ensures
            final(self)@ == old(self)@.with_flag(flag, value),
    {
        let i = flag_offset(flag);
        let f = self.registers[1];
        self.registers[1] = bitwise::set_bit(f, i, value);
    }

    pub fn get_register_8bit(&self, register: Register8bit) -> (r: u8)
        ensures
            r == self@.reg8(register),
    {
        self.registers[reg8_offset(register)]
    }

    /// Write an 8-bit register; a write to F keeps only its high nibble.
    pub fn set_register_8bit(&mut self, register: Register8bit, value: u8)
        ensures
            final(self)@ == old(self)@.with_reg8(register, value),
    {
        let v = if register == Register8bit::F {
            value & 0xF0
        } else {
            value
        };
        let i = reg8_offset(register);
        self.registers[i] = v;
    }

    pub fn get_register_16bit(&self, register: Register16bit) -> (r: u16)
        ensures
            r == self@.reg16(register),
    {
        let index = reg16_offset(register);
        bitwise::hl_to_16b(self.registers[index + 1], self.registers[index])
    }

    /// Write a 16-bit pair; a write to AF masks the low nibble of F.
    pub fn set_register_16bit(&mut self, register: Register16bit, value: u16)
        ensures
            final(self)@ == old(self)@.with_reg16(register, value),
    {
        let index = reg16_offset(register);
        let low = bitwise::get_low(value);
        self.registers[index] = bitwise::get_high(value);
        self.registers[index + 1] = if register == Register16bit::AF {
            low & 0xF0
        } else {
            low
        };
    }

    pub fn get_sp(&self) -> (r: u16)
        ensures
            r == self@.sp,
    {
        self.stack_pointer
    }

    pub fn set_sp(&mut self, value: u16)
        ensures
            final(self)@ == old(self)@.with_sp(value),
    {
        self.stack_pointer = value;
    }

    pub fn get_pc(&self) -> (r: u16)
        ensures
            r == self@.pc,
    {
        self.program_counter
    }

    pub fn set_pc(&mut self, value: u16)
        ensures
            final(self)@ == old(self)@.with_pc(value),
    {
        self.program_counter = value;
    }

    pub fn set_ime_flag(&mut self)
        ensures
            final(self)@ == old(self)@.with_ime(true),
    {
        self.ime_flag = true;
    }

    pub fn reset_ime_flag(&mut self)
        ensures
            final(self)@ == old(self)@.with_ime(false),
    {
        self.ime_flag = false;
    }

    /// True when any of the low four bits of the interrupt-enable register is
    /// set.
    fn interrupts_enabled(&self) -> (r: bool)
        ensures
            r == (self@.mem8(0xFFFF) & 0x0F != 0),
    {
        self.memory[IE_REGISTER_ADDRESS] & 0x0F != 0
    }

    /// The highest-priority enabled interrupt source, in the fixed order
    /// vblank, LCD status, timer, serial, joypad.
    fn active_interrupt(&self) -> (r: Interrupt)
        requires
            self@.mem8(0xFFFF) & 0x0F != 0,
        ensures
            r == ({
                let ie = self@.mem8(0xFFFF);
                if ie & 1 != 0 {
                    Interrupt::VBLank
                } else if ie & 2 != 0 {
                    Interrupt::LCDStatus
                } else if ie & 4 != 0 {
                    Interrupt::Timer
                } else if ie & 8 != 0 {
                    Interrupt::Serial
                } else {
                    Interrupt::Joypad
                }
            }),
    {
        if (self.memory[IE_REGISTER_ADDRESS] & 1) != 0 {
            Interrupt::VBLank
        } else if (self.memory[IE_REGISTER_ADDRESS] & 2) != 0 {
            Interrupt::LCDStatus
        } else if (self.memory[IE_REGISTER_ADDRESS] & 4) != 0 {
            Interrupt::Timer
        } else if (self.memory[IE_REGISTER_ADDRESS] & 8) != 0 {
            Interrupt::Serial
        } else {
            Interrupt::Joypad
        }
    }

    /// Interrupt delivery beyond the master-enable flag belongs to an outer
    /// layer; this core asks its caller to keep the interrupt-enable register
    /// clear, and then has nothing to do.
    pub fn handle_interrupts(&mut self)
        requires
            old(self)@.mem8(0xFFFF) & 0x0F == 0,
        ensures
            final(self)@ == old(self)@,
    {
        if self.interrupts_enabled() {
            proof {
                assert(false);
            }
            match self.active_interrupt() {
                Interrupt::VBLank => {},
                Interrupt::LCDStatus => {},
                Interrupt::Timer => {},
                Interrupt::Serial => {},
                Interrupt::Joypad => {},
            }
        }
    }
}

} // verus!
