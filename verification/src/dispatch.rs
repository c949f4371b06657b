//! Resolved operands, static addressing modes, the instruction descriptor
//! held by the opcode table, and the dispatch step that executes one
//! instruction against the CPU.

use crate::cpu::{wrap_add16, CpuState, EmuError, Register16bit, Register8bit, CPU};
use vstd::prelude::*;

verus! {

/// A resolved, typed handle to an 8-bit value: gettable always, settable for
/// everything but an immediate.
#[derive(Clone, Copy, PartialEq, Eq, Structural, Debug)]
pub enum Operand8bit {
    Register(Register8bit),
    Immediate(u8),
    Address(u16),
}

/// The value an 8-bit operand denotes in state `s`.
pub open spec fn read8(op: Operand8bit, s: CpuState) -> u8 {
    match op {
        Operand8bit::Register(register) => s.reg8(register),
        Operand8bit::Immediate(immediate) => immediate,
        Operand8bit::Address(address) => s.mem8(address),
    }
}

/// Whether an 8-bit operand may be written; writing an immediate is a
/// programming error.
pub open spec fn settable8(op: Operand8bit) -> bool {
    !(op is Immediate)
}

/// The state after storing `v` through an 8-bit operand.
pub open spec fn write8(op: Operand8bit, s: CpuState, v: u8) -> CpuState {
    match op {
        Operand8bit::Register(register) => s.with_reg8(register, v),
        Operand8bit::Immediate(_) => s,
        Operand8bit::Address(address) => s.with_mem8(address, v),
    }
}

impl Operand8bit {
    pub fn get(self, cpu: &CPU) -> (r: u8)
        ensures
            r == read8(self, cpu@),
    {
        match self {
            Operand8bit::Register(register) => cpu.get_register_8bit(register),
            Operand8bit::Immediate(immediate) => immediate,
            Operand8bit::Address(address) => cpu.get_memory_8bit(address),
        }
    }

    pub fn set(self, cpu: &mut CPU, value: u8)
        requires
            settable8(self),
        ensures
            final(cpu)@ == write8(self, old(cpu)@, value),
    {
        match self {
            Operand8bit::Register(register) => cpu.set_register_8bit(register, value),
            Operand8bit::Immediate(_) => {
                proof {
                    assert(false);
                }
            },
            Operand8bit::Address(address) => cpu.set_memory_8bit(address, value),
        }
    }
}

/// A resolved, typed handle to a 16-bit value.
#[derive(Clone, Copy, PartialEq, Eq, Structural, Debug)]
pub enum Operand16bit {
    Register(Register16bit),
    Immediate(u16),
    Address(u16),
    StackPointer,
}

/// The value a 16-bit operand denotes in state `s`.
pub open spec fn read16(op: Operand16bit, s: CpuState) -> u16 {
    match op {
        Operand16bit::Register(register) => s.reg16(register),
        Operand16bit::Immediate(immediate) => immediate,
        Operand16bit::Address(address) => s.mem16(address),
        Operand16bit::StackPointer => s.sp,
    }
}

/// Whether a 16-bit operand may be written.
pub open spec fn settable16(op: Operand16bit) -> bool {
    !(op is Immediate)
}

/// The state after storing `v` through a 16-bit operand.
pub open spec fn write16(op: Operand16bit, s: CpuState, v: u16) -> CpuState {
    match op {
        Operand16bit::Register(register) => s.with_reg16(register, v),
        Operand16bit::Immediate(_) => s,
        Operand16bit::Address(address) => s.with_mem16(address, v),
        Operand16bit::StackPointer => s.with_sp(v),
    }
}

impl Operand16bit {
    pub fn get(self, cpu: &mut CPU) -> (r: u16)
        ensures
            final(cpu)@ == old(cpu)@,
            r == read16(self, old(cpu)@),
    {
        match self {
            Operand16bit::Register(register) => cpu.get_register_16bit(register),
            Operand16bit::Immediate(immediate) => immediate,
            Operand16bit::Address(address) => cpu.get_memory_16bit(address),
            Operand16bit::StackPointer => cpu.get_sp(),
        }
    }

    pub fn set(self, cpu: &mut CPU, value: u16)
        requires
            settable16(self),
        ensures
            final(cpu)@ == write16(self, old(cpu)@, value),
    {
        match self {
            Operand16bit::Register(register) => cpu.set_register_16bit(register, value),
            Operand16bit::Immediate(_) => {
                proof {
                    assert(false);
                }
            },
            Operand16bit::Address(address) => cpu.set_memory_16bit(address, value),
            Operand16bit::StackPointer => cpu.set_sp(value),
        }
    }
}

/// A static recipe for producing an 8-bit operand, embedded in the opcode
/// table. Immediate-style modes consume instruction-stream bytes.
#[derive(Clone, Copy, PartialEq, Eq, Structural, Debug)]
pub enum AddressingMode8bit {
    Register(Register8bit),
    Indirect(Register16bit),
    IndexedC,
    IndexedImm,
    Immediate,
    Address,
    Fixed(u8),
}

/// A static recipe for producing a 16-bit operand.
#[derive(Clone, Copy, PartialEq, Eq, Structural, Debug)]
pub enum AddressingMode16bit {
    Register(Register16bit),
    Indirect(Register16bit),
    Immediate,
    Address,
    StackPointer,
    Fixed(u16),
}

/// Resolving an 8-bit addressing mode: the operand produced and the state
/// left behind. Only immediate-style modes advance the program counter.
pub open spec fn resolve8(m: AddressingMode8bit, s: CpuState) -> (Operand8bit, CpuState) {
    match m {
        AddressingMode8bit::Register(register) => (Operand8bit::Register(register), s),
        AddressingMode8bit::Indirect(register) => (Operand8bit::Address(s.reg16(register)), s),
        AddressingMode8bit::IndexedC => (
            Operand8bit::Address((0xFF00 + s.reg8(Register8bit::C)) as u16),
            s,
        ),
        AddressingMode8bit::IndexedImm => (
            Operand8bit::Address((0xFF00 + s.mem8(s.pc)) as u16),
            s.with_pc(wrap_add16(s.pc, 1)),
        ),
        AddressingMode8bit::Immediate => (
            Operand8bit::Immediate(s.mem8(s.pc)),
            s.with_pc(wrap_add16(s.pc, 1)),
        ),
        AddressingMode8bit::Address => (
            Operand8bit::Address(s.mem16(s.pc)),
            s.with_pc(wrap_add16(s.pc, 2)),
        ),
        AddressingMode8bit::Fixed(value) => (Operand8bit::Immediate(value), s),
    }
}

/// Resolving a 16-bit addressing mode.
pub open spec fn resolve16(m: AddressingMode16bit, s: CpuState) -> (Operand16bit, CpuState) {
    match m {
        AddressingMode16bit::Register(register) => (Operand16bit::Register(register), s),
        AddressingMode16bit::Indirect(register) => (Operand16bit::Address(s.reg16(register)), s),
        AddressingMode16bit::Immediate => (
            Operand16bit::Immediate(s.mem16(s.pc)),
            s.with_pc(wrap_add16(s.pc, 2)),
        ),
        AddressingMode16bit::Address => (
            Operand16bit::Address(s.mem16(s.pc)),
            s.with_pc(wrap_add16(s.pc, 2)),
        ),
        AddressingMode16bit::StackPointer => (Operand16bit::StackPointer, s),
        AddressingMode16bit::Fixed(value) => (Operand16bit::Immediate(value), s),
    }
}

impl AddressingMode8bit {
    /// Turn the static mode into a concrete operand against the live CPU,
    /// consuming instruction-stream bytes as the mode demands.
    pub fn fetch_operand(self, cpu: &mut CPU) -> (r: Operand8bit)
        ensures
            r == resolve8(self, old(cpu)@).0,
            final(cpu)@ == resolve8(self, old(cpu)@).1,
    {
        match self {
            AddressingMode8bit::Register(register) => Operand8bit::Register(register),
            AddressingMode8bit::Indirect(register) => Operand8bit::Address(
                cpu.get_register_16bit(register),
            ),
            AddressingMode8bit::IndexedC => Operand8bit::Address(
                0xFF00 + (cpu.get_register_8bit(Register8bit::C) as u16),
            ),
            AddressingMode8bit::IndexedImm => Operand8bit::Address(
                0xFF00 + (cpu.fetch_next_8bits_pc() as u16),
            ),
            AddressingMode8bit::Immediate => Operand8bit::Immediate(cpu.fetch_next_8bits_pc()),
            AddressingMode8bit::Address => Operand8bit::Address(cpu.fetch_next_16bits_pc()),
            AddressingMode8bit::Fixed(value) => Operand8bit::Immediate(value),
        }
    }
}

impl AddressingMode16bit {
    /// Turn the static mode into a concrete operand against the live CPU.
    pub fn fetch_operand(self, cpu: &mut CPU) -> (r: Operand16bit)
        ensures
            r == resolve16(self, old(cpu)@).0,
            final(cpu)@ == resolve16(self, old(cpu)@).1,
    {
        match self {
            AddressingMode16bit::Register(register) => Operand16bit::Register(register),
            AddressingMode16bit::Indirect(register) => Operand16bit::Address(
                cpu.get_register_16bit(register),
            ),
            AddressingMode16bit::Immediate => Operand16bit::Immediate(cpu.fetch_next_16bits_pc()),
            AddressingMode16bit::Address => Operand16bit::Address(cpu.fetch_next_16bits_pc()),
            AddressingMode16bit::StackPointer => Operand16bit::StackPointer,
            AddressingMode16bit::Fixed(value) => Operand16bit::Immediate(value),
        }
    }
}

/// The instruction forms that take no operand.
#[derive(Clone, Copy, PartialEq, Eq, Structural, Debug)]
pub enum NullaryOp {
    Nop,
    Rlca,
    Rla,
    Rrca,
    Rra,
    Daa,
    Cpl,
    Scf,
    Ccf,
    Halt,
    Ret,
    RetNz,
    RetZ,
    RetNc,
    RetC,
    Reti,
    Ei,
    Di,
}

/// The instruction forms that take one 8-bit operand.
#[derive(Clone, Copy, PartialEq, Eq, Structural, Debug)]
pub enum UnaryOp8 {
    Inc,
    Dec,
    Add,
    Adc,
    Sub,
    Sbc,
    And,
    Xor,
    Or,
    Cp,
    LdHlSp,
    AddSp,
    Jr,
    JrNz,
    JrZ,
    JrNc,
    JrC,
    Rlc,
    Rrc,
    Rl,
    Rr,
    Sla,
    Sra,
    Swap,
    Srl,
    Stop,
}

/// The instruction forms that take two 8-bit operands.
#[derive(Clone, Copy, PartialEq, Eq, Structural, Debug)]
pub enum BinaryOp8 {
    Ld,
    Ldi,
    Ldd,
    Bit,
    Res,
    SetBit,
}

/// The instruction forms that take one 16-bit operand.
#[derive(Clone, Copy, PartialEq, Eq, Structural, Debug)]
pub enum UnaryOp16 {
    Inc16,
    Dec16,
    AddHl,
    Push,
    Pop,
    Jp,
    JpNz,
    JpZ,
    JpNc,
    JpC,
    Call,
    CallNz,
    CallZ,
    CallNc,
    CallC,
    Rst,
}

/// The instruction forms that take two 16-bit operands.
#[derive(Clone, Copy, PartialEq, Eq, Structural, Debug)]
pub enum BinaryOp16 {
    Ld16,
}

/// One entry of the opcode table: a closed variant over arity and width
/// shapes, the CB-prefix marker, and the explicit illegal-opcode marker.
#[derive(Clone, Copy, PartialEq, Eq, Structural, Debug)]
pub enum Instruction {
    Implied(NullaryOp),
    Op8bit(UnaryOp8, AddressingMode8bit),
    Op8bit8bit(BinaryOp8, AddressingMode8bit, AddressingMode8bit),
    Op16bit(UnaryOp16, AddressingMode16bit),
    Op16bit16bit(BinaryOp16, AddressingMode16bit, AddressingMode16bit),
    Prefix,
    Invalid,
}

/// Whether an 8-bit mode resolves to a settable operand.
pub open spec fn mode8_settable(m: AddressingMode8bit) -> bool {
    !(m is Immediate) && !(m is Fixed)
}

/// Whether a 16-bit mode resolves to a settable operand.
pub open spec fn mode16_settable(m: AddressingMode16bit) -> bool {
    !(m is Immediate) && !(m is Fixed)
}

/// Whether a one-operand 8-bit instruction writes its operand back.
pub open spec fn unary8_writes(k: UnaryOp8) -> bool {
    match k {
        UnaryOp8::Inc | UnaryOp8::Dec | UnaryOp8::Rlc | UnaryOp8::Rrc | UnaryOp8::Rl
            | UnaryOp8::Rr | UnaryOp8::Sla | UnaryOp8::Sra | UnaryOp8::Swap | UnaryOp8::Srl => true,
        _ => false,
    }
}

/// Whether a one-operand 16-bit instruction writes its operand back.
pub open spec fn unary16_writes(k: UnaryOp16) -> bool {
    match k {
        UnaryOp16::Inc16 | UnaryOp16::Dec16 | UnaryOp16::Pop => true,
        _ => false,
    }
}

/// Static well-formedness of a table entry: operands that get written are
/// settable, and the bit index of `bit`/`res`/`set` is a fixed value below 8.
/// Every entry of the opcode table satisfies this.
pub open spec fn instr_wf(i: Instruction) -> bool {
    match i {
        Instruction::Implied(_) => true,
        Instruction::Op8bit(k, m) => unary8_writes(k) ==> mode8_settable(m),
        Instruction::Op8bit8bit(k, m1, m2) => match k {
            BinaryOp8::Ld | BinaryOp8::Ldi | BinaryOp8::Ldd => mode8_settable(m1),
            BinaryOp8::Bit => m1 matches AddressingMode8bit::Fixed(b) && b < 8,
            BinaryOp8::Res | BinaryOp8::SetBit => (m1 matches AddressingMode8bit::Fixed(b) && b < 8)
                && mode8_settable(m2),
        },
        Instruction::Op16bit(k, m) => unary16_writes(k) ==> mode16_settable(m),
        Instruction::Op16bit16bit(_, m1, _) => mode16_settable(m1),
        Instruction::Prefix => true,
        Instruction::Invalid => true,
    }
}

/// Effect of an implied-form instruction on the state.
pub open spec fn implied_effect(k: NullaryOp, s: CpuState) -> CpuState {
    match k {
        NullaryOp::Nop => s,
        NullaryOp::Rlca => crate::instructions::rlca_spec(s),
        NullaryOp::Rla => crate::instructions::rla_spec(s),
        NullaryOp::Rrca => crate::instructions::rrca_spec(s),
        NullaryOp::Rra => crate::instructions::rra_spec(s),
        NullaryOp::Daa => crate::instructions::daa_spec(s),
        NullaryOp::Cpl => crate::instructions::cpl_spec(s),
        NullaryOp::Scf => crate::instructions::scf_spec(s),
        NullaryOp::Ccf => crate::instructions::ccf_spec(s),
        NullaryOp::Halt => s,
        NullaryOp::Ret => crate::instructions::ret_spec(s),
        NullaryOp::RetNz => crate::instructions::retnz_spec(s),
        NullaryOp::RetZ => crate::instructions::retz_spec(s),
        NullaryOp::RetNc => crate::instructions::retnc_spec(s),
        NullaryOp::RetC => crate::instructions::retc_spec(s),
        NullaryOp::Reti => crate::instructions::reti_spec(s),
        NullaryOp::Ei => crate::instructions::ei_spec(s),
        NullaryOp::Di => crate::instructions::di_spec(s),
    }
}

/// Effect of a one-operand 8-bit instruction on the state, after its operand
/// has been resolved.
pub open spec fn unary8_effect(k: UnaryOp8, s: CpuState, op: Operand8bit) -> CpuState {
    match k {
        UnaryOp8::Inc => crate::instructions::inc_spec(s, op),
        UnaryOp8::Dec => crate::instructions::dec_spec(s, op),
        UnaryOp8::Add => crate::instructions::add_spec(s, op),
        UnaryOp8::Adc => crate::instructions::adc_spec(s, op),
        UnaryOp8::Sub => crate::instructions::sub_spec(s, op),
        UnaryOp8::Sbc => crate::instructions::sbc_spec(s, op),
        UnaryOp8::And => crate::instructions::and_spec(s, op),
        UnaryOp8::Xor => crate::instructions::xor_spec(s, op),
        UnaryOp8::Or => crate::instructions::or_spec(s, op),
        UnaryOp8::Cp => crate::instructions::cp_spec(s, op),
        UnaryOp8::LdHlSp => crate::instructions::ldhl_spec(s, op),
        UnaryOp8::AddSp => crate::instructions::addsp_spec(s, op),
        UnaryOp8::Jr => crate::instructions::jr_spec(s, op),
        UnaryOp8::JrNz => crate::instructions::jrnz_spec(s, op),
        UnaryOp8::JrZ => crate::instructions::jrz_spec(s, op),
        UnaryOp8::JrNc => crate::instructions::jrnc_spec(s, op),
        UnaryOp8::JrC => crate::instructions::jrc_spec(s, op),
        UnaryOp8::Rlc => crate::instructions::rlc_spec(s, op),
        UnaryOp8::Rrc => crate::instructions::rrc_spec(s, op),
        UnaryOp8::Rl => crate::instructions::rl_spec(s, op),
        UnaryOp8::Rr => crate::instructions::rr_spec(s, op),
        UnaryOp8::Sla => crate::instructions::sla_spec(s, op),
        UnaryOp8::Sra => crate::instructions::sra_spec(s, op),
        UnaryOp8::Swap => crate::instructions::swap_spec(s, op),
        UnaryOp8::Srl => crate::instructions::srl_spec(s, op),
        UnaryOp8::Stop => s,
    }
}

/// Effect of a two-operand 8-bit instruction on the state.
pub open spec fn binary8_effect(
    k: BinaryOp8,
    s: CpuState,
    op1: Operand8bit,
    op2: Operand8bit,
) -> CpuState {
    match k {
        BinaryOp8::Ld => crate::instructions::ld_spec(s, op1, op2),
        BinaryOp8::Ldi => crate::instructions::ldi_spec(s, op1, op2),
        BinaryOp8::Ldd => crate::instructions::ldd_spec(s, op1, op2),
        BinaryOp8::Bit => crate::instructions::bit_spec(s, op1, op2),
        BinaryOp8::Res => crate::instructions::res_spec(s, op1, op2),
        BinaryOp8::SetBit => crate::instructions::set_spec(s, op1, op2),
    }
}

/// Effect of a one-operand 16-bit instruction on the state.
pub open spec fn unary16_effect(k: UnaryOp16, s: CpuState, op: Operand16bit) -> CpuState {
    match k {
        UnaryOp16::Inc16 => crate::instructions::inc16_spec(s, op),
        UnaryOp16::Dec16 => crate::instructions::dec16_spec(s, op),
        UnaryOp16::AddHl => crate::instructions::addhl_spec(s, op),
        UnaryOp16::Push => crate::instructions::push_spec(s, op),
        UnaryOp16::Pop => crate::instructions::pop_spec(s, op),
        UnaryOp16::Jp => crate::instructions::jp_spec(s, op),
        UnaryOp16::JpNz => crate::instructions::jpnz_spec(s, op),
        UnaryOp16::JpZ => crate::instructions::jpz_spec(s, op),
        UnaryOp16::JpNc => crate::instructions::jpnc_spec(s, op),
        UnaryOp16::JpC => crate::instructions::jpc_spec(s, op),
        UnaryOp16::Call => crate::instructions::call_spec(s, op),
        UnaryOp16::CallNz => crate::instructions::callnz_spec(s, op),
        UnaryOp16::CallZ => crate::instructions::callz_spec(s, op),
        UnaryOp16::CallNc => crate::instructions::callnc_spec(s, op),
        UnaryOp16::CallC => crate::instructions::callc_spec(s, op),
        UnaryOp16::Rst => crate::instructions::rst_spec(s, op),
    }
}

/// Effect of a two-operand 16-bit instruction on the state.
pub open spec fn binary16_effect(
    k: BinaryOp16,
    s: CpuState,
    op1: Operand16bit,
    op2: Operand16bit,
) -> CpuState {
    match k {
        BinaryOp16::Ld16 => crate::instructions::ld16_spec(s, op1, op2),
    }
}

/// Effect of one non-prefix table entry: resolve each listed operand in
/// left-to-right declaration order — resolution may advance PC — then apply
/// the matching semantic function. Prefix and Invalid entries leave the
/// state unchanged here; `instr_effect` and the engine handle them.
pub open spec fn instr_effect_basic(i: Instruction, s: CpuState) -> CpuState {
    match i {
        Instruction::Implied(k) => implied_effect(k, s),
        Instruction::Op8bit(k, m) => {
            let (op, s1) = resolve8(m, s);
            unary8_effect(k, s1, op)
        },
        Instruction::Op8bit8bit(k, m1, m2) => {
            let (op1, s1) = resolve8(m1, s);
            let (op2, s2) = resolve8(m2, s1);
            binary8_effect(k, s2, op1, op2)
        },
        Instruction::Op16bit(k, m) => {
            let (op, s1) = resolve16(m, s);
            unary16_effect(k, s1, op)
        },
        Instruction::Op16bit16bit(k, m1, m2) => {
            let (op1, s1) = resolve16(m1, s);
            let (op2, s2) = resolve16(m2, s1);
            binary16_effect(k, s2, op1, op2)
        },
        Instruction::Prefix => s,
        Instruction::Invalid => s,
    }
}

/// Effect of a table entry, with the CB prefix played out: the prefix
/// fetches one more byte (advancing PC again) and re-indexes the table at
/// that byte plus 256.
pub open spec fn instr_effect(i: Instruction, s: CpuState) -> CpuState {
    if i is Prefix {
        instr_effect_basic(
            crate::table::table_entry((s.mem8(s.pc) + 256) as u16),
            s.with_pc(wrap_add16(s.pc, 1)),
        )
    } else {
        instr_effect_basic(i, s)
    }
}

/// Whether one fetch-decode-execute step from `s` completes: the entry the
/// fetched opcode selects is not the Invalid marker.
pub open spec fn step_ok(s: CpuState) -> bool {
    !(crate::table::table_entry(s.mem8(s.pc) as u16) is Invalid)
}

/// The state after one full fetch-decode-execute step from `s`: the opcode
/// byte at PC is fetched (advancing PC), its table entry resolved and run.
pub open spec fn step_spec(s: CpuState) -> CpuState {
    instr_effect(
        crate::table::table_entry(s.mem8(s.pc) as u16),
        s.with_pc(wrap_add16(s.pc, 1)),
    )
}

/// Resolving an 8-bit mode: a settable mode yields a settable operand, and
/// resolution touches nothing but PC.
proof fn lemma_resolve8_ops(m: AddressingMode8bit, s: CpuState)
    ensures
        mode8_settable(m) ==> settable8(resolve8(m, s).0),
        resolve8(m, s).1.regs == s.regs,
        resolve8(m, s).1.mem == s.mem,
        resolve8(m, s).1.sp == s.sp,
        resolve8(m, s).1.ime == s.ime,
        s.wf() ==> resolve8(m, s).1.wf(),
{
}

/// Resolving a 16-bit mode: a settable mode yields a settable operand, and
/// resolution touches nothing but PC.
proof fn lemma_resolve16_ops(m: AddressingMode16bit, s: CpuState)
    ensures
        mode16_settable(m) ==> settable16(resolve16(m, s).0),
        resolve16(m, s).1.regs == s.regs,
        resolve16(m, s).1.mem == s.mem,
        resolve16(m, s).1.sp == s.sp,
        resolve16(m, s).1.ime == s.ime,
        s.wf() ==> resolve16(m, s).1.wf(),
{
}

/// Run an implied-form instruction.
fn run_implied(k: NullaryOp, cpu: &mut CPU)
    requires
        old(cpu)@.wf(),
    ensures
        final(cpu)@ == implied_effect(k, old(cpu)@),
        final(cpu)@.wf(),
{
    match k {
        NullaryOp::Nop => crate::instructions::nop(cpu),
        NullaryOp::Rlca => crate::instructions::rlca(cpu),
        NullaryOp::Rla => crate::instructions::rla(cpu),
        NullaryOp::Rrca => crate::instructions::rrca(cpu),
        NullaryOp::Rra => crate::instructions::rra(cpu),
        NullaryOp::Daa => crate::instructions::daa(cpu),
        NullaryOp::Cpl => crate::instructions::cpl(cpu),
        NullaryOp::Scf => crate::instructions::scf(cpu),
        NullaryOp::Ccf => crate::instructions::ccf(cpu),
        NullaryOp::Halt => crate::instructions::halt(cpu),
        NullaryOp::Ret => crate::instructions::ret(cpu),
        NullaryOp::RetNz => crate::instructions::retnz(cpu),
        NullaryOp::RetZ => crate::instructions::retz(cpu),
        NullaryOp::RetNc => crate::instructions::retnc(cpu),
        NullaryOp::RetC => crate::instructions::retc(cpu),
        NullaryOp::Reti => crate::instructions::reti(cpu),
        NullaryOp::Ei => crate::instructions::ei(cpu),
        NullaryOp::Di => crate::instructions::di(cpu),
    }
}

/// Run a one-operand 8-bit instruction against its resolved operand.
fn run_unary8(k: UnaryOp8, cpu: &mut CPU, op: Operand8bit)
    requires
        old(cpu)@.wf(),
        unary8_writes(k) ==> settable8(op),
    ensures
        final(cpu)@ == unary8_effect(k, old(cpu)@, op),
        final(cpu)@.wf(),
{
    match k {
        UnaryOp8::Inc => crate::instructions::inc(cpu, op),
        UnaryOp8::Dec => crate::instructions::dec(cpu, op),
        UnaryOp8::Add => crate::instructions::add(cpu, op),
        UnaryOp8::Adc => crate::instructions::adc(cpu, op),
        UnaryOp8::Sub => crate::instructions::sub(cpu, op),
        UnaryOp8::Sbc => crate::instructions::sbc(cpu, op),
        UnaryOp8::And => crate::instructions::and(cpu, op),
        UnaryOp8::Xor => crate::instructions::xor(cpu, op),
        UnaryOp8::Or => crate::instructions::or(cpu, op),
        UnaryOp8::Cp => crate::instructions::cp(cpu, op),
        UnaryOp8::LdHlSp => crate::instructions::ldhl(cpu, op),
        UnaryOp8::AddSp => crate::instructions::addsp(cpu, op),
        UnaryOp8::Jr => crate::instructions::jr(cpu, op),
        UnaryOp8::JrNz => crate::instructions::jrnz(cpu, op),
        UnaryOp8::JrZ => crate::instructions::jrz(cpu, op),
        UnaryOp8::JrNc => crate::instructions::jrnc(cpu, op),
        UnaryOp8::JrC => crate::instructions::jrc(cpu, op),
        UnaryOp8::Rlc => crate::instructions::rlc(cpu, op),
        UnaryOp8::Rrc => crate::instructions::rrc(cpu, op),
        UnaryOp8::Rl => crate::instructions::rl(cpu, op),
        UnaryOp8::Rr => crate::instructions::rr(cpu, op),
        UnaryOp8::Sla => crate::instructions::sla(cpu, op),
        UnaryOp8::Sra => crate::instructions::sra(cpu, op),
        UnaryOp8::Swap => crate::instructions::swap(cpu, op),
        UnaryOp8::Srl => crate::instructions::srl(cpu, op),
        UnaryOp8::Stop => crate::instructions::stop(cpu, op),
    }
}

/// Run a two-operand 8-bit instruction against its resolved operands.
fn run_binary8(k: BinaryOp8, cpu: &mut CPU, op1: Operand8bit, op2: Operand8bit)
    requires
        old(cpu)@.wf(),
        (k is Ld || k is Ldi || k is Ldd) ==> settable8(op1),
        (k is Bit || k is Res || k is SetBit) ==> read8(op1, old(cpu)@) < 8,
        (k is Res || k is SetBit) ==> settable8(op2),
    ensures
        final(cpu)@ == binary8_effect(k, old(cpu)@, op1, op2),
        final(cpu)@.wf(),
{
    match k {
        BinaryOp8::Ld => crate::instructions::ld(cpu, op1, op2),
        BinaryOp8::Ldi => crate::instructions::ldi(cpu, op1, op2),
        BinaryOp8::Ldd => crate::instructions::ldd(cpu, op1, op2),
        BinaryOp8::Bit => crate::instructions::bit(cpu, op1, op2),
        BinaryOp8::Res => crate::instructions::res(cpu, op1, op2),
        BinaryOp8::SetBit => crate::instructions::set(cpu, op1, op2),
    }
}

/// Run a one-operand 16-bit instruction against its resolved operand.
fn run_unary16(k: UnaryOp16, cpu: &mut CPU, op: Operand16bit)
    requires
        old(cpu)@.wf(),
        unary16_writes(k) ==> settable16(op),
    ensures
        final(cpu)@ == unary16_effect(k, old(cpu)@, op),
        final(cpu)@.wf(),
{
    match k {
        UnaryOp16::Inc16 => crate::instructions::inc16(cpu, op),
        UnaryOp16::Dec16 => crate::instructions::dec16(cpu, op),
        UnaryOp16::AddHl => crate::instructions::addhl(cpu, op),
        UnaryOp16::Push => crate::instructions::push(cpu, op),
        UnaryOp16::Pop => crate::instructions::pop(cpu, op),
        UnaryOp16::Jp => crate::instructions::jp(cpu, op),
        UnaryOp16::JpNz => crate::instructions::jpnz(cpu, op),
        UnaryOp16::JpZ => crate::instructions::jpz(cpu, op),
        UnaryOp16::JpNc => crate::instructions::jpnc(cpu, op),
        UnaryOp16::JpC => crate::instructions::jpc(cpu, op),
        UnaryOp16::Call => crate::instructions::call(cpu, op),
        UnaryOp16::CallNz => crate::instructions::callnz(cpu, op),
        UnaryOp16::CallZ => crate::instructions::callz(cpu, op),
        UnaryOp16::CallNc => crate::instructions::callnc(cpu, op),
        UnaryOp16::CallC => crate::instructions::callc(cpu, op),
        UnaryOp16::Rst => crate::instructions::rst(cpu, op),
    }
}

/// Run a two-operand 16-bit instruction against its resolved operands.
fn run_binary16(k: BinaryOp16, cpu: &mut CPU, op1: Operand16bit, op2: Operand16bit)
    requires
        old(cpu)@.wf(),
        settable16(op1),
    ensures
        final(cpu)@ == binary16_effect(k, old(cpu)@, op1, op2),
        final(cpu)@.wf(),
{
    match k {
        BinaryOp16::Ld16 => crate::instructions::ld16(cpu, op1, op2),
    }
}

/// Resolve and run one non-prefix, non-invalid table entry.
fn execute_entry(entry: Instruction, cpu: &mut CPU)
    requires
        old(cpu)@.wf(),
        instr_wf(entry),
        !(entry is Prefix),
        !(entry is Invalid),
    ensures
        final(cpu)@ == instr_effect_basic(entry, old(cpu)@),
        final(cpu)@.wf(),
{
    match entry {
        Instruction::Implied(k) => run_implied(k, cpu),
        Instruction::Op8bit(k, mode1) => {
            proof {
                lemma_resolve8_ops(mode1, old(cpu)@);
            }
            let op1 = mode1.fetch_operand(cpu);
            run_unary8(k, cpu, op1);
        },
        Instruction::Op8bit8bit(k, mode1, mode2) => {
            proof {
                lemma_resolve8_ops(mode1, old(cpu)@);
                lemma_resolve8_ops(mode2, resolve8(mode1, old(cpu)@).1);
            }
            let op1 = mode1.fetch_operand(cpu);
            let op2 = mode2.fetch_operand(cpu);
            run_binary8(k, cpu, op1, op2);
        },
        Instruction::Op16bit(k, mode1) => {
            proof {
                lemma_resolve16_ops(mode1, old(cpu)@);
            }
            let op1 = mode1.fetch_operand(cpu);
            run_unary16(k, cpu, op1);
        },
        Instruction::Op16bit16bit(k, mode1, mode2) => {
            proof {
                lemma_resolve16_ops(mode1, old(cpu)@);
                lemma_resolve16_ops(mode2, resolve16(mode1, old(cpu)@).1);
            }
            let op1 = mode1.fetch_operand(cpu);
            let op2 = mode2.fetch_operand(cpu);
            run_binary16(k, cpu, op1, op2);
        },
        Instruction::Prefix => {
            proof {
                assert(false);
            }
        },
        Instruction::Invalid => {
            proof {
                assert(false);
            }
        },
    }
}

impl Instruction {
    /// Execute one table entry: resolve every listed operand in left-to-right
    /// declaration order, then invoke the matching semantic function. The
    /// Prefix entry fetches one more byte and re-indexes the table at that
    /// byte plus 256. Executing the Invalid marker is surfaced as a fatal
    /// error, with the state untouched.
    pub fn execute(self, cpu: &mut CPU) -> (r: Result<(), EmuError>)
        requires
            old(cpu)@.wf(),
            instr_wf(self),
        ensures
            r is Ok <==> !(self is Invalid),
            self is Invalid ==> final(cpu)@ == old(cpu)@ && r == Err::<(), EmuError>(
                EmuError::IllegalOpcode,
            ),
            !(self is Invalid) ==> final(cpu)@ == instr_effect(self, old(cpu)@)
                && final(cpu)@.wf(),
    {
        match self {
            Instruction::Prefix => {
                let opcode = cpu.fetch_next_8bits_pc();
                let entry = crate::table::instruction_entry((opcode as u16) + 256);
                execute_entry(entry, cpu);
                Ok(())
            },
            Instruction::Invalid => Err(EmuError::IllegalOpcode),
            _ => {
                execute_entry(self, cpu);
                Ok(())
            },
        }
    }
}

} // verus!
