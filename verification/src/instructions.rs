//! The instruction semantics: deterministic, total functions over the CPU
//! state and resolved operands. Each executable function carries a contract
//! pinning the whole next state to a spec-level transition function.

use crate::bitwise;
use crate::bitwise::{bit8, set_bit8, word};
use crate::cpu::{
    flags_byte, lemma_flag_chain_all, lemma_flag_chain_keep_c, lemma_flag_chain_keep_n,
    lemma_flag_chain_keep_z, lemma_flag_chain_keep_zc, lemma_flags_byte_bits,
    lemma_register16_write_read, lemma_register_write_read, wrap_add16, wrap_add8, wrap_sub16,
    wrap_sub8, CpuState, Flag, Register16bit, Register8bit, CPU,
};
use crate::dispatch::{
    read16, read8, settable16, settable8, write16, write8, Operand16bit, Operand8bit,
};
use vstd::prelude::*;

verus! {

broadcast use crate::bitwise::lemma_and_bound_u8, crate::bitwise::lemma_and_bound_u16;

/// A displacement byte sign-extended to 16 bits.
pub open spec fn sign_extend(v: u8) -> u16 {
    if v < 0x80 {
        v as u16
    } else {
        (v + 0xFF00) as u16
    }
}

fn sign_extend_byte(v: u8) -> (r: u16)
    ensures
        r == sign_extend(v),
{
    if v < 0x80 {
        v as u16
    } else {
        (v as u16) + 0xFF00
    }
}

/// Writing through an 8-bit operand keeps the state well formed.
pub proof fn lemma_write8_wf(op: Operand8bit, s: CpuState, v: u8)
    requires
        s.wf(),
    ensures
        write8(op, s, v).wf(),
{
    match op {
        Operand8bit::Register(register) => {
            lemma_register_write_read(s, register, v);
        },
        Operand8bit::Immediate(_) => {},
        Operand8bit::Address(_) => {},
    }
}

/// Writing through a 16-bit operand keeps the state well formed.
pub proof fn lemma_write16_wf(op: Operand16bit, s: CpuState, v: u16)
    requires
        s.wf(),
    ensures
        write16(op, s, v).wf(),
{
    match op {
        Operand16bit::Register(register) => {
            lemma_register16_write_read(s, register, v);
        },
        Operand16bit::Immediate(_) => {},
        Operand16bit::Address(_) => {},
        Operand16bit::StackPointer => {},
    }
}

/// Write all four flags.
fn write_flags(cpu: &mut CPU, z: bool, n: bool, h: bool, c: bool)
    requires
        old(cpu)@.wf(),
    ensures
        final(cpu)@ == old(cpu)@.with_flags(z, n, h, c),
        final(cpu)@.wf(),
{
    cpu.set_flag(Flag::Z, z);
    cpu.set_flag(Flag::N, n);
    cpu.set_flag(Flag::H, h);
    cpu.set_flag(Flag::C, c);
    proof {
        lemma_flag_chain_all(old(cpu)@.regs[1], z, n, h, c);
        lemma_flags_byte_bits(z, n, h, c);
        assert(cpu@.regs =~= old(cpu)@.regs.update(1, flags_byte(z, n, h, c)));
        assert(cpu@ =~= old(cpu)@.with_flags(z, n, h, c));
    }
}

/// Write Z, N and H; the carry flag keeps its value.
fn write_flags_keep_c(cpu: &mut CPU, z: bool, n: bool, h: bool)
    requires
        old(cpu)@.wf(),
    ensures
        final(cpu)@ == old(cpu)@.with_flags(z, n, h, old(cpu)@.flag(Flag::C)),
        final(cpu)@.wf(),
{
    cpu.set_flag(Flag::Z, z);
    cpu.set_flag(Flag::N, n);
    cpu.set_flag(Flag::H, h);
    proof {
        lemma_flag_chain_keep_c(old(cpu)@.regs[1], z, n, h);
        lemma_flags_byte_bits(z, n, h, bit8(old(cpu)@.regs[1], 4));
        assert(cpu@.regs =~= old(cpu)@.regs.update(
            1,
            flags_byte(z, n, h, old(cpu)@.flag(Flag::C)),
        ));
        assert(cpu@ =~= old(cpu)@.with_flags(z, n, h, old(cpu)@.flag(Flag::C)));
    }
}

/// Write N, H and C; the zero flag keeps its value.
fn write_flags_keep_z(cpu: &mut CPU, n: bool, h: bool, c: bool)
    requires
        old(cpu)@.wf(),
    ensures
        final(cpu)@ == old(cpu)@.with_flags(old(cpu)@.flag(Flag::Z), n, h, c),
        final(cpu)@.wf(),
{
    cpu.set_flag(Flag::N, n);
    cpu.set_flag(Flag::H, h);
    cpu.set_flag(Flag::C, c);
    proof {
        lemma_flag_chain_keep_z(old(cpu)@.regs[1], n, h, c);
        lemma_flags_byte_bits(bit8(old(cpu)@.regs[1], 7), n, h, c);
        assert(cpu@.regs =~= old(cpu)@.regs.update(
            1,
            flags_byte(old(cpu)@.flag(Flag::Z), n, h, c),
        ));
        assert(cpu@ =~= old(cpu)@.with_flags(old(cpu)@.flag(Flag::Z), n, h, c));
    }
}

/// Write N and H; the zero and carry flags keep their values.
fn write_flags_keep_zc(cpu: &mut CPU, n: bool, h: bool)
    requires
        old(cpu)@.wf(),
    ensures
        final(cpu)@ == old(cpu)@.with_flags(
            old(cpu)@.flag(Flag::Z),
            n,
            h,
            old(cpu)@.flag(Flag::C),
        ),
        final(cpu)@.wf(),
{
    cpu.set_flag(Flag::N, n);
    cpu.set_flag(Flag::H, h);
    proof {
        lemma_flag_chain_keep_zc(old(cpu)@.regs[1], n, h);
        lemma_flags_byte_bits(bit8(old(cpu)@.regs[1], 7), n, h, bit8(old(cpu)@.regs[1], 4));
        assert(cpu@.regs =~= old(cpu)@.regs.update(
            1,
            flags_byte(old(cpu)@.flag(Flag::Z), n, h, old(cpu)@.flag(Flag::C)),
        ));
        assert(cpu@ =~= old(cpu)@.with_flags(
            old(cpu)@.flag(Flag::Z),
            n,
            h,
            old(cpu)@.flag(Flag::C),
        ));
    }
}

/// Write Z, H and C; the subtract flag keeps its value.
fn write_flags_keep_n(cpu: &mut CPU, z: bool, h: bool, c: bool)
    requires
        old(cpu)@.wf(),
    ensures
        final(cpu)@ == old(cpu)@.with_flags(z, old(cpu)@.flag(Flag::N), h, c),
        final(cpu)@.wf(),
{
    cpu.set_flag(Flag::Z, z);
    cpu.set_flag(Flag::H, h);
    cpu.set_flag(Flag::C, c);
    proof {
        lemma_flag_chain_keep_n(old(cpu)@.regs[1], z, h, c);
        lemma_flags_byte_bits(z, bit8(old(cpu)@.regs[1], 6), h, c);
        assert(cpu@.regs =~= old(cpu)@.regs.update(
            1,
            flags_byte(z, old(cpu)@.flag(Flag::N), h, c),
        ));
        assert(cpu@ =~= old(cpu)@.with_flags(z, old(cpu)@.flag(Flag::N), h, c));
    }
}

/// `ld`: copy an 8-bit value from the second operand into the first.
pub open spec fn ld_spec(s: CpuState, op1: Operand8bit, op2: Operand8bit) -> CpuState {
    write8(op1, s, read8(op2, s))
}

pub fn ld(cpu: &mut CPU, operand1: Operand8bit, operand2: Operand8bit)
    requires
        old(cpu)@.wf(),
        settable8(operand1),
    ensures
        final(cpu)@ == ld_spec(old(cpu)@, operand1, operand2),
        final(cpu)@.wf(),
{
    let value = operand2.get(cpu);
    operand1.set(cpu, value);
    proof {
        lemma_write8_wf(operand1, old(cpu)@, read8(operand2, old(cpu)@));
    }
}

/// `ldi`: `ld`, then post-increment the HL pair.
pub open spec fn ldi_spec(s: CpuState, op1: Operand8bit, op2: Operand8bit) -> CpuState {
    inc16_spec(ld_spec(s, op1, op2), Operand16bit::Register(Register16bit::HL))
}

pub fn ldi(cpu: &mut CPU, operand1: Operand8bit, operand2: Operand8bit)
    requires
        old(cpu)@.wf(),
        settable8(operand1),
    ensures
        final(cpu)@ == ldi_spec(old(cpu)@, operand1, operand2),
        final(cpu)@.wf(),
{
    ld(cpu, operand1, operand2);
    inc16(cpu, Operand16bit::Register(Register16bit::HL));
}

/// `ldd`: `ld`, then post-decrement the HL pair.
pub open spec fn ldd_spec(s: CpuState, op1: Operand8bit, op2: Operand8bit) -> CpuState {
    dec16_spec(ld_spec(s, op1, op2), Operand16bit::Register(Register16bit::HL))
}

pub fn ldd(cpu: &mut CPU, operand1: Operand8bit, operand2: Operand8bit)
    requires
        old(cpu)@.wf(),
        settable8(operand1),
    ensures
        final(cpu)@ == ldd_spec(old(cpu)@, operand1, operand2),
        final(cpu)@.wf(),
{
    ld(cpu, operand1, operand2);
    dec16(cpu, Operand16bit::Register(Register16bit::HL));
}

/// `ld16`: copy a 16-bit value from the second operand into the first.
pub open spec fn ld16_spec(s: CpuState, op1: Operand16bit, op2: Operand16bit) -> CpuState {
    write16(op1, s, read16(op2, s))
}

pub fn ld16(cpu: &mut CPU, operand1: Operand16bit, operand2: Operand16bit)
    requires
        old(cpu)@.wf(),
        settable16(operand1),
    ensures
        final(cpu)@ == ld16_spec(old(cpu)@, operand1, operand2),
        final(cpu)@.wf(),
{
    let value = operand2.get(cpu);
    operand1.set(cpu, value);
    proof {
        lemma_write16_wf(operand1, old(cpu)@, read16(operand2, old(cpu)@));
    }
}

/// `ldhl`: HL := SP plus a sign-extended displacement; Z and N clear, H and C
/// from the byte-boundary carries of the unsigned low-byte additions.
pub open spec fn ldhl_spec(s: CpuState, op: Operand8bit) -> CpuState {
    let v = sign_extend(read8(op, s));
    let sp = s.sp;
    let result = wrap_add16(sp, v);
    s.with_flags(false, false, (v & 0x0F) + (sp & 0x0F) >= 0x10, (v & 0xFF) + (sp & 0xFF) >= 0x100)
        .with_reg16(Register16bit::HL, result)
}

pub fn ldhl(cpu: &mut CPU, operand1: Operand8bit)
    requires
        old(cpu)@.wf(),
    ensures
        final(cpu)@ == ldhl_spec(old(cpu)@, operand1),
        final(cpu)@.wf(),
{
    let value1 = sign_extend_byte(operand1.get(cpu));
    let value2 = cpu.get_sp();
    let result = value2.wrapping_add(value1);
    write_flags(
        cpu,
        false,
        false,
        (value1 & 0x0F) + (value2 & 0x0F) >= 0x10,
        (value1 & 0xFF) + (value2 & 0xFF) >= 0x100,
    );
    cpu.set_register_16bit(Register16bit::HL, result);
}

/// The state after pushing a 16-bit value: SP pre-decremented by 2, the value
/// stored little-endian at the new SP.
pub open spec fn push_val16(s: CpuState, v: u16) -> CpuState {
    s.with_sp(wrap_sub16(s.sp, 2)).with_mem16(wrap_sub16(s.sp, 2), v)
}

/// `push`: pre-decrement SP by 2, then store the operand's value there.
pub open spec fn push_spec(s: CpuState, op: Operand16bit) -> CpuState {
    push_val16(s, read16(op, s))
}

pub fn push(cpu: &mut CPU, operand1: Operand16bit)
    requires
        old(cpu)@.wf(),
    ensures
        final(cpu)@ == push_spec(old(cpu)@, operand1),
        final(cpu)@.wf(),
{
    let value = operand1.get(cpu);
    cpu.push_16bit_sp(value);
}

/// `pop`: read the 16-bit value at SP, post-increment SP by 2, store the
/// value through the operand.
pub open spec fn pop_spec(s: CpuState, op: Operand16bit) -> CpuState {
    write16(op, s.with_sp(wrap_add16(s.sp, 2)), s.mem16(s.sp))
}

pub fn pop(cpu: &mut CPU, operand1: Operand16bit)
    requires
        old(cpu)@.wf(),
        settable16(operand1),
    ensures
        final(cpu)@ == pop_spec(old(cpu)@, operand1),
        final(cpu)@.wf(),
{
    let value = cpu.pop_16bit_sp();
    operand1.set(cpu, value);
    proof {
        lemma_write16_wf(
            operand1,
            old(cpu)@.with_sp(wrap_add16(old(cpu)@.sp, 2)),
            old(cpu)@.mem16(old(cpu)@.sp),
        );
    }
}

/// `add`: A := A + operand; all four flags recomputed from the true 8-bit
/// addition, H from the low-nibble carry, C from the full carry.
pub open spec fn add_spec(s: CpuState, op: Operand8bit) -> CpuState {
    let a = s.reg8(Register8bit::A);
    let v = read8(op, s);
    let sum = wrap_add8(a, v);
    s.with_reg8(Register8bit::A, sum).with_flags(
        sum == 0,
        false,
        (a & 0x0F) + (v & 0x0F) >= 0x10,
        a + v > 0xFF,
    )
}

pub fn add(cpu: &mut CPU, operand1: Operand8bit)
    requires
        old(cpu)@.wf(),
    ensures
        final(cpu)@ == add_spec(old(cpu)@, operand1),
        final(cpu)@.wf(),
{
    let value1 = cpu.get_register_8bit(Register8bit::A);
    let value2 = operand1.get(cpu);
    let sum = value1.wrapping_add(value2);
    cpu.set_register_8bit(Register8bit::A, sum);
    write_flags(
        cpu,
        sum == 0,
        false,
        (value1 & 0x0F) + (value2 & 0x0F) >= 0x10,
        (value1 as u16) + (value2 as u16) > 0xFF,
    );
}

/// `adc`: A := A + operand + carry-in; H counts the carry-in in its
/// low-nibble test, C is the full carry of the three-way sum.
pub open spec fn adc_spec(s: CpuState, op: Operand8bit) -> CpuState {
    let a = s.reg8(Register8bit::A);
    let v = read8(op, s);
    let cin: u8 = if s.flag(Flag::C) {
        1
    } else {
        0
    };
    let sum = wrap_add8(wrap_add8(a, v), cin);
    s.with_reg8(Register8bit::A, sum).with_flags(
        sum == 0,
        false,
        (a & 0x0F) + (v & 0x0F) + cin >= 0x10,
        a + v + cin > 0xFF,
    )
}

pub fn adc(cpu: &mut CPU, operand1: Operand8bit)
    requires
        old(cpu)@.wf(),
    ensures
        final(cpu)@ == adc_spec(old(cpu)@, operand1),
        final(cpu)@.wf(),
{
    let value1 = cpu.get_register_8bit(Register8bit::A);
    let value2 = operand1.get(cpu);
    let carry: u8 = if cpu.get_flag(Flag::C) {
        1
    } else {
        0
    };
    let sum = value1.wrapping_add(value2).wrapping_add(carry);
    cpu.set_register_8bit(Register8bit::A, sum);
    write_flags(
        cpu,
        sum == 0,
        false,
        (value1 & 0x0F) + (value2 & 0x0F) + carry >= 0x10,
        (value1 as u16) + (value2 as u16) + (carry as u16) > 0xFF,
    );
}

/// `sub`: A := A - operand; N set, H from the low-nibble borrow, C from the
/// full borrow.
pub open spec fn sub_spec(s: CpuState, op: Operand8bit) -> CpuState {
    let a = s.reg8(Register8bit::A);
    let v = read8(op, s);
    let diff = wrap_sub8(a, v);
    s.with_reg8(Register8bit::A, diff).with_flags(
        diff == 0,
        true,
        (a & 0x0F) < (v & 0x0F),
        a < v,
    )
}

pub fn sub(cpu: &mut CPU, operand1: Operand8bit)
    requires
        old(cpu)@.wf(),
    ensures
        final(cpu)@ == sub_spec(old(cpu)@, operand1),
        final(cpu)@.wf(),
{
    let value1 = cpu.get_register_8bit(Register8bit::A);
    let value2 = operand1.get(cpu);
    let diff = value1.wrapping_sub(value2);
    cpu.set_register_8bit(Register8bit::A, diff);
    write_flags(cpu, diff == 0, true, (value1 & 0x0F) < (value2 & 0x0F), value1 < value2);
}

/// `sbc`: A := A - operand - carry-in; H and C count the carry-in in their
/// borrow tests.
pub open spec fn sbc_spec(s: CpuState, op: Operand8bit) -> CpuState {
    let a = s.reg8(Register8bit::A);
    let v = read8(op, s);
    let cin: u8 = if s.flag(Flag::C) {
        1
    } else {
        0
    };
    let diff = wrap_sub8(wrap_sub8(a, v), cin);
    s.with_reg8(Register8bit::A, diff).with_flags(
        diff == 0,
        true,
        (a & 0x0F) < (v & 0x0F) + cin,
        a < v + cin,
    )
}

pub fn sbc(cpu: &mut CPU, operand1: Operand8bit)
    requires
        old(cpu)@.wf(),
    ensures
        final(cpu)@ == sbc_spec(old(cpu)@, operand1),
        final(cpu)@.wf(),
{
    let value1 = cpu.get_register_8bit(Register8bit::A);
    let value2 = operand1.get(cpu);
    let carry: u8 = if cpu.get_flag(Flag::C) {
        1
    } else {
        0
    };
    let diff = value1.wrapping_sub(value2).wrapping_sub(carry);
    cpu.set_register_8bit(Register8bit::A, diff);
    write_flags(
        cpu,
        diff == 0,
        true,
        (value1 & 0x0F) < (value2 & 0x0F) + carry,
        (value1 as u16) < (value2 as u16) + (carry as u16),
    );
}

/// `and`: A := A & operand; H set, N and C clear.
pub open spec fn and_spec(s: CpuState, op: Operand8bit) -> CpuState {
    let result = s.reg8(Register8bit::A) & read8(op, s);
    s.with_reg8(Register8bit::A, result).with_flags(result == 0, false, true, false)
}

pub fn and(cpu: &mut CPU, operand1: Operand8bit)
    requires
        old(cpu)@.wf(),
    ensures
        final(cpu)@ == and_spec(old(cpu)@, operand1),
        final(cpu)@.wf(),
{
    let result = cpu.get_register_8bit(Register8bit::A) & operand1.get(cpu);
    cpu.set_register_8bit(Register8bit::A, result);
    write_flags(cpu, result == 0, false, true, false);
}

/// `or`: A := A | operand; N, H and C clear.
pub open spec fn or_spec(s: CpuState, op: Operand8bit) -> CpuState {
    let result = s.reg8(Register8bit::A) | read8(op, s);
    s.with_reg8(Register8bit::A, result).with_flags(result == 0, false, false, false)
}

pub fn or(cpu: &mut CPU, operand1: Operand8bit)
    requires
        old(cpu)@.wf(),
    ensures
        final(cpu)@ == or_spec(old(cpu)@, operand1),
        final(cpu)@.wf(),
{
    let result = cpu.get_register_8bit(Register8bit::A) | operand1.get(cpu);
    cpu.set_register_8bit(Register8bit::A, result);
    write_flags(cpu, result == 0, false, false, false);
}

/// `xor`: A := A ^ operand; N, H and C clear.
pub open spec fn xor_spec(s: CpuState, op: Operand8bit) -> CpuState {
    let result = s.reg8(Register8bit::A) ^ read8(op, s);
    s.with_reg8(Register8bit::A, result).with_flags(result == 0, false, false, false)
}

pub fn xor(cpu: &mut CPU, operand1: Operand8bit)
    requires
        old(cpu)@.wf(),
    ensures
        final(cpu)@ == xor_spec(old(cpu)@, operand1),
        final(cpu)@.wf(),
{
    let result = cpu.get_register_8bit(Register8bit::A) ^ operand1.get(cpu);
    cpu.set_register_8bit(Register8bit::A, result);
    write_flags(cpu, result == 0, false, false, false);
}

/// `cp`: compute `sub`'s flags against A and discard the numeric result.
pub open spec fn cp_spec(s: CpuState, op: Operand8bit) -> CpuState {
    let a = s.reg8(Register8bit::A);
    let v = read8(op, s);
    s.with_flags(a == v, true, (a & 0x0F) < (v & 0x0F), a < v)
}

pub fn cp(cpu: &mut CPU, operand1: Operand8bit)
    requires
        old(cpu)@.wf(),
    ensures
        final(cpu)@ == cp_spec(old(cpu)@, operand1),
        final(cpu)@.wf(),
{
    let value1 = cpu.get_register_8bit(Register8bit::A);
    let value2 = operand1.get(cpu);
    write_flags(cpu, value1 == value2, true, (value1 & 0x0F) < (value2 & 0x0F), value1 < value2);
}

/// `inc`: operand := operand + 1; C untouched, H from the low-nibble carry.
pub open spec fn inc_spec(s: CpuState, op: Operand8bit) -> CpuState {
    let incremented = wrap_add8(read8(op, s), 1);
    let s1 = write8(op, s, incremented);
    s1.with_flags(incremented == 0, false, incremented & 0x0F == 0, s1.flag(Flag::C))
}

pub fn inc(cpu: &mut CPU, operand1: Operand8bit)
    requires
        old(cpu)@.wf(),
        settable8(operand1),
    ensures
        final(cpu)@ == inc_spec(old(cpu)@, operand1),
        final(cpu)@.wf(),
{
    let incremented = operand1.get(cpu).wrapping_add(1);
    operand1.set(cpu, incremented);
    proof {
        lemma_write8_wf(operand1, old(cpu)@, incremented);
    }
    write_flags_keep_c(cpu, incremented == 0, false, incremented & 0x0F == 0);
}

/// `dec`: operand := operand - 1; C untouched, H from the low-nibble borrow.
pub open spec fn dec_spec(s: CpuState, op: Operand8bit) -> CpuState {
    let decremented = wrap_sub8(read8(op, s), 1);
    let s1 = write8(op, s, decremented);
    s1.with_flags(decremented == 0, true, decremented & 0x0F == 0x0F, s1.flag(Flag::C))
}

pub fn dec(cpu: &mut CPU, operand1: Operand8bit)
    requires
        old(cpu)@.wf(),
        settable8(operand1),
    ensures
        final(cpu)@ == dec_spec(old(cpu)@, operand1),
        final(cpu)@.wf(),
{
    let decremented = operand1.get(cpu).wrapping_sub(1);
    operand1.set(cpu, decremented);
    proof {
        lemma_write8_wf(operand1, old(cpu)@, decremented);
    }
    write_flags_keep_c(cpu, decremented == 0, true, decremented & 0x0F == 0x0F);
}

/// `addhl`: HL := HL + operand; Z untouched, H and C on the bit-11 and
/// bit-15 boundaries of the true 16-bit addition.
pub open spec fn addhl_spec(s: CpuState, op: Operand16bit) -> CpuState {
    let v1 = s.reg16(Register16bit::HL);
    let v2 = read16(op, s);
    let sum = wrap_add16(v1, v2);
    let s1 = s.with_reg16(Register16bit::HL, sum);
    s1.with_flags(
        s1.flag(Flag::Z),
        false,
        (v1 & 0x0FFF) + (v2 & 0x0FFF) >= 0x1000,
        v1 + v2 > 0xFFFF,
    )
}

pub fn addhl(cpu: &mut CPU, operand1: Operand16bit)
    requires
        old(cpu)@.wf(),
    ensures
        final(cpu)@ == addhl_spec(old(cpu)@, operand1),
        final(cpu)@.wf(),
{
    let value1 = cpu.get_register_16bit(Register16bit::HL);
    let value2 = operand1.get(cpu);
    let sum = value1.wrapping_add(value2);
    cpu.set_register_16bit(Register16bit::HL, sum);
    write_flags_keep_z(
        cpu,
        false,
        (value1 & 0x0FFF) + (value2 & 0x0FFF) >= 0x1000,
        (value1 as u32) + (value2 as u32) > 0xFFFF,
    );
}

/// `addsp`: SP := SP plus a sign-extended displacement; Z and N clear, H and
/// C from the byte-boundary carries of the unsigned low-byte additions.
pub open spec fn addsp_spec(s: CpuState, op: Operand8bit) -> CpuState {
    let v = sign_extend(read8(op, s));
    let sp = s.sp;
    let sum = wrap_add16(sp, v);
    s.with_sp(sum).with_flags(
        false,
        false,
        (v & 0x0F) + (sp & 0x0F) >= 0x10,
        (v & 0xFF) + (sp & 0xFF) >= 0x100,
    )
}

pub fn addsp(cpu: &mut CPU, operand1: Operand8bit)
    requires
        old(cpu)@.wf(),
    ensures
        final(cpu)@ == addsp_spec(old(cpu)@, operand1),
        final(cpu)@.wf(),
{
    let value1 = cpu.get_sp();
    let value2 = sign_extend_byte(operand1.get(cpu));
    let sum = value1.wrapping_add(value2);
    cpu.set_sp(sum);
    write_flags(
        cpu,
        false,
        false,
        (value2 & 0x0F) + (value1 & 0x0F) >= 0x10,
        (value2 & 0xFF) + (value1 & 0xFF) >= 0x100,
    );
}

/// `inc16`: operand := operand + 1; no flags.
pub open spec fn inc16_spec(s: CpuState, op: Operand16bit) -> CpuState {
    write16(op, s, wrap_add16(read16(op, s), 1))
}

pub fn inc16(cpu: &mut CPU, operand1: Operand16bit)
    requires
        old(cpu)@.wf(),
        settable16(operand1),
    ensures
        final(cpu)@ == inc16_spec(old(cpu)@, operand1),
        final(cpu)@.wf(),
{
    let value = operand1.get(cpu).wrapping_add(1);
    operand1.set(cpu, value);
    proof {
        lemma_write16_wf(operand1, old(cpu)@, value);
    }
}

/// `dec16`: operand := operand - 1; no flags.
pub open spec fn dec16_spec(s: CpuState, op: Operand16bit) -> CpuState {
    write16(op, s, wrap_sub16(read16(op, s), 1))
}

pub fn dec16(cpu: &mut CPU, operand1: Operand16bit)
    requires
        old(cpu)@.wf(),
        settable16(operand1),
    ensures
        final(cpu)@ == dec16_spec(old(cpu)@, operand1),
        final(cpu)@.wf(),
{
    let value = operand1.get(cpu).wrapping_sub(1);
    operand1.set(cpu, value);
    proof {
        lemma_write16_wf(operand1, old(cpu)@, value);
    }
}

/// `swap`: exchange the nibbles of the operand; N, H and C clear.
pub open spec fn swap_spec(s: CpuState, op: Operand8bit) -> CpuState {
    let v = read8(op, s);
    let result = (v << 4) | (v >> 4);
    write8(op, s, result).with_flags(result == 0, false, false, false)
}

pub fn swap(cpu: &mut CPU, operand1: Operand8bit)
    requires
        old(cpu)@.wf(),
        settable8(operand1),
    ensures
        final(cpu)@ == swap_spec(old(cpu)@, operand1),
        final(cpu)@.wf(),
{
    let v = operand1.get(cpu);
    let value = (v << 4) | (v >> 4);
    operand1.set(cpu, value);
    proof {
        lemma_write8_wf(operand1, old(cpu)@, value);
    }
    write_flags(cpu, value == 0, false, false, false);
}

/// `daa`: packed-BCD correction of A driven by the N, H and C flags; H
/// cleared, Z from the corrected value, C set when a high-digit correction
/// was applied on the add path.
pub open spec fn daa_spec(s: CpuState) -> CpuState {
    let a = s.reg8(Register8bit::A);
    let n = s.flag(Flag::N);
    let c = s.flag(Flag::C);
    let h = s.flag(Flag::H);
    let a1 = if !n {
        if c || a > 0x99 {
            wrap_add8(a, 0x60)
        } else {
            a
        }
    } else {
        if c {
            wrap_sub8(a, 0x60)
        } else {
            a
        }
    };
    let a2 = if !n {
        if h || (a1 & 0x0F) > 0x09 {
            wrap_add8(a1, 0x06)
        } else {
            a1
        }
    } else {
        if h {
            wrap_sub8(a1, 0x06)
        } else {
            a1
        }
    };
    let carry = if !n && (c || a > 0x99) {
        true
    } else {
        c
    };
    s.with_reg8(Register8bit::A, a2).with_flags(a2 == 0, n, false, carry)
}

pub fn daa(cpu: &mut CPU)
    requires
        old(cpu)@.wf(),
    ensures
        final(cpu)@ == daa_spec(old(cpu)@),
        final(cpu)@.wf(),
{
    let mut a_value = cpu.get_register_8bit(Register8bit::A);
    let n = cpu.get_flag(Flag::N);
    let c = cpu.get_flag(Flag::C);
    let h = cpu.get_flag(Flag::H);
    let mut carry = c;
    if !n {
        if c || a_value > 0x99 {
            a_value = a_value.wrapping_add(0x60);
            carry = true;
        }
        if h || (a_value & 0x0F) > 0x09 {
            a_value = a_value.wrapping_add(0x06);
        }
    } else {
        if c {
            a_value = a_value.wrapping_sub(0x60);
        }
        if h {
            a_value = a_value.wrapping_sub(0x06);
        }
    }
    cpu.set_register_8bit(Register8bit::A, a_value);
    write_flags_keep_n(cpu, a_value == 0, false, carry);
}

/// `cpl`: A := !A; N and H set, Z and C untouched.
pub open spec fn cpl_spec(s: CpuState) -> CpuState {
    let s1 = s.with_reg8(Register8bit::A, !s.reg8(Register8bit::A));
    s1.with_flags(s1.flag(Flag::Z), true, true, s1.flag(Flag::C))
}

pub fn cpl(cpu: &mut CPU)
    requires
        old(cpu)@.wf(),
    ensures
        final(cpu)@ == cpl_spec(old(cpu)@),
        final(cpu)@.wf(),
{
    let value = cpu.get_register_8bit(Register8bit::A);
    cpu.set_register_8bit(Register8bit::A, !value);
    write_flags_keep_zc(cpu, true, true);
}

/// `ccf`: toggle C; N and H clear, Z untouched.
pub open spec fn ccf_spec(s: CpuState) -> CpuState {
    s.with_flags(s.flag(Flag::Z), false, false, !s.flag(Flag::C))
}

pub fn ccf(cpu: &mut CPU)
    requires
        old(cpu)@.wf(),
    ensures
        final(cpu)@ == ccf_spec(old(cpu)@),
        final(cpu)@.wf(),
{
    let c = cpu.get_flag(Flag::C);
    write_flags_keep_z(cpu, false, false, !c);
}

/// `scf`: set C; N and H clear, Z untouched.
pub open spec fn scf_spec(s: CpuState) -> CpuState {
    s.with_flags(s.flag(Flag::Z), false, false, true)
}

pub fn scf(cpu: &mut CPU)
    requires
        old(cpu)@.wf(),
    ensures
        final(cpu)@ == scf_spec(old(cpu)@),
        final(cpu)@.wf(),
{
    write_flags_keep_z(cpu, false, false, true);
}

/// `rlca`: rotate A left by one; C is the bit rotated out of bit 7, Z, N and
/// H clear.
pub open spec fn rlca_spec(s: CpuState) -> CpuState {
    let v = s.reg8(Register8bit::A);
    let result = (v << 1) | (v >> 7);
    s.with_reg8(Register8bit::A, result).with_flags(false, false, false, v & 0x80 != 0)
}

pub fn rlca(cpu: &mut CPU)
    requires
        old(cpu)@.wf(),
    ensures
        final(cpu)@ == rlca_spec(old(cpu)@),
        final(cpu)@.wf(),
{
    let value = cpu.get_register_8bit(Register8bit::A);
    let result = (value << 1) | (value >> 7);
    cpu.set_register_8bit(Register8bit::A, result);
    write_flags(cpu, false, false, false, value & 0x80 != 0);
}

/// `rla`: rotate A left through the carry flag; C is the old bit 7.
pub open spec fn rla_spec(s: CpuState) -> CpuState {
    let v = s.reg8(Register8bit::A);
    let result = (v << 1) | (if s.flag(Flag::C) {
        1u8
    } else {
        0u8
    });
    s.with_reg8(Register8bit::A, result).with_flags(false, false, false, v & 0x80 != 0)
}

pub fn rla(cpu: &mut CPU)
    requires
        old(cpu)@.wf(),
    ensures
        final(cpu)@ == rla_spec(old(cpu)@),
        final(cpu)@.wf(),
{
    let value = cpu.get_register_8bit(Register8bit::A);
    let carry_in: u8 = if cpu.get_flag(Flag::C) {
        1
    } else {
        0
    };
    let result = (value << 1) | carry_in;
    cpu.set_register_8bit(Register8bit::A, result);
    write_flags(cpu, false, false, false, value & 0x80 != 0);
}

/// `rrca`: rotate A right by one; C is the bit rotated out of bit 0.
pub open spec fn rrca_spec(s: CpuState) -> CpuState {
    let v = s.reg8(Register8bit::A);
    let result = (v >> 1) | (v << 7);
    s.with_reg8(Register8bit::A, result).with_flags(false, false, false, v & 1 != 0)
}

pub fn rrca(cpu: &mut CPU)
    requires
        old(cpu)@.wf(),
    ensures
        final(cpu)@ == rrca_spec(old(cpu)@),
        final(cpu)@.wf(),
{
    let value = cpu.get_register_8bit(Register8bit::A);
    let result = (value >> 1) | (value << 7);
    cpu.set_register_8bit(Register8bit::A, result);
    write_flags(cpu, false, false, false, value & 1 != 0);
}

/// `rra`: rotate A right through the carry flag; C is the old bit 0.
pub open spec fn rra_spec(s: CpuState) -> CpuState {
    let v = s.reg8(Register8bit::A);
    let result = (v >> 1) | (if s.flag(Flag::C) {
        0x80u8
    } else {
        0u8
    });
    s.with_reg8(Register8bit::A, result).with_flags(false, false, false, v & 1 != 0)
}

pub fn rra(cpu: &mut CPU)
    requires
        old(cpu)@.wf(),
    ensures
        final(cpu)@ == rra_spec(old(cpu)@),
        final(cpu)@.wf(),
{
    let value = cpu.get_register_8bit(Register8bit::A);
    let carry_in: u8 = if cpu.get_flag(Flag::C) {
        0x80
    } else {
        0
    };
    let result = (value >> 1) | carry_in;
    cpu.set_register_8bit(Register8bit::A, result);
    write_flags(cpu, false, false, false, value & 1 != 0);
}

/// `rlc`: rotate the operand left by one; C is the old bit 7, Z from the
/// result.
pub open spec fn rlc_spec(s: CpuState, op: Operand8bit) -> CpuState {
    let v = read8(op, s);
    let result = (v << 1) | (v >> 7);
    write8(op, s, result).with_flags(result == 0, false, false, v & 0x80 != 0)
}

pub fn rlc(cpu: &mut CPU, operand1: Operand8bit)
    requires
        old(cpu)@.wf(),
        settable8(operand1),
    ensures
        final(cpu)@ == rlc_spec(old(cpu)@, operand1),
        final(cpu)@.wf(),
{
    let value = operand1.get(cpu);
    let result = (value << 1) | (value >> 7);
    operand1.set(cpu, result);
    proof {
        lemma_write8_wf(operand1, old(cpu)@, result);
    }
    write_flags(cpu, result == 0, false, false, value & 0x80 != 0);
}

/// `rl`: rotate the operand left through the carry flag; C is the old bit 7.
pub open spec fn rl_spec(s: CpuState, op: Operand8bit) -> CpuState {
    let v = read8(op, s);
    let result = (v << 1) | (if s.flag(Flag::C) {
        1u8
    } else {
        0u8
    });
    write8(op, s, result).with_flags(result == 0, false, false, v & 0x80 != 0)
}

pub fn rl(cpu: &mut CPU, operand1: Operand8bit)
    requires
        old(cpu)@.wf(),
        settable8(operand1),
    ensures
        final(cpu)@ == rl_spec(old(cpu)@, operand1),
        final(cpu)@.wf(),
{
    let value = operand1.get(cpu);
    let carry_in: u8 = if cpu.get_flag(Flag::C) {
        1
    } else {
        0
    };
    let result = (value << 1) | carry_in;
    operand1.set(cpu, result);
    proof {
        lemma_write8_wf(operand1, old(cpu)@, result);
    }
    write_flags(cpu, result == 0, false, false, value & 0x80 != 0);
}

/// `rrc`: rotate the operand right by one; C is the old bit 0.
pub open spec fn rrc_spec(s: CpuState, op: Operand8bit) -> CpuState {
    let v = read8(op, s);
    let result = (v >> 1) | (v << 7);
    write8(op, s, result).with_flags(result == 0, false, false, v & 1 != 0)
}

pub fn rrc(cpu: &mut CPU, operand1: Operand8bit)
    requires
        old(cpu)@.wf(),
        settable8(operand1),
    ensures
        final(cpu)@ == rrc_spec(old(cpu)@, operand1),
        final(cpu)@.wf(),
{
    let value = operand1.get(cpu);
    let result = (value >> 1) | (value << 7);
    operand1.set(cpu, result);
    proof {
        lemma_write8_wf(operand1, old(cpu)@, result);
    }
    write_flags(cpu, result == 0, false, false, value & 1 != 0);
}

/// `rr`: rotate the operand right through the carry flag; C is the old bit 0.
pub open spec fn rr_spec(s: CpuState, op: Operand8bit) -> CpuState {
    let v = read8(op, s);
    let result = (v >> 1) | (if s.flag(Flag::C) {
        0x80u8
    } else {
        0u8
    });
    write8(op, s, result).with_flags(result == 0, false, false, v & 1 != 0)
}

pub fn rr(cpu: &mut CPU, operand1: Operand8bit)
    requires
        old(cpu)@.wf(),
        settable8(operand1),
    ensures
        final(cpu)@ == rr_spec(old(cpu)@, operand1),
        final(cpu)@.wf(),
{
    let value = operand1.get(cpu);
    let carry_in: u8 = if cpu.get_flag(Flag::C) {
        0x80
    } else {
        0
    };
    let result = (value >> 1) | carry_in;
    operand1.set(cpu, result);
    proof {
        lemma_write8_wf(operand1, old(cpu)@, result);
    }
    write_flags(cpu, result == 0, false, false, value & 1 != 0);
}

/// `sla`: shift the operand left by one; C is the old bit 7.
pub open spec fn sla_spec(s: CpuState, op: Operand8bit) -> CpuState {
    let v = read8(op, s);
    let result = v << 1;
    write8(op, s, result).with_flags(result == 0, false, false, v & 0x80 != 0)
}

pub fn sla(cpu: &mut CPU, operand1: Operand8bit)
    requires
        old(cpu)@.wf(),
        settable8(operand1),
    ensures
        final(cpu)@ == sla_spec(old(cpu)@, operand1),
        final(cpu)@.wf(),
{
    let value = operand1.get(cpu);
    let result = value << 1;
    operand1.set(cpu, result);
    proof {
        lemma_write8_wf(operand1, old(cpu)@, result);
    }
    write_flags(cpu, result == 0, false, false, value & 0x80 != 0);
}

/// `sra`: shift the operand right by one keeping the sign bit; C is the old
/// bit 0.
pub open spec fn sra_spec(s: CpuState, op: Operand8bit) -> CpuState {
    let v = read8(op, s);
    let result = (v >> 1) | (v & 0x80);
    write8(op, s, result).with_flags(result == 0, false, false, v & 1 != 0)
}

pub fn sra(cpu: &mut CPU, operand1: Operand8bit)
    requires
        old(cpu)@.wf(),
        settable8(operand1),
    ensures
        final(cpu)@ == sra_spec(old(cpu)@, operand1),
        final(cpu)@.wf(),
{
    let value = operand1.get(cpu);
    let result = (value >> 1) | (value & 0x80);
    operand1.set(cpu, result);
    proof {
        lemma_write8_wf(operand1, old(cpu)@, result);
    }
    write_flags(cpu, result == 0, false, false, value & 1 != 0);
}

/// `srl`: shift the operand right by one; C is the old bit 0.
pub open spec fn srl_spec(s: CpuState, op: Operand8bit) -> CpuState {
    let v = read8(op, s);
    let result = v >> 1;
    write8(op, s, result).with_flags(result == 0, false, false, v & 1 != 0)
}

pub fn srl(cpu: &mut CPU, operand1: Operand8bit)
    requires
        old(cpu)@.wf(),
        settable8(operand1),
    ensures
        final(cpu)@ == srl_spec(old(cpu)@, operand1),
        final(cpu)@.wf(),
{
    let value = operand1.get(cpu);
    let result = value >> 1;
    operand1.set(cpu, result);
    proof {
        lemma_write8_wf(operand1, old(cpu)@, result);
    }
    write_flags(cpu, result == 0, false, false, value & 1 != 0);
}

/// `bit`: Z is the complement of the tested bit of the second operand, H
/// set, N clear, C untouched. The first operand names the bit.
pub open spec fn bit_spec(s: CpuState, op1: Operand8bit, op2: Operand8bit) -> CpuState {
    let tested = bit8(read8(op2, s), read8(op1, s));
    s.with_flags(!tested, false, true, s.flag(Flag::C))
}

pub fn bit(cpu: &mut CPU, operand1: Operand8bit, operand2: Operand8bit)
    requires
        old(cpu)@.wf(),
        read8(operand1, old(cpu)@) < 8,
    ensures
        final(cpu)@ == bit_spec(old(cpu)@, operand1, operand2),
        final(cpu)@.wf(),
{
    let bit_index = operand1.get(cpu);
    let tested = bitwise::get_bit(operand2.get(cpu), bit_index as usize);
    write_flags_keep_c(cpu, !tested, false, true);
}

/// `set`: force the named bit of the second operand to 1; no flags.
pub open spec fn set_spec(s: CpuState, op1: Operand8bit, op2: Operand8bit) -> CpuState {
    write8(op2, s, set_bit8(read8(op2, s), read8(op1, s), true))
}

pub fn set(cpu: &mut CPU, operand1: Operand8bit, operand2: Operand8bit)
    requires
        old(cpu)@.wf(),
        read8(operand1, old(cpu)@) < 8,
        settable8(operand2),
    ensures
        final(cpu)@ == set_spec(old(cpu)@, operand1, operand2),
        final(cpu)@.wf(),
{
    let bit_index = operand1.get(cpu);
    let value = operand2.get(cpu);
    let result = bitwise::set_bit(value, bit_index as usize, true);
    operand2.set(cpu, result);
    proof {
        lemma_write8_wf(operand2, old(cpu)@, result);
    }
}

/// `res`: force the named bit of the second operand to 0; no flags.
pub open spec fn res_spec(s: CpuState, op1: Operand8bit, op2: Operand8bit) -> CpuState {
    write8(op2, s, set_bit8(read8(op2, s), read8(op1, s), false))
}

pub fn res(cpu: &mut CPU, operand1: Operand8bit, operand2: Operand8bit)
    requires
        old(cpu)@.wf(),
        read8(operand1, old(cpu)@) < 8,
        settable8(operand2),
    ensures
        final(cpu)@ == res_spec(old(cpu)@, operand1, operand2),
        final(cpu)@.wf(),
{
    let bit_index = operand1.get(cpu);
    let value = operand2.get(cpu);
    let result = bitwise::set_bit(value, bit_index as usize, false);
    operand2.set(cpu, result);
    proof {
        lemma_write8_wf(operand2, old(cpu)@, result);
    }
}

/// `jp`: PC := operand.
pub open spec fn jp_spec(s: CpuState, op: Operand16bit) -> CpuState {
    s.with_pc(read16(op, s))
}

pub fn jp(cpu: &mut CPU, operand1: Operand16bit)
    requires
        old(cpu)@.wf(),
    ensures
        final(cpu)@ == jp_spec(old(cpu)@, operand1),
        final(cpu)@.wf(),
{
    let value = operand1.get(cpu);
    cpu.set_pc(value);
}

/// `jpnz`: `jp` only when Z is clear.
pub open spec fn jpnz_spec(s: CpuState, op: Operand16bit) -> CpuState {
    if !s.flag(Flag::Z) {
        jp_spec(s, op)
    } else {
        s
    }
}

pub fn jpnz(cpu: &mut CPU, operand1: Operand16bit)
    requires
        old(cpu)@.wf(),
    ensures
        final(cpu)@ == jpnz_spec(old(cpu)@, operand1),
        final(cpu)@.wf(),
{
    if !cpu.get_flag(Flag::Z) {
        jp(cpu, operand1);
    }
}

/// `jpz`: `jp` only when Z is set.
pub open spec fn jpz_spec(s: CpuState, op: Operand16bit) -> CpuState {
    if s.flag(Flag::Z) {
        jp_spec(s, op)
    } else {
        s
    }
}

pub fn jpz(cpu: &mut CPU, operand1: Operand16bit)
    requires
        old(cpu)@.wf(),
    ensures
        final(cpu)@ == jpz_spec(old(cpu)@, operand1),
        final(cpu)@.wf(),
{
    if cpu.get_flag(Flag::Z) {
        jp(cpu, operand1);
    }
}

/// `jpnc`: `jp` only when C is clear.
pub open spec fn jpnc_spec(s: CpuState, op: Operand16bit) -> CpuState {
    if !s.flag(Flag::C) {
        jp_spec(s, op)
    } else {
        s
    }
}

pub fn jpnc(cpu: &mut CPU, operand1: Operand16bit)
    requires
        old(cpu)@.wf(),
    ensures
        final(cpu)@ == jpnc_spec(old(cpu)@, operand1),
        final(cpu)@.wf(),
{
    if !cpu.get_flag(Flag::C) {
        jp(cpu, operand1);
    }
}

/// `jpc`: `jp` only when C is set.
pub open spec fn jpc_spec(s: CpuState, op: Operand16bit) -> CpuState {
    if s.flag(Flag::C) {
        jp_spec(s, op)
    } else {
        s
    }
}

pub fn jpc(cpu: &mut CPU, operand1: Operand16bit)
    requires
        old(cpu)@.wf(),
    ensures
        final(cpu)@ == jpc_spec(old(cpu)@, operand1),
        final(cpu)@.wf(),
{
    if cpu.get_flag(Flag::C) {
        jp(cpu, operand1);
    }
}

/// `jp (hl)`: PC := HL.
pub open spec fn jphl_spec(s: CpuState) -> CpuState {
    s.with_pc(s.reg16(Register16bit::HL))
}

pub fn jphl(cpu: &mut CPU)
    requires
        old(cpu)@.wf(),
    ensures
        final(cpu)@ == jphl_spec(old(cpu)@),
        final(cpu)@.wf(),
{
    let value = cpu.get_register_16bit(Register16bit::HL);
    cpu.set_pc(value);
}

/// `jr`: PC := PC plus a sign-extended displacement, computed against the PC
/// already advanced past the instruction's operand bytes.
pub open spec fn jr_spec(s: CpuState, op: Operand8bit) -> CpuState {
    s.with_pc(wrap_add16(s.pc, sign_extend(read8(op, s))))
}

pub fn jr(cpu: &mut CPU, operand1: Operand8bit)
    requires
        old(cpu)@.wf(),
    ensures
        final(cpu)@ == jr_spec(old(cpu)@, operand1),
        final(cpu)@.wf(),
{
    let value = sign_extend_byte(operand1.get(cpu));
    let result = cpu.get_pc().wrapping_add(value);
    cpu.set_pc(result);
}

/// `jrnz`: `jr` only when Z is clear.
pub open spec fn jrnz_spec(s: CpuState, op: Operand8bit) -> CpuState {
    if !s.flag(Flag::Z) {
        jr_spec(s, op)
    } else {
        s
    }
}

pub fn jrnz(cpu: &mut CPU, operand1: Operand8bit)
    requires
        old(cpu)@.wf(),
    ensures
        final(cpu)@ == jrnz_spec(old(cpu)@, operand1),
        final(cpu)@.wf(),
{
    if !cpu.get_flag(Flag::Z) {
        jr(cpu, operand1);
    }
}

/// `jrz`: `jr` only when Z is set.
pub open spec fn jrz_spec(s: CpuState, op: Operand8bit) -> CpuState {
    if s.flag(Flag::Z) {
        jr_spec(s, op)
    } else {
        s
    }
}

pub fn jrz(cpu: &mut CPU, operand1: Operand8bit)
    requires
        old(cpu)@.wf(),
    ensures
        final(cpu)@ == jrz_spec(old(cpu)@, operand1),
        final(cpu)@.wf(),
{
    if cpu.get_flag(Flag::Z) {
        jr(cpu, operand1);
    }
}

/// `jrnc`: `jr` only when C is clear.
pub open spec fn jrnc_spec(s: CpuState, op: Operand8bit) -> CpuState {
    if !s.flag(Flag::C) {
        jr_spec(s, op)
    } else {
        s
    }
}

pub fn jrnc(cpu: &mut CPU, operand1: Operand8bit)
    requires
        old(cpu)@.wf(),
    ensures
        final(cpu)@ == jrnc_spec(old(cpu)@, operand1),
        final(cpu)@.wf(),
{
    if !cpu.get_flag(Flag::C) {
        jr(cpu, operand1);
    }
}

/// `jrc`: `jr` only when C is set.
pub open spec fn jrc_spec(s: CpuState, op: Operand8bit) -> CpuState {
    if s.flag(Flag::C) {
        jr_spec(s, op)
    } else {
        s
    }
}

pub fn jrc(cpu: &mut CPU, operand1: Operand8bit)
    requires
        old(cpu)@.wf(),
    ensures
        final(cpu)@ == jrc_spec(old(cpu)@, operand1),
        final(cpu)@.wf(),
{
    if cpu.get_flag(Flag::C) {
        jr(cpu, operand1);
    }
}

/// `call`: push the PC following the whole call instruction, then jump.
pub open spec fn call_spec(s: CpuState, op: Operand16bit) -> CpuState {
    jp_spec(push_val16(s, s.pc), op)
}

pub fn call(cpu: &mut CPU, operand1: Operand16bit)
    requires
        old(cpu)@.wf(),
    ensures
        final(cpu)@ == call_spec(old(cpu)@, operand1),
        final(cpu)@.wf(),
{
    let return_address = cpu.get_pc();
    cpu.push_16bit_sp(return_address);
    jp(cpu, operand1);
}

/// `callnz`: `call` only when Z is clear.
pub open spec fn callnz_spec(s: CpuState, op: Operand16bit) -> CpuState {
    if !s.flag(Flag::Z) {
        call_spec(s, op)
    } else {
        s
    }
}

pub fn callnz(cpu: &mut CPU, operand1: Operand16bit)
    requires
        old(cpu)@.wf(),
    ensures
        final(cpu)@ == callnz_spec(old(cpu)@, operand1),
        final(cpu)@.wf(),
{
    if !cpu.get_flag(Flag::Z) {
        call(cpu, operand1);
    }
}

/// `callz`: `call` only when Z is set.
pub open spec fn callz_spec(s: CpuState, op: Operand16bit) -> CpuState {
    if s.flag(Flag::Z) {
        call_spec(s, op)
    } else {
        s
    }
}

pub fn callz(cpu: &mut CPU, operand1: Operand16bit)
    requires
        old(cpu)@.wf(),
    ensures
        final(cpu)@ == callz_spec(old(cpu)@, operand1),
        final(cpu)@.wf(),
{
    if cpu.get_flag(Flag::Z) {
        call(cpu, operand1);
    }
}

/// `callnc`: `call` only when C is clear.
pub open spec fn callnc_spec(s: CpuState, op: Operand16bit) -> CpuState {
    if !s.flag(Flag::C) {
        call_spec(s, op)
    } else {
        s
    }
}

pub fn callnc(cpu: &mut CPU, operand1: Operand16bit)
    requires
        old(cpu)@.wf(),
    ensures
        final(cpu)@ == callnc_spec(old(cpu)@, operand1),
        final(cpu)@.wf(),
{
    if !cpu.get_flag(Flag::C) {
        call(cpu, operand1);
    }
}

/// `callc`: `call` only when C is set.
pub open spec fn callc_spec(s: CpuState, op: Operand16bit) -> CpuState {
    if s.flag(Flag::C) {
        call_spec(s, op)
    } else {
        s
    }
}

pub fn callc(cpu: &mut CPU, operand1: Operand16bit)
    requires
        old(cpu)@.wf(),
    ensures
        final(cpu)@ == callc_spec(old(cpu)@, operand1),
        final(cpu)@.wf(),
{
    if cpu.get_flag(Flag::C) {
        call(cpu, operand1);
    }
}

/// `ret`: pop an address into PC.
pub open spec fn ret_spec(s: CpuState) -> CpuState {
    s.with_sp(wrap_add16(s.sp, 2)).with_pc(s.mem16(s.sp))
}

pub fn ret(cpu: &mut CPU)
    requires
        old(cpu)@.wf(),
    ensures
        final(cpu)@ == ret_spec(old(cpu)@),
        final(cpu)@.wf(),
{
    let address = cpu.pop_16bit_sp();
    cpu.set_pc(address);
}

/// `retnz`: `ret` only when Z is clear.
pub open spec fn retnz_spec(s: CpuState) -> CpuState {
    if !s.flag(Flag::Z) {
        ret_spec(s)
    } else {
        s
    }
}

pub fn retnz(cpu: &mut CPU)
    requires
        old(cpu)@.wf(),
    ensures
        final(cpu)@ == retnz_spec(old(cpu)@),
        final(cpu)@.wf(),
{
    if !cpu.get_flag(Flag::Z) {
        ret(cpu);
    }
}

/// `retz`: `ret` only when Z is set.
pub open spec fn retz_spec(s: CpuState) -> CpuState {
    if s.flag(Flag::Z) {
        ret_spec(s)
    } else {
        s
    }
}

pub fn retz(cpu: &mut CPU)
    requires
        old(cpu)@.wf(),
    ensures
        final(cpu)@ == retz_spec(old(cpu)@),
        final(cpu)@.wf(),
{
    if cpu.get_flag(Flag::Z) {
        ret(cpu);
    }
}

/// `retnc`: `ret` only when C is clear.
pub open spec fn retnc_spec(s: CpuState) -> CpuState {
    if !s.flag(Flag::C) {
        ret_spec(s)
    } else {
        s
    }
}

pub fn retnc(cpu: &mut CPU)
    requires
        old(cpu)@.wf(),
    ensures
        final(cpu)@ == retnc_spec(old(cpu)@),
        final(cpu)@.wf(),
{
    if !cpu.get_flag(Flag::C) {
        ret(cpu);
    }
}

/// `retc`: `ret` only when C is set.
pub open spec fn retc_spec(s: CpuState) -> CpuState {
    if s.flag(Flag::C) {
        ret_spec(s)
    } else {
        s
    }
}

pub fn retc(cpu: &mut CPU)
    requires
        old(cpu)@.wf(),
    ensures
        final(cpu)@ == retc_spec(old(cpu)@),
        final(cpu)@.wf(),
{
    if cpu.get_flag(Flag::C) {
        ret(cpu);
    }
}

/// `rst`: `call` to a fixed low-memory vector.
pub open spec fn rst_spec(s: CpuState, op: Operand16bit) -> CpuState {
    call_spec(s, op)
}

pub fn rst(cpu: &mut CPU, operand1: Operand16bit)
    requires
        old(cpu)@.wf(),
    ensures
        final(cpu)@ == rst_spec(old(cpu)@, operand1),
        final(cpu)@.wf(),
{
    call(cpu, operand1);
}

/// `ei`: set the interrupt-master-enable flag.
pub open spec fn ei_spec(s: CpuState) -> CpuState {
    s.with_ime(true)
}

pub fn ei(cpu: &mut CPU)
    requires
        old(cpu)@.wf(),
    ensures
        final(cpu)@ == ei_spec(old(cpu)@),
        final(cpu)@.wf(),
{
    cpu.set_ime_flag();
}

/// `di`: clear the interrupt-master-enable flag.
pub open spec fn di_spec(s: CpuState) -> CpuState {
    s.with_ime(false)
}

pub fn di(cpu: &mut CPU)
    requires
        old(cpu)@.wf(),
    ensures
        final(cpu)@ == di_spec(old(cpu)@),
        final(cpu)@.wf(),
{
    cpu.reset_ime_flag();
}

/// `nop`: no state change.
pub fn nop(cpu: &mut CPU)
    requires
        old(cpu)@.wf(),
    ensures
        final(cpu)@ == old(cpu)@,
        final(cpu)@.wf(),
{
}

/// `stop`: a no-op at this layer; power management belongs to an outer
/// layer. The operand byte was already consumed during resolution.
pub fn stop(cpu: &mut CPU, _operand1: Operand8bit)
    requires
        old(cpu)@.wf(),
    ensures
        final(cpu)@ == old(cpu)@,
        final(cpu)@.wf(),
{
}

/// `halt`: a no-op at this layer; power management belongs to an outer layer.
pub fn halt(cpu: &mut CPU)
    requires
        old(cpu)@.wf(),
    ensures
        final(cpu)@ == old(cpu)@,
        final(cpu)@.wf(),
{
}

/// `reti`: enable interrupts, then `ret`.
pub open spec fn reti_spec(s: CpuState) -> CpuState {
    ret_spec(ei_spec(s))
}

pub fn reti(cpu: &mut CPU)
    requires
        old(cpu)@.wf(),
    ensures
        final(cpu)@ == reti_spec(old(cpu)@),
        final(cpu)@.wf(),
{
    ei(cpu);
    ret(cpu);
}

/// `inc` and `dec` never alter the carry flag. The one excluded target is
/// the F register itself, whose write would rebuild the flag bits wholesale.
pub proof fn lemma_inc_dec_preserve_carry(s: CpuState, op: Operand8bit)
    requires
        s.wf(),
        settable8(op),
        op != Operand8bit::Register(Register8bit::F),
    ensures
        inc_spec(s, op).flag(Flag::C) == s.flag(Flag::C),
        dec_spec(s, op).flag(Flag::C) == s.flag(Flag::C),
{
    let vi = wrap_add8(read8(op, s), 1);
    let vd = wrap_sub8(read8(op, s), 1);
    lemma_write8_flags_untouched(op, s, vi);
    lemma_write8_flags_untouched(op, s, vd);
    lemma_flags_byte_bits(vi == 0, false, vi & 0x0F == 0, write8(op, s, vi).flag(Flag::C));
    lemma_flags_byte_bits(vd == 0, true, vd & 0x0F == 0x0F, write8(op, s, vd).flag(Flag::C));
}

/// Writing through an operand that is not the F register leaves the flag
/// byte, and so every flag, unchanged.
pub proof fn lemma_write8_flags_untouched(op: Operand8bit, s: CpuState, v: u8)
    requires
        s.wf(),
        settable8(op),
        op != Operand8bit::Register(Register8bit::F),
    ensures
        write8(op, s, v).regs[1] == s.regs[1],
        forall|f: Flag| write8(op, s, v).flag(f) == s.flag(f),
{
}

/// `push` then `pop` of the same 16-bit value into a register pair restores
/// SP to its pre-push value and hands back the pushed value. The pair AF is
/// excluded: a pop into AF masks the low nibble of F.
pub proof fn lemma_push_pop_roundtrip(s: CpuState, src: Operand16bit, dst: Register16bit)
    requires
        s.wf(),
        !(dst is AF),
    ensures
        pop_spec(push_spec(s, src), Operand16bit::Register(dst)).sp == s.sp,
        pop_spec(push_spec(s, src), Operand16bit::Register(dst)).reg16(dst) == read16(src, s),
{
    let v = read16(src, s);
    let s1 = push_spec(s, src);
    let addr = wrap_sub16(s.sp, 2);
    assert(s1.sp == addr);
    assert(wrap_add16(addr, 1) != addr);
    assert(s1.mem16(addr) == word(bitwise::low8(v), bitwise::high8(v)));
    bitwise::lemma_word_roundtrip(v);
    assert(s1.mem16(s1.sp) == v);
    assert(wrap_add16(wrap_sub16(s.sp, 2), 2) == s.sp);
    lemma_register16_write_read(s1.with_sp(s.sp), dst, v);
}

} // verus!
