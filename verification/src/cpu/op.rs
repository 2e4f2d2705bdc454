use vstd::prelude::*;
use crate::cpu::{CPU, HalfCarryOperationsMode, half_carry};
use crate::cpu::registers::{RegisterItem, RegistersView, bit_value};
use crate::cpu::{JumpCondition, condition_holds, clock_plus};
use crate::memory::op_codes_parser::{Instruction, Operand, find_operand_value, operand_value_named};
use crate::memory::mmu::{is_ram_address, law_ram_word_reads_back};

verus! {

/// The register file after an 8-bit addition of `value` to A (no carry in).
pub open spec fn add_result(r: RegistersView, value: u16) -> RegistersView {
    let sum = r.a as int + value as int;
    r.with_a_flags(
        (sum % 256) as u8,
        sum % 256 == 0,
        false,
        r.a as int % 16 + value as int % 16 > 15,
        sum > 0xFF,
    )
}

/// The register file after adding `value` and the carry flag to A.
pub open spec fn adc_result(r: RegistersView, value: i16) -> RegistersView {
    let carry = bit_value(r.cf) as int;
    let sum = value as int + r.a as int + carry;
    r.with_a_flags(
        (sum % 256) as u8,
        sum % 256 == 0,
        false,
        value as int % 16 + r.a as int % 16 + carry > 15,
        sum > 0xFF,
    )
}

/// The register file after subtracting `value` from A.
pub open spec fn sub_result(r: RegistersView, value: i16) -> RegistersView {
    let diff = r.a as int - value as int;
    r.with_a_flags(
        (diff % 256) as u8,
        diff % 256 == 0,
        true,
        value as int % 16 > r.a as int % 16,
        value as int > r.a as int,
    )
}

/// The register file after subtracting `value` and the carry flag from A.
pub open spec fn sbc_result(r: RegistersView, value: i16) -> RegistersView {
    let carry = bit_value(r.cf) as int;
    let diff = r.a as int - value as int - carry;
    r.with_a_flags(
        (diff % 256) as u8,
        diff % 256 == 0,
        true,
        r.a as int % 16 - value as int % 16 - carry < 0,
        value as int + carry > r.a as int,
    )
}

/// The register file after a compare: the flags of the subtraction, A kept.
pub open spec fn cp_result(r: RegistersView, value: i16) -> RegistersView {
    RegistersView { a: r.a, ..sub_result(r, value) }
}

/// The register file after A takes `result` by a logical operation; H is set for AND.
pub open spec fn logic_result(r: RegistersView, result: u8, half: bool) -> RegistersView {
    r.with_a_flags(result, result == 0, false, half, false)
}

/// Whether adding `value` to A fits the 16-bit sum the code computes.
pub open spec fn add_defined(r: RegistersView, value: u16) -> bool {
    r.a as int + value as int <= 0xFFFF
}

/// Whether `value + A + carry` fits a signed 16-bit sum.
pub open spec fn adc_defined(r: RegistersView, value: i16) -> bool {
    value as int + r.a as int + bit_value(r.cf) as int <= 0x7FFF
}

/// Whether `A - value` fits a signed 16-bit difference.
pub open spec fn sub_defined(r: RegistersView, value: i16) -> bool {
    r.a as int - value as int <= 0x7FFF
}

/// Whether `A - value` and `value + carry` fit signed 16-bit values.
pub open spec fn sbc_defined(r: RegistersView, value: i16) -> bool {
    r.a as int - value as int <= 0x7FFF && value as int + bit_value(r.cf) as int <= 0x7FFF
}

/// The register file after an 8-bit increment of `item`: N cleared, H from the low
/// nibble, the item written, and Z from what the item then reads.
pub open spec fn inc_result(r: RegistersView, item: RegisterItem) -> RegistersView {
    let cur = r.get(item) as i16;
    let r1 = r.set(RegisterItem::FlagN, 0).set(
        RegisterItem::FlagH,
        bit_value(half_carry(cur, 0, 0, HalfCarryOperationsMode::Increment)),
    ).set(item, (cur + 1) as u16);
    r1.set(RegisterItem::FlagZ, bit_value(r1.get(item) == 0))
}

pub open spec fn inc_defined(r: RegistersView, item: RegisterItem) -> bool {
    let cur = r.get(item) as i16;
    cur < 0x7FFF && RegistersView::can_set(item, (cur + 1) as u16)
}

/// The register file after an 8-bit decrement of `item`: N set, H from the low
/// nibble, the item written, and Z from what the item then reads.
pub open spec fn dec_result(r: RegistersView, item: RegisterItem) -> RegistersView {
    let cur = r.get(item) as i16;
    let r1 = r.set(RegisterItem::FlagN, 1).set(
        RegisterItem::FlagH,
        bit_value(half_carry(cur, 0, 0, HalfCarryOperationsMode::Decrement)),
    ).set(item, (cur - 1) as u16);
    r1.set(RegisterItem::FlagZ, bit_value(r1.get(item) == 0))
}

pub open spec fn dec_defined(r: RegistersView, item: RegisterItem) -> bool {
    let cur = r.get(item) as i16;
    cur > -0x8000 && RegistersView::can_set(item, (cur - 1) as u16)
}

proof fn lemma_u16_as_i16_nibble(v: u16)
    ensures
        (v as i16) as int % 16 == v as int % 16,
{
    assert((v as i16) as int % 16 == v as int % 16) by (bit_vector);
}

proof fn lemma_i16_wrap_byte(v: i16)
    ensures
        ((v as u16) % 256) as int == v as int % 256,
{
    assert(((v as u16) % 256) as int == v as int % 256) by (bit_vector);
}

/// A byte rotated right through the carry: the carry enters bit 7.
pub open spec fn rr_byte(v: u8, carry: bool) -> u8 {
    ((v >> 1u8) | (if carry { 0x80u8 } else { 0u8 })) as u8
}

/// A byte rotated right: bit 0 enters bit 7.
pub open spec fn rrc_byte(v: u8) -> u8 {
    ((v >> 1u8) | (v << 7u8)) as u8
}

/// A byte rotated left through the carry: the carry enters bit 0.
pub open spec fn rl_byte(v: u8, carry: bool) -> u8 {
    ((v << 1u8) | (if carry { 1u8 } else { 0u8 })) as u8
}

/// A byte rotated left: bit 7 enters bit 0.
pub open spec fn rlc_byte(v: u8) -> u8 {
    ((v << 1u8) | (v >> 7u8)) as u8
}

/// A byte shifted left, bit 0 cleared.
pub open spec fn sla_byte(v: u8) -> u8 {
    (v << 1u8) as u8
}

/// A byte shifted right, bit 7 kept.
pub open spec fn sra_byte(v: u8) -> u8 {
    ((v & 0x80u8) | (v >> 1u8)) as u8
}

/// A byte shifted right, bit 7 cleared.
pub open spec fn srl_byte(v: u8) -> u8 {
    v >> 1u8
}

/// A byte with its nibbles exchanged.
pub open spec fn swap_byte(v: u8) -> u8 {
    (((v & 0xF0u8) >> 4u8) | ((v & 0x0Fu8) << 4u8)) as u8
}

/// The flags a shift or rotation leaves: Z as given, N and H cleared, C as given.
pub open spec fn shift_flags(r: RegistersView, z: bool, c: bool) -> RegistersView {
    r.with_flags(z, false, false, c)
}

/// The low byte of a bitwise operation on a byte and a word is that operation on
/// the low bytes.
proof fn lemma_logic_low_byte(a: i16, b: i16)
    by (bit_vector)
    requires
        0 <= a < 256,
    ensures
        ((a & b) as u16) % 256 == ((a as u8) & (b as u8)) as u16,
        ((a | b) as u16) % 256 == ((a as u8) | (b as u8)) as u16,
        ((a ^ b) as u16) % 256 == ((a as u8) ^ (b as u8)) as u16,
{
}

/// A rotation through the carry puts the carry where the rotated bit left.
proof fn lemma_rotate_through_carry(value: u8, carry: u8)
    by (bit_vector)
    requires
        carry <= 1,
    ensures
        value >> 1 | carry << 7 == rr_byte(value, carry == 1),
        (value << 1) | carry == rl_byte(value, carry == 1),
{
}

/// A byte widened to a word and back is the byte.
proof fn lemma_byte_as_word(v: u8)
    by (bit_vector)
    ensures
        (v as i16) as u8 == v,
{
}

proof fn lemma_byte_facts(v: u8)
    ensures
        (v & 1 == 1) == (v % 2 == 1),
        (v & 1) <= 1,
        ((v & 0x80) >> 7) <= 1,
        (((v & 0x80) >> 7) == 1) == (v >= 128),
        ((v & 0x80) > 0) == (v >= 128),
{
    assert(((v & 1 == 1) == (v % 2 == 1)) && ((v & 1) <= 1) && (((v & 0x80) >> 7) <= 1) && ((((v & 0x80) >> 7) == 1) == (v >= 128)) && (((v & 0x80) > 0) == (v >= 128))) by (bit_vector);
}

proof fn lemma_u16_low_byte(v: u16)
    ensures
        (v as u8) as int == v as int % 256,
{
    assert((v as u8) as int == v as int % 256) by (bit_vector);
}

/// The register file after testing bit `position` of a byte: Z set when the bit is
/// clear, H set, N cleared, C kept.
pub open spec fn bit_result(r: RegistersView, position: u8, value: u8) -> RegistersView {
    RegistersView { zf: (value >> position) & 1 == 0, hf: true, nf: false, ..r }
}

/// The DAA correction: 0x06 for a half carry or (after an addition) a low nibble past
/// 9, 0x60 for a carry or (after an addition) a value past 0x99.
pub open spec fn daa_correction(r: RegistersView) -> u16 {
    let low = if r.hf || (!r.nf && r.a % 16 > 9) { 0x06u16 } else { 0u16 };
    let high = if r.cf || (!r.nf && r.a > 0x99) { 0x60u16 } else { 0u16 };
    (low + high) as u16
}

/// The register file after DAA: A corrected (down after a subtraction, up otherwise),
/// Z from A, H cleared, C set when the correction holds 0x60, N kept.
pub open spec fn daa_result(r: RegistersView) -> RegistersView {
    let corr = daa_correction(r);
    let a = if r.nf { r.a as int - corr } else { r.a as int + corr };
    RegistersView { a: (a % 256) as u8, zf: a % 256 == 0, hf: false, cf: corr >= 0x60, ..r }
}

/// DAA after a subtraction takes the correction from A, which must not go below zero.
pub open spec fn daa_defined(r: RegistersView) -> bool {
    r.nf ==> r.a as int >= daa_correction(r)
}

/// The register file after a 16-bit addition of `value` to HL: N cleared, C from bit 16,
/// H from the 16-bit half carry of HL.
pub open spec fn add_hl_result(r: RegistersView, value: u16) -> RegistersView {
    let sum = r.hl as int + value as int;
    RegistersView {
        hl: (sum % 0x10000) as u16,
        cf: sum > 0xFFFF,
        nf: false,
        hf: half_carry(r.hl as i16, value as i16, 0, HalfCarryOperationsMode::AddWords),
        ..r
    }
}

/// The value an item takes when increased by one, wrapping at 16 bits.
pub open spec fn inc_nn_value(r: RegistersView, item: RegisterItem) -> u16 {
    ((r.get(item) as int + 1) % 0x10000) as u16
}

/// The value an item takes when decreased by one, wrapping at 16 bits.
pub open spec fn dec_nn_value(r: RegistersView, item: RegisterItem) -> u16 {
    ((r.get(item) as int - 1) % 0x10000) as u16
}

/// The value of the operand named `name`, which must be there and hold a value.
pub fn operand_value(operands: &Vec<Operand>, name: &str) -> (v: u16)
    requires
        operand_value_named(operands@, name@) is Some,
    ensures
        v == operand_value_named(operands@, name@).unwrap(),
{
    find_operand_value(operands, name).unwrap().unwrap()
}

/// A signed 8-bit displacement: the low byte of an operand value, as a signed number.
pub open spec fn displacement(value: u16) -> int {
    let b = value as int % 256;
    if b >= 128 {
        b - 256
    } else {
        b
    }
}

/// The register file after SP plus a displacement is computed: Z and N cleared, H from
/// the low nibbles, and C as given.
pub open spec fn sp_offset_flags(r: RegistersView, offset: int, carry: bool) -> RegistersView {
    RegistersView {
        zf: false,
        nf: false,
        hf: r.sp as int % 16 + offset % 16 > 15,
        cf: carry,
        ..r
    }
}

proof fn lemma_displacement(value: u16, sp: u16)
    ensures
        (value as i8) as int == displacement(value),
        (sp as u32).wrapping_add((value as i8) as u32) as u16 as int == (sp as int + displacement(value)) % 0x10000,
        ((sp as u32).wrapping_add((value as i8) as u32) > 0xFFFF) == (sp as int + displacement(value) > 0xFFFF || sp as int + displacement(value) < 0),
        (((sp as u32).wrapping_add((value as i8) as u32)) & 0xFFFF0000) as u16 == 0,
        (((sp as u32) & 0xF).wrapping_add((((value as i8) & 0xF) as u32)) > 0xF) == (sp as int % 16 + displacement(value) % 16 > 15),
{
    assert(((value as i8) as int == (if value as int % 256 >= 128 { value as int % 256 - 256 } else { value as int % 256 })) && ((sp as u32).wrapping_add((value as i8) as u32) as u16 as int == (sp as int + (value as i8) as int) % 0x10000) && (((sp as u32).wrapping_add((value as i8) as u32) > 0xFFFF) == (sp as int + (value as i8) as int > 0xFFFF || sp as int + ((value as i8) as int) < 0)) && ((((sp as u32).wrapping_add((value as i8) as u32)) & 0xFFFF0000) as u16 == 0) && ((((sp as u32) & 0xF).wrapping_add((((value as i8) & 0xF) as u32)) > 0xF) == (sp as int % 16 + (value as i8) as int % 16 > 15))) by (bit_vector);
}

impl CPU {
    /// Adds `value` to A; sets Z, H and C, clears N.
    pub fn add_a(&mut self, value: u16)
        requires
            add_defined(old(self).Registers@, value),
        ensures
            final(self).Registers@ == add_result(old(self).Registers@, value),
            old(self).same_but_registers(*final(self)),
    {
        let current_value = self.Registers.get_item(RegisterItem::A) as u16;
        let result = current_value + value;
        proof {
            lemma_u16_as_i16_nibble(value);
            lemma_u16_as_i16_nibble(current_value);
        }
        self.Registers.set_item(RegisterItem::A, result as u16);
        self.Registers.set_item(RegisterItem::FlagC, (result > 0xFF) as u16);
        self.Registers.set_item(
            RegisterItem::FlagH,
            CPU::calculate_half_carry(current_value as i16, value as i16, 0, HalfCarryOperationsMode::Add) as u16,
        );
        self.Registers.set_item(RegisterItem::FlagN, 0);
        let a = self.Registers.get_item(RegisterItem::A);
        self.Registers.set_item(RegisterItem::FlagZ, (a == 0) as u16);
    }

    /// Adds `value` and the carry flag to A; sets Z, H and C, clears N.
    pub fn adc_a(&mut self, value: i16)
        requires
            adc_defined(old(self).Registers@, value),
        ensures
            final(self).Registers@ == adc_result(old(self).Registers@, value),
            old(self).same_but_registers(*final(self)),
    {
        let current_value = self.Registers.get_item(RegisterItem::A) as i16;
        let carry = self.Registers.get_item(RegisterItem::FlagC) as i16;
        let result = value + current_value + carry;
        proof {
            lemma_i16_wrap_byte(result);
        }
        self.Registers.set_item(RegisterItem::A, result as u16);
        self.Registers.set_item(RegisterItem::FlagC, (result > 0xFF) as u16);
        self.Registers.set_item(
            RegisterItem::FlagH,
            CPU::calculate_half_carry(current_value, value, carry, HalfCarryOperationsMode::Add) as u16,
        );
        self.Registers.set_item(RegisterItem::FlagN, 0);
        let a = self.Registers.get_item(RegisterItem::A);
        self.Registers.set_item(RegisterItem::FlagZ, (a == 0) as u16);
    }

    /// Subtracts `to_sub` from A; sets Z, N, H and C.
    pub fn sub_a(&mut self, to_sub: i16)
        requires
            sub_defined(old(self).Registers@, to_sub),
        ensures
            final(self).Registers@ == sub_result(old(self).Registers@, to_sub),
            old(self).same_but_registers(*final(self)),
    {
        let current_value = self.Registers.get_item(RegisterItem::A) as i16;
        let result = current_value - to_sub;
        proof {
            lemma_i16_wrap_byte(result);
        }
        self.Registers.set_item(RegisterItem::A, result as u16);
        self.Registers.set_item(RegisterItem::FlagC, (to_sub > current_value) as u16);
        self.Registers.set_item(
            RegisterItem::FlagH,
            CPU::calculate_half_carry(current_value, to_sub, 0, HalfCarryOperationsMode::GreaterThan) as u16,
        );
        self.Registers.set_item(RegisterItem::FlagN, 1);
        let a = self.Registers.get_item(RegisterItem::A);
        self.Registers.set_item(RegisterItem::FlagZ, (a == 0) as u16);
    }

    /// Subtracts `value` and the carry flag from A; sets Z, N, H and C.
    pub fn sbc_a(&mut self, value: i16)
        requires
            sbc_defined(old(self).Registers@, value),
        ensures
            final(self).Registers@ == sbc_result(old(self).Registers@, value),
            old(self).same_but_registers(*final(self)),
    {
        let current_value = self.Registers.get_item(RegisterItem::A) as i16;
        let carry = self.Registers.get_item(RegisterItem::FlagC) as i16;
        let result = current_value - value - carry;
        let cv = current_value;
        let v = value;
        assert(((cv & 0xF) - (v & 0xF) - carry) as int == (cv as int) % 16 - (v as int) % 16 - carry)
            by (bit_vector)
            requires
                0 <= carry <= 1,
        ;
        proof {
            lemma_i16_wrap_byte(result);
        }
        self.Registers.set_item(RegisterItem::A, result as u16);
        self.Registers.set_item(RegisterItem::FlagC, ((value + carry) > current_value) as u16);
        self.Registers.set_item(RegisterItem::FlagH, (((current_value & 0xF) - (value & 0xF) - carry) < 0) as u16);
        self.Registers.set_item(RegisterItem::FlagN, 1);
        let a = self.Registers.get_item(RegisterItem::A);
        self.Registers.set_item(RegisterItem::FlagZ, (a == 0) as u16);
    }

    /// A takes `A & to_and`; Z from the result, H set, N and C cleared.
    pub fn and_a_value(&mut self, to_and: i16)
        ensures
            final(self).Registers@ == logic_result(old(self).Registers@, old(self).Registers@.a & (to_and as u8), true),
            old(self).same_but_registers(*final(self)),
    {
        let current_value = self.Registers.get_item(RegisterItem::A) as i16;
        let result = current_value & to_and;
        proof {
            lemma_logic_low_byte(current_value, to_and);
        }
        self.Registers.set_item(RegisterItem::A, result as u16);
        self.Registers.set_item(RegisterItem::FlagC, 0);
        self.Registers.set_item(RegisterItem::FlagH, 1);
        self.Registers.set_item(RegisterItem::FlagN, 0);
        let a = self.Registers.get_item(RegisterItem::A);
        self.Registers.set_item(RegisterItem::FlagZ, (a == 0) as u16);
    }

    /// A takes `A | to_or`; Z from the result, N, H and C cleared.
    pub fn or_a_value(&mut self, to_or: i16)
        ensures
            final(self).Registers@ == logic_result(old(self).Registers@, old(self).Registers@.a | (to_or as u8), false),
            old(self).same_but_registers(*final(self)),
    {
        let current_value = self.Registers.get_item(RegisterItem::A) as i16;
        let result = current_value | to_or;
        proof {
            lemma_logic_low_byte(current_value, to_or);
        }
        self.Registers.set_item(RegisterItem::A, result as u16);
        self.Registers.set_item(RegisterItem::FlagC, 0);
        self.Registers.set_item(RegisterItem::FlagH, 0);
        self.Registers.set_item(RegisterItem::FlagN, 0);
        let a = self.Registers.get_item(RegisterItem::A);
        self.Registers.set_item(RegisterItem::FlagZ, (a == 0) as u16);
    }

    /// A takes `A ^ value`; Z from the result, N, H and C cleared.
    pub fn xor_a(&mut self, value: i16)
        ensures
            final(self).Registers@ == logic_result(old(self).Registers@, old(self).Registers@.a ^ (value as u8), false),
            old(self).same_but_registers(*final(self)),
    {
        let current_value = self.Registers.get_item(RegisterItem::A) as i16;
        let result = current_value ^ value;
        proof {
            lemma_logic_low_byte(current_value, value);
        }
        self.Registers.set_item(RegisterItem::A, result as u16);
        self.Registers.set_item(RegisterItem::FlagC, 0);
        self.Registers.set_item(RegisterItem::FlagH, 0);
        self.Registers.set_item(RegisterItem::FlagN, 0);
        let a = self.Registers.get_item(RegisterItem::A);
        self.Registers.set_item(RegisterItem::FlagZ, (a == 0) as u16);
    }

    /// Sets the flags of `A - to_cp`, keeping A.
    pub fn cp_a(&mut self, to_cp: i16)
        requires
            sub_defined(old(self).Registers@, to_cp),
        ensures
            final(self).Registers@ == cp_result(old(self).Registers@, to_cp),
            old(self).same_but_registers(*final(self)),
    {
        let old_a = self.Registers.get_item(RegisterItem::A);
        self.sub_a(to_cp);
        self.Registers.set_item(RegisterItem::A, old_a);
    }

    /// Increments an 8-bit item; sets Z and H, clears N, keeps C.
    pub fn inc(&mut self, to_inc: RegisterItem)
        requires
            inc_defined(old(self).Registers@, to_inc),
        ensures
            final(self).Registers@ == inc_result(old(self).Registers@, to_inc),
            old(self).same_but_registers(*final(self)),
    {
        let current_value = self.Registers.get_item(to_inc) as i16;
        let result = current_value + 1;
        self.Registers.set_item(RegisterItem::FlagN, 0);
        self.Registers.set_item(
            RegisterItem::FlagH,
            CPU::calculate_half_carry(current_value, 0, 0, HalfCarryOperationsMode::Increment) as u16,
        );
        self.Registers.set_item(to_inc, result as u16);
        let v = self.Registers.get_item(to_inc);
        self.Registers.set_item(RegisterItem::FlagZ, (v == 0) as u16);
    }

    /// Decrements an 8-bit item; sets Z, N and H, keeps C.
    pub fn dec(&mut self, to_dec: RegisterItem)
        requires
            dec_defined(old(self).Registers@, to_dec),
        ensures
            final(self).Registers@ == dec_result(old(self).Registers@, to_dec),
            old(self).same_but_registers(*final(self)),
    {
        let current_value = self.Registers.get_item(to_dec) as i16;
        let result = current_value - 1;
        self.Registers.set_item(RegisterItem::FlagN, 1);
        self.Registers.set_item(
            RegisterItem::FlagH,
            CPU::calculate_half_carry(current_value, 0, 0, HalfCarryOperationsMode::Decrement) as u16,
        );
        self.Registers.set_item(to_dec, result as u16);
        let v = self.Registers.get_item(to_dec);
        self.Registers.set_item(RegisterItem::FlagZ, (v == 0) as u16);
    }

    /// Rotates `value` right through the carry. Z is set from the result when `should_set_zero`, cleared otherwise; N
    /// and H are cleared; C takes the bit shifted out.
    pub fn rr_value(&mut self, value: u8, should_set_zero: bool) -> (result: u8)
        ensures
            result == rr_byte(value, old(self).Registers@.cf),
            final(self).Registers@ == shift_flags(
                old(self).Registers@,
                should_set_zero && result == 0,
                value % 2 == 1,
            ),
            old(self).same_but_registers(*final(self)),
    {
        proof {
            lemma_byte_facts(value);
        }
        let carry = value & 1;
        let current_carry = self.Registers.get_item(RegisterItem::FlagC) as u8;
        let result = value >> 1 | current_carry << 7;
        proof {
            lemma_rotate_through_carry(value, current_carry);
        }
        self.Registers.set_item(RegisterItem::FlagC, carry as u16);
        self.Registers.set_item(RegisterItem::FlagH, 0);
        self.Registers.set_item(RegisterItem::FlagN, 0);
        if should_set_zero {
            self.Registers.set_item(RegisterItem::FlagZ, (result == 0) as u16);
        } else {
            self.Registers.set_item(RegisterItem::FlagZ, 0 as u16);
        }
        result
    }

    /// Rotates `value` right. Z is set from the result when `should_set_zero`, cleared otherwise; N
    /// and H are cleared; C takes the bit shifted out.
    pub fn rrc_value(&mut self, value: u8, should_set_zero: bool) -> (result: u8)
        ensures
            result == rrc_byte(value),
            final(self).Registers@ == shift_flags(
                old(self).Registers@,
                should_set_zero && result == 0,
                value % 2 == 1,
            ),
            old(self).same_but_registers(*final(self)),
    {
        proof {
            lemma_byte_facts(value);
        }
        let carry = value & 1;
        let result = (value >> 1) | (value << 7);
        self.Registers.set_item(RegisterItem::FlagC, carry as u16);
        self.Registers.set_item(RegisterItem::FlagH, 0);
        self.Registers.set_item(RegisterItem::FlagN, 0);
        if should_set_zero {
            self.Registers.set_item(RegisterItem::FlagZ, (result == 0) as u16);
        } else {
            self.Registers.set_item(RegisterItem::FlagZ, 0 as u16);
        }
        result
    }

    /// Rotates `value` left through the carry. Z is set from the result when `should_set_zero`, cleared otherwise; N
    /// and H are cleared; C takes the bit shifted out.
    pub fn rl_value(&mut self, value: u8, should_set_zero: bool) -> (result: u8)
        ensures
            result == rl_byte(value, old(self).Registers@.cf),
            final(self).Registers@ == shift_flags(
                old(self).Registers@,
                should_set_zero && result == 0,
                value >= 128,
            ),
            old(self).same_but_registers(*final(self)),
    {
        proof {
            lemma_byte_facts(value);
        }
        let carry = (value & 0x80) >> 7;
        let current_carry = self.Registers.get_item(RegisterItem::FlagC) as u8;
        let result = (value << 1) | current_carry;
        proof {
            lemma_rotate_through_carry(value, current_carry);
        }
        self.Registers.set_item(RegisterItem::FlagC, carry as u16);
        self.Registers.set_item(RegisterItem::FlagH, 0);
        self.Registers.set_item(RegisterItem::FlagN, 0);
        if should_set_zero {
            self.Registers.set_item(RegisterItem::FlagZ, (result == 0) as u16);
        } else {
            self.Registers.set_item(RegisterItem::FlagZ, 0 as u16);
        }
        result
    }

    /// Rotates `value` left. Z is set from the result when `should_set_zero`, cleared otherwise; N
    /// and H are cleared; C takes the bit shifted out.
    pub fn rlc_value(&mut self, value: u8, should_set_zero: bool) -> (result: u8)
        ensures
            result == rlc_byte(value),
            final(self).Registers@ == shift_flags(
                old(self).Registers@,
                should_set_zero && result == 0,
                value >= 128,
            ),
            old(self).same_but_registers(*final(self)),
    {
        proof {
            lemma_byte_facts(value);
        }
        let carry = (value & 0x80) >> 7;
        let result = (value << 1) | (value >> 7);
        self.Registers.set_item(RegisterItem::FlagC, carry as u16);
        self.Registers.set_item(RegisterItem::FlagH, 0);
        self.Registers.set_item(RegisterItem::FlagN, 0);
        if should_set_zero {
            self.Registers.set_item(RegisterItem::FlagZ, (result == 0) as u16);
        } else {
            self.Registers.set_item(RegisterItem::FlagZ, 0 as u16);
        }
        result
    }

    /// Shifts `value` left, bit 0 cleared. Z is set from the result, N and H are cleared, C takes the bit shifted
    /// out (cleared for a swap).
    pub fn sla_value(&mut self, value: u8) -> (result: u8)
        ensures
            result == sla_byte(value),
            final(self).Registers@ == shift_flags(old(self).Registers@, result == 0, value >= 128),
            old(self).same_but_registers(*final(self)),
    {
        proof {
            lemma_byte_facts(value);
        }
        let carry = value & 0x80;
        let result = value << 1;
        self.Registers.set_item(RegisterItem::FlagC, (carry > 0) as u16);
        self.Registers.set_item(RegisterItem::FlagZ, (result == 0) as u16);
        self.Registers.set_item(RegisterItem::FlagH, 0);
        self.Registers.set_item(RegisterItem::FlagN, 0);
        result
    }

    /// Shifts `value` right, bit 7 kept. Z is set from the result, N and H are cleared, C takes the bit shifted
    /// out (cleared for a swap).
    pub fn sra_value(&mut self, value: u8) -> (result: u8)
        ensures
            result == sra_byte(value),
            final(self).Registers@ == shift_flags(old(self).Registers@, result == 0, value % 2 == 1),
            old(self).same_but_registers(*final(self)),
    {
        proof {
            lemma_byte_facts(value);
        }
        let carry = value & 0x1;
        let result = (value & 0x80) | value >> 1;
        self.Registers.set_item(RegisterItem::FlagC, (carry > 0) as u16);
        self.Registers.set_item(RegisterItem::FlagZ, (result == 0) as u16);
        self.Registers.set_item(RegisterItem::FlagH, 0);
        self.Registers.set_item(RegisterItem::FlagN, 0);
        result
    }

    /// Shifts `value` right, bit 7 cleared. Z is set from the result, N and H are cleared, C takes the bit shifted
    /// out (cleared for a swap).
    pub fn srl_value(&mut self, value: u8) -> (result: u8)
        ensures
            result == srl_byte(value),
            final(self).Registers@ == shift_flags(old(self).Registers@, result == 0, value % 2 == 1),
            old(self).same_but_registers(*final(self)),
    {
        proof {
            lemma_byte_facts(value);
        }
        let carry = value & 0x1;
        let result = value >> 1;
        self.Registers.set_item(RegisterItem::FlagC, (carry > 0) as u16);
        self.Registers.set_item(RegisterItem::FlagZ, (result == 0) as u16);
        self.Registers.set_item(RegisterItem::FlagH, 0);
        self.Registers.set_item(RegisterItem::FlagN, 0);
        result
    }

    /// Exchanges the nibbles of `value`. Z is set from the result, N and H are cleared, C takes the bit shifted
    /// out (cleared for a swap).
    pub fn swap_value(&mut self, value: u8) -> (result: u8)
        ensures
            result == swap_byte(value),
            final(self).Registers@ == shift_flags(old(self).Registers@, result == 0, false),
            old(self).same_but_registers(*final(self)),
    {
        proof {
            lemma_byte_facts(value);
        }
        let most_significant_nibble = value & 0xF0;
        let least_significant_nibble = value & 0x0F;
        let result = (most_significant_nibble >> 4) | (least_significant_nibble << 4);
        self.Registers.set_item(RegisterItem::FlagC, 0);
        self.Registers.set_item(RegisterItem::FlagZ, (result == 0) as u16);
        self.Registers.set_item(RegisterItem::FlagH, 0);
        self.Registers.set_item(RegisterItem::FlagN, 0);
        result
    }

    /// `rr_value` applied to an item, which takes the result.
    pub fn rr_r(&mut self, item: RegisterItem, should_set_zero: bool)
        requires
            RegistersView::can_set(item, ({ let v = (old(self).Registers@.get(item) % 256) as u8; rr_byte(v, old(self).Registers@.cf) }) as u16),
        ensures
            ({
                let v = (old(self).Registers@.get(item) % 256) as u8;
                let res = rr_byte(v, old(self).Registers@.cf);
                final(self).Registers@ == shift_flags(old(self).Registers@, should_set_zero && res == 0, v % 2 == 1).set(item, res as u16)
            }),
            old(self).same_but_registers(*final(self)),
    {
        let current_value = self.Registers.get_item(item);
        proof {
            lemma_u16_low_byte(current_value);
        }
        let current_value = current_value as u8;
        let result = self.rr_value(current_value, should_set_zero);
        self.Registers.set_item(item, result as u16);
    }

    /// `rr_value` applied to the byte HL points to, which takes the result.
    pub fn rr_hl_pointer(&mut self)
        requires
            old(self).MMU.readable(old(self).Registers@.hl as i32),
            old(self).MMU.writable(old(self).Registers@.hl as i32, ({ let v = old(self).MMU.spec_read_byte(old(self).Registers@.hl as i32); rr_byte(v, old(self).Registers@.cf) })),
        ensures
            ({
                let hl = old(self).Registers@.hl as i32;
                let v = old(self).MMU.spec_read_byte(hl);
                let res = rr_byte(v, old(self).Registers@.cf);
                &&& final(self).Registers@ == shift_flags(old(self).Registers@, res == 0, v % 2 == 1)
                &&& old(self).MMU.wrote_byte(final(self).MMU, hl, res)
            }),
            old(self).same_but_registers_and_bus(*final(self)),
    {
        let value_at_hl = self.Registers.get_item(RegisterItem::HL) as i32;
        let current_value = self.MMU.read_byte(value_at_hl);
        let result = self.rr_value(current_value, true);
        self.MMU.write_byte(value_at_hl, result);
    }

    /// `rrc_value` applied to an item, which takes the result.
    pub fn rrc_r(&mut self, item: RegisterItem, should_set_zero: bool)
        requires
            RegistersView::can_set(item, ({ let v = (old(self).Registers@.get(item) % 256) as u8; rrc_byte(v) }) as u16),
        ensures
            ({
                let v = (old(self).Registers@.get(item) % 256) as u8;
                let res = rrc_byte(v);
                final(self).Registers@ == shift_flags(old(self).Registers@, should_set_zero && res == 0, v % 2 == 1).set(item, res as u16)
            }),
            old(self).same_but_registers(*final(self)),
    {
        let current_value = self.Registers.get_item(item);
        proof {
            lemma_u16_low_byte(current_value);
        }
        let current_value = current_value as u8;
        let result = self.rrc_value(current_value, should_set_zero);
        self.Registers.set_item(item, result as u16);
    }

    /// `rrc_value` applied to the byte HL points to, which takes the result.
    pub fn rrc_hl_pointer(&mut self)
        requires
            old(self).MMU.readable(old(self).Registers@.hl as i32),
            old(self).MMU.writable(old(self).Registers@.hl as i32, ({ let v = old(self).MMU.spec_read_byte(old(self).Registers@.hl as i32); rrc_byte(v) })),
        ensures
            ({
                let hl = old(self).Registers@.hl as i32;
                let v = old(self).MMU.spec_read_byte(hl);
                let res = rrc_byte(v);
                &&& final(self).Registers@ == shift_flags(old(self).Registers@, res == 0, v % 2 == 1)
                &&& old(self).MMU.wrote_byte(final(self).MMU, hl, res)
            }),
            old(self).same_but_registers_and_bus(*final(self)),
    {
        let value_at_hl = self.Registers.get_item(RegisterItem::HL) as i32;
        let current_value = self.MMU.read_byte(value_at_hl);
        let result = self.rrc_value(current_value, true);
        self.MMU.write_byte(value_at_hl, result);
    }

    /// `rl_value` applied to an item, which takes the result.
    pub fn rl_r(&mut self, item: RegisterItem, should_set_zero: bool)
        requires
            RegistersView::can_set(item, ({ let v = (old(self).Registers@.get(item) % 256) as u8; rl_byte(v, old(self).Registers@.cf) }) as u16),
        ensures
            ({
                let v = (old(self).Registers@.get(item) % 256) as u8;
                let res = rl_byte(v, old(self).Registers@.cf);
                final(self).Registers@ == shift_flags(old(self).Registers@, should_set_zero && res == 0, v >= 128).set(item, res as u16)
            }),
            old(self).same_but_registers(*final(self)),
    {
        let current_value = self.Registers.get_item(item);
        proof {
            lemma_u16_low_byte(current_value);
        }
        let current_value = current_value as u8;
        let result = self.rl_value(current_value, should_set_zero);
        self.Registers.set_item(item, result as u16);
    }

    /// `rl_value` applied to the byte HL points to, which takes the result.
    pub fn rl_hl_pointer(&mut self)
        requires
            old(self).MMU.readable(old(self).Registers@.hl as i32),
            old(self).MMU.writable(old(self).Registers@.hl as i32, ({ let v = old(self).MMU.spec_read_byte(old(self).Registers@.hl as i32); rl_byte(v, old(self).Registers@.cf) })),
        ensures
            ({
                let hl = old(self).Registers@.hl as i32;
                let v = old(self).MMU.spec_read_byte(hl);
                let res = rl_byte(v, old(self).Registers@.cf);
                &&& final(self).Registers@ == shift_flags(old(self).Registers@, res == 0, v >= 128)
                &&& old(self).MMU.wrote_byte(final(self).MMU, hl, res)
            }),
            old(self).same_but_registers_and_bus(*final(self)),
    {
        let value_at_hl = self.Registers.get_item(RegisterItem::HL) as i32;
        let current_value = self.MMU.read_byte(value_at_hl);
        let result = self.rl_value(current_value, true);
        self.MMU.write_byte(value_at_hl, result);
    }

    /// `rlc_value` applied to an item, which takes the result.
    pub fn rlc_r(&mut self, item: RegisterItem, should_set_zero: bool)
        requires
            RegistersView::can_set(item, ({ let v = (old(self).Registers@.get(item) % 256) as u8; rlc_byte(v) }) as u16),
        ensures
            ({
                let v = (old(self).Registers@.get(item) % 256) as u8;
                let res = rlc_byte(v);
                final(self).Registers@ == shift_flags(old(self).Registers@, should_set_zero && res == 0, v >= 128).set(item, res as u16)
            }),
            old(self).same_but_registers(*final(self)),
    {
        let current_value = self.Registers.get_item(item);
        proof {
            lemma_u16_low_byte(current_value);
        }
        let current_value = current_value as u8;
        let result = self.rlc_value(current_value, should_set_zero);
        self.Registers.set_item(item, result as u16);
    }

    /// `rlc_value` applied to the byte HL points to, which takes the result.
    pub fn rlc_hl_pointer(&mut self)
        requires
            old(self).MMU.readable(old(self).Registers@.hl as i32),
            old(self).MMU.writable(old(self).Registers@.hl as i32, ({ let v = old(self).MMU.spec_read_byte(old(self).Registers@.hl as i32); rlc_byte(v) })),
        ensures
            ({
                let hl = old(self).Registers@.hl as i32;
                let v = old(self).MMU.spec_read_byte(hl);
                let res = rlc_byte(v);
                &&& final(self).Registers@ == shift_flags(old(self).Registers@, res == 0, v >= 128)
                &&& old(self).MMU.wrote_byte(final(self).MMU, hl, res)
            }),
            old(self).same_but_registers_and_bus(*final(self)),
    {
        let value_at_hl = self.Registers.get_item(RegisterItem::HL) as i32;
        let current_value = self.MMU.read_byte(value_at_hl);
        let result = self.rlc_value(current_value, true);
        self.MMU.write_byte(value_at_hl, result);
    }

    /// `sla_value` applied to an item, which takes the result.
    pub fn sla_r(&mut self, item: RegisterItem)
        requires
            RegistersView::can_set(item, ({ let v = (old(self).Registers@.get(item) % 256) as u8; sla_byte(v) }) as u16),
        ensures
            ({
                let v = (old(self).Registers@.get(item) % 256) as u8;
                let res = sla_byte(v);
                final(self).Registers@ == shift_flags(old(self).Registers@, res == 0, v >= 128).set(item, res as u16)
            }),
            old(self).same_but_registers(*final(self)),
    {
        let current_value = self.Registers.get_item(item);
        proof {
            lemma_u16_low_byte(current_value);
        }
        let current_value = current_value as u8;
        let result = self.sla_value(current_value);
        self.Registers.set_item(item, result as u16);
    }

    /// `sla_value` applied to the byte HL points to, which takes the result.
    pub fn sla_hl_pointer(&mut self)
        requires
            old(self).MMU.readable(old(self).Registers@.hl as i32),
            old(self).MMU.writable(old(self).Registers@.hl as i32, ({ let v = old(self).MMU.spec_read_byte(old(self).Registers@.hl as i32); sla_byte(v) })),
        ensures
            ({
                let hl = old(self).Registers@.hl as i32;
                let v = old(self).MMU.spec_read_byte(hl);
                let res = sla_byte(v);
                &&& final(self).Registers@ == shift_flags(old(self).Registers@, res == 0, v >= 128)
                &&& old(self).MMU.wrote_byte(final(self).MMU, hl, res)
            }),
            old(self).same_but_registers_and_bus(*final(self)),
    {
        let value_at_hl = self.Registers.get_item(RegisterItem::HL) as i32;
        let current_value = self.MMU.read_byte(value_at_hl);
        let result = self.sla_value(current_value);
        self.MMU.write_byte(value_at_hl, result);
    }

    /// `sra_value` applied to an item, which takes the result.
    pub fn sra_r(&mut self, item: RegisterItem)
        requires
            RegistersView::can_set(item, ({ let v = (old(self).Registers@.get(item) % 256) as u8; sra_byte(v) }) as u16),
        ensures
            ({
                let v = (old(self).Registers@.get(item) % 256) as u8;
                let res = sra_byte(v);
                final(self).Registers@ == shift_flags(old(self).Registers@, res == 0, v % 2 == 1).set(item, res as u16)
            }),
            old(self).same_but_registers(*final(self)),
    {
        let current_value = self.Registers.get_item(item);
        proof {
            lemma_u16_low_byte(current_value);
        }
        let current_value = current_value as u8;
        let result = self.sra_value(current_value);
        self.Registers.set_item(item, result as u16);
    }

    /// `sra_value` applied to the byte HL points to, which takes the result.
    pub fn sra_hl_pointer(&mut self)
        requires
            old(self).MMU.readable(old(self).Registers@.hl as i32),
            old(self).MMU.writable(old(self).Registers@.hl as i32, ({ let v = old(self).MMU.spec_read_byte(old(self).Registers@.hl as i32); sra_byte(v) })),
        ensures
            ({
                let hl = old(self).Registers@.hl as i32;
                let v = old(self).MMU.spec_read_byte(hl);
                let res = sra_byte(v);
                &&& final(self).Registers@ == shift_flags(old(self).Registers@, res == 0, v % 2 == 1)
                &&& old(self).MMU.wrote_byte(final(self).MMU, hl, res)
            }),
            old(self).same_but_registers_and_bus(*final(self)),
    {
        let value_at_hl = self.Registers.get_item(RegisterItem::HL) as i32;
        let current_value = self.MMU.read_byte(value_at_hl);
        let result = self.sra_value(current_value);
        self.MMU.write_byte(value_at_hl, result);
    }

    /// `srl_value` applied to an item, which takes the result.
    pub fn srl_r(&mut self, item: RegisterItem)
        requires
            RegistersView::can_set(item, ({ let v = (old(self).Registers@.get(item) % 256) as u8; srl_byte(v) }) as u16),
        ensures
            ({
                let v = (old(self).Registers@.get(item) % 256) as u8;
                let res = srl_byte(v);
                final(self).Registers@ == shift_flags(old(self).Registers@, res == 0, v % 2 == 1).set(item, res as u16)
            }),
            old(self).same_but_registers(*final(self)),
    {
        let current_value = self.Registers.get_item(item);
        proof {
            lemma_u16_low_byte(current_value);
        }
        let current_value = current_value as u8;
        let result = self.srl_value(current_value);
        self.Registers.set_item(item, result as u16);
    }

    /// `srl_value` applied to the byte HL points to, which takes the result.
    pub fn srl_hl_pointer(&mut self)
        requires
            old(self).MMU.readable(old(self).Registers@.hl as i32),
            old(self).MMU.writable(old(self).Registers@.hl as i32, ({ let v = old(self).MMU.spec_read_byte(old(self).Registers@.hl as i32); srl_byte(v) })),
        ensures
            ({
                let hl = old(self).Registers@.hl as i32;
                let v = old(self).MMU.spec_read_byte(hl);
                let res = srl_byte(v);
                &&& final(self).Registers@ == shift_flags(old(self).Registers@, res == 0, v % 2 == 1)
                &&& old(self).MMU.wrote_byte(final(self).MMU, hl, res)
            }),
            old(self).same_but_registers_and_bus(*final(self)),
    {
        let value_at_hl = self.Registers.get_item(RegisterItem::HL) as i32;
        let current_value = self.MMU.read_byte(value_at_hl);
        let result = self.srl_value(current_value);
        self.MMU.write_byte(value_at_hl, result);
    }

    /// `swap_value` applied to an item, which takes the result.
    pub fn swap_r(&mut self, item: RegisterItem)
        requires
            RegistersView::can_set(item, ({ let v = (old(self).Registers@.get(item) % 256) as u8; swap_byte(v) }) as u16),
        ensures
            ({
                let v = (old(self).Registers@.get(item) % 256) as u8;
                let res = swap_byte(v);
                final(self).Registers@ == shift_flags(old(self).Registers@, res == 0, false).set(item, res as u16)
            }),
            old(self).same_but_registers(*final(self)),
    {
        let current_value = self.Registers.get_item(item);
        proof {
            lemma_u16_low_byte(current_value);
        }
        let current_value = current_value as u8;
        let result = self.swap_value(current_value);
        self.Registers.set_item(item, result as u16);
    }

    /// `swap_value` applied to the byte HL points to, which takes the result.
    pub fn swap_hl_pointer(&mut self)
        requires
            old(self).MMU.readable(old(self).Registers@.hl as i32),
            old(self).MMU.writable(old(self).Registers@.hl as i32, ({ let v = old(self).MMU.spec_read_byte(old(self).Registers@.hl as i32); swap_byte(v) })),
        ensures
            ({
                let hl = old(self).Registers@.hl as i32;
                let v = old(self).MMU.spec_read_byte(hl);
                let res = swap_byte(v);
                &&& final(self).Registers@ == shift_flags(old(self).Registers@, res == 0, false)
                &&& old(self).MMU.wrote_byte(final(self).MMU, hl, res)
            }),
            old(self).same_but_registers_and_bus(*final(self)),
    {
        let value_at_hl = self.Registers.get_item(RegisterItem::HL) as i32;
        let current_value = self.MMU.read_byte(value_at_hl);
        let result = self.swap_value(current_value);
        self.MMU.write_byte(value_at_hl, result);
    }

    /// Tests bit `position` of `value`.
    pub fn bit_n_value(&mut self, position: u8, value: u8)
        requires
            position < 8,
        ensures
            final(self).Registers@ == bit_result(old(self).Registers@, position, value),
            old(self).same_but_registers(*final(self)),
    {
        let value_at_bit = (value >> position) & 0x1;
        self.Registers.set_item(RegisterItem::FlagZ, (value_at_bit == 0) as u16);
        self.Registers.set_item(RegisterItem::FlagH, 1);
        self.Registers.set_item(RegisterItem::FlagN, 0);
    }

    /// Tests bit `position` of an item.
    pub fn bit_n_r(&mut self, position: u8, target_register: RegisterItem)
        requires
            position < 8,
        ensures
            final(self).Registers@ == bit_result(
                old(self).Registers@,
                position,
                (old(self).Registers@.get(target_register) % 256) as u8,
            ),
            old(self).same_but_registers(*final(self)),
    {
        let current_value = self.Registers.get_item(target_register);
        proof {
            lemma_u16_low_byte(current_value);
        }
        self.bit_n_value(position, current_value as u8);
    }

    /// Tests bit `position` of the byte HL points to.
    pub fn bit_hl_pointer(&mut self, position: u8)
        requires
            position < 8,
            old(self).MMU.readable(old(self).Registers@.hl as i32),
        ensures
            final(self).Registers@ == bit_result(
                old(self).Registers@,
                position,
                old(self).MMU.spec_read_byte(old(self).Registers@.hl as i32),
            ),
            old(self).same_but_registers(*final(self)),
    {
        let value_at_hl = self.Registers.get_item(RegisterItem::HL) as i32;
        let current_value = self.MMU.read_byte(value_at_hl);
        self.bit_n_value(position, current_value);
    }

    /// `value` with bit `position` cleared.
    pub fn res_n_value(&mut self, position: u8, value: u8) -> (r: u8)
        requires
            position < 8,
        ensures
            r == value & !(1u8 << position),
            *final(self) == *old(self),
    {
        let mut value = value;
        value &= !(1u8 << position);
        value
    }

    /// Clears bit `position` of an item.
    pub fn res_n_r(&mut self, position: u8, target_register: RegisterItem)
        requires
            position < 8,
            RegistersView::can_set(target_register, (((old(self).Registers@.get(target_register) % 256) as u8) & !(1u8 << position)) as u16),
        ensures
            final(self).Registers@ == old(self).Registers@.set(
                target_register,
                (((old(self).Registers@.get(target_register) % 256) as u8) & !(1u8 << position)) as u16,
            ),
            old(self).same_but_registers(*final(self)),
    {
        let current_value = self.Registers.get_item(target_register);
        proof {
            lemma_u16_low_byte(current_value);
        }
        let result = self.res_n_value(position, current_value as u8);
        self.Registers.set_item(target_register, result as u16);
    }

    /// Clears bit `position` of the byte HL points to.
    pub fn res_hl_pointer(&mut self, position: u8)
        requires
            position < 8,
            old(self).MMU.readable(old(self).Registers@.hl as i32),
            old(self).MMU.writable(old(self).Registers@.hl as i32, old(self).MMU.spec_read_byte(old(self).Registers@.hl as i32) & !(1u8 << position)),
        ensures
            old(self).MMU.wrote_byte(
                final(self).MMU,
                old(self).Registers@.hl as i32,
                old(self).MMU.spec_read_byte(old(self).Registers@.hl as i32) & !(1u8 << position),
            ),
            final(self).Registers == old(self).Registers,
            old(self).same_but_registers_and_bus(*final(self)),
    {
        let value_at_hl = self.Registers.get_item(RegisterItem::HL) as i32;
        let current_value = self.MMU.read_byte(value_at_hl);
        let result = self.res_n_value(position, current_value);
        self.MMU.write_byte(value_at_hl, result);
    }

    /// `value` with bit `position` set.
    pub fn set_n_value(&mut self, position: u8, value: u8) -> (r: u8)
        requires
            position < 8,
        ensures
            r == value | (1u8 << position),
            *final(self) == *old(self),
    {
        let mut value = value;
        value |= 1u8 << position;
        value
    }

    /// Sets bit `position` of an item.
    pub fn set_n_r(&mut self, position: u8, target_register: RegisterItem)
        requires
            position < 8,
            RegistersView::can_set(target_register, (((old(self).Registers@.get(target_register) % 256) as u8) | (1u8 << position)) as u16),
        ensures
            final(self).Registers@ == old(self).Registers@.set(
                target_register,
                (((old(self).Registers@.get(target_register) % 256) as u8) | (1u8 << position)) as u16,
            ),
            old(self).same_but_registers(*final(self)),
    {
        let current_value = self.Registers.get_item(target_register);
        proof {
            lemma_u16_low_byte(current_value);
        }
        let result = self.set_n_value(position, current_value as u8);
        self.Registers.set_item(target_register, result as u16);
    }

    /// Sets bit `position` of the byte HL points to.
    pub fn set_hl_pointer(&mut self, position: u8)
        requires
            position < 8,
            old(self).MMU.readable(old(self).Registers@.hl as i32),
            old(self).MMU.writable(old(self).Registers@.hl as i32, old(self).MMU.spec_read_byte(old(self).Registers@.hl as i32) | (1u8 << position)),
        ensures
            old(self).MMU.wrote_byte(
                final(self).MMU,
                old(self).Registers@.hl as i32,
                old(self).MMU.spec_read_byte(old(self).Registers@.hl as i32) | (1u8 << position),
            ),
            final(self).Registers == old(self).Registers,
            old(self).same_but_registers_and_bus(*final(self)),
    {
        let value_at_hl = self.Registers.get_item(RegisterItem::HL) as i32;
        let current_value = self.MMU.read_byte(value_at_hl);
        let result = self.set_n_value(position, current_value);
        self.MMU.write_byte(value_at_hl, result);
    }

    /// Decimal adjust of A after a BCD addition or subtraction.
    pub fn daa(&mut self)
        requires
            daa_defined(old(self).Registers@),
        ensures
            final(self).Registers@ == daa_result(old(self).Registers@),
            old(self).same_but_registers(*final(self)),
    {
        let mut current_value = self.Registers.get_item(RegisterItem::A) as u16;
        let negative = self.Registers.get_item(RegisterItem::FlagN) as u8;
        let carry = self.Registers.get_item(RegisterItem::FlagC) as u8;
        let half_carry = self.Registers.get_item(RegisterItem::FlagH) as u8;
        let mut result: u16 = 0;
        if half_carry != 0 {
            result |= 0x06
        }
        if carry != 0 {
            result |= 0x60
        }
        if negative != 0 {
            assert(result == daa_correction(self.Registers@)) by {
                assert(0u16 | 0x06 == 0x06 && 0u16 | 0x60 == 0x60 && 0x06u16 | 0x60 == 0x66) by (bit_vector);
            }
            current_value -= result;
        } else {
            if (current_value & 0x0F) > 0x09 {
                result |= 0x06
            }
            if current_value > 0x99 {
                result |= 0x60
            }
            assert(result == daa_correction(self.Registers@)) by {
                assert(0u16 | 0x06 == 0x06 && 0u16 | 0x60 == 0x60 && 0x06u16 | 0x60 == 0x66
                    && 0x06u16 | 0x06 == 0x06 && 0x60u16 | 0x60 == 0x60 && 0x66u16 | 0x06 == 0x66
                    && 0x66u16 | 0x60 == 0x66 && 0x60u16 | 0x06 == 0x66 && 0x06u16 | 0x60 == 0x66)
                    by (bit_vector);
                let cv = current_value;
                assert((cv & 0x0F) as int == cv as int % 16) by (bit_vector);
            }
            current_value += result;
        }
        self.Registers.set_item(RegisterItem::A, current_value as u16);
        self.Registers.set_item(RegisterItem::FlagH, 0);
        let a = self.Registers.get_item(RegisterItem::A);
        self.Registers.set_item(RegisterItem::FlagZ, (a == 0) as u16);
        assert((result & 0x60 != 0) == (result >= 0x60)) by (bit_vector)
            requires
                result == 0 || result == 0x06 || result == 0x60 || result == 0x66,
        ;
        self.Registers.set_item(RegisterItem::FlagC, (result & 0x60 != 0) as u16);
    }

    /// Complements the carry flag; clears N and H.
    pub fn ccf(&mut self)
        ensures
            final(self).Registers@ == (RegistersView { cf: !old(self).Registers@.cf, nf: false, hf: false, ..old(self).Registers@ }),
            old(self).same_but_registers(*final(self)),
    {
        let carry = self.Registers.get_item(RegisterItem::FlagC) as u8;
        self.Registers.set_item(RegisterItem::FlagC, (carry == 0) as u16);
        self.Registers.set_item(RegisterItem::FlagN, 0);
        self.Registers.set_item(RegisterItem::FlagH, 0);
    }

    /// Complements A; sets N and H.
    pub fn cpl(&mut self)
        ensures
            final(self).Registers@ == (RegistersView { a: !old(self).Registers@.a, nf: true, hf: true, ..old(self).Registers@ }),
            old(self).same_but_registers(*final(self)),
    {
        let accumulator = self.Registers.get_item(RegisterItem::A) as u8;
        let na = !accumulator;
        assert((na as u16) % 256 == na as u16) by (bit_vector);
        self.Registers.set_item(RegisterItem::A, !accumulator as u16);
        self.Registers.set_item(RegisterItem::FlagN, 1);
        self.Registers.set_item(RegisterItem::FlagH, 1);
    }

    /// Sets the carry flag; clears N and H.
    pub fn scf(&mut self)
        ensures
            final(self).Registers@ == (RegistersView { cf: true, nf: false, hf: false, ..old(self).Registers@ }),
            old(self).same_but_registers(*final(self)),
    {
        self.Registers.set_item(RegisterItem::FlagC, 1);
        self.Registers.set_item(RegisterItem::FlagN, 0);
        self.Registers.set_item(RegisterItem::FlagH, 0);
    }

    /// Adds an item to HL; clears N, sets H and C.
    pub fn add_hl_n(&mut self, to_add: RegisterItem)
        ensures
            final(self).Registers@ == add_hl_result(old(self).Registers@, old(self).Registers@.get(to_add)),
            old(self).same_but_registers(*final(self)),
    {
        let current_value = self.Registers.get_item(RegisterItem::HL) as u32;
        let to_add = self.Registers.get_item(to_add) as u32;
        let result: u32 = current_value + to_add;
        assert((result & 0x10000 != 0) == (result > 0xFFFF) && (result as u16) as int == result as int
            % 0x10000) by (bit_vector)
            requires
                result < 0x20000,
        ;
        self.Registers.set_item(RegisterItem::HL, result as u16);
        self.Registers.set_item(RegisterItem::FlagC, (result & 0x10000 != 0) as u16);
        self.Registers.set_item(RegisterItem::FlagN, 0);
        self.Registers.set_item(
            RegisterItem::FlagH,
            CPU::calculate_half_carry(current_value as i16, to_add as i16, 0, HalfCarryOperationsMode::AddWords) as u16,
        );
    }

    /// Increments an item, wrapping at 16 bits.
    pub fn inc_nn(&mut self, name: RegisterItem)
        requires
            RegistersView::can_set(name, inc_nn_value(old(self).Registers@, name)),
        ensures
            final(self).Registers@ == old(self).Registers@.set(name, inc_nn_value(old(self).Registers@, name)),
            old(self).same_but_registers(*final(self)),
    {
        let mut current_value = self.Registers.get_item(name) as i16;
        let cv = self.Registers.get_item(name);
        assert((cv as i16).wrapping_add(1) as u16 as int == (cv as int + 1) % 0x10000) by (bit_vector);
        current_value = current_value.wrapping_add(1);
        self.Registers.set_item(name, current_value as u16);
    }

    /// Decrements an item, wrapping at 16 bits.
    pub fn dec_nn(&mut self, name: RegisterItem)
        requires
            RegistersView::can_set(name, dec_nn_value(old(self).Registers@, name)),
        ensures
            final(self).Registers@ == old(self).Registers@.set(name, dec_nn_value(old(self).Registers@, name)),
            old(self).same_but_registers(*final(self)),
    {
        let mut current_value = self.Registers.get_item(name) as i16;
        let cv = self.Registers.get_item(name);
        assert((cv as i16).wrapping_sub(1) as u16 as int == (cv as int - 1) % 0x10000) by (bit_vector);
        current_value = current_value.wrapping_sub(1);
        self.Registers.set_item(name, current_value as u16);
    }

    /// Copies one item into another.
    pub fn ld_r_r(&mut self, from: RegisterItem, to: RegisterItem)
        requires
            RegistersView::can_set(to, old(self).Registers@.get(from)),
        ensures
            final(self).Registers@ == old(self).Registers@.set(to, old(self).Registers@.get(from)),
            old(self).same_but_registers(*final(self)),
    {
        let from_value = self.Registers.get_item(from);
        self.Registers.set_item(to, from_value);
    }

    /// SP takes HL.
    pub fn ld_sp_hl(&mut self)
        ensures
            final(self).Registers@ == (RegistersView { sp: old(self).Registers@.hl, ..old(self).Registers@ }),
            old(self).same_but_registers(*final(self)),
    {
        let hl = self.Registers.get_item(RegisterItem::HL);
        self.Registers.set_item(RegisterItem::SP, hl)
    }

    /// An item takes the operand named "d16".
    pub fn ld_nn(&mut self, operands: Vec<Operand>, name: RegisterItem)
        requires
            operand_value_named(operands@, "d16"@) is Some,
            RegistersView::can_set(name, operand_value_named(operands@, "d16"@).unwrap()),
        ensures
            final(self).Registers@ == old(self).Registers@.set(name, operand_value_named(operands@, "d16"@).unwrap()),
            old(self).same_but_registers(*final(self)),
    {
        let d16 = operand_value(&operands, "d16");
        self.Registers.set_item(name, d16)
    }

    /// An item takes the operand named "d8".
    pub fn ld_r_d8(&mut self, destination: RegisterItem, instruction: Instruction)
        requires
            operand_value_named(instruction.operands@, "d8"@) is Some,
            RegistersView::can_set(destination, operand_value_named(instruction.operands@, "d8"@).unwrap()),
        ensures
            final(self).Registers@ == old(self).Registers@.set(destination, operand_value_named(instruction.operands@, "d8"@).unwrap()),
            old(self).same_but_registers(*final(self)),
    {
        let d8 = operand_value(&instruction.operands, "d8");
        self.Registers.set_item(destination, d8)
    }

    /// Adds an item to A.
    pub fn add_a_r(&mut self, to_add: RegisterItem)
        requires
            add_defined(old(self).Registers@, old(self).Registers@.get(to_add)),
        ensures
            final(self).Registers@ == add_result(old(self).Registers@, old(self).Registers@.get(to_add)),
            old(self).same_but_registers(*final(self)),
    {
        let value_to_add = self.Registers.get_item(to_add);
        self.add_a(value_to_add);
    }

    /// Adds the operand named "d8" to A.
    pub fn add_a_n(&mut self, operands: Vec<Operand>)
        requires
            operand_value_named(operands@, "d8"@) is Some,
            add_defined(old(self).Registers@, operand_value_named(operands@, "d8"@).unwrap()),
        ensures
            final(self).Registers@ == add_result(old(self).Registers@, operand_value_named(operands@, "d8"@).unwrap()),
            old(self).same_but_registers(*final(self)),
    {
        let d8 = operand_value(&operands, "d8");
        self.add_a(d8);
    }

    /// Adds an item and the carry to A.
    pub fn adc_a_r(&mut self, to_add: RegisterItem)
        requires
            adc_defined(old(self).Registers@, old(self).Registers@.get(to_add) as i16),
        ensures
            final(self).Registers@ == adc_result(old(self).Registers@, old(self).Registers@.get(to_add) as i16),
            old(self).same_but_registers(*final(self)),
    {
        let to_add = self.Registers.get_item(to_add) as i16;
        self.adc_a(to_add);
    }

    /// Adds the operand named "d8" and the carry to A.
    pub fn adc_a_d8(&mut self, instruction: Instruction)
        requires
            operand_value_named(instruction.operands@, "d8"@) is Some,
            adc_defined(old(self).Registers@, operand_value_named(instruction.operands@, "d8"@).unwrap() as i16),
        ensures
            final(self).Registers@ == adc_result(old(self).Registers@, operand_value_named(instruction.operands@, "d8"@).unwrap() as i16),
            old(self).same_but_registers(*final(self)),
    {
        let d8 = operand_value(&instruction.operands, "d8");
        self.adc_a(d8 as i16);
    }

    /// Subtracts an item from A.
    pub fn sub_a_r(&mut self, to_sub: RegisterItem)
        requires
            sub_defined(old(self).Registers@, old(self).Registers@.get(to_sub) as i16),
        ensures
            final(self).Registers@ == sub_result(old(self).Registers@, old(self).Registers@.get(to_sub) as i16),
            old(self).same_but_registers(*final(self)),
    {
        let to_sub = self.Registers.get_item(to_sub) as i16;
        self.sub_a(to_sub)
    }

    /// Subtracts the operand named "d8" from A.
    pub fn sub_a_n(&mut self, operands: Vec<Operand>)
        requires
            operand_value_named(operands@, "d8"@) is Some,
            sub_defined(old(self).Registers@, operand_value_named(operands@, "d8"@).unwrap() as i16),
        ensures
            final(self).Registers@ == sub_result(old(self).Registers@, operand_value_named(operands@, "d8"@).unwrap() as i16),
            old(self).same_but_registers(*final(self)),
    {
        let d8 = operand_value(&operands, "d8");
        self.sub_a(d8 as i16);
    }

    /// Subtracts an item and the carry from A.
    pub fn sbc_a_r(&mut self, to_sub: RegisterItem)
        requires
            sbc_defined(old(self).Registers@, old(self).Registers@.get(to_sub) as i16),
        ensures
            final(self).Registers@ == sbc_result(old(self).Registers@, old(self).Registers@.get(to_sub) as i16),
            old(self).same_but_registers(*final(self)),
    {
        let to_sub = self.Registers.get_item(to_sub) as i16;
        self.sbc_a(to_sub)
    }

    /// Subtracts the operand named "d8" and the carry from A.
    pub fn sbc_a_d8(&mut self, instruction: Instruction)
        requires
            operand_value_named(instruction.operands@, "d8"@) is Some,
            sbc_defined(old(self).Registers@, operand_value_named(instruction.operands@, "d8"@).unwrap() as i16),
        ensures
            final(self).Registers@ == sbc_result(old(self).Registers@, operand_value_named(instruction.operands@, "d8"@).unwrap() as i16),
            old(self).same_but_registers(*final(self)),
    {
        let d8 = operand_value(&instruction.operands, "d8");
        self.sbc_a(d8 as i16);
    }

    /// ANDs an item into A.
    pub fn and_a_r(&mut self, to_and: RegisterItem)
        ensures
            final(self).Registers@ == logic_result(old(self).Registers@, old(self).Registers@.a & ((old(self).Registers@.get(to_and) as i16) as u8), true),
            old(self).same_but_registers(*final(self)),
    {
        let to_and = self.Registers.get_item(to_and) as i16;
        self.and_a_value(to_and);
    }

    /// ANDs the operand named "d8" into A.
    pub fn and_a_n(&mut self, operands: Vec<Operand>)
        requires
            operand_value_named(operands@, "d8"@) is Some,
        ensures
            final(self).Registers@ == logic_result(old(self).Registers@, old(self).Registers@.a & ((operand_value_named(operands@, "d8"@).unwrap() as i16) as u8), true),
            old(self).same_but_registers(*final(self)),
    {
        let d8 = operand_value(&operands, "d8");
        self.and_a_value(d8 as i16);
    }

    /// ORs an item into A.
    pub fn or_a_r(&mut self, to_or: RegisterItem)
        ensures
            final(self).Registers@ == logic_result(old(self).Registers@, old(self).Registers@.a | ((old(self).Registers@.get(to_or) as i16) as u8), false),
            old(self).same_but_registers(*final(self)),
    {
        let to_or = self.Registers.get_item(to_or) as i16;
        self.or_a_value(to_or);
    }

    /// ORs the operand named "d8" into A.
    pub fn or_a_n(&mut self, operands: Vec<Operand>)
        requires
            operand_value_named(operands@, "d8"@) is Some,
        ensures
            final(self).Registers@ == logic_result(old(self).Registers@, old(self).Registers@.a | ((operand_value_named(operands@, "d8"@).unwrap() as i16) as u8), false),
            old(self).same_but_registers(*final(self)),
    {
        let d8 = operand_value(&operands, "d8");
        self.or_a_value(d8 as i16);
    }

    /// XORs an item into A.
    pub fn xor_a_r(&mut self, to_xor: RegisterItem)
        ensures
            final(self).Registers@ == logic_result(old(self).Registers@, old(self).Registers@.a ^ ((old(self).Registers@.get(to_xor) as i16) as u8), false),
            old(self).same_but_registers(*final(self)),
    {
        let to_xor = self.Registers.get_item(to_xor) as i16;
        self.xor_a(to_xor);
    }

    /// XORs the operand named "d8" into A.
    pub fn xor_a_d8(&mut self, instruction: Instruction)
        requires
            operand_value_named(instruction.operands@, "d8"@) is Some,
        ensures
            final(self).Registers@ == logic_result(old(self).Registers@, old(self).Registers@.a ^ ((operand_value_named(instruction.operands@, "d8"@).unwrap() as i16) as u8), false),
            old(self).same_but_registers(*final(self)),
    {
        let d8 = operand_value(&instruction.operands, "d8");
        self.xor_a(d8 as i16);
    }

    /// Compares A with an item.
    pub fn cp_a_r(&mut self, to_cp: RegisterItem)
        requires
            sub_defined(old(self).Registers@, old(self).Registers@.get(to_cp) as i16),
        ensures
            final(self).Registers@ == cp_result(old(self).Registers@, old(self).Registers@.get(to_cp) as i16),
            old(self).same_but_registers(*final(self)),
    {
        let to_cp = self.Registers.get_item(to_cp);
        self.cp_a(to_cp as i16);
    }

    /// Compares A with the operand named "d8".
    pub fn cp_a_d8(&mut self, instruction: Instruction)
        requires
            operand_value_named(instruction.operands@, "d8"@) is Some,
            sub_defined(old(self).Registers@, operand_value_named(instruction.operands@, "d8"@).unwrap() as i16),
        ensures
            final(self).Registers@ == cp_result(old(self).Registers@, operand_value_named(instruction.operands@, "d8"@).unwrap() as i16),
            old(self).same_but_registers(*final(self)),
    {
        let d8 = operand_value(&instruction.operands, "d8");
        self.cp_a(d8 as i16);
    }

    /// SP plus the signed operand named "r8"; Z and N cleared, H from the low nibbles,
    /// C cleared.
    pub fn add_sp_r8(&mut self, instruction: Instruction)
        requires
            operand_value_named(instruction.operands@, "r8"@) is Some,
        ensures
            ({
                let r = old(self).Registers@;
                let off = displacement(operand_value_named(instruction.operands@, "r8"@).unwrap());
                final(self).Registers@ == (RegistersView {
                    sp: ((r.sp as int + off) % 0x10000) as u16,
                    ..sp_offset_flags(r, off, false)
                })
            }),
            old(self).same_but_registers(*final(self)),
    {
        let v = operand_value(&instruction.operands, "r8");
        let r8 = v as i8;
        let sp = self.Registers.get_item(RegisterItem::SP) as u32;
        proof {
            lemma_displacement(v, sp as u16);
        }
        self.Registers.set_item(RegisterItem::FlagZ, 0);
        self.Registers.set_item(RegisterItem::FlagN, 0);
        let result = sp.wrapping_add(r8 as u32);
        self.Registers.set_item(RegisterItem::FlagC, (result & 0xFFFF0000) as u16);
        self.Registers.set_item(RegisterItem::FlagH, ((sp & 0xF).wrapping_add((r8 & 0xF) as u32) > 0xF) as u16);
        self.Registers.set_item(RegisterItem::SP, result as u16)
    }

    /// HL takes SP plus the signed operand named "r8"; Z and N cleared, H from the
    /// low nibbles, C set when the sum leaves 0..=0xFFFF.
    pub fn ld_hl_sp_r8(&mut self, instruction: Instruction)
        requires
            operand_value_named(instruction.operands@, "r8"@) is Some,
        ensures
            ({
                let r = old(self).Registers@;
                let off = displacement(operand_value_named(instruction.operands@, "r8"@).unwrap());
                final(self).Registers@ == (RegistersView {
                    hl: ((r.sp as int + off) % 0x10000) as u16,
                    ..sp_offset_flags(r, off, r.sp as int + off > 0xFFFF || r.sp as int + off < 0)
                })
            }),
            old(self).same_but_registers(*final(self)),
    {
        let v = operand_value(&instruction.operands, "r8");
        let r8 = v as i8;
        let sp = self.Registers.get_item(RegisterItem::SP) as u32;
        proof {
            lemma_displacement(v, sp as u16);
        }
        self.Registers.set_item(RegisterItem::FlagZ, 0);
        self.Registers.set_item(RegisterItem::FlagN, 0);
        let result: u32 = sp.wrapping_add(r8 as u32);
        self.Registers.set_item(RegisterItem::FlagC, (sp.wrapping_add(r8 as u32) > 0xFFFF) as u16);
        self.Registers.set_item(RegisterItem::FlagH, ((sp & 0xF).wrapping_add((r8 & 0xF) as u32) > 0xF) as u16);
        self.Registers.set_item(RegisterItem::HL, result as u16)
    }

    /// PC takes HL.
    pub fn jp_hl(&mut self)
        ensures
            final(self).Registers@ == (RegistersView { pc: old(self).Registers@.hl, ..old(self).Registers@ }),
            old(self).same_but_registers(*final(self)),
    {
        let hl = self.Registers.get_item(RegisterItem::HL);
        self.Registers.set_item(RegisterItem::PC, hl);
    }

    /// A relative jump by the signed operand named "r8" when the condition holds; a
    /// taken conditional jump costs 4 more cycles.
    pub fn jr_r8(&mut self, instruction: Instruction, condition: JumpCondition)
        requires
            operand_value_named(instruction.operands@, "r8"@) is Some,
        ensures
            ({
                let r = old(self).Registers@;
                let off = displacement(operand_value_named(instruction.operands@, "r8"@).unwrap());
                if condition_holds(r, condition) {
                    &&& final(self).Registers@ == (RegistersView { pc: ((r.pc as int + off) % 0x10000) as u16, ..r })
                    &&& final(self).clock == if condition != JumpCondition::Always { clock_plus(old(self).clock, 4) } else { old(self).clock as int }
                } else {
                    &&& final(self).Registers@ == r
                    &&& final(self).clock == old(self).clock
                }
            }),
            final(self).MMU == old(self).MMU,
            final(self).is_halted == old(self).is_halted,
            final(self).logging == old(self).logging,
    {
        let v = operand_value(&instruction.operands, "r8");
        let r8 = v as i8;
        let current_pc = self.Registers.get_item(RegisterItem::PC);
        assert(current_pc.wrapping_add(r8 as u16) as int == (current_pc as int + displacement(v)) % 0x10000) by {
            assert(current_pc.wrapping_add((v as i8) as u16) as int == (current_pc as int + (v as i8) as int) % 0x10000) by (bit_vector);
            lemma_displacement(v, 0);
        }
        let should_jump = self.checkJumpCondition(&condition);
        if should_jump {
            if condition != JumpCondition::Always {
                self.clock = self.clock.wrapping_add(4);
            }
            self.Registers.set_item(RegisterItem::PC, current_pc.wrapping_add(r8 as u16));
        }
    }

    /// Pushes `value`: SP goes down by two and the word is stored there, low byte first.
    pub fn write_to_stack(&mut self, value: u16)
        requires
            old(self).push_defined(value),
        ensures
            old(self).pushed(*final(self), value),
    {
        let mut sp = self.Registers.get_item(RegisterItem::SP);
        sp -= 2;
        self.MMU.write_word(sp as i32, value);
        self.Registers.set_item(RegisterItem::SP, sp);
    }

    /// Pops the word on top of the stack: SP goes up by two.
    pub fn read_from_stack(&mut self) -> (v: u16)
        requires
            old(self).pop_defined(),
        ensures
            v == old(self).top_of_stack(),
            final(self).Registers@ == (RegistersView { sp: (old(self).Registers@.sp + 2) as u16, ..old(self).Registers@ }),
            old(self).same_but_registers(*final(self)),
    {
        let sp = self.Registers.get_item(RegisterItem::SP);
        let first_8_bits = self.MMU.read_byte(sp as i32) as u16;
        let last_8_bits = self.MMU.read_byte((sp + 1) as i32) as u16;
        self.Registers.set_item(RegisterItem::SP, sp + 2);
        assert(first_8_bits | last_8_bits << 8 == first_8_bits + last_8_bits * 256) by (bit_vector)
            requires
                first_8_bits < 256,
                last_8_bits < 256,
        ;
        (first_8_bits | last_8_bits << 8) as u16
    }

    /// Pushes an item.
    pub fn push_rr(&mut self, to_push: RegisterItem)
        requires
            old(self).push_defined(old(self).Registers@.get(to_push)),
        ensures
            old(self).pushed(*final(self), old(self).Registers@.get(to_push)),
    {
        let to_push = self.Registers.get_item(to_push);
        self.write_to_stack(to_push);
    }

    /// Pops into an item.
    pub fn pop_rr(&mut self, pop_into: RegisterItem)
        requires
            old(self).pop_defined(),
            RegistersView::can_set(pop_into, old(self).top_of_stack()),
        ensures
            final(self).Registers@ == (RegistersView { sp: (old(self).Registers@.sp + 2) as u16, ..old(self).Registers@ }).set(pop_into, old(self).top_of_stack()),
            old(self).same_but_registers(*final(self)),
    {
        let value = self.read_from_stack();
        self.Registers.set_item(pop_into, value)
    }

    /// Pushes PC and jumps to `new_pc`.
    pub fn rst(&mut self, new_pc: u16)
        requires
            old(self).push_defined(old(self).Registers@.pc),
        ensures
            ({
                &&& final(self).Registers@ == (RegistersView { pc: new_pc, sp: (old(self).Registers@.sp - 2) as u16, ..old(self).Registers@ })
                &&& old(self).MMU.wrote_word(final(self).MMU, (old(self).Registers@.sp - 2) as i32, old(self).Registers@.pc)
                &&& old(self).same_but_registers_and_bus(*final(self))
            }),
    {
        let pc = self.Registers.get_item(RegisterItem::PC);
        self.write_to_stack(pc);
        self.Registers.set_item(RegisterItem::PC, new_pc);
    }

    /// An absolute jump to the operand named "a16" when the condition holds; a taken
    /// conditional jump costs 12 more cycles.
    pub fn jp_a16(&mut self, instruction: Instruction, condition: JumpCondition)
        requires
            condition_holds(old(self).Registers@, condition) ==> operand_value_named(instruction.operands@, "a16"@) is Some,
        ensures
            ({
                let r = old(self).Registers@;
                if condition_holds(r, condition) {
                    &&& final(self).Registers@ == (RegistersView { pc: operand_value_named(instruction.operands@, "a16"@).unwrap(), ..r })
                    &&& final(self).clock == if condition != JumpCondition::Always { clock_plus(old(self).clock, 12) } else { old(self).clock as int }
                } else {
                    &&& final(self).Registers@ == r
                    &&& final(self).clock == old(self).clock
                }
            }),
            final(self).MMU == old(self).MMU,
            final(self).is_halted == old(self).is_halted,
            final(self).logging == old(self).logging,
    {
        let should_jump = self.checkJumpCondition(&condition);
        if should_jump {
            if condition != JumpCondition::Always {
                self.clock = self.clock.wrapping_add(12);
            }
            let a16 = operand_value(&instruction.operands, "a16");
            self.Registers.set_item(RegisterItem::PC, a16)
        }
    }

    /// A call of the operand named "a16" when the condition holds: PC (already past the
    /// instruction) is pushed; a taken conditional call costs 12 more cycles.
    pub fn call_a16(&mut self, instruction: Instruction, condition: JumpCondition)
        requires
            condition_holds(old(self).Registers@, condition) ==> {
                &&& operand_value_named(instruction.operands@, "a16"@) is Some
                &&& old(self).push_defined(old(self).Registers@.pc)
            },
        ensures
            ({
                let r = old(self).Registers@;
                if condition_holds(r, condition) {
                    &&& final(self).Registers@ == (RegistersView { pc: operand_value_named(instruction.operands@, "a16"@).unwrap(), sp: (r.sp - 2) as u16, ..r })
                    &&& old(self).MMU.wrote_word(final(self).MMU, (r.sp - 2) as i32, r.pc)
                    &&& final(self).clock == if condition != JumpCondition::Always { clock_plus(old(self).clock, 12) } else { old(self).clock as int }
                } else {
                    &&& final(self).Registers@ == r
                    &&& final(self).MMU == old(self).MMU
                    &&& final(self).clock == old(self).clock
                }
            }),
            final(self).is_halted == old(self).is_halted,
            final(self).logging == old(self).logging,
    {
        let should_call = self.checkJumpCondition(&condition);
        if should_call {
            if condition != JumpCondition::Always {
                self.clock = self.clock.wrapping_add(12);
            }
            let a16 = operand_value(&instruction.operands, "a16");
            let pc = self.Registers.get_item(RegisterItem::PC);
            self.write_to_stack(pc);
            self.Registers.set_item(RegisterItem::PC, a16);
        }
    }

    /// A return when the condition holds: PC is popped; a taken conditional return costs
    /// 12 more cycles; RETI also enables interrupts.
    pub fn ret(&mut self, condition: JumpCondition, enable_interrupts: bool)
        requires
            condition_holds(old(self).Registers@, condition) ==> {
                &&& old(self).pop_defined()
            },
        ensures
            ({
                let r = old(self).Registers@;
                if condition_holds(r, condition) {
                    &&& final(self).Registers@ == (RegistersView { pc: old(self).top_of_stack(), sp: (r.sp + 2) as u16, ..r })
                    &&& final(self).MMU == (if enable_interrupts { crate::memory::mmu::MMU { interrupt_master_enabled: true, ..old(self).MMU } } else { old(self).MMU })
                    &&& final(self).clock == if condition != JumpCondition::Always { clock_plus(old(self).clock, 12) } else { old(self).clock as int }
                } else {
                    &&& final(self).Registers@ == r
                    &&& final(self).MMU == old(self).MMU
                    &&& final(self).clock == old(self).clock
                }
            }),
            final(self).is_halted == old(self).is_halted,
            final(self).logging == old(self).logging,
    {
        let should_return = self.checkJumpCondition(&condition);
        if should_return {
            let jump_location = self.read_from_stack();
            self.Registers.set_item(RegisterItem::PC, jump_location);
            if condition != JumpCondition::Always {
                self.clock = self.clock.wrapping_add(12);
            }
            if enable_interrupts {
                self.MMU.interrupt_master_enabled = true;
            }
        }
    }

    /// An item takes the byte HL points to.
    pub fn ld_r_hl(&mut self, to: RegisterItem)
        requires
            old(self).MMU.readable(old(self).Registers@.hl as i32),
            RegistersView::can_set(to, old(self).MMU.spec_read_byte(old(self).Registers@.hl as i32) as u16),
        ensures
            final(self).Registers@ == old(self).Registers@.set(to, old(self).MMU.spec_read_byte(old(self).Registers@.hl as i32) as u16),
            old(self).same_but_registers(*final(self)),
    {
        let hl = self.Registers.get_item(RegisterItem::HL);
        let value_at_hl = self.MMU.read_byte(hl as i32);
        self.Registers.set_item(to, value_at_hl as u16);
    }

    /// Stores the low byte of one item at the address another item holds.
    pub fn ld_address_value(&mut self, address_pointer: RegisterItem, value: RegisterItem)
        requires
            old(self).MMU.writable(old(self).Registers@.get(address_pointer) as i32, (old(self).Registers@.get(value) % 256) as u8),
        ensures
            old(self).MMU.wrote_byte(final(self).MMU, old(self).Registers@.get(address_pointer) as i32, (old(self).Registers@.get(value) % 256) as u8),
            final(self).Registers == old(self).Registers,
            old(self).same_but_registers_and_bus(*final(self)),
    {
        let address = self.Registers.get_item(address_pointer);
        let value = self.Registers.get_item(value);
        proof {
            lemma_u16_low_byte(value);
        }
        self.MMU.write_byte(address as i32, value as u8)
    }

    /// A takes the byte at the address an item holds.
    pub fn ld_a_address(&mut self, address_pointer: RegisterItem)
        requires
            old(self).MMU.readable(old(self).Registers@.get(address_pointer) as i32),
        ensures
            final(self).Registers@ == (RegistersView { a: old(self).MMU.spec_read_byte(old(self).Registers@.get(address_pointer) as i32), ..old(self).Registers@ }),
            old(self).same_but_registers(*final(self)),
    {
        let address = self.Registers.get_item(address_pointer);
        let value = self.MMU.read_byte(address as i32);
        self.Registers.set_item(RegisterItem::A, value as u16);
    }

    /// Stores A at 0xFF00 plus the operand named "a8".
    pub fn ldh_a8_a(&mut self, instruction: Instruction)
        requires
            operand_value_named(instruction.operands@, "a8"@) is Some,
            0xFF00 + operand_value_named(instruction.operands@, "a8"@).unwrap() <= 0xFFFF,
            old(self).MMU.writable((0xFF00 + operand_value_named(instruction.operands@, "a8"@).unwrap()) as i32, old(self).Registers@.a),
        ensures
            old(self).MMU.wrote_byte(final(self).MMU, (0xFF00 + operand_value_named(instruction.operands@, "a8"@).unwrap()) as i32, old(self).Registers@.a),
            final(self).Registers == old(self).Registers,
            old(self).same_but_registers_and_bus(*final(self)),
    {
        let a8 = operand_value(&instruction.operands, "a8");
        let a = self.Registers.get_item(RegisterItem::A);
        self.MMU.write_byte((0xFF00 + a8) as i32, a as u8);
    }

    /// A takes the byte at 0xFF00 plus the operand named "a8".
    pub fn ldh_a_a8(&mut self, instruction: Instruction)
        requires
            operand_value_named(instruction.operands@, "a8"@) is Some,
            0xFF00 + operand_value_named(instruction.operands@, "a8"@).unwrap() <= 0xFFFF,
            old(self).MMU.readable((0xFF00 + operand_value_named(instruction.operands@, "a8"@).unwrap()) as i32),
        ensures
            final(self).Registers@ == (RegistersView { a: old(self).MMU.spec_read_byte((0xFF00 + operand_value_named(instruction.operands@, "a8"@).unwrap()) as i32), ..old(self).Registers@ }),
            old(self).same_but_registers(*final(self)),
    {
        let a8 = operand_value(&instruction.operands, "a8");
        let v = self.MMU.read_byte((0xFF00 + a8) as i32);
        self.Registers.set_item(RegisterItem::A, v as u16)
    }

    /// Stores A at the operand named "a16".
    pub fn ld_a16_pointer_a(&mut self, instruction: Instruction)
        requires
            operand_value_named(instruction.operands@, "a16"@) is Some,
            old(self).MMU.writable(operand_value_named(instruction.operands@, "a16"@).unwrap() as i32, old(self).Registers@.a),
        ensures
            old(self).MMU.wrote_byte(final(self).MMU, operand_value_named(instruction.operands@, "a16"@).unwrap() as i32, old(self).Registers@.a),
            final(self).Registers == old(self).Registers,
            old(self).same_but_registers_and_bus(*final(self)),
    {
        let a16 = operand_value(&instruction.operands, "a16");
        let a = self.Registers.get_item(RegisterItem::A);
        self.MMU.write_byte(a16 as i32, a as u8);
    }

    /// A takes the byte at the operand named "a16".
    pub fn ld_a_a16_pointer(&mut self, instruction: Instruction)
        requires
            operand_value_named(instruction.operands@, "a16"@) is Some,
            old(self).MMU.readable(operand_value_named(instruction.operands@, "a16"@).unwrap() as i32),
        ensures
            final(self).Registers@ == (RegistersView { a: old(self).MMU.spec_read_byte(operand_value_named(instruction.operands@, "a16"@).unwrap() as i32), ..old(self).Registers@ }),
            old(self).same_but_registers(*final(self)),
    {
        let a16 = operand_value(&instruction.operands, "a16");
        let value_at_a16 = self.MMU.read_byte(a16 as i32);
        self.Registers.set_item(RegisterItem::A, value_at_a16 as u16);
    }

    /// Stores SP, little-endian, at the operand named "a16".
    pub fn ld_a16_pointer_sp(&mut self, instruction: Instruction)
        requires
            operand_value_named(instruction.operands@, "a16"@) is Some,
            operand_value_named(instruction.operands@, "a16"@).unwrap() < 0xFFFF,
            old(self).MMU.writable(operand_value_named(instruction.operands@, "a16"@).unwrap() as i32, (old(self).Registers@.sp & 0xFF) as u8),
            old(self).MMU.writable((operand_value_named(instruction.operands@, "a16"@).unwrap() + 1) as i32, ((old(self).Registers@.sp & 0xFF00) >> 8) as u8),
        ensures
            old(self).MMU.wrote_word(final(self).MMU, operand_value_named(instruction.operands@, "a16"@).unwrap() as i32, old(self).Registers@.sp),
            final(self).Registers == old(self).Registers,
            old(self).same_but_registers_and_bus(*final(self)),
    {
        let a16 = operand_value(&instruction.operands, "a16");
        let sp = self.Registers.get_item(RegisterItem::SP);
        self.MMU.write_word(a16 as i32, sp);
    }

    /// A takes the byte at 0xFF00 plus C.
    pub fn ld_a_c_pointer(&mut self)
        requires
            old(self).MMU.readable((0xFF00 + old(self).Registers@.bc % 256) as i32),
        ensures
            final(self).Registers@ == (RegistersView { a: old(self).MMU.spec_read_byte((0xFF00 + old(self).Registers@.bc % 256) as i32), ..old(self).Registers@ }),
            old(self).same_but_registers(*final(self)),
    {
        let c = self.Registers.get_item(RegisterItem::C);
        let value_at_c = self.MMU.read_byte((0xFF00 + c) as i32);
        self.Registers.set_item(RegisterItem::A, value_at_c as u16);
    }

    /// Stores A at 0xFF00 plus C.
    pub fn ld_c_pointer_a(&mut self)
        requires
            old(self).MMU.writable((0xFF00 + old(self).Registers@.bc % 256) as i32, old(self).Registers@.a),
        ensures
            old(self).MMU.wrote_byte(final(self).MMU, (0xFF00 + old(self).Registers@.bc % 256) as i32, old(self).Registers@.a),
            final(self).Registers == old(self).Registers,
            old(self).same_but_registers_and_bus(*final(self)),
    {
        let c = self.Registers.get_item(RegisterItem::C);
        let a = self.Registers.get_item(RegisterItem::A);
        self.MMU.write_byte((0xFF00 + c) as i32, a as u8);
    }

    /// Stores the operand named "d8" at HL.
    pub fn ld_hl_pointer_d8(&mut self, instruction: Instruction)
        requires
            operand_value_named(instruction.operands@, "d8"@) is Some,
            old(self).MMU.writable(old(self).Registers@.hl as i32, (operand_value_named(instruction.operands@, "d8"@).unwrap() % 256) as u8),
        ensures
            old(self).MMU.wrote_byte(final(self).MMU, old(self).Registers@.hl as i32, (operand_value_named(instruction.operands@, "d8"@).unwrap() % 256) as u8),
            final(self).Registers == old(self).Registers,
            old(self).same_but_registers_and_bus(*final(self)),
    {
        let d8 = operand_value(&instruction.operands, "d8");
        let hl = self.Registers.get_item(RegisterItem::HL) as i32;
        proof {
            lemma_u16_low_byte(d8);
        }
        self.MMU.write_byte(hl, d8 as u8);
    }

    /// Stores A at HL, then moves HL up (`increase`) or down by one.
    pub fn ld_hl_pointer_dec_inc_a(&mut self, increase: bool)
        requires
            old(self).MMU.writable(old(self).Registers@.hl as i32, old(self).Registers@.a),
            increase ==> old(self).Registers@.hl < 0xFFFF,
            !increase ==> old(self).Registers@.hl > 0,
        ensures
            old(self).MMU.wrote_byte(final(self).MMU, old(self).Registers@.hl as i32, old(self).Registers@.a),
            final(self).Registers@ == (RegistersView { hl: (if increase { old(self).Registers@.hl + 1 } else { old(self).Registers@.hl - 1 }) as u16, ..old(self).Registers@ }),
            old(self).same_but_registers_and_bus(*final(self)),
    {
        let mut hl = self.Registers.get_item(RegisterItem::HL);
        let a = self.Registers.get_item(RegisterItem::A);
        self.MMU.write_byte(hl as i32, a as u8);
        if increase {
            hl += 1;
        } else {
            hl -= 1;
        }
        self.Registers.set_item(RegisterItem::HL, hl);
    }

    /// Increments the byte at HL (wrapping); N cleared, H from the low nibble, Z from
    /// reading the byte back.
    pub fn inc_hl_pointer(&mut self)
        requires
            old(self).MMU.readable(old(self).Registers@.hl as i32),
            old(self).MMU.writable(old(self).Registers@.hl as i32, ((old(self).MMU.spec_read_byte(old(self).Registers@.hl as i32) as int + 1) % 256) as u8),
        ensures
            ({
                let hl = old(self).Registers@.hl as i32;
                let v = old(self).MMU.spec_read_byte(hl);
                &&& old(self).MMU.wrote_byte(final(self).MMU, hl, ((v as int + 1) % 256) as u8)
                &&& final(self).MMU.readable(hl)
                &&& final(self).Registers@ == (RegistersView { nf: false, hf: v % 16 == 15, zf: final(self).MMU.spec_read_byte(hl) == 0, ..old(self).Registers@ })
            }),
            old(self).same_but_registers_and_bus(*final(self)),
    {
        let hl = self.Registers.get_item(RegisterItem::HL);
        let value_at_hl = self.MMU.read_byte(hl as i32);
        let result = value_at_hl.wrapping_add(1);
        self.Registers.set_item(RegisterItem::FlagN, 0);
        self.Registers.set_item(
            RegisterItem::FlagH,
            CPU::calculate_half_carry(value_at_hl as i16, 0, 0, HalfCarryOperationsMode::Increment) as u16,
        );
        self.MMU.write_byte(hl as i32, result);
        let v = self.MMU.read_byte(hl as i32);
        self.Registers.set_item(RegisterItem::FlagZ, (v == 0) as u16);
    }

    /// Decrements the byte at HL, 0 wrapping to 0xFF; N set, H from the low nibble,
    /// Z from reading the byte back.
    pub fn dec_hl_pointer(&mut self)
        requires
            old(self).MMU.readable(old(self).Registers@.hl as i32),
            old(self).MMU.writable(old(self).Registers@.hl as i32, ((old(self).MMU.spec_read_byte(old(self).Registers@.hl as i32) as int + 255) % 256) as u8),
        ensures
            ({
                let hl = old(self).Registers@.hl as i32;
                let v = old(self).MMU.spec_read_byte(hl);
                &&& old(self).MMU.wrote_byte(final(self).MMU, hl, ((v as int + 255) % 256) as u8)
                &&& final(self).MMU.readable(hl)
                &&& final(self).Registers@ == (RegistersView { nf: true, hf: v % 16 == 0, zf: final(self).MMU.spec_read_byte(hl) == 0, ..old(self).Registers@ })
            }),
            old(self).same_but_registers_and_bus(*final(self)),
    {
        let hl = self.Registers.get_item(RegisterItem::HL);
        let value_at_hl = self.MMU.read_byte(hl as i32);
        let result = value_at_hl.wrapping_sub(1);
        self.Registers.set_item(RegisterItem::FlagN, 1);
        self.Registers.set_item(
            RegisterItem::FlagH,
            CPU::calculate_half_carry(value_at_hl as i16, 0, 0, HalfCarryOperationsMode::Decrement) as u16,
        );
        self.MMU.write_byte(hl as i32, result);
        let v = self.MMU.read_byte(hl as i32);
        self.Registers.set_item(RegisterItem::FlagZ, (v == 0) as u16);
    }

    /// Adds the byte at HL to A.
    pub fn add_a_hl(&mut self)
        requires
            old(self).MMU.readable(old(self).Registers@.hl as i32),
            add_defined(old(self).Registers@, ({ let v = old(self).MMU.spec_read_byte(old(self).Registers@.hl as i32); v as u16 })),
        ensures
            final(self).Registers@ == add_result(old(self).Registers@, ({ let v = old(self).MMU.spec_read_byte(old(self).Registers@.hl as i32); v as u16 })),
            old(self).same_but_registers(*final(self)),
    {
        let hl = self.Registers.get_item(RegisterItem::HL);
        let value_at_hl = self.MMU.read_byte(hl as i32);
        self.add_a(value_at_hl as u16);
    }

    /// Adds the byte at HL and the carry to A.
    pub fn adc_a_hl(&mut self)
        requires
            old(self).MMU.readable(old(self).Registers@.hl as i32),
            adc_defined(old(self).Registers@, ({ let v = old(self).MMU.spec_read_byte(old(self).Registers@.hl as i32); v as i16 })),
        ensures
            final(self).Registers@ == adc_result(old(self).Registers@, ({ let v = old(self).MMU.spec_read_byte(old(self).Registers@.hl as i32); v as i16 })),
            old(self).same_but_registers(*final(self)),
    {
        let hl = self.Registers.get_item(RegisterItem::HL);
        let value_at_hl = self.MMU.read_byte(hl as i32);
        self.adc_a(value_at_hl as i16);
    }

    /// Subtracts the byte at HL from A.
    pub fn sub_a_hl(&mut self)
        requires
            old(self).MMU.readable(old(self).Registers@.hl as i32),
            sub_defined(old(self).Registers@, ({ let v = old(self).MMU.spec_read_byte(old(self).Registers@.hl as i32); v as i16 })),
        ensures
            final(self).Registers@ == sub_result(old(self).Registers@, ({ let v = old(self).MMU.spec_read_byte(old(self).Registers@.hl as i32); v as i16 })),
            old(self).same_but_registers(*final(self)),
    {
        let hl = self.Registers.get_item(RegisterItem::HL);
        let value_at_hl = self.MMU.read_byte(hl as i32);
        self.sub_a(value_at_hl as i16);
    }

    /// Subtracts the byte at HL and the carry from A.
    pub fn sbc_a_hl(&mut self)
        requires
            old(self).MMU.readable(old(self).Registers@.hl as i32),
            sbc_defined(old(self).Registers@, ({ let v = old(self).MMU.spec_read_byte(old(self).Registers@.hl as i32); v as i16 })),
        ensures
            final(self).Registers@ == sbc_result(old(self).Registers@, ({ let v = old(self).MMU.spec_read_byte(old(self).Registers@.hl as i32); v as i16 })),
            old(self).same_but_registers(*final(self)),
    {
        let hl = self.Registers.get_item(RegisterItem::HL);
        let value_at_hl = self.MMU.read_byte(hl as i32);
        self.sbc_a(value_at_hl as i16);
    }

    /// ANDs the byte at HL into A.
    pub fn and_a_hl(&mut self)
        requires
            old(self).MMU.readable(old(self).Registers@.hl as i32),
        ensures
            final(self).Registers@ == logic_result(old(self).Registers@, old(self).Registers@.a & old(self).MMU.spec_read_byte(old(self).Registers@.hl as i32), true),
            old(self).same_but_registers(*final(self)),
    {
        let hl = self.Registers.get_item(RegisterItem::HL);
        let value_at_hl = self.MMU.read_byte(hl as i32);
        proof {
            lemma_byte_as_word(value_at_hl);
        }
        self.and_a_value(value_at_hl as i16);
    }

    /// ORs the byte at HL into A.
    pub fn or_a_hl(&mut self)
        requires
            old(self).MMU.readable(old(self).Registers@.hl as i32),
        ensures
            final(self).Registers@ == logic_result(old(self).Registers@, old(self).Registers@.a | old(self).MMU.spec_read_byte(old(self).Registers@.hl as i32), false),
            old(self).same_but_registers(*final(self)),
    {
        let hl = self.Registers.get_item(RegisterItem::HL);
        let value_at_hl = self.MMU.read_byte(hl as i32);
        proof {
            lemma_byte_as_word(value_at_hl);
        }
        self.or_a_value(value_at_hl as i16);
    }

    /// XORs the byte at HL into A.
    pub fn xor_a_hl(&mut self)
        requires
            old(self).MMU.readable(old(self).Registers@.hl as i32),
        ensures
            final(self).Registers@ == logic_result(old(self).Registers@, old(self).Registers@.a ^ old(self).MMU.spec_read_byte(old(self).Registers@.hl as i32), false),
            old(self).same_but_registers(*final(self)),
    {
        let hl = self.Registers.get_item(RegisterItem::HL);
        let value_at_hl = self.MMU.read_byte(hl as i32);
        proof {
            lemma_byte_as_word(value_at_hl);
        }
        self.xor_a(value_at_hl as i16);
    }

    /// Compares A with the byte at HL.
    pub fn cp_a_hl(&mut self)
        requires
            old(self).MMU.readable(old(self).Registers@.hl as i32),
        ensures
            final(self).Registers@ == cp_result(old(self).Registers@, old(self).MMU.spec_read_byte(old(self).Registers@.hl as i32) as i16),
            old(self).same_but_registers(*final(self)),
    {
        let old_a = self.Registers.get_item(RegisterItem::A);
        self.sub_a_hl();
        self.Registers.set_item(RegisterItem::A, old_a);
    }
}

/// A word pushed onto a stack in RAM is the word on top of it, and popping it
/// brings SP back to where it was.
pub proof fn law_push_then_pop(c: CPU, n: CPU, value: u16)
    requires
        c.Registers@.sp >= 2,
        is_ram_address(c.Registers@.sp - 2),
        is_ram_address(c.Registers@.sp - 1),
        c.pushed(n, value),
    ensures
        n.pop_defined(),
        n.top_of_stack() == value,
        n.Registers@.sp + 2 == c.Registers@.sp,
{
    law_ram_word_reads_back(c.MMU, n.MMU, (c.Registers@.sp - 2) as i32, value);
    let mid = choose|mid: crate::memory::mmu::MMU|
        #[trigger] c.MMU.wrote_byte(mid, (c.Registers@.sp - 2) as i32, (value & 0xFF) as u8)
            && mid.wrote_byte(n.MMU, (c.Registers@.sp - 1) as i32, ((value & 0xFF00) >> 8) as u8);
    assert(n.MMU.cartridge == c.MMU.cartridge && n.MMU.is_past_bios == c.MMU.is_past_bios);
}

} // verus!
