use vstd::prelude::*;
use crate::cpu::{CPU, JumpCondition, condition_holds, clock_plus};
use crate::cpu::registers::{RegisterItem, Registers, RegistersView, law_get_after_set};
use crate::cpu::op::{
    add_result, adc_result, sub_result, sbc_result, cp_result, logic_result, add_defined,
    adc_defined, sub_defined, sbc_defined, inc_result, inc_defined, dec_result, dec_defined,
    rr_byte, rrc_byte, rl_byte, rlc_byte, sla_byte, sra_byte, srl_byte, swap_byte, shift_flags,
    bit_result, daa_result, daa_defined, add_hl_result, inc_nn_value, dec_nn_value, displacement,
    sp_offset_flags,
};
use crate::memory::mmu::MMU;
use crate::memory::op_codes_parser::{Instruction, operand_value_named};

verus! {

/// What an instruction does, with the registers, conditions and bit numbers its
/// opcode selects; the operand data stays in the decoded instruction.
#[derive(Clone, Copy, PartialEq, Eq, Debug, Structural)]
pub enum Op {
    AdcAD8,
    AdcAHl,
    AdcAR(RegisterItem),
    AddAHl,
    AddAN,
    AddAR(RegisterItem),
    AddHlN(RegisterItem),
    AddSpR8,
    AndAHl,
    AndAN,
    AndAR(RegisterItem),
    BitHlPointer(u8),
    BitNR(u8, RegisterItem),
    CallA16(JumpCondition),
    Ccf,
    CpAD8,
    CpAHl,
    CpAR(RegisterItem),
    Cpl,
    Daa,
    Dec(RegisterItem),
    DecHlPointer,
    DecNn(RegisterItem),
    DisableInterrupt,
    EnableInterrupt,
    Halt,
    Inc(RegisterItem),
    IncHlPointer,
    IncNn(RegisterItem),
    JpA16(JumpCondition),
    JpHl,
    JrR8(JumpCondition),
    LdA16PointerA,
    LdA16PointerSp,
    LdAA16Pointer,
    LdAAddress(RegisterItem),
    LdACPointer,
    LdAHlDec,
    LdAHlInc,
    LdAddressValue(RegisterItem, RegisterItem),
    LdCPointerA,
    LdHlPointerD8,
    LdHlPointerDecIncA(bool),
    LdHlSpR8,
    LdNn(RegisterItem),
    LdRD8(RegisterItem),
    LdRHl(RegisterItem),
    LdRR(RegisterItem, RegisterItem),
    LdSpHl,
    LdhA8A,
    LdhAA8,
    Nop,
    OrAHl,
    OrAN,
    OrAR(RegisterItem),
    PopRr(RegisterItem),
    PushRr(RegisterItem),
    ResHlPointer(u8),
    ResNR(u8, RegisterItem),
    Ret(JumpCondition, bool),
    RlHlPointer,
    RlR(RegisterItem, bool),
    RlcHlPointer,
    RlcR(RegisterItem, bool),
    RrHlPointer,
    RrR(RegisterItem, bool),
    RrcHlPointer,
    RrcR(RegisterItem, bool),
    Rst(u16),
    SbcAD8,
    SbcAHl,
    SbcAR(RegisterItem),
    Scf,
    SetHlPointer(u8),
    SetNR(u8, RegisterItem),
    SlaHlPointer,
    SlaR(RegisterItem),
    SraHlPointer,
    SraR(RegisterItem),
    SrlHlPointer,
    SrlR(RegisterItem),
    SubAHl,
    SubAN,
    SubAR(RegisterItem),
    SwapHlPointer,
    SwapR(RegisterItem),
    XorAD8,
    XorAHl,
    XorAR(RegisterItem),
}

/// The 8-bit register that three bits of an opcode select (6, which stands for the
/// byte at HL, is decoded apart).
pub open spec fn encoded_register(z: u8) -> RegisterItem {
    if z == 0 {
        RegisterItem::B
    } else if z == 1 {
        RegisterItem::C
    } else if z == 2 {
        RegisterItem::D
    } else if z == 3 {
        RegisterItem::E
    } else if z == 4 {
        RegisterItem::H
    } else if z == 5 {
        RegisterItem::L
    } else {
        RegisterItem::A
    }
}

/// What an opcode does. In the 0xCB table, bits 7-6 select rotate/shift (then bits
/// 5-3 which one), BIT, RES or SET (then bits 5-3 the bit); bits 2-0 select the
/// register, 6 meaning the byte at HL. In the main table, 0x40-0x7F are loads between
/// registers (bits 5-3 the destination, 2-0 the source; 0x76 is HALT) and 0x80-0xBF
/// are ADD, ADC, SUB, SBC, AND, XOR, OR, CP (bits 5-3) with a register (bits 2-0);
/// the other opcodes are listed one by one.
pub open spec fn spec_op(prefixed: bool, opcode: u8) -> Op {
    let x = opcode / 64;
    let y = (opcode / 8) % 8;
    let z = opcode % 8;
    let r = encoded_register(z);
    if prefixed {
        if x == 0 {
            if z == 6 {
                if y == 0 { Op::RlcHlPointer } else if y == 1 { Op::RrcHlPointer } else if y == 2 {
                    Op::RlHlPointer
                } else if y == 3 { Op::RrHlPointer } else if y == 4 { Op::SlaHlPointer } else if y == 5 {
                    Op::SraHlPointer
                } else if y == 6 { Op::SwapHlPointer } else { Op::SrlHlPointer }
            } else {
                if y == 0 { Op::RlcR(r, true) } else if y == 1 { Op::RrcR(r, true) } else if y == 2 {
                    Op::RlR(r, true)
                } else if y == 3 { Op::RrR(r, true) } else if y == 4 { Op::SlaR(r) } else if y == 5 {
                    Op::SraR(r)
                } else if y == 6 { Op::SwapR(r) } else { Op::SrlR(r) }
            }
        } else if x == 1 {
            if z == 6 { Op::BitHlPointer(y) } else { Op::BitNR(y, r) }
        } else if x == 2 {
            if z == 6 { Op::ResHlPointer(y) } else { Op::ResNR(y, r) }
        } else {
            if z == 6 { Op::SetHlPointer(y) } else { Op::SetNR(y, r) }
        }
    } else if x == 1 {
        if opcode == 0x76 {
            Op::Halt
        } else if z == 6 {
            Op::LdRHl(encoded_register(y))
        } else if y == 6 {
            Op::LdAddressValue(RegisterItem::HL, r)
        } else {
            Op::LdRR(r, encoded_register(y))
        }
    } else if x == 2 {
        if z == 6 {
            if y == 0 { Op::AddAHl } else if y == 1 { Op::AdcAHl } else if y == 2 { Op::SubAHl } else if y == 3 {
                Op::SbcAHl
            } else if y == 4 { Op::AndAHl } else if y == 5 { Op::XorAHl } else if y == 6 { Op::OrAHl } else {
                Op::CpAHl
            }
        } else {
            if y == 0 { Op::AddAR(r) } else if y == 1 { Op::AdcAR(r) } else if y == 2 { Op::SubAR(r) } else if y == 3 {
                Op::SbcAR(r)
            } else if y == 4 { Op::AndAR(r) } else if y == 5 { Op::XorAR(r) } else if y == 6 { Op::OrAR(r) } else {
                Op::CpAR(r)
            }
        }
    } else {
        match opcode {
        0x00 => Op::Nop,
        0x01 => Op::LdNn(RegisterItem::BC),
        0x02 => Op::LdAddressValue(RegisterItem::BC, RegisterItem::A),
        0x03 => Op::IncNn(RegisterItem::BC),
        0x04 => Op::Inc(RegisterItem::B),
        0x05 => Op::Dec(RegisterItem::B),
        0x06 => Op::LdRD8(RegisterItem::B),
        0x07 => Op::RlcR(RegisterItem::A, false),
        0x08 => Op::LdA16PointerSp,
        0x09 => Op::AddHlN(RegisterItem::BC),
        0x0A => Op::LdAAddress(RegisterItem::BC),
        0x0B => Op::DecNn(RegisterItem::BC),
        0x0C => Op::Inc(RegisterItem::C),
        0x0D => Op::Dec(RegisterItem::C),
        0x0E => Op::LdRD8(RegisterItem::C),
        0x0F => Op::RrcR(RegisterItem::A, false),
        0x10 => Op::Nop,
        0x11 => Op::LdNn(RegisterItem::DE),
        0x12 => Op::LdAddressValue(RegisterItem::DE, RegisterItem::A),
        0x13 => Op::IncNn(RegisterItem::DE),
        0x14 => Op::Inc(RegisterItem::D),
        0x15 => Op::Dec(RegisterItem::D),
        0x16 => Op::LdRD8(RegisterItem::D),
        0x17 => Op::RlR(RegisterItem::A, false),
        0x18 => Op::JrR8(JumpCondition::Always),
        0x19 => Op::AddHlN(RegisterItem::DE),
        0x1A => Op::LdAAddress(RegisterItem::DE),
        0x1B => Op::DecNn(RegisterItem::DE),
        0x1C => Op::Inc(RegisterItem::E),
        0x1D => Op::Dec(RegisterItem::E),
        0x1E => Op::LdRD8(RegisterItem::E),
        0x1F => Op::RrR(RegisterItem::A, false),
        0x20 => Op::JrR8(JumpCondition::NotZero),
        0x21 => Op::LdNn(RegisterItem::HL),
        0x22 => Op::LdHlPointerDecIncA(true),
        0x23 => Op::IncNn(RegisterItem::HL),
        0x24 => Op::Inc(RegisterItem::H),
        0x25 => Op::Dec(RegisterItem::H),
        0x26 => Op::LdRD8(RegisterItem::H),
        0x27 => Op::Daa,
        0x28 => Op::JrR8(JumpCondition::Zero),
        0x29 => Op::AddHlN(RegisterItem::HL),
        0x2A => Op::LdAHlInc,
        0x2B => Op::DecNn(RegisterItem::HL),
        0x2C => Op::Inc(RegisterItem::L),
        0x2D => Op::Dec(RegisterItem::L),
        0x2E => Op::LdRD8(RegisterItem::L),
        0x2F => Op::Cpl,
        0x30 => Op::JrR8(JumpCondition::NotCarry),
        0x31 => Op::LdNn(RegisterItem::SP),
        0x32 => Op::LdHlPointerDecIncA(false),
        0x33 => Op::IncNn(RegisterItem::SP),
        0x34 => Op::IncHlPointer,
        0x35 => Op::DecHlPointer,
        0x36 => Op::LdHlPointerD8,
        0x37 => Op::Scf,
        0x38 => Op::JrR8(JumpCondition::Carry),
        0x39 => Op::AddHlN(RegisterItem::SP),
        0x3A => Op::LdAHlDec,
        0x3B => Op::DecNn(RegisterItem::SP),
        0x3C => Op::Inc(RegisterItem::A),
        0x3D => Op::Dec(RegisterItem::A),
        0x3E => Op::LdRD8(RegisterItem::A),
        0x3F => Op::Ccf,
        0xC0 => Op::Ret(JumpCondition::NotZero, false),
        0xC1 => Op::PopRr(RegisterItem::BC),
        0xC2 => Op::JpA16(JumpCondition::NotZero),
        0xC3 => Op::JpA16(JumpCondition::Always),
        0xC4 => Op::CallA16(JumpCondition::NotZero),
        0xC5 => Op::PushRr(RegisterItem::BC),
        0xC6 => Op::AddAN,
        0xC7 => Op::Rst(0x0u16),
        0xC8 => Op::Ret(JumpCondition::Zero, false),
        0xC9 => Op::Ret(JumpCondition::Always, false),
        0xCA => Op::JpA16(JumpCondition::Zero),
        0xCB => Op::Nop,
        0xCC => Op::CallA16(JumpCondition::Zero),
        0xCD => Op::CallA16(JumpCondition::Always),
        0xCE => Op::AdcAD8,
        0xCF => Op::Rst(0x8u16),
        0xD0 => Op::Ret(JumpCondition::NotCarry, false),
        0xD1 => Op::PopRr(RegisterItem::DE),
        0xD2 => Op::JpA16(JumpCondition::NotCarry),
        0xD3 => Op::Nop,
        0xD4 => Op::CallA16(JumpCondition::NotCarry),
        0xD5 => Op::PushRr(RegisterItem::DE),
        0xD6 => Op::SubAN,
        0xD7 => Op::Rst(0x10u16),
        0xD8 => Op::Ret(JumpCondition::Carry, false),
        0xD9 => Op::Ret(JumpCondition::Always, true),
        0xDA => Op::JpA16(JumpCondition::Carry),
        0xDB => Op::Nop,
        0xDC => Op::CallA16(JumpCondition::Carry),
        0xDD => Op::Nop,
        0xDE => Op::SbcAD8,
        0xDF => Op::Rst(0x18u16),
        0xE0 => Op::LdhA8A,
        0xE1 => Op::PopRr(RegisterItem::HL),
        0xE2 => Op::LdCPointerA,
        0xE3 => Op::Nop,
        0xE4 => Op::Nop,
        0xE5 => Op::PushRr(RegisterItem::HL),
        0xE6 => Op::AndAN,
        0xE7 => Op::Rst(0x20u16),
        0xE8 => Op::AddSpR8,
        0xE9 => Op::JpHl,
        0xEA => Op::LdA16PointerA,
        0xEB => Op::Nop,
        0xEC => Op::Nop,
        0xED => Op::Nop,
        0xEE => Op::XorAD8,
        0xEF => Op::Rst(0x28u16),
        0xF0 => Op::LdhAA8,
        0xF1 => Op::PopRr(RegisterItem::AF),
        0xF2 => Op::LdACPointer,
        0xF3 => Op::DisableInterrupt,
        0xF4 => Op::Nop,
        0xF5 => Op::PushRr(RegisterItem::AF),
        0xF6 => Op::OrAN,
        0xF7 => Op::Rst(0x30u16),
        0xF8 => Op::LdHlSpR8,
        0xF9 => Op::LdSpHl,
        0xFA => Op::LdAA16Pointer,
        0xFB => Op::EnableInterrupt,
        0xFC => Op::Nop,
        0xFD => Op::Nop,
        0xFE => Op::CpAD8,
        0xFF => Op::Rst(0x38u16),
            _ => Op::Nop,
        }
    }
}

/// The operation of an opcode, looked up in the instruction table.
pub fn decode_op(prefixed: bool, opcode: u8) -> (op: Op)
    ensures
        op == spec_op(prefixed, opcode),
{
    if prefixed {
        match opcode {
            0x00 => Op::RlcR(RegisterItem::B, true),
            0x01 => Op::RlcR(RegisterItem::C, true),
            0x02 => Op::RlcR(RegisterItem::D, true),
            0x03 => Op::RlcR(RegisterItem::E, true),
            0x04 => Op::RlcR(RegisterItem::H, true),
            0x05 => Op::RlcR(RegisterItem::L, true),
            0x06 => Op::RlcHlPointer,
            0x07 => Op::RlcR(RegisterItem::A, true),
            0x08 => Op::RrcR(RegisterItem::B, true),
            0x09 => Op::RrcR(RegisterItem::C, true),
            0x0A => Op::RrcR(RegisterItem::D, true),
            0x0B => Op::RrcR(RegisterItem::E, true),
            0x0C => Op::RrcR(RegisterItem::H, true),
            0x0D => Op::RrcR(RegisterItem::L, true),
            0x0E => Op::RrcHlPointer,
            0x0F => Op::RrcR(RegisterItem::A, true),
            0x10 => Op::RlR(RegisterItem::B, true),
            0x11 => Op::RlR(RegisterItem::C, true),
            0x12 => Op::RlR(RegisterItem::D, true),
            0x13 => Op::RlR(RegisterItem::E, true),
            0x14 => Op::RlR(RegisterItem::H, true),
            0x15 => Op::RlR(RegisterItem::L, true),
            0x16 => Op::RlHlPointer,
            0x17 => Op::RlR(RegisterItem::A, true),
            0x18 => Op::RrR(RegisterItem::B, true),
            0x19 => Op::RrR(RegisterItem::C, true),
            0x1A => Op::RrR(RegisterItem::D, true),
            0x1B => Op::RrR(RegisterItem::E, true),
            0x1C => Op::RrR(RegisterItem::H, true),
            0x1D => Op::RrR(RegisterItem::L, true),
            0x1E => Op::RrHlPointer,
            0x1F => Op::RrR(RegisterItem::A, true),
            0x20 => Op::SlaR(RegisterItem::B),
            0x21 => Op::SlaR(RegisterItem::C),
            0x22 => Op::SlaR(RegisterItem::D),
            0x23 => Op::SlaR(RegisterItem::E),
            0x24 => Op::SlaR(RegisterItem::H),
            0x25 => Op::SlaR(RegisterItem::L),
            0x26 => Op::SlaHlPointer,
            0x27 => Op::SlaR(RegisterItem::A),
            0x28 => Op::SraR(RegisterItem::B),
            0x29 => Op::SraR(RegisterItem::C),
            0x2A => Op::SraR(RegisterItem::D),
            0x2B => Op::SraR(RegisterItem::E),
            0x2C => Op::SraR(RegisterItem::H),
            0x2D => Op::SraR(RegisterItem::L),
            0x2E => Op::SraHlPointer,
            0x2F => Op::SraR(RegisterItem::A),
            0x30 => Op::SwapR(RegisterItem::B),
            0x31 => Op::SwapR(RegisterItem::C),
            0x32 => Op::SwapR(RegisterItem::D),
            0x33 => Op::SwapR(RegisterItem::E),
            0x34 => Op::SwapR(RegisterItem::H),
            0x35 => Op::SwapR(RegisterItem::L),
            0x36 => Op::SwapHlPointer,
            0x37 => Op::SwapR(RegisterItem::A),
            0x38 => Op::SrlR(RegisterItem::B),
            0x39 => Op::SrlR(RegisterItem::C),
            0x3A => Op::SrlR(RegisterItem::D),
            0x3B => Op::SrlR(RegisterItem::E),
            0x3C => Op::SrlR(RegisterItem::H),
            0x3D => Op::SrlR(RegisterItem::L),
            0x3E => Op::SrlHlPointer,
            0x3F => Op::SrlR(RegisterItem::A),
            0x40 => Op::BitNR(0u8, RegisterItem::B),
            0x41 => Op::BitNR(0u8, RegisterItem::C),
            0x42 => Op::BitNR(0u8, RegisterItem::D),
            0x43 => Op::BitNR(0u8, RegisterItem::E),
            0x44 => Op::BitNR(0u8, RegisterItem::H),
            0x45 => Op::BitNR(0u8, RegisterItem::L),
            0x46 => Op::BitHlPointer(0u8),
            0x47 => Op::BitNR(0u8, RegisterItem::A),
            0x48 => Op::BitNR(1u8, RegisterItem::B),
            0x49 => Op::BitNR(1u8, RegisterItem::C),
            0x4A => Op::BitNR(1u8, RegisterItem::D),
            0x4B => Op::BitNR(1u8, RegisterItem::E),
            0x4C => Op::BitNR(1u8, RegisterItem::H),
            0x4D => Op::BitNR(1u8, RegisterItem::L),
            0x4E => Op::BitHlPointer(1u8),
            0x4F => Op::BitNR(1u8, RegisterItem::A),
            0x50 => Op::BitNR(2u8, RegisterItem::B),
            0x51 => Op::BitNR(2u8, RegisterItem::C),
            0x52 => Op::BitNR(2u8, RegisterItem::D),
            0x53 => Op::BitNR(2u8, RegisterItem::E),
            0x54 => Op::BitNR(2u8, RegisterItem::H),
            0x55 => Op::BitNR(2u8, RegisterItem::L),
            0x56 => Op::BitHlPointer(2u8),
            0x57 => Op::BitNR(2u8, RegisterItem::A),
            0x58 => Op::BitNR(3u8, RegisterItem::B),
            0x59 => Op::BitNR(3u8, RegisterItem::C),
            0x5A => Op::BitNR(3u8, RegisterItem::D),
            0x5B => Op::BitNR(3u8, RegisterItem::E),
            0x5C => Op::BitNR(3u8, RegisterItem::H),
            0x5D => Op::BitNR(3u8, RegisterItem::L),
            0x5E => Op::BitHlPointer(3u8),
            0x5F => Op::BitNR(3u8, RegisterItem::A),
            0x60 => Op::BitNR(4u8, RegisterItem::B),
            0x61 => Op::BitNR(4u8, RegisterItem::C),
            0x62 => Op::BitNR(4u8, RegisterItem::D),
            0x63 => Op::BitNR(4u8, RegisterItem::E),
            0x64 => Op::BitNR(4u8, RegisterItem::H),
            0x65 => Op::BitNR(4u8, RegisterItem::L),
            0x66 => Op::BitHlPointer(4u8),
            0x67 => Op::BitNR(4u8, RegisterItem::A),
            0x68 => Op::BitNR(5u8, RegisterItem::B),
            0x69 => Op::BitNR(5u8, RegisterItem::C),
            0x6A => Op::BitNR(5u8, RegisterItem::D),
            0x6B => Op::BitNR(5u8, RegisterItem::E),
            0x6C => Op::BitNR(5u8, RegisterItem::H),
            0x6D => Op::BitNR(5u8, RegisterItem::L),
            0x6E => Op::BitHlPointer(5u8),
            0x6F => Op::BitNR(5u8, RegisterItem::A),
            0x70 => Op::BitNR(6u8, RegisterItem::B),
            0x71 => Op::BitNR(6u8, RegisterItem::C),
            0x72 => Op::BitNR(6u8, RegisterItem::D),
            0x73 => Op::BitNR(6u8, RegisterItem::E),
            0x74 => Op::BitNR(6u8, RegisterItem::H),
            0x75 => Op::BitNR(6u8, RegisterItem::L),
            0x76 => Op::BitHlPointer(6u8),
            0x77 => Op::BitNR(6u8, RegisterItem::A),
            0x78 => Op::BitNR(7u8, RegisterItem::B),
            0x79 => Op::BitNR(7u8, RegisterItem::C),
            0x7A => Op::BitNR(7u8, RegisterItem::D),
            0x7B => Op::BitNR(7u8, RegisterItem::E),
            0x7C => Op::BitNR(7u8, RegisterItem::H),
            0x7D => Op::BitNR(7u8, RegisterItem::L),
            0x7E => Op::BitHlPointer(7u8),
            0x7F => Op::BitNR(7u8, RegisterItem::A),
            0x80 => Op::ResNR(0u8, RegisterItem::B),
            0x81 => Op::ResNR(0u8, RegisterItem::C),
            0x82 => Op::ResNR(0u8, RegisterItem::D),
            0x83 => Op::ResNR(0u8, RegisterItem::E),
            0x84 => Op::ResNR(0u8, RegisterItem::H),
            0x85 => Op::ResNR(0u8, RegisterItem::L),
            0x86 => Op::ResHlPointer(0u8),
            0x87 => Op::ResNR(0u8, RegisterItem::A),
            0x88 => Op::ResNR(1u8, RegisterItem::B),
            0x89 => Op::ResNR(1u8, RegisterItem::C),
            0x8A => Op::ResNR(1u8, RegisterItem::D),
            0x8B => Op::ResNR(1u8, RegisterItem::E),
            0x8C => Op::ResNR(1u8, RegisterItem::H),
            0x8D => Op::ResNR(1u8, RegisterItem::L),
            0x8E => Op::ResHlPointer(1u8),
            0x8F => Op::ResNR(1u8, RegisterItem::A),
            0x90 => Op::ResNR(2u8, RegisterItem::B),
            0x91 => Op::ResNR(2u8, RegisterItem::C),
            0x92 => Op::ResNR(2u8, RegisterItem::D),
            0x93 => Op::ResNR(2u8, RegisterItem::E),
            0x94 => Op::ResNR(2u8, RegisterItem::H),
            0x95 => Op::ResNR(2u8, RegisterItem::L),
            0x96 => Op::ResHlPointer(2u8),
            0x97 => Op::ResNR(2u8, RegisterItem::A),
            0x98 => Op::ResNR(3u8, RegisterItem::B),
            0x99 => Op::ResNR(3u8, RegisterItem::C),
            0x9A => Op::ResNR(3u8, RegisterItem::D),
            0x9B => Op::ResNR(3u8, RegisterItem::E),
            0x9C => Op::ResNR(3u8, RegisterItem::H),
            0x9D => Op::ResNR(3u8, RegisterItem::L),
            0x9E => Op::ResHlPointer(3u8),
            0x9F => Op::ResNR(3u8, RegisterItem::A),
            0xA0 => Op::ResNR(4u8, RegisterItem::B),
            0xA1 => Op::ResNR(4u8, RegisterItem::C),
            0xA2 => Op::ResNR(4u8, RegisterItem::D),
            0xA3 => Op::ResNR(4u8, RegisterItem::E),
            0xA4 => Op::ResNR(4u8, RegisterItem::H),
            0xA5 => Op::ResNR(4u8, RegisterItem::L),
            0xA6 => Op::ResHlPointer(4u8),
            0xA7 => Op::ResNR(4u8, RegisterItem::A),
            0xA8 => Op::ResNR(5u8, RegisterItem::B),
            0xA9 => Op::ResNR(5u8, RegisterItem::C),
            0xAA => Op::ResNR(5u8, RegisterItem::D),
            0xAB => Op::ResNR(5u8, RegisterItem::E),
            0xAC => Op::ResNR(5u8, RegisterItem::H),
            0xAD => Op::ResNR(5u8, RegisterItem::L),
            0xAE => Op::ResHlPointer(5u8),
            0xAF => Op::ResNR(5u8, RegisterItem::A),
            0xB0 => Op::ResNR(6u8, RegisterItem::B),
            0xB1 => Op::ResNR(6u8, RegisterItem::C),
            0xB2 => Op::ResNR(6u8, RegisterItem::D),
            0xB3 => Op::ResNR(6u8, RegisterItem::E),
            0xB4 => Op::ResNR(6u8, RegisterItem::H),
            0xB5 => Op::ResNR(6u8, RegisterItem::L),
            0xB6 => Op::ResHlPointer(6u8),
            0xB7 => Op::ResNR(6u8, RegisterItem::A),
            0xB8 => Op::ResNR(7u8, RegisterItem::B),
            0xB9 => Op::ResNR(7u8, RegisterItem::C),
            0xBA => Op::ResNR(7u8, RegisterItem::D),
            0xBB => Op::ResNR(7u8, RegisterItem::E),
            0xBC => Op::ResNR(7u8, RegisterItem::H),
            0xBD => Op::ResNR(7u8, RegisterItem::L),
            0xBE => Op::ResHlPointer(7u8),
            0xBF => Op::ResNR(7u8, RegisterItem::A),
            0xC0 => Op::SetNR(0u8, RegisterItem::B),
            0xC1 => Op::SetNR(0u8, RegisterItem::C),
            0xC2 => Op::SetNR(0u8, RegisterItem::D),
            0xC3 => Op::SetNR(0u8, RegisterItem::E),
            0xC4 => Op::SetNR(0u8, RegisterItem::H),
            0xC5 => Op::SetNR(0u8, RegisterItem::L),
            0xC6 => Op::SetHlPointer(0u8),
            0xC7 => Op::SetNR(0u8, RegisterItem::A),
            0xC8 => Op::SetNR(1u8, RegisterItem::B),
            0xC9 => Op::SetNR(1u8, RegisterItem::C),
            0xCA => Op::SetNR(1u8, RegisterItem::D),
            0xCB => Op::SetNR(1u8, RegisterItem::E),
            0xCC => Op::SetNR(1u8, RegisterItem::H),
            0xCD => Op::SetNR(1u8, RegisterItem::L),
            0xCE => Op::SetHlPointer(1u8),
            0xCF => Op::SetNR(1u8, RegisterItem::A),
            0xD0 => Op::SetNR(2u8, RegisterItem::B),
            0xD1 => Op::SetNR(2u8, RegisterItem::C),
            0xD2 => Op::SetNR(2u8, RegisterItem::D),
            0xD3 => Op::SetNR(2u8, RegisterItem::E),
            0xD4 => Op::SetNR(2u8, RegisterItem::H),
            0xD5 => Op::SetNR(2u8, RegisterItem::L),
            0xD6 => Op::SetHlPointer(2u8),
            0xD7 => Op::SetNR(2u8, RegisterItem::A),
            0xD8 => Op::SetNR(3u8, RegisterItem::B),
            0xD9 => Op::SetNR(3u8, RegisterItem::C),
            0xDA => Op::SetNR(3u8, RegisterItem::D),
            0xDB => Op::SetNR(3u8, RegisterItem::E),
            0xDC => Op::SetNR(3u8, RegisterItem::H),
            0xDD => Op::SetNR(3u8, RegisterItem::L),
            0xDE => Op::SetHlPointer(3u8),
            0xDF => Op::SetNR(3u8, RegisterItem::A),
            0xE0 => Op::SetNR(4u8, RegisterItem::B),
            0xE1 => Op::SetNR(4u8, RegisterItem::C),
            0xE2 => Op::SetNR(4u8, RegisterItem::D),
            0xE3 => Op::SetNR(4u8, RegisterItem::E),
            0xE4 => Op::SetNR(4u8, RegisterItem::H),
            0xE5 => Op::SetNR(4u8, RegisterItem::L),
            0xE6 => Op::SetHlPointer(4u8),
            0xE7 => Op::SetNR(4u8, RegisterItem::A),
            0xE8 => Op::SetNR(5u8, RegisterItem::B),
            0xE9 => Op::SetNR(5u8, RegisterItem::C),
            0xEA => Op::SetNR(5u8, RegisterItem::D),
            0xEB => Op::SetNR(5u8, RegisterItem::E),
            0xEC => Op::SetNR(5u8, RegisterItem::H),
            0xED => Op::SetNR(5u8, RegisterItem::L),
            0xEE => Op::SetHlPointer(5u8),
            0xEF => Op::SetNR(5u8, RegisterItem::A),
            0xF0 => Op::SetNR(6u8, RegisterItem::B),
            0xF1 => Op::SetNR(6u8, RegisterItem::C),
            0xF2 => Op::SetNR(6u8, RegisterItem::D),
            0xF3 => Op::SetNR(6u8, RegisterItem::E),
            0xF4 => Op::SetNR(6u8, RegisterItem::H),
            0xF5 => Op::SetNR(6u8, RegisterItem::L),
            0xF6 => Op::SetHlPointer(6u8),
            0xF7 => Op::SetNR(6u8, RegisterItem::A),
            0xF8 => Op::SetNR(7u8, RegisterItem::B),
            0xF9 => Op::SetNR(7u8, RegisterItem::C),
            0xFA => Op::SetNR(7u8, RegisterItem::D),
            0xFB => Op::SetNR(7u8, RegisterItem::E),
            0xFC => Op::SetNR(7u8, RegisterItem::H),
            0xFD => Op::SetNR(7u8, RegisterItem::L),
            0xFE => Op::SetHlPointer(7u8),
            0xFF => Op::SetNR(7u8, RegisterItem::A),
        }
    } else {
        match opcode {
            0x00 => Op::Nop,
            0x01 => Op::LdNn(RegisterItem::BC),
            0x02 => Op::LdAddressValue(RegisterItem::BC, RegisterItem::A),
            0x03 => Op::IncNn(RegisterItem::BC),
            0x04 => Op::Inc(RegisterItem::B),
            0x05 => Op::Dec(RegisterItem::B),
            0x06 => Op::LdRD8(RegisterItem::B),
            0x07 => Op::RlcR(RegisterItem::A, false),
            0x08 => Op::LdA16PointerSp,
            0x09 => Op::AddHlN(RegisterItem::BC),
            0x0A => Op::LdAAddress(RegisterItem::BC),
            0x0B => Op::DecNn(RegisterItem::BC),
            0x0C => Op::Inc(RegisterItem::C),
            0x0D => Op::Dec(RegisterItem::C),
            0x0E => Op::LdRD8(RegisterItem::C),
            0x0F => Op::RrcR(RegisterItem::A, false),
            0x10 => Op::Nop,
            0x11 => Op::LdNn(RegisterItem::DE),
            0x12 => Op::LdAddressValue(RegisterItem::DE, RegisterItem::A),
            0x13 => Op::IncNn(RegisterItem::DE),
            0x14 => Op::Inc(RegisterItem::D),
            0x15 => Op::Dec(RegisterItem::D),
            0x16 => Op::LdRD8(RegisterItem::D),
            0x17 => Op::RlR(RegisterItem::A, false),
            0x18 => Op::JrR8(JumpCondition::Always),
            0x19 => Op::AddHlN(RegisterItem::DE),
            0x1A => Op::LdAAddress(RegisterItem::DE),
            0x1B => Op::DecNn(RegisterItem::DE),
            0x1C => Op::Inc(RegisterItem::E),
            0x1D => Op::Dec(RegisterItem::E),
            0x1E => Op::LdRD8(RegisterItem::E),
            0x1F => Op::RrR(RegisterItem::A, false),
            0x20 => Op::JrR8(JumpCondition::NotZero),
            0x21 => Op::LdNn(RegisterItem::HL),
            0x22 => Op::LdHlPointerDecIncA(true),
            0x23 => Op::IncNn(RegisterItem::HL),
            0x24 => Op::Inc(RegisterItem::H),
            0x25 => Op::Dec(RegisterItem::H),
            0x26 => Op::LdRD8(RegisterItem::H),
            0x27 => Op::Daa,
            0x28 => Op::JrR8(JumpCondition::Zero),
            0x29 => Op::AddHlN(RegisterItem::HL),
            0x2A => Op::LdAHlInc,
            0x2B => Op::DecNn(RegisterItem::HL),
            0x2C => Op::Inc(RegisterItem::L),
            0x2D => Op::Dec(RegisterItem::L),
            0x2E => Op::LdRD8(RegisterItem::L),
            0x2F => Op::Cpl,
            0x30 => Op::JrR8(JumpCondition::NotCarry),
            0x31 => Op::LdNn(RegisterItem::SP),
            0x32 => Op::LdHlPointerDecIncA(false),
            0x33 => Op::IncNn(RegisterItem::SP),
            0x34 => Op::IncHlPointer,
            0x35 => Op::DecHlPointer,
            0x36 => Op::LdHlPointerD8,
            0x37 => Op::Scf,
            0x38 => Op::JrR8(JumpCondition::Carry),
            0x39 => Op::AddHlN(RegisterItem::SP),
            0x3A => Op::LdAHlDec,
            0x3B => Op::DecNn(RegisterItem::SP),
            0x3C => Op::Inc(RegisterItem::A),
            0x3D => Op::Dec(RegisterItem::A),
            0x3E => Op::LdRD8(RegisterItem::A),
            0x3F => Op::Ccf,
            0x40 => Op::LdRR(RegisterItem::B, RegisterItem::B),
            0x41 => Op::LdRR(RegisterItem::C, RegisterItem::B),
            0x42 => Op::LdRR(RegisterItem::D, RegisterItem::B),
            0x43 => Op::LdRR(RegisterItem::E, RegisterItem::B),
            0x44 => Op::LdRR(RegisterItem::H, RegisterItem::B),
            0x45 => Op::LdRR(RegisterItem::L, RegisterItem::B),
            0x46 => Op::LdRHl(RegisterItem::B),
            0x47 => Op::LdRR(RegisterItem::A, RegisterItem::B),
            0x48 => Op::LdRR(RegisterItem::B, RegisterItem::C),
            0x49 => Op::LdRR(RegisterItem::C, RegisterItem::C),
            0x4A => Op::LdRR(RegisterItem::D, RegisterItem::C),
            0x4B => Op::LdRR(RegisterItem::E, RegisterItem::C),
            0x4C => Op::LdRR(RegisterItem::H, RegisterItem::C),
            0x4D => Op::LdRR(RegisterItem::L, RegisterItem::C),
            0x4E => Op::LdRHl(RegisterItem::C),
            0x4F => Op::LdRR(RegisterItem::A, RegisterItem::C),
            0x50 => Op::LdRR(RegisterItem::B, RegisterItem::D),
            0x51 => Op::LdRR(RegisterItem::C, RegisterItem::D),
            0x52 => Op::LdRR(RegisterItem::D, RegisterItem::D),
            0x53 => Op::LdRR(RegisterItem::E, RegisterItem::D),
            0x54 => Op::LdRR(RegisterItem::H, RegisterItem::D),
            0x55 => Op::LdRR(RegisterItem::L, RegisterItem::D),
            0x56 => Op::LdRHl(RegisterItem::D),
            0x57 => Op::LdRR(RegisterItem::A, RegisterItem::D),
            0x58 => Op::LdRR(RegisterItem::B, RegisterItem::E),
            0x59 => Op::LdRR(RegisterItem::C, RegisterItem::E),
            0x5A => Op::LdRR(RegisterItem::D, RegisterItem::E),
            0x5B => Op::LdRR(RegisterItem::E, RegisterItem::E),
            0x5C => Op::LdRR(RegisterItem::H, RegisterItem::E),
            0x5D => Op::LdRR(RegisterItem::L, RegisterItem::E),
            0x5E => Op::LdRHl(RegisterItem::E),
            0x5F => Op::LdRR(RegisterItem::A, RegisterItem::E),
            0x60 => Op::LdRR(RegisterItem::B, RegisterItem::H),
            0x61 => Op::LdRR(RegisterItem::C, RegisterItem::H),
            0x62 => Op::LdRR(RegisterItem::D, RegisterItem::H),
            0x63 => Op::LdRR(RegisterItem::E, RegisterItem::H),
            0x64 => Op::LdRR(RegisterItem::H, RegisterItem::H),
            0x65 => Op::LdRR(RegisterItem::L, RegisterItem::H),
            0x66 => Op::LdRHl(RegisterItem::H),
            0x67 => Op::LdRR(RegisterItem::A, RegisterItem::H),
            0x68 => Op::LdRR(RegisterItem::B, RegisterItem::L),
            0x69 => Op::LdRR(RegisterItem::C, RegisterItem::L),
            0x6A => Op::LdRR(RegisterItem::D, RegisterItem::L),
            0x6B => Op::LdRR(RegisterItem::E, RegisterItem::L),
            0x6C => Op::LdRR(RegisterItem::H, RegisterItem::L),
            0x6D => Op::LdRR(RegisterItem::L, RegisterItem::L),
            0x6E => Op::LdRHl(RegisterItem::L),
            0x6F => Op::LdRR(RegisterItem::A, RegisterItem::L),
            0x70 => Op::LdAddressValue(RegisterItem::HL, RegisterItem::B),
            0x71 => Op::LdAddressValue(RegisterItem::HL, RegisterItem::C),
            0x72 => Op::LdAddressValue(RegisterItem::HL, RegisterItem::D),
            0x73 => Op::LdAddressValue(RegisterItem::HL, RegisterItem::E),
            0x74 => Op::LdAddressValue(RegisterItem::HL, RegisterItem::H),
            0x75 => Op::LdAddressValue(RegisterItem::HL, RegisterItem::L),
            0x76 => Op::Halt,
            0x77 => Op::LdAddressValue(RegisterItem::HL, RegisterItem::A),
            0x78 => Op::LdRR(RegisterItem::B, RegisterItem::A),
            0x79 => Op::LdRR(RegisterItem::C, RegisterItem::A),
            0x7A => Op::LdRR(RegisterItem::D, RegisterItem::A),
            0x7B => Op::LdRR(RegisterItem::E, RegisterItem::A),
            0x7C => Op::LdRR(RegisterItem::H, RegisterItem::A),
            0x7D => Op::LdRR(RegisterItem::L, RegisterItem::A),
            0x7E => Op::LdRHl(RegisterItem::A),
            0x7F => Op::LdRR(RegisterItem::A, RegisterItem::A),
            0x80 => Op::AddAR(RegisterItem::B),
            0x81 => Op::AddAR(RegisterItem::C),
            0x82 => Op::AddAR(RegisterItem::D),
            0x83 => Op::AddAR(RegisterItem::E),
            0x84 => Op::AddAR(RegisterItem::H),
            0x85 => Op::AddAR(RegisterItem::L),
            0x86 => Op::AddAHl,
            0x87 => Op::AddAR(RegisterItem::A),
            0x88 => Op::AdcAR(RegisterItem::B),
            0x89 => Op::AdcAR(RegisterItem::C),
            0x8A => Op::AdcAR(RegisterItem::D),
            0x8B => Op::AdcAR(RegisterItem::E),
            0x8C => Op::AdcAR(RegisterItem::H),
            0x8D => Op::AdcAR(RegisterItem::L),
            0x8E => Op::AdcAHl,
            0x8F => Op::AdcAR(RegisterItem::A),
            0x90 => Op::SubAR(RegisterItem::B),
            0x91 => Op::SubAR(RegisterItem::C),
            0x92 => Op::SubAR(RegisterItem::D),
            0x93 => Op::SubAR(RegisterItem::E),
            0x94 => Op::SubAR(RegisterItem::H),
            0x95 => Op::SubAR(RegisterItem::L),
            0x96 => Op::SubAHl,
            0x97 => Op::SubAR(RegisterItem::A),
            0x98 => Op::SbcAR(RegisterItem::B),
            0x99 => Op::SbcAR(RegisterItem::C),
            0x9A => Op::SbcAR(RegisterItem::D),
            0x9B => Op::SbcAR(RegisterItem::E),
            0x9C => Op::SbcAR(RegisterItem::H),
            0x9D => Op::SbcAR(RegisterItem::L),
            0x9E => Op::SbcAHl,
            0x9F => Op::SbcAR(RegisterItem::A),
            0xA0 => Op::AndAR(RegisterItem::B),
            0xA1 => Op::AndAR(RegisterItem::C),
            0xA2 => Op::AndAR(RegisterItem::D),
            0xA3 => Op::AndAR(RegisterItem::E),
            0xA4 => Op::AndAR(RegisterItem::H),
            0xA5 => Op::AndAR(RegisterItem::L),
            0xA6 => Op::AndAHl,
            0xA7 => Op::AndAR(RegisterItem::A),
            0xA8 => Op::XorAR(RegisterItem::B),
            0xA9 => Op::XorAR(RegisterItem::C),
            0xAA => Op::XorAR(RegisterItem::D),
            0xAB => Op::XorAR(RegisterItem::E),
            0xAC => Op::XorAR(RegisterItem::H),
            0xAD => Op::XorAR(RegisterItem::L),
            0xAE => Op::XorAHl,
            0xAF => Op::XorAR(RegisterItem::A),
            0xB0 => Op::OrAR(RegisterItem::B),
            0xB1 => Op::OrAR(RegisterItem::C),
            0xB2 => Op::OrAR(RegisterItem::D),
            0xB3 => Op::OrAR(RegisterItem::E),
            0xB4 => Op::OrAR(RegisterItem::H),
            0xB5 => Op::OrAR(RegisterItem::L),
            0xB6 => Op::OrAHl,
            0xB7 => Op::OrAR(RegisterItem::A),
            0xB8 => Op::CpAR(RegisterItem::B),
            0xB9 => Op::CpAR(RegisterItem::C),
            0xBA => Op::CpAR(RegisterItem::D),
            0xBB => Op::CpAR(RegisterItem::E),
            0xBC => Op::CpAR(RegisterItem::H),
            0xBD => Op::CpAR(RegisterItem::L),
            0xBE => Op::CpAHl,
            0xBF => Op::CpAR(RegisterItem::A),
            0xC0 => Op::Ret(JumpCondition::NotZero, false),
            0xC1 => Op::PopRr(RegisterItem::BC),
            0xC2 => Op::JpA16(JumpCondition::NotZero),
            0xC3 => Op::JpA16(JumpCondition::Always),
            0xC4 => Op::CallA16(JumpCondition::NotZero),
            0xC5 => Op::PushRr(RegisterItem::BC),
            0xC6 => Op::AddAN,
            0xC7 => Op::Rst(0x0u16),
            0xC8 => Op::Ret(JumpCondition::Zero, false),
            0xC9 => Op::Ret(JumpCondition::Always, false),
            0xCA => Op::JpA16(JumpCondition::Zero),
            0xCB => Op::Nop,
            0xCC => Op::CallA16(JumpCondition::Zero),
            0xCD => Op::CallA16(JumpCondition::Always),
            0xCE => Op::AdcAD8,
            0xCF => Op::Rst(0x8u16),
            0xD0 => Op::Ret(JumpCondition::NotCarry, false),
            0xD1 => Op::PopRr(RegisterItem::DE),
            0xD2 => Op::JpA16(JumpCondition::NotCarry),
            0xD3 => Op::Nop,
            0xD4 => Op::CallA16(JumpCondition::NotCarry),
            0xD5 => Op::PushRr(RegisterItem::DE),
            0xD6 => Op::SubAN,
            0xD7 => Op::Rst(0x10u16),
            0xD8 => Op::Ret(JumpCondition::Carry, false),
            0xD9 => Op::Ret(JumpCondition::Always, true),
            0xDA => Op::JpA16(JumpCondition::Carry),
            0xDB => Op::Nop,
            0xDC => Op::CallA16(JumpCondition::Carry),
            0xDD => Op::Nop,
            0xDE => Op::SbcAD8,
            0xDF => Op::Rst(0x18u16),
            0xE0 => Op::LdhA8A,
            0xE1 => Op::PopRr(RegisterItem::HL),
            0xE2 => Op::LdCPointerA,
            0xE3 => Op::Nop,
            0xE4 => Op::Nop,
            0xE5 => Op::PushRr(RegisterItem::HL),
            0xE6 => Op::AndAN,
            0xE7 => Op::Rst(0x20u16),
            0xE8 => Op::AddSpR8,
            0xE9 => Op::JpHl,
            0xEA => Op::LdA16PointerA,
            0xEB => Op::Nop,
            0xEC => Op::Nop,
            0xED => Op::Nop,
            0xEE => Op::XorAD8,
            0xEF => Op::Rst(0x28u16),
            0xF0 => Op::LdhAA8,
            0xF1 => Op::PopRr(RegisterItem::AF),
            0xF2 => Op::LdACPointer,
            0xF3 => Op::DisableInterrupt,
            0xF4 => Op::Nop,
            0xF5 => Op::PushRr(RegisterItem::AF),
            0xF6 => Op::OrAN,
            0xF7 => Op::Rst(0x30u16),
            0xF8 => Op::LdHlSpR8,
            0xF9 => Op::LdSpHl,
            0xFA => Op::LdAA16Pointer,
            0xFB => Op::EnableInterrupt,
            0xFC => Op::Nop,
            0xFD => Op::Nop,
            0xFE => Op::CpAD8,
            0xFF => Op::Rst(0x38u16),
        }
    }
}

impl CPU {
    /// Whether performing `op`, with the operand data of `ins`, is defined.
    pub open spec fn op_pre(self, op: Op, ins: Instruction) -> bool {
        let o = self;
        match op {
            Op::AdcAD8 => {
                &&& operand_value_named(ins.operands@, "d8"@) is Some
                &&& adc_defined(o.Registers@, operand_value_named(ins.operands@, "d8"@).unwrap() as i16)
            },
            Op::AdcAHl => {
                &&& o.MMU.readable(o.Registers@.hl as i32)
                &&& adc_defined(o.Registers@, ({ let v = o.MMU.spec_read_byte(o.Registers@.hl as i32); v as i16 }))
            },
            Op::AdcAR(to_add) => adc_defined(o.Registers@, o.Registers@.get(to_add) as i16),
            Op::AddAHl => {
                &&& o.MMU.readable(o.Registers@.hl as i32)
                &&& add_defined(o.Registers@, ({ let v = o.MMU.spec_read_byte(o.Registers@.hl as i32); v as u16 }))
            },
            Op::AddAN => {
                &&& operand_value_named(ins.operands@, "d8"@) is Some
                &&& add_defined(o.Registers@, operand_value_named(ins.operands@, "d8"@).unwrap())
            },
            Op::AddAR(to_add) => add_defined(o.Registers@, o.Registers@.get(to_add)),
            Op::AddHlN(to_add) => true,
            Op::AddSpR8 => operand_value_named(ins.operands@, "r8"@) is Some,
            Op::AndAHl => o.MMU.readable(o.Registers@.hl as i32),
            Op::AndAN => operand_value_named(ins.operands@, "d8"@) is Some,
            Op::AndAR(to_and) => true,
            Op::BitHlPointer(position) => {
                &&& position < 8
                &&& o.MMU.readable(o.Registers@.hl as i32)
            },
            Op::BitNR(position, target_register) => position < 8,
            Op::CallA16(condition) => condition_holds(o.Registers@, condition) ==> {
                &&& operand_value_named(ins.operands@, "a16"@) is Some
                &&& o.push_defined(o.Registers@.pc)
            },
            Op::Ccf => true,
            Op::CpAD8 => {
                &&& operand_value_named(ins.operands@, "d8"@) is Some
                &&& sub_defined(o.Registers@, operand_value_named(ins.operands@, "d8"@).unwrap() as i16)
            },
            Op::CpAHl => o.MMU.readable(o.Registers@.hl as i32),
            Op::CpAR(to_cp) => sub_defined(o.Registers@, o.Registers@.get(to_cp) as i16),
            Op::Cpl => true,
            Op::Daa => daa_defined(o.Registers@),
            Op::Dec(to_dec) => dec_defined(o.Registers@, to_dec),
            Op::DecHlPointer => {
                &&& o.MMU.readable(o.Registers@.hl as i32)
                &&& o.MMU.writable(o.Registers@.hl as i32, ((o.MMU.spec_read_byte(o.Registers@.hl as i32) as int + 255) % 256) as u8)
            },
            Op::DecNn(name) => RegistersView::can_set(name, dec_nn_value(o.Registers@, name)),
            Op::DisableInterrupt => true,
            Op::EnableInterrupt => true,
            Op::Halt => true,
            Op::Inc(to_inc) => inc_defined(o.Registers@, to_inc),
            Op::IncHlPointer => {
                &&& o.MMU.readable(o.Registers@.hl as i32)
                &&& o.MMU.writable(o.Registers@.hl as i32, ((o.MMU.spec_read_byte(o.Registers@.hl as i32) as int + 1) % 256) as u8)
            },
            Op::IncNn(name) => RegistersView::can_set(name, inc_nn_value(o.Registers@, name)),
            Op::JpA16(condition) => {
                &&& condition_holds(o.Registers@, condition) ==> operand_value_named(ins.operands@, "a16"@) is Some
            },
            Op::JpHl => true,
            Op::JrR8(condition) => {
                &&& operand_value_named(ins.operands@, "r8"@) is Some
            },
            Op::LdA16PointerA => {
                &&& operand_value_named(ins.operands@, "a16"@) is Some
                &&& o.MMU.writable(operand_value_named(ins.operands@, "a16"@).unwrap() as i32, o.Registers@.a)
            },
            Op::LdA16PointerSp => {
                &&& operand_value_named(ins.operands@, "a16"@) is Some
                &&& operand_value_named(ins.operands@, "a16"@).unwrap() < 0xFFFF
                &&& o.MMU.writable(operand_value_named(ins.operands@, "a16"@).unwrap() as i32, (o.Registers@.sp & 0xFF) as u8)
                &&& o.MMU.writable((operand_value_named(ins.operands@, "a16"@).unwrap() + 1) as i32, ((o.Registers@.sp & 0xFF00) >> 8) as u8)
            },
            Op::LdAA16Pointer => {
                &&& operand_value_named(ins.operands@, "a16"@) is Some
                &&& o.MMU.readable(operand_value_named(ins.operands@, "a16"@).unwrap() as i32)
            },
            Op::LdAAddress(address_pointer) => o.MMU.readable(o.Registers@.get(address_pointer) as i32),
            Op::LdACPointer => o.MMU.readable((0xFF00 + o.Registers@.bc % 256) as i32),
            Op::LdAHlDec => o.MMU.readable(o.Registers@.hl as i32),
            Op::LdAHlInc => o.MMU.readable(o.Registers@.hl as i32),
            Op::LdAddressValue(address_pointer, value) => o.MMU.writable(o.Registers@.get(address_pointer) as i32, (o.Registers@.get(value) % 256) as u8),
            Op::LdCPointerA => o.MMU.writable((0xFF00 + o.Registers@.bc % 256) as i32, o.Registers@.a),
            Op::LdHlPointerD8 => {
                &&& operand_value_named(ins.operands@, "d8"@) is Some
                &&& o.MMU.writable(o.Registers@.hl as i32, (operand_value_named(ins.operands@, "d8"@).unwrap() % 256) as u8)
            },
            Op::LdHlPointerDecIncA(increase) => {
                &&& o.MMU.writable(o.Registers@.hl as i32, o.Registers@.a)
                &&& increase ==> o.Registers@.hl < 0xFFFF
                &&& !increase ==> o.Registers@.hl > 0
            },
            Op::LdHlSpR8 => operand_value_named(ins.operands@, "r8"@) is Some,
            Op::LdNn(name) => {
                &&& operand_value_named(ins.operands@, "d16"@) is Some
                &&& RegistersView::can_set(name, operand_value_named(ins.operands@, "d16"@).unwrap())
            },
            Op::LdRD8(destination) => {
                &&& operand_value_named(ins.operands@, "d8"@) is Some
                &&& RegistersView::can_set(destination, operand_value_named(ins.operands@, "d8"@).unwrap())
            },
            Op::LdRHl(to) => {
                &&& o.MMU.readable(o.Registers@.hl as i32)
                &&& RegistersView::can_set(to, o.MMU.spec_read_byte(o.Registers@.hl as i32) as u16)
            },
            Op::LdRR(from, to) => RegistersView::can_set(to, o.Registers@.get(from)),
            Op::LdSpHl => true,
            Op::LdhA8A => {
                &&& operand_value_named(ins.operands@, "a8"@) is Some
                &&& 0xFF00 + operand_value_named(ins.operands@, "a8"@).unwrap() <= 0xFFFF
                &&& o.MMU.writable((0xFF00 + operand_value_named(ins.operands@, "a8"@).unwrap()) as i32, o.Registers@.a)
            },
            Op::LdhAA8 => {
                &&& operand_value_named(ins.operands@, "a8"@) is Some
                &&& 0xFF00 + operand_value_named(ins.operands@, "a8"@).unwrap() <= 0xFFFF
                &&& o.MMU.readable((0xFF00 + operand_value_named(ins.operands@, "a8"@).unwrap()) as i32)
            },
            Op::Nop => true,
            Op::OrAHl => o.MMU.readable(o.Registers@.hl as i32),
            Op::OrAN => operand_value_named(ins.operands@, "d8"@) is Some,
            Op::OrAR(to_or) => true,
            Op::PopRr(pop_into) => {
                &&& o.pop_defined()
                &&& RegistersView::can_set(pop_into, o.top_of_stack())
            },
            Op::PushRr(to_push) => o.push_defined(o.Registers@.get(to_push)),
            Op::ResHlPointer(position) => {
                &&& position < 8
                &&& o.MMU.readable(o.Registers@.hl as i32)
                &&& o.MMU.writable(o.Registers@.hl as i32, o.MMU.spec_read_byte(o.Registers@.hl as i32) & !(1u8 << position))
            },
            Op::ResNR(position, target_register) => {
                &&& position < 8
                &&& RegistersView::can_set(target_register, (((o.Registers@.get(target_register) % 256) as u8) & !(1u8 << position)) as u16)
            },
            Op::Ret(condition, enable_interrupts) => condition_holds(o.Registers@, condition) ==> {
                &&& o.pop_defined()
            },
            Op::RlHlPointer => {
                &&& o.MMU.readable(o.Registers@.hl as i32)
                &&& o.MMU.writable(o.Registers@.hl as i32, ({ let v = o.MMU.spec_read_byte(o.Registers@.hl as i32); rl_byte(v, o.Registers@.cf) }))
            },
            Op::RlR(item, should_set_zero) => RegistersView::can_set(item, ({ let v = (o.Registers@.get(item) % 256) as u8; rl_byte(v, o.Registers@.cf) }) as u16),
            Op::RlcHlPointer => {
                &&& o.MMU.readable(o.Registers@.hl as i32)
                &&& o.MMU.writable(o.Registers@.hl as i32, ({ let v = o.MMU.spec_read_byte(o.Registers@.hl as i32); rlc_byte(v) }))
            },
            Op::RlcR(item, should_set_zero) => RegistersView::can_set(item, ({ let v = (o.Registers@.get(item) % 256) as u8; rlc_byte(v) }) as u16),
            Op::RrHlPointer => {
                &&& o.MMU.readable(o.Registers@.hl as i32)
                &&& o.MMU.writable(o.Registers@.hl as i32, ({ let v = o.MMU.spec_read_byte(o.Registers@.hl as i32); rr_byte(v, o.Registers@.cf) }))
            },
            Op::RrR(item, should_set_zero) => RegistersView::can_set(item, ({ let v = (o.Registers@.get(item) % 256) as u8; rr_byte(v, o.Registers@.cf) }) as u16),
            Op::RrcHlPointer => {
                &&& o.MMU.readable(o.Registers@.hl as i32)
                &&& o.MMU.writable(o.Registers@.hl as i32, ({ let v = o.MMU.spec_read_byte(o.Registers@.hl as i32); rrc_byte(v) }))
            },
            Op::RrcR(item, should_set_zero) => RegistersView::can_set(item, ({ let v = (o.Registers@.get(item) % 256) as u8; rrc_byte(v) }) as u16),
            Op::Rst(new_pc) => o.push_defined(o.Registers@.pc),
            Op::SbcAD8 => {
                &&& operand_value_named(ins.operands@, "d8"@) is Some
                &&& sbc_defined(o.Registers@, operand_value_named(ins.operands@, "d8"@).unwrap() as i16)
            },
            Op::SbcAHl => {
                &&& o.MMU.readable(o.Registers@.hl as i32)
                &&& sbc_defined(o.Registers@, ({ let v = o.MMU.spec_read_byte(o.Registers@.hl as i32); v as i16 }))
            },
            Op::SbcAR(to_sub) => sbc_defined(o.Registers@, o.Registers@.get(to_sub) as i16),
            Op::Scf => true,
            Op::SetHlPointer(position) => {
                &&& position < 8
                &&& o.MMU.readable(o.Registers@.hl as i32)
                &&& o.MMU.writable(o.Registers@.hl as i32, o.MMU.spec_read_byte(o.Registers@.hl as i32) | (1u8 << position))
            },
            Op::SetNR(position, target_register) => {
                &&& position < 8
                &&& RegistersView::can_set(target_register, (((o.Registers@.get(target_register) % 256) as u8) | (1u8 << position)) as u16)
            },
            Op::SlaHlPointer => {
                &&& o.MMU.readable(o.Registers@.hl as i32)
                &&& o.MMU.writable(o.Registers@.hl as i32, ({ let v = o.MMU.spec_read_byte(o.Registers@.hl as i32); sla_byte(v) }))
            },
            Op::SlaR(item) => RegistersView::can_set(item, ({ let v = (o.Registers@.get(item) % 256) as u8; sla_byte(v) }) as u16),
            Op::SraHlPointer => {
                &&& o.MMU.readable(o.Registers@.hl as i32)
                &&& o.MMU.writable(o.Registers@.hl as i32, ({ let v = o.MMU.spec_read_byte(o.Registers@.hl as i32); sra_byte(v) }))
            },
            Op::SraR(item) => RegistersView::can_set(item, ({ let v = (o.Registers@.get(item) % 256) as u8; sra_byte(v) }) as u16),
            Op::SrlHlPointer => {
                &&& o.MMU.readable(o.Registers@.hl as i32)
                &&& o.MMU.writable(o.Registers@.hl as i32, ({ let v = o.MMU.spec_read_byte(o.Registers@.hl as i32); srl_byte(v) }))
            },
            Op::SrlR(item) => RegistersView::can_set(item, ({ let v = (o.Registers@.get(item) % 256) as u8; srl_byte(v) }) as u16),
            Op::SubAHl => {
                &&& o.MMU.readable(o.Registers@.hl as i32)
                &&& sub_defined(o.Registers@, ({ let v = o.MMU.spec_read_byte(o.Registers@.hl as i32); v as i16 }))
            },
            Op::SubAN => {
                &&& operand_value_named(ins.operands@, "d8"@) is Some
                &&& sub_defined(o.Registers@, operand_value_named(ins.operands@, "d8"@).unwrap() as i16)
            },
            Op::SubAR(to_sub) => sub_defined(o.Registers@, o.Registers@.get(to_sub) as i16),
            Op::SwapHlPointer => {
                &&& o.MMU.readable(o.Registers@.hl as i32)
                &&& o.MMU.writable(o.Registers@.hl as i32, ({ let v = o.MMU.spec_read_byte(o.Registers@.hl as i32); swap_byte(v) }))
            },
            Op::SwapR(item) => RegistersView::can_set(item, ({ let v = (o.Registers@.get(item) % 256) as u8; swap_byte(v) }) as u16),
            Op::XorAD8 => operand_value_named(ins.operands@, "d8"@) is Some,
            Op::XorAHl => o.MMU.readable(o.Registers@.hl as i32),
            Op::XorAR(to_xor) => true,
        }
    }

    /// `n` is `self` after performing `op` with the operand data of `ins`.
    pub open spec fn op_post(self, n: CPU, op: Op, ins: Instruction) -> bool {
        let o = self;
        match op {
            Op::AdcAD8 => {
                &&& n.Registers@ == adc_result(o.Registers@, operand_value_named(ins.operands@, "d8"@).unwrap() as i16)
                &&& o.same_but_registers(n)
            },
            Op::AdcAHl => {
                &&& n.Registers@ == adc_result(o.Registers@, ({ let v = o.MMU.spec_read_byte(o.Registers@.hl as i32); v as i16 }))
                &&& o.same_but_registers(n)
            },
            Op::AdcAR(to_add) => {
                &&& n.Registers@ == adc_result(o.Registers@, o.Registers@.get(to_add) as i16)
                &&& o.same_but_registers(n)
            },
            Op::AddAHl => {
                &&& n.Registers@ == add_result(o.Registers@, ({ let v = o.MMU.spec_read_byte(o.Registers@.hl as i32); v as u16 }))
                &&& o.same_but_registers(n)
            },
            Op::AddAN => {
                &&& n.Registers@ == add_result(o.Registers@, operand_value_named(ins.operands@, "d8"@).unwrap())
                &&& o.same_but_registers(n)
            },
            Op::AddAR(to_add) => {
                &&& n.Registers@ == add_result(o.Registers@, o.Registers@.get(to_add))
                &&& o.same_but_registers(n)
            },
            Op::AddHlN(to_add) => {
                &&& n.Registers@ == add_hl_result(o.Registers@, o.Registers@.get(to_add))
                &&& o.same_but_registers(n)
            },
            Op::AddSpR8 => {
                &&& ({
                let r = o.Registers@;
                let off = displacement(operand_value_named(ins.operands@, "r8"@).unwrap());
                n.Registers@ == (RegistersView {
                    sp: ((r.sp as int + off) % 0x10000) as u16,
                    ..sp_offset_flags(r, off, false)
                })
            })
                &&& o.same_but_registers(n)
            },
            Op::AndAHl => {
                &&& n.Registers@ == logic_result(o.Registers@, o.Registers@.a & o.MMU.spec_read_byte(o.Registers@.hl as i32), true)
                &&& o.same_but_registers(n)
            },
            Op::AndAN => {
                &&& n.Registers@ == logic_result(o.Registers@, o.Registers@.a & ((operand_value_named(ins.operands@, "d8"@).unwrap() as i16) as u8), true)
                &&& o.same_but_registers(n)
            },
            Op::AndAR(to_and) => {
                &&& n.Registers@ == logic_result(o.Registers@, o.Registers@.a & ((o.Registers@.get(to_and) as i16) as u8), true)
                &&& o.same_but_registers(n)
            },
            Op::BitHlPointer(position) => {
                &&& n.Registers@ == bit_result(
                o.Registers@,
                position,
                o.MMU.spec_read_byte(o.Registers@.hl as i32)
                )
                &&& o.same_but_registers(n)
            },
            Op::BitNR(position, target_register) => {
                &&& n.Registers@ == bit_result(
                o.Registers@,
                position,
                (o.Registers@.get(target_register) % 256) as u8
                )
                &&& o.same_but_registers(n)
            },
            Op::CallA16(condition) => {
                &&& ({
                let r = o.Registers@;
                if condition_holds(r, condition) {
                    &&& n.Registers@ == (RegistersView { pc: operand_value_named(ins.operands@, "a16"@).unwrap(), sp: (r.sp - 2) as u16, ..r })
                    &&& o.MMU.wrote_word(n.MMU, (r.sp - 2) as i32, r.pc)
                    &&& n.clock == if condition != JumpCondition::Always { clock_plus(o.clock, 12) } else { o.clock as int }
                } else {
                    &&& n.Registers@ == r
                    &&& n.MMU == o.MMU
                    &&& n.clock == o.clock
                }
            })
                &&& n.is_halted == o.is_halted
                &&& n.logging == o.logging
            },
            Op::Ccf => {
                &&& n.Registers@ == (RegistersView { cf: !o.Registers@.cf, nf: false, hf: false, ..o.Registers@ })
                &&& o.same_but_registers(n)
            },
            Op::CpAD8 => {
                &&& n.Registers@ == cp_result(o.Registers@, operand_value_named(ins.operands@, "d8"@).unwrap() as i16)
                &&& o.same_but_registers(n)
            },
            Op::CpAHl => {
                &&& n.Registers@ == cp_result(o.Registers@, o.MMU.spec_read_byte(o.Registers@.hl as i32) as i16)
                &&& o.same_but_registers(n)
            },
            Op::CpAR(to_cp) => {
                &&& n.Registers@ == cp_result(o.Registers@, o.Registers@.get(to_cp) as i16)
                &&& o.same_but_registers(n)
            },
            Op::Cpl => {
                &&& n.Registers@ == (RegistersView { a: !o.Registers@.a, nf: true, hf: true, ..o.Registers@ })
                &&& o.same_but_registers(n)
            },
            Op::Daa => {
                &&& n.Registers@ == daa_result(o.Registers@)
                &&& o.same_but_registers(n)
            },
            Op::Dec(to_dec) => {
                &&& n.Registers@ == dec_result(o.Registers@, to_dec)
                &&& o.same_but_registers(n)
            },
            Op::DecHlPointer => {
                &&& ({
                let hl = o.Registers@.hl as i32;
                let v = o.MMU.spec_read_byte(hl);
                &&& o.MMU.wrote_byte(n.MMU, hl, ((v as int + 255) % 256) as u8)
                &&& n.MMU.readable(hl)
                &&& n.Registers@ == (RegistersView { nf: true, hf: v % 16 == 0, zf: n.MMU.spec_read_byte(hl) == 0, ..o.Registers@ })
            })
                &&& o.same_but_registers_and_bus(n)
            },
            Op::DecNn(name) => {
                &&& n.Registers@ == o.Registers@.set(name, dec_nn_value(o.Registers@, name))
                &&& o.same_but_registers(n)
            },
            Op::DisableInterrupt => n == (CPU { MMU: MMU { interrupt_master_enabled: false, ..o.MMU }, ..o }),
            Op::EnableInterrupt => n == (CPU { MMU: MMU { interrupt_master_enabled: true, ..o.MMU }, ..o }),
            Op::Halt => n == (CPU { is_halted: true, ..o }),
            Op::Inc(to_inc) => {
                &&& n.Registers@ == inc_result(o.Registers@, to_inc)
                &&& o.same_but_registers(n)
            },
            Op::IncHlPointer => {
                &&& ({
                let hl = o.Registers@.hl as i32;
                let v = o.MMU.spec_read_byte(hl);
                &&& o.MMU.wrote_byte(n.MMU, hl, ((v as int + 1) % 256) as u8)
                &&& n.MMU.readable(hl)
                &&& n.Registers@ == (RegistersView { nf: false, hf: v % 16 == 15, zf: n.MMU.spec_read_byte(hl) == 0, ..o.Registers@ })
            })
                &&& o.same_but_registers_and_bus(n)
            },
            Op::IncNn(name) => {
                &&& n.Registers@ == o.Registers@.set(name, inc_nn_value(o.Registers@, name))
                &&& o.same_but_registers(n)
            },
            Op::JpA16(condition) => {
                &&& ({
                let r = o.Registers@;
                if condition_holds(r, condition) {
                    &&& n.Registers@ == (RegistersView { pc: operand_value_named(ins.operands@, "a16"@).unwrap(), ..r })
                    &&& n.clock == if condition != JumpCondition::Always { clock_plus(o.clock, 12) } else { o.clock as int }
                } else {
                    &&& n.Registers@ == r
                    &&& n.clock == o.clock
                }
            })
                &&& n.MMU == o.MMU
                &&& n.is_halted == o.is_halted
                &&& n.logging == o.logging
            },
            Op::JpHl => {
                &&& n.Registers@ == (RegistersView { pc: o.Registers@.hl, ..o.Registers@ })
                &&& o.same_but_registers(n)
            },
            Op::JrR8(condition) => {
                &&& ({
                let r = o.Registers@;
                let off = displacement(operand_value_named(ins.operands@, "r8"@).unwrap());
                if condition_holds(r, condition) {
                    &&& n.Registers@ == (RegistersView { pc: ((r.pc as int + off) % 0x10000) as u16, ..r })
                    &&& n.clock == if condition != JumpCondition::Always { clock_plus(o.clock, 4) } else { o.clock as int }
                } else {
                    &&& n.Registers@ == r
                    &&& n.clock == o.clock
                }
            })
                &&& n.MMU == o.MMU
                &&& n.is_halted == o.is_halted
                &&& n.logging == o.logging
            },
            Op::LdA16PointerA => {
                &&& o.MMU.wrote_byte(n.MMU, operand_value_named(ins.operands@, "a16"@).unwrap() as i32, o.Registers@.a)
                &&& n.Registers == o.Registers
                &&& o.same_but_registers_and_bus(n)
            },
            Op::LdA16PointerSp => {
                &&& o.MMU.wrote_word(n.MMU, operand_value_named(ins.operands@, "a16"@).unwrap() as i32, o.Registers@.sp)
                &&& n.Registers == o.Registers
                &&& o.same_but_registers_and_bus(n)
            },
            Op::LdAA16Pointer => {
                &&& n.Registers@ == (RegistersView { a: o.MMU.spec_read_byte(operand_value_named(ins.operands@, "a16"@).unwrap() as i32), ..o.Registers@ })
                &&& o.same_but_registers(n)
            },
            Op::LdAAddress(address_pointer) => {
                &&& n.Registers@ == (RegistersView { a: o.MMU.spec_read_byte(o.Registers@.get(address_pointer) as i32), ..o.Registers@ })
                &&& o.same_but_registers(n)
            },
            Op::LdACPointer => {
                &&& n.Registers@ == (RegistersView { a: o.MMU.spec_read_byte((0xFF00 + o.Registers@.bc % 256) as i32), ..o.Registers@ })
                &&& o.same_but_registers(n)
            },
            Op::LdAHlDec => {
                let r = RegistersView { a: o.MMU.spec_read_byte(o.Registers@.hl as i32), ..o.Registers@ };
                &&& n.Registers@ == r.set(RegisterItem::HL, dec_nn_value(r, RegisterItem::HL))
                &&& o.same_but_registers(n)
            },
            Op::LdAHlInc => {
                let r = RegistersView { a: o.MMU.spec_read_byte(o.Registers@.hl as i32), ..o.Registers@ };
                &&& n.Registers@ == r.set(RegisterItem::HL, inc_nn_value(r, RegisterItem::HL))
                &&& o.same_but_registers(n)
            },
            Op::LdAddressValue(address_pointer, value) => {
                &&& o.MMU.wrote_byte(n.MMU, o.Registers@.get(address_pointer) as i32, (o.Registers@.get(value) % 256) as u8)
                &&& n.Registers == o.Registers
                &&& o.same_but_registers_and_bus(n)
            },
            Op::LdCPointerA => {
                &&& o.MMU.wrote_byte(n.MMU, (0xFF00 + o.Registers@.bc % 256) as i32, o.Registers@.a)
                &&& n.Registers == o.Registers
                &&& o.same_but_registers_and_bus(n)
            },
            Op::LdHlPointerD8 => {
                &&& o.MMU.wrote_byte(n.MMU, o.Registers@.hl as i32, (operand_value_named(ins.operands@, "d8"@).unwrap() % 256) as u8)
                &&& n.Registers == o.Registers
                &&& o.same_but_registers_and_bus(n)
            },
            Op::LdHlPointerDecIncA(increase) => {
                &&& o.MMU.wrote_byte(n.MMU, o.Registers@.hl as i32, o.Registers@.a)
                &&& n.Registers@ == (RegistersView { hl: (if increase { o.Registers@.hl + 1 } else { o.Registers@.hl - 1 }) as u16, ..o.Registers@ })
                &&& o.same_but_registers_and_bus(n)
            },
            Op::LdHlSpR8 => {
                &&& ({
                let r = o.Registers@;
                let off = displacement(operand_value_named(ins.operands@, "r8"@).unwrap());
                n.Registers@ == (RegistersView {
                    hl: ((r.sp as int + off) % 0x10000) as u16,
                    ..sp_offset_flags(r, off, r.sp as int + off > 0xFFFF || r.sp as int + off < 0)
                })
            })
                &&& o.same_but_registers(n)
            },
            Op::LdNn(name) => {
                &&& n.Registers@ == o.Registers@.set(name, operand_value_named(ins.operands@, "d16"@).unwrap())
                &&& o.same_but_registers(n)
            },
            Op::LdRD8(destination) => {
                &&& n.Registers@ == o.Registers@.set(destination, operand_value_named(ins.operands@, "d8"@).unwrap())
                &&& o.same_but_registers(n)
            },
            Op::LdRHl(to) => {
                &&& n.Registers@ == o.Registers@.set(to, o.MMU.spec_read_byte(o.Registers@.hl as i32) as u16)
                &&& o.same_but_registers(n)
            },
            Op::LdRR(from, to) => {
                &&& n.Registers@ == o.Registers@.set(to, o.Registers@.get(from))
                &&& o.same_but_registers(n)
            },
            Op::LdSpHl => {
                &&& n.Registers@ == (RegistersView { sp: o.Registers@.hl, ..o.Registers@ })
                &&& o.same_but_registers(n)
            },
            Op::LdhA8A => {
                &&& o.MMU.wrote_byte(n.MMU, (0xFF00 + operand_value_named(ins.operands@, "a8"@).unwrap()) as i32, o.Registers@.a)
                &&& n.Registers == o.Registers
                &&& o.same_but_registers_and_bus(n)
            },
            Op::LdhAA8 => {
                &&& n.Registers@ == (RegistersView { a: o.MMU.spec_read_byte((0xFF00 + operand_value_named(ins.operands@, "a8"@).unwrap()) as i32), ..o.Registers@ })
                &&& o.same_but_registers(n)
            },
            Op::Nop => n == o,
            Op::OrAHl => {
                &&& n.Registers@ == logic_result(o.Registers@, o.Registers@.a | o.MMU.spec_read_byte(o.Registers@.hl as i32), false)
                &&& o.same_but_registers(n)
            },
            Op::OrAN => {
                &&& n.Registers@ == logic_result(o.Registers@, o.Registers@.a | ((operand_value_named(ins.operands@, "d8"@).unwrap() as i16) as u8), false)
                &&& o.same_but_registers(n)
            },
            Op::OrAR(to_or) => {
                &&& n.Registers@ == logic_result(o.Registers@, o.Registers@.a | ((o.Registers@.get(to_or) as i16) as u8), false)
                &&& o.same_but_registers(n)
            },
            Op::PopRr(pop_into) => {
                &&& n.Registers@ == (RegistersView { sp: (o.Registers@.sp + 2) as u16, ..o.Registers@ }).set(pop_into, o.top_of_stack())
                &&& o.same_but_registers(n)
            },
            Op::PushRr(to_push) => o.pushed(n, o.Registers@.get(to_push)),
            Op::ResHlPointer(position) => {
                &&& o.MMU.wrote_byte(
                n.MMU,
                o.Registers@.hl as i32,
                o.MMU.spec_read_byte(o.Registers@.hl as i32) & !(1u8 << position)
                )
                &&& n.Registers == o.Registers
                &&& o.same_but_registers_and_bus(n)
            },
            Op::ResNR(position, target_register) => {
                &&& n.Registers@ == o.Registers@.set(
                target_register,
                (((o.Registers@.get(target_register) % 256) as u8) & !(1u8 << position)) as u16
                )
                &&& o.same_but_registers(n)
            },
            Op::Ret(condition, enable_interrupts) => {
                &&& ({
                let r = o.Registers@;
                if condition_holds(r, condition) {
                    &&& n.Registers@ == (RegistersView { pc: o.top_of_stack(), sp: (r.sp + 2) as u16, ..r })
                    &&& n.MMU == (if enable_interrupts { crate::memory::mmu::MMU { interrupt_master_enabled: true, ..o.MMU } } else { o.MMU })
                    &&& n.clock == if condition != JumpCondition::Always { clock_plus(o.clock, 12) } else { o.clock as int }
                } else {
                    &&& n.Registers@ == r
                    &&& n.MMU == o.MMU
                    &&& n.clock == o.clock
                }
            })
                &&& n.is_halted == o.is_halted
                &&& n.logging == o.logging
            },
            Op::RlHlPointer => {
                &&& ({
                let hl = o.Registers@.hl as i32;
                let v = o.MMU.spec_read_byte(hl);
                let res = rl_byte(v, o.Registers@.cf);
                &&& n.Registers@ == shift_flags(o.Registers@, res == 0, v >= 128)
                &&& o.MMU.wrote_byte(n.MMU, hl, res)
            })
                &&& o.same_but_registers_and_bus(n)
            },
            Op::RlR(item, should_set_zero) => {
                &&& ({
                let v = (o.Registers@.get(item) % 256) as u8;
                let res = rl_byte(v, o.Registers@.cf);
                n.Registers@ == shift_flags(o.Registers@, should_set_zero && res == 0, v >= 128).set(item, res as u16)
            })
                &&& o.same_but_registers(n)
            },
            Op::RlcHlPointer => {
                &&& ({
                let hl = o.Registers@.hl as i32;
                let v = o.MMU.spec_read_byte(hl);
                let res = rlc_byte(v);
                &&& n.Registers@ == shift_flags(o.Registers@, res == 0, v >= 128)
                &&& o.MMU.wrote_byte(n.MMU, hl, res)
            })
                &&& o.same_but_registers_and_bus(n)
            },
            Op::RlcR(item, should_set_zero) => {
                &&& ({
                let v = (o.Registers@.get(item) % 256) as u8;
                let res = rlc_byte(v);
                n.Registers@ == shift_flags(o.Registers@, should_set_zero && res == 0, v >= 128).set(item, res as u16)
            })
                &&& o.same_but_registers(n)
            },
            Op::RrHlPointer => {
                &&& ({
                let hl = o.Registers@.hl as i32;
                let v = o.MMU.spec_read_byte(hl);
                let res = rr_byte(v, o.Registers@.cf);
                &&& n.Registers@ == shift_flags(o.Registers@, res == 0, v % 2 == 1)
                &&& o.MMU.wrote_byte(n.MMU, hl, res)
            })
                &&& o.same_but_registers_and_bus(n)
            },
            Op::RrR(item, should_set_zero) => {
                &&& ({
                let v = (o.Registers@.get(item) % 256) as u8;
                let res = rr_byte(v, o.Registers@.cf);
                n.Registers@ == shift_flags(o.Registers@, should_set_zero && res == 0, v % 2 == 1).set(item, res as u16)
            })
                &&& o.same_but_registers(n)
            },
            Op::RrcHlPointer => {
                &&& ({
                let hl = o.Registers@.hl as i32;
                let v = o.MMU.spec_read_byte(hl);
                let res = rrc_byte(v);
                &&& n.Registers@ == shift_flags(o.Registers@, res == 0, v % 2 == 1)
                &&& o.MMU.wrote_byte(n.MMU, hl, res)
            })
                &&& o.same_but_registers_and_bus(n)
            },
            Op::RrcR(item, should_set_zero) => {
                &&& ({
                let v = (o.Registers@.get(item) % 256) as u8;
                let res = rrc_byte(v);
                n.Registers@ == shift_flags(o.Registers@, should_set_zero && res == 0, v % 2 == 1).set(item, res as u16)
            })
                &&& o.same_but_registers(n)
            },
            Op::Rst(new_pc) => ({
                &&& n.Registers@ == (RegistersView { pc: new_pc, sp: (o.Registers@.sp - 2) as u16, ..o.Registers@ })
                &&& o.MMU.wrote_word(n.MMU, (o.Registers@.sp - 2) as i32, o.Registers@.pc)
                &&& o.same_but_registers_and_bus(n)
            }),
            Op::SbcAD8 => {
                &&& n.Registers@ == sbc_result(o.Registers@, operand_value_named(ins.operands@, "d8"@).unwrap() as i16)
                &&& o.same_but_registers(n)
            },
            Op::SbcAHl => {
                &&& n.Registers@ == sbc_result(o.Registers@, ({ let v = o.MMU.spec_read_byte(o.Registers@.hl as i32); v as i16 }))
                &&& o.same_but_registers(n)
            },
            Op::SbcAR(to_sub) => {
                &&& n.Registers@ == sbc_result(o.Registers@, o.Registers@.get(to_sub) as i16)
                &&& o.same_but_registers(n)
            },
            Op::Scf => {
                &&& n.Registers@ == (RegistersView { cf: true, nf: false, hf: false, ..o.Registers@ })
                &&& o.same_but_registers(n)
            },
            Op::SetHlPointer(position) => {
                &&& o.MMU.wrote_byte(
                n.MMU,
                o.Registers@.hl as i32,
                o.MMU.spec_read_byte(o.Registers@.hl as i32) | (1u8 << position)
                )
                &&& n.Registers == o.Registers
                &&& o.same_but_registers_and_bus(n)
            },
            Op::SetNR(position, target_register) => {
                &&& n.Registers@ == o.Registers@.set(
                target_register,
                (((o.Registers@.get(target_register) % 256) as u8) | (1u8 << position)) as u16
                )
                &&& o.same_but_registers(n)
            },
            Op::SlaHlPointer => {
                &&& ({
                let hl = o.Registers@.hl as i32;
                let v = o.MMU.spec_read_byte(hl);
                let res = sla_byte(v);
                &&& n.Registers@ == shift_flags(o.Registers@, res == 0, v >= 128)
                &&& o.MMU.wrote_byte(n.MMU, hl, res)
            })
                &&& o.same_but_registers_and_bus(n)
            },
            Op::SlaR(item) => {
                &&& ({
                let v = (o.Registers@.get(item) % 256) as u8;
                let res = sla_byte(v);
                n.Registers@ == shift_flags(o.Registers@, res == 0, v >= 128).set(item, res as u16)
            })
                &&& o.same_but_registers(n)
            },
            Op::SraHlPointer => {
                &&& ({
                let hl = o.Registers@.hl as i32;
                let v = o.MMU.spec_read_byte(hl);
                let res = sra_byte(v);
                &&& n.Registers@ == shift_flags(o.Registers@, res == 0, v % 2 == 1)
                &&& o.MMU.wrote_byte(n.MMU, hl, res)
            })
                &&& o.same_but_registers_and_bus(n)
            },
            Op::SraR(item) => {
                &&& ({
                let v = (o.Registers@.get(item) % 256) as u8;
                let res = sra_byte(v);
                n.Registers@ == shift_flags(o.Registers@, res == 0, v % 2 == 1).set(item, res as u16)
            })
                &&& o.same_but_registers(n)
            },
            Op::SrlHlPointer => {
                &&& ({
                let hl = o.Registers@.hl as i32;
                let v = o.MMU.spec_read_byte(hl);
                let res = srl_byte(v);
                &&& n.Registers@ == shift_flags(o.Registers@, res == 0, v % 2 == 1)
                &&& o.MMU.wrote_byte(n.MMU, hl, res)
            })
                &&& o.same_but_registers_and_bus(n)
            },
            Op::SrlR(item) => {
                &&& ({
                let v = (o.Registers@.get(item) % 256) as u8;
                let res = srl_byte(v);
                n.Registers@ == shift_flags(o.Registers@, res == 0, v % 2 == 1).set(item, res as u16)
            })
                &&& o.same_but_registers(n)
            },
            Op::SubAHl => {
                &&& n.Registers@ == sub_result(o.Registers@, ({ let v = o.MMU.spec_read_byte(o.Registers@.hl as i32); v as i16 }))
                &&& o.same_but_registers(n)
            },
            Op::SubAN => {
                &&& n.Registers@ == sub_result(o.Registers@, operand_value_named(ins.operands@, "d8"@).unwrap() as i16)
                &&& o.same_but_registers(n)
            },
            Op::SubAR(to_sub) => {
                &&& n.Registers@ == sub_result(o.Registers@, o.Registers@.get(to_sub) as i16)
                &&& o.same_but_registers(n)
            },
            Op::SwapHlPointer => {
                &&& ({
                let hl = o.Registers@.hl as i32;
                let v = o.MMU.spec_read_byte(hl);
                let res = swap_byte(v);
                &&& n.Registers@ == shift_flags(o.Registers@, res == 0, false)
                &&& o.MMU.wrote_byte(n.MMU, hl, res)
            })
                &&& o.same_but_registers_and_bus(n)
            },
            Op::SwapR(item) => {
                &&& ({
                let v = (o.Registers@.get(item) % 256) as u8;
                let res = swap_byte(v);
                n.Registers@ == shift_flags(o.Registers@, res == 0, false).set(item, res as u16)
            })
                &&& o.same_but_registers(n)
            },
            Op::XorAD8 => {
                &&& n.Registers@ == logic_result(o.Registers@, o.Registers@.a ^ ((operand_value_named(ins.operands@, "d8"@).unwrap() as i16) as u8), false)
                &&& o.same_but_registers(n)
            },
            Op::XorAHl => {
                &&& n.Registers@ == logic_result(o.Registers@, o.Registers@.a ^ o.MMU.spec_read_byte(o.Registers@.hl as i32), false)
                &&& o.same_but_registers(n)
            },
            Op::XorAR(to_xor) => {
                &&& n.Registers@ == logic_result(o.Registers@, o.Registers@.a ^ ((o.Registers@.get(to_xor) as i16) as u8), false)
                &&& o.same_but_registers(n)
            },
        }
    }

    /// Performs `op` with the operand data of `instruction`.
    pub fn apply_op(&mut self, op: Op, instruction: Instruction)
        requires
            old(self).op_pre(op, instruction),
        ensures
            old(self).op_post(*final(self), op, instruction),
    {
        match op {
            Op::AdcAD8 | Op::AdcAHl | Op::AdcAR(..) | Op::AddAHl | Op::AddAN | Op::AddAR(..) | Op::AddHlN(..) | Op::AddSpR8 | Op::AndAHl | Op::AndAN | Op::AndAR(..) | Op::BitHlPointer(..) => self.apply_adc_to_bit_hl(op, instruction),
            Op::BitNR(..) | Op::CallA16(..) | Op::Ccf | Op::CpAD8 | Op::CpAHl | Op::CpAR(..) | Op::Cpl | Op::Daa | Op::Dec(..) | Op::DecHlPointer | Op::DecNn(..) | Op::DisableInterrupt => self.apply_bit_r_to_di(op, instruction),
            Op::EnableInterrupt | Op::Halt | Op::Inc(..) | Op::IncHlPointer | Op::IncNn(..) | Op::JpA16(..) | Op::JpHl | Op::JrR8(..) | Op::LdA16PointerA | Op::LdA16PointerSp | Op::LdAA16Pointer | Op::LdAAddress(..) => self.apply_ei_to_ld_a_address(op, instruction),
            Op::LdACPointer | Op::LdAHlDec | Op::LdAHlInc | Op::LdAddressValue(..) | Op::LdCPointerA | Op::LdHlPointerD8 | Op::LdHlPointerDecIncA(..) | Op::LdHlSpR8 | Op::LdNn(..) | Op::LdRD8(..) | Op::LdRHl(..) | Op::LdRR(..) => self.apply_ld_a_c_to_ld_r_r(op, instruction),
            Op::LdSpHl | Op::LdhA8A | Op::LdhAA8 | Op::Nop | Op::OrAHl | Op::OrAN | Op::OrAR(..) | Op::PopRr(..) | Op::PushRr(..) | Op::ResHlPointer(..) | Op::ResNR(..) | Op::Ret(..) => self.apply_ld_sp_hl_to_ret(op, instruction),
            Op::RlHlPointer | Op::RlR(..) | Op::RlcHlPointer | Op::RlcR(..) | Op::RrHlPointer | Op::RrR(..) | Op::RrcHlPointer | Op::RrcR(..) | Op::Rst(..) | Op::SbcAD8 | Op::SbcAHl | Op::SbcAR(..) => self.apply_rl_hl_to_sbc(op, instruction),
            Op::Scf | Op::SetHlPointer(..) | Op::SetNR(..) | Op::SlaHlPointer | Op::SlaR(..) | Op::SraHlPointer | Op::SraR(..) | Op::SrlHlPointer | Op::SrlR(..) | Op::SubAHl | Op::SubAN | Op::SubAR(..) => self.apply_scf_to_sub(op, instruction),
            Op::SwapHlPointer | Op::SwapR(..) | Op::XorAD8 | Op::XorAHl | Op::XorAR(..) => self.apply_swap_to_xor(op, instruction),
        }
    }

    /// `apply_op` for one alphabetical run of the operations (those named in `requires`).
    fn apply_adc_to_bit_hl(&mut self, op: Op, instruction: Instruction)
        requires
            old(self).op_pre(op, instruction),
            op is AdcAD8 || op is AdcAHl || op is AdcAR || op is AddAHl || op is AddAN || op is AddAR || op is AddHlN || op is AddSpR8 || op is AndAHl || op is AndAN || op is AndAR || op is BitHlPointer,
        ensures
            old(self).op_post(*final(self), op, instruction),
    {
        match op {
            Op::AdcAD8 => self.adc_a_d8(instruction),
            Op::AdcAHl => self.adc_a_hl(),
            Op::AdcAR(to_add) => self.adc_a_r(to_add),
            Op::AddAHl => self.add_a_hl(),
            Op::AddAN => self.add_a_n(instruction.operands),
            Op::AddAR(to_add) => self.add_a_r(to_add),
            Op::AddHlN(to_add) => self.add_hl_n(to_add),
            Op::AddSpR8 => self.add_sp_r8(instruction),
            Op::AndAHl => self.and_a_hl(),
            Op::AndAN => self.and_a_n(instruction.operands),
            Op::AndAR(to_and) => self.and_a_r(to_and),
            Op::BitHlPointer(position) => self.bit_hl_pointer(position),
            _ => {},
        }
    }

    /// `apply_op` for one alphabetical run of the operations (those named in `requires`).
    fn apply_bit_r_to_di(&mut self, op: Op, instruction: Instruction)
        requires
            old(self).op_pre(op, instruction),
            op is BitNR || op is CallA16 || op is Ccf || op is CpAD8 || op is CpAHl || op is CpAR || op is Cpl || op is Daa || op is Dec || op is DecHlPointer || op is DecNn || op is DisableInterrupt,
        ensures
            old(self).op_post(*final(self), op, instruction),
    {
        match op {
            Op::BitNR(position, target_register) => self.bit_n_r(position, target_register),
            Op::CallA16(condition) => self.call_a16(instruction, condition),
            Op::Ccf => self.ccf(),
            Op::CpAD8 => self.cp_a_d8(instruction),
            Op::CpAHl => self.cp_a_hl(),
            Op::CpAR(to_cp) => self.cp_a_r(to_cp),
            Op::Cpl => self.cpl(),
            Op::Daa => self.daa(),
            Op::Dec(to_dec) => self.dec(to_dec),
            Op::DecHlPointer => self.dec_hl_pointer(),
            Op::DecNn(name) => self.dec_nn(name),
            Op::DisableInterrupt => self.disable_interrupt(),
            _ => {},
        }
    }

    /// `apply_op` for one alphabetical run of the operations (those named in `requires`).
    fn apply_ei_to_ld_a_address(&mut self, op: Op, instruction: Instruction)
        requires
            old(self).op_pre(op, instruction),
            op is EnableInterrupt || op is Halt || op is Inc || op is IncHlPointer || op is IncNn || op is JpA16 || op is JpHl || op is JrR8 || op is LdA16PointerA || op is LdA16PointerSp || op is LdAA16Pointer || op is LdAAddress,
        ensures
            old(self).op_post(*final(self), op, instruction),
    {
        match op {
            Op::EnableInterrupt => self.enable_interrupt(),
            Op::Halt => self.is_halted = true,
            Op::Inc(to_inc) => self.inc(to_inc),
            Op::IncHlPointer => self.inc_hl_pointer(),
            Op::IncNn(name) => self.inc_nn(name),
            Op::JpA16(condition) => self.jp_a16(instruction, condition),
            Op::JpHl => self.jp_hl(),
            Op::JrR8(condition) => self.jr_r8(instruction, condition),
            Op::LdA16PointerA => self.ld_a16_pointer_a(instruction),
            Op::LdA16PointerSp => self.ld_a16_pointer_sp(instruction),
            Op::LdAA16Pointer => self.ld_a_a16_pointer(instruction),
            Op::LdAAddress(address_pointer) => self.ld_a_address(address_pointer),
            _ => {},
        }
    }

    /// `apply_op` for one alphabetical run of the operations (those named in `requires`).
    fn apply_ld_a_c_to_ld_r_r(&mut self, op: Op, instruction: Instruction)
        requires
            old(self).op_pre(op, instruction),
            op is LdACPointer || op is LdAHlDec || op is LdAHlInc || op is LdAddressValue || op is LdCPointerA || op is LdHlPointerD8 || op is LdHlPointerDecIncA || op is LdHlSpR8 || op is LdNn || op is LdRD8 || op is LdRHl || op is LdRR,
        ensures
            old(self).op_post(*final(self), op, instruction),
    {
        match op {
            Op::LdACPointer => self.ld_a_c_pointer(),
            Op::LdAHlDec => {
                self.ld_a_address(RegisterItem::HL);
                self.dec_nn(RegisterItem::HL)
            },
            Op::LdAHlInc => {
                self.ld_a_address(RegisterItem::HL);
                self.inc_nn(RegisterItem::HL)
            },
            Op::LdAddressValue(address_pointer, value) => self.ld_address_value(address_pointer, value),
            Op::LdCPointerA => self.ld_c_pointer_a(),
            Op::LdHlPointerD8 => self.ld_hl_pointer_d8(instruction),
            Op::LdHlPointerDecIncA(increase) => self.ld_hl_pointer_dec_inc_a(increase),
            Op::LdHlSpR8 => self.ld_hl_sp_r8(instruction),
            Op::LdNn(name) => self.ld_nn(instruction.operands, name),
            Op::LdRD8(destination) => self.ld_r_d8(destination, instruction),
            Op::LdRHl(to) => self.ld_r_hl(to),
            Op::LdRR(from, to) => self.ld_r_r(from, to),
            _ => {},
        }
    }

    /// `apply_op` for one alphabetical run of the operations (those named in `requires`).
    fn apply_ld_sp_hl_to_ret(&mut self, op: Op, instruction: Instruction)
        requires
            old(self).op_pre(op, instruction),
            op is LdSpHl || op is LdhA8A || op is LdhAA8 || op is Nop || op is OrAHl || op is OrAN || op is OrAR || op is PopRr || op is PushRr || op is ResHlPointer || op is ResNR || op is Ret,
        ensures
            old(self).op_post(*final(self), op, instruction),
    {
        match op {
            Op::LdSpHl => self.ld_sp_hl(),
            Op::LdhA8A => self.ldh_a8_a(instruction),
            Op::LdhAA8 => self.ldh_a_a8(instruction),
            Op::Nop => {},
            Op::OrAHl => self.or_a_hl(),
            Op::OrAN => self.or_a_n(instruction.operands),
            Op::OrAR(to_or) => self.or_a_r(to_or),
            Op::PopRr(pop_into) => self.pop_rr(pop_into),
            Op::PushRr(to_push) => self.push_rr(to_push),
            Op::ResHlPointer(position) => self.res_hl_pointer(position),
            Op::ResNR(position, target_register) => self.res_n_r(position, target_register),
            Op::Ret(condition, enable_interrupts) => self.ret(condition, enable_interrupts),
            _ => {},
        }
    }

    /// `apply_op` for one alphabetical run of the operations (those named in `requires`).
    fn apply_rl_hl_to_sbc(&mut self, op: Op, instruction: Instruction)
        requires
            old(self).op_pre(op, instruction),
            op is RlHlPointer || op is RlR || op is RlcHlPointer || op is RlcR || op is RrHlPointer || op is RrR || op is RrcHlPointer || op is RrcR || op is Rst || op is SbcAD8 || op is SbcAHl || op is SbcAR,
        ensures
            old(self).op_post(*final(self), op, instruction),
    {
        match op {
            Op::RlHlPointer => self.rl_hl_pointer(),
            Op::RlR(item, should_set_zero) => self.rl_r(item, should_set_zero),
            Op::RlcHlPointer => self.rlc_hl_pointer(),
            Op::RlcR(item, should_set_zero) => self.rlc_r(item, should_set_zero),
            Op::RrHlPointer => self.rr_hl_pointer(),
            Op::RrR(item, should_set_zero) => self.rr_r(item, should_set_zero),
            Op::RrcHlPointer => self.rrc_hl_pointer(),
            Op::RrcR(item, should_set_zero) => self.rrc_r(item, should_set_zero),
            Op::Rst(new_pc) => self.rst(new_pc),
            Op::SbcAD8 => self.sbc_a_d8(instruction),
            Op::SbcAHl => self.sbc_a_hl(),
            Op::SbcAR(to_sub) => self.sbc_a_r(to_sub),
            _ => {},
        }
    }

    /// `apply_op` for one alphabetical run of the operations (those named in `requires`).
    fn apply_scf_to_sub(&mut self, op: Op, instruction: Instruction)
        requires
            old(self).op_pre(op, instruction),
            op is Scf || op is SetHlPointer || op is SetNR || op is SlaHlPointer || op is SlaR || op is SraHlPointer || op is SraR || op is SrlHlPointer || op is SrlR || op is SubAHl || op is SubAN || op is SubAR,
        ensures
            old(self).op_post(*final(self), op, instruction),
    {
        match op {
            Op::Scf => self.scf(),
            Op::SetHlPointer(position) => self.set_hl_pointer(position),
            Op::SetNR(position, target_register) => self.set_n_r(position, target_register),
            Op::SlaHlPointer => self.sla_hl_pointer(),
            Op::SlaR(item) => self.sla_r(item),
            Op::SraHlPointer => self.sra_hl_pointer(),
            Op::SraR(item) => self.sra_r(item),
            Op::SrlHlPointer => self.srl_hl_pointer(),
            Op::SrlR(item) => self.srl_r(item),
            Op::SubAHl => self.sub_a_hl(),
            Op::SubAN => self.sub_a_n(instruction.operands),
            Op::SubAR(to_sub) => self.sub_a_r(to_sub),
            _ => {},
        }
    }

    /// `apply_op` for one alphabetical run of the operations (those named in `requires`).
    fn apply_swap_to_xor(&mut self, op: Op, instruction: Instruction)
        requires
            old(self).op_pre(op, instruction),
            op is SwapHlPointer || op is SwapR || op is XorAD8 || op is XorAHl || op is XorAR,
        ensures
            old(self).op_post(*final(self), op, instruction),
    {
        match op {
            Op::SwapHlPointer => self.swap_hl_pointer(),
            Op::SwapR(item) => self.swap_r(item),
            Op::XorAD8 => self.xor_a_d8(instruction),
            Op::XorAHl => self.xor_a_hl(),
            Op::XorAR(to_xor) => self.xor_a_r(to_xor),
            _ => {},
        }
    }

    /// Whether executing `instruction` is defined.
    pub open spec fn can_execute(self, instruction: Instruction) -> bool {
        self.op_pre(spec_op(instruction.prefixed, instruction.opcode), instruction)
    }

    /// `n` is `self` after executing `instruction`.
    pub open spec fn executed(self, n: CPU, instruction: Instruction) -> bool {
        self.op_post(n, spec_op(instruction.prefixed, instruction.opcode), instruction)
    }

    /// Executes a decoded instruction: every opcode of both tables does what
    /// `spec_op` says, so the result is always `Ok`.
    pub fn execute(&mut self, instruction: Instruction) -> (r: Result<(), Instruction>)
        requires
            old(self).can_execute(instruction),
        ensures
            r is Ok,
            old(self).executed(*final(self), instruction),
    {
        let op = decode_op(instruction.prefixed, instruction.opcode);
        self.apply_op(op, instruction);
        Ok(())
    }
}

/// The clock cycles an instruction is counted for: of more than two counts the
/// second, else the first.
pub open spec fn cycle_count(cycles: Seq<u8>) -> u8 {
    if cycles.len() > 2 {
        cycles[1]
    } else {
        cycles[0]
    }
}

impl CPU {
    /// `self` once the instruction `ins` that ends before `next` is fetched: PC at
    /// `next`, the clock advanced by its cycles (wrapping at 2^32), no interrupt
    /// queued.
    pub open spec fn fetched(self, next: i32, ins: Instruction) -> CPU {
        CPU {
            Registers: Registers { PC: next as u16, ..self.Registers },
            MMU: MMU { interrupt_queued: false, ..self.MMU },
            clock: clock_plus(self.clock, cycle_count(ins.cycles@) as int) as u32,
            ..self
        }
    }

    /// Whether `step` is defined: a halted processor waits; otherwise the
    /// instruction at PC decodes, has a cycle count, and can be executed once
    /// fetched.
    pub open spec fn can_step(self) -> bool {
        let pc = self.Registers@.pc as i32;
        self.is_halted || {
            &&& self.MMU.decode_defined(pc)
            &&& forall|next: i32, ins: Instruction|
                #[trigger] self.MMU.decoded(pc, next, ins) ==> {
                    &&& ins.cycles@.len() > 0
                    &&& self.fetched(next, ins).can_execute(ins)
                }
        }
    }

    /// `n` and `r` are what `step` makes of `self`: a halted processor stays as
    /// it is and counts 4 cycles; otherwise the instruction at PC is fetched and
    /// executed, no interrupt is left queued, and `r` is the clock and the cycles
    /// of the instruction.
    pub open spec fn stepped(self, n: CPU, r: (u32, u32)) -> bool {
        let pc = self.Registers@.pc as i32;
        if self.is_halted {
            n == self && r == (self.clock, 4u32)
        } else {
            exists|next: i32, ins: Instruction, m: CPU|
                #![trigger self.MMU.decoded(pc, next, ins), self.fetched(next, ins).executed(m, ins)]
                self.MMU.decoded(pc, next, ins) && self.fetched(next, ins).executed(m, ins)
                    && n == (CPU { MMU: MMU { interrupt_queued: false, ..m.MMU }, ..m }) && r == (
                    n.clock,
                    cycle_count(ins.cycles@) as u32,
                )
        }
    }

    /// Runs one instruction: the one at PC is decoded, PC moves past it, the clock
    /// counts its cycles, and it is executed. Returns the clock and the cycles
    /// counted. A halted processor does nothing and counts 4 cycles.
    pub fn step(&mut self) -> (r: (u32, u32))
        requires
            old(self).can_step(),
        ensures
            old(self).stepped(*final(self), r),
    {
        if self.is_halted {
            return (self.clock, 4);
        }
        let address = self.Registers.get_item(RegisterItem::PC);
        let (next_address, instruction) = self.MMU.decode(address as i32);
        let ghost start = *self;
        assert(start.MMU.decoded(address as i32, next_address, instruction));
        self.Registers.PC = next_address as u16;
        let clock_increment = if instruction.cycles.len() > 2 {
            instruction.cycles[1]
        } else {
            instruction.cycles[0]
        };
        self.clock = self.clock.wrapping_add(clock_increment as u32);
        self.MMU.interrupt_queued = false;
        assert(*self == start.fetched(next_address, instruction));
        let ghost fetched = *self;
        let _ = self.execute(instruction);
        let ghost m = *self;
        self.MMU.interrupt_queued = false;
        assert(fetched.executed(m, instruction));
        (self.clock, clock_increment as u32)
    }
}

/// Register number `k` in the order the opcodes number the registers: B, C, D, E,
/// H, L, (the byte at HL), A.
pub open spec fn numbered_register(k: u8) -> RegisterItem {
    if k == 0 {
        RegisterItem::B
    } else if k == 1 {
        RegisterItem::C
    } else if k == 2 {
        RegisterItem::D
    } else if k == 3 {
        RegisterItem::E
    } else if k == 4 {
        RegisterItem::H
    } else if k == 5 {
        RegisterItem::L
    } else {
        RegisterItem::A
    }
}

/// The unprefixed opcode 0x06 + 8k (k from 0 to 7 but 6), LD r,d8, loads its
/// immediate byte into register number k (B, C, D, E, H, L, -, A): that register
/// then reads the byte, every other part of the register file is as it was, and
/// nothing outside the register file changes.
pub proof fn law_ld_r_d8_loads_numbered_register(c: CPU, n: CPU, ins: Instruction, k: u8)
    requires
        k < 8,
        k != 6,
        !ins.prefixed,
        ins.opcode == 0x06 + 8 * k,
        c.can_execute(ins),
        c.executed(n, ins),
    ensures
        n.Registers@ == c.Registers@.set(
            numbered_register(k),
            operand_value_named(ins.operands@, "d8"@).unwrap(),
        ),
        n.Registers@.get(numbered_register(k)) == operand_value_named(ins.operands@, "d8"@).unwrap()
            % 256,
        n.MMU == c.MMU,
        n.clock == c.clock,
        n.is_halted == c.is_halted,
{
    let v = operand_value_named(ins.operands@, "d8"@).unwrap();
    if k == 0 {
        assert(spec_op(false, 0x06) == Op::LdRD8(RegisterItem::B));
    } else if k == 1 {
        assert(spec_op(false, 0x0E) == Op::LdRD8(RegisterItem::C));
    } else if k == 2 {
        assert(spec_op(false, 0x16) == Op::LdRD8(RegisterItem::D));
    } else if k == 3 {
        assert(spec_op(false, 0x1E) == Op::LdRD8(RegisterItem::E));
    } else if k == 4 {
        assert(spec_op(false, 0x26) == Op::LdRD8(RegisterItem::H));
    } else if k == 5 {
        assert(spec_op(false, 0x2E) == Op::LdRD8(RegisterItem::L));
    } else {
        assert(spec_op(false, 0x3E) == Op::LdRD8(RegisterItem::A));
    }
    law_get_after_set(c.Registers@, numbered_register(k), v);
}

} // verus!
