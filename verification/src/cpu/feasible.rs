use vstd::prelude::*;
use crate::cpu::CPU;
use crate::cpu::registers::{RegisterItem, Registers, RegistersView};
use crate::cpu::op::{
    rr_byte, rrc_byte, rl_byte, rlc_byte, sla_byte, sra_byte, srl_byte, swap_byte, daa_defined,
};
use crate::cpu::execute::{Op, decode_op};
use crate::memory::op_codes_parser::{Instruction, find_operand_value, operand_value_named};

verus! {

/// The value of the first operand of `ins` named `name`, when it has one.
fn operand_named(ins: &Instruction, name: &str) -> (r: Option<u16>)
    ensures
        r == operand_value_named(ins.operands@, name@),
{
    match find_operand_value(&ins.operands, name) {
        Some(v) => v,
        None => None,
    }
}

/// Whether `item` can take `value` (see `RegistersView::can_set`).
fn item_can_take(item: RegisterItem, value: u16) -> (b: bool)
    ensures
        b == RegistersView::can_set(item, value),
{
    match item {
        RegisterItem::FlagZ | RegisterItem::FlagN | RegisterItem::FlagH | RegisterItem::FlagC => value <= 1,
        _ => true,
    }
}

fn rl_of(v: u8, carry: bool) -> (r: u8)
    ensures
        r == rl_byte(v, carry),
{
    (v << 1u8) | (if carry { 1u8 } else { 0u8 })
}

fn rlc_of(v: u8) -> (r: u8)
    ensures
        r == rlc_byte(v),
{
    (v << 1u8) | (v >> 7u8)
}

fn rr_of(v: u8, carry: bool) -> (r: u8)
    ensures
        r == rr_byte(v, carry),
{
    (v >> 1u8) | (if carry { 0x80u8 } else { 0u8 })
}

fn rrc_of(v: u8) -> (r: u8)
    ensures
        r == rrc_byte(v),
{
    (v >> 1u8) | (v << 7u8)
}

fn sla_of(v: u8) -> (r: u8)
    ensures
        r == sla_byte(v),
{
    v << 1u8
}

fn sra_of(v: u8) -> (r: u8)
    ensures
        r == sra_byte(v),
{
    (v & 0x80u8) | (v >> 1u8)
}

fn srl_of(v: u8) -> (r: u8)
    ensures
        r == srl_byte(v),
{
    v >> 1u8
}

fn swap_of(v: u8) -> (r: u8)
    ensures
        r == swap_byte(v),
{
    ((v & 0xF0u8) >> 4u8) | ((v & 0x0Fu8) << 4u8)
}

/// Whether DAA is defined on `r` (see `daa_defined`).
fn daa_ok(r: &Registers) -> (b: bool)
    ensures
        b == daa_defined(r@),
{
    let a = r.get_item(RegisterItem::A);
    let nf = r.get_item(RegisterItem::FlagN) == 1;
    let hf = r.get_item(RegisterItem::FlagH) == 1;
    let cf = r.get_item(RegisterItem::FlagC) == 1;
    let low: u16 = if hf || (!nf && a % 16 > 9) { 0x06 } else { 0 };
    let high: u16 = if cf || (!nf && a > 0x99) { 0x60 } else { 0 };
    !nf || a >= low + high
}

impl CPU {
    /// The byte HL points at, when it can be read.
    fn hl_byte(&self) -> (r: Option<u8>)
        ensures
            r == (if self.MMU.readable(self.Registers@.hl as i32) {
                Some(self.MMU.spec_read_byte(self.Registers@.hl as i32))
            } else {
                None
            }),
    {
        let hl = self.Registers.get_item(RegisterItem::HL);
        if self.MMU.is_readable(hl as i32) {
            Some(self.MMU.read_byte(hl as i32))
        } else {
            None
        }
    }

    /// Whether `value` can be written where HL points.
    fn hl_takes(&self, value: u8) -> (b: bool)
        ensures
            b == self.MMU.writable(self.Registers@.hl as i32, value),
    {
        self.MMU.is_writable(self.Registers.get_item(RegisterItem::HL) as i32, value)
    }


    /// Whether performing `op`, with the operand data of `ins`, is defined (see
    /// `op_pre`).
    pub fn can_perform(&self, op: Op, ins: &Instruction) -> (b: bool)
        ensures
            b == self.op_pre(op, *ins),
    {
        match op {
            Op::AdcAD8 | Op::AdcAHl | Op::AdcAR(..) | Op::AddAHl | Op::AddAN | Op::AddAR(..) | Op::AddHlN(..) | Op::AddSpR8 | Op::AndAHl | Op::AndAN | Op::AndAR(..) | Op::BitHlPointer(..) => self.can_perform_adc_to_bit_hl(op, ins),
            Op::BitNR(..) | Op::CallA16(..) | Op::Ccf | Op::CpAD8 | Op::CpAHl | Op::CpAR(..) | Op::Cpl | Op::Daa | Op::Dec(..) | Op::DecHlPointer | Op::DecNn(..) | Op::DisableInterrupt => self.can_perform_bit_r_to_di(op, ins),
            Op::EnableInterrupt | Op::Halt | Op::Inc(..) | Op::IncHlPointer | Op::IncNn(..) | Op::JpA16(..) | Op::JpHl | Op::JrR8(..) | Op::LdA16PointerA | Op::LdA16PointerSp | Op::LdAA16Pointer | Op::LdAAddress(..) => self.can_perform_ei_to_ld_a_address(op, ins),
            Op::LdACPointer | Op::LdAHlDec | Op::LdAHlInc | Op::LdAddressValue(..) | Op::LdCPointerA | Op::LdHlPointerD8 | Op::LdHlPointerDecIncA(..) | Op::LdHlSpR8 | Op::LdNn(..) | Op::LdRD8(..) | Op::LdRHl(..) | Op::LdRR(..) => self.can_perform_ld_a_c_to_ld_r_r(op, ins),
            Op::LdSpHl | Op::LdhA8A | Op::LdhAA8 | Op::Nop | Op::OrAHl | Op::OrAN | Op::OrAR(..) | Op::PopRr(..) | Op::PushRr(..) | Op::ResHlPointer(..) | Op::ResNR(..) | Op::Ret(..) => self.can_perform_ld_sp_hl_to_ret(op, ins),
            Op::RlHlPointer | Op::RlR(..) | Op::RlcHlPointer | Op::RlcR(..) | Op::RrHlPointer | Op::RrR(..) | Op::RrcHlPointer | Op::RrcR(..) | Op::Rst(..) | Op::SbcAD8 | Op::SbcAHl | Op::SbcAR(..) => self.can_perform_rl_hl_to_sbc(op, ins),
            Op::Scf | Op::SetHlPointer(..) | Op::SetNR(..) | Op::SlaHlPointer | Op::SlaR(..) | Op::SraHlPointer | Op::SraR(..) | Op::SrlHlPointer | Op::SrlR(..) | Op::SubAHl | Op::SubAN | Op::SubAR(..) => self.can_perform_scf_to_sub(op, ins),
            Op::SwapHlPointer | Op::SwapR(..) | Op::XorAD8 | Op::XorAHl | Op::XorAR(..) => self.can_perform_swap_to_xor(op, ins),
        }
    }

    /// `can_perform` for one alphabetical run of the operations (those named in
    /// `requires`).
    fn can_perform_adc_to_bit_hl(&self, op: Op, ins: &Instruction) -> (b: bool)
        requires
            op is AdcAD8 || op is AdcAHl || op is AdcAR || op is AddAHl || op is AddAN || op is AddAR || op is AddHlN || op is AddSpR8 || op is AndAHl || op is AndAN || op is AndAR || op is BitHlPointer,
        ensures
            b == self.op_pre(op, *ins),
    {
        let r = &self.Registers;
        let a = r.get_item(RegisterItem::A);
        let carry = r.get_item(RegisterItem::FlagC) == 1;
        let cf: i32 = if carry { 1 } else { 0 };
        let hl = r.get_item(RegisterItem::HL);
        match op {
            Op::AdcAD8 => match operand_named(ins, "d8") {
                Some(v) => (v as i16) as i32 + a as i32 + cf <= 0x7FFF,
                None => false,
            },
            Op::AdcAHl => match self.hl_byte() {
                Some(v) => (v as i16) as i32 + a as i32 + cf <= 0x7FFF,
                None => false,
            },
            Op::AdcAR(x) => (r.get_item(x) as i16) as i32 + a as i32 + cf <= 0x7FFF,
            Op::AddAHl => match self.hl_byte() {
                Some(v) => a as u32 + v as u32 <= 0xFFFF,
                None => false,
            },
            Op::AddAN => match operand_named(ins, "d8") {
                Some(v) => a as u32 + v as u32 <= 0xFFFF,
                None => false,
            },
            Op::AddAR(x) => a as u32 + r.get_item(x) as u32 <= 0xFFFF,
            Op::AddHlN(_) => true,
            Op::AddSpR8 => operand_named(ins, "r8").is_some(),
            Op::AndAHl => self.hl_byte().is_some(),
            Op::AndAN => operand_named(ins, "d8").is_some(),
            Op::AndAR(_) => true,
            Op::BitHlPointer(p) => p < 8 && self.hl_byte().is_some(),
            _ => false,
        }
    }

    /// `can_perform` for one alphabetical run of the operations (those named in
    /// `requires`).
    fn can_perform_bit_r_to_di(&self, op: Op, ins: &Instruction) -> (b: bool)
        requires
            op is BitNR || op is CallA16 || op is Ccf || op is CpAD8 || op is CpAHl || op is CpAR || op is Cpl || op is Daa || op is Dec || op is DecHlPointer || op is DecNn || op is DisableInterrupt,
        ensures
            b == self.op_pre(op, *ins),
    {
        let r = &self.Registers;
        let a = r.get_item(RegisterItem::A);
        let carry = r.get_item(RegisterItem::FlagC) == 1;
        let cf: i32 = if carry { 1 } else { 0 };
        let hl = r.get_item(RegisterItem::HL);
        match op {
            Op::BitNR(p, _) => p < 8,
            Op::CallA16(c) => !self.checkJumpCondition(&c) || (operand_named(ins, "a16").is_some()
                && self.can_push(r.get_item(RegisterItem::PC))),
            Op::Ccf => true,
            Op::CpAD8 => match operand_named(ins, "d8") {
                Some(v) => a as i32 - (v as i16) as i32 <= 0x7FFF,
                None => false,
            },
            Op::CpAHl => self.hl_byte().is_some(),
            Op::CpAR(x) => a as i32 - (r.get_item(x) as i16) as i32 <= 0x7FFF,
            Op::Cpl => true,
            Op::Daa => daa_ok(r),
            Op::Dec(x) => {
                let cur = r.get_item(x) as i16;
                cur > -0x8000 && item_can_take(x, (cur - 1) as u16)
            },
            Op::DecHlPointer => match self.hl_byte() {
                Some(v) => self.hl_takes(if v == 0 { 255 } else { v - 1 }),
                None => false,
            },
            Op::DecNn(x) => {
                let v = r.get_item(x);
                item_can_take(x, if v == 0 { 0xFFFF } else { v - 1 })
            },
            Op::DisableInterrupt => true,
            _ => false,
        }
    }

    /// `can_perform` for one alphabetical run of the operations (those named in
    /// `requires`).
    fn can_perform_ei_to_ld_a_address(&self, op: Op, ins: &Instruction) -> (b: bool)
        requires
            op is EnableInterrupt || op is Halt || op is Inc || op is IncHlPointer || op is IncNn || op is JpA16 || op is JpHl || op is JrR8 || op is LdA16PointerA || op is LdA16PointerSp || op is LdAA16Pointer || op is LdAAddress,
        ensures
            b == self.op_pre(op, *ins),
    {
        let r = &self.Registers;
        let a = r.get_item(RegisterItem::A);
        let carry = r.get_item(RegisterItem::FlagC) == 1;
        let cf: i32 = if carry { 1 } else { 0 };
        let hl = r.get_item(RegisterItem::HL);
        match op {
            Op::EnableInterrupt => true,
            Op::Halt => true,
            Op::Inc(x) => {
                let cur = r.get_item(x) as i16;
                cur < 0x7FFF && item_can_take(x, (cur + 1) as u16)
            },
            Op::IncHlPointer => match self.hl_byte() {
                Some(v) => self.hl_takes(if v == 255 { 0 } else { v + 1 }),
                None => false,
            },
            Op::IncNn(x) => {
                let v = r.get_item(x);
                item_can_take(x, if v == 0xFFFF { 0 } else { v + 1 })
            },
            Op::JpA16(c) => !self.checkJumpCondition(&c) || operand_named(ins, "a16").is_some(),
            Op::JpHl => true,
            Op::JrR8(_) => operand_named(ins, "r8").is_some(),
            Op::LdA16PointerA => match operand_named(ins, "a16") {
                Some(v) => self.MMU.is_writable(v as i32, a as u8),
                None => false,
            },
            Op::LdA16PointerSp => match operand_named(ins, "a16") {
                Some(v) => {
                    let sp = r.get_item(RegisterItem::SP);
                    v < 0xFFFF && self.MMU.is_writable(v as i32, (sp & 0xFF) as u8)
                        && self.MMU.is_writable((v + 1) as i32, ((sp & 0xFF00) >> 8) as u8)
                },
                None => false,
            },
            Op::LdAA16Pointer => match operand_named(ins, "a16") {
                Some(v) => self.MMU.is_readable(v as i32),
                None => false,
            },
            Op::LdAAddress(p) => self.MMU.is_readable(r.get_item(p) as i32),
            _ => false,
        }
    }

    /// `can_perform` for one alphabetical run of the operations (those named in
    /// `requires`).
    fn can_perform_ld_a_c_to_ld_r_r(&self, op: Op, ins: &Instruction) -> (b: bool)
        requires
            op is LdACPointer || op is LdAHlDec || op is LdAHlInc || op is LdAddressValue || op is LdCPointerA || op is LdHlPointerD8 || op is LdHlPointerDecIncA || op is LdHlSpR8 || op is LdNn || op is LdRD8 || op is LdRHl || op is LdRR,
        ensures
            b == self.op_pre(op, *ins),
    {
        let r = &self.Registers;
        let a = r.get_item(RegisterItem::A);
        let carry = r.get_item(RegisterItem::FlagC) == 1;
        let cf: i32 = if carry { 1 } else { 0 };
        let hl = r.get_item(RegisterItem::HL);
        match op {
            Op::LdACPointer => self.MMU.is_readable((0xFF00 + r.get_item(RegisterItem::BC) % 256) as i32),
            Op::LdAHlDec => self.hl_byte().is_some(),
            Op::LdAHlInc => self.hl_byte().is_some(),
            Op::LdAddressValue(p, v) => self.MMU.is_writable(r.get_item(p) as i32, (r.get_item(v) % 256) as u8),
            Op::LdCPointerA => self.MMU.is_writable((0xFF00 + r.get_item(RegisterItem::BC) % 256) as i32, a as u8),
            Op::LdHlPointerD8 => match operand_named(ins, "d8") {
                Some(v) => self.hl_takes((v % 256) as u8),
                None => false,
            },
            Op::LdHlPointerDecIncA(increase) => self.hl_takes(a as u8) && (if increase {
                hl < 0xFFFF
            } else {
                hl > 0
            }),
            Op::LdHlSpR8 => operand_named(ins, "r8").is_some(),
            Op::LdNn(x) => match operand_named(ins, "d16") {
                Some(v) => item_can_take(x, v),
                None => false,
            },
            Op::LdRD8(x) => match operand_named(ins, "d8") {
                Some(v) => item_can_take(x, v),
                None => false,
            },
            Op::LdRHl(to) => match self.hl_byte() {
                Some(v) => item_can_take(to, v as u16),
                None => false,
            },
            Op::LdRR(from, to) => item_can_take(to, r.get_item(from)),
            _ => false,
        }
    }

    /// `can_perform` for one alphabetical run of the operations (those named in
    /// `requires`).
    fn can_perform_ld_sp_hl_to_ret(&self, op: Op, ins: &Instruction) -> (b: bool)
        requires
            op is LdSpHl || op is LdhA8A || op is LdhAA8 || op is Nop || op is OrAHl || op is OrAN || op is OrAR || op is PopRr || op is PushRr || op is ResHlPointer || op is ResNR || op is Ret,
        ensures
            b == self.op_pre(op, *ins),
    {
        let r = &self.Registers;
        let a = r.get_item(RegisterItem::A);
        let carry = r.get_item(RegisterItem::FlagC) == 1;
        let cf: i32 = if carry { 1 } else { 0 };
        let hl = r.get_item(RegisterItem::HL);
        match op {
            Op::LdSpHl => true,
            Op::LdhA8A => match operand_named(ins, "a8") {
                Some(v) => 0xFF00u32 + v as u32 <= 0xFFFF && self.MMU.is_writable(
                    (0xFF00u32 + v as u32) as i32,
                    a as u8,
                ),
                None => false,
            },
            Op::LdhAA8 => match operand_named(ins, "a8") {
                Some(v) => 0xFF00u32 + v as u32 <= 0xFFFF && self.MMU.is_readable((0xFF00u32 + v as u32) as i32),
                None => false,
            },
            Op::Nop => true,
            Op::OrAHl => self.hl_byte().is_some(),
            Op::OrAN => operand_named(ins, "d8").is_some(),
            Op::OrAR(_) => true,
            Op::PopRr(x) => self.can_pop() && item_can_take(
                x,
                self.MMU.read_word(r.get_item(RegisterItem::SP) as i32),
            ),
            Op::PushRr(x) => self.can_push(r.get_item(x)),
            Op::ResHlPointer(p) => p < 8 && match self.hl_byte() {
                Some(v) => self.hl_takes(v & !(1u8 << p)),
                None => false,
            },
            Op::ResNR(p, t) => p < 8 && item_can_take(t, (((r.get_item(t) % 256) as u8) & !(1u8 << p)) as u16),
            Op::Ret(c, _) => !self.checkJumpCondition(&c) || self.can_pop(),
            _ => false,
        }
    }

    /// `can_perform` for one alphabetical run of the operations (those named in
    /// `requires`).
    fn can_perform_rl_hl_to_sbc(&self, op: Op, ins: &Instruction) -> (b: bool)
        requires
            op is RlHlPointer || op is RlR || op is RlcHlPointer || op is RlcR || op is RrHlPointer || op is RrR || op is RrcHlPointer || op is RrcR || op is Rst || op is SbcAD8 || op is SbcAHl || op is SbcAR,
        ensures
            b == self.op_pre(op, *ins),
    {
        let r = &self.Registers;
        let a = r.get_item(RegisterItem::A);
        let carry = r.get_item(RegisterItem::FlagC) == 1;
        let cf: i32 = if carry { 1 } else { 0 };
        let hl = r.get_item(RegisterItem::HL);
        match op {
            Op::RlHlPointer => match self.hl_byte() {
                Some(v) => self.hl_takes(rl_of(v, carry)),
                None => false,
            },
            Op::RlR(x, _) => item_can_take(x, rl_of((r.get_item(x) % 256) as u8, carry) as u16),
            Op::RlcHlPointer => match self.hl_byte() {
                Some(v) => self.hl_takes(rlc_of(v)),
                None => false,
            },
            Op::RlcR(x, _) => item_can_take(x, rlc_of((r.get_item(x) % 256) as u8) as u16),
            Op::RrHlPointer => match self.hl_byte() {
                Some(v) => self.hl_takes(rr_of(v, carry)),
                None => false,
            },
            Op::RrR(x, _) => item_can_take(x, rr_of((r.get_item(x) % 256) as u8, carry) as u16),
            Op::RrcHlPointer => match self.hl_byte() {
                Some(v) => self.hl_takes(rrc_of(v)),
                None => false,
            },
            Op::RrcR(x, _) => item_can_take(x, rrc_of((r.get_item(x) % 256) as u8) as u16),
            Op::Rst(_) => self.can_push(r.get_item(RegisterItem::PC)),
            Op::SbcAD8 => match operand_named(ins, "d8") {
                Some(v) => a as i32 - (v as i16) as i32 <= 0x7FFF && (v as i16) as i32 + cf <= 0x7FFF,
                None => false,
            },
            Op::SbcAHl => match self.hl_byte() {
                Some(v) => a as i32 - (v as i16) as i32 <= 0x7FFF && (v as i16) as i32 + cf <= 0x7FFF,
                None => false,
            },
            Op::SbcAR(x) => {
                let w = (r.get_item(x) as i16) as i32;
                a as i32 - w <= 0x7FFF && w + cf <= 0x7FFF
            },
            _ => false,
        }
    }

    /// `can_perform` for one alphabetical run of the operations (those named in
    /// `requires`).
    fn can_perform_scf_to_sub(&self, op: Op, ins: &Instruction) -> (b: bool)
        requires
            op is Scf || op is SetHlPointer || op is SetNR || op is SlaHlPointer || op is SlaR || op is SraHlPointer || op is SraR || op is SrlHlPointer || op is SrlR || op is SubAHl || op is SubAN || op is SubAR,
        ensures
            b == self.op_pre(op, *ins),
    {
        let r = &self.Registers;
        let a = r.get_item(RegisterItem::A);
        let carry = r.get_item(RegisterItem::FlagC) == 1;
        let cf: i32 = if carry { 1 } else { 0 };
        let hl = r.get_item(RegisterItem::HL);
        match op {
            Op::Scf => true,
            Op::SetHlPointer(p) => p < 8 && match self.hl_byte() {
                Some(v) => self.hl_takes(v | (1u8 << p)),
                None => false,
            },
            Op::SetNR(p, t) => p < 8 && item_can_take(t, (((r.get_item(t) % 256) as u8) | (1u8 << p)) as u16),
            Op::SlaHlPointer => match self.hl_byte() {
                Some(v) => self.hl_takes(sla_of(v)),
                None => false,
            },
            Op::SlaR(x) => item_can_take(x, sla_of((r.get_item(x) % 256) as u8) as u16),
            Op::SraHlPointer => match self.hl_byte() {
                Some(v) => self.hl_takes(sra_of(v)),
                None => false,
            },
            Op::SraR(x) => item_can_take(x, sra_of((r.get_item(x) % 256) as u8) as u16),
            Op::SrlHlPointer => match self.hl_byte() {
                Some(v) => self.hl_takes(srl_of(v)),
                None => false,
            },
            Op::SrlR(x) => item_can_take(x, srl_of((r.get_item(x) % 256) as u8) as u16),
            Op::SubAHl => match self.hl_byte() {
                Some(v) => a as i32 - (v as i16) as i32 <= 0x7FFF,
                None => false,
            },
            Op::SubAN => match operand_named(ins, "d8") {
                Some(v) => a as i32 - (v as i16) as i32 <= 0x7FFF,
                None => false,
            },
            Op::SubAR(x) => a as i32 - (r.get_item(x) as i16) as i32 <= 0x7FFF,
            _ => false,
        }
    }

    /// `can_perform` for one alphabetical run of the operations (those named in
    /// `requires`).
    fn can_perform_swap_to_xor(&self, op: Op, ins: &Instruction) -> (b: bool)
        requires
            op is SwapHlPointer || op is SwapR || op is XorAD8 || op is XorAHl || op is XorAR,
        ensures
            b == self.op_pre(op, *ins),
    {
        let r = &self.Registers;
        let a = r.get_item(RegisterItem::A);
        let carry = r.get_item(RegisterItem::FlagC) == 1;
        let cf: i32 = if carry { 1 } else { 0 };
        let hl = r.get_item(RegisterItem::HL);
        match op {
            Op::SwapHlPointer => match self.hl_byte() {
                Some(v) => self.hl_takes(swap_of(v)),
                None => false,
            },
            Op::SwapR(x) => item_can_take(x, swap_of((r.get_item(x) % 256) as u8) as u16),
            Op::XorAD8 => operand_named(ins, "d8").is_some(),
            Op::XorAHl => self.hl_byte().is_some(),
            Op::XorAR(_) => true,
            _ => false,
        }
    }
}

impl CPU {
    /// Whether `step` is defined on this processor (see `can_step`). To ask, the
    /// processor is moved to the state after the fetch and then put back as it was.
    pub fn can_step_now(&mut self) -> (b: bool)
        ensures
            *final(self) == *old(self),
            b == old(self).can_step(),
    {
        if self.is_halted {
            return true;
        }
        let pc = self.Registers.get_item(RegisterItem::PC);
        if !self.MMU.can_decode(pc as i32) {
            return false;
        }
        let (next, ins) = self.MMU.decode(pc as i32);
        let ghost start = *self;
        proof {
            assert forall|n: i32, i: Instruction| #[trigger] start.MMU.decoded(pc as i32, n, i) implies {
                &&& n == next
                &&& i.cycles@ == ins.cycles@
                &&& start.fetched(n, i) == start.fetched(next, ins)
                &&& start.fetched(n, i).can_execute(i) == start.fetched(next, ins).can_execute(ins)
            } by {
                assert(i.operands@ =~= ins.operands@);
            }
        }
        if ins.cycles.len() == 0 {
            return false;
        }
        let count = if ins.cycles.len() > 2 {
            ins.cycles[1]
        } else {
            ins.cycles[0]
        };
        let saved_pc = self.Registers.PC;
        let saved_clock = self.clock;
        let saved_queued = self.MMU.interrupt_queued;
        self.Registers.PC = next as u16;
        self.clock = self.clock.wrapping_add(count as u32);
        self.MMU.interrupt_queued = false;
        assert(*self == start.fetched(next, ins));
        let op = decode_op(ins.prefixed, ins.opcode);
        let b = self.can_perform(op, &ins);
        self.Registers.PC = saved_pc;
        self.clock = saved_clock;
        self.MMU.interrupt_queued = saved_queued;
        assert(*self == start);
        b
    }
}

} // verus!
