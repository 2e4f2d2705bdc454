pub mod registers;
pub mod op;
pub mod interrupts;
pub mod timer;
pub mod execute;
pub mod feasible;
pub mod run;

use vstd::prelude::*;
use vstd::string::{StrSliceExecFns, StringExecFns};
use crate::cpu::registers::{Registers, RegisterItem, RegistersView};
use crate::memory::mmu::MMU;
use crate::cpu::registers::registers_text;
use crate::text::{decimal_text, append_decimal_u32};

verus! {

/// The processor: its registers, the bus, and the halt, clock and logging state.
#[allow(non_snake_case)]
pub struct CPU {
    pub Registers: Registers,
    pub MMU: MMU,
    pub is_halted: bool,
    pub clock: u32,
    pub logging: bool,
}

/// The five interrupt sources, in the order of their priority.
#[derive(Clone, Copy, PartialEq, Eq, Debug, Structural)]
#[allow(non_camel_case_types)]
pub enum InterruptType {
    VBlank,
    LCD_STAT,
    Timer,
    Serial,
    Joypad,
}

impl InterruptType {
    /// The bit of IE and IF that stands for this source.
    pub open spec fn bit(self) -> u8 {
        match self {
            InterruptType::VBlank => 1,
            InterruptType::LCD_STAT => 2,
            InterruptType::Timer => 4,
            InterruptType::Serial => 8,
            InterruptType::Joypad => 16,
        }
    }

    pub fn mask(self) -> (m: u8)
        ensures
            m == self.bit(),
    {
        match self {
            InterruptType::VBlank => 1,
            InterruptType::LCD_STAT => 2,
            InterruptType::Timer => 4,
            InterruptType::Serial => 8,
            InterruptType::Joypad => 16,
        }
    }
}

/// The condition a jump, call or return tests.
#[derive(Clone, Copy, PartialEq, Eq, Debug, Structural)]
pub enum JumpCondition {
    Zero,
    NotZero,
    Carry,
    NotCarry,
    /// no condition: always taken
    Always,
}

/// What a half carry is computed for.
#[derive(Clone, Copy, PartialEq, Eq, Debug, Structural)]
pub enum HalfCarryOperationsMode {
    /// 8-bit addition
    Add,
    /// 16-bit addition
    AddWords,
    GreaterThan,
    Increment,
    Decrement,
}

/// The clock after `cycles` more, wrapping round at 2^32 as the 32-bit counter does.
pub open spec fn clock_plus(clock: u32, cycles: int) -> int {
    (clock + cycles) % 0x1_0000_0000
}

/// Whether `condition` holds for the flags of `r`.
pub open spec fn condition_holds(r: RegistersView, condition: JumpCondition) -> bool {
    match condition {
        JumpCondition::Zero => r.zf,
        JumpCondition::NotZero => !r.zf,
        JumpCondition::Carry => r.cf,
        JumpCondition::NotCarry => !r.cf,
        JumpCondition::Always => true,
    }
}

/// The half carry of an operation: out of bit 3 for bytes, out of bit 11 for words.
pub open spec fn half_carry(value: i16, second_operator: i16, carry: i16, mode: HalfCarryOperationsMode) -> bool {
    match mode {
        HalfCarryOperationsMode::Add => (second_operator as int) % 16 + (value as int) % 16 + carry > 15,
        HalfCarryOperationsMode::AddWords => (value as int) % 4096 + (value as int) % 4096 > 0xFFF,
        HalfCarryOperationsMode::GreaterThan => (second_operator as int) % 16 + carry > (value as int) % 16,
        HalfCarryOperationsMode::Increment => (value as int) % 16 + 1 > 15,
        HalfCarryOperationsMode::Decrement => (value as int) % 16 == 0,
    }
}

impl CPU {
    /// Everything but the register file is as in `self`.
    pub open spec fn same_but_registers(self, new: CPU) -> bool {
        &&& new.MMU == self.MMU
        &&& new.is_halted == self.is_halted
        &&& new.clock == self.clock
        &&& new.logging == self.logging
    }

    /// Everything but the register file and the bus is as in `self`.
    pub open spec fn same_but_registers_and_bus(self, new: CPU) -> bool {
        &&& new.is_halted == self.is_halted
        &&& new.clock == self.clock
        &&& new.logging == self.logging
    }

    /// Whether pushing `value` is defined: SP is at least 2 and both bytes can be
    /// written below it.
    pub open spec fn push_defined(self, value: u16) -> bool {
        let sp = self.Registers@.sp;
        &&& sp >= 2
        &&& self.MMU.writable((sp - 2) as i32, (value & 0xFF) as u8)
        &&& self.MMU.writable((sp - 1) as i32, ((value & 0xFF00) >> 8) as u8)
    }

    /// `new` is `self` after pushing `value`: SP down by two, the word stored there.
    pub open spec fn pushed(self, new: CPU, value: u16) -> bool {
        &&& new.Registers@ == RegistersView { sp: (self.Registers@.sp - 2) as u16, ..self.Registers@ }
        &&& self.MMU.wrote_word(new.MMU, (self.Registers@.sp - 2) as i32, value)
        &&& self.same_but_registers_and_bus(new)
    }

    /// Whether popping is defined: SP stays below 0xFFFE and both bytes are readable.
    pub open spec fn pop_defined(self) -> bool {
        let sp = self.Registers@.sp;
        &&& sp <= 0xFFFD
        &&& self.MMU.readable(sp as i32)
        &&& self.MMU.readable((sp + 1) as i32)
    }

    /// The word on top of the stack.
    pub open spec fn top_of_stack(self) -> u16 {
        self.MMU.spec_read_word(self.Registers@.sp as i32)
    }

    /// A processor on `mmu`, at power-on.
    #[allow(non_snake_case)]
    pub fn new(MMU: MMU) -> (cpu: CPU)
        ensures
            cpu.Registers@ == Registers::new_view(),
            cpu.MMU == MMU,
            !cpu.is_halted,
            cpu.clock == 0,
            !cpu.logging,
    {
        let Registers = Registers::new();
        CPU { Registers, MMU, is_halted: false, clock: 0, logging: false }
    }

    /// The half carry of an operation (see `half_carry`). The 16-bit mode looks at
    /// the first operand only.
    pub fn calculate_half_carry(value: i16, second_operator: i16, carry: i16, mode: HalfCarryOperationsMode) -> (b: bool)
        requires
            mode == HalfCarryOperationsMode::Add ==> -0x7000 <= carry <= 0x7000,
            mode == HalfCarryOperationsMode::GreaterThan ==> -0x7000 <= carry <= 0x7000,
        ensures
            b == half_carry(value, second_operator, carry, mode),
    {
        let rounded_value = value & 0xF;
        let rounded_second_operator = second_operator & 0xF;
        let rounded_word = value & 0xFFF;
        let rounded_second_word = value & 0xFFF;
        assert(rounded_value as int == (value as int) % 16 && rounded_second_operator as int == (
        second_operator as int) % 16 && rounded_word as int == (value as int) % 4096
            && rounded_second_word as int == (value as int) % 4096) by (bit_vector)
            requires
                rounded_value == value & 0xF,
                rounded_second_operator == second_operator & 0xF,
                rounded_word == value & 0xFFF,
                rounded_second_word == value & 0xFFF,
        ;
        match mode {
            HalfCarryOperationsMode::Add => (rounded_second_operator + rounded_value + carry) > 0xF,
            HalfCarryOperationsMode::AddWords => (rounded_word + rounded_second_word) > 0xFFF,
            HalfCarryOperationsMode::GreaterThan => (rounded_second_operator + carry) > rounded_value,
            HalfCarryOperationsMode::Increment => (rounded_value + 1) > 0xF,
            HalfCarryOperationsMode::Decrement => rounded_value == 0,
        }
    }

    /// Whether `condition` holds for the current flags.
    #[allow(non_snake_case)]
    pub fn checkJumpCondition(&self, condition: &JumpCondition) -> (b: bool)
        ensures
            b == condition_holds(self.Registers@, *condition),
    {
        match condition {
            JumpCondition::Zero => self.Registers.get_item(RegisterItem::FlagZ) == 1,
            JumpCondition::NotZero => self.Registers.get_item(RegisterItem::FlagZ) == 0,
            JumpCondition::Carry => self.Registers.get_item(RegisterItem::FlagC) == 1,
            JumpCondition::NotCarry => self.Registers.get_item(RegisterItem::FlagC) == 0,
            JumpCondition::Always => true,
        }
    }
}

impl CPU {
    /// The processor as the debugging dump shows it: the clock, then the
    /// register file.
    pub fn to_text(&self) -> (text: String)
        ensures
            text@ == "clock : "@ + decimal_text(self.clock as nat) + " - Registers : "@ + registers_text(
                self.Registers,
            ),
    {
        let mut text = String::from_str("clock : ");
        append_decimal_u32(&mut text, self.clock);
        text.append(" - Registers : ");
        let registers = self.Registers.to_text();
        text.append(registers.as_str());
        text
    }
}

} // verus!
