use vstd::prelude::*;
use crate::cpu::{CPU, InterruptType};
use crate::cpu::registers::{RegisterItem, RegistersView};
use crate::memory::mmu::{MMU, lemma_same_readability};

verus! {

/// Where the handler of each interrupt starts.
pub open spec fn interrupt_vector(t: InterruptType) -> u16 {
    match t {
        InterruptType::VBlank => 0x0040,
        InterruptType::LCD_STAT => 0x0048,
        InterruptType::Timer => 0x0050,
        InterruptType::Serial => 0x0058,
        InterruptType::Joypad => 0x0060,
    }
}

impl CPU {
    /// Whether interrupt `t` is both enabled (IE) and requested (IF).
    pub open spec fn pending(self, t: InterruptType) -> bool {
        self.MMU.interrupt_enabled & t.bit() != 0 && self.MMU.interrupt_flag & t.bit() != 0
    }

    /// The pending interrupt of highest priority, if any.
    pub open spec fn first_pending(self) -> Option<InterruptType> {
        if self.pending(InterruptType::VBlank) {
            Some(InterruptType::VBlank)
        } else if self.pending(InterruptType::LCD_STAT) {
            Some(InterruptType::LCD_STAT)
        } else if self.pending(InterruptType::Timer) {
            Some(InterruptType::Timer)
        } else if self.pending(InterruptType::Serial) {
            Some(InterruptType::Serial)
        } else if self.pending(InterruptType::Joypad) {
            Some(InterruptType::Joypad)
        } else {
            None
        }
    }

    /// The bus as a handler of `t` leaves it before pushing PC: IME off, the request
    /// bit toggled.
    pub open spec fn bus_entering_handler(self, t: InterruptType) -> MMU {
        MMU {
            interrupt_master_enabled: false,
            interrupt_flag: self.MMU.interrupt_flag ^ t.bit(),
            ..self.MMU
        }
    }

    /// Whether entering the handler of `t` is defined: PC can be pushed.
    pub open spec fn handle_defined(self) -> bool {
        self.push_defined(self.Registers@.pc)
    }

    /// `new` is `self` after entering the handler of `t` at `address`: IME off, the
    /// request bit toggled, PC pushed and replaced by `address`.
    pub open spec fn entered_handler(self, new: CPU, t: InterruptType, address: u16) -> bool {
        let r = self.Registers@;
        &&& new.Registers@ == (RegistersView { pc: address, sp: (r.sp - 2) as u16, ..r })
        &&& self.bus_entering_handler(t).wrote_word(new.MMU, (r.sp - 2) as i32, r.pc)
        &&& self.same_but_registers_and_bus(new)
    }

    /// Whether `check_interrupts` is defined: serving a pending interrupt needs room
    /// to push PC.
    pub open spec fn interrupts_checkable(self) -> bool {
        self.MMU.interrupt_master_enabled && self.first_pending() is Some ==> self.handle_defined()
    }

    /// `n` and `cycles` are what `check_interrupts` makes of `self`: with IME clear a
    /// pending interrupt only ends a halt; with IME set the pending interrupt of
    /// highest priority, if any, has its handler entered in 16 cycles.
    pub open spec fn interrupts_checked(self, n: CPU, cycles: u32) -> bool {
        let o = self;
        if !o.MMU.interrupt_master_enabled {
            &&& cycles == 0
            &&& n == CPU { is_halted: o.is_halted && o.first_pending() is None, ..o }
        } else {
            match o.first_pending() {
                None => cycles == 0 && n == o,
                Some(t) => {
                    &&& cycles == 16
                    &&& !n.is_halted
                    &&& o.entered_handler(CPU { is_halted: o.is_halted, ..n }, t, interrupt_vector(t))
                },
            }
        }
    }

    /// Requests interrupt `t` by setting its bit in IF.
    pub fn request_interrupt(&mut self, interrupt_type: InterruptType)
        ensures
            *final(self) == (CPU { MMU: MMU { interrupt_flag: old(self).MMU.interrupt_flag | interrupt_type.bit(), ..old(self).MMU }, ..*old(self) }),
    {
        self.MMU.interrupt_flag = self.MMU.interrupt_flag | interrupt_type.mask()
    }

    /// Clears IME.
    pub fn disable_interrupt(&mut self)
        ensures
            *final(self) == (CPU { MMU: MMU { interrupt_master_enabled: false, ..old(self).MMU }, ..*old(self) }),
    {
        self.MMU.interrupt_master_enabled = false;
    }

    /// Sets IME.
    pub fn enable_interrupt(&mut self)
        ensures
            *final(self) == (CPU { MMU: MMU { interrupt_master_enabled: true, ..old(self).MMU }, ..*old(self) }),
    {
        self.MMU.interrupt_master_enabled = true;
    }

    /// Whether interrupt `t` is pending.
    pub fn should_handle(&self, interrupt_type: InterruptType) -> (b: bool)
        ensures
            b == self.pending(interrupt_type),
    {
        let mask = interrupt_type.mask();
        (self.MMU.interrupt_enabled & mask) != 0 && (self.MMU.interrupt_flag & mask) != 0
    }

    /// The pending interrupt of highest priority, if any.
    pub fn should_handle_something(&self) -> (t: Option<InterruptType>)
        ensures
            t == self.first_pending(),
    {
        let order = [
            InterruptType::VBlank,
            InterruptType::LCD_STAT,
            InterruptType::Timer,
            InterruptType::Serial,
            InterruptType::Joypad,
        ];
        let mut i: usize = 0;
        while i < 5
            invariant
                i <= 5,
                order@ == seq![
                    InterruptType::VBlank,
                    InterruptType::LCD_STAT,
                    InterruptType::Timer,
                    InterruptType::Serial,
                    InterruptType::Joypad,
                ],
                forall|j: int| 0 <= j < i ==> !self.pending(#[trigger] order@[j]),
            decreases 5 - i,
        {
            if self.should_handle(order[i]) {
                return Some(order[i]);
            }
            i += 1;
        }
        None
    }

    /// Enters the handler of `interrupt_type` at `address`.
    pub fn handle_interrupt(&mut self, interrupt_type: InterruptType, address: u16)
        requires
            old(self).handle_defined(),
        ensures
            old(self).entered_handler(*final(self), interrupt_type, address),
    {
        self.disable_interrupt();
        self.MMU.interrupt_flag = self.MMU.interrupt_flag ^ interrupt_type.mask();
        let pc = self.Registers.get_item(RegisterItem::PC);
        proof {
            lemma_same_readability(old(self).MMU, self.MMU);
        }
        self.write_to_stack(pc);
        self.Registers.set_item(RegisterItem::PC, address);
        self.MMU.interrupt_master_enabled = false;
    }

    /// Serves the pending interrupt of highest priority when IME is set: its handler is
    /// entered, the CPU leaves halt, and 16 cycles are spent. With IME clear, a pending
    /// interrupt only ends a halt. Returns the cycles spent.
    pub fn check_interrupts(&mut self) -> (cycles: u32)
        requires
            old(self).interrupts_checkable(),
        ensures
            old(self).interrupts_checked(*final(self), cycles),
    {
        if !self.MMU.interrupt_master_enabled {
            if self.is_halted {
                if let Some(_) = self.should_handle_something() {
                    self.is_halted = false;
                }
            }
            return 0;
        }
        match self.should_handle_something() {
            None => 0,
            Some(interrupt_type) => {
                match interrupt_type {
                    InterruptType::VBlank => self.handle_interrupt(InterruptType::VBlank, 0x0040),
                    InterruptType::LCD_STAT => self.handle_interrupt(InterruptType::LCD_STAT, 0x0048),
                    InterruptType::Timer => self.handle_interrupt(InterruptType::Timer, 0x0050),
                    InterruptType::Serial => self.handle_interrupt(InterruptType::Serial, 0x0058),
                    InterruptType::Joypad => self.handle_interrupt(InterruptType::Joypad, 0x0060),
                };
                self.is_halted = false;
                16
            },
        }
    }
}

/// The position of a source in the order of priority, 0 the highest.
pub open spec fn priority(t: InterruptType) -> int {
    match t {
        InterruptType::VBlank => 0,
        InterruptType::LCD_STAT => 1,
        InterruptType::Timer => 2,
        InterruptType::Serial => 3,
        InterruptType::Joypad => 4,
    }
}

/// An interrupt that IE enables, once requested, is the one served when no
/// source of higher priority is pending, and serving it clears its request bit
/// and nothing else of IF.
pub proof fn law_requested_interrupt_is_served(c: CPU, t: InterruptType)
    requires
        c.MMU.interrupt_enabled & t.bit() != 0,
        forall|u: InterruptType| priority(u) < priority(t) ==> !#[trigger] c.pending(u),
    ensures
        ({
            let r = CPU {
                MMU: MMU { interrupt_flag: c.MMU.interrupt_flag | t.bit(), ..c.MMU },
                ..c
            };
            &&& r.first_pending() == Some(t)
            &&& r.bus_entering_handler(t).interrupt_flag == c.MMU.interrupt_flag & !t.bit()
            &&& !r.bus_entering_handler(t).interrupt_master_enabled
        }),
{
    let f = c.MMU.interrupt_flag;
    let e = c.MMU.interrupt_enabled;
    let b = t.bit();
    assert(b == 1 || b == 2 || b == 4 || b == 8 || b == 16);
    assert(((f | b) ^ b == f & !b) && (e & b != 0 ==> (e & b != 0 && (f | b) & b != 0))) by (bit_vector);
    assert forall|u: InterruptType| priority(u) < priority(t) implies !(e & u.bit() != 0 && (f
        | b) & u.bit() != 0) by {
        assert(!c.pending(u));
        let ub = u.bit();
        assert(ub == 1 || ub == 2 || ub == 4 || ub == 8 || ub == 16);
        assert(ub != b);
        assert((ub == 1 || ub == 2 || ub == 4 || ub == 8 || ub == 16) && (b == 1 || b == 2 || b
            == 4 || b == 8 || b == 16) && ub != b ==> (f | b) & ub == f & ub) by (bit_vector);
    }
    assert(!(e & InterruptType::VBlank.bit() != 0 && (f | b) & InterruptType::VBlank.bit() != 0)
        || t == InterruptType::VBlank);
    assert(!(e & InterruptType::LCD_STAT.bit() != 0 && (f | b) & InterruptType::LCD_STAT.bit() != 0)
        || priority(t) <= 1);
    assert(!(e & InterruptType::Timer.bit() != 0 && (f | b) & InterruptType::Timer.bit() != 0)
        || priority(t) <= 2);
    assert(!(e & InterruptType::Serial.bit() != 0 && (f | b) & InterruptType::Serial.bit() != 0)
        || priority(t) <= 3);
}

impl CPU {
    /// Whether pushing `value` is defined (see `push_defined`).
    pub fn can_push(&self, value: u16) -> (b: bool)
        ensures
            b == self.push_defined(value),
    {
        let sp = self.Registers.get_item(RegisterItem::SP);
        if sp < 2 {
            return false;
        }
        self.MMU.is_writable((sp - 2) as i32, (value & 0xFF) as u8) && self.MMU.is_writable(
            (sp - 1) as i32,
            ((value & 0xFF00) >> 8) as u8,
        )
    }

    /// Whether popping is defined (see `pop_defined`).
    pub fn can_pop(&self) -> (b: bool)
        ensures
            b == self.pop_defined(),
    {
        let sp = self.Registers.get_item(RegisterItem::SP);
        sp <= 0xFFFD && self.MMU.is_readable(sp as i32) && self.MMU.is_readable((sp + 1) as i32)
    }

    /// Whether `check_interrupts` is defined: serving an interrupt needs room to
    /// push PC.
    pub fn can_check_interrupts(&self) -> (b: bool)
        ensures
            b == self.interrupts_checkable(),
    {
        if self.MMU.interrupt_master_enabled && self.should_handle_something().is_some() {
            self.can_push(self.Registers.get_item(RegisterItem::PC))
        } else {
            true
        }
    }
}

/// Serving an interrupt jumps to its handler: with IME set and an interrupt
/// pending, `check_interrupts` sets PC to 0x40 + 8 times the priority of the
/// interrupt served (VBlank 0x40, LCD STAT 0x48, Timer 0x50, Serial 0x58, Joypad
/// 0x60), after pushing the old PC below SP.
pub proof fn law_interrupt_handler_address(c: CPU, n: CPU, cycles: u32)
    requires
        c.MMU.interrupt_master_enabled,
        c.first_pending() is Some,
        c.interrupts_checked(n, cycles),
    ensures
        n.Registers@.pc == 0x40 + 8 * priority(c.first_pending().unwrap()),
        n.Registers@.sp == (c.Registers@.sp - 2) as u16,
        c.bus_entering_handler(c.first_pending().unwrap()).wrote_word(
            n.MMU,
            (c.Registers@.sp - 2) as i32,
            c.Registers@.pc,
        ),
        cycles == 16,
{
}

} // verus!
