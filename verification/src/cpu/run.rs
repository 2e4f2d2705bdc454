use vstd::prelude::*;
use crate::cpu::{CPU, InterruptType};
use crate::cpu::timer::{timers_after, timers_defined};
use crate::io::gamepad::GamepadKey;
use crate::memory::mmu::MMU;
use crate::ppu::{PPU, PpuMode};
use crate::cpu::execute::cycle_count;
use crate::memory::op_codes_parser::Instruction;

verus! {

/// The clock cycles of one frame: the screen is shown, and the emulation paced,
/// once for each of them.
pub const CYCLES_PER_FRAME: u32 = 69905;

/// A key of the host keyboard, as the main loop tells them apart.
#[derive(Clone, Copy, PartialEq, Eq, Debug, Structural)]
pub enum HostKey {
    /// quits
    Escape,
    /// toggles the execution log
    L,
    /// toggles the tile set area of LCDC
    T,
    /// dumps the state
    D,
    /// a key of the joypad
    Pad(GamepadKey),
    Other,
}

/// Whether a key went down or up.
#[derive(Clone, Copy, PartialEq, Eq, Debug, Structural)]
pub enum KeyState {
    Press,
    Release,
}

/// What the main loop does after a key.
#[derive(Clone, Copy, PartialEq, Eq, Debug, Structural)]
pub enum LoopAction {
    Continue,
    Quit,
    Dump,
}

/// What one slice of the main loop came to: the cycles counted towards the next
/// frame and whether a frame is due, or the stage that could not run.
#[derive(Clone, Copy, PartialEq, Eq, Debug, Structural)]
pub enum Slice {
    Ran { cycles_delta: u32, frame_due: bool },
    CannotStep,
    CannotServeInterrupt,
    CannotAdvancePpu,
    CannotAdvanceTimer,
}

/// The time a frame is shown for, in microseconds.
pub const FRAME_MICROS: u64 = 16670;

/// How long to wait, in microseconds, once a frame is due `elapsed` microseconds
/// after the last one: what is left of the frame's time, or nothing.
pub fn pacing_sleep(elapsed: u64) -> (wait: u64)
    ensures
        wait == if elapsed < FRAME_MICROS { FRAME_MICROS - elapsed } else { 0 },
{
    if elapsed < FRAME_MICROS {
        FRAME_MICROS - elapsed
    } else {
        0
    }
}

/// The LCDC value the T key switches to: 0x81 from 0x91, 0x91 from anything else.
pub open spec fn toggled_lcdc(current: u8) -> u8 {
    if current == 0x91 {
        0x81
    } else {
        0x91
    }
}

/// The cycles counted towards the next frame after `cycles` more, and whether a
/// frame is due: once they reach a frame's worth, a frame is due and that much is
/// taken off.
pub open spec fn frame_count(delta: u32, cycles: u32, new_delta: u32, frame_due: bool) -> bool {
    let sum = delta + cycles;
    &&& frame_due == (sum >= CYCLES_PER_FRAME)
    &&& new_delta == if frame_due { sum - CYCLES_PER_FRAME } else { sum }
}

/// The processor with interrupt `t` requested when `raise` holds.
pub open spec fn requested_if(c: CPU, raise: bool, t: InterruptType) -> CPU {
    if raise {
        CPU { MMU: MMU { interrupt_flag: c.MMU.interrupt_flag | t.bit(), ..c.MMU }, ..c }
    } else {
        c
    }
}

/// The processor `b`, its PPU replaced by `p` and its timers advanced by `clock`.
pub open spec fn with_ppu_and_timers(b: CPU, p: PPU, clock: u32) -> CPU {
    CPU { MMU: timers_after(MMU { PPU: p, ..b.MMU }, clock as i32), ..b }
}

/// A step counts at most 255 cycles: those of one instruction's table entry, or 4
/// when halted.
proof fn lemma_step_cycles(s: CPU, n: CPU, r: (u32, u32))
    requires
        s.stepped(n, r),
    ensures
        r.1 <= 255,
{
    if !s.is_halted {
        let pc = s.Registers@.pc as i32;
        let (next, ins, m) = choose|next: i32, ins: Instruction, m: CPU|
            #![trigger s.MMU.decoded(pc, next, ins), s.fetched(next, ins).executed(m, ins)]
            s.MMU.decoded(pc, next, ins) && s.fetched(next, ins).executed(m, ins)
                && n == (CPU { MMU: MMU { interrupt_queued: false, ..m.MMU }, ..m }) && r == (
                n.clock,
                cycle_count(ins.cycles@) as u32,
            );
    }
}

impl CPU {
    /// `n`, `new_delta` and `frame_due` are what a slice of the main loop makes of
    /// `self` and `delta`: one instruction is run (`step`), interrupts are checked,
    /// the PPU and then the timers advance by the cycles of both, VBlank and then
    /// LCD STAT are requested when the PPU raised them, and the cycles are counted
    /// towards the next frame.
    pub open spec fn slice_ran(self, n: CPU, delta: u32, new_delta: u32, frame_due: bool) -> bool {
        exists|a: CPU, ra: (u32, u32), b: CPU, cb: u32, p: PPU, rp: (PpuMode, bool, bool)|
            #![trigger self.stepped(a, ra), a.interrupts_checked(b, cb), b.MMU.PPU.stepped(p, (ra.1 + cb) as u32, rp)]
            {
                &&& self.stepped(a, ra)
                &&& a.interrupts_checked(b, cb)
                &&& b.MMU.PPU.stepped(p, (ra.1 + cb) as u32, rp)
                &&& n == requested_if(
                    requested_if(with_ppu_and_timers(b, p, (ra.1 + cb) as u32), rp.1, InterruptType::VBlank),
                    rp.2,
                    InterruptType::LCD_STAT,
                )
                &&& frame_count(delta, (ra.1 + cb) as u32, new_delta, frame_due)
            }
    }

    /// Runs one slice of the main loop: `step`, `check_interrupts`, the PPU's
    /// `step` and `increment_timer` with the cycles of the first two, then requests
    /// VBlank and LCD STAT as the PPU asks, and counts the cycles towards the next
    /// frame. Each stage runs only where it is defined; where one is not, the slice
    /// stops there and says which.
    #[verifier::rlimit(40)]
    pub fn run_slice(&mut self, cycles_delta: u32) -> (r: Slice)
        requires
            cycles_delta <= u32::MAX - 0x200,
        ensures
            r is Ran ==> old(self).slice_ran(*final(self), cycles_delta, r->cycles_delta, r->frame_due),
            r is CannotStep <==> !old(self).can_step(),
            r is CannotStep ==> *final(self) == *old(self),
            r is CannotServeInterrupt ==> exists|a: CPU, ra: (u32, u32)|
                #![trigger old(self).stepped(a, ra)]
                old(self).stepped(a, ra) && !a.interrupts_checkable() && *final(self) == a,
            r is CannotAdvancePpu ==> exists|a: CPU, ra: (u32, u32), b: CPU, cb: u32|
                #![trigger old(self).stepped(a, ra), a.interrupts_checked(b, cb)]
                old(self).stepped(a, ra) && a.interrupts_checked(b, cb)
                    && !b.MMU.PPU.can_step((ra.1 + cb) as u32) && *final(self) == b,
            r is CannotAdvanceTimer ==> exists|a: CPU, ra: (u32, u32), b: CPU, cb: u32, p: PPU, rp: (PpuMode, bool, bool)|
                #![trigger old(self).stepped(a, ra), a.interrupts_checked(b, cb), b.MMU.PPU.stepped(p, (ra.1 + cb) as u32, rp)]
                old(self).stepped(a, ra) && a.interrupts_checked(b, cb)
                    && b.MMU.PPU.stepped(p, (ra.1 + cb) as u32, rp)
                    && !timers_defined(MMU { PPU: p, ..b.MMU }, (ra.1 + cb) as i32)
                    && *final(self) == (CPU { MMU: MMU { PPU: p, ..b.MMU }, ..b }),
    {
        let ghost start = *self;
        if !self.can_step_now() {
            return Slice::CannotStep;
        }
        let ra = self.step();
        let ghost a = *self;
        assert(start.stepped(a, ra));
        proof {
            lemma_step_cycles(start, a, ra);
        }
        if !self.can_check_interrupts() {
            return Slice::CannotServeInterrupt;
        }
        let cb = self.check_interrupts();
        let ghost b = *self;
        let clock_delta = ra.1 + cb;
        if !self.MMU.PPU.is_well_formed() || !self.MMU.PPU.can_step_by(clock_delta) {
            return Slice::CannotAdvancePpu;
        }
        let rp = self.MMU.PPU.step(clock_delta);
        let ghost p = self.MMU.PPU;
        assert(*self == CPU { MMU: MMU { PPU: p, ..b.MMU }, ..b });
        if !self.can_increment_timer(clock_delta as i32) {
            return Slice::CannotAdvanceTimer;
        }
        self.increment_timer(clock_delta as i32);
        assert(*self == with_ppu_and_timers(b, p, clock_delta));
        let (_mode, raise_vblank, raise_stat) = rp;
        if raise_vblank {
            self.request_interrupt(InterruptType::VBlank);
        }
        assert(*self == requested_if(with_ppu_and_timers(b, p, clock_delta), rp.1, InterruptType::VBlank));
        if raise_stat {
            self.request_interrupt(InterruptType::LCD_STAT);
        }
        let sum = cycles_delta + clock_delta;
        let frame_due = sum >= CYCLES_PER_FRAME;
        let new_delta = if frame_due {
            sum - CYCLES_PER_FRAME
        } else {
            sum
        };
        Slice::Ran { cycles_delta: new_delta, frame_due }
    }
}

impl CPU {
    /// Acts on a key of the host: Escape quits and D asks for a dump, both leaving
    /// the processor as it is; L toggles the execution log; T writes LCDC, 0x81 when
    /// it reads 0x91 and 0x91 otherwise; a joypad key pressed is recorded as held
    /// and requests the joypad interrupt, and released is forgotten. Any other key,
    /// and the release of a key that is not the joypad's, changes nothing.
    pub fn handle_key(&mut self, key: HostKey, state: KeyState) -> (a: LoopAction)
        requires
            old(self).MMU.gamepad.wf(),
        ensures
            key == HostKey::Escape && state == KeyState::Press ==> a == LoopAction::Quit
                && *final(self) == *old(self),
            key == HostKey::D && state == KeyState::Press ==> a == LoopAction::Dump
                && *final(self) == *old(self),
            key == HostKey::L && state == KeyState::Press ==> a == LoopAction::Continue
                && *final(self) == (CPU { logging: !old(self).logging, ..*old(self) }),
            key == HostKey::T && state == KeyState::Press ==> {
                &&& a == LoopAction::Continue
                &&& *final(self) == (CPU { MMU: final(self).MMU, ..*old(self) })
                &&& old(self).MMU.wrote_byte(
                    final(self).MMU,
                    0xFF40,
                    toggled_lcdc(old(self).MMU.spec_read_byte(0xFF40)),
                )
            },
            key is Pad && state == KeyState::Press ==> {
                &&& a == LoopAction::Continue
                &&& old(self).MMU.gamepad.pressed_into(final(self).MMU.gamepad, key->0)
                &&& *final(self) == (CPU {
                    MMU: MMU {
                        gamepad: final(self).MMU.gamepad,
                        interrupt_flag: old(self).MMU.interrupt_flag | InterruptType::Joypad.bit(),
                        ..old(self).MMU
                    },
                    ..*old(self)
                })
            },
            key is Pad && state == KeyState::Release ==> {
                &&& a == LoopAction::Continue
                &&& old(self).MMU.gamepad.released_into(final(self).MMU.gamepad, key->0)
                &&& *final(self) == (CPU {
                    MMU: MMU { gamepad: final(self).MMU.gamepad, ..old(self).MMU },
                    ..*old(self)
                })
            },
            key == HostKey::Other || (state == KeyState::Release && !(key is Pad)) ==> a
                == LoopAction::Continue && *final(self) == *old(self),
    {
        match state {
            KeyState::Press => match key {
                HostKey::Escape => LoopAction::Quit,
                HostKey::L => {
                    self.logging = !self.logging;
                    LoopAction::Continue
                },
                HostKey::T => {
                    let value: u8 = if self.MMU.read_byte(0xFF40) == 0x91 {
                        0x81
                    } else {
                        0x91
                    };
                    self.MMU.write_byte(0xFF40, value);
                    LoopAction::Continue
                },
                HostKey::D => LoopAction::Dump,
                HostKey::Pad(k) => {
                    self.MMU.gamepad.key_pressed(k);
                    self.request_interrupt(InterruptType::Joypad);
                    LoopAction::Continue
                },
                HostKey::Other => LoopAction::Continue,
            },
            KeyState::Release => {
                match key {
                    HostKey::Pad(k) => self.MMU.gamepad.key_released(k),
                    _ => {},
                }
                LoopAction::Continue
            },
        }
    }
}

} // verus!
