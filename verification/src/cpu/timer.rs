use vstd::prelude::*;
use crate::cpu::{CPU, InterruptType};
use crate::memory::mmu::MMU;

verus! {

/// The TIMA frequencies TAC selects, in Hz.
pub const TIMER_FREQUENCIES: [i32; 4] = [4096, 262144, 65536, 16384];

/// The frequency TAC's low two bits select.
pub open spec fn timer_frequency(control: u8) -> i32 {
    TIMER_FREQUENCIES[(control & 3) as int]
}

/// Whether the divider counter passes 0xFF when `clock` cycles are added to it.
pub open spec fn divider_ticks(m: MMU, clock: i32) -> bool {
    m.timer_divider_clock + clock > 0xFF
}

/// The bus after `clock` cycles of the divider: its counter grows by `clock` unless it
/// would pass 0xFF, in which case DIV goes up by one instead.
pub open spec fn divider_after(m: MMU, clock: i32) -> MMU {
    if divider_ticks(m, clock) {
        MMU { timer_divider: ((m.timer_divider + 1) % 256) as u8, ..m }
    } else {
        MMU { timer_divider_clock: (m.timer_divider_clock + clock) as i32, ..m }
    }
}

/// The bus after `clock` cycles of TIMA, when TAC enables it: its counter grows by
/// `clock`; once it reaches the selected frequency it drops by it and TIMA goes up by
/// one, and when TIMA wraps it is reloaded from TMA and a timer interrupt requested.
pub open spec fn counter_after(m: MMU, clock: i32) -> MMU {
    let tc = m.timer_clock + clock;
    let f = timer_frequency(m.timer_control);
    if tc >= f {
        let counter = ((m.timer_counter + 1) % 256) as u8;
        if counter == 0 {
            MMU {
                timer_clock: (tc - f) as i32,
                timer_counter: m.timer_modulo,
                interrupt_flag: m.interrupt_flag | InterruptType::Timer.bit(),
                ..m
            }
        } else {
            MMU { timer_clock: (tc - f) as i32, timer_counter: counter, ..m }
        }
    } else {
        MMU { timer_clock: tc as i32, ..m }
    }
}

/// The bus after `clock` cycles of the timers.
pub open spec fn timers_after(m: MMU, clock: i32) -> MMU {
    let d = divider_after(m, clock);
    if d.timer_control & 0x4 != 0 {
        counter_after(d, clock)
    } else {
        d
    }
}

/// Whether the timers' counters stay within `i32` for `clock` more cycles.
pub open spec fn timers_defined(m: MMU, clock: i32) -> bool {
    &&& i32::MIN <= m.timer_divider_clock + clock <= i32::MAX
    &&& m.timer_control & 0x4 != 0 ==> i32::MIN <= m.timer_clock + clock <= i32::MAX
}

impl CPU {
    /// Whether TAC enables TIMA.
    pub fn is_timer_enabled(&self) -> (b: bool)
        ensures
            b == (self.MMU.timer_control & 0x4 != 0),
    {
        (self.MMU.timer_control & 0x4) != 0
    }

    /// The frequency TAC selects.
    pub fn get_timer_frequency(&self) -> (f: i32)
        ensures
            f == timer_frequency(self.MMU.timer_control),
            f > 0,
    {
        let frequency_index = (self.MMU.timer_control & 0x3) as usize;
        proof {
            lemma_select_bits(self.MMU.timer_control);
        }
        let f = TIMER_FREQUENCIES[frequency_index];
        assert(TIMER_FREQUENCIES[0] == 4096 && TIMER_FREQUENCIES[1] == 262144 && TIMER_FREQUENCIES[2] == 65536 && TIMER_FREQUENCIES[3] == 16384);
        f
    }

    /// Advances DIV and TIMA by `clock` cycles.
    pub fn increment_timer(&mut self, clock: i32)
        requires
            timers_defined(old(self).MMU, clock),
        ensures
            *final(self) == (CPU { MMU: timers_after(old(self).MMU, clock), ..*old(self) }),
    {
        self.MMU.timer_divider_clock += clock;
        if self.MMU.timer_divider_clock > 0xFF {
            self.MMU.timer_divider_clock -= clock;
            self.MMU.timer_divider = self.MMU.timer_divider.wrapping_add(1);
        }
        if self.is_timer_enabled() {
            self.MMU.timer_clock += clock;
            let divider = self.get_timer_frequency();
            if self.MMU.timer_clock >= divider {
                self.MMU.timer_clock -= divider;
                self.MMU.timer_counter = self.MMU.timer_counter.wrapping_add(1);
                if self.MMU.timer_counter == 0 {
                    self.MMU.timer_counter = self.MMU.timer_modulo;
                    self.request_interrupt(InterruptType::Timer);
                }
            }
        }
    }
}

impl CPU {
    /// Whether `increment_timer` by `clock` is defined: the counters stay within `i32`.
    pub fn can_increment_timer(&self, clock: i32) -> (b: bool)
        ensures
            b == timers_defined(self.MMU, clock),
    {
        let divider = self.MMU.timer_divider_clock as i64 + clock as i64;
        if divider < i32::MIN as i64 || divider > i32::MAX as i64 {
            return false;
        }
        if self.is_timer_enabled() {
            let counter = self.MMU.timer_clock as i64 + clock as i64;
            counter >= i32::MIN as i64 && counter <= i32::MAX as i64
        } else {
            true
        }
    }
}

/// TAC's clock select (its low two bits) is one of 0 to 3.
proof fn lemma_select_bits(c: u8)
    by (bit_vector)
    ensures
        c & 3 < 4,
{
}

/// TIMA's period: with TIMA enabled and its cycle counter `t` below a period,
/// `clock` more cycles (not negative) advance TIMA by one exactly when `t + clock`
/// reaches the period TAC's low two bits select (0: 4096 cycles, 1: 262144, 2:
/// 65536, 3: 16384), and leave it otherwise; past 0xFF it is reloaded from TMA and
/// the timer interrupt is requested. DIV's counter plays no part in it.
pub proof fn law_tima_period(m: MMU, clock: i32, period: int)
    requires
        m.timer_control & 0x4 != 0,
        0 <= clock,
        m.timer_control & 3 == 0 ==> period == 4096,
        m.timer_control & 3 == 1 ==> period == 262144,
        m.timer_control & 3 == 2 ==> period == 65536,
        m.timer_control & 3 == 3 ==> period == 16384,
        0 <= m.timer_clock < period,
        timers_defined(m, clock),
    ensures
        m.timer_clock + clock < period ==> timers_after(m, clock).timer_counter == m.timer_counter
            && timers_after(m, clock).timer_clock == m.timer_clock + clock,
        m.timer_clock + clock >= period && m.timer_counter < 0xFF ==> timers_after(
            m,
            clock,
        ).timer_counter == m.timer_counter + 1 && timers_after(m, clock).timer_clock == m.timer_clock
            + clock - period,
        m.timer_clock + clock >= period && m.timer_counter == 0xFF ==> timers_after(
            m,
            clock,
        ).timer_counter == m.timer_modulo && timers_after(m, clock).interrupt_flag
            == m.interrupt_flag | InterruptType::Timer.bit(),
{
    lemma_select_bits(m.timer_control);
    let d = divider_after(m, clock);
    assert(d.timer_control == m.timer_control && d.timer_clock == m.timer_clock
        && d.timer_counter == m.timer_counter && d.timer_modulo == m.timer_modulo
        && d.interrupt_flag == m.interrupt_flag);
    assert(TIMER_FREQUENCIES[0] == 4096 && TIMER_FREQUENCIES[1] == 262144 && TIMER_FREQUENCIES[2]
        == 65536 && TIMER_FREQUENCIES[3] == 16384);
    assert(timer_frequency(m.timer_control) == period);
}

} // verus!
