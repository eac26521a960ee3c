//! The programmable interval timer: a 16-bit internal counter that
//! increments every machine cycle, the DIV projection of its high byte,
//! and the TIMA counter with its falling-edge increment rule and delayed
//! overflow reload.

use vstd::prelude::*;

verus! {

/// The four TIMA speeds, as the two low bits of the timer control
/// register select them.
#[derive(Clone, Copy, PartialEq, Eq, Structural, Debug)]
pub enum TimerSpeed {
    ClockOver1024,
    ClockOver16,
    ClockOver64,
    ClockOver256,
}

impl TimerSpeed {
    pub open spec fn spec_to_u8(self) -> u8 {
        match self {
            TimerSpeed::ClockOver1024 => 0,
            TimerSpeed::ClockOver16 => 1,
            TimerSpeed::ClockOver64 => 2,
            TimerSpeed::ClockOver256 => 3,
        }
    }

    pub fn to_u8(&self) -> (r: u8)
        ensures
            r == self.spec_to_u8(),
    {
        match *self {
            TimerSpeed::ClockOver1024 => 0,
            TimerSpeed::ClockOver16 => 1,
            TimerSpeed::ClockOver64 => 2,
            TimerSpeed::ClockOver256 => 3,
        }
    }

    pub open spec fn spec_from_u8(from: u8) -> TimerSpeed {
        match from {
            0 => TimerSpeed::ClockOver1024,
            1 => TimerSpeed::ClockOver16,
            2 => TimerSpeed::ClockOver64,
            _ => TimerSpeed::ClockOver256,
        }
    }

    pub fn from_u8(from: u8) -> (r: TimerSpeed)
        requires
            from < 4,
        ensures
            r == TimerSpeed::spec_from_u8(from),
    {
        match from {
            0 => TimerSpeed::ClockOver1024,
            1 => TimerSpeed::ClockOver16,
            2 => TimerSpeed::ClockOver64,
            _ => TimerSpeed::ClockOver256,
        }
    }

    /// Which bit of the internal counter drives TIMA at this speed.
    pub open spec fn spec_relevant_counter_bit(self) -> u16 {
        match self {
            TimerSpeed::ClockOver1024 => 9,
            TimerSpeed::ClockOver16 => 3,
            TimerSpeed::ClockOver64 => 5,
            TimerSpeed::ClockOver256 => 7,
        }
    }

    pub fn relevant_counter_bit(&self) -> (r: u16)
        ensures
            r == self.spec_relevant_counter_bit(),
    {
        match *self {
            TimerSpeed::ClockOver1024 => 9,
            TimerSpeed::ClockOver16 => 3,
            TimerSpeed::ClockOver64 => 5,
            TimerSpeed::ClockOver256 => 7,
        }
    }
}

#[derive(Clone, Copy, PartialEq, Eq, Structural, Debug)]
pub struct Timer {
    pub internal_counter: u16,
    pub timer_counter: u8,
    pub timer_modulo: u8,
    pub timer_enabled: bool,
    pub timer_speed: TimerSpeed,
    /// Set when a TIMA overflow reload fires; the interrupt-pending
    /// register projects it.
    pub timer_interrupt: bool,
    /// Cycles left until an overflowed TIMA is reloaded from TMA.
    pub tima_reload_timer: Option<u8>,
    pub old_tima_relevant_bit: bool,
}

impl Timer {
    pub open spec fn spec_initial() -> Timer {
        Timer {
            internal_counter: 0,
            timer_counter: 0,
            timer_modulo: 0,
            timer_enabled: false,
            timer_speed: TimerSpeed::ClockOver1024,
            timer_interrupt: false,
            tima_reload_timer: None,
            old_tima_relevant_bit: false,
        }
    }

    pub fn new() -> (r: Timer)
        ensures
            r == Timer::spec_initial(),
    {
        Timer {
            internal_counter: 0,
            timer_counter: 0,
            timer_modulo: 0,
            timer_enabled: false,
            timer_speed: TimerSpeed::ClockOver1024,
            timer_interrupt: false,
            tima_reload_timer: None,
            old_tima_relevant_bit: false,
        }
    }

    /// The "relevant signal" at counter value `counter`: the speed-selected
    /// tap bit of the counter, gated by the enable flag.
    pub open spec fn spec_relevant_signal(self, counter: u16) -> bool {
        counter & (1u16 << self.timer_speed.spec_relevant_counter_bit()) != 0
            && self.timer_enabled
    }

    /// Move the internal counter to `to` and apply the falling-edge rule:
    /// when the relevant signal goes from 1 to 0, TIMA increments, and an
    /// overflow schedules the delayed reload.
    pub open spec fn spec_change_counter_to(self, to: u16) -> Timer {
        let after = self.spec_relevant_signal(to);
        let falling_edge = self.old_tima_relevant_bit && !after;
        if falling_edge {
            Timer {
                internal_counter: to,
                old_tima_relevant_bit: after,
                tima_reload_timer: if self.timer_counter == 0xFF {
                    Some(3u8)
                } else {
                    self.tima_reload_timer
                },
                timer_counter: self.timer_counter.wrapping_add(1),
                ..self
            }
        } else {
            Timer { internal_counter: to, old_tima_relevant_bit: after, ..self }
        }
    }

    fn change_counter_to(&mut self, to: u16)
        ensures
            *final(self) == old(self).spec_change_counter_to(to),
    {
        self.internal_counter = to;
        let bit = 1u16 << self.timer_speed.relevant_counter_bit();
        let before = self.old_tima_relevant_bit;
        let after = (self.internal_counter & bit != 0) && self.timer_enabled;
        let falling_edge = before && !after;
        if falling_edge {
            if self.timer_counter == 0xFF {
                self.tima_reload_timer = Some(3);
            }
            self.timer_counter = self.timer_counter.wrapping_add(1);
        }
        self.old_tima_relevant_bit = after;
    }

    /// One cycle of the timer: the counter steps once, and a pending
    /// delayed reload counts down; at zero it loads TMA into TIMA and
    /// raises the timer interrupt.
    pub open spec fn spec_tick(self) -> Timer {
        let t = self.spec_change_counter_to(self.internal_counter.wrapping_add(1));
        match t.tima_reload_timer {
            Some(left) => {
                if left == 0 {
                    Timer {
                        tima_reload_timer: None,
                        timer_counter: t.timer_modulo,
                        timer_interrupt: true,
                        ..t
                    }
                } else {
                    Timer { tima_reload_timer: Some((left - 1) as u8), ..t }
                }
            }
            None => t,
        }
    }

    /// The timer after `n` cycles.
    pub open spec fn spec_ticks(self, n: nat) -> Timer
        decreases n,
    {
        if n == 0 {
            self
        } else {
            self.spec_ticks((n - 1) as nat).spec_tick()
        }
    }

    /// Advance the timer by the cycle cost of the last instruction.
    pub fn increase(&mut self, cycles: u8)
        ensures
            *final(self) == old(self).spec_ticks(cycles as nat),
    {
        let ghost t0 = *self;
        let mut i: u16 = 0;
        while i < cycles as u16
            invariant
                i <= cycles as u16,
                *self == t0.spec_ticks(i as nat),
            decreases cycles as u16 - i,
        {
            let new_counter = self.internal_counter.wrapping_add(1);
            self.change_counter_to(new_counter);
            match self.tima_reload_timer {
                Some(left) => {
                    if left == 0 {
                        self.tima_reload_timer = None;
                        self.timer_counter = self.timer_modulo;
                        self.timer_interrupt = true;
                    } else {
                        self.tima_reload_timer = Some(left - 1);
                    }
                }
                None => {}
            }
            i = i + 1;
        }
    }

    /// Reset the whole internal counter; DIV reads as zero afterwards.
    /// The falling-edge rule still applies to the transition.
    pub fn reset_divider(&mut self)
        ensures
            *final(self) == old(self).spec_change_counter_to(0),
    {
        self.change_counter_to(0);
    }

    /// DIV: the high byte of the internal counter.
    pub fn get_divider(&self) -> (r: u8)
        ensures
            r == (self.internal_counter / 0x100) as u8,
    {
        (self.internal_counter / 0x100) as u8
    }
}


/// The falling-edge rule, as a law over any counter move: TIMA
/// increments exactly when the relevant signal (the speed-selected tap
/// bit, gated by the enable flag) goes from 1 to 0, and never on a
/// rising or steady signal.
pub proof fn lemma_tima_falling_edge(t: Timer, to: u16)
    ensures
        ({
            let u = t.spec_change_counter_to(to);
            &&& (t.old_tima_relevant_bit && !t.spec_relevant_signal(to) ==> u.timer_counter
                == t.timer_counter.wrapping_add(1))
            &&& (!(t.old_tima_relevant_bit && !t.spec_relevant_signal(to)) ==> u.timer_counter
                == t.timer_counter)
        }),
{
}

} // verus!
