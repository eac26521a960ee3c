//! A square-wave channel: an 11-bit frequency register reloads a timer
//! that steps an 8-position duty waveform; a length counter can silence
//! the channel and a volume envelope scales its ±1 output.

use vstd::prelude::*;

use crate::apu::SOUND_SAMPLE_RATE_IN_HERTZ;
use crate::apu::calc_num_timer_ticks;
use crate::apu::spec_calc_num_timer_ticks;

verus! {

/// Timer ticks per full waveform period of the square channels.
pub const FREQUENCY_TIMER_TICKS_PER_PERIOD: u32 = 8;

#[derive(Clone, Copy, PartialEq, Eq, Structural, Debug)]
pub struct SquareChannel {
    pub frequency_timer_ticks: u32,
    pub frequency_timer_tick_counts: u32,
    pub frequency_hi: u8,
    pub frequency_lo: u8,
    pub duty: u8,
    pub wave_step: u8,
    pub on: bool,
    pub counter_on: bool,
    pub counter: u8,
    pub volume: u8,
    pub envelope_starting_volume: u8,
    pub volume_envelope_direction: bool,
    pub volume_envelope_period: u8,
    pub volume_envelope_tick_counts: u8,
}

/// The square channels' waveform frequency for an 11-bit register value.
pub open spec fn spec_square_frequency(frequency_hi: u8, frequency_lo: u8) -> int {
    131072int / (2048 - ((frequency_hi as int) * 0x100 + frequency_lo as int))
}

impl SquareChannel {
    /// The frequency register is 11 bits, the duty selector 2, the volume
    /// 4; the frequency timer is live.
    pub open spec fn wf(self) -> bool {
        &&& self.frequency_hi < 8
        &&& self.duty < 4
        &&& self.volume < 16
        &&& self.wave_step < 8
        &&& self.frequency_timer_ticks >= 1
        &&& self.frequency_timer_tick_counts >= 1
    }

    pub open spec fn spec_initial() -> SquareChannel {
        SquareChannel {
            frequency_timer_ticks: 655,
            frequency_timer_tick_counts: 655,
            frequency_hi: 0,
            frequency_lo: 0,
            duty: 2,
            wave_step: 0,
            on: false,
            counter_on: false,
            counter: 0,
            volume: 15,
            envelope_starting_volume: 0,
            volume_envelope_direction: false,
            volume_envelope_period: 0,
            volume_envelope_tick_counts: 0,
        }
    }

    /// A silent channel ticking at a default 200 Hz.
    pub fn new() -> (r: SquareChannel)
        ensures
            r == SquareChannel::spec_initial(),
            r.wf(),
    {
        let frequency_timer_ticks = calc_num_timer_ticks(200, FREQUENCY_TIMER_TICKS_PER_PERIOD);
        SquareChannel {
            frequency_timer_ticks,
            frequency_timer_tick_counts: frequency_timer_ticks,
            frequency_hi: 0,
            frequency_lo: 0,
            duty: 2,
            wave_step: 0,
            on: false,
            counter_on: false,
            counter: 0,
            volume: 15,
            envelope_starting_volume: 0,
            volume_envelope_direction: false,
            volume_envelope_period: 0,
            volume_envelope_tick_counts: 0,
        }
    }

    pub fn set_duty(&mut self, duty: u8)
        requires
            duty < 4,
        ensures
            *final(self) == (SquareChannel { duty, ..*old(self) }),
    {
        self.duty = duty;
    }

    pub fn get_duty(&self) -> (r: u8)
        ensures
            r == self.duty,
    {
        self.duty
    }

    /// The channel after its frequency registers changed: the timer
    /// reload period follows the 11-bit frequency.
    pub open spec fn spec_with_frequency(self, frequency_hi: u8, frequency_lo: u8) -> SquareChannel {
        SquareChannel {
            frequency_hi,
            frequency_lo,
            frequency_timer_ticks: spec_calc_num_timer_ticks(
                spec_square_frequency(frequency_hi, frequency_lo),
                FREQUENCY_TIMER_TICKS_PER_PERIOD as int,
            ),
            ..self
        }
    }

    fn set_frequency(&mut self)
        requires
            old(self).frequency_hi < 8,
        ensures
            *final(self) == old(self).spec_with_frequency(
                old(self).frequency_hi,
                old(self).frequency_lo,
            ),
    {
        let val = (self.frequency_hi as u64) * 0x100 + self.frequency_lo as u64;
        let frequency = 131072 / (2048 - val);
        proof {
            vstd::arithmetic::div_mod::lemma_div_non_zero(131072, 2048 - val as int);
        }
        self.frequency_timer_ticks = calc_num_timer_ticks(
            frequency,
            FREQUENCY_TIMER_TICKS_PER_PERIOD,
        );
    }

    pub fn set_frequency_hi(&mut self, frequency_hi: u8)
        requires
            frequency_hi < 8,
        ensures
            *final(self) == old(self).spec_with_frequency(frequency_hi, old(self).frequency_lo),
    {
        self.frequency_hi = frequency_hi;
        self.set_frequency();
    }

    pub fn set_frequency_lo(&mut self, frequency_lo: u8)
        requires
            old(self).frequency_hi < 8,
        ensures
            *final(self) == old(self).spec_with_frequency(old(self).frequency_hi, frequency_lo),
    {
        self.frequency_lo = frequency_lo;
        self.set_frequency();
    }

    pub fn get_frequency_hi(&self) -> (r: u8)
        ensures
            r == self.frequency_hi,
    {
        self.frequency_hi
    }

    pub fn get_frequency_lo(&self) -> (r: u8)
        ensures
            r == self.frequency_lo,
    {
        self.frequency_lo
    }

    /// A trigger write turns the channel on.
    pub fn restart_sound(&mut self)
        ensures
            *final(self) == (SquareChannel { on: true, ..*old(self) }),
    {
        self.on = true;
    }

    pub fn set_counter_on(&mut self, value: bool)
        ensures
            *final(self) == (SquareChannel { counter_on: value, ..*old(self) }),
    {
        self.counter_on = value;
    }

    pub fn get_counter_on(&self) -> (r: bool)
        ensures
            r == self.counter_on,
    {
        self.counter_on
    }

    /// Load the length counter with the complement of the user-written
    /// length within the 64-step maximum, as the register file hands it
    /// in; each length tick then counts one step down.
    pub fn set_counter(&mut self, value: u8)
        requires
            0 < value <= 64,
        ensures
            *final(self) == (SquareChannel { counter: value, ..*old(self) }),
    {
        self.counter = value;
    }

    pub fn get_on(&self) -> (r: bool)
        ensures
            r == self.on,
    {
        self.on
    }

    pub fn set_envelope_starting_volume(&mut self, value: u8)
        requires
            value < 0x10,
        ensures
            *final(self) == (SquareChannel {
                envelope_starting_volume: value,
                volume: value,
                ..*old(self)
            }),
    {
        self.envelope_starting_volume = value;
        self.volume = value;
    }

    pub fn get_envelope_starting_volume(&self) -> (r: u8)
        ensures
            r == self.envelope_starting_volume,
    {
        self.envelope_starting_volume
    }

    pub fn set_volume_envelope_direction(&mut self, direction: bool)
        ensures
            *final(self) == (SquareChannel {
                volume_envelope_direction: direction,
                ..*old(self)
            }),
    {
        self.volume_envelope_direction = direction;
    }

    pub fn get_volume_envelope_direction(&self) -> (r: bool)
        ensures
            r == self.volume_envelope_direction,
    {
        self.volume_envelope_direction
    }

    pub fn set_volume_envelope_period(&mut self, period: u8)
        ensures
            *final(self) == (SquareChannel {
                volume_envelope_period: period,
                volume_envelope_tick_counts: period,
                ..*old(self)
            }),
    {
        self.volume_envelope_period = period;
        self.volume_envelope_tick_counts = period;
    }

    pub fn get_volume_envelope_period(&self) -> (r: u8)
        ensures
            r == self.volume_envelope_period,
    {
        self.volume_envelope_period
    }

    /// One sample-clock tick: the frequency timer counts down; on reload
    /// the waveform advances one of its eight steps.
    pub open spec fn spec_clock_tick(self) -> SquareChannel {
        let counts = (self.frequency_timer_tick_counts - 1) as u32;
        if counts == 0 {
            SquareChannel {
                frequency_timer_tick_counts: self.frequency_timer_ticks,
                wave_step: ((self.wave_step + 1) % 8) as u8,
                ..self
            }
        } else {
            SquareChannel { frequency_timer_tick_counts: counts, ..self }
        }
    }

    pub fn clock_tick(&mut self)
        requires
            old(self).wf(),
        ensures
            *final(self) == old(self).spec_clock_tick(),
            final(self).wf(),
    {
        self.frequency_timer_tick_counts = self.frequency_timer_tick_counts - 1;
        if self.frequency_timer_tick_counts == 0 {
            self.frequency_timer_tick_counts = self.frequency_timer_ticks;
            self.wave_step = (self.wave_step + 1) % 8;
        }
    }

    /// The ±1 duty waveform sample, 0 while the channel is off.
    pub open spec fn spec_output(self) -> int {
        if self.on {
            match self.duty {
                0 => if self.wave_step == 7 {
                    1int
                } else {
                    -1int
                },
                1 => if self.wave_step == 0 || self.wave_step == 7 {
                    1int
                } else {
                    -1int
                },
                2 => if self.wave_step < 4 {
                    1int
                } else {
                    -1int
                },
                _ => if self.wave_step == 0 || self.wave_step == 7 {
                    -1int
                } else {
                    1int
                },
            }
        } else {
            0
        }
    }

    fn get_output(&self) -> (r: i16)
        requires
            self.wf(),
        ensures
            r == self.spec_output(),
    {
        if self.on {
            match self.duty {
                0 => if self.wave_step == 7 {
                    1
                } else {
                    -1
                },
                1 => if self.wave_step == 0 || self.wave_step == 7 {
                    1
                } else {
                    -1
                },
                2 => if self.wave_step < 4 {
                    1
                } else {
                    -1
                },
                _ => if self.wave_step == 0 || self.wave_step == 7 {
                    -1
                } else {
                    1
                },
            }
        } else {
            0
        }
    }

    /// The channel's current contribution to the mix.
    pub open spec fn spec_value(self) -> int {
        self.spec_output() * self.volume * (8000int / 15)
    }

    pub fn get_value(&self) -> (r: i16)
        requires
            self.wf(),
        ensures
            r == self.spec_value(),
            -8000 <= r <= 8000,
    {
        let sample = self.get_output();
        let volume = self.volume as i16;
        proof {
            assert(-15 <= sample * volume <= 15) by (nonlinear_arith)
                requires
                    -1 <= sample <= 1,
                    0 <= volume < 16,
            ;
        }
        let scaled = sample * volume;
        proof {
            assert(-7995 <= scaled * 533 <= 7995) by (nonlinear_arith)
                requires
                    -15 <= scaled <= 15,
            ;
        }
        scaled * (8000 / 15)
    }

    /// One length tick: with the counter enabled it counts down; at zero
    /// the channel switches off.
    pub open spec fn spec_length_tick(self) -> SquareChannel {
        if self.counter_on {
            let counter = if self.counter > 0 {
                (self.counter - 1) as u8
            } else {
                self.counter
            };
            if counter == 0 {
                SquareChannel { counter, on: false, ..self }
            } else {
                SquareChannel { counter, ..self }
            }
        } else {
            self
        }
    }

    pub fn length_counter_tick(&mut self)
        ensures
            *final(self) == old(self).spec_length_tick(),
    {
        if self.counter_on {
            if self.counter > 0 {
                self.counter = self.counter - 1;
            }
            if self.counter == 0 {
                self.on = false;
            }
        }
    }

    /// One envelope tick, active only while the channel plays.
    pub open spec fn spec_envelope_tick(self) -> SquareChannel {
        if !self.on || self.volume_envelope_period == 0 {
            self
        } else {
            let counts = if self.volume_envelope_tick_counts > 0 {
                (self.volume_envelope_tick_counts - 1) as u8
            } else {
                self.volume_envelope_tick_counts
            };
            if counts == 0 {
                let volume = if self.volume > 0 && !self.volume_envelope_direction {
                    (self.volume - 1) as u8
                } else if self.volume < 15 && self.volume_envelope_direction {
                    (self.volume + 1) as u8
                } else {
                    self.volume
                };
                SquareChannel {
                    volume_envelope_tick_counts: self.volume_envelope_period,
                    volume,
                    ..self
                }
            } else {
                SquareChannel { volume_envelope_tick_counts: counts, ..self }
            }
        }
    }

    pub fn volume_envelope_tick(&mut self)
        requires
            old(self).wf(),
        ensures
            *final(self) == old(self).spec_envelope_tick(),
            final(self).wf(),
    {
        if !self.on || self.volume_envelope_period == 0 {
            return ;
        }
        if self.volume_envelope_tick_counts > 0 {
            self.volume_envelope_tick_counts = self.volume_envelope_tick_counts - 1;
        }
        if self.volume_envelope_tick_counts == 0 {
            self.volume_envelope_tick_counts = self.volume_envelope_period;
            if self.volume > 0 && !self.volume_envelope_direction {
                self.volume = self.volume - 1;
            } else if self.volume < 15 && self.volume_envelope_direction {
                self.volume = self.volume + 1;
            }
        }
    }
}

} // verus!
