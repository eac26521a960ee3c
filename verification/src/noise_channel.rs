//! The noise channel: a 15-bit linear-feedback shift register clocked at
//! a rate derived from a clock divider and a power-of-two prescaler; the
//! register's low bit gates a ±1 output through the volume envelope.  In
//! 7-bit mode the feedback also lands in bit 6 for a shorter period.

use vstd::prelude::*;

use crate::apu::calc_num_timer_ticks;
use crate::apu::spec_calc_num_timer_ticks;

verus! {

/// The two feedback widths of the shift register.
#[derive(Clone, Copy, PartialEq, Eq, Structural, Debug)]
pub enum ShiftRegisterWidth {
    SevenBit,
    FifteenBit,
}

#[derive(Clone, Copy, PartialEq, Eq, Structural, Debug)]
pub struct NoiseChannel {
    pub frequency_timer_ticks: u32,
    pub frequency_timer_tick_counts: u32,
    pub clock_divider: u8,
    pub prescaler_divider: u8,
    pub on: bool,
    pub counter_on: bool,
    pub counter: u8,
    pub volume: u8,
    pub envelope_starting_volume: u8,
    pub volume_envelope_direction: bool,
    pub volume_envelope_period: u8,
    pub volume_envelope_tick_counts: u8,
    pub shift_register: u16,
    pub shift_register_width: ShiftRegisterWidth,
}

/// The LFSR clock rate: the base rate divided by the clock divider
/// (doubled when the divider is zero), divided by 2^(prescaler+1).
pub open spec fn spec_noise_frequency(clock_divider: u8, prescaler_divider: u8) -> int {
    let base: int = if clock_divider == 0 {
        1048576int
    } else {
        524288int / clock_divider as int
    };
    base / ((1u64 << ((prescaler_divider + 1) as u64)) as int)
}

/// One LFSR step: the new bit is the XOR of the two low bits; the
/// register shifts right and the new bit enters at bit 14 (and bit 6 in
/// 7-bit mode).
pub open spec fn spec_lfsr_shift(shift_register: u16, width: ShiftRegisterWidth) -> u16 {
    let bit0 = shift_register % 2 == 1;
    let bit1 = (shift_register / 2) % 2 == 1;
    let new_bit: u16 = if bit0 != bit1 {
        1
    } else {
        0
    };
    let shifted = shift_register / 2;
    let masked = match width {
        ShiftRegisterWidth::SevenBit => (shifted % 0x4000) & 0x3FBF | (new_bit * 0x40) as u16,
        ShiftRegisterWidth::FifteenBit => (shifted % 0x4000) as u16,
    };
    (masked | (new_bit * 0x4000) as u16) as u16
}

impl NoiseChannel {
    /// The polynomial register keeps the divider to 3 bits and the
    /// prescaler to 4, the volume is 4-bit and the frequency timer live.
    pub open spec fn wf(self) -> bool {
        &&& self.clock_divider < 8
        &&& self.prescaler_divider < 16
        &&& self.volume < 16
        &&& self.frequency_timer_ticks >= 1
        &&& self.frequency_timer_tick_counts >= 1
    }

    pub open spec fn spec_initial() -> NoiseChannel {
        NoiseChannel {
            frequency_timer_ticks: 5242,
            frequency_timer_tick_counts: 5242,
            clock_divider: 0,
            prescaler_divider: 0,
            on: false,
            counter_on: false,
            counter: 0,
            volume: 15,
            envelope_starting_volume: 0,
            volume_envelope_direction: false,
            volume_envelope_period: 0,
            volume_envelope_tick_counts: 0,
            shift_register: 0x7FFF,
            shift_register_width: ShiftRegisterWidth::FifteenBit,
        }
    }

    /// A silent channel ticking at a default 200 Hz, the register seeded
    /// all-ones.
    pub fn new() -> (r: NoiseChannel)
        ensures
            r == NoiseChannel::spec_initial(),
            r.wf(),
    {
        let frequency_timer_ticks = calc_num_timer_ticks(200, 1);
        NoiseChannel {
            frequency_timer_ticks,
            frequency_timer_tick_counts: frequency_timer_ticks,
            clock_divider: 0,
            prescaler_divider: 0,
            on: false,
            counter_on: false,
            counter: 0,
            volume: 15,
            envelope_starting_volume: 0,
            volume_envelope_direction: false,
            volume_envelope_period: 0,
            volume_envelope_tick_counts: 0,
            shift_register: 0x7FFF,
            shift_register_width: ShiftRegisterWidth::FifteenBit,
        }
    }

    pub open spec fn spec_with_dividers(self, clock_divider: u8, prescaler_divider: u8) -> NoiseChannel {
        NoiseChannel {
            clock_divider,
            prescaler_divider,
            frequency_timer_ticks: spec_calc_num_timer_ticks(
                spec_noise_frequency(clock_divider, prescaler_divider),
                1,
            ),
            ..self
        }
    }

    fn set_frequency(&mut self)
        requires
            old(self).clock_divider < 8,
            old(self).prescaler_divider < 16,
        ensures
            *final(self) == old(self).spec_with_dividers(
                old(self).clock_divider,
                old(self).prescaler_divider,
            ),
    {
        let mut frequency: u64 = 524288;
        if self.clock_divider == 0 {
            frequency = frequency * 2;
        } else {
            frequency = frequency / self.clock_divider as u64;
        }
        proof {
            let k = (self.prescaler_divider + 1) as u64;
            assert(1u64 <= (1u64 << k) <= 0x10000) by (bit_vector)
                requires
                    k <= 16,
            ;
            if self.clock_divider != 0 {
                vstd::arithmetic::div_mod::lemma_div_is_ordered_by_denominator(
                    524288,
                    self.clock_divider as int,
                    7,
                );
            }
            vstd::arithmetic::div_mod::lemma_div_non_zero(
                frequency as int,
                (1u64 << k) as int,
            );
        }
        frequency = frequency / (1u64 << ((self.prescaler_divider + 1) as u64));
        self.frequency_timer_ticks = calc_num_timer_ticks(frequency, 1);
    }

    pub fn set_clock_divider(&mut self, clock_divider: u8)
        requires
            clock_divider < 8,
            old(self).prescaler_divider < 16,
        ensures
            *final(self) == old(self).spec_with_dividers(
                clock_divider,
                old(self).prescaler_divider,
            ),
    {
        self.clock_divider = clock_divider;
        self.set_frequency();
    }

    pub fn set_prescaler_divider(&mut self, prescaler_divider: u8)
        requires
            prescaler_divider < 16,
            old(self).clock_divider < 8,
        ensures
            *final(self) == old(self).spec_with_dividers(
                old(self).clock_divider,
                prescaler_divider,
            ),
    {
        self.prescaler_divider = prescaler_divider;
        self.set_frequency();
    }

    pub fn get_clock_divider(&self) -> (r: u8)
        ensures
            r == self.clock_divider,
    {
        self.clock_divider
    }

    pub fn get_prescaler_divider(&self) -> (r: u8)
        ensures
            r == self.prescaler_divider,
    {
        self.prescaler_divider
    }

    /// A trigger write turns the channel on.
    pub fn restart_sound(&mut self)
        ensures
            *final(self) == (NoiseChannel { on: true, ..*old(self) }),
    {
        self.on = true;
    }

    pub fn set_counter_on(&mut self, value: bool)
        ensures
            *final(self) == (NoiseChannel { counter_on: value, ..*old(self) }),
    {
        self.counter_on = value;
    }

    pub fn get_counter_on(&self) -> (r: bool)
        ensures
            r == self.counter_on,
    {
        self.counter_on
    }

    /// Load the length counter with the complement of the user-written
    /// length within the 64-step maximum, as the register file hands it
    /// in; each length tick then counts one step down.
    pub fn set_counter(&mut self, value: u8)
        requires
            0 < value <= 64,
        ensures
            *final(self) == (NoiseChannel { counter: value, ..*old(self) }),
    {
        self.counter = value;
    }

    /// Switch feedback width; the register is reseeded so a mid-stream
    /// switch cannot strand it at all-zeroes.
    pub fn set_shift_register_width(&mut self, shift_register_width: bool)
        ensures
            *final(self) == (NoiseChannel {
                shift_register_width: if shift_register_width {
                    ShiftRegisterWidth::SevenBit
                } else {
                    ShiftRegisterWidth::FifteenBit
                },
                shift_register: 0x7FFF,
                ..*old(self)
            }),
    {
        self.shift_register_width = if shift_register_width {
            ShiftRegisterWidth::SevenBit
        } else {
            ShiftRegisterWidth::FifteenBit
        };
        self.shift_register = 0x7FFF;
    }

    pub fn get_shift_register_width(&self) -> (r: bool)
        ensures
            r == (self.shift_register_width is SevenBit),
    {
        match self.shift_register_width {
            ShiftRegisterWidth::SevenBit => true,
            ShiftRegisterWidth::FifteenBit => false,
        }
    }

    pub fn set_envelope_starting_volume(&mut self, value: u8)
        requires
            value < 0x10,
        ensures
            *final(self) == (NoiseChannel {
                envelope_starting_volume: value,
                volume: value,
                ..*old(self)
            }),
    {
        self.envelope_starting_volume = value;
        self.volume = value;
    }

    pub fn get_envelope_starting_volume(&self) -> (r: u8)
        ensures
            r == self.envelope_starting_volume,
    {
        self.envelope_starting_volume
    }

    pub fn set_volume_envelope_direction(&mut self, direction: bool)
        ensures
            *final(self) == (NoiseChannel { volume_envelope_direction: direction, ..*old(self) }),
    {
        self.volume_envelope_direction = direction;
    }

    pub fn get_volume_envelope_direction(&self) -> (r: bool)
        ensures
            r == self.volume_envelope_direction,
    {
        self.volume_envelope_direction
    }

    pub fn set_volume_envelope_period(&mut self, period: u8)
        ensures
            *final(self) == (NoiseChannel {
                volume_envelope_period: period,
                volume_envelope_tick_counts: period,
                ..*old(self)
            }),
    {
        self.volume_envelope_period = period;
        self.volume_envelope_tick_counts = period;
    }

    pub fn get_volume_envelope_period(&self) -> (r: u8)
        ensures
            r == self.volume_envelope_period,
    {
        self.volume_envelope_period
    }

    /// One LFSR step on this channel.
    pub fn shift_right(&mut self)
        ensures
            *final(self) == (NoiseChannel {
                shift_register: spec_lfsr_shift(
                    old(self).shift_register,
                    old(self).shift_register_width,
                ),
                ..*old(self)
            }),
    {
        let bit0 = self.shift_register % 2 == 1;
        let bit1 = (self.shift_register / 2) % 2 == 1;
        let new_bit: u16 = if bit0 != bit1 {
            1
        } else {
            0
        };
        let shifted = self.shift_register / 2;
        let masked = match self.shift_register_width {
            ShiftRegisterWidth::SevenBit => (shifted % 0x4000) & 0x3FBF | new_bit * 0x40,
            ShiftRegisterWidth::FifteenBit => shifted % 0x4000,
        };
        self.shift_register = masked | new_bit * 0x4000;
    }

    /// One sample-clock tick: the timer counts down; on reload the LFSR
    /// steps once.
    pub open spec fn spec_clock_tick(self) -> NoiseChannel {
        let counts = (self.frequency_timer_tick_counts - 1) as u32;
        if counts == 0 {
            NoiseChannel {
                frequency_timer_tick_counts: self.frequency_timer_ticks,
                shift_register: spec_lfsr_shift(self.shift_register, self.shift_register_width),
                ..self
            }
        } else {
            NoiseChannel { frequency_timer_tick_counts: counts, ..self }
        }
    }

    pub fn clock_tick(&mut self)
        requires
            old(self).wf(),
        ensures
            *final(self) == old(self).spec_clock_tick(),
            final(self).wf(),
    {
        self.frequency_timer_tick_counts = self.frequency_timer_tick_counts - 1;
        if self.frequency_timer_tick_counts == 0 {
            self.frequency_timer_tick_counts = self.frequency_timer_ticks;
            self.shift_right();
        }
    }

    /// ±1 from the register's low bit, 0 while the channel is off.
    pub open spec fn spec_output(self) -> int {
        if self.on {
            if self.shift_register % 2 == 1 {
                1
            } else {
                -1
            }
        } else {
            0
        }
    }

    fn get_output(&self) -> (r: i16)
        ensures
            r == self.spec_output(),
    {
        if self.on {
            if self.shift_register % 2 == 1 {
                1
            } else {
                -1
            }
        } else {
            0
        }
    }

    /// The channel's current contribution to the mix.
    pub open spec fn spec_value(self) -> int {
        self.spec_output() * self.volume * (8000int / 15)
    }

    pub fn get_value(&self) -> (r: i16)
        requires
            self.wf(),
        ensures
            r == self.spec_value(),
            -8000 <= r <= 8000,
    {
        let sample = self.get_output();
        let volume = self.volume as i16;
        proof {
            assert(-15 <= sample * volume <= 15) by (nonlinear_arith)
                requires
                    -1 <= sample <= 1,
                    0 <= volume < 16,
            ;
        }
        let scaled = sample * volume;
        proof {
            assert(-7995 <= scaled * 533 <= 7995) by (nonlinear_arith)
                requires
                    -15 <= scaled <= 15,
            ;
        }
        scaled * (8000 / 15)
    }

    /// One length tick: with the counter enabled it counts down; at zero
    /// the channel switches off.
    pub open spec fn spec_length_tick(self) -> NoiseChannel {
        if self.counter_on {
            let counter = if self.counter > 0 {
                (self.counter - 1) as u8
            } else {
                self.counter
            };
            if counter == 0 {
                NoiseChannel { counter, on: false, ..self }
            } else {
                NoiseChannel { counter, ..self }
            }
        } else {
            self
        }
    }

    pub fn length_counter_tick(&mut self)
        ensures
            *final(self) == old(self).spec_length_tick(),
    {
        if self.counter_on {
            if self.counter > 0 {
                self.counter = self.counter - 1;
            }
            if self.counter == 0 {
                self.on = false;
            }
        }
    }

    /// One envelope tick, active only while the channel plays.
    pub open spec fn spec_envelope_tick(self) -> NoiseChannel {
        if !self.on || self.volume_envelope_period == 0 {
            self
        } else {
            let counts = if self.volume_envelope_tick_counts > 0 {
                (self.volume_envelope_tick_counts - 1) as u8
            } else {
                self.volume_envelope_tick_counts
            };
            if counts == 0 {
                let volume = if self.volume > 0 && !self.volume_envelope_direction {
                    (self.volume - 1) as u8
                } else if self.volume < 15 && self.volume_envelope_direction {
                    (self.volume + 1) as u8
                } else {
                    self.volume
                };
                NoiseChannel {
                    volume_envelope_tick_counts: self.volume_envelope_period,
                    volume,
                    ..self
                }
            } else {
                NoiseChannel { volume_envelope_tick_counts: counts, ..self }
            }
        }
    }

    pub fn volume_envelope_tick(&mut self)
        requires
            old(self).wf(),
        ensures
            *final(self) == old(self).spec_envelope_tick(),
            final(self).wf(),
    {
        if !self.on || self.volume_envelope_period == 0 {
            return ;
        }
        if self.volume_envelope_tick_counts > 0 {
            self.volume_envelope_tick_counts = self.volume_envelope_tick_counts - 1;
        }
        if self.volume_envelope_tick_counts == 0 {
            self.volume_envelope_tick_counts = self.volume_envelope_period;
            if self.volume > 0 && !self.volume_envelope_direction {
                self.volume = self.volume - 1;
            } else if self.volume < 15 && self.volume_envelope_direction {
                self.volume = self.volume + 1;
            }
        }
    }
}

} // verus!
