//! The wave channel: 32 four-bit samples of wave pattern RAM are read in
//! sequence at a rate set by the 11-bit frequency register; a 2-bit
//! volume selector shifts each sample toward silence.

use vstd::prelude::*;

use crate::apu::calc_num_timer_ticks;
use crate::apu::spec_calc_num_timer_ticks;

verus! {

/// Timer ticks per pass over the 32-entry wave pattern.
pub const WAVE_TICKS_PER_PERIOD: u32 = 32;

/// Mathematical content of the wave channel.
pub struct WaveChannelView {
    pub frequency_timer_ticks: u32,
    pub frequency_timer_tick_counts: u32,
    pub frequency_hi: u8,
    pub frequency_lo: u8,
    pub on: bool,
    pub counter_on: bool,
    pub counter: u16,
    pub volume: u8,
    pub wave_pattern: Seq<u8>,
    pub wave_pattern_step: u8,
}

pub struct WaveChannel {
    pub frequency_timer_ticks: u32,
    pub frequency_timer_tick_counts: u32,
    pub frequency_hi: u8,
    pub frequency_lo: u8,
    pub on: bool,
    pub counter_on: bool,
    pub counter: u16,
    pub volume: u8,
    pub wave_pattern: Vec<u8>,
    pub wave_pattern_step: u8,
}

impl View for WaveChannel {
    type V = WaveChannelView;

    open spec fn view(&self) -> WaveChannelView {
        WaveChannelView {
            frequency_timer_ticks: self.frequency_timer_ticks,
            frequency_timer_tick_counts: self.frequency_timer_tick_counts,
            frequency_hi: self.frequency_hi,
            frequency_lo: self.frequency_lo,
            on: self.on,
            counter_on: self.counter_on,
            counter: self.counter,
            volume: self.volume,
            wave_pattern: self.wave_pattern@,
            wave_pattern_step: self.wave_pattern_step,
        }
    }
}

/// The wave channel's waveform frequency for an 11-bit register value.
pub open spec fn spec_wave_frequency(frequency_hi: u8, frequency_lo: u8) -> int {
    65536int / (2048 - ((frequency_hi as int) * 0x100 + frequency_lo as int))
}

impl WaveChannelView {
    /// A silent channel with zeroed pattern RAM, ticking at the default
    /// 200 Hz reload.
    pub open spec fn spec_initial() -> WaveChannelView {
        WaveChannelView {
            frequency_timer_ticks: 163,
            frequency_timer_tick_counts: 163,
            frequency_hi: 0,
            frequency_lo: 0,
            on: false,
            counter_on: false,
            counter: 0,
            volume: 3,
            wave_pattern: Seq::new(32, |i: int| 0u8),
            wave_pattern_step: 0,
        }
    }

    /// The frequency register is 11 bits, the volume selector 2 bits, the
    /// pattern holds 32 nibbles, the cursor stays inside it, and the
    /// frequency timer is live.
    pub open spec fn wf(self) -> bool {
        &&& self.frequency_hi < 8
        &&& self.volume < 4
        &&& self.wave_pattern.len() == 32
        &&& self.wave_pattern_step < 32
        &&& (forall|i: int| 0 <= i < 32 ==> self.wave_pattern[i] < 16)
        &&& self.frequency_timer_ticks >= 1
        &&& self.frequency_timer_tick_counts >= 1
    }

    pub open spec fn spec_with_frequency(self, frequency_hi: u8, frequency_lo: u8) -> WaveChannelView {
        WaveChannelView {
            frequency_hi,
            frequency_lo,
            frequency_timer_ticks: spec_calc_num_timer_ticks(
                spec_wave_frequency(frequency_hi, frequency_lo),
                WAVE_TICKS_PER_PERIOD as int,
            ),
            ..self
        }
    }

    /// One sample-clock tick: the timer counts down; on reload the
    /// pattern cursor advances through its 32 positions.
    pub open spec fn spec_clock_tick(self) -> WaveChannelView {
        let counts = (self.frequency_timer_tick_counts - 1) as u32;
        if counts == 0 {
            WaveChannelView {
                frequency_timer_tick_counts: self.frequency_timer_ticks,
                wave_pattern_step: ((self.wave_pattern_step + 1) % 32) as u8,
                ..self
            }
        } else {
            WaveChannelView { frequency_timer_tick_counts: counts, ..self }
        }
    }

    /// The raw 4-bit sample under the cursor, 0 while the channel is off.
    pub open spec fn spec_output(self) -> int {
        if self.on {
            self.wave_pattern[self.wave_pattern_step as int] as int
        } else {
            0
        }
    }

    /// The channel's contribution: volume 3, 2, 1 play the sample at
    /// full, half and quarter amplitude; volume 0 mutes.  Scaled to the
    /// output range.
    pub open spec fn spec_value(self) -> int {
        if self.volume == 0 {
            0
        } else {
            (self.spec_output() / (match self.volume {
                3u8 => 1int,
                2u8 => 2int,
                _ => 4int,
            })) * (8000int / 15)
        }
    }

    /// One length tick: with the counter enabled it counts down; at zero
    /// the channel switches off.
    pub open spec fn spec_length_tick(self) -> WaveChannelView {
        if self.counter_on {
            let counter = if self.counter > 0 {
                (self.counter - 1) as u16
            } else {
                self.counter
            };
            if counter == 0 {
                WaveChannelView { counter, on: false, ..self }
            } else {
                WaveChannelView { counter, ..self }
            }
        } else {
            self
        }
    }
}

impl WaveChannel {
    /// A silent channel with zeroed pattern RAM, ticking at a default
    /// 200 Hz.
    pub fn new() -> (r: WaveChannel)
        ensures
            r@ == WaveChannelView::spec_initial(),
            r@.wf(),
    {
        let frequency_timer_ticks = calc_num_timer_ticks(200, WAVE_TICKS_PER_PERIOD);
        let wave_pattern = vec![0u8; 32];
        proof {
            assert(wave_pattern@ =~= Seq::new(32, |i: int| 0u8));
        }
        WaveChannel {
            frequency_timer_ticks,
            frequency_timer_tick_counts: frequency_timer_ticks,
            frequency_hi: 0,
            frequency_lo: 0,
            on: false,
            counter_on: false,
            counter: 0,
            volume: 3,
            wave_pattern,
            wave_pattern_step: 0,
        }
    }

    fn set_frequency(&mut self)
        requires
            old(self).frequency_hi < 8,
        ensures
            final(self)@ == old(self)@.spec_with_frequency(
                old(self).frequency_hi,
                old(self).frequency_lo,
            ),
    {
        let val = (self.frequency_hi as u64) * 0x100 + self.frequency_lo as u64;
        let frequency = 65536 / (2048 - val);
        proof {
            vstd::arithmetic::div_mod::lemma_div_non_zero(65536, 2048 - val as int);
        }
        self.frequency_timer_ticks = calc_num_timer_ticks(frequency, WAVE_TICKS_PER_PERIOD);
    }

    pub fn set_frequency_hi(&mut self, frequency_hi: u8)
        requires
            frequency_hi < 8,
        ensures
            final(self)@ == old(self)@.spec_with_frequency(frequency_hi, old(self).frequency_lo),
    {
        self.frequency_hi = frequency_hi;
        self.set_frequency();
    }

    pub fn set_frequency_lo(&mut self, frequency_lo: u8)
        requires
            old(self).frequency_hi < 8,
        ensures
            final(self)@ == old(self)@.spec_with_frequency(old(self).frequency_hi, frequency_lo),
    {
        self.frequency_lo = frequency_lo;
        self.set_frequency();
    }

    pub fn get_frequency_hi(&self) -> (r: u8)
        ensures
            r == self.frequency_hi,
    {
        self.frequency_hi
    }

    pub fn get_frequency_lo(&self) -> (r: u8)
        ensures
            r == self.frequency_lo,
    {
        self.frequency_lo
    }

    /// A trigger write rewinds the pattern cursor.
    pub fn restart_sound(&mut self)
        ensures
            final(self)@ == (WaveChannelView { wave_pattern_step: 0, ..old(self)@ }),
    {
        self.wave_pattern_step = 0;
    }

    pub fn set_on(&mut self, on: bool)
        ensures
            final(self)@ == (WaveChannelView { on, ..old(self)@ }),
    {
        self.on = on;
    }

    pub fn get_on(&self) -> (r: bool)
        ensures
            r == self.on,
    {
        self.on
    }

    pub fn set_counter_on(&mut self, value: bool)
        ensures
            final(self)@ == (WaveChannelView { counter_on: value, ..old(self)@ }),
    {
        self.counter_on = value;
    }

    pub fn get_counter_on(&self) -> (r: bool)
        ensures
            r == self.counter_on,
    {
        self.counter_on
    }

    /// Load the length counter with the complement of the user-written
    /// length within the 256-step maximum, as the register file hands it
    /// in; each length tick then counts one step down.
    pub fn set_counter(&mut self, value: u16)
        requires
            0 < value <= 256,
        ensures
            final(self)@ == (WaveChannelView { counter: value, ..old(self)@ }),
    {
        self.counter = value;
    }

    pub fn set_volume(&mut self, volume: u8)
        requires
            volume < 4,
        ensures
            final(self)@ == (WaveChannelView { volume, ..old(self)@ }),
    {
        self.volume = volume;
    }

    pub fn clock_tick(&mut self)
        requires
            old(self)@.wf(),
        ensures
            final(self)@ == old(self)@.spec_clock_tick(),
            final(self)@.wf(),
    {
        self.frequency_timer_tick_counts = self.frequency_timer_tick_counts - 1;
        if self.frequency_timer_tick_counts == 0 {
            self.frequency_timer_tick_counts = self.frequency_timer_ticks;
            self.wave_pattern_step = (self.wave_pattern_step + 1) % 32;
        }
    }

    fn get_output(&self) -> (r: u8)
        requires
            self@.wf(),
        ensures
            r == self@.spec_output(),
            r < 16,
    {
        if self.on {
            self.wave_pattern[self.wave_pattern_step as usize]
        } else {
            0
        }
    }

    pub fn get_value(&self) -> (r: i16)
        requires
            self@.wf(),
        ensures
            r == self@.spec_value(),
            -8000 <= r <= 8000,
    {
        if self.volume == 0 {
            return 0;
        }
        let sample = self.get_output();
        let divisor: u8 = match self.volume {
            3 => 1,
            2 => 2,
            _ => 4,
        };
        ((sample / divisor) as i16) * (8000 / 15)
    }

    pub fn length_counter_tick(&mut self)
        ensures
            final(self)@ == old(self)@.spec_length_tick(),
    {
        if self.counter_on {
            if self.counter > 0 {
                self.counter = self.counter - 1;
            }
            if self.counter == 0 {
                self.on = false;
            }
        }
    }
}

} // verus!
