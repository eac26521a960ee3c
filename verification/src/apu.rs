//! The audio processing unit: an internal sample clock at a quarter of
//! the CPU clock drives the four channels, a 512 Hz frame sequencer ticks
//! their length counters and envelopes, and a mixer sums the channels,
//! resamples blocks to the host rate and nudges the block length with a
//! proportional-integral controller on the sink's queue depth.
//!
//! The controller and resampler run on exact integer arithmetic: the
//! proportional and integral gains are the ratios 75/10000 and 1/10000.

use vstd::prelude::*;

use crate::audio::AudioDevice;
use crate::cpu::CLOCK_SPEED_IN_HERTZ;
use crate::noise_channel::NoiseChannel;
use crate::square_channel::SquareChannel;
use crate::square_channel::FREQUENCY_TIMER_TICKS_PER_PERIOD;
use crate::wave_channel::WaveChannel;
use crate::wave_channel::WaveChannelView;

verus! {

/// The internal mixer rate: one sample every four CPU cycles.
pub const SOUND_SAMPLE_RATE_IN_HERTZ: u64 = CLOCK_SPEED_IN_HERTZ / 4;

/// CPU cycles per internal sample.
pub const CLOCK_TICKS_PER_SAMPLE: u64 = 4;

/// CPU cycles per frame-sequencer step.
pub const CLOCK_TICKS_PER_512_HERTZ: u64 = CLOCK_SPEED_IN_HERTZ / 512;

/// Nominal host-rate block length.
pub const TARGET_BUFFER_LENGTH_IN_SAMPLES: usize = 1000;

/// Sink queue depth the controller steers toward.
pub const TARGET_QUEUE_LENGTH_IN_SAMPLES: usize = 3000;

/// Internal samples per delivered block: the internal-to-host rate ratio
/// (1048576 / 48000, rounded down to 21) times the nominal block length.
pub const BUFFER_PUSH_SIZE: usize = 21000;

/// Queue depths are clamped here before averaging, so the controller
/// arithmetic stays in range whatever the sink reports.
pub const QUEUE_LENGTH_CLAMP: usize = 1000000;

/// The frequency-timer reload for a waveform frequency, kept at least 1
/// so the countdown stays live even at the highest register values.
pub open spec fn spec_calc_num_timer_ticks(frequency: int, ticks_per_period: int) -> u32 {
    let t = (SOUND_SAMPLE_RATE_IN_HERTZ as int / frequency) / ticks_per_period;
    if 1 <= t < 0x100000000 {
        t as u32
    } else {
        1u32
    }
}

pub fn calc_num_timer_ticks(frequency: u64, ticks_per_period: u32) -> (r: u32)
    requires
        frequency >= 1,
        ticks_per_period >= 1,
    ensures
        r == spec_calc_num_timer_ticks(frequency as int, ticks_per_period as int),
        r >= 1,
{
    let per_sample = SOUND_SAMPLE_RATE_IN_HERTZ / frequency;
    let t = (per_sample as u32) / ticks_per_period;
    proof {
        assert(SOUND_SAMPLE_RATE_IN_HERTZ as int / frequency as int <= SOUND_SAMPLE_RATE_IN_HERTZ)
            by {
            vstd::arithmetic::div_mod::lemma_div_is_ordered_by_denominator(
                SOUND_SAMPLE_RATE_IN_HERTZ as int,
                1,
                frequency as int,
            );
        }
    }
    if t == 0 {
        1
    } else {
        t
    }
}

/// Truncating (toward-zero) signed division by a positive divisor, as the
/// controller and resampler use it.
pub open spec fn spec_div_trunc(a: int, b: int) -> int {
    if a >= 0 {
        a / b
    } else {
        -((-a) / b)
    }
}

pub fn div_trunc(a: i64, b: u64) -> (r: i64)
    requires
        b >= 1,
        a > i64::MIN,
    ensures
        r == spec_div_trunc(a as int, b as int),
{
    if a >= 0 {
        ((a as u64) / b) as i64
    } else {
        let q = ((-a) as u64) / b;
        proof {
            assert(((-a) as u64) / b <= ((-a) as u64)) by {
                vstd::arithmetic::div_mod::lemma_div_is_ordered_by_denominator(
                    (-a) as int,
                    1,
                    b as int,
                );
            }
        }
        -(q as i64)
    }
}

/// Sum of a sequence of samples.
pub open spec fn spec_sum_i16(s: Seq<i16>) -> int
    decreases s.len(),
{
    if s.len() == 0 {
        0
    } else {
        spec_sum_i16(s.drop_last()) + s.last()
    }
}

/// Sum of a sequence of (clamped) queue depths.
pub open spec fn spec_sum_usize(s: Seq<usize>) -> int
    decreases s.len(),
{
    if s.len() == 0 {
        0
    } else {
        spec_sum_usize(s.drop_last()) + s.last()
    }
}

/// Clamp a value into [-bound, bound].
pub open spec fn spec_clamp(value: int, bound: int) -> int {
    if value > bound {
        bound
    } else if value < -bound {
        -bound
    } else {
        value
    }
}

/// The pitch the controller computes from the depth window and the
/// running integral: 75/10000 of (target - mean depth) plus 1/10000 of
/// the integral, clamped into the 16-bit correction range.  The raw term
/// is clamped first, far outside the range that matters, so the
/// arithmetic stays in machine range.
pub open spec fn spec_pitch(difference: int, integral: int) -> i16 {
    let total = spec_clamp(difference * 75 + integral, 400000000);
    let q = spec_div_trunc(total, 10000);
    if q > 32767 {
        32767i16
    } else if q < -32768 {
        -32768i16
    } else {
        q as i16
    }
}

/// i64 addition that saturates instead of wrapping.
pub open spec fn spec_saturating_add_i64(a: int, b: int) -> i64 {
    if a + b > i64::MAX {
        i64::MAX
    } else if a + b < i64::MIN {
        i64::MIN
    } else {
        (a + b) as i64
    }
}

/// Mathematical content of the APU, the audio sink aside.
pub struct ApuView {
    pub buffer: Seq<i16>,
    pub sample_clock: u64,
    pub frame_sequencer_clock: u64,
    pub frame_sequencer_clock_counts: u8,
    pub first: bool,
    pub pitch: i16,
    pub queue_lengths: Seq<usize>,
    pub queue_difference_integral: i64,
    pub sound_on: bool,
    pub channel1: SquareChannel,
    pub channel2: SquareChannel,
    pub channel3: WaveChannelView,
    pub channel4: NoiseChannel,
}

impl ApuView {
    /// The parts of well-formedness the sample loop maintains at every
    /// tick.
    pub open spec fn channels_wf(self) -> bool {
        &&& self.buffer.len() < BUFFER_PUSH_SIZE
        &&& self.queue_lengths.len() <= 20
        &&& (forall|i: int|
            0 <= i < self.queue_lengths.len() ==> self.queue_lengths[i] <= QUEUE_LENGTH_CLAMP)
        &&& self.channel1.wf()
        &&& self.channel2.wf()
        &&& self.channel3.wf()
        &&& self.channel4.wf()
    }

    /// Well-formedness between steps: the clocks also carry at most one
    /// pending sample / sequencer period.
    pub open spec fn wf(self) -> bool {
        &&& self.channels_wf()
        &&& self.sample_clock <= CLOCK_TICKS_PER_SAMPLE
        &&& self.frame_sequencer_clock < CLOCK_TICKS_PER_512_HERTZ
    }

    /// Record one (clamped) sink depth, keep the last twenty, and update
    /// the integral and the pitch.
    pub open spec fn spec_manage_pitch(self, queue_size: usize) -> ApuView {
        let sampled: usize = if queue_size > QUEUE_LENGTH_CLAMP {
            QUEUE_LENGTH_CLAMP
        } else {
            queue_size
        };
        let pushed = self.queue_lengths.push(sampled);
        let window = if pushed.len() > 20 {
            pushed.drop_first()
        } else {
            pushed
        };
        let average = spec_sum_usize(window) / window.len() as int;
        let difference = TARGET_QUEUE_LENGTH_IN_SAMPLES - average;
        let integral = spec_saturating_add_i64(self.queue_difference_integral as int, difference);
        ApuView {
            queue_lengths: window,
            queue_difference_integral: integral,
            pitch: spec_pitch(difference, integral as int),
            ..self
        }
    }

    /// One internal sample: every channel ticks, their sum joins the
    /// buffer; a full buffer is resampled, delivered and cleared (the
    /// sink's depth at that moment feeds the controller).
    pub open spec fn spec_clock_tick(self, queue_size: usize) -> ApuView {
        let ticked = ApuView {
            channel1: self.channel1.spec_clock_tick(),
            channel2: self.channel2.spec_clock_tick(),
            channel3: self.channel3.spec_clock_tick(),
            channel4: self.channel4.spec_clock_tick(),
            ..self
        };
        let sum = ticked.channel1.spec_value() + ticked.channel2.spec_value()
            + ticked.channel3.spec_value() + ticked.channel4.spec_value();
        let buffered = ApuView { buffer: ticked.buffer.push(sum as i16), ..ticked };
        if buffered.buffer.len() >= BUFFER_PUSH_SIZE {
            let adjusted = buffered.spec_manage_pitch(queue_size);
            ApuView { buffer: Seq::empty(), ..adjusted }
        } else {
            buffered
        }
    }

    /// The sample loop: one internal sample per four accumulated cycles.
    pub open spec fn spec_sample_loop(self, queue_size: usize) -> ApuView
        decreases self.sample_clock,
    {
        if self.sample_clock > CLOCK_TICKS_PER_SAMPLE {
            ApuView {
                sample_clock: (self.sample_clock - CLOCK_TICKS_PER_SAMPLE) as u64,
                ..self
            }.spec_clock_tick(queue_size).spec_sample_loop(queue_size)
        } else {
            self
        }
    }

    /// One frame-sequencer step: even steps tick the length counters,
    /// step 7 the envelopes.
    pub open spec fn spec_frame_sequencer_tick(self) -> ApuView {
        let counts = (self.frame_sequencer_clock_counts.wrapping_add(1) % 8) as u8;
        let v = ApuView { frame_sequencer_clock_counts: counts, ..self };
        let v = if counts % 2 == 0 {
            ApuView {
                channel1: v.channel1.spec_length_tick(),
                channel2: v.channel2.spec_length_tick(),
                channel3: v.channel3.spec_length_tick(),
                channel4: v.channel4.spec_length_tick(),
                ..v
            }
        } else {
            v
        };
        if counts == 7 {
            ApuView {
                channel1: v.channel1.spec_envelope_tick(),
                channel2: v.channel2.spec_envelope_tick(),
                channel4: v.channel4.spec_envelope_tick(),
                ..v
            }
        } else {
            v
        }
    }

    /// One APU step for `cycles` CPU cycles, with `queue_size` the sink
    /// depth observed at the start of the step.
    #[verifier::opaque]
    pub open spec fn spec_step(self, cycles: u8, queue_size: usize) -> ApuView {
        let v = if self.first {
            ApuView { first: false, ..self }
        } else {
            self
        };
        let v = ApuView {
            sample_clock: (v.sample_clock + cycles) as u64,
            ..v
        }.spec_sample_loop(queue_size);
        if v.sound_on {
            let clock = (v.frame_sequencer_clock + cycles) as u64;
            if clock >= CLOCK_TICKS_PER_512_HERTZ {
                ApuView {
                    frame_sequencer_clock: (clock - CLOCK_TICKS_PER_512_HERTZ) as u64,
                    ..v
                }.spec_frame_sequencer_tick()
            } else {
                ApuView { frame_sequencer_clock: clock, ..v }
            }
        } else {
            v
        }
    }
}

/// One chunk of the resampled output: samples low..high of the buffer
/// averaged into one, or silence for a degenerate empty chunk.
pub open spec fn spec_resample_chunk(buffer: Seq<i16>, target: int, i: int) -> i16 {
    let low = i * buffer.len() / target;
    let high = (i + 1) * buffer.len() as int / target;
    if high > low {
        spec_div_trunc(spec_sum_i16(buffer.subrange(low, high)), high - low) as i16
    } else {
        0i16
    }
}

/// The internal buffer averaged down to `1000 + pitch` host samples.
pub open spec fn spec_resample(buffer: Seq<i16>, pitch: i16) -> Seq<i16> {
    let target = TARGET_BUFFER_LENGTH_IN_SAMPLES + pitch;
    if target <= 0 {
        Seq::empty()
    } else {
        Seq::new(target as nat, |i: int| spec_resample_chunk(buffer, target as int, i))
    }
}

/// The APU with the audio sink it delivers to.
pub struct Apu<A> {
    pub audio_device: A,
    pub buffer: Vec<i16>,
    pub sample_clock: u64,
    pub frame_sequencer_clock: u64,
    pub frame_sequencer_clock_counts: u8,
    pub first: bool,
    pub pitch: i16,
    pub queue_lengths: Vec<usize>,
    pub queue_difference_integral: i64,
    pub sound_on: bool,
    pub channel1: SquareChannel,
    pub channel2: SquareChannel,
    pub channel3: WaveChannel,
    pub channel4: NoiseChannel,
}

impl<A> View for Apu<A> {
    type V = ApuView;

    open spec fn view(&self) -> ApuView {
        ApuView {
            buffer: self.buffer@,
            sample_clock: self.sample_clock,
            frame_sequencer_clock: self.frame_sequencer_clock,
            frame_sequencer_clock_counts: self.frame_sequencer_clock_counts,
            first: self.first,
            pitch: self.pitch,
            queue_lengths: self.queue_lengths@,
            queue_difference_integral: self.queue_difference_integral,
            sound_on: self.sound_on,
            channel1: self.channel1,
            channel2: self.channel2,
            channel3: self.channel3@,
            channel4: self.channel4,
        }
    }
}

impl<A: AudioDevice> Apu<A> {
    /// A silent APU around the given sink.
    pub fn new(audio_device: A) -> (r: Apu<A>)
        ensures
            r@ == (ApuView {
                buffer: Seq::empty(),
                sample_clock: 0,
                frame_sequencer_clock: 0,
                frame_sequencer_clock_counts: 0,
                first: true,
                pitch: 0,
                queue_lengths: Seq::empty(),
                queue_difference_integral: 0,
                sound_on: false,
                channel1: SquareChannel::spec_initial(),
                channel2: SquareChannel::spec_initial(),
                channel3: WaveChannelView::spec_initial(),
                channel4: NoiseChannel::spec_initial(),
            }),
            r@.wf(),
    {
        Apu {
            audio_device,
            buffer: Vec::new(),
            sample_clock: 0,
            frame_sequencer_clock: 0,
            frame_sequencer_clock_counts: 0,
            first: true,
            pitch: 0,
            queue_lengths: Vec::new(),
            queue_difference_integral: 0,
            sound_on: false,
            channel1: SquareChannel::new(),
            channel2: SquareChannel::new(),
            channel3: WaveChannel::new(),
            channel4: NoiseChannel::new(),
        }
    }

    /// Record one sink depth and recompute integral and pitch.
    fn manage_pitch(&mut self, queue_size: usize)
        requires
            old(self)@.queue_lengths.len() <= 20,
            forall|i: int|
                0 <= i < old(self)@.queue_lengths.len() ==> old(self)@.queue_lengths[i]
                    <= QUEUE_LENGTH_CLAMP,
        ensures
            final(self)@ == old(self)@.spec_manage_pitch(queue_size),
            final(self).audio_device == old(self).audio_device,
    {
        let sampled: usize = if queue_size > QUEUE_LENGTH_CLAMP {
            QUEUE_LENGTH_CLAMP
        } else {
            queue_size
        };
        self.queue_lengths.push(sampled);
        if self.queue_lengths.len() > 20 {
            self.queue_lengths.remove(0);
            proof {
                assert(self.queue_lengths@ =~= old(self)@.queue_lengths.push(
                    sampled,
                ).drop_first());
            }
        }
        let mut sum: u64 = 0;
        let mut k: usize = 0;
        let len = self.queue_lengths.len();
        while k < len
            invariant
                k <= len,
                len == self.queue_lengths@.len() <= 21,
                forall|i: int|
                    0 <= i < self.queue_lengths@.len() ==> self.queue_lengths@[i]
                        <= QUEUE_LENGTH_CLAMP,
                sum == spec_sum_usize(self.queue_lengths@.subrange(0, k as int)),
                sum <= k * (QUEUE_LENGTH_CLAMP as int),
            decreases len - k,
        {
            proof {
                assert(self.queue_lengths@.subrange(0, k as int + 1).drop_last()
                    =~= self.queue_lengths@.subrange(0, k as int));
            }
            sum = sum + self.queue_lengths[k] as u64;
            k = k + 1;
        }
        proof {
            assert(self.queue_lengths@.subrange(0, len as int) =~= self.queue_lengths@);
        }
        let average = sum / len as u64;
        proof {
            assert(sum as int / len as int <= sum) by {
                vstd::arithmetic::div_mod::lemma_div_is_ordered_by_denominator(
                    sum as int,
                    1,
                    len as int,
                );
            }
        }
        let difference: i64 = TARGET_QUEUE_LENGTH_IN_SAMPLES as i64 - average as i64;
        let integral: i64 = if difference >= 0 {
            if self.queue_difference_integral > i64::MAX - difference {
                i64::MAX
            } else {
                self.queue_difference_integral + difference
            }
        } else {
            if self.queue_difference_integral < i64::MIN - difference {
                i64::MIN
            } else {
                self.queue_difference_integral + difference
            }
        };
        self.queue_difference_integral = integral;
        let total_wide: i128 = difference as i128 * 75 + integral as i128;
        let total: i64 = if total_wide > 400000000 {
            400000000
        } else if total_wide < -400000000 {
            -400000000
        } else {
            total_wide as i64
        };
        let q = div_trunc(total, 10000);
        self.pitch = if q > 32767 {
            32767
        } else if q < -32768 {
            -32768
        } else {
            q as i16
        };
    }

    /// Average the full buffer down to the pitch-adjusted block length.
    pub fn resample(&self) -> (r: Vec<i16>)
        requires
            self@.buffer.len() <= BUFFER_PUSH_SIZE,
        ensures
            r@ == spec_resample(self@.buffer, self.pitch),
    {
        let target_i: i32 = TARGET_BUFFER_LENGTH_IN_SAMPLES as i32 + self.pitch as i32;
        if target_i <= 0 {
            let r: Vec<i16> = Vec::new();
            proof {
                assert(r@ =~= spec_resample(self@.buffer, self.pitch));
            }
            return r;
        }
        let target = target_i as usize;
        let len = self.buffer.len();
        let mut resampled: Vec<i16> = Vec::new();
        let mut i: usize = 0;
        while i < target
            invariant
                i <= target,
                1 <= target <= 33767,
                target == TARGET_BUFFER_LENGTH_IN_SAMPLES + self.pitch,
                len == self@.buffer.len() <= BUFFER_PUSH_SIZE,
                resampled@.len() == i,
                forall|j: int|
                    0 <= j < i ==> resampled@[j] == spec_resample_chunk(
                        self@.buffer,
                        target as int,
                        j,
                    ),
            decreases target - i,
        {
            proof {
                assert(i * len <= 33767 * 21000 && (i + 1) * len <= 33767 * 21000)
                    by (nonlinear_arith)
                    requires
                        0 <= i,
                        i + 1 <= 33767,
                        0 <= len <= 21000,
                ;
            }
            let low = i * len / target;
            let high = (i + 1) * len / target;
            proof {
                assert((i + 1) * len <= target * len) by (nonlinear_arith)
                    requires
                        i + 1 <= target,
                        len >= 0,
                ;
                assert(target * len / target as int == len) by {
                    vstd::arithmetic::div_mod::lemma_div_multiples_vanish(
                        len as int,
                        target as int,
                    );
                }
                assert((i + 1) * len / target as int <= target * len / target as int) by {
                    vstd::arithmetic::div_mod::lemma_div_is_ordered(
                        (i + 1) * len,
                        target * len,
                        target as int,
                    );
                }
                assert(i * len <= (i + 1) * len) by (nonlinear_arith)
                    requires
                        len >= 0,
                ;
                assert(i * len / target as int <= (i + 1) * len / target as int) by {
                    vstd::arithmetic::div_mod::lemma_div_is_ordered(
                        i * len,
                        (i + 1) * len,
                        target as int,
                    );
                }
            }
            let value: i16 = if high > low {
                let mut sum: i64 = 0;
                let mut j: usize = low;
                while j < high
                    invariant
                        low <= j <= high,
                        high <= len,
                        len == self@.buffer.len() <= BUFFER_PUSH_SIZE,
                        sum == spec_sum_i16(self@.buffer.subrange(low as int, j as int)),
                        -(j - low) * 0x8000 <= sum <= (j - low) * 0x7FFF,
                    decreases high - j,
                {
                    proof {
                        assert(self@.buffer.subrange(low as int, j as int + 1).drop_last()
                            =~= self@.buffer.subrange(low as int, j as int));
                    }
                    sum = sum + self.buffer[j] as i64;
                    j = j + 1;
                }
                let average = div_trunc(sum, (high - low) as u64);
                proof {
                    lemma_average_in_range(
                        self@.buffer.subrange(low as int, high as int),
                        sum as int,
                        (high - low) as int,
                    );
                }
                average as i16
            } else {
                0
            };
            resampled.push(value);
            i = i + 1;
        }
        proof {
            assert(resampled@ =~= spec_resample(self@.buffer, self.pitch));
        }
        resampled
    }

    /// Deliver one finished block: consult the sink depth, adjust the
    /// pitch, resample, queue, and clear the internal buffer.
    fn resample_and_push(&mut self, queue_size: usize)
        requires
            old(self)@.buffer.len() <= BUFFER_PUSH_SIZE,
            old(self)@.queue_lengths.len() <= 20,
            forall|i: int|
                0 <= i < old(self)@.queue_lengths.len() ==> old(self)@.queue_lengths[i]
                    <= QUEUE_LENGTH_CLAMP,
        ensures
            final(self)@ == (ApuView {
                buffer: Seq::empty(),
                ..old(self)@.spec_manage_pitch(queue_size)
            }),
            final(self).audio_device == old(self).audio_device,
    {
        self.manage_pitch(queue_size);
        let resampled = self.resample();
        self.audio_device.queue(resampled.as_slice());
        self.buffer.clear();
    }

    /// One internal sample across all four channels.
    fn clock_tick(&mut self, queue_size: usize)
        requires
            old(self)@.channels_wf(),
        ensures
            final(self)@ == old(self)@.spec_clock_tick(queue_size),
            final(self)@.channels_wf(),
            final(self)@.sample_clock == old(self)@.sample_clock,
            final(self)@.frame_sequencer_clock == old(self)@.frame_sequencer_clock,
            final(self).audio_device == old(self).audio_device,
    {
        self.channel1.clock_tick();
        self.channel2.clock_tick();
        self.channel3.clock_tick();
        self.channel4.clock_tick();
        let val1 = self.channel1.get_value();
        let val2 = self.channel2.get_value();
        let val3 = self.channel3.get_value();
        let val4 = self.channel4.get_value();
        self.buffer.push(val1 + val2 + val3 + val4);
        if self.buffer.len() >= BUFFER_PUSH_SIZE {
            self.resample_and_push(queue_size);
        }
    }

    /// One frame-sequencer step.
    fn frame_sequencer_tick(&mut self)
        requires
            old(self)@.channels_wf(),
        ensures
            final(self)@ == old(self)@.spec_frame_sequencer_tick(),
            final(self)@.channels_wf(),
            final(self)@.sample_clock == old(self)@.sample_clock,
            final(self)@.frame_sequencer_clock == old(self)@.frame_sequencer_clock,
            final(self).audio_device == old(self).audio_device,
    {
        self.frame_sequencer_clock_counts = self.frame_sequencer_clock_counts.wrapping_add(1) % 8;
        if self.frame_sequencer_clock_counts % 2 == 0 {
            self.channel1.length_counter_tick();
            self.channel2.length_counter_tick();
            self.channel3.length_counter_tick();
            self.channel4.length_counter_tick();
        }
        if self.frame_sequencer_clock_counts == 7 {
            self.channel1.volume_envelope_tick();
            self.channel2.volume_envelope_tick();
            self.channel4.volume_envelope_tick();
        }
    }

    /// Advance the APU by the cycle cost of the last instruction.  The
    /// very first step primes the sink with a block of silence.  The sink
    /// depth is sampled once at the start of the step; `queue_size` in
    /// the postcondition names whatever the sink answered.
    pub fn step(&mut self, cycles_of_last_command: u8)
        requires
            old(self)@.wf(),
        ensures
            exists|queue_size: usize|
                final(self)@ == old(self)@.spec_step(cycles_of_last_command, queue_size),
            final(self)@.wf(),
            final(self).audio_device == old(self).audio_device,
    {
        proof {
            reveal(ApuView::spec_step);
        }
        let queue_size = self.audio_device.queue_size();
        if self.first {
            let silence = vec![0i16; TARGET_QUEUE_LENGTH_IN_SAMPLES];
            self.audio_device.queue(silence.as_slice());
            self.first = false;
        }
        self.sample_clock = self.sample_clock + cycles_of_last_command as u64;
        let ghost started = self@;
        while self.sample_clock > CLOCK_TICKS_PER_SAMPLE
            invariant
                self@.spec_sample_loop(queue_size) == started.spec_sample_loop(queue_size),
                self@.channels_wf(),
                self@.frame_sequencer_clock == started.frame_sequencer_clock,
                self.audio_device == old(self).audio_device,
            decreases self.sample_clock,
        {
            self.sample_clock = self.sample_clock - CLOCK_TICKS_PER_SAMPLE;
            self.clock_tick(queue_size);
        }
        proof {
            assert(self@ == started.spec_sample_loop(queue_size));
        }
        if self.sound_on {
            self.frame_sequencer_clock = self.frame_sequencer_clock + cycles_of_last_command
                as u64;
            if self.frame_sequencer_clock >= CLOCK_TICKS_PER_512_HERTZ {
                self.frame_sequencer_clock = self.frame_sequencer_clock
                    - CLOCK_TICKS_PER_512_HERTZ;
                self.frame_sequencer_tick();
            }
        }
        proof {
            assert(self@ == old(self)@.spec_step(cycles_of_last_command, queue_size));
        }
    }

    pub fn set_sound_on(&mut self, sound_on: bool)
        ensures
            final(self)@ == (ApuView { sound_on, ..old(self)@ }),
            final(self).audio_device == old(self).audio_device,
    {
        self.sound_on = sound_on;
    }

    pub fn get_sound_on(&self) -> (r: bool)
        ensures
            r == self.sound_on,
    {
        self.sound_on
    }
}

/// The average of a non-empty window of samples stays in the sample
/// range.
proof fn lemma_average_in_range(s: Seq<i16>, sum: int, count: int)
    requires
        count >= 1,
        -count * 0x8000 <= sum <= count * 0x7FFF,
    ensures
        -0x8000 <= spec_div_trunc(sum, count) <= 0x7FFF,
{
    if sum >= 0 {
        assert(sum / count <= 0x7FFF) by (nonlinear_arith)
            requires
                count >= 1,
                sum <= count * 0x7FFF,
                sum >= 0,
        ;
    } else {
        assert((-sum) / count <= 0x8000) by (nonlinear_arith)
            requires
                count >= 1,
                -sum <= count * 0x8000,
                -sum >= 0,
        ;
    }
}


/// Truncating division by a positive divisor is monotone.
proof fn lemma_div_trunc_ordered(a: int, b: int, d: int)
    requires
        a <= b,
        d >= 1,
    ensures
        spec_div_trunc(a, d) <= spec_div_trunc(b, d),
{
    if a >= 0 {
        vstd::arithmetic::div_mod::lemma_div_is_ordered(a, b, d);
    } else if b < 0 {
        vstd::arithmetic::div_mod::lemma_div_is_ordered(-b, -a, d);
    } else {
        vstd::arithmetic::div_mod::lemma_div_pos_is_pos(-a, d);
        vstd::arithmetic::div_mod::lemma_div_pos_is_pos(b, d);
    }
}

/// Pitch control is monotone: the deeper the sink queue runs (the
/// smaller the difference target - mean depth), the smaller the computed
/// pitch, for any fixed integral term.  A sink trending above target
/// therefore pushes the output block length down, one trending below
/// pushes it up.
pub proof fn lemma_pitch_monotone(difference1: int, difference2: int, integral: int)
    requires
        difference1 <= difference2,
    ensures
        spec_pitch(difference1, integral) <= spec_pitch(difference2, integral),
{
    let t1 = spec_clamp(difference1 * 75 + integral, 400000000);
    let t2 = spec_clamp(difference2 * 75 + integral, 400000000);
    assert(t1 <= t2);
    lemma_div_trunc_ordered(t1, t2, 10000);
}

/// Pitch control points the right way: with the queue at or above target
/// (difference at most zero) and a non-positive integral the correction
/// is not positive, and symmetrically below target it is not negative.
pub proof fn lemma_pitch_sign(difference: int, integral: int)
    ensures
        difference <= 0 && integral <= 0 ==> spec_pitch(difference, integral) <= 0,
        difference >= 0 && integral >= 0 ==> spec_pitch(difference, integral) >= 0,
{
    let total = spec_clamp(difference * 75 + integral, 400000000);
    if difference <= 0 && integral <= 0 {
        lemma_div_trunc_ordered(total, 0, 10000);
    }
    if difference >= 0 && integral >= 0 {
        lemma_div_trunc_ordered(0, total, 10000);
    }
}

} // verus!
