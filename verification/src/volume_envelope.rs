//! A volume envelope: a 4-bit volume that, with a non-zero period, walks
//! one step toward silence or toward full volume every envelope tick,
//! saturating at 0 and 15.

use vstd::prelude::*;

verus! {

#[derive(Clone, Copy, PartialEq, Eq, Structural, Debug)]
pub struct VolumeEnvelope {
    pub volume: u8,
    pub envelope_starting_volume: u8,
    pub volume_envelope_direction: bool,
    pub volume_envelope_period: u8,
    pub volume_envelope_tick_counts: u8,
}

impl VolumeEnvelope {
    /// The envelope keeps a 4-bit volume.
    pub open spec fn wf(self) -> bool {
        self.volume < 16
    }

    pub fn new() -> (r: VolumeEnvelope)
        ensures
            r == (VolumeEnvelope {
                volume: 15,
                envelope_starting_volume: 0,
                volume_envelope_direction: false,
                volume_envelope_period: 0,
                volume_envelope_tick_counts: 0,
            }),
            r.wf(),
    {
        VolumeEnvelope {
            volume: 15,
            envelope_starting_volume: 0,
            volume_envelope_direction: false,
            volume_envelope_period: 0,
            volume_envelope_tick_counts: 0,
        }
    }

    /// Scale a ±1 (or 0) sample to the 16-bit output range.
    pub fn apply_volume_control(&self, sample: i16) -> (r: i16)
        requires
            self.wf(),
            -1 <= sample <= 1,
        ensures
            r == sample * self.volume * (8000int / 15),
            -8000 <= r <= 8000,
    {
        let volume = self.volume as i16;
        proof {
            assert(-15 <= sample * volume <= 15) by (nonlinear_arith)
                requires
                    -1 <= sample <= 1,
                    0 <= volume < 16,
            ;
        }
        let scaled = sample * volume;
        proof {
            assert(-7995 <= scaled * 533 <= 7995) by (nonlinear_arith)
                requires
                    -15 <= scaled <= 15,
            ;
        }
        scaled * (8000 / 15)
    }

    pub fn set_starting_volume(&mut self, value: u8)
        requires
            value < 0x10,
        ensures
            *final(self) == (VolumeEnvelope {
                envelope_starting_volume: value,
                volume: value,
                ..*old(self)
            }),
    {
        self.envelope_starting_volume = value;
        self.volume = value;
    }

    pub fn get_starting_volume(&self) -> (r: u8)
        ensures
            r == self.envelope_starting_volume,
    {
        self.envelope_starting_volume
    }

    pub fn set_direction(&mut self, direction: bool)
        ensures
            *final(self) == (VolumeEnvelope { volume_envelope_direction: direction, ..*old(self) }),
    {
        self.volume_envelope_direction = direction;
    }

    pub fn get_direction(&self) -> (r: bool)
        ensures
            r == self.volume_envelope_direction,
    {
        self.volume_envelope_direction
    }

    pub fn set_period(&mut self, period: u8)
        ensures
            *final(self) == (VolumeEnvelope {
                volume_envelope_period: period,
                volume_envelope_tick_counts: period,
                ..*old(self)
            }),
    {
        self.volume_envelope_period = period;
        self.volume_envelope_tick_counts = period;
    }

    pub fn get_period(&self) -> (r: u8)
        ensures
            r == self.volume_envelope_period,
    {
        self.volume_envelope_period
    }

    /// One envelope tick: with period 0 the envelope is off; otherwise the
    /// countdown reloads at zero and the volume moves one step in the
    /// configured direction, saturating.
    pub open spec fn spec_tick(self) -> VolumeEnvelope {
        if self.volume_envelope_period == 0 {
            self
        } else {
            let counts = if self.volume_envelope_tick_counts > 0 {
                (self.volume_envelope_tick_counts - 1) as u8
            } else {
                self.volume_envelope_tick_counts
            };
            if counts == 0 {
                let volume = if self.volume > 0 && !self.volume_envelope_direction {
                    (self.volume - 1) as u8
                } else if self.volume < 15 && self.volume_envelope_direction {
                    (self.volume + 1) as u8
                } else {
                    self.volume
                };
                VolumeEnvelope {
                    volume_envelope_tick_counts: self.volume_envelope_period,
                    volume,
                    ..self
                }
            } else {
                VolumeEnvelope { volume_envelope_tick_counts: counts, ..self }
            }
        }
    }

    pub fn tick(&mut self)
        requires
            old(self).wf(),
        ensures
            *final(self) == old(self).spec_tick(),
            final(self).wf(),
    {
        if self.volume_envelope_period == 0 {
            return ;
        }
        if self.volume_envelope_tick_counts > 0 {
            self.volume_envelope_tick_counts = self.volume_envelope_tick_counts - 1;
        }
        if self.volume_envelope_tick_counts == 0 {
            self.volume_envelope_tick_counts = self.volume_envelope_period;
            if self.volume > 0 && !self.volume_envelope_direction {
                self.volume = self.volume - 1;
            } else if self.volume < 15 && self.volume_envelope_direction {
                self.volume = self.volume + 1;
            }
        }
    }
}

} // verus!
