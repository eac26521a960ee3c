//! The audio sink the APU feeds: the host hands the core an
//! implementation wrapping its output queue; the core queues blocks of
//! signed 16-bit samples and watches the queue depth to pace itself.

use vstd::prelude::*;

verus! {

/// Host sample rate the mixer resamples to.
pub const OUTPUT_SAMPLE_RATE_IN_HERTZ: i32 = 48_000;

/// A queue of mono signed 16-bit samples.  The host implements it;
/// nothing is assumed about its behaviour.
pub trait AudioDevice {
    /// Append a block of samples to the output queue.
    fn queue(&self, samples: &[i16]);

    /// Samples currently waiting in the output queue.
    fn queue_size(&self) -> usize;
}

} // verus!
