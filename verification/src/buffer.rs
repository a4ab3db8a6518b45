//! Immutable sample buffers: decoded audio data plus format metadata.

use vstd::prelude::*;
use crate::units::Time;

verus! {

/// Number of microseconds in one second.
pub const MICROS_PER_SECOND: u64 = 1_000_000;

/// Largest number of samples a buffer may hold, chosen so that every duration
/// computation fits comfortably in 64-bit microseconds (at this bound a mono
/// buffer lasts about twelve days even at one sample per second of audio per
/// hertz of the lowest useful rate).
pub const MAX_SAMPLE_COUNT: u64 = 0xFF_FFFF_FFFF;

/// The mathematical content of a [`SampleBuffer`]: the sample sequence and
/// the format metadata.
pub ghost struct BufferView {
    /// The decoded samples, channel-interleaved.
    pub samples: Seq<i16>,
    /// How many channels are interleaved (1 for mono, 2 for stereo, ...).
    pub channel_count: u32,
    /// How many frames are played per second.
    pub sample_rate: u32,
}

impl BufferView {
    /// A buffer is well formed when its format metadata is meaningful (at
    /// least one channel, a positive sample rate) and it is small enough for
    /// duration arithmetic to stay within 64 bits.
    pub open spec fn wf(self) -> bool {
        &&& self.channel_count >= 1
        &&& self.sample_rate >= 1
        &&& self.samples.len() <= MAX_SAMPLE_COUNT
    }

    /// Number of complete frames: one sample per channel makes a frame.
    pub open spec fn frame_count(self) -> int {
        self.samples.len() as int / self.channel_count as int
    }

    /// How long playing the whole buffer takes, in whole microseconds.
    pub open spec fn duration_micros(self) -> int {
        self.frame_count() * MICROS_PER_SECOND / self.sample_rate as int
    }
}

/// The duration of a well-formed buffer is a non-negative number of
/// microseconds small enough to fit in 64 bits (that is what the sample
/// count cap is for).
pub broadcast proof fn lemma_duration_in_range(b: BufferView)
    requires
        b.wf(),
    ensures
        0 <= #[trigger] b.duration_micros() <= MAX_SAMPLE_COUNT * MICROS_PER_SECOND,
{
    assert(0 <= b.frame_count() <= b.samples.len()) by (nonlinear_arith)
        requires
            b.frame_count() == b.samples.len() as int / b.channel_count as int,
            b.channel_count >= 1,
    ;
    assert(0 <= b.duration_micros() <= b.frame_count() * MICROS_PER_SECOND) by (nonlinear_arith)
        requires
            b.duration_micros() == b.frame_count() * MICROS_PER_SECOND / b.sample_rate as int,
            b.sample_rate >= 1,
            b.frame_count() >= 0,
    ;
}

/// An immutable, shareable block of decoded audio samples plus its format
/// metadata. A buffer owns no playback state: it is a read-only resource
/// that any number of playback handles may borrow at the same time, and it
/// must outlive every handle that references it (Rust lifetimes enforce
/// this statically here).
#[derive(Debug)]
pub struct SampleBuffer {
    samples: Vec<i16>,
    channel_count: u32,
    sample_rate: u32,
}

impl View for SampleBuffer {
    type V = BufferView;

    closed spec fn view(&self) -> BufferView {
        BufferView {
            samples: self.samples@,
            channel_count: self.channel_count,
            sample_rate: self.sample_rate,
        }
    }
}

impl SampleBuffer {
    #[verifier::type_invariant]
    pub(crate) open spec fn inv(self) -> bool {
        self@.wf()
    }

    /// Builds a buffer from decoded samples and format metadata. The
    /// metadata must be meaningful and the buffer small enough for duration
    /// arithmetic to stay in range; decoding and loading are outside this
    /// crate's scope.
    pub fn new(samples: Vec<i16>, channel_count: u32, sample_rate: u32) -> (b: SampleBuffer)
        requires
            channel_count >= 1,
            sample_rate >= 1,
            samples@.len() <= MAX_SAMPLE_COUNT,
        ensures
            b@ == (BufferView { samples: samples@, channel_count, sample_rate }),
    {
        SampleBuffer { samples, channel_count, sample_rate }
    }

    /// The decoded samples, channel-interleaved.
    pub fn samples(&self) -> (r: &Vec<i16>)
        ensures
            r@ == self@.samples,
    {
        &self.samples
    }

    /// How many samples the buffer holds.
    pub fn sample_count(&self) -> (n: usize)
        ensures
            n == self@.samples.len(),
    {
        self.samples.len()
    }

    /// How many channels are interleaved.
    pub fn channel_count(&self) -> (n: u32)
        ensures
            n == self@.channel_count,
    {
        self.channel_count
    }

    /// How many frames are played per second.
    pub fn sample_rate(&self) -> (n: u32)
        ensures
            n == self@.sample_rate,
    {
        self.sample_rate
    }

    /// How long playing the whole buffer takes.
    pub fn duration(&self) -> (d: Time)
        ensures
            d.micros == self@.duration_micros(),
    {
        proof {
            use_type_invariant(self);
        }
        let frames: u64 = (self.samples.len() as u64) / (self.channel_count as u64);
        proof {
            assert(frames <= self.samples@.len()) by (nonlinear_arith)
                requires
                    frames == self.samples@.len() as u64 / self.channel_count as u64,
                    self.channel_count >= 1,
            ;
        }
        let micros: u64 = frames * MICROS_PER_SECOND / (self.sample_rate as u64);
        Time { micros }
    }
}

} // verus!
