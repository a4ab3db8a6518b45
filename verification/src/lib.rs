//! A small, self-contained model of a single-shot sound playback handle.
//!
//! The crate offers two types. [`buffer::SampleBuffer`] is an immutable block
//! of decoded audio samples together with its format metadata (channel count
//! and sample rate); many handles may borrow one buffer at the same time.
//! [`sound::Sound`] is a playback handle bound to at most one such buffer: it
//! carries transport state (stopped, paused or playing, plus the play-head
//! offset), a looping flag, and the per-voice output parameters (pitch,
//! volume, 3D position, listener relativity, minimum distance and
//! attenuation).
//!
//! Scalar output parameters are carried as raw 32-bit encodings
//! ([`units::Scalar`]) and stored uninterpreted: this layer validates nothing
//! about them and hands back exactly what was set. Durations are carried as
//! whole microseconds ([`units::Time`]).

pub mod buffer;
pub mod laws;
pub mod sound;
pub mod units;
