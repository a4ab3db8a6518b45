//! The playback handle: transport state, looping, play-head offset, output
//! parameters, and an optional borrowed sample buffer.

use vstd::prelude::*;
use crate::buffer::BufferView;
use crate::buffer::SampleBuffer;
use crate::units::Scalar;
use crate::units::Time;
use crate::units::Vector3;

verus! {

broadcast use crate::buffer::lemma_duration_in_range;

/// Raw encoding of the default pitch multiplier (one).
pub const DEFAULT_PITCH_BITS: u32 = 0x3F80_0000;

/// Raw encoding of the default volume (one hundred, the full-volume end of
/// the nominal zero-to-one-hundred range).
pub const DEFAULT_VOLUME_BITS: u32 = 0x42C8_0000;

/// Raw encoding of the default minimum attenuation distance (one).
pub const DEFAULT_MIN_DISTANCE_BITS: u32 = 0x3F80_0000;

/// Raw encoding of the default attenuation factor (one).
pub const DEFAULT_ATTENUATION_BITS: u32 = 0x3F80_0000;

/// Transport state of a playback handle.
#[derive(Clone, Copy, Debug, PartialEq, Eq, Structural)]
pub enum SoundStatus {
    /// Not playing; the play head rests at the start.
    Stopped,
    /// Playing is suspended; the play head keeps its position.
    Paused,
    /// The voice is producing audio and the play head advances.
    Playing,
}

/// The mathematical content of a [`Sound`] handle: everything a voice
/// carries, with the attached buffer abstracted to its own view.
pub ghost struct SoundView {
    /// Transport state.
    pub status: SoundStatus,
    /// Whether playback restarts from the top at the end of the buffer.
    pub looping: bool,
    /// Play-head position, in microseconds from the start of the buffer.
    pub offset_micros: u64,
    /// Pitch multiplier, as a raw scalar encoding.
    pub pitch: Scalar,
    /// Volume, as a raw scalar encoding.
    pub volume: Scalar,
    /// Position of the voice in 3D space.
    pub position: Vector3,
    /// Whether the position is interpreted relative to the listener.
    pub relative_to_listener: bool,
    /// Distance within which the voice is heard at full volume.
    pub min_distance: Scalar,
    /// How fast the voice fades beyond the minimum distance.
    pub attenuation: Scalar,
    /// The attached sample buffer, if any.
    pub buffer: Option<BufferView>,
}

impl SoundView {
    /// A handle is well formed when its play head stays inside the attached
    /// buffer, a handle with no buffer rests stopped, and a stopped handle's
    /// play head rests at zero (which is what makes `stop` idempotent).
    pub open spec fn wf(self) -> bool {
        &&& match self.buffer {
            Some(b) => b.wf() && self.offset_micros <= b.duration_micros(),
            None => self.status == SoundStatus::Stopped,
        }
        &&& self.status is Stopped ==> self.offset_micros == 0
    }

    /// The state of a freshly created handle: stopped at offset zero, not
    /// looping, no buffer, and the engine's default output parameters.
    pub open spec fn initial() -> SoundView {
        SoundView {
            status: SoundStatus::Stopped,
            looping: false,
            offset_micros: 0,
            pitch: Scalar { bits: DEFAULT_PITCH_BITS },
            volume: Scalar { bits: DEFAULT_VOLUME_BITS },
            position: Vector3 {
                x: Scalar { bits: 0 },
                y: Scalar { bits: 0 },
                z: Scalar { bits: 0 },
            },
            relative_to_listener: false,
            min_distance: Scalar { bits: DEFAULT_MIN_DISTANCE_BITS },
            attenuation: Scalar { bits: DEFAULT_ATTENUATION_BITS },
            buffer: None,
        }
    }

    /// Transport transition of `play`: with a buffer attached, the handle
    /// starts playing — from the frozen offset when it was paused, from the
    /// top otherwise (a stopped handle begins at zero, an already playing
    /// one restarts at zero). With no buffer attached, `play` is a no-op.
    pub open spec fn play(self) -> SoundView {
        if self.buffer is None {
            self
        } else if self.status is Paused {
            SoundView { status: SoundStatus::Playing, ..self }
        } else {
            SoundView { status: SoundStatus::Playing, offset_micros: 0, ..self }
        }
    }

    /// Transport transition of `pause`: a playing handle freezes where it
    /// is; a paused or stopped handle is unchanged.
    pub open spec fn pause(self) -> SoundView {
        if self.status is Playing {
            SoundView { status: SoundStatus::Paused, ..self }
        } else {
            self
        }
    }

    /// Transport transition of `stop`: unconditionally stopped, play head
    /// back at zero; everything else is kept.
    pub open spec fn stop(self) -> SoundView {
        SoundView { status: SoundStatus::Stopped, offset_micros: 0, ..self }
    }

    /// Setting the looping flag touches nothing else.
    pub open spec fn with_looping(self, looping: bool) -> SoundView {
        SoundView { looping, ..self }
    }

    /// Moving the play head: while playing or paused the requested position
    /// is clamped to the buffer's duration. A stopped handle is left
    /// untouched — its head rests at zero and the next `play` starts from
    /// the top anyway — as is a handle with no buffer.
    pub open spec fn sought(self, micros: u64) -> SoundView {
        if self.status is Stopped {
            self
        } else {
            match self.buffer {
                Some(b) => SoundView {
                    offset_micros: if micros <= b.duration_micros() {
                        micros
                    } else {
                        b.duration_micros() as u64
                    },
                    ..self
                },
                None => self,
            }
        }
    }

    /// Attaching a buffer: the reference is replaced without copying sample
    /// data and without stopping playback; the play head is clamped to the
    /// new buffer's duration.
    pub open spec fn attached(self, b: BufferView) -> SoundView {
        SoundView {
            buffer: Some(b),
            offset_micros: if self.offset_micros <= b.duration_micros() {
                self.offset_micros
            } else {
                b.duration_micros() as u64
            },
            ..self
        }
    }

    /// Setting the pitch multiplier touches nothing else.
    pub open spec fn with_pitch(self, pitch: Scalar) -> SoundView {
        SoundView { pitch, ..self }
    }

    /// Setting the volume touches nothing else.
    pub open spec fn with_volume(self, volume: Scalar) -> SoundView {
        SoundView { volume, ..self }
    }

    /// Setting the 3D position touches nothing else.
    pub open spec fn with_position(self, position: Vector3) -> SoundView {
        SoundView { position, ..self }
    }

    /// Setting listener relativity touches nothing else.
    pub open spec fn with_relative_to_listener(self, relative: bool) -> SoundView {
        SoundView { relative_to_listener: relative, ..self }
    }

    /// Setting the minimum attenuation distance touches nothing else.
    pub open spec fn with_min_distance(self, distance: Scalar) -> SoundView {
        SoundView { min_distance: distance, ..self }
    }

    /// Setting the attenuation factor touches nothing else.
    pub open spec fn with_attenuation(self, attenuation: Scalar) -> SoundView {
        SoundView { attenuation, ..self }
    }

    /// Duplication: the new voice copies every parameter and the buffer
    /// attachment, but starts with its own stopped play head.
    pub open spec fn duplicated(self) -> SoundView {
        SoundView { status: SoundStatus::Stopped, offset_micros: 0, ..self }
    }

    /// The passage of `elapsed` microseconds of engine time. Only a playing
    /// handle moves: its play head advances, wrapping to the top at the end
    /// of the buffer when looping, and coming to a stop (status stopped,
    /// head at zero) when the end is reached without looping. A buffer of
    /// zero duration has nothing to play, so reaching its end stops the
    /// handle even when looping.
    pub open spec fn advanced(self, elapsed: u64) -> SoundView {
        if !(self.status is Playing) {
            self
        } else {
            match self.buffer {
                Some(b) => {
                    let d = b.duration_micros();
                    let total = self.offset_micros + elapsed;
                    if d <= 0 {
                        SoundView { status: SoundStatus::Stopped, offset_micros: 0, ..self }
                    } else if self.looping {
                        SoundView { offset_micros: (total % d) as u64, ..self }
                    } else if total >= d {
                        SoundView { status: SoundStatus::Stopped, offset_micros: 0, ..self }
                    } else {
                        SoundView { offset_micros: total as u64, ..self }
                    }
                },
                None => self,
            }
        }
    }
}

/// A playback handle: one voice, bound to at most one borrowed
/// [`SampleBuffer`]. The borrow ties the handle's lifetime to the buffer's,
/// so a buffer can never be dropped while a handle still references it.
///
/// The handle is a value: it owns its whole transport and parameter state,
/// and time passes only through [`Sound::advance`], so every observation is
/// deterministic.
pub struct Sound<'s> {
    status: SoundStatus,
    looping: bool,
    offset_micros: u64,
    pitch: Scalar,
    volume: Scalar,
    position: Vector3,
    relative_to_listener: bool,
    min_distance: Scalar,
    attenuation: Scalar,
    buffer: Option<&'s SampleBuffer>,
}

impl<'s> View for Sound<'s> {
    type V = SoundView;

    closed spec fn view(&self) -> SoundView {
        SoundView {
            status: self.status,
            looping: self.looping,
            offset_micros: self.offset_micros,
            pitch: self.pitch,
            volume: self.volume,
            position: self.position,
            relative_to_listener: self.relative_to_listener,
            min_distance: self.min_distance,
            attenuation: self.attenuation,
            buffer: match self.buffer {
                Some(b) => Some(b@),
                None => None,
            },
        }
    }
}

impl<'s> Sound<'s> {
    #[verifier::type_invariant]
    spec fn inv(self) -> bool {
        self@.wf()
    }

    /// Creates a new, empty, stopped handle with default parameters.
    pub fn new() -> (s: Sound<'s>)
        ensures
            s@ == SoundView::initial(),
            s@.status == SoundStatus::Stopped,
            !s@.looping,
            s@.offset_micros == 0,
            s@.buffer is None,
    {
        Sound {
            status: SoundStatus::Stopped,
            looping: false,
            offset_micros: 0,
            pitch: Scalar { bits: DEFAULT_PITCH_BITS },
            volume: Scalar { bits: DEFAULT_VOLUME_BITS },
            position: Vector3 {
                x: Scalar { bits: 0 },
                y: Scalar { bits: 0 },
                z: Scalar { bits: 0 },
            },
            relative_to_listener: false,
            min_distance: Scalar { bits: DEFAULT_MIN_DISTANCE_BITS },
            attenuation: Scalar { bits: DEFAULT_ATTENUATION_BITS },
            buffer: None,
        }
    }

    /// Creates a new handle and attaches `buffer` to it, without copying the
    /// sample data.
    pub fn with_buffer(buffer: &SampleBuffer) -> (s: Sound<'_>)
        ensures
            s@ == SoundView::initial().attached(buffer@),
            s@.buffer == Some(buffer@),
            s@.status == SoundStatus::Stopped,
            s@.offset_micros == 0,
    {
        proof {
            use_type_invariant(buffer);
        }
        let mut s = Sound::new();
        s.set_buffer(buffer);
        s
    }

    /// Current transport state.
    pub fn status(&self) -> (r: SoundStatus)
        ensures
            r == self@.status,
    {
        self.status
    }

    /// Whether playback restarts from the top at the end of the buffer.
    pub fn is_looping(&self) -> (r: bool)
        ensures
            r == self@.looping,
    {
        self.looping
    }

    /// Current play-head position.
    pub fn playing_offset(&self) -> (t: Time)
        ensures
            t.micros == self@.offset_micros,
    {
        Time { micros: self.offset_micros }
    }

    /// The buffer currently attached, or none. The reference returned is the
    /// very one that was attached.
    pub fn buffer(&self) -> (r: Option<&'s SampleBuffer>)
        ensures
            match r {
                Some(b) => self@.buffer == Some(b@),
                None => self@.buffer is None,
            },
    {
        self.buffer
    }

    /// Replaces the attached buffer with `buffer`, without copying the
    /// sample data and without stopping playback; if the new buffer is
    /// shorter than the current play-head position, the head is clamped to
    /// the new end.
    pub fn set_buffer(&mut self, buffer: &'s SampleBuffer)
        ensures
            final(self)@ == old(self)@.attached(buffer@),
            final(self)@.buffer == Some(buffer@),
    {
        proof {
            use_type_invariant(&*self);
            use_type_invariant(buffer);
        }
        let d = buffer.duration();
        if self.offset_micros > d.micros {
            self.offset_micros = d.micros;
        }
        self.buffer = Some(buffer);
    }

    /// Sets whether playback restarts from the top at the end of the buffer.
    pub fn set_looping(&mut self, looping: bool)
        ensures
            final(self)@ == old(self)@.with_looping(looping),
            final(self)@.looping == looping,
    {
        proof {
            use_type_invariant(&*self);
        }
        self.looping = looping;
    }

    /// Starts or resumes playing. With a buffer attached, a stopped handle
    /// begins from offset zero, a paused handle resumes from its frozen
    /// offset, and an already playing handle restarts from offset zero.
    /// With no buffer attached, nothing happens and the handle stays
    /// stopped — never a crash. Playback then proceeds only through
    /// [`Sound::advance`]; the call itself does not block.
    pub fn play(&mut self)
        ensures
            final(self)@ == old(self)@.play(),
            old(self)@.buffer is Some ==> final(self)@.status == SoundStatus::Playing,
            old(self)@.buffer is None ==> final(self)@ == old(self)@,
            old(self)@.status is Paused ==> final(self)@.offset_micros == old(self)@.offset_micros,
            old(self)@.buffer is Some && !(old(self)@.status is Paused)
                ==> final(self)@.offset_micros == 0,
    {
        proof {
            use_type_invariant(&*self);
        }
        if self.buffer.is_some() {
            if !matches!(self.status, SoundStatus::Paused) {
                self.offset_micros = 0;
            }
            self.status = SoundStatus::Playing;
        }
    }

    /// Pauses a playing handle, freezing the play head where it is; a
    /// paused or stopped handle is left unchanged.
    pub fn pause(&mut self)
        ensures
            final(self)@ == old(self)@.pause(),
            final(self)@.offset_micros == old(self)@.offset_micros,
            old(self)@.status is Playing ==> final(self)@.status == SoundStatus::Paused,
            !(old(self)@.status is Playing) ==> final(self)@ == old(self)@,
    {
        proof {
            use_type_invariant(&*self);
        }
        if matches!(self.status, SoundStatus::Playing) {
            self.status = SoundStatus::Paused;
        }
    }

    /// Stops the handle unconditionally and resets the play head to zero.
    /// Idempotent: stopping a stopped handle changes nothing, since a
    /// stopped handle's play head already rests at zero.
    pub fn stop(&mut self)
        ensures
            final(self)@ == old(self)@.stop(),
            final(self)@.status == SoundStatus::Stopped,
            final(self)@.offset_micros == 0,
            old(self)@.status is Stopped ==> final(self)@ == old(self)@,
    {
        proof {
            use_type_invariant(&*self);
        }
        self.offset_micros = 0;
        self.status = SoundStatus::Stopped;
    }

    /// Moves the play head of a playing or paused handle, clamped to the
    /// buffer's duration. May be called in any transport state, but on a
    /// stopped handle the request is harmless and ignored: its head rests
    /// at zero and the next `play` starts from the top anyway. With no
    /// buffer attached there is nothing to seek in and the request is
    /// ignored too.
    pub fn set_playing_offset(&mut self, time_offset: Time)
        ensures
            final(self)@ == old(self)@.sought(time_offset.micros),
            old(self)@.status is Stopped ==> final(self)@ == old(self)@,
    {
        proof {
            use_type_invariant(&*self);
        }
        if matches!(self.status, SoundStatus::Stopped) {
            return ;
        }
        match self.buffer {
            Some(b) => {
                let d = b.duration();
                if time_offset.micros <= d.micros {
                    self.offset_micros = time_offset.micros;
                } else {
                    self.offset_micros = d.micros;
                }
            },
            None => {},
        }
    }

    /// Lets `elapsed` of engine time pass for this voice. A playing handle
    /// advances its play head: past the end of the buffer it wraps to the
    /// top when looping, and comes to a natural stop otherwise. Paused and
    /// stopped handles do not move. This is the clock of the model: nothing
    /// else makes time pass.
    pub fn advance(&mut self, elapsed: Time)
        ensures
            final(self)@ == old(self)@.advanced(elapsed.micros),
            old(self)@.status is Playing && old(self)@.looping && old(self)@.buffer is Some
                && old(self)@.buffer.unwrap().duration_micros() > 0 ==> final(self)@.status
                == SoundStatus::Playing,
    {
        proof {
            use_type_invariant(&*self);
        }
        if !matches!(self.status, SoundStatus::Playing) {
            return ;
        }
        match self.buffer {
            Some(b) => {
                let d = b.duration();
                if d.micros == 0 {
                    self.offset_micros = 0;
                    self.status = SoundStatus::Stopped;
                    return ;
                }
                let total: u128 = (self.offset_micros as u128) + (elapsed.micros as u128);
                if self.looping {
                    let wrapped: u128 = total % (d.micros as u128);
                    self.offset_micros = wrapped as u64;
                } else if total >= d.micros as u128 {
                    self.offset_micros = 0;
                    self.status = SoundStatus::Stopped;
                } else {
                    self.offset_micros = total as u64;
                }
            },
            None => {},
        }
    }

    /// Sets the pitch multiplier; the value is stored uninterpreted.
    pub fn set_pitch(&mut self, pitch: Scalar)
        ensures
            final(self)@ == old(self)@.with_pitch(pitch),
    {
        proof {
            use_type_invariant(&*self);
        }
        self.pitch = pitch;
    }

    /// Sets the volume; the value is stored uninterpreted, out-of-range
    /// values included.
    pub fn set_volume(&mut self, volume: Scalar)
        ensures
            final(self)@ == old(self)@.with_volume(volume),
    {
        proof {
            use_type_invariant(&*self);
        }
        self.volume = volume;
    }

    /// Sets the position of the voice in 3D space.
    pub fn set_position(&mut self, position: &Vector3)
        ensures
            final(self)@ == old(self)@.with_position(*position),
    {
        proof {
            use_type_invariant(&*self);
        }
        self.position = *position;
    }

    /// Sets the position of the voice from its three coordinates.
    pub fn set_position3f(&mut self, x: Scalar, y: Scalar, z: Scalar)
        ensures
            final(self)@ == old(self)@.with_position(Vector3 { x, y, z }),
    {
        proof {
            use_type_invariant(&*self);
        }
        self.position = Vector3 { x, y, z };
    }

    /// Sets whether the position is interpreted relative to the listener.
    pub fn set_relative_to_listener(&mut self, relative: bool)
        ensures
            final(self)@ == old(self)@.with_relative_to_listener(relative),
    {
        proof {
            use_type_invariant(&*self);
        }
        self.relative_to_listener = relative;
    }

    /// Sets the distance within which the voice is heard at full volume.
    pub fn set_min_distance(&mut self, distance: Scalar)
        ensures
            final(self)@ == old(self)@.with_min_distance(distance),
    {
        proof {
            use_type_invariant(&*self);
        }
        self.min_distance = distance;
    }

    /// Sets how fast the voice fades beyond the minimum distance.
    pub fn set_attenuation(&mut self, attenuation: Scalar)
        ensures
            final(self)@ == old(self)@.with_attenuation(attenuation),
    {
        proof {
            use_type_invariant(&*self);
        }
        self.attenuation = attenuation;
    }

    /// Current pitch multiplier.
    pub fn pitch(&self) -> (r: Scalar)
        ensures
            r == self@.pitch,
    {
        self.pitch
    }

    /// Current volume.
    pub fn volume(&self) -> (r: Scalar)
        ensures
            r == self@.volume,
    {
        self.volume
    }

    /// Current position of the voice in 3D space.
    pub fn position(&self) -> (r: Vector3)
        ensures
            r == self@.position,
    {
        self.position
    }

    /// Whether the position is interpreted relative to the listener.
    pub fn is_relative_to_listener(&self) -> (r: bool)
        ensures
            r == self@.relative_to_listener,
    {
        self.relative_to_listener
    }

    /// Current minimum attenuation distance.
    pub fn min_distance(&self) -> (r: Scalar)
        ensures
            r == self@.min_distance,
    {
        self.min_distance
    }

    /// Current attenuation factor.
    pub fn attenuation(&self) -> (r: Scalar)
        ensures
            r == self@.attenuation,
    {
        self.attenuation
    }
}

impl<'s> Default for Sound<'s> {
    /// Same as [`Sound::new`].
    fn default() -> (s: Sound<'s>)
        ensures
            s@ == SoundView::initial(),
    {
        Sound::new()
    }
}

impl<'s> Clone for Sound<'s> {
    /// Duplicates the handle: the new voice copies every parameter and the
    /// buffer attachment (still without copying sample data), but starts
    /// with its own independent play head, stopped at zero. The two handles
    /// share no mutable state afterwards.
    fn clone(&self) -> (s: Sound<'s>)
        ensures
            s@ == self@.duplicated(),
            s@.status == SoundStatus::Stopped,
            s@.offset_micros == 0,
            s@.looping == self@.looping,
            s@.pitch == self@.pitch,
            s@.volume == self@.volume,
            s@.position == self@.position,
            s@.relative_to_listener == self@.relative_to_listener,
            s@.min_distance == self@.min_distance,
            s@.attenuation == self@.attenuation,
            s@.buffer == self@.buffer,
    {
        proof {
            use_type_invariant(self);
        }
        Sound {
            status: SoundStatus::Stopped,
            looping: self.looping,
            offset_micros: 0,
            pitch: self.pitch,
            volume: self.volume,
            position: self.position,
            relative_to_listener: self.relative_to_listener,
            min_distance: self.min_distance,
            attenuation: self.attenuation,
            buffer: self.buffer,
        }
    }
}

} // verus!
