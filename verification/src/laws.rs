//! Laws of the playback model, proved once over the spec-level transitions
//! that the handle's contracts are written in.

use vstd::prelude::*;
use crate::buffer::BufferView;
use crate::sound::SoundStatus;
use crate::sound::SoundView;
use crate::units::Scalar;
use crate::units::Vector3;

verus! {

broadcast use crate::buffer::lemma_duration_in_range;

/// Pausing right after playing freezes the play head exactly where the play
/// left it, and a handle with a buffer attached is then paused. Pausing a
/// stopped handle (in particular one with no buffer, on which `play` is a
/// no-op) leaves it stopped and wholly unchanged.
pub proof fn lemma_pause_after_play(v: SoundView)
    ensures
        v.play().pause().offset_micros == v.play().offset_micros,
        v.buffer is Some ==> v.play().pause().status == SoundStatus::Paused,
        v.status is Stopped ==> v.pause() == v && v.pause().status == SoundStatus::Stopped,
{
}

/// Stopping always lands in the same transport state — stopped, play head
/// at zero — whatever came before, and it touches nothing else. It is
/// idempotent: stopping twice is the same as stopping once, and stopping a
/// well-formed handle that is already stopped changes nothing at all (its
/// play head already rests at zero).
pub proof fn lemma_stop_resets(v: SoundView)
    ensures
        v.stop().status == SoundStatus::Stopped,
        v.stop().offset_micros == 0,
        v.stop().looping == v.looping,
        v.stop().buffer == v.buffer,
        v.stop().stop() == v.stop(),
        v.wf() && v.status is Stopped ==> v.stop() == v,
{
}

/// A looping voice never ends on its own: however much engine time passes,
/// it is still playing, still looping, still on the same buffer, and its
/// play head stays strictly inside the buffer. The conclusion re-establishes
/// every hypothesis, so the argument repeats for any number of steps: only
/// `stop`, `pause`, or clearing the looping flag and reaching the end can
/// end playback.
pub proof fn lemma_looping_playback_persists(v: SoundView, elapsed: u64)
    requires
        v.wf(),
        v.status is Playing,
        v.looping,
        v.buffer matches Some(b) && b.duration_micros() > 0,
    ensures
        v.advanced(elapsed).wf(),
        v.advanced(elapsed).status is Playing,
        v.advanced(elapsed).looping,
        v.advanced(elapsed).buffer == v.buffer,
        v.advanced(elapsed).offset_micros < v.buffer.unwrap().duration_micros(),
{
    let b = v.buffer.unwrap();
    vstd::arithmetic::div_mod::lemma_mod_bound(
        v.offset_micros + elapsed,
        b.duration_micros(),
    );
}

/// A voice that is not looping comes to a natural stop: once enough engine
/// time has passed to reach the end of the buffer, the handle is stopped
/// with its play head back at zero, exactly as after `stop`.
pub proof fn lemma_natural_end(v: SoundView, elapsed: u64)
    requires
        v.wf(),
        v.status is Playing,
        !v.looping,
        v.buffer matches Some(b) && v.offset_micros + elapsed >= b.duration_micros(),
    ensures
        v.advanced(elapsed) == v.stop(),
        v.advanced(elapsed).status == SoundStatus::Stopped,
        v.advanced(elapsed).offset_micros == 0,
{
}

/// Round trip of every scalar output parameter: setting it and reading it
/// back yields the value that was set, bit for bit, with no validation and
/// no interpretation in between.
pub proof fn lemma_parameter_round_trip(
    v: SoundView,
    pitch: Scalar,
    volume: Scalar,
    position: Vector3,
    relative: bool,
    distance: Scalar,
    attenuation: Scalar,
)
    ensures
        v.with_pitch(pitch).pitch == pitch,
        v.with_volume(volume).volume == volume,
        v.with_position(position).position == position,
        v.with_relative_to_listener(relative).relative_to_listener == relative,
        v.with_min_distance(distance).min_distance == distance,
        v.with_attenuation(attenuation).attenuation == attenuation,
{
}

/// A duplicate's parameter snapshot equals the source's at duplication
/// time, while its transport state is a fresh stopped play head; attaching
/// a buffer is visible in the snapshot exactly as attached.
pub proof fn lemma_duplicate_snapshot(v: SoundView, b: BufferView)
    ensures
        v.duplicated().pitch == v.pitch,
        v.duplicated().volume == v.volume,
        v.duplicated().position == v.position,
        v.duplicated().relative_to_listener == v.relative_to_listener,
        v.duplicated().min_distance == v.min_distance,
        v.duplicated().attenuation == v.attenuation,
        v.duplicated().looping == v.looping,
        v.duplicated().buffer == v.buffer,
        v.duplicated().status == SoundStatus::Stopped,
        v.duplicated().offset_micros == 0,
        v.attached(b).buffer == Some(b),
{
}

} // verus!
