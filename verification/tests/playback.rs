use sound_handle::buffer::SampleBuffer;
use sound_handle::sound::Sound;
use sound_handle::sound::SoundStatus;
use sound_handle::units::Time;

/// A buffer lasting `seconds` seconds: mono, 4 frames per second.
fn buffer_seconds(seconds: usize) -> SampleBuffer {
    SampleBuffer::new(vec![0i16; 4 * seconds], 1, 4)
}

const SECOND: u64 = 1_000_000;

#[test]
fn fresh_handle_is_stopped_and_empty() {
    let s = Sound::new();
    assert_eq!(s.status(), SoundStatus::Stopped);
    assert!(!s.is_looping());
    assert_eq!(s.playing_offset().micros, 0);
    assert!(s.buffer().is_none());
}

#[test]
fn fresh_handle_has_engine_defaults() {
    let s = Sound::new();
    assert_eq!(f32::from_bits(s.pitch().bits), 1.0);
    assert_eq!(f32::from_bits(s.volume().bits), 100.0);
    assert_eq!(f32::from_bits(s.position().x.bits), 0.0);
    assert_eq!(f32::from_bits(s.position().y.bits), 0.0);
    assert_eq!(f32::from_bits(s.position().z.bits), 0.0);
    assert!(!s.is_relative_to_listener());
    assert_eq!(f32::from_bits(s.min_distance().bits), 1.0);
    assert_eq!(f32::from_bits(s.attenuation().bits), 1.0);
}

#[test]
fn stop_resets_from_every_state() {
    let b = buffer_seconds(2);

    let mut playing = Sound::with_buffer(&b);
    playing.play();
    playing.advance(Time::from_micros(SECOND / 2));
    playing.stop();
    assert_eq!(playing.status(), SoundStatus::Stopped);
    assert_eq!(playing.playing_offset().micros, 0);

    let mut paused = Sound::with_buffer(&b);
    paused.play();
    paused.advance(Time::from_micros(SECOND / 2));
    paused.pause();
    paused.stop();
    assert_eq!(paused.status(), SoundStatus::Stopped);
    assert_eq!(paused.playing_offset().micros, 0);

    let mut stopped = Sound::with_buffer(&b);
    stopped.stop();
    stopped.stop();
    assert_eq!(stopped.status(), SoundStatus::Stopped);
    assert_eq!(stopped.playing_offset().micros, 0);
}

#[test]
fn pause_freezes_offset() {
    let b = buffer_seconds(2);
    let mut s = Sound::with_buffer(&b);
    s.play();
    s.advance(Time::from_micros(700_000));
    let at_pause = s.playing_offset().micros;
    s.pause();
    assert_eq!(s.status(), SoundStatus::Paused);
    assert_eq!(s.playing_offset().micros, at_pause);
    s.advance(Time::from_micros(SECOND));
    assert_eq!(s.playing_offset().micros, at_pause);
}

#[test]
fn pause_while_stopped_is_a_no_op() {
    let mut s = Sound::new();
    s.pause();
    assert_eq!(s.status(), SoundStatus::Stopped);
    assert_eq!(s.playing_offset().micros, 0);
}

#[test]
fn play_resumes_a_paused_handle() {
    let b = buffer_seconds(2);
    let mut s = Sound::with_buffer(&b);
    s.play();
    s.advance(Time::from_micros(600_000));
    s.pause();
    s.play();
    assert_eq!(s.status(), SoundStatus::Playing);
    assert_eq!(s.playing_offset().micros, 600_000);
}

#[test]
fn play_restarts_a_playing_handle() {
    let b = buffer_seconds(2);
    let mut s = Sound::with_buffer(&b);
    s.play();
    s.advance(Time::from_micros(600_000));
    s.play();
    assert_eq!(s.status(), SoundStatus::Playing);
    assert_eq!(s.playing_offset().micros, 0);
}

#[test]
fn looping_playback_wraps_and_never_ends() {
    let b = buffer_seconds(2);
    let mut s = Sound::with_buffer(&b);
    s.set_looping(true);
    assert!(s.is_looping());
    s.play();
    s.advance(Time::from_micros(3_600_000));
    assert_eq!(s.status(), SoundStatus::Playing);
    assert_eq!(s.playing_offset().micros, 1_600_000);
    for _ in 0..10 {
        s.advance(Time::from_micros(2_000_000));
        assert_eq!(s.status(), SoundStatus::Playing);
        assert_eq!(s.playing_offset().micros, 1_600_000);
    }
    s.advance(Time::from_micros(400_000));
    assert_eq!(s.playing_offset().micros, 0);
    assert_eq!(s.status(), SoundStatus::Playing);
    s.stop();
    assert_eq!(s.status(), SoundStatus::Stopped);
}

#[test]
fn natural_end_without_looping() {
    let b = buffer_seconds(2);
    let mut s = Sound::with_buffer(&b);
    s.play();
    s.advance(Time::from_micros(2 * SECOND));
    assert_eq!(s.status(), SoundStatus::Stopped);
    assert_eq!(s.playing_offset().micros, 0);
}

#[test]
fn clearing_looping_lets_playback_end() {
    let b = buffer_seconds(2);
    let mut s = Sound::with_buffer(&b);
    s.set_looping(true);
    s.play();
    s.advance(Time::from_micros(5 * SECOND));
    assert_eq!(s.status(), SoundStatus::Playing);
    s.set_looping(false);
    s.advance(Time::from_micros(5 * SECOND));
    assert_eq!(s.status(), SoundStatus::Stopped);
    assert_eq!(s.playing_offset().micros, 0);
}

#[test]
fn advance_moves_only_a_playing_handle() {
    let b = buffer_seconds(2);
    let mut s = Sound::with_buffer(&b);
    s.advance(Time::from_micros(SECOND));
    assert_eq!(s.status(), SoundStatus::Stopped);
    assert_eq!(s.playing_offset().micros, 0);
    s.play();
    s.advance(Time::from_micros(SECOND / 4));
    s.pause();
    s.advance(Time::from_micros(SECOND));
    assert_eq!(s.playing_offset().micros, SECOND / 4);
}

#[test]
fn seek_clamps_to_the_buffer_duration() {
    let b = buffer_seconds(2);
    let mut s = Sound::with_buffer(&b);
    s.play();
    s.set_playing_offset(Time::from_micros(1_250_000));
    assert_eq!(s.playing_offset().micros, 1_250_000);
    s.set_playing_offset(Time::from_micros(9 * SECOND));
    assert_eq!(s.playing_offset().micros, 2 * SECOND);
}

#[test]
fn seek_without_a_buffer_is_ignored() {
    let mut s = Sound::new();
    s.set_playing_offset(Time::from_micros(SECOND));
    assert_eq!(s.playing_offset().micros, 0);
    assert_eq!(s.status(), SoundStatus::Stopped);
}

#[test]
fn seek_while_stopped_is_ignored() {
    let b = buffer_seconds(2);
    let mut s = Sound::with_buffer(&b);
    s.set_playing_offset(Time::from_micros(SECOND));
    // A stopped handle's head rests at zero; the next play starts from the
    // top anyway, so the request means nothing and changes nothing.
    assert_eq!(s.playing_offset().micros, 0);
    assert_eq!(s.status(), SoundStatus::Stopped);
    s.play();
    assert_eq!(s.playing_offset().micros, 0);
}

#[test]
fn stop_while_stopped_changes_nothing() {
    let b = buffer_seconds(2);
    let mut s = Sound::with_buffer(&b);
    s.set_looping(true);
    s.stop();
    assert_eq!(s.status(), SoundStatus::Stopped);
    assert_eq!(s.playing_offset().micros, 0);
    assert!(s.is_looping());
    assert!(std::ptr::eq(s.buffer().unwrap(), &b));
}

#[test]
fn empty_buffer_stops_immediately() {
    let b = SampleBuffer::new(Vec::new(), 1, 4);
    assert_eq!(b.duration().micros, 0);
    let mut s = Sound::with_buffer(&b);
    s.set_looping(true);
    s.play();
    assert_eq!(s.status(), SoundStatus::Playing);
    s.advance(Time::from_micros(1));
    assert_eq!(s.status(), SoundStatus::Stopped);
    assert_eq!(s.playing_offset().micros, 0);
}

#[test]
fn two_second_mono_scenario() {
    let b = SampleBuffer::new(vec![0i16; 88_200], 1, 44_100);
    assert_eq!(b.duration().micros, 2 * SECOND);
    let mut s = Sound::new();
    s.set_buffer(&b);
    s.play();
    assert_eq!(s.status(), SoundStatus::Playing);
    s.stop();
    assert_eq!(s.status(), SoundStatus::Stopped);
    assert_eq!(s.playing_offset().micros, 0);
}

#[test]
fn play_without_a_buffer_never_crashes() {
    let mut s = Sound::new();
    s.play();
    // Documented choice: with no buffer attached, `play` is a no-op and the
    // handle stays stopped.
    assert_eq!(s.status(), SoundStatus::Stopped);
    assert_eq!(s.playing_offset().micros, 0);
    s.pause();
    s.stop();
    s.advance(Time::from_micros(SECOND));
    assert_eq!(s.status(), SoundStatus::Stopped);
}
