use metronomo::config::MetronomeConfig;
use metronomo::runner::{BeatSequencer, FrameStep, Sound};

fn cfg(beats: u8, subdivisions: u8, accent: bool) -> MetronomeConfig {
    MetronomeConfig { bpm: 120, volume: 100, beats, subdivisions, accent, playing: true }
}

#[test]
fn first_frame_starts_a_tick_and_announces_beat_one() {
    let mut s = BeatSequencer::new();
    let step = s.advance_frame(&cfg(4, 1, true), 3, 2);
    assert_eq!(step, FrameStep { starts_tick: true, announce: Some(1), sounding: true });
    assert_eq!(s.sound(), Sound::Accented);
}

#[test]
fn ticks_are_samples_per_tick_apart_and_clicks_last_click_len() {
    let mut s = BeatSequencer::new();
    let c = cfg(2, 1, false);
    let steps: Vec<FrameStep> = (0..8).map(|_| s.advance_frame(&c, 4, 2)).collect();
    let starts: Vec<bool> = steps.iter().map(|x| x.starts_tick).collect();
    assert_eq!(starts, vec![true, false, false, false, true, false, false, false]);
    let sounding: Vec<bool> = steps.iter().map(|x| x.sounding).collect();
    assert_eq!(sounding, vec![true, true, false, false, true, true, false, false]);
    let announce: Vec<Option<u8>> = steps.iter().map(|x| x.announce).collect();
    assert_eq!(announce, vec![Some(1), None, None, None, Some(0), None, None, None]);
}

#[test]
fn sounds_over_a_measure_with_subdivisions() {
    let mut s = BeatSequencer::new();
    let c = cfg(2, 3, true);
    let mut sounds = Vec::new();
    let mut announced = Vec::new();
    for _ in 0..7 {
        let step = s.advance_frame(&c, 1, 1);
        assert!(step.starts_tick);
        sounds.push(s.sound());
        announced.push(step.announce);
    }
    assert_eq!(
        sounds,
        vec![Sound::Accented, Sound::Subbeat, Sound::Subbeat, Sound::Normal, Sound::Subbeat, Sound::Subbeat, Sound::Accented]
    );
    assert_eq!(announced, vec![Some(1), None, None, Some(0), None, None, Some(1)]);
}

#[test]
fn no_accent_first_beat_is_normal() {
    let mut s = BeatSequencer::new();
    s.advance_frame(&cfg(3, 1, false), 1, 0);
    assert_eq!(s.sound(), Sound::Normal);
}

#[test]
fn zero_length_click_is_silent() {
    let mut s = BeatSequencer::new();
    let step = s.advance_frame(&cfg(3, 1, false), 5, 0);
    assert!(step.starts_tick);
    assert!(!step.sounding);
}

#[test]
fn reset_starts_over() {
    let mut s = BeatSequencer::new();
    let c = cfg(4, 2, true);
    for _ in 0..5 {
        s.advance_frame(&c, 1, 1);
    }
    s.reset();
    assert_eq!(s.sound(), Sound::Normal);
    let step = s.advance_frame(&c, 1, 1);
    assert_eq!(step, FrameStep { starts_tick: true, announce: Some(1), sounding: true });
    assert_eq!(s.sound(), Sound::Accented);
}

#[test]
fn measure_repeats_after_all_its_ticks() {
    let mut s = BeatSequencer::new();
    let c = cfg(3, 2, false);
    let first: Vec<FrameStep> = (0..12).map(|_| s.advance_frame(&c, 2, 1)).collect();
    let second: Vec<FrameStep> = (0..12).map(|_| s.advance_frame(&c, 2, 1)).collect();
    assert_eq!(first, second);
}

#[test]
fn start_buffer_stops_when_not_playing() {
    let mut s = BeatSequencer::new();
    let c = cfg(4, 2, true);
    for _ in 0..3 {
        s.advance_frame(&c, 1, 1);
    }
    assert_eq!(s.start_buffer(&c), None);
    let stopped = MetronomeConfig { playing: false, ..c };
    assert_eq!(s.start_buffer(&stopped), Some((0xFF, 0)));
    assert!(s.tick_due());
    assert_eq!(s.sound(), Sound::Normal);
    let step = s.advance_frame(&c, 1, 1);
    assert_eq!(step.announce, Some(1));
    assert_eq!(s.sound(), Sound::Accented);
}
