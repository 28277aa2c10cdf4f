use metronomo::cmd::InputArgs;
use metronomo::config::{ConfigChange, MetronomeConfig};
use metronomo::controls::{command_for_key, Command, Key};
use metronomo::metronome::Metronome;
use metronomo::timestamp::{beat_timestamp, decode_beat_timestamp, NO_BEAT};

fn playing(beats: u8) -> MetronomeConfig {
    MetronomeConfig { bpm: 120, volume: 100, beats, subdivisions: 1, accent: false, playing: true }
}

#[test]
fn timestamp_round_trip() {
    let t = beat_timestamp(2, 1_500_000);
    assert_eq!(t, u64::from_le_bytes({
        let mut b = 1_500_000u64.to_le_bytes();
        b[7] = 2;
        b
    }));
    assert_eq!(decode_beat_timestamp(t, 4), Some((2, 1_500_000)));
    assert_eq!(decode_beat_timestamp(t, 2), None);
    // The top byte of the time is replaced by the beat.
    let t = beat_timestamp(1, u64::MAX);
    assert_eq!(decode_beat_timestamp(t, 3), Some((1, (1u64 << 56) - 1)));
}

#[test]
fn no_beat_mark_is_never_a_beat() {
    let t = beat_timestamp(NO_BEAT, 0);
    for beats in [0u8, 1, 4, 12, 255] {
        assert_eq!(decode_beat_timestamp(t, beats), None);
    }
}

#[test]
fn new_metronome_is_stopped_at_first_beat() {
    let m = Metronome::new(&InputArgs::default());
    assert_eq!(m.current_beat(), 1);
    assert_eq!(m.next_beat(), None);
    let c = m.config();
    assert_eq!(c, MetronomeConfig { bpm: 120, volume: 100, beats: 4, subdivisions: 1, accent: false, playing: false });
    assert_eq!(m.wait_time_at(c, 0), None);
}

#[test]
fn changes_reach_the_shared_config() {
    let mut m = Metronome::new(&InputArgs::default());
    m.inc_bpm();
    m.inc_bpm();
    m.dec_volume();
    m.toggle_accent();
    m.toggle_playing();
    m.change(ConfigChange::IncBeats);
    let c = m.config();
    assert_eq!(c.bpm, 122);
    assert_eq!(c.volume, 99);
    assert!(c.accent);
    assert_eq!(c.beats, 5);
    assert!(!c.playing);
    m.toggle_playing();
    assert!(m.config().playing);
    assert_eq!(m.shared().config(), m.config());
    m.dec_beats();
    m.change_subdivisions();
    m.dec_bpm();
    m.inc_volume();
    let c = m.config();
    assert_eq!((c.bpm, c.volume, c.beats, c.subdivisions, c.playing), (121, 100, 4, 2, false));
    assert_eq!(m.shared().config(), c);
}

#[test]
fn sync_follows_announced_beats() {
    let mut m = Metronome::new(&InputArgs::default());
    let cfg = playing(4);
    // Nothing awaited: take the announcement.
    m.sync_at(cfg, beat_timestamp(1, 1000), 0);
    assert_eq!(m.next_beat(), Some((1, 1000)));
    assert_eq!(m.current_beat(), 1);
    // Before its time the beat is not shown.
    m.sync_at(cfg, beat_timestamp(2, 2000), 999_999);
    assert_eq!(m.current_beat(), 1);
    assert_eq!(m.next_beat(), Some((1, 1000)));
    // At its time it is shown, and the new announcement is awaited.
    m.sync_at(cfg, beat_timestamp(2, 2000), 1_000_000);
    assert_eq!(m.current_beat(), 2);
    assert_eq!(m.next_beat(), Some((2, 2000)));
    // The "no beat" mark leaves nothing awaited.
    m.sync_at(cfg, beat_timestamp(NO_BEAT, 0), 5_000_000);
    assert_eq!(m.current_beat(), 3);
    assert_eq!(m.next_beat(), None);
    // Stopping goes back to the first beat.
    m.sync_at(MetronomeConfig { playing: false, ..cfg }, beat_timestamp(3, 0), 0);
    assert_eq!(m.current_beat(), 1);
    assert_eq!(m.next_beat(), None);
}

#[test]
fn announced_beat_beyond_measure_is_ignored() {
    let mut m = Metronome::new(&InputArgs::default());
    m.sync_at(playing(3), beat_timestamp(3, 10), 0);
    assert_eq!(m.next_beat(), None);
}

#[test]
fn wait_times() {
    let mut m = Metronome::new(&InputArgs::default());
    let cfg = playing(4);
    // Before any announcement: half of the shortest beat, 60 ms.
    assert_eq!(m.wait_time_at(cfg, 0), Some(60_000_000));
    m.sync_at(cfg, beat_timestamp(0, 2_000), 0);
    assert_eq!(m.wait_time_at(cfg, 500_000), Some(1_500_000));
    assert_eq!(m.wait_time_at(cfg, 2_000_000), Some(0));
    assert_eq!(m.wait_time_at(cfg, 3_000_000), Some(0));
    assert_eq!(m.wait_time_at(MetronomeConfig { playing: false, ..cfg }, 0), None);
}

#[test]
fn live_clock_paths_run() {
    let mut m = Metronome::new(&InputArgs::default());
    m.sync();
    assert_eq!(m.get_wait_time(), None);
    m.toggle_playing();
    m.sync();
    assert_eq!(m.current_beat(), 1);
    assert_eq!(m.get_wait_time(), Some(0));
    m.shared().change_timestamp(2, 0);
    m.sync();
    assert_eq!(m.next_beat(), Some((2, 0)));
    m.sync();
    assert_eq!(m.current_beat(), 3);
}

#[test]
fn keys_to_commands() {
    assert_eq!(command_for_key(Key::Char('q')), Some(Command::Quit));
    assert_eq!(command_for_key(Key::Char('Q')), Some(Command::Quit));
    assert_eq!(command_for_key(Key::Char('-')), Some(Command::Change(ConfigChange::DecVolume)));
    assert_eq!(command_for_key(Key::Char('+')), Some(Command::Change(ConfigChange::IncVolume)));
    assert_eq!(command_for_key(Key::Char(' ')), Some(Command::Change(ConfigChange::TogglePlaying)));
    assert_eq!(command_for_key(Key::Char('A')), Some(Command::Change(ConfigChange::ToggleAccent)));
    assert_eq!(command_for_key(Key::Char('s')), Some(Command::Change(ConfigChange::ChangeSubdivisions)));
    assert_eq!(command_for_key(Key::Down), Some(Command::Change(ConfigChange::DecBpm)));
    assert_eq!(command_for_key(Key::Up), Some(Command::Change(ConfigChange::IncBpm)));
    assert_eq!(command_for_key(Key::Left), Some(Command::Change(ConfigChange::DecBeats)));
    assert_eq!(command_for_key(Key::Right), Some(Command::Change(ConfigChange::IncBeats)));
    assert_eq!(command_for_key(Key::Char('x')), None);
    assert_eq!(command_for_key(Key::Other), None);
}
