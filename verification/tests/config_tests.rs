use metronomo::config::{
    ConfigChange, MetronomeConfig, MAX_BEATS, MAX_BPM, MAX_SUBDIVISIONS, MAX_VOLUME, MIN_BEATS,
    MIN_BPM, MIN_VOLUME,
};

fn sample() -> MetronomeConfig {
    MetronomeConfig { bpm: 120, volume: 100, beats: 4, subdivisions: 1, accent: true, playing: false }
}

#[test]
fn pack_is_little_endian_bytes() {
    let c = sample();
    assert_eq!(c.to_u64(), u64::from_le_bytes([120, 0, 100, 4, 1, 1, 0, 0]));
    let c = MetronomeConfig { bpm: 500, volume: 7, beats: 12, subdivisions: 4, accent: false, playing: true };
    assert_eq!(c.to_u64(), u64::from_le_bytes([0xF4, 0x01, 7, 12, 4, 0, 1, 0]));
}

#[test]
fn unpack_reads_bytes() {
    let v = u64::from_le_bytes([0x2C, 0x01, 50, 3, 2, 0, 1, 0]);
    let c = MetronomeConfig::from_u64(v);
    assert_eq!(c, MetronomeConfig { bpm: 300, volume: 50, beats: 3, subdivisions: 2, accent: false, playing: true });
}

#[test]
fn unpack_flag_bytes_nonzero_mean_set_and_top_byte_ignored() {
    let v = u64::from_le_bytes([1, 0, 0, 2, 1, 7, 0xFF, 0xAB]);
    let c = MetronomeConfig::from_u64(v);
    assert!(c.accent);
    assert!(c.playing);
    assert_eq!(c.bpm, 1);
    assert_eq!(c.beats, 2);
}

#[test]
fn pack_unpack_round_trip() {
    for bpm in [0u16, 1, 120, 500, 65535] {
        for accent in [false, true] {
            for playing in [false, true] {
                let c = MetronomeConfig { bpm, volume: 255, beats: 0, subdivisions: 9, accent, playing };
                assert_eq!(MetronomeConfig::from_u64(c.to_u64()), c);
            }
        }
    }
}

#[test]
fn unpack_pack_round_trip() {
    let v = u64::from_le_bytes([9, 8, 7, 6, 5, 1, 0, 0]);
    assert_eq!(MetronomeConfig::from_u64(v).to_u64(), v);
}

#[test]
fn from_trait_conversions_agree() {
    let c = sample();
    let v: u64 = u64::from(c);
    assert_eq!(v, c.to_u64());
    assert_eq!(MetronomeConfig::from(v), c);
}

#[test]
fn bpm_limits() {
    let mut c = sample();
    c.bpm = MAX_BPM;
    c.inc_bpm();
    assert_eq!(c.bpm, MAX_BPM);
    c.bpm = MIN_BPM;
    c.dec_bpm();
    assert_eq!(c.bpm, MIN_BPM);
    c.bpm = 0;
    c.dec_bpm();
    assert_eq!(c.bpm, 1);
    c.bpm = 65535;
    c.inc_bpm();
    assert_eq!(c.bpm, 500);
    c.bpm = 120;
    c.inc_bpm();
    assert_eq!(c.bpm, 121);
    c.dec_bpm();
    c.dec_bpm();
    assert_eq!(c.bpm, 119);
}

#[test]
fn volume_limits() {
    let mut c = sample();
    c.inc_volume();
    assert_eq!(c.volume, MAX_VOLUME);
    c.volume = MIN_VOLUME;
    c.dec_volume();
    assert_eq!(c.volume, 0);
    c.inc_volume();
    assert_eq!(c.volume, 1);
}

#[test]
fn beats_changes_stop_playback() {
    let mut c = sample();
    c.playing = true;
    c.inc_beats();
    assert_eq!(c.beats, 5);
    assert!(!c.playing);
    c.beats = MAX_BEATS;
    c.inc_beats();
    assert_eq!(c.beats, MAX_BEATS);
    c.beats = MIN_BEATS;
    c.playing = true;
    c.dec_beats();
    assert_eq!(c.beats, MIN_BEATS);
    assert!(!c.playing);
}

#[test]
fn subdivisions_cycle_and_stop() {
    let mut c = sample();
    c.playing = true;
    let mut seen = Vec::new();
    for _ in 0..MAX_SUBDIVISIONS {
        c.change_subdivisions();
        seen.push(c.subdivisions);
    }
    assert_eq!(seen, vec![2, 3, 4, 1]);
    assert!(!c.playing);
    c.subdivisions = 200;
    c.change_subdivisions();
    assert_eq!(c.subdivisions, 1);
}

#[test]
fn toggles() {
    let mut c = sample();
    c.toggle_accent();
    assert!(!c.accent);
    c.toggle_playing();
    assert!(c.playing);
    c.toggle_accent();
    c.toggle_playing();
    assert_eq!(c, sample());
}

#[test]
fn apply_matches_methods() {
    let all = [
        ConfigChange::IncBpm,
        ConfigChange::DecBpm,
        ConfigChange::IncVolume,
        ConfigChange::DecVolume,
        ConfigChange::IncBeats,
        ConfigChange::DecBeats,
        ConfigChange::ChangeSubdivisions,
        ConfigChange::ToggleAccent,
        ConfigChange::TogglePlaying,
    ];
    for change in all {
        let mut a = sample();
        a.apply(change);
        let mut b = sample();
        match change {
            ConfigChange::IncBpm => b.inc_bpm(),
            ConfigChange::DecBpm => b.dec_bpm(),
            ConfigChange::IncVolume => b.inc_volume(),
            ConfigChange::DecVolume => b.dec_volume(),
            ConfigChange::IncBeats => b.inc_beats(),
            ConfigChange::DecBeats => b.dec_beats(),
            ConfigChange::ChangeSubdivisions => b.change_subdivisions(),
            ConfigChange::ToggleAccent => b.toggle_accent(),
            ConfigChange::TogglePlaying => b.toggle_playing(),
        }
        assert_eq!(a, b);
        assert_eq!(MetronomeConfig::from_u64(a.to_u64()), a);
    }
}

#[test]
fn changes_keep_valid_config_valid() {
    let valid = |c: &MetronomeConfig| {
        (MIN_BPM..=MAX_BPM).contains(&c.bpm)
            && c.volume <= MAX_VOLUME
            && (MIN_BEATS..=MAX_BEATS).contains(&c.beats)
            && (1..=MAX_SUBDIVISIONS).contains(&c.subdivisions)
    };
    let edges = [
        MetronomeConfig { bpm: 1, volume: 0, beats: 2, subdivisions: 1, accent: false, playing: true },
        MetronomeConfig { bpm: 500, volume: 100, beats: 12, subdivisions: 4, accent: true, playing: false },
    ];
    for c in edges {
        for change in [
            ConfigChange::IncBpm,
            ConfigChange::DecBpm,
            ConfigChange::IncVolume,
            ConfigChange::DecVolume,
            ConfigChange::IncBeats,
            ConfigChange::DecBeats,
            ConfigChange::ChangeSubdivisions,
        ] {
            let mut d = c;
            d.apply(change);
            assert!(valid(&d));
        }
    }
}
