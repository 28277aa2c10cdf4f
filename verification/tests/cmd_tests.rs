use metronomo::cmd::{parse_value, push_decimal, parse_unsigned, InputArgs};
use metronomo::config::{MetronomeConfig, MAX_BEATS, MAX_BPM, MAX_VOLUME, MIN_BEATS, MIN_BPM, MIN_VOLUME};

#[test]
fn defaults_match_the_readme() {
    let args = InputArgs::default();
    assert_eq!(args, InputArgs { bpm: 120, volume: 100, beats: 4, subdivisions: 1, accent: false });
}

#[test]
fn config_from_args_is_stopped() {
    let args = InputArgs { bpm: 90, volume: 30, beats: 7, subdivisions: 2, accent: true };
    let c = MetronomeConfig::from(&args);
    assert_eq!(c, MetronomeConfig { bpm: 90, volume: 30, beats: 7, subdivisions: 2, accent: true, playing: false });
}

#[test]
fn parse_value_accepts_numbers_in_range() {
    assert_eq!(parse_value("90", MIN_BPM..=MAX_BPM, "bpm"), Ok(90u16));
    assert_eq!(parse_value("500", MIN_BPM..=MAX_BPM, "bpm"), Ok(500u16));
    assert_eq!(parse_value("+7", MIN_BEATS..=MAX_BEATS, "beats"), Ok(7u8));
    assert_eq!(parse_value("0", MIN_VOLUME..=MAX_VOLUME, "volume"), Ok(0u8));
    assert_eq!(parse_value("007", MIN_BEATS..=MAX_BEATS, "beats"), Ok(7u8));
}

#[test]
fn parse_value_out_of_range() {
    assert_eq!(parse_value("0", MIN_BPM..=MAX_BPM, "bpm"), Err("bpm must be in range 1..=500".to_string()));
    assert_eq!(parse_value("501", MIN_BPM..=MAX_BPM, "bpm"), Err("bpm must be in range 1..=500".to_string()));
    assert_eq!(parse_value("13", MIN_BEATS..=MAX_BEATS, "beats"), Err("beats must be in range 2..=12".to_string()));
    assert_eq!(parse_value("101", MIN_VOLUME..=MAX_VOLUME, "volume"), Err("volume must be in range 0..=100".to_string()));
}

#[test]
fn parse_value_not_a_number() {
    assert_eq!(parse_value::<u16>("abc", MIN_BPM..=MAX_BPM, "bpm"), Err("'abc' isn't a valid number".to_string()));
    assert_eq!(parse_value::<u16>("", MIN_BPM..=MAX_BPM, "bpm"), Err("'' isn't a valid number".to_string()));
    assert_eq!(parse_value::<u16>("-5", MIN_BPM..=MAX_BPM, "bpm"), Err("'-5' isn't a valid number".to_string()));
    assert_eq!(parse_value::<u16>("+", MIN_BPM..=MAX_BPM, "bpm"), Err("'+' isn't a valid number".to_string()));
    assert_eq!(parse_value::<u16>(" 12", MIN_BPM..=MAX_BPM, "bpm"), Err("' 12' isn't a valid number".to_string()));
    // Too large for the type: not a number of that type, as `FromStr` says.
    assert_eq!(parse_value::<u8>("256", MIN_VOLUME..=MAX_VOLUME, "volume"), Err("'256' isn't a valid number".to_string()));
    assert_eq!(parse_value::<u16>("70000", MIN_BPM..=MAX_BPM, "bpm"), Err("'70000' isn't a valid number".to_string()));
}

#[test]
fn parse_unsigned_agrees_with_from_str() {
    let samples = ["0", "1", "+1", "255", "256", "65535", "65536", "", "+", "-0", "1a", "٣", "00000000000000000000012", "99999999999999999999999"];
    for s in samples {
        assert_eq!(parse_unsigned(s, 255), s.parse::<u8>().ok().map(u64::from), "{s}");
        assert_eq!(parse_unsigned(s, 65535), s.parse::<u16>().ok().map(u64::from), "{s}");
    }
}

#[test]
fn decimal_writing() {
    for n in [0u64, 7, 10, 99, 100, 500, 65535, u64::MAX] {
        let mut s = String::from("x");
        push_decimal(&mut s, n);
        assert_eq!(s, format!("x{n}"));
    }
}

#[test]
fn decimal_reads_back() {
    for n in [0u64, 9, 10, 255] {
        let mut s = String::new();
        push_decimal(&mut s, n);
        assert_eq!(parse_unsigned(&s, 255), Some(n));
    }
}
