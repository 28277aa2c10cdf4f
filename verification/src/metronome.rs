//! The user interface's side of the metronome: it changes the shared
//! configuration, and follows the beats that the audio callback announces
//! so that the display shows the beat that is sounding.
use std::sync::Arc;

use vstd::prelude::*;

use crate::cmd::InputArgs;
use crate::config::{ConfigChange, MetronomeConfig, MAX_BPM};
use crate::shared::{share, MetronomeData, Observation, StoredConfig};
use crate::timestamp::{decode_beat_timestamp, spec_decode_beat_timestamp};

verus! {

/// How long to wait for input while playing before the first beat is
/// announced: half of the shortest beat, in nanoseconds.
pub open spec fn fallback_wait_nanos() -> int {
    60_000_000_000int / (MAX_BPM * 2)
}

/// The next beat to show: the announced one, while playing and when it is a
/// beat of the measure; its time is in microseconds after the start time.
pub open spec fn spec_next_beat(config: MetronomeConfig, timestamp: u64) -> Option<(u8, u64)> {
    if !config.playing {
        None
    } else {
        spec_decode_beat_timestamp(timestamp, config.beats)
    }
}

/// The shown beat and the next beat after one look at the clock, the
/// configuration and the announcement: stopped, it shows the first beat and
/// waits for none; once the awaited beat's time has come, it shows that beat
/// and awaits the one announced now; with no beat awaited, it awaits the one
/// announced now.
pub open spec fn spec_sync(
    beat: u8,
    next: Option<(u8, u64)>,
    config: MetronomeConfig,
    timestamp: u64,
    now_nanos: u128,
) -> (u8, Option<(u8, u64)>) {
    if !config.playing {
        (0, None)
    } else {
        match next {
            Some((b, micros)) => if now_nanos >= micros * 1000 {
                (b, spec_next_beat(config, timestamp))
            } else {
                (beat, next)
            },
            None => (beat, spec_next_beat(config, timestamp)),
        }
    }
}

/// How long to wait for input, in nanoseconds, or `None` for as long as it
/// takes: stopped, without limit; before the first announcement, the
/// fallback; else until the awaited beat's time, or not at all once it has
/// come.
pub open spec fn spec_wait_time(next: Option<(u8, u64)>, config: MetronomeConfig, now_nanos: u128)
    -> Option<u128> {
    if !config.playing {
        None
    } else {
        match next {
            None => Some(fallback_wait_nanos() as u128),
            Some((_, micros)) => if micros * 1000 >= now_nanos {
                Some((micros * 1000 - now_nanos) as u128)
            } else {
                Some(0)
            },
        }
    }
}

/// The metronome as the user interface sees it.
pub struct Metronome {
    data: Arc<MetronomeData>,
    config: MetronomeConfig,
    stored: StoredConfig,
    observed: Observation,
    current_beat: u8,
    next_beat_instant: Option<(u8, u64)>,
}

impl Metronome {
    #[verifier::type_invariant]
    spec fn beats_in_range(self) -> bool {
        &&& self.current_beat < 0xFF
        &&& self.next_beat_instant matches Some((b, _)) ==> b < 0xFF
    }

    /// The index (from zero) of the beat shown.
    pub closed spec fn shown_beat(&self) -> u8 {
        self.current_beat
    }

    /// The configuration. The user interface is the only writer of the
    /// shared configuration: every change is made here and then stored,
    /// packed, for the audio callback to read.
    pub closed spec fn current_config(&self) -> MetronomeConfig {
        self.config
    }

    /// The configuration last stored into the shared state, which the audio
    /// callback plays from.
    pub closed spec fn shared_config(&self) -> MetronomeConfig {
        self.stored.config()
    }

    /// The shared state that configuration was stored into.
    pub closed spec fn shared_config_target(&self) -> MetronomeData {
        self.stored.data()
    }

    /// The announcement read at the last look at the shared state.
    pub closed spec fn observed_timestamp(&self) -> u64 {
        self.observed.timestamp()
    }

    /// The clock's reading (nanoseconds since the start time) at the last
    /// look at the shared state.
    pub closed spec fn observed_nanos(&self) -> u128 {
        self.observed.nanos()
    }

    /// The shared state of the last look.
    pub closed spec fn observed_target(&self) -> MetronomeData {
        self.observed.data()
    }

    /// The state shared with the audio callback.
    pub closed spec fn shared_state(&self) -> MetronomeData {
        *self.data
    }

    /// The beat awaited, with its time in microseconds after the start time.
    pub closed spec fn awaited_beat(&self) -> Option<(u8, u64)> {
        self.next_beat_instant
    }

    /// A stopped metronome whose shared state is made with the settings
    /// `args`, not playing; it shows the first beat and awaits none.
    pub fn new(args: &InputArgs) -> (m: Metronome)
        ensures
            m.current_config() == args.start_config(),
            m.shared_config() == args.start_config(),
            m.shared_config_target() == m.shared_state(),
            m.observed_target() == m.shared_state(),
            m.shared_state().initial_config() == args.start_config(),
            m.shown_beat() == 0,
            m.awaited_beat() is None,
    {
        let config = MetronomeConfig::from(args);
        let data = Arc::new(MetronomeData::new(config));
        let stored = data.store_config(&config);
        let (_, _, observed) = data.observe();
        Metronome { data, config, stored, observed, current_beat: 0, next_beat_instant: None }
    }

    /// Another handle on the state shared with the audio callback.
    pub fn shared(&self) -> (r: Arc<MetronomeData>)
        ensures
            *r == self.shared_state(),
    {
        share(&self.data)
    }

    /// The configuration as it is now.
    pub fn config(&self) -> (c: MetronomeConfig)
        ensures
            c == self.current_config(),
    {
        self.config
    }

    /// The beat shown, counted from one.
    pub fn current_beat(&self) -> (r: u8)
        ensures
            r == self.shown_beat() + 1,
    {
        proof {
            use_type_invariant(self);
        }
        self.current_beat + 1
    }

    /// The beat awaited, with its time in microseconds after the start time.
    pub fn next_beat(&self) -> (r: Option<(u8, u64)>)
        ensures
            r == self.awaited_beat(),
    {
        self.next_beat_instant
    }

    /// The beat that the announcement `timestamp` names, while `config` is
    /// playing.
    fn get_next_beat_instant(config: MetronomeConfig, timestamp: u64) -> (r: Option<(u8, u64)>)
        ensures
            r == spec_next_beat(config, timestamp),
    {
        if !config.playing {
            return None;
        }
        decode_beat_timestamp(timestamp, config.beats)
    }

    /// Brings the shown beat up to date, given the configuration, the
    /// announcement and the clock (nanoseconds since the start time).
    pub fn sync_at(&mut self, config: MetronomeConfig, timestamp: u64, now_nanos: u128)
        ensures
            (final(self).shown_beat(), final(self).awaited_beat()) == spec_sync(
                old(self).shown_beat(),
                old(self).awaited_beat(),
                config,
                timestamp,
                now_nanos,
            ),
            final(self).current_config() == old(self).current_config(),
            final(self).shared_config() == old(self).shared_config(),
            final(self).shared_config_target() == old(self).shared_config_target(),
            final(self).shared_state() == old(self).shared_state(),
            final(self).observed_target() == old(self).observed_target(),
            final(self).observed_timestamp() == old(self).observed_timestamp(),
            final(self).observed_nanos() == old(self).observed_nanos(),
    {
        proof {
            use_type_invariant(&*self);
        }
        if !config.playing {
            self.current_beat = 0;
            self.next_beat_instant = None;
            return;
        }
        match self.next_beat_instant {
            Some((beat, micros)) => {
                if now_nanos >= (micros as u128) * 1000 {
                    self.current_beat = beat;
                    self.next_beat_instant = Self::get_next_beat_instant(config, timestamp);
                }
            },
            None => {
                self.next_beat_instant = Self::get_next_beat_instant(config, timestamp);
            },
        }
    }

    /// Brings the shown beat up to date with the configuration, the shared
    /// announcement and the clock: it looks at the shared state (the
    /// announcement that the audio callback last stored, then the clock) and
    /// makes the change that `sync_at` makes for what it read.
    pub fn sync(&mut self)
        ensures
            final(self).current_config() == old(self).current_config(),
            final(self).shared_config() == old(self).shared_config(),
            final(self).shared_config_target() == old(self).shared_config_target(),
            final(self).shared_state() == old(self).shared_state(),
            final(self).observed_target() == final(self).shared_state(),
            (final(self).shown_beat(), final(self).awaited_beat()) == spec_sync(
                old(self).shown_beat(),
                old(self).awaited_beat(),
                old(self).current_config(),
                final(self).observed_timestamp(),
                final(self).observed_nanos(),
            ),
    {
        let config = self.config;
        let (timestamp, now, observed) = self.data.observe();
        self.sync_at(config, timestamp, now);
        proof {
            use_type_invariant(&*self);
        }
        self.observed = observed;
    }

    /// How long to wait for input, given the configuration and the clock
    /// (nanoseconds since the start time); `None` for as long as it takes.
    pub fn wait_time_at(&self, config: MetronomeConfig, now_nanos: u128) -> (r: Option<u128>)
        ensures
            r == spec_wait_time(self.awaited_beat(), config, now_nanos),
    {
        if !config.playing {
            return None;
        }
        match self.next_beat_instant {
            None => Some(60_000_000_000 / ((MAX_BPM as u128) * 2)),
            Some((_, micros)) => {
                let due = (micros as u128) * 1000;
                if due >= now_nanos {
                    Some(due - now_nanos)
                } else {
                    Some(0)
                }
            },
        }
    }

    /// How long to wait for input, in nanoseconds, as the clock reads now;
    /// `None` for as long as it takes: what `wait_time_at` gives for the
    /// configuration and the time read from the clock.
    pub fn get_wait_time(&self) -> (r: Option<u128>)
        ensures
            exists|now_nanos: u128|
                #![trigger spec_wait_time(self.awaited_beat(), self.current_config(), now_nanos)]
                r == spec_wait_time(self.awaited_beat(), self.current_config(), now_nanos),
    {
        let config = self.config;
        let now = self.data.elapsed_nanos();
        let r = self.wait_time_at(config, now);
        assert(r == spec_wait_time(self.awaited_beat(), self.current_config(), now));
        r
    }

    /// Makes `change` to the configuration and stores the result, packed,
    /// in the shared state for the audio callback: afterwards the
    /// configuration last stored there is the changed one.
    pub fn change(&mut self, change: ConfigChange)
        ensures
            final(self).current_config() == old(self).current_config().after(change),
            final(self).shared_config() == final(self).current_config(),
            final(self).shared_config_target() == final(self).shared_state(),
            final(self).shown_beat() == old(self).shown_beat(),
            final(self).awaited_beat() == old(self).awaited_beat(),
            final(self).shared_state() == old(self).shared_state(),
    {
        proof {
            use_type_invariant(&*self);
        }
        let mut config = self.config;
        config.apply(change);
        let stored = self.data.store_config(&config);
        self.config = config;
        self.stored = stored;
    }

    /// One beat per minute more, up to the maximum.
    pub fn inc_bpm(&mut self)
        ensures
            final(self).current_config() == old(self).current_config().after(ConfigChange::IncBpm),
            final(self).shared_config() == final(self).current_config(),
            final(self).shared_config_target() == final(self).shared_state(),
            final(self).shown_beat() == old(self).shown_beat(),
            final(self).awaited_beat() == old(self).awaited_beat(),
            final(self).shared_state() == old(self).shared_state(),
    {
        self.change(ConfigChange::IncBpm)
    }

    /// One beat per minute less, down to the minimum.
    pub fn dec_bpm(&mut self)
        ensures
            final(self).current_config() == old(self).current_config().after(ConfigChange::DecBpm),
            final(self).shared_config() == final(self).current_config(),
            final(self).shared_config_target() == final(self).shared_state(),
            final(self).shown_beat() == old(self).shown_beat(),
            final(self).awaited_beat() == old(self).awaited_beat(),
            final(self).shared_state() == old(self).shared_state(),
    {
        self.change(ConfigChange::DecBpm)
    }

    /// Louder, up to the maximum volume.
    pub fn inc_volume(&mut self)
        ensures
            final(self).current_config() == old(self).current_config().after(ConfigChange::IncVolume),
            final(self).shared_config() == final(self).current_config(),
            final(self).shared_config_target() == final(self).shared_state(),
            final(self).shown_beat() == old(self).shown_beat(),
            final(self).awaited_beat() == old(self).awaited_beat(),
            final(self).shared_state() == old(self).shared_state(),
    {
        self.change(ConfigChange::IncVolume)
    }

    /// Quieter, down to silence.
    pub fn dec_volume(&mut self)
        ensures
            final(self).current_config() == old(self).current_config().after(ConfigChange::DecVolume),
            final(self).shared_config() == final(self).current_config(),
            final(self).shared_config_target() == final(self).shared_state(),
            final(self).shown_beat() == old(self).shown_beat(),
            final(self).awaited_beat() == old(self).awaited_beat(),
            final(self).shared_state() == old(self).shared_state(),
    {
        self.change(ConfigChange::DecVolume)
    }

    /// One beat more per measure, up to the maximum; stops playback.
    pub fn inc_beats(&mut self)
        ensures
            final(self).current_config() == old(self).current_config().after(ConfigChange::IncBeats),
            final(self).shared_config() == final(self).current_config(),
            final(self).shared_config_target() == final(self).shared_state(),
            final(self).shown_beat() == old(self).shown_beat(),
            final(self).awaited_beat() == old(self).awaited_beat(),
            final(self).shared_state() == old(self).shared_state(),
    {
        self.change(ConfigChange::IncBeats)
    }

    /// One beat less per measure, down to the minimum; stops playback.
    pub fn dec_beats(&mut self)
        ensures
            final(self).current_config() == old(self).current_config().after(ConfigChange::DecBeats),
            final(self).shared_config() == final(self).current_config(),
            final(self).shared_config_target() == final(self).shared_state(),
            final(self).shown_beat() == old(self).shown_beat(),
            final(self).awaited_beat() == old(self).awaited_beat(),
            final(self).shared_state() == old(self).shared_state(),
    {
        self.change(ConfigChange::DecBeats)
    }

    /// The next number of subdivisions in the cycle; stops playback.
    pub fn change_subdivisions(&mut self)
        ensures
            final(self).current_config() == old(self).current_config().after(ConfigChange::ChangeSubdivisions),
            final(self).shared_config() == final(self).current_config(),
            final(self).shared_config_target() == final(self).shared_state(),
            final(self).shown_beat() == old(self).shown_beat(),
            final(self).awaited_beat() == old(self).awaited_beat(),
            final(self).shared_state() == old(self).shared_state(),
    {
        self.change(ConfigChange::ChangeSubdivisions)
    }

    /// Turns the accent on the first beat on or off.
    pub fn toggle_accent(&mut self)
        ensures
            final(self).current_config() == old(self).current_config().after(ConfigChange::ToggleAccent),
            final(self).shared_config() == final(self).current_config(),
            final(self).shared_config_target() == final(self).shared_state(),
            final(self).shown_beat() == old(self).shown_beat(),
            final(self).awaited_beat() == old(self).awaited_beat(),
            final(self).shared_state() == old(self).shared_state(),
    {
        self.change(ConfigChange::ToggleAccent)
    }

    /// Starts or stops playback.
    pub fn toggle_playing(&mut self)
        ensures
            final(self).current_config() == old(self).current_config().after(ConfigChange::TogglePlaying),
            final(self).shared_config() == final(self).current_config(),
            final(self).shared_config_target() == final(self).shared_state(),
            final(self).shown_beat() == old(self).shown_beat(),
            final(self).awaited_beat() == old(self).awaited_beat(),
            final(self).shared_state() == old(self).shared_state(),
    {
        self.change(ConfigChange::TogglePlaying)
    }

}


/// The beat awaited is always a beat of the measure it was announced for,
/// so the beat shown, counted from one, never passes the number of beats.
pub proof fn lemma_next_beat_in_measure(config: MetronomeConfig, timestamp: u64)
    ensures
        spec_next_beat(config, timestamp) matches Some((b, _)) ==> b < config.beats,
{
}


/// Stopping shows the first beat and awaits none, whatever was shown or
/// awaited before and whatever the clock and the announcement say.
pub proof fn lemma_stop_resets(
    beat: u8,
    next: Option<(u8, u64)>,
    config: MetronomeConfig,
    timestamp: u64,
    now_nanos: u128,
)
    requires
        !config.playing,
    ensures
        spec_sync(beat, next, config, timestamp, now_nanos) == (0u8, None::<(u8, u64)>),
{
}


/// While playing, a beat whose time has come (its microseconds, in
/// nanoseconds, not above the clock's reading) is shown and the beat
/// announced now is awaited; before its time, nothing changes.
pub proof fn lemma_sync_shows_due_beat(
    beat: u8,
    b: u8,
    micros: u64,
    config: MetronomeConfig,
    timestamp: u64,
    now_nanos: u128,
)
    requires
        config.playing,
    ensures
        now_nanos >= micros * 1000 ==> spec_sync(beat, Some((b, micros)), config, timestamp, now_nanos)
            == (b, spec_decode_beat_timestamp(timestamp, config.beats)),
        now_nanos < micros * 1000 ==> spec_sync(beat, Some((b, micros)), config, timestamp, now_nanos)
            == (beat, Some((b, micros))),
{
}

} // verus!
